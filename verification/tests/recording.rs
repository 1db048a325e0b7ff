use mesh_viewer::playback::Key;
use mesh_viewer::recording::Recording;

#[test]
fn a_new_recording_holds_no_level() {
    let recording: Recording<u32> = Recording::new();
    assert!(recording.as_slice().is_empty());
    assert!(recording.cursor().is_none());
}

#[test]
fn a_level_that_was_made_is_appended_last() {
    let mut recording: Recording<&str> = Recording::new();
    assert_eq!(recording.record(Ok::<&str, String>("first")), Ok(()));
    assert_eq!(recording.as_slice(), ["first"]);
    assert_eq!(recording.record(Ok::<&str, String>("second")), Ok(()));
    assert_eq!(recording.record(Ok::<&str, String>("third")), Ok(()));
    assert_eq!(recording.as_slice(), ["first", "second", "third"]);
}

#[test]
fn a_failure_is_handed_back_and_nothing_is_recorded() {
    let mut recording: Recording<u32> = Recording::new();
    assert_eq!(recording.record(Ok::<u32, String>(7)), Ok(()));
    assert_eq!(
        recording.record(Err("Cannot borrow points".to_string())),
        Err("Cannot borrow points".to_string())
    );
    assert_eq!(recording.as_slice(), [7]);
    assert_eq!(recording.record(Ok::<u32, String>(8)), Ok(()));
    assert_eq!(recording.as_slice(), [7, 8]);
}

#[test]
fn a_failure_on_an_empty_recording_leaves_it_empty() {
    let mut recording: Recording<u32> = Recording::new();
    assert_eq!(recording.record(Err::<u32, u8>(3)), Err(3));
    assert!(recording.as_slice().is_empty());
    assert!(recording.cursor().is_none());
}

#[test]
fn the_cursor_spans_the_levels_recorded_so_far() {
    let mut recording: Recording<char> = Recording::new();
    for level in ['a', 'b', 'c'] {
        assert_eq!(recording.record(Ok::<char, ()>(level)), Ok(()));
    }
    let mut cursor = recording.cursor().expect("three levels");
    assert_eq!(cursor.index(), 0);
    assert_eq!(cursor.frames(), 3);
    assert!(cursor.handle_keys(&[Key::PageDown]));
    assert_eq!(recording.as_slice()[cursor.index()], 'c');
    assert_eq!(recording.record(Ok::<char, ()>('d')), Ok(()));
    assert_eq!(recording.cursor().expect("four levels").frames(), 4);
}
