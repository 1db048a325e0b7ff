//! Stepping through the recorded levels of a simplification.
//!
//! A decimation run leaves one mesh per collapse behind. The viewer shows one
//! of them at a time, and the keyboard moves a cursor over the recording. This
//! module holds the cursor: where each key takes it, and whether a batch of key
//! presses changed what is on screen.

use vstd::prelude::*;

verus! {

/// The keys the viewer listens to. Every key without a meaning here is `Other`.
#[derive(Clone, Copy, Debug, PartialEq, Eq, Structural)]
pub enum Key {
    /// One level further into the simplification.
    ArrowDown,
    /// One level back.
    ArrowUp,
    /// Back to the first level.
    R,
    /// A page of levels back.
    PageUp,
    /// A page of levels further.
    PageDown,
    /// Any other key, or an event that is no key press.
    Other,
}

/// How many levels `PageUp` and `PageDown` skip.
pub const PAGE: usize = 10;

/// Where a key asks the cursor to go from `index`, before the recording's end
/// is taken into account. Steps back never pass the first level.
pub open spec fn requested(index: int, key: Key) -> int {
    match key {
        Key::ArrowDown => index + 1,
        Key::ArrowUp => if index >= 1 { index - 1 } else { 0 },
        Key::R => 0,
        Key::PageUp => if index >= PAGE { index - PAGE } else { 0 },
        Key::PageDown => index + PAGE,
        Key::Other => index,
    }
}

/// The level shown after pressing `key` at `index` in a recording of `frames`
/// levels: the requested level, held to the last one.
pub open spec fn frame_after(index: int, key: Key, frames: int) -> int {
    let wanted = requested(index, key);
    if wanted > frames - 1 {
        frames - 1
    } else {
        wanted
    }
}

/// The level shown after pressing `keys` one after the other, starting at `index`.
pub open spec fn replay(index: int, keys: Seq<Key>, frames: int) -> int
    decreases keys.len(),
{
    if keys.len() == 0 {
        index
    } else {
        frame_after(replay(index, keys.drop_last(), frames), keys.last(), frames)
    }
}

/// Whether any single press among `keys`, replayed from `index`, changed the
/// level shown. A batch that wanders off and returns still counts as a change.
pub open spec fn changes(index: int, keys: Seq<Key>, frames: int) -> bool
    decreases keys.len(),
{
    keys.len() > 0 && {
        let before = replay(index, keys.drop_last(), frames);
        changes(index, keys.drop_last(), frames) || frame_after(before, keys.last(), frames)
            != before
    }
}

/// A cursor over a recording that holds at least one level.
#[derive(Clone, Copy, Debug)]
pub struct Playback {
    frames: usize,
    index: usize,
}

impl Playback {
    #[verifier::type_invariant]
    spec fn within(&self) -> bool {
        self.index < self.frames
    }

    /// The level the cursor is on.
    pub closed spec fn position(&self) -> int {
        self.index as int
    }

    /// The number of levels in the recording.
    pub closed spec fn length(&self) -> int {
        self.frames as int
    }

    /// A cursor on the first of `frames` levels, or nothing when the recording
    /// is empty: there is no level to show then.
    pub fn new(frames: usize) -> (cursor: Option<Playback>)
        ensures
            cursor is None <==> frames == 0,
            cursor matches Some(c) ==> c.position() == 0 && c.length() == frames,
    {
        if frames == 0 {
            None
        } else {
            Some(Playback { frames, index: 0 })
        }
    }

    /// The level the cursor is on; always a valid index into the recording.
    pub fn index(&self) -> (index: usize)
        ensures
            index == self.position(),
            0 <= self.position() < self.length(),
    {
        proof {
            use_type_invariant(self);
        }
        self.index
    }

    /// The number of levels in the recording; never zero.
    pub fn frames(&self) -> (frames: usize)
        ensures
            frames == self.length(),
            frames > 0,
    {
        proof {
            use_type_invariant(self);
        }
        self.frames
    }

    /// Moves the cursor as `key` asks and reports whether it moved.
    pub fn press(&mut self, key: Key) -> (moved: bool)
        ensures
            final(self).length() == old(self).length(),
            final(self).position() == frame_after(old(self).position(), key, old(self).length()),
            moved == (final(self).position() != old(self).position()),
    {
        proof {
            use_type_invariant(&*self);
        }
        let last: usize = self.frames - 1;
        let index: usize = self.index;
        let next: usize = match key {
            Key::ArrowDown => if index < last { index + 1 } else { last },
            Key::ArrowUp => if index >= 1 { index - 1 } else { 0 },
            Key::R => 0,
            Key::PageUp => if index >= PAGE { index - PAGE } else { 0 },
            Key::PageDown => if last - index > PAGE { index + PAGE } else { last },
            Key::Other => index,
        };
        self.index = next;
        next != index
    }

    /// Feeds one frame's key presses to the cursor, in order, and reports
    /// whether the picture has to be drawn again.
    pub fn handle_keys(&mut self, keys: &[Key]) -> (redraw: bool)
        ensures
            final(self).length() == old(self).length(),
            final(self).position() == replay(old(self).position(), keys@, old(self).length()),
            redraw == changes(old(self).position(), keys@, old(self).length()),
    {
        let ghost start = self.position();
        let ghost frames = self.length();
        let mut redraw = false;
        let mut i: usize = 0;
        while i < keys.len()
            invariant
                i <= keys.len(),
                self.length() == frames,
                self.position() == replay(start, keys@.take(i as int), frames),
                redraw == changes(start, keys@.take(i as int), frames),
            decreases keys.len() - i,
        {
            proof {
                assert(keys@.take(i + 1).drop_last() =~= keys@.take(i as int));
            }
            let moved = self.press(keys[i]);
            redraw = redraw || moved;
            i += 1;
        }
        proof {
            assert(keys@.take(i as int) =~= keys@);
        }
        redraw
    }
}

} // verus!
