//! The verified core of a mesh decimation viewer.
//!
//! The viewer simplifies a polygon mesh one edge collapse at a time, keeps the
//! mesh after every collapse and lets the user leaf through the recording.
//! Geometry, windowing and the graphics device are other crates' business; what
//! is proved here is the part that is the viewer's own:
//!
//! - [`decimation`]: whether a run performed all the collapses asked of it,
//! - [`recording`]: the levels kept during a run, one per collapse that went well,
//! - [`playback`]: the cursor over the recording and what each key does to it,
//! - [`indices`]: the flat index list a triangle list becomes on upload,
//! - [`error`]: the error of the graphics layer and its rendered text.

pub mod decimation;
pub mod error;
pub mod indices;
pub mod playback;
pub mod recording;
