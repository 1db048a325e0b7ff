//! Failures reported by the graphics layer.

use vstd::prelude::*;
use vstd::string::*;

verus! {

/// An error raised while talking to the graphics driver.
pub enum Error {
    /// The driver refused a request; the payload is the driver's own message.
    GLError(String),
}

/// The text that precedes the driver's message in a rendered error.
pub open spec fn gl_error_prefix() -> Seq<char> {
    "OpenGL Error: "@
}

impl Error {
    /// The driver's message carried by this error.
    pub open spec fn detail(&self) -> Seq<char> {
        match self {
            Error::GLError(message) => message@,
        }
    }

    /// The rendered form of this error: the prefix followed by the driver's message.
    pub open spec fn rendered(&self) -> Seq<char> {
        gl_error_prefix() + self.detail()
    }

    /// Renders this error as a line of text for logs and panics.
    pub fn describe(&self) -> (text: String)
        ensures
            text@ == self.rendered(),
    {
        match self {
            Error::GLError(message) => String::from_str("OpenGL Error: ").concat(message.as_str()),
        }
    }
}

} // verus!
