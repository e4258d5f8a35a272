//! The three ways in which bringing up the window, its GPU context and its
//! drawing surface can fail.

use vstd::prelude::*;

verus! {

/// A fatal start-up failure. Nothing is retried and no degraded mode exists:
/// each of these ends the start-up.
#[derive(Clone, Copy, Debug, PartialEq, Eq, Structural)]
pub enum ShellError {
    /// The platform could not provide a window with the requested pixel
    /// format and context profile.
    WindowCreation,
    /// The window's context could not be made current on the calling thread.
    ContextActivation,
    /// The GPU layer rejected the render target or the surface, or a value
    /// read from the driver does not fit the integer type it is needed in.
    SurfaceBinding,
}

impl ShellError {
    /// The diagnostic text that names this failure.
    pub open spec fn spec_message(self) -> Seq<char> {
        match self {
            ShellError::WindowCreation => "Failed creating window context"@,
            ShellError::ContextActivation => "Failed making window context current"@,
            ShellError::SurfaceBinding => "Failed creating skia surface"@,
        }
    }

    /// The diagnostic text that names this failure, to be shown before the
    /// process ends.
    pub fn message(&self) -> (text: String)
        ensures
            text@ == self.spec_message(),
    {
        match self {
            ShellError::WindowCreation => "Failed creating window context".to_owned(),
            ShellError::ContextActivation => "Failed making window context current".to_owned(),
            ShellError::SurfaceBinding => "Failed creating skia surface".to_owned(),
        }
    }
}

/// Two different failures never share a diagnostic text: the text names the
/// failure.
pub proof fn lemma_message_names_failure(a: ShellError, b: ShellError)
    requires
        a.spec_message() == b.spec_message(),
    ensures
        a == b,
{
    reveal_strlit("Failed creating window context");
    reveal_strlit("Failed making window context current");
    reveal_strlit("Failed creating skia surface");
    assert("Failed creating window context"@.len() == 30);
    assert("Failed making window context current"@.len() == 36);
    assert("Failed creating skia surface"@.len() == 28);
}

} // verus!
