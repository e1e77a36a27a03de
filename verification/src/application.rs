//! The application shell: a handle with the four phases of a frame loop.

use vstd::prelude::*;

verus! {

/// The application handle. It owns no state of its own.
pub struct Application {}

impl Application {
    /// Sets the application up. Start-up has no step that can fail, so the
    /// result is always `Ok`.
    pub fn init() -> (r: Result<Self, String>)
        ensures
            r is Ok,
    {
        let app = Self {};
        Ok(app)
    }

    /// Takes pending input. There is none to take at this level.
    pub fn events(&self) {
    }

    /// Advances the application by one frame.
    pub fn update(&self) {
    }

    /// Draws the current frame.
    pub fn render(&self) {
    }

    /// Releases what `init` acquired.
    pub fn exit(&self) {
    }
}

} // verus!
