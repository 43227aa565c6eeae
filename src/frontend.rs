use vstd::prelude::*;

use crate::display::ScreenBuffer;

verus! {

/// A presenter of the screen: a window, a terminal, a test harness.
pub trait Frontend: Sized {
    fn new() -> Self;

    /// Prepares the frontend for rendering, or says why it cannot.
    fn start(&mut self) -> Result<(), &'static str>;

    /// Presents `buf`; `Ok(false)` once the frontend has been closed.
    fn render(&mut self, buf: &ScreenBuffer) -> Result<bool, &'static str>;
}

} // verus!
