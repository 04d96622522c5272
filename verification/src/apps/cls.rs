//! The screen-clear application: one tick, one cleared text screen.

use vstd::prelude::*;

use crate::app::{LittleManApp, OsHandle, StartError};
use crate::display::VgaColor;
use crate::path::Path;
use crate::stack::Stack;

verus! {

/// The constructor of the screen-clear application.
#[derive(Clone, Copy, Debug, PartialEq, Eq, Structural)]
pub struct ClearScreen;

/// The running screen-clear application.
#[derive(Clone, Copy, Debug, PartialEq, Eq, Structural)]
pub struct ClearScreenApp;

impl ClearScreen {
    /// Where the application is installed.
    pub fn path() -> (r: Path)
        ensures
            r@ == "cls.run"@,
    {
        Path::from("cls.run")
    }
}

impl ClearScreenApp {
    /// Clears the text screen to black if text mode is active, and asks to
    /// exit either way.
    pub fn tick(&self, handle: &mut OsHandle)
        ensures
            !final(handle).live(),
            old(handle).graphics.is_text_mode() ==> {
                &&& final(handle).graphics.is_text_mode()
                &&& final(handle).graphics.text_writer().written@ == Seq::<char>::empty()
                &&& final(handle).graphics.text_writer().cursor_x == 0
                &&& final(handle).graphics.text_writer().cursor_y == 0
                &&& final(handle).graphics.text_writer().colors.background == VgaColor::Black
            },
            !old(handle).graphics.is_text_mode() ==> final(handle).graphics == old(handle).graphics,
            final(handle).pending() == old(handle).pending(),
            final(handle).keyboard == old(handle).keyboard,
            final(handle).files == old(handle).files,
            final(handle).machine == old(handle).machine,
    {
        let _ = handle.graphics.text_clear_screen(VgaColor::Black);
        handle.call_exit();
    }
}

impl LittleManApp for ClearScreenApp {
    fn start(&mut self, _args: &mut Stack) -> Result<(), StartError> {
        Ok(())
    }

    fn update(&mut self, handle: &mut OsHandle) {
        self.tick(handle);
    }

    fn shutdown(&mut self) {
    }
}

} // verus!
