//! The capability broker: deferred calls, the run flag, and the text-mode
//! gate.

use little_man_os::app::{OsHandle, SystemCall};
use little_man_os::display::{GraphicsHandle, VgaModeSwitch, VideoModeError};
use little_man_os::forth::ForthMachine;

#[test]
fn execute_without_interpreter_defers_the_command() {
    let mut h = OsHandle::new(GraphicsHandle::text_mode());
    assert!(!h.execute("x"));
    let calls = h.flush_calls();
    assert_eq!(calls.len(), 1);
    match &calls[0] {
        SystemCall::ForthFunction(s) => assert_eq!(s.as_str(), "x"),
        _ => panic!("expected a deferred command"),
    }
    let again = h.flush_calls();
    assert_eq!(again.len(), 0);
}

#[test]
fn execute_with_idle_interpreter_runs_synchronously() {
    let m = ForthMachine::new();
    let mut h = OsHandle::new_complicated(GraphicsHandle::text_mode(), m);
    assert!(h.execute("3 dup"));
    assert_eq!(h.flush_calls().len(), 0);
    let mut m = h.take_machine().expect("the machine is handed back");
    assert_eq!(m.stack.try_pop::<i64>(), Some(3));
    assert_eq!(m.stack.try_pop::<i64>(), Some(3));
}

#[test]
fn display_switch_requests_drain_in_submission_order() {
    let mut h = OsHandle::new(GraphicsHandle::text_mode());
    h.request_display_switch(VgaModeSwitch::Vga320x200Bitmap);
    h.request_display_switch(VgaModeSwitch::Vga80x25Text);
    let calls = h.flush_calls();
    assert_eq!(calls.len(), 2);
    assert!(matches!(
        calls[0],
        SystemCall::SwitchGraphics(VgaModeSwitch::Vga320x200Bitmap)
    ));
    assert!(matches!(
        calls[1],
        SystemCall::SwitchGraphics(VgaModeSwitch::Vga80x25Text)
    ));
    assert_eq!(h.flush_calls().len(), 0);
}

#[test]
fn mixed_deferred_calls_keep_submission_order() {
    let mut h = OsHandle::new(GraphicsHandle::text_mode());
    assert!(!h.execute("a"));
    h.request_display_switch(VgaModeSwitch::Vga80x25Text);
    assert!(!h.execute("b"));
    let calls = h.flush_calls();
    assert_eq!(calls.len(), 3);
    assert!(matches!(&calls[0], SystemCall::ForthFunction(s) if s.as_str() == "a"));
    assert!(matches!(&calls[1], SystemCall::SwitchGraphics(_)));
    assert!(matches!(&calls[2], SystemCall::ForthFunction(s) if s.as_str() == "b"));
}

#[test]
fn text_display_fails_exactly_in_graphics_mode() {
    let mut h = OsHandle::new(GraphicsHandle::graphics_mode());
    assert!(matches!(
        h.text_display(),
        Err(VideoModeError::GraphicsModeActive)
    ));
    let g = h.graphics;
    h.graphics = g.switch(VgaModeSwitch::Vga80x25Text);
    assert!(h.text_display().is_ok());
    let g = h.graphics;
    h.graphics = g.switch(VgaModeSwitch::Vga320x200Bitmap);
    assert!(matches!(
        h.text_display(),
        Err(VideoModeError::GraphicsModeActive)
    ));
}

#[test]
fn text_operations_are_refused_in_graphics_mode() {
    let mut h = OsHandle::new(GraphicsHandle::graphics_mode());
    assert!(matches!(
        h.graphics.text_write_str("hello"),
        Err(VideoModeError::GraphicsModeActive)
    ));
    let g = h.graphics;
    h.graphics = g.switch(VgaModeSwitch::Vga80x25Text);
    assert!(h.graphics.text_write_str("hello").is_ok());
    match &h.graphics.formatter {
        little_man_os::display::GraphicsHandleType::TextMode(w) => {
            assert_eq!(w.written.as_str(), "hello");
        }
        _ => panic!("expected text mode"),
    }
}

#[test]
fn text_mode_formatter_grants_the_writer_only_in_text_mode() {
    let mut h = OsHandle::new(GraphicsHandle::text_mode());
    {
        let w = h.text_mode_formatter().expect("text mode is active");
        w.write_str("ok");
    }
    let g = h.graphics;
    h.graphics = g.switch(VgaModeSwitch::Vga320x200Bitmap);
    assert!(matches!(
        h.text_mode_formatter(),
        Err(VideoModeError::GraphicsModeActive)
    ));
}

#[test]
fn call_exit_flips_the_run_flag() {
    let mut h = OsHandle::new(GraphicsHandle::text_mode());
    assert!(h.running());
    h.call_exit();
    assert!(!h.running());
}
