//! The launch pipeline and the installed applications, driven end to end
//! through the run word.

use little_man_os::apps::forrunner::ForRunner;
use little_man_os::apps::Application;
use little_man_os::files::{FileSystemError, InstalledApp};
use little_man_os::forth::{ForthMachine, NativeWord, Word};
use little_man_os::input::{Key, KeyModifiers};
use little_man_os::launch::get_app;
use little_man_os::path::Path;
use little_man_os::stack::StackValue;

fn machine_with_run() -> ForthMachine {
    let mut m = ForthMachine::new();
    m.insert_word("run", Word::Native(NativeWord::Run));
    m
}

#[test]
fn resolution_falls_back_to_the_binaries_directory() {
    let mut m = ForthMachine::new();
    m.files
        .install(&Path::from("bin/forrunner.run"), InstalledApp::ForRunner);
    m.stack.push(StackValue::Text(String::from("forrunner")));
    let r = get_app(&mut m);
    assert!(matches!(r, Ok(Application::ForRunner(_))));
    assert_eq!(m.stack.len(), 0);
}

#[test]
fn resolution_fails_when_both_locations_are_empty() {
    let mut m = ForthMachine::new();
    m.stack.push(StackValue::Text(String::from("forrunner")));
    assert!(matches!(
        get_app(&mut m),
        Err(FileSystemError::FileNotFound)
    ));
}

#[test]
fn resolution_prefers_the_relative_location() {
    let mut m = ForthMachine::new();
    m.files
        .install(&Path::from("bin/tool.run"), InstalledApp::ForRunner);
    m.files
        .install(&Path::from("tool.run"), InstalledApp::ClearScreen);
    m.stack.push(StackValue::Text(String::from("tool")));
    assert!(matches!(get_app(&mut m), Ok(Application::ClearScreen(_))));
}

#[test]
fn resolution_respects_the_active_directory() {
    let mut m = ForthMachine::new();
    m.files.set_active_directory(Path::from("home"));
    m.files
        .install(&Path::from("home/tool.run"), InstalledApp::Help);
    m.stack.push(StackValue::Text(String::from("tool")));
    assert!(matches!(get_app(&mut m), Ok(Application::Help(_))));
}

#[test]
fn resolution_without_a_text_argument_reports_an_empty_path() {
    let mut m = ForthMachine::new();
    assert!(matches!(get_app(&mut m), Err(FileSystemError::EmptyPath)));
    m.stack.push(StackValue::Number(4));
    assert!(matches!(get_app(&mut m), Err(FileSystemError::EmptyPath)));
    assert_eq!(m.stack.len(), 1);
}

#[test]
fn resolution_refuses_a_plain_data_file() {
    let mut m = ForthMachine::new();
    m.files
        .create_file(&Path::from("bin/tool.run"), b"data".to_vec());
    m.stack.push(StackValue::Text(String::from("tool")));
    assert!(matches!(
        get_app(&mut m),
        Err(FileSystemError::NotExecutable)
    ));
}

#[test]
fn run_word_executes_a_script_through_the_runner() {
    let mut m = machine_with_run();
    m.files
        .install(&Path::from("bin/forrunner.run"), InstalledApp::ForRunner);
    m.files
        .create_file(&Path::from("script.for"), b"7 dup".to_vec());
    m.add_instructions("\"script.for\" \"forrunner\" run");
    m.run_to_end();
    assert_eq!(m.stack.try_pop::<i64>(), Some(7));
    assert_eq!(m.stack.try_pop::<i64>(), Some(7));
    assert_eq!(m.stack.len(), 0);
}

#[test]
fn script_output_precedes_tokens_after_the_run_word() {
    let mut m = machine_with_run();
    m.files
        .install(&Path::from("bin/forrunner.run"), InstalledApp::ForRunner);
    m.files
        .create_file(&Path::from("script.for"), b"1 2".to_vec());
    m.add_instructions("\"script.for\" \"forrunner\" run 9");
    m.run_to_end();
    assert_eq!(m.stack.try_pop::<i64>(), Some(9));
    assert_eq!(m.stack.try_pop::<i64>(), Some(2));
    assert_eq!(m.stack.try_pop::<i64>(), Some(1));
}

#[test]
fn clear_screen_app_erases_the_text_display() {
    let mut m = machine_with_run();
    m.files
        .install(&Path::from("bin/cls.run"), InstalledApp::ClearScreen);
    let _ = m.display.text_write_str("leftovers");
    m.add_instructions("\"cls\" run");
    m.run_to_end();
    match &m.display.formatter {
        little_man_os::display::GraphicsHandleType::TextMode(w) => {
            assert_eq!(w.written.as_str(), "");
            assert_eq!(
                w.colors.background,
                little_man_os::display::VgaColor::Black
            );
        }
        _ => panic!("expected text mode"),
    }
}

#[test]
fn help_app_writes_the_english_text_for_eng() {
    let mut m = machine_with_run();
    m.files
        .install(&Path::from("bin/help.run"), InstalledApp::Help);
    m.add_instructions("\"eng\" \"help\" run");
    m.run_to_end();
    match &m.display.formatter {
        little_man_os::display::GraphicsHandleType::TextMode(w) => {
            assert!(w.written.contains("This operating system"));
        }
        _ => panic!("expected text mode"),
    }
}

#[test]
fn missing_app_is_reported_to_the_display() {
    let mut m = machine_with_run();
    m.add_instructions("\"ghost\" run");
    m.run_to_end();
    match &m.display.formatter {
        little_man_os::display::GraphicsHandleType::TextMode(w) => {
            assert!(w.written.contains("Run: file not found"));
        }
        _ => panic!("expected text mode"),
    }
}

#[test]
fn script_runner_without_a_file_argument_reports_bad_start() {
    let mut m = machine_with_run();
    m.files
        .install(&Path::from("bin/forrunner.run"), InstalledApp::ForRunner);
    m.add_instructions("\"forrunner\" run");
    m.run_to_end();
    match &m.display.formatter {
        little_man_os::display::GraphicsHandleType::TextMode(w) => {
            assert!(w.written.contains("App: invalid start parameter"));
        }
        _ => panic!("expected text mode"),
    }
}

#[test]
fn script_runner_drains_the_script_before_returning() {
    let mut m = ForthMachine::new();
    m.files
        .create_file(&Path::from("job.for"), b"3 dup".to_vec());
    m.stack.push(StackValue::Text(String::from("job.for")));
    let mut runner = ForRunner;
    assert!(runner.run(&mut m).is_ok());
    // the script has executed when run returns: nothing is left pending
    assert!(m.is_idle());
    assert_eq!(m.stack.try_pop::<i64>(), Some(3));
    assert_eq!(m.stack.try_pop::<i64>(), Some(3));
    assert_eq!(m.stack.len(), 0);
}

#[test]
fn script_with_swedish_text_runs() {
    let mut m = machine_with_run();
    m.files
        .install(&Path::from("bin/forrunner.run"), InstalledApp::ForRunner);
    m.files
        .create_file(&Path::from("s.for"), "p\u{e5}".as_bytes().to_vec());
    m.add_instructions("\"s.for\" \"forrunner\" run");
    m.run_to_end();
    assert_eq!(m.stack.try_pop::<String>(), Some(String::from("p\u{e5}")));
}

#[test]
fn editor_edits_and_saves_through_the_broker() {
    let mut m = machine_with_run();
    m.files
        .install(&Path::from("bin/texteditor.run"), InstalledApp::ForEditor);
    m.files.create_file(&Path::from("notes.txt"), b"hi".to_vec());
    m.keyboard.push_event(Key::from_char('a'));
    m.keyboard.push_event(Key {
        id: 0x1F,
        character: None,
        modifiers: KeyModifiers {
            ctrl: true,
            shift: true,
        },
    });
    m.keyboard.push_event(Key::from_char('\x1B'));
    m.add_instructions("\"notes.txt\" \"texteditor\" run");
    m.run_to_end();
    assert_eq!(
        m.files.read_file(&Path::from("notes.txt")).unwrap(),
        b"ahi".to_vec()
    );
    // leaving the editor restores the screen: cleared to black, cursor
    // re-enabled at the origin
    match &m.display.formatter {
        little_man_os::display::GraphicsHandleType::TextMode(w) => {
            assert_eq!(w.written.as_str(), "");
            assert_eq!(
                w.colors.background,
                little_man_os::display::VgaColor::Black
            );
            assert!(w.cursor_enabled);
            assert_eq!((w.cursor_x, w.cursor_y), (0, 0));
        }
        _ => panic!("expected text mode"),
    }
}
