//! The smaller pieces: the filesystem catalog, the keyboard queue, the
//! display models, the editor's buffer operations, and the number
//! renderer.

use little_man_os::apps::foreditor::{ForEditor, LineSpan};
use little_man_os::decimal::U32Str;
use little_man_os::display::{TextWriter, VgaPaletteColor};
use little_man_os::files::{FileSystem, FileSystemError, InstalledApp};
use little_man_os::input::{Key, KeyModifiers, Keyboard};
use little_man_os::app::ProgramError;
use little_man_os::path::Path;
use little_man_os::strutil::bytes_to_string;

#[test]
fn catalog_lookups_use_cleaned_paths() {
    let mut f = FileSystem::new();
    f.create_file(&Path::from("a/b.txt"), b"x".to_vec());
    assert!(f.contains(&Path::from("a/./b.txt")));
    assert!(f.contains(&Path::from("/a/c/../b.txt")));
    assert!(!f.contains(&Path::from("b.txt")));
    assert_eq!(f.read_file(&Path::from("a/b.txt")).unwrap(), b"x".to_vec());
}

#[test]
fn read_file_reports_each_failure() {
    let mut f = FileSystem::new();
    f.install(&Path::from("tool.run"), InstalledApp::Help);
    assert_eq!(
        f.read_file(&Path::from("ghost")),
        Err(FileSystemError::FileNotFound)
    );
    assert_eq!(
        f.read_file(&Path::from("tool.run")),
        Err(FileSystemError::InvalidData)
    );
}

#[test]
fn write_file_requires_an_existing_file() {
    let mut f = FileSystem::new();
    assert_eq!(
        f.write_file(&Path::from("a"), b"1".to_vec()),
        Err(FileSystemError::FileNotFound)
    );
    f.create_file(&Path::from("a"), b"1".to_vec());
    assert_eq!(f.write_file(&Path::from("a"), b"2".to_vec()), Ok(()));
    assert_eq!(f.read_file(&Path::from("a")).unwrap(), b"2".to_vec());
}

#[test]
fn app_at_distinguishes_data_from_applications() {
    let mut f = FileSystem::new();
    f.create_file(&Path::from("a"), b"1".to_vec());
    f.install(&Path::from("b"), InstalledApp::ClearScreen);
    assert_eq!(f.app_at(&Path::from("a")), Err(FileSystemError::NotExecutable));
    assert_eq!(f.app_at(&Path::from("b")), Ok(InstalledApp::ClearScreen));
    assert_eq!(f.app_at(&Path::from("c")), Err(FileSystemError::FileNotFound));
}

#[test]
fn keyboard_delivers_events_first_in_first_out() {
    let mut k = Keyboard::new();
    assert!(k.try_getch().is_none());
    k.push_event(Key::from_char('a'));
    k.push_event(Key::from_char('b'));
    assert_eq!(k.try_getch().unwrap().character, Some('a'));
    assert_eq!(k.try_getch().unwrap().character, Some('b'));
    assert!(k.try_getch().is_none());
}

#[test]
fn keyboard_drops_events_when_full() {
    let mut k = Keyboard::new();
    for _ in 0..300 {
        k.push_event(Key::from_char('x'));
    }
    assert_eq!(k.len(), 256);
}

#[test]
fn palette_fade_scales_each_channel() {
    let c = VgaPaletteColor::from_rgb(100, 200, 255).faded(128);
    assert_eq!(c.red, 50);
    assert_eq!(c.green, 100);
    assert_eq!(c.blue, 128);
}

#[test]
fn text_writer_logs_and_moves_the_cursor() {
    let mut w = TextWriter::new();
    w.write_str("abc");
    w.next_line();
    w.write_str("d");
    assert_eq!(w.written.as_str(), "abc\nd");
    w.set_position((3, 7));
    assert_eq!((w.cursor_x, w.cursor_y), (3, 7));
    w.back_up(5);
    assert_eq!(w.cursor_x, 0);
}

#[test]
fn editor_line_cache_follows_line_breaks() {
    let mut e = ForEditor::new();
    e.work = String::from("ab\ncd\n");
    e.refresh_line_cache();
    assert_eq!(e.line_cache.len(), 3);
    assert!(e.line_cache[0] == LineSpan { start: 0, end: 2 });
    assert!(e.line_cache[1] == LineSpan { start: 3, end: 5 });
    assert!(e.line_cache[2] == LineSpan { start: 6, end: 6 });
}

#[test]
fn editor_add_and_remove_char_edit_at_the_cursor() {
    let mut e = ForEditor::new();
    e.add_char('h');
    e.add_char('i');
    assert_eq!(e.work.as_str(), "hi");
    assert_eq!(e.cursor_position, 2);
    e.remove_char();
    assert_eq!(e.work.as_str(), "h");
    assert_eq!(e.cursor_position, 1);
    e.remove_char();
    e.remove_char();
    assert_eq!(e.work.as_str(), "");
    assert_eq!(e.cursor_position, 0);
}

#[test]
fn editor_redraw_reports_the_escape_key() {
    let mut e = ForEditor::new();
    e.refresh_line_cache();
    let mut w = TextWriter::new();
    assert!(!e.redraw(Some(Key::from_char('x')), &mut w));
    assert_eq!(e.work.as_str(), "x");
    assert!(e.redraw(Some(Key::from_char('\x1B')), &mut w));
    assert_eq!(e.work.as_str(), "x");
}

#[test]
fn byte_decoding_accepts_exactly_valid_utf8() {
    assert_eq!(bytes_to_string(vec![104, 105]).as_deref(), Some("hi"));
    assert_eq!(
        bytes_to_string(vec![104, 195, 165]).as_deref(),
        Some("h\u{e5}")
    );
    assert!(bytes_to_string(vec![104, 200]).is_none());
    assert!(bytes_to_string(vec![0xed, 0xa0, 0x80]).is_none());
}

#[test]
fn screen_buffer_reports_its_dimensions() {
    let b = little_man_os::display::ScreenBuffer::<u8, 80, 25> {
        chars: [[0u8; 80]; 25],
    };
    assert_eq!(b.width(), 80);
    assert_eq!(b.height(), 25);
}

#[test]
fn editor_load_refuses_contents_that_are_not_text() {
    let mut f = FileSystem::new();
    f.create_file(&Path::from("blob"), vec![104, 200]);
    let mut e = ForEditor::new();
    let r = e.load_file(String::from("blob"), &f);
    assert!(matches!(r, Err(ProgramError::Custom(_))));
    assert!(e.path.is_none());
    let r2 = e.load_file(String::from("ghost"), &f);
    assert!(matches!(r2, Err(ProgramError::FileSystemError)));
}

#[test]
fn editor_load_accepts_valid_utf8_beyond_ascii() {
    let mut f = FileSystem::new();
    f.create_file(&Path::from("notes"), vec![104, 195, 165]);
    let mut e = ForEditor::new();
    assert!(e.load_file(String::from("notes"), &f).is_ok());
    assert_eq!(e.work.as_str(), "h\u{e5}");
    assert!(e.path.is_some());
}

#[test]
fn editor_quits_on_escape_whatever_the_modifiers() {
    let mut e = ForEditor::new();
    e.refresh_line_cache();
    let mut w = TextWriter::new();
    let ctrl_escape = Key {
        id: 0,
        character: Some('\x1B'),
        modifiers: KeyModifiers {
            ctrl: true,
            shift: false,
        },
    };
    assert!(e.redraw(Some(ctrl_escape), &mut w));
}

#[test]
fn number_rendering_keeps_the_nonzero_digits() {
    assert_eq!(U32Str::from(1234).as_bytes(), b"1234");
    assert_eq!(U32Str::from(105).as_bytes(), b"15");
    assert_eq!(U32Str::from(1000000).as_bytes(), b"1");
    assert_eq!(U32Str::from(0).as_bytes(), b"");
}
