//! The text editor: a polling application that edits a character buffer,
//! keeps a cache of line extents, and saves back through the filesystem
//! capability. Cursor positions and line extents count characters.

use vstd::prelude::*;
use vstd::string::*;

use crate::app::{LittleManApp, OsHandle, ProgramError, StartError};
use crate::display::{TextWriter, VgaColor, VgaColorCombo};
use crate::files::FileSystem;
use crate::input::Key;
use crate::path::Path;
use crate::stack::Stack;
use crate::strutil::{bytes_to_string, push_char};
use vstd::utf8::{decode_utf8, valid_utf8};

verus! {

/// One line of the buffer: the character range `[start, end)`; the line
/// break itself sits at `end` for every line but the last.
#[derive(Clone, Copy, Debug, PartialEq, Eq, Structural)]
pub struct LineSpan {
    pub start: usize,
    pub end: usize,
}

/// Whether `spans` is exactly the line decomposition of `s`: the spans
/// tile the text, each break position carries a line break, and no line
/// break hides inside a span.
pub open spec fn spans_wf(spans: Seq<LineSpan>, s: Seq<char>) -> bool {
    &&& spans.len() >= 1
    &&& spans[0].start == 0
    &&& spans[spans.len() - 1].end == s.len()
    &&& forall|k: int|
        0 <= k < spans.len() ==> (#[trigger] spans[k]).start <= spans[k].end <= s.len()
    &&& forall|k: int|
        0 <= k < spans.len() - 1 ==> (#[trigger] spans[k + 1]).start == spans[k].end + 1
    &&& forall|k: int|
        0 <= k < spans.len() - 1 ==> s[(#[trigger] spans[k]).end as int] == '\n'
    &&& forall|k: int, j: int|
        #![trigger spans[k], s[j]]
        0 <= k < spans.len() && spans[k].start <= j < spans[k].end ==> s[j] != '\n'
}

/// The constructor of the editor.
#[derive(Clone, Copy, Debug, PartialEq, Eq, Structural)]
pub struct ForEditorFile;

impl ForEditorFile {
    /// Where the editor is installed.
    pub fn path() -> (r: Path)
        ensures
            r@ == "texteditor.run"@,
    {
        Path::from("texteditor.run")
    }
}

/// The running editor.
pub struct ForEditor {
    /// The buffer being edited.
    pub work: String,
    /// The cached line decomposition of `work`.
    pub line_cache: Vec<LineSpan>,
    /// The cursor, as a character position into `work`.
    pub cursor_position: usize,
    /// The first visible column.
    pub x_offset: usize,
    /// The first visible line.
    pub y_offset: usize,
    /// Where the buffer will be saved, once known.
    pub path: Option<Path>,
    /// A file named on the stack, loaded on the first tick.
    pub pending_load: Option<String>,
}

impl ForEditor {
    /// The buffer's and cursor's basic consistency.
    pub open spec fn wf(&self) -> bool {
        &&& self.cursor_position <= self.work@.len()
        &&& spans_wf(self.line_cache@, self.work@)
    }

    /// A fresh editor over an empty buffer.
    pub fn new() -> (r: Self)
        ensures
            r.wf(),
            r.work@ == Seq::<char>::empty(),
            r.cursor_position == 0,
            r.path is None,
            r.pending_load is None,
    {
        let mut line_cache: Vec<LineSpan> = Vec::new();
        line_cache.push(LineSpan { start: 0, end: 0 });
        ForEditor {
            work: String::new(),
            line_cache,
            cursor_position: 0,
            x_offset: 0,
            y_offset: 0,
            path: None,
            pending_load: None,
        }
    }

    /// Recomputes the line cache from the buffer.
    pub fn refresh_line_cache(&mut self)
        ensures
            spans_wf(final(self).line_cache@, final(self).work@),
            final(self).work == old(self).work,
            final(self).cursor_position == old(self).cursor_position,
            final(self).x_offset == old(self).x_offset,
            final(self).y_offset == old(self).y_offset,
            final(self).path == old(self).path,
            final(self).pending_load == old(self).pending_load,
    {
        let n = self.work.as_str().unicode_len();
        let mut spans: Vec<LineSpan> = Vec::new();
        let mut prev: usize = 0;
        let mut i: usize = 0;
        while i < n
            invariant
                prev <= i <= n,
                n == self.work@.len(),
                spans@.len() == 0 ==> prev == 0,
                spans@.len() > 0 ==> spans@[0].start == 0,
                spans@.len() > 0 ==> spans@.last().end + 1 == prev,
                forall|k: int|
                    0 <= k < spans@.len() ==> (#[trigger] spans@[k]).start <= spans@[k].end < i,
                forall|k: int|
                    0 <= k < spans@.len() - 1 ==> (#[trigger] spans@[k + 1]).start == spans@[k].end
                        + 1,
                forall|k: int|
                    0 <= k < spans@.len() ==> self.work@[(#[trigger] spans@[k]).end as int] == '\n',
                forall|k: int, j: int|
                    #![trigger spans@[k], self.work@[j]]
                    0 <= k < spans@.len() && spans@[k].start <= j < spans@[k].end
                        ==> self.work@[j] != '\n',
                forall|j: int| prev <= j < i ==> self.work@[j] != '\n',
            decreases n - i,
        {
            let c = self.work.as_str().get_char(i);
            if c == '\n' {
                spans.push(LineSpan { start: prev, end: i });
                prev = i + 1;
            }
            i += 1;
        }
        spans.push(LineSpan { start: prev, end: n });
        self.line_cache = spans;
    }

    /// Removes the character before the cursor, if there is one.
    pub fn remove_char(&mut self)
        requires
            old(self).cursor_position <= old(self).work@.len(),
        ensures
            old(self).cursor_position == 0 ==> final(self).work == old(self).work && final(self).cursor_position == 0,
            old(self).cursor_position > 0 ==> {
                &&& final(self).work@ == old(self).work@.subrange(
                    0,
                    old(self).cursor_position - 1,
                ) + old(self).work@.subrange(
                    old(self).cursor_position as int,
                    old(self).work@.len() as int,
                )
                &&& final(self).cursor_position == old(self).cursor_position - 1
            },
            final(self).line_cache == old(self).line_cache,
            final(self).path == old(self).path,
            final(self).pending_load == old(self).pending_load,
            final(self).x_offset == old(self).x_offset,
            final(self).y_offset == old(self).y_offset,
    {
        if self.cursor_position > 0 {
            let n = self.work.as_str().unicode_len();
            let mut head = String::from_str(
                self.work.as_str().substring_char(0, self.cursor_position - 1),
            );
            head.append(self.work.as_str().substring_char(self.cursor_position, n));
            self.work = head;
            self.cursor_position = self.cursor_position - 1;
        }
    }

    /// Writes a character at the cursor.
    pub fn add_char(&mut self, c: char)
        requires
            old(self).cursor_position <= old(self).work@.len(),
            old(self).work@.len() < usize::MAX,
        ensures
            final(self).work@ == old(self).work@.subrange(0, old(self).cursor_position as int)
                + seq![c] + old(self).work@.subrange(
                old(self).cursor_position as int,
                old(self).work@.len() as int,
            ),
            final(self).cursor_position == old(self).cursor_position + 1,
            final(self).line_cache == old(self).line_cache,
            final(self).path == old(self).path,
            final(self).pending_load == old(self).pending_load,
            final(self).x_offset == old(self).x_offset,
            final(self).y_offset == old(self).y_offset,
    {
        let n = self.work.as_str().unicode_len();
        let mut head = String::from_str(self.work.as_str().substring_char(0, self.cursor_position));
        push_char(&mut head, c);
        head.append(self.work.as_str().substring_char(self.cursor_position, n));
        self.work = head;
        self.cursor_position = self.cursor_position + 1;
    }

    /// The index of the line the cursor sits on.
    fn current_line(&self) -> (r: usize)
        requires
            self.wf(),
        ensures
            r < self.line_cache@.len(),
            self.line_cache@[r as int].start <= self.cursor_position <= self.line_cache@[
                r as int].end,
    {
        let mut k: usize = 0;
        while k < self.line_cache.len() - 1
            invariant
                self.wf(),
                k < self.line_cache@.len(),
                forall|j: int| 0 <= j < k ==> (#[trigger] self.line_cache@[j]).end
                    < self.cursor_position,
                self.line_cache@[k as int].start <= self.cursor_position,
            decreases self.line_cache@.len() - k,
        {
            if self.cursor_position <= self.line_cache[k].end {
                return k;
            }
            k += 1;
        }
        k
    }

    /// Moves the cursor one line up, keeping its column where the line
    /// above is long enough.
    fn cursor_up(&mut self)
        requires
            old(self).wf(),
        ensures
            final(self).wf(),
            final(self).work == old(self).work,
            final(self).line_cache == old(self).line_cache,
            final(self).path == old(self).path,
            final(self).pending_load == old(self).pending_load,
    {
        let k = self.current_line();
        if k > 0 {
            let offset = self.cursor_position - self.line_cache[k].start;
            let above = self.line_cache[k - 1];
            let target = if offset < above.end - above.start {
                above.start + offset
            } else {
                above.end
            };
            self.cursor_position = target;
        }
    }

    /// Moves the cursor one line down, keeping its column where the line
    /// below is long enough.
    fn cursor_down(&mut self)
        requires
            old(self).wf(),
        ensures
            final(self).wf(),
            final(self).work == old(self).work,
            final(self).line_cache == old(self).line_cache,
            final(self).path == old(self).path,
            final(self).pending_load == old(self).pending_load,
    {
        let k = self.current_line();
        if k < self.line_cache.len() - 1 {
            let offset = self.cursor_position - self.line_cache[k].start;
            let below = self.line_cache[k + 1];
            let target = if offset < below.end - below.start {
                below.start + offset
            } else {
                below.end
            };
            self.cursor_position = target;
        }
    }

    /// Loads a file into the buffer and remembers where to save it.
    pub fn load_file(&mut self, path: String, files: &FileSystem) -> (r: Result<(), ProgramError>)
        requires
            old(self).cursor_position <= old(self).work@.len(),
        ensures
            final(self).wf(),
            ({
                let key = crate::path::spec_clean(path@);
                let cat = files.catalog();
                if cat.contains_key(key) && (cat[key] matches crate::files::ContentModel::Data(d)
                    && valid_utf8(d)) {
                    &&& r is Ok
                    &&& final(self).work@ == decode_utf8(cat[key]->Data_0)
                    &&& final(self).cursor_position == 0
                    &&& final(self).path matches Some(p) && p@ == path@
                } else {
                    &&& (if cat.contains_key(key) && cat[key] is Data {
                        r matches Err(ProgramError::Custom(_))
                    } else {
                        r matches Err(ProgramError::FileSystemError)
                    })
                    &&& final(self).work == old(self).work
                    &&& final(self).cursor_position == old(self).cursor_position
                    &&& final(self).path == old(self).path
                }
            }),
    {
        let data = match files.read_file(&Path::from(path.as_str())) {
            Ok(d) => d,
            Err(_) => {
                self.refresh_line_cache();
                return Err(ProgramError::FileSystemError);
            },
        };
        let text = match bytes_to_string(data) {
            Some(t) => t,
            None => {
                self.refresh_line_cache();
                return Err(ProgramError::Custom(String::from_str("invalid file contents")));
            },
        };
        self.work = text;
        self.cursor_position = 0;
        self.path = Some(Path::from(path.as_str()));
        self.refresh_line_cache();
        Ok(())
    }

    /// Saves the buffer to its file, writing a status line to the display.
    fn save(&self, handle: &mut OsHandle)
        requires
            self.wf(),
        ensures
            final(handle).live() == old(handle).live(),
            final(handle).keyboard == old(handle).keyboard,
            final(handle).pending() == old(handle).pending(),
            final(handle).machine == old(handle).machine,
    {
        match &self.path {
            Some(p) => {
                let bytes = self.work.as_str().as_bytes_vec();
                match handle.files.write_file(p, bytes) {
                    Ok(_) => {
                        let _ = handle.graphics.text_write_str("File Saved.");
                    },
                    Err(_) => {
                        let _ = handle.graphics.text_write_str("File system error.");
                    },
                }
            },
            None => {
                let _ = handle.graphics.text_write_str("No file to save to.");
            },
        }
    }

    /// Applies one key to the buffer and repaints the screen. Returns
    /// whether the key asks to leave the editor.
    pub fn redraw(&mut self, new_char: Option<Key>, formatter: &mut TextWriter) -> (r: bool)
        requires
            old(self).wf(),
        ensures
            final(self).wf(),
            r == (new_char matches Some(k) && k.character == Some('\x1B')),
            new_char is None ==> final(self).work == old(self).work && final(self).cursor_position
                == old(self).cursor_position,
            ({
                // A plain printable key writes at the cursor; backspace
                // removes the character before it.
                let c = new_char->0.character;
                if new_char is Some && !new_char->0.modifiers.ctrl && c is Some && c->0 != '\x1B'
                    && c->0 != '\x08' && old(self).work@.len() < usize::MAX {
                    &&& final(self).work@ == old(self).work@.subrange(
                        0,
                        old(self).cursor_position as int,
                    ) + seq![c->0] + old(self).work@.subrange(
                        old(self).cursor_position as int,
                        old(self).work@.len() as int,
                    )
                    &&& final(self).cursor_position == old(self).cursor_position + 1
                } else if new_char is Some && !new_char->0.modifiers.ctrl && c == Some('\x08') {
                    if old(self).cursor_position > 0 {
                        &&& final(self).work@ == old(self).work@.subrange(
                            0,
                            old(self).cursor_position - 1,
                        ) + old(self).work@.subrange(
                            old(self).cursor_position as int,
                            old(self).work@.len() as int,
                        )
                        &&& final(self).cursor_position == old(self).cursor_position - 1
                    } else {
                        final(self).work@ == old(self).work@
                    }
                } else {
                    final(self).work@ == old(self).work@
                }
            }),
    {
        let mut exit = false;
        if let Some(key) = new_char {
            let mods = key.key_modifiers();
            let ctrl = mods.is_ctrl_pressed();
            let shift = mods.is_shift_pressed();
            // the quit signal ignores modifiers, as the host's final check did
            exit = match key.to_char() {
                Some(c) => c == '\x1B',
                None => false,
            };
            if ctrl && !shift && key.id == 0x11 {
                self.cursor_up();
            } else if ctrl && !shift && key.id == 0x1E {
                if self.cursor_position > 0 {
                    self.cursor_position = self.cursor_position - 1;
                }
            } else if ctrl && !shift && key.id == 0x1F {
                self.cursor_down();
            } else if ctrl && !shift && key.id == 0x20 {
                if self.cursor_position < self.work.as_str().unicode_len() {
                    self.cursor_position = self.cursor_position + 1;
                }
            } else if ctrl {
                // an unassigned control chord changes nothing
            } else {
                match key.to_char() {
                    Some(c) => {
                        if c == '\x1B' {
                            // the escape key edits nothing
                        } else if c == '\x08' {
                            self.remove_char();
                            self.refresh_line_cache();
                        } else if self.work.as_str().unicode_len() < usize::MAX {
                            self.add_char(c);
                            self.refresh_line_cache();
                        }
                    },
                    None => {},
                }
            }
        }
        self.paint(formatter);
        exit
    }

    /// Paints the visible part of the buffer.
    fn paint(&self, formatter: &mut TextWriter)
        requires
            self.wf(),
    {
        formatter.clear_screen(VgaColor::Blue);
        formatter.set_default_colors(VgaColorCombo::new(VgaColor::White, VgaColor::Blue));
        formatter.disable_cursor();
        let mut row: usize = 0;
        while row < 25
            invariant
                self.wf(),
            decreases 25 - row,
        {
            let index = if self.y_offset <= usize::MAX - row {
                self.y_offset + row
            } else {
                usize::MAX
            };
            if index < self.line_cache.len() {
                let span = self.line_cache[index];
                if self.x_offset < span.end - span.start {
                    let from = span.start + self.x_offset;
                    let to = if span.end - from > 80 {
                        from + 80
                    } else {
                        span.end
                    };
                    formatter.set_position((0, row));
                    formatter.write_str(self.work.as_str().substring_char(from, to));
                }
                if span.start <= self.cursor_position && self.cursor_position <= span.end {
                    let col = self.cursor_position - span.start;
                    formatter.update_cursor((col % 256) as u8, (row % 256) as u8);
                    formatter.enable_cursor();
                }
            }
            row += 1;
        }
    }

    /// One host tick: loads a pending file, then consumes at most one key.
    /// On the quit signal the screen is restored: cleared to black with the
    /// cursor re-enabled at the origin.
    pub fn tick(&mut self, handle: &mut OsHandle)
        ensures
            final(self).wf(),
            old(handle).keyboard@.len() > 0 ==> final(handle).keyboard@.len() < old(handle).keyboard@.len(),
            old(handle).keyboard@.len() == 0 ==> final(handle).keyboard@.len() == 0,
            (old(handle).live() && !final(handle).live() && old(handle).graphics.is_text_mode())
                ==> {
                &&& final(handle).graphics.is_text_mode()
                &&& final(handle).graphics.text_writer().written@ == Seq::<char>::empty()
                &&& final(handle).graphics.text_writer().colors.background
                    == crate::display::VgaColor::Black
                &&& final(handle).graphics.text_writer().cursor_enabled
                &&& final(handle).graphics.text_writer().cursor_x == 0
                &&& final(handle).graphics.text_writer().cursor_y == 0
            },
    {
        let n = self.work.as_str().unicode_len();
        if self.cursor_position > n {
            self.cursor_position = n;
        }
        self.refresh_line_cache();
        let pending = self.pending_load.take();
        if let Some(p) = pending {
            let _ = self.load_file(p, &handle.files);
        }
        let key = handle.keyboard.try_getch();
        match key {
            None => {},
            Some(k) => {
                let mods = k.key_modifiers();
                if mods.is_ctrl_pressed() && mods.is_shift_pressed() && k.id == 0x1F {
                    self.save(handle);
                } else {
                    let mut quit = false;
                    match &mut handle.graphics.formatter {
                        crate::display::GraphicsHandleType::TextMode(w) => {
                            quit = self.redraw(Some(k), w);
                        },
                        crate::display::GraphicsHandleType::GraphicsMode(_) => {
                            quit = true;
                        },
                    }
                    if quit {
                        if let crate::display::GraphicsHandleType::TextMode(
                            w,
                        ) = &mut handle.graphics.formatter {
                            w.clear_screen(crate::display::VgaColor::Black);
                            w.set_default_colors(
                                crate::display::VgaColorCombo::on_black(VgaColor::White),
                            );
                            w.enable_cursor();
                            w.set_position((0, 0));
                        }
                        handle.call_exit();
                    }
                }
            },
        }
    }
}

impl ForEditor {
    /// Reads the optional file argument: a text value on the stack names
    /// the file the first tick will load.
    pub fn read_arguments(&mut self, args: &mut Stack)
        ensures
            ({
                let s = old(args)@;
                if s.len() > 0 && s.last() is Text {
                    &&& final(self).pending_load matches Some(p) && p@ == s.last()->Text_0
                    &&& final(args)@ == s.drop_last()
                } else {
                    &&& final(self).pending_load == old(self).pending_load
                    &&& final(args)@ == s
                }
            }),
            final(self).work == old(self).work,
            final(self).cursor_position == old(self).cursor_position,
            final(self).line_cache == old(self).line_cache,
            final(self).path == old(self).path,
    {
        let popped = args.try_pop::<String>();
        if let Some(p) = popped {
            self.pending_load = Some(p);
        }
    }
}

impl LittleManApp for ForEditor {
    fn start(&mut self, args: &mut Stack) -> Result<(), StartError> {
        self.read_arguments(args);
        Ok(())
    }

    fn update(&mut self, handle: &mut OsHandle) {
        self.tick(handle);
    }

    fn shutdown(&mut self) {
    }
}

} // verus!
