//! Models of the two display sinks the core drives: a text writer with a
//! cursor, colors and a character log, and a bitmap writer with a palette
//! and a pixel log. The raw register programming behind them is outside the
//! core; these types record every operation the core issues.

use vstd::prelude::*;
use vstd::string::*;

verus! {

/// The sixteen colors of the text-mode palette.
#[derive(Clone, Copy, Debug, PartialEq, Eq, Structural)]
pub enum VgaColor {
    Black,
    Blue,
    Green,
    Cyan,
    Red,
    Magenta,
    Brown,
    LightGray,
    DarkGray,
    LightBlue,
    LightGreen,
    LightCyan,
    LightRed,
    Pink,
    Yellow,
    White,
}

/// A foreground/background pair.
#[derive(Clone, Copy, Debug, PartialEq, Eq, Structural)]
pub struct VgaColorCombo {
    pub foreground: VgaColor,
    pub background: VgaColor,
}

impl VgaColorCombo {
    pub fn new(foreground: VgaColor, background: VgaColor) -> (r: Self)
        ensures
            r.foreground == foreground,
            r.background == background,
    {
        VgaColorCombo { foreground, background }
    }

    pub fn on_black(foreground: VgaColor) -> (r: Self)
        ensures
            r.foreground == foreground,
            r.background == VgaColor::Black,
    {
        VgaColorCombo { foreground, background: VgaColor::Black }
    }
}

/// The hardware video modes the host can switch between.
#[derive(Clone, Copy, Debug, PartialEq, Eq, Structural)]
pub enum VgaModeSwitch {
    Vga80x25Text,
    Vga320x200Bitmap,
}

/// The abstract text sink: a cursor, a color pair, a cursor-visibility flag
/// and a log of the characters written since the screen was last cleared.
pub struct TextWriter {
    pub written: String,
    pub cursor_x: usize,
    pub cursor_y: usize,
    pub colors: VgaColorCombo,
    pub cursor_enabled: bool,
}

impl TextWriter {
    /// A fresh writer: empty log, cursor at the origin, white on black.
    pub fn new() -> (r: Self)
        ensures
            r.written@ == Seq::<char>::empty(),
            r.cursor_x == 0,
            r.cursor_y == 0,
            r.colors == (VgaColorCombo { foreground: VgaColor::White, background: VgaColor::Black }),
            r.cursor_enabled == true,
    {
        TextWriter {
            written: String::new(),
            cursor_x: 0,
            cursor_y: 0,
            colors: VgaColorCombo::on_black(VgaColor::White),
            cursor_enabled: true,
        }
    }

    /// Appends text to the log at the current position.
    pub fn write_str(&mut self, s: &str)
        ensures
            final(self).written@ == old(self).written@ + s@,
            final(self).cursor_x == old(self).cursor_x,
            final(self).cursor_y == old(self).cursor_y,
            final(self).colors == old(self).colors,
            final(self).cursor_enabled == old(self).cursor_enabled,
    {
        self.written.append(s);
    }

    /// Erases the log, paints the given background, and homes the cursor.
    pub fn clear_screen(&mut self, color: VgaColor)
        ensures
            final(self).written@ == Seq::<char>::empty(),
            final(self).cursor_x == 0,
            final(self).cursor_y == 0,
            final(self).colors == (VgaColorCombo { foreground: old(self).colors.foreground, background: color }),
            final(self).cursor_enabled == old(self).cursor_enabled,
    {
        self.written = String::new();
        self.cursor_x = 0;
        self.cursor_y = 0;
        self.colors = VgaColorCombo::new(self.colors.foreground, color);
    }

    pub fn set_position(&mut self, pos: (usize, usize))
        ensures
            *final(self) == (TextWriter { cursor_x: pos.0, cursor_y: pos.1, ..*old(self) }),
    {
        self.cursor_x = pos.0;
        self.cursor_y = pos.1;
    }

    pub fn set_default_colors(&mut self, colors: VgaColorCombo)
        ensures
            *final(self) == (TextWriter { colors, ..*old(self) }),
    {
        self.colors = colors;
    }

    pub fn enable_cursor(&mut self)
        ensures
            *final(self) == (TextWriter { cursor_enabled: true, ..*old(self) }),
    {
        self.cursor_enabled = true;
    }

    pub fn disable_cursor(&mut self)
        ensures
            *final(self) == (TextWriter { cursor_enabled: false, ..*old(self) }),
    {
        self.cursor_enabled = false;
    }

    /// Moves the cursor back the given number of columns, stopping at zero.
    pub fn back_up(&mut self, count: usize)
        ensures
            *final(self) == (TextWriter {
                cursor_x: if old(self).cursor_x >= count {
                    (old(self).cursor_x - count) as usize
                } else {
                    0
                },
                ..*old(self)
            }),
    {
        if self.cursor_x >= count {
            self.cursor_x = self.cursor_x - count;
        } else {
            self.cursor_x = 0;
        }
    }

    /// Advances to the start of the next line, and writes a line break into
    /// the log.
    pub fn next_line(&mut self)
        ensures
            final(self).written@ == old(self).written@ + seq!['\n'],
            final(self).cursor_x == 0,
            final(self).cursor_y == if old(self).cursor_y < usize::MAX {
                old(self).cursor_y + 1
            } else {
                old(self).cursor_y as int
            },
            final(self).colors == old(self).colors,
            final(self).cursor_enabled == old(self).cursor_enabled,
    {
        crate::strutil::push_char(&mut self.written, '\n');
        self.cursor_x = 0;
        if self.cursor_y < usize::MAX {
            self.cursor_y = self.cursor_y + 1;
        }
    }

    pub fn update_cursor(&mut self, x: u8, y: u8)
        ensures
            *final(self) == (TextWriter { cursor_x: x as usize, cursor_y: y as usize, ..*old(self) }),
    {
        self.cursor_x = x as usize;
        self.cursor_y = y as usize;
    }
}

/// One palette entry, a red/green/blue triple.
#[derive(Clone, Copy, Debug, PartialEq, Eq, Structural)]
pub struct VgaPaletteColor {
    pub red: u8,
    pub green: u8,
    pub blue: u8,
}

impl VgaPaletteColor {
    pub fn from_rgb(red: u8, green: u8, blue: u8) -> (r: Self)
        ensures
            r == (VgaPaletteColor { red, green, blue }),
    {
        VgaPaletteColor { red, green, blue }
    }

    /// What fading a color to a factor yields: each channel becomes
    /// `channel * factor / 255`.
    pub open spec fn spec_faded(self, factor: u8) -> Self {
        VgaPaletteColor {
            red: (self.red as u32 * factor as u32 / 255) as u8,
            green: (self.green as u32 * factor as u32 / 255) as u8,
            blue: (self.blue as u32 * factor as u32 / 255) as u8,
        }
    }

    /// The color scaled toward black.
    #[verifier::when_used_as_spec(spec_faded)]
    pub fn faded(self, factor: u8) -> (r: Self)
        ensures
            r == self.spec_faded(factor),
            r.red == self.red as u32 * factor as u32 / 255,
            r.green == self.green as u32 * factor as u32 / 255,
            r.blue == self.blue as u32 * factor as u32 / 255,
    {
        proof {
            assert(self.red as u32 * factor as u32 / 255 <= 255) by (nonlinear_arith)
                requires
                    self.red <= 255,
                    factor <= 255,
            ;
            assert(self.green as u32 * factor as u32 / 255 <= 255) by (nonlinear_arith)
                requires
                    self.green <= 255,
                    factor <= 255,
            ;
            assert(self.blue as u32 * factor as u32 / 255 <= 255) by (nonlinear_arith)
                requires
                    self.blue <= 255,
                    factor <= 255,
            ;
        }
        VgaPaletteColor {
            red: (self.red as u32 * factor as u32 / 255) as u8,
            green: (self.green as u32 * factor as u32 / 255) as u8,
            blue: (self.blue as u32 * factor as u32 / 255) as u8,
        }
    }
}

/// A full palette for the bitmap mode.
pub struct VgaPalette {
    pub colors: Vec<VgaPaletteColor>,
}

impl VgaPalette {
    /// The number of palette entries the hardware holds.
    pub fn size() -> (r: usize)
        ensures
            r == 256,
    {
        256
    }

    /// A palette of nothing but black.
    pub fn all_black() -> (r: Self)
        ensures
            r.colors@.len() == 256,
            forall|i: int|
                0 <= i < 256 ==> r.colors@[i] == (VgaPaletteColor { red: 0, green: 0, blue: 0 }),
    {
        let mut colors: Vec<VgaPaletteColor> = Vec::new();
        let mut i: usize = 0;
        while i < 256
            invariant
                i <= 256,
                colors@.len() == i,
                forall|j: int|
                    0 <= j < i ==> colors@[j] == (VgaPaletteColor { red: 0, green: 0, blue: 0 }),
            decreases 256 - i,
        {
            colors.push(VgaPaletteColor { red: 0, green: 0, blue: 0 });
            i += 1;
        }
        VgaPalette { colors }
    }

    /// The whole palette scaled toward black by the given factor.
    pub fn fade_factor(&self, factor: u8) -> (r: Self)
        ensures
            r.colors@.len() == self.colors@.len(),
            forall|i: int|
                0 <= i < self.colors@.len() ==> r.colors@[i] == self.colors@[i].faded(factor),
    {
        let mut colors: Vec<VgaPaletteColor> = Vec::new();
        let mut i: usize = 0;
        while i < self.colors.len()
            invariant
                i <= self.colors@.len(),
                colors@.len() == i,
                forall|j: int| 0 <= j < i ==> colors@[j] == self.colors@[j].faded(factor),
            decreases self.colors@.len() - i,
        {
            colors.push(self.colors[i].faded(factor));
            i += 1;
        }
        VgaPalette { colors }
    }
}

/// One recorded pixel write: position and palette index.
#[derive(Clone, Copy, Debug, PartialEq, Eq, Structural)]
pub struct PixelWrite {
    pub x: usize,
    pub y: usize,
    pub index: u8,
}

/// The abstract bitmap sink: the active palette and a log of pixel writes.
pub struct BitmapWriter {
    pub palette: VgaPalette,
    pub pixels: Vec<PixelWrite>,
}

impl BitmapWriter {
    pub fn new() -> (r: Self)
        ensures
            r.palette.colors@.len() == 256,
            r.pixels@ == Seq::<PixelWrite>::empty(),
    {
        BitmapWriter { palette: VgaPalette::all_black(), pixels: Vec::new() }
    }

    /// Records one pixel write.
    pub fn plot_pixel(&mut self, x: usize, y: usize, index: u8)
        ensures
            final(self).pixels@ == old(self).pixels@.push(PixelWrite { x, y, index }),
            final(self).palette == old(self).palette,
    {
        self.pixels.push(PixelWrite { x, y, index });
    }

    /// Replaces the active palette.
    pub fn set_palette(&mut self, palette: VgaPalette)
        ensures
            final(self).palette == palette,
            final(self).pixels@ == old(self).pixels@,
    {
        self.palette = palette;
    }
}

/// The display-mode handle: exactly one of the two sinks exists at any
/// time, so holding the text capability forbids every bitmap operation and
/// the other way round.
pub enum GraphicsHandleType {
    TextMode(TextWriter),
    GraphicsMode(BitmapWriter),
}

/// The owner of the current display mode. Switching consumes the old
/// capability and produces the new one, so the two sinks can never alias.
pub struct GraphicsHandle {
    pub formatter: GraphicsHandleType,
}

impl GraphicsHandle {
    /// Whether the text capability is the live one.
    pub open spec fn is_text_mode(&self) -> bool {
        self.formatter is TextMode
    }

    pub fn new(formatter: GraphicsHandleType) -> (r: Self)
        ensures
            r.formatter == formatter,
    {
        GraphicsHandle { formatter }
    }

    /// A handle starting out in text mode with a fresh writer.
    pub fn text_mode() -> (r: Self)
        ensures
            r.is_text_mode(),
            r.formatter->TextMode_0.written@ == Seq::<char>::empty(),
            r.formatter->TextMode_0.cursor_x == 0,
            r.formatter->TextMode_0.cursor_y == 0,
    {
        GraphicsHandle { formatter: GraphicsHandleType::TextMode(TextWriter::new()) }
    }

    /// A handle starting out in bitmap mode with a fresh writer.
    pub fn graphics_mode() -> (r: Self)
        ensures
            !r.is_text_mode(),
            r.formatter->GraphicsMode_0.pixels@ == Seq::<PixelWrite>::empty(),
    {
        GraphicsHandle { formatter: GraphicsHandleType::GraphicsMode(BitmapWriter::new()) }
    }

    /// Reprograms the hardware mode: the old capability is consumed and a
    /// fresh one for the requested mode takes its place.
    pub fn switch(self, mode: VgaModeSwitch) -> (r: Self)
        ensures
            mode == VgaModeSwitch::Vga80x25Text ==> r.is_text_mode()
                && r.formatter->TextMode_0.written@ == Seq::<char>::empty()
                && r.formatter->TextMode_0.cursor_x == 0 && r.formatter->TextMode_0.cursor_y == 0,
            mode == VgaModeSwitch::Vga320x200Bitmap ==> !r.is_text_mode()
                && r.formatter->GraphicsMode_0.pixels@ == Seq::<PixelWrite>::empty(),
    {
        match mode {
            VgaModeSwitch::Vga80x25Text => GraphicsHandle::text_mode(),
            VgaModeSwitch::Vga320x200Bitmap => GraphicsHandle::graphics_mode(),
        }
    }
}

/// The error every text operation reports while the hardware is in bitmap
/// mode.
#[derive(Clone, Copy, Debug, PartialEq, Eq, Structural)]
pub enum VideoModeError {
    GraphicsModeActive,
}

impl GraphicsHandle {
    /// The live text writer, meaningful only in text mode.
    pub open spec fn text_writer(&self) -> TextWriter {
        self.formatter->TextMode_0
    }

    /// Writes text, only in text mode.
    pub fn text_write_str(&mut self, s: &str) -> (r: Result<(), VideoModeError>)
        ensures
            r is Ok <==> old(self).is_text_mode(),
            !old(self).is_text_mode() ==> r == Err::<(), VideoModeError>(
                VideoModeError::GraphicsModeActive,
            ) && *final(self) == *old(self),
            old(self).is_text_mode() ==> {
                &&& final(self).is_text_mode()
                &&& final(self).text_writer().written@ == old(self).text_writer().written@ + s@
                &&& final(self).text_writer().cursor_x == old(self).text_writer().cursor_x
                &&& final(self).text_writer().cursor_y == old(self).text_writer().cursor_y
                &&& final(self).text_writer().colors == old(self).text_writer().colors
                &&& final(self).text_writer().cursor_enabled == old(
                    self,
                ).text_writer().cursor_enabled
            },
    {
        match &mut self.formatter {
            GraphicsHandleType::TextMode(w) => {
                w.write_str(s);
                Ok(())
            },
            GraphicsHandleType::GraphicsMode(_) => Err(VideoModeError::GraphicsModeActive),
        }
    }

    /// Advances to the next line, only in text mode.
    pub fn text_next_line(&mut self) -> (r: Result<(), VideoModeError>)
        ensures
            r is Ok <==> old(self).is_text_mode(),
            !old(self).is_text_mode() ==> r == Err::<(), VideoModeError>(
                VideoModeError::GraphicsModeActive,
            ) && *final(self) == *old(self),
            old(self).is_text_mode() ==> {
                &&& final(self).is_text_mode()
                &&& final(self).text_writer().written@ == old(self).text_writer().written@
                    + seq!['\n']
                &&& final(self).text_writer().cursor_x == 0
                &&& final(self).text_writer().colors == old(self).text_writer().colors
                &&& final(self).text_writer().cursor_enabled == old(
                    self,
                ).text_writer().cursor_enabled
            },
    {
        match &mut self.formatter {
            GraphicsHandleType::TextMode(w) => {
                w.next_line();
                Ok(())
            },
            GraphicsHandleType::GraphicsMode(_) => Err(VideoModeError::GraphicsModeActive),
        }
    }

    /// Clears the screen with a background color, only in text mode.
    pub fn text_clear_screen(&mut self, color: VgaColor) -> (r: Result<(), VideoModeError>)
        ensures
            r is Ok <==> old(self).is_text_mode(),
            !old(self).is_text_mode() ==> r == Err::<(), VideoModeError>(
                VideoModeError::GraphicsModeActive,
            ) && *final(self) == *old(self),
            old(self).is_text_mode() ==> {
                &&& final(self).is_text_mode()
                &&& final(self).text_writer().written@ == Seq::<char>::empty()
                &&& final(self).text_writer().cursor_x == 0
                &&& final(self).text_writer().cursor_y == 0
                &&& final(self).text_writer().colors == (VgaColorCombo {
                    foreground: old(self).text_writer().colors.foreground,
                    background: color,
                })
            },
    {
        match &mut self.formatter {
            GraphicsHandleType::TextMode(w) => {
                w.clear_screen(color);
                Ok(())
            },
            GraphicsHandleType::GraphicsMode(_) => Err(VideoModeError::GraphicsModeActive),
        }
    }

    /// Sets the color pair, only in text mode.
    pub fn text_set_colors(&mut self, colors: VgaColorCombo) -> (r: Result<(), VideoModeError>)
        ensures
            r is Ok <==> old(self).is_text_mode(),
            !old(self).is_text_mode() ==> r == Err::<(), VideoModeError>(
                VideoModeError::GraphicsModeActive,
            ) && *final(self) == *old(self),
            old(self).is_text_mode() ==> final(self).is_text_mode() && final(self).text_writer()
                == (TextWriter { colors, ..old(self).text_writer() }),
    {
        match &mut self.formatter {
            GraphicsHandleType::TextMode(w) => {
                w.set_default_colors(colors);
                Ok(())
            },
            GraphicsHandleType::GraphicsMode(_) => Err(VideoModeError::GraphicsModeActive),
        }
    }

    /// Sets the cursor position, only in text mode.
    pub fn text_set_position(&mut self, pos: (usize, usize)) -> (r: Result<(), VideoModeError>)
        ensures
            r is Ok <==> old(self).is_text_mode(),
            !old(self).is_text_mode() ==> r == Err::<(), VideoModeError>(
                VideoModeError::GraphicsModeActive,
            ) && *final(self) == *old(self),
            old(self).is_text_mode() ==> final(self).is_text_mode() && final(self).text_writer()
                == (TextWriter { cursor_x: pos.0, cursor_y: pos.1, ..old(self).text_writer() }),
    {
        match &mut self.formatter {
            GraphicsHandleType::TextMode(w) => {
                w.set_position(pos);
                Ok(())
            },
            GraphicsHandleType::GraphicsMode(_) => Err(VideoModeError::GraphicsModeActive),
        }
    }

    /// Shows or hides the cursor, only in text mode.
    pub fn text_cursor_visible(&mut self, on: bool) -> (r: Result<(), VideoModeError>)
        ensures
            r is Ok <==> old(self).is_text_mode(),
            !old(self).is_text_mode() ==> r == Err::<(), VideoModeError>(
                VideoModeError::GraphicsModeActive,
            ) && *final(self) == *old(self),
            old(self).is_text_mode() ==> final(self).is_text_mode() && final(self).text_writer()
                == (TextWriter { cursor_enabled: on, ..old(self).text_writer() }),
    {
        match &mut self.formatter {
            GraphicsHandleType::TextMode(w) => {
                if on {
                    w.enable_cursor();
                } else {
                    w.disable_cursor();
                }
                Ok(())
            },
            GraphicsHandleType::GraphicsMode(_) => Err(VideoModeError::GraphicsModeActive),
        }
    }
}

/// A text-mode screen as a rectangle of character units.
pub struct ScreenBuffer<Unit, const W: usize, const H: usize> {
    pub chars: [[Unit; W]; H],
}

impl<Unit, const W: usize, const H: usize> ScreenBuffer<Unit, W, H> {
    /// The width of the screen buffer.
    pub fn width(&self) -> (r: usize)
        ensures
            r == W,
    {
        W
    }

    /// The height of the screen buffer.
    pub fn height(&self) -> (r: usize)
        ensures
            r == H,
    {
        H
    }
}

} // verus!
