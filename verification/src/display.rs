//! Byte-level encoding for the character display.
//!
//! The display sits behind an i2c expander that takes the controller's
//! eight-bit commands as two four-bit halves, each strobed with an
//! enable pulse and carrying the backlight bit. Everything the driver
//! would put on the wire is computed here as plain byte runs; the
//! embedding program only writes them out and sleeps where the
//! controller's timing demands it. The two rendered lines show the
//! volume in litres and the fill grade in percent, each with one
//! decimal digit, a comma as the decimal mark, and custom glyphs for
//! the units.

use vstd::prelude::*;

verus! {

/// I2c address of the display expander.
pub const DISPLAY_ADDR: u16 = 0x27;

/// Characters per display row.
pub const DISPLAY_WIDTH: usize = 16;

/// Enable strobe bit on the expander.
pub const ENABLE: u8 = 0b0000_0100;

/// Backlight bit on the expander.
pub const BACKLIGHT_ON: u8 = 0x08;

/// Two-row mode flag of the function-set command.
pub const ROWS_2: u8 = 0x08;

/// Large-font flag of the function-set command.
pub const FONT_SIZE_5X10: u8 = 0x04;

/// Display-on flag of the display-control command.
pub const DISPLAY_ON: u8 = 0x04;

/// Left-to-right flag of the entry-mode command.
pub const ENTRY_LEFT: u8 = 0x02;

/// Controller commands, each a command byte with its own flag bits.
#[derive(Clone, Copy, Debug, PartialEq, Eq, Structural)]
pub enum Command {
    ClearDisplay,
    ReturnHome,
    EntryModeSet,
    DisplayControl,
    CursorShift,
    FunctionSet,
    SetCgramAddr,
    SetDgramAddr,
}

impl Command {
    /// The command byte.
    pub open spec fn spec_code(self) -> u8 {
        match self {
            Command::ClearDisplay => 0b0000_0001,
            Command::ReturnHome => 0b0000_0010,
            Command::EntryModeSet => 0b0000_0100,
            Command::DisplayControl => 0b0000_1000,
            Command::CursorShift => 0b0001_0000,
            Command::FunctionSet => 0b0010_0000,
            Command::SetCgramAddr => 0b0100_0000,
            Command::SetDgramAddr => 0b1000_0000,
        }
    }

    /// The command byte.
    pub fn code(self) -> (r: u8)
        ensures
            r == self.spec_code(),
    {
        match self {
            Command::ClearDisplay => 0b0000_0001,
            Command::ReturnHome => 0b0000_0010,
            Command::EntryModeSet => 0b0000_0100,
            Command::DisplayControl => 0b0000_1000,
            Command::CursorShift => 0b0001_0000,
            Command::FunctionSet => 0b0010_0000,
            Command::SetCgramAddr => 0b0100_0000,
            Command::SetDgramAddr => 0b1000_0000,
        }
    }
}

/// What the cursor-shift command moves.
#[derive(Clone, Copy, Debug, PartialEq, Eq, Structural)]
pub enum DisplayCursorShift {
    DisplayMove,
    CursorMove,
}

impl DisplayCursorShift {
    /// The flag bits of this choice.
    pub open spec fn spec_code(self) -> u8 {
        match self {
            DisplayCursorShift::DisplayMove => 0x08,
            DisplayCursorShift::CursorMove => 0x00,
        }
    }

    /// The flag bits of this choice.
    pub fn code(self) -> (r: u8)
        ensures
            r == self.spec_code(),
    {
        match self {
            DisplayCursorShift::DisplayMove => 0x08,
            DisplayCursorShift::CursorMove => 0x00,
        }
    }
}

/// Direction of a display or cursor move.
#[derive(Clone, Copy, Debug, PartialEq, Eq, Structural)]
pub enum DisplayMove {
    Right,
    Left,
}

impl DisplayMove {
    /// The flag bits of this direction.
    pub open spec fn spec_code(self) -> u8 {
        match self {
            DisplayMove::Right => 0x04,
            DisplayMove::Left => 0x00,
        }
    }

    /// The flag bits of this direction.
    pub fn code(self) -> (r: u8)
        ensures
            r == self.spec_code(),
    {
        match self {
            DisplayMove::Right => 0x04,
            DisplayMove::Left => 0x00,
        }
    }
}

/// Whether a byte goes to the controller as a command or as data.
#[derive(Clone, Copy, Debug, PartialEq, Eq, Structural)]
pub enum Mode {
    Command,
    Data,
}

impl Mode {
    /// The register-select bit for this mode.
    pub open spec fn spec_code(self) -> u8 {
        match self {
            Mode::Command => 0x00,
            Mode::Data => 0x01,
        }
    }

    /// The register-select bit for this mode.
    pub fn code(self) -> (r: u8)
        ensures
            r == self.spec_code(),
    {
        match self {
            Mode::Command => 0x00,
            Mode::Data => 0x01,
        }
    }
}

/// Custom glyphs loaded into the controller's character memory; the
/// slot of each doubles as its character code in a rendered line.
#[derive(Clone, Copy, Debug, PartialEq, Eq, Structural)]
pub enum Symbol {
    Liter,
    PercentLeft,
    PercentRight,
    Droplet,
    OeLowercase,
}

impl Symbol {
    /// The character-memory slot the glyph is loaded into.
    pub open spec fn spec_slot(self) -> u8 {
        match self {
            Symbol::Liter => 0,
            Symbol::PercentLeft => 1,
            Symbol::PercentRight => 2,
            Symbol::Droplet => 3,
            Symbol::OeLowercase => 4,
        }
    }

    /// The character-memory slot the glyph is loaded into.
    pub fn slot(self) -> (r: u8)
        ensures
            r == self.spec_slot(),
    {
        match self {
            Symbol::Liter => 0,
            Symbol::PercentLeft => 1,
            Symbol::PercentRight => 2,
            Symbol::Droplet => 3,
            Symbol::OeLowercase => 4,
        }
    }

    /// The eight five-pixel rows of the glyph.
    pub open spec fn spec_bitmap(self) -> Seq<u8> {
        match self {
            Symbol::Liter => seq![0x02, 0x05, 0x05, 0x06, 0x0c, 0x04, 0x03, 0x00],
            Symbol::PercentLeft => seq![0x0c, 0x12, 0x12, 0x0c, 0x01, 0x02, 0x04, 0x00],
            Symbol::PercentRight => seq![0x04, 0x08, 0x10, 0x06, 0x09, 0x09, 0x06, 0x00],
            Symbol::Droplet => seq![
                0b00100,
                0b00100,
                0b01110,
                0b01110,
                0b11111,
                0b11111,
                0b11111,
                0b01110,
            ],
            Symbol::OeLowercase => seq![
                0b10001,
                0b00000,
                0b01110,
                0b10001,
                0b10001,
                0b10001,
                0b01110,
                0b00000,
            ],
        }
    }

    /// The eight five-pixel rows of the glyph.
    pub fn bitmap(self) -> (r: [u8; 8])
        ensures
            r@ == self.spec_bitmap(),
    {
        let r: [u8; 8] = match self {
            Symbol::Liter => [0x02, 0x05, 0x05, 0x06, 0x0c, 0x04, 0x03, 0x00],
            Symbol::PercentLeft => [0x0c, 0x12, 0x12, 0x0c, 0x01, 0x02, 0x04, 0x00],
            Symbol::PercentRight => [0x04, 0x08, 0x10, 0x06, 0x09, 0x09, 0x06, 0x00],
            Symbol::Droplet => [
                0b00100,
                0b00100,
                0b01110,
                0b01110,
                0b11111,
                0b11111,
                0b11111,
                0b01110,
            ],
            Symbol::OeLowercase => [
                0b10001,
                0b00000,
                0b01110,
                0b10001,
                0b10001,
                0b10001,
                0b01110,
                0b00000,
            ],
        };
        proof {
            assert(r@ =~= self.spec_bitmap());
        }
        r
    }
}

/// A byte as it leaves for the expander: the backlight bit rides on
/// every write.
pub open spec fn expander_byte(bits: u8, backlight: bool) -> u8 {
    if backlight {
        bits | BACKLIGHT_ON
    } else {
        bits
    }
}

/// The three expander writes that put one four-bit half on the
/// controller: the half itself, then with the enable strobe raised,
/// then with it lowered again.
pub open spec fn half_frames(bits: u8, backlight: bool) -> Seq<u8> {
    seq![
        expander_byte(bits, backlight),
        expander_byte(bits | ENABLE, backlight),
        expander_byte(bits & !ENABLE, backlight),
    ]
}

/// The six expander writes that send one byte in the given mode: the
/// high half first, then the low half, each with its strobe.
pub open spec fn send_frames_spec(bits: u8, mode: Mode, backlight: bool) -> Seq<u8> {
    half_frames(mode.spec_code() | (bits & 0xF0), backlight) + half_frames(
        mode.spec_code() | ((bits << 4) & 0xF0),
        backlight,
    )
}

/// Computes the six expander writes that send one byte.
pub fn send_frames(bits: u8, mode: Mode, backlight: bool) -> (v: Vec<u8>)
    ensures
        v@ == send_frames_spec(bits, mode, backlight),
{
    let high: u8 = mode.code() | (bits & 0xF0);
    let low: u8 = mode.code() | ((bits << 4) & 0xF0);
    let mut v: Vec<u8> = Vec::new();
    push_half(&mut v, high, backlight);
    push_half(&mut v, low, backlight);
    proof {
        assert(v@ =~= send_frames_spec(bits, mode, backlight));
    }
    v
}

/// Appends the three expander writes of one four-bit half.
fn push_half(v: &mut Vec<u8>, bits: u8, backlight: bool)
    ensures
        final(v)@ == old(v)@ + half_frames(bits, backlight),
{
    let raise: u8 = bits | ENABLE;
    let lower: u8 = bits & !ENABLE;
    if backlight {
        v.push(bits | BACKLIGHT_ON);
        v.push(raise | BACKLIGHT_ON);
        v.push(lower | BACKLIGHT_ON);
    } else {
        v.push(bits);
        v.push(raise);
        v.push(lower);
    }
}

/// Computes the three expander writes of one four-bit half on its own:
/// the controller's reset sequence sends lone halves before the
/// four-bit mode is up.
pub fn nibble_frames(bits: u8, backlight: bool) -> (v: Vec<u8>)
    ensures
        v@ == half_frames(bits, backlight),
{
    let mut v: Vec<u8> = Vec::new();
    push_half(&mut v, bits, backlight);
    proof {
        assert(v@ =~= half_frames(bits, backlight));
    }
    v
}

/// The power-up reset halves of the controller: three times the
/// eight-bit function-set half, then the half that switches to
/// four-bit mode. Each is sent on its own, followed by a pause.
pub fn reset_halves() -> (v: Vec<u8>)
    ensures
        v@ == seq![0x30u8, 0x30u8, 0x30u8, 0x20u8],
{
    let mut v: Vec<u8> = Vec::new();
    v.push(0x30);
    v.push(0x30);
    v.push(0x30);
    v.push(0x20);
    proof {
        assert(v@ =~= seq![0x30u8, 0x30u8, 0x30u8, 0x20u8]);
    }
    v
}

/// The expander writes that send a whole run of data bytes, in order.
pub open spec fn data_frames_spec(bytes: Seq<u8>, backlight: bool) -> Seq<u8>
    decreases bytes.len(),
{
    if bytes.len() == 0 {
        Seq::empty()
    } else {
        data_frames_spec(bytes.drop_last(), backlight) + send_frames_spec(
            bytes.last(),
            Mode::Data,
            backlight,
        )
    }
}

/// Computes the expander writes that print a run of data bytes.
pub fn data_frames(bytes: &Vec<u8>, backlight: bool) -> (v: Vec<u8>)
    ensures
        v@ == data_frames_spec(bytes@, backlight),
{
    let mut v: Vec<u8> = Vec::new();
    let mut i: usize = 0;
    proof {
        assert(bytes@.take(0) =~= Seq::<u8>::empty());
    }
    while i < bytes.len()
        invariant
            i <= bytes@.len(),
            v@ == data_frames_spec(bytes@.take(i as int), backlight),
        decreases bytes@.len() - i,
    {
        let mut frames = send_frames(bytes[i], Mode::Data, backlight);
        v.append(&mut frames);
        proof {
            let taken = bytes@.take(i + 1);
            assert(taken.drop_last() =~= bytes@.take(i as int));
            assert(taken.last() == bytes@[i as int]);
        }
        i = i + 1;
    }
    proof {
        assert(bytes@.take(bytes@.len() as int) =~= bytes@);
    }
    v
}

/// Offset of each display row in the controller's data memory.
pub open spec fn row_offset(row: u8) -> u8
    recommends
        row < 4,
{
    if row == 0 {
        0x00
    } else if row == 1 {
        0x40
    } else if row == 2 {
        0x14
    } else {
        0x54
    }
}

/// The command byte that moves the cursor to a column of a row.
pub fn set_cursor_code(col: u8, row: u8) -> (r: u8)
    requires
        row < 4,
        col + row_offset(row) < 128,
    ensures
        r == (Command::SetDgramAddr.spec_code() | (col + row_offset(row)) as u8),
{
    let offset: u8 = if row == 0 {
        0x00
    } else if row == 1 {
        0x40
    } else if row == 2 {
        0x14
    } else {
        0x54
    };
    Command::SetDgramAddr.code() | (col + offset)
}

/// The command byte that configures line count and font: two rows win
/// over the large font, exactly as the controller demands.
pub fn function_set_code(rows: u8, big_font: bool) -> (r: u8)
    ensures
        r == (Command::FunctionSet.spec_code() | (if rows == 2 {
            ROWS_2
        } else if big_font {
            FONT_SIZE_5X10
        } else {
            0u8
        })),
{
    Command::FunctionSet.code() | (if rows == 2 {
        ROWS_2
    } else if big_font {
        FONT_SIZE_5X10
    } else {
        0
    })
}

/// The expander writes that load one glyph into a character-memory
/// slot: the address command, then the eight rows as data.
pub fn create_char_frames(location: u8, bitmap: &[u8; 8], backlight: bool) -> (v: Vec<u8>)
    requires
        location < 8,
    ensures
        v@ == send_frames_spec(
            (Command::SetCgramAddr.spec_code() | (location << 3)) as u8,
            Mode::Command,
            backlight,
        ) + data_frames_spec(bitmap@, backlight),
{
    let mut rows: Vec<u8> = Vec::new();
    let mut i: usize = 0;
    while i < 8
        invariant
            i <= 8,
            rows@ == bitmap@.take(i as int),
        decreases 8 - i,
    {
        rows.push(bitmap[i]);
        proof {
            assert(rows@ =~= bitmap@.take(i + 1));
        }
        i = i + 1;
    }
    proof {
        assert(bitmap@.take(8) =~= bitmap@);
    }
    let mut v = send_frames(Command::SetCgramAddr.code() | (location << 3), Mode::Command, backlight);
    let mut data = data_frames(&rows, backlight);
    v.append(&mut data);
    v
}

/// The decimal digits of a number, most significant first, as their
/// character codes.
pub open spec fn dec_digits(n: nat) -> Seq<u8>
    decreases n,
{
    if n < 10 {
        seq![(48 + n) as u8]
    } else {
        dec_digits(n / 10).push((48 + n % 10) as u8)
    }
}

/// A quantity of tenths written with one decimal digit and a comma as
/// the decimal mark.
pub open spec fn tenths_text(tenths: nat) -> Seq<u8> {
    dec_digits(tenths / 10) + seq![44u8, (48 + tenths % 10) as u8]
}

/// A run of characters padded on the left with spaces up to `width`;
/// a longer run stays as it is.
pub open spec fn padded_left(s: Seq<u8>, width: nat) -> Seq<u8> {
    if s.len() >= width {
        s
    } else {
        Seq::new((width - s.len()) as nat, |i: int| 32u8) + s
    }
}

/// Renders the decimal digits of a number.
pub fn render_decimal(n: u64) -> (v: Vec<u8>)
    ensures
        v@ == dec_digits(n as nat),
    decreases n,
{
    if n < 10 {
        let mut v: Vec<u8> = Vec::new();
        v.push(48 + (n as u8));
        proof {
            assert(v@ =~= dec_digits(n as nat));
        }
        v
    } else {
        let mut v = render_decimal(n / 10);
        v.push(48 + ((n % 10) as u8));
        v
    }
}

/// Renders a quantity of tenths with one decimal digit and a comma,
/// padded on the left with spaces up to `width`.
pub fn render_tenths(tenths: u64, width: usize) -> (v: Vec<u8>)
    ensures
        v@ == padded_left(tenths_text(tenths as nat), width as nat),
{
    let mut text = render_decimal(tenths / 10);
    text.push(44);
    text.push(48 + ((tenths % 10) as u8));
    proof {
        assert(text@ =~= tenths_text(tenths as nat));
    }
    let mut v: Vec<u8> = Vec::new();
    let mut pad: usize = 0;
    let needed: usize = if text.len() >= width {
        0
    } else {
        width - text.len()
    };
    while pad < needed
        invariant
            pad <= needed,
            v@ =~= Seq::new(pad as nat, |i: int| 32u8),
        decreases needed - pad,
    {
        v.push(32);
        proof {
            assert(v@ =~= Seq::new((pad + 1) as nat, |i: int| 32u8));
        }
        pad = pad + 1;
    }
    let mut text = text;
    v.append(&mut text);
    proof {
        assert(v@ =~= padded_left(tenths_text(tenths as nat), width as nat));
    }
    v
}

/// The first display line: the heating-oil label and the volume in
/// litres, one decimal digit, rounded half up from millilitres, right
/// aligned, closed by the litre glyph.
pub open spec fn volume_line_spec(volume_ml: u64) -> Seq<u8> {
    seq![72u8, 101u8, 105u8, 122u8, Symbol::OeLowercase.spec_slot(), 108u8] + padded_left(
        tenths_text(((volume_ml + 50) / 100) as nat),
        7,
    ) + seq![32u8, Symbol::Liter.spec_slot(), 32u8]
}

/// The second display line: the droplet glyph and the fill grade in
/// percent, one decimal digit, rounded half up from hundredths, right
/// aligned, closed by the two percent glyphs.
pub open spec fn percent_line_spec(percent_hundredths: u64) -> Seq<u8> {
    seq![Symbol::Droplet.spec_slot()] + padded_left(
        tenths_text(((percent_hundredths + 5) / 10) as nat),
        12,
    ) + seq![32u8, Symbol::PercentLeft.spec_slot(), Symbol::PercentRight.spec_slot()]
}

/// Renders the first display line for a volume in millilitres.
pub fn render_volume_line(volume_ml: u64) -> (v: Vec<u8>)
    requires
        volume_ml + 50 <= u64::MAX,
    ensures
        v@ == volume_line_spec(volume_ml),
{
    let mut v: Vec<u8> = Vec::new();
    v.push(72);
    v.push(101);
    v.push(105);
    v.push(122);
    v.push(Symbol::OeLowercase.slot());
    v.push(108);
    let mut number = render_tenths((volume_ml + 50) / 100, 7);
    v.append(&mut number);
    v.push(32);
    v.push(Symbol::Liter.slot());
    v.push(32);
    proof {
        assert(v@ =~= volume_line_spec(volume_ml));
    }
    v
}

/// Renders the second display line for a fill grade in hundredths of a
/// percent.
pub fn render_percent_line(percent_hundredths: u64) -> (v: Vec<u8>)
    requires
        percent_hundredths + 5 <= u64::MAX,
    ensures
        v@ == percent_line_spec(percent_hundredths),
{
    let mut v: Vec<u8> = Vec::new();
    v.push(Symbol::Droplet.slot());
    let mut number = render_tenths((percent_hundredths + 5) / 10, 12);
    v.append(&mut number);
    v.push(32);
    v.push(Symbol::PercentLeft.slot());
    v.push(Symbol::PercentRight.slot());
    proof {
        assert(v@ =~= percent_line_spec(percent_hundredths));
    }
    v
}

/// Everything one display refresh writes to the expander: cursor to the
/// first line, its characters, cursor to the second line, its
/// characters.
pub open spec fn refresh_frames_spec(volume_ml: u64, percent_hundredths: u64, backlight: bool) -> Seq<
    u8,
> {
    send_frames_spec(Command::SetDgramAddr.spec_code(), Mode::Command, backlight) + data_frames_spec(
        volume_line_spec(volume_ml),
        backlight,
    ) + send_frames_spec(
        (Command::SetDgramAddr.spec_code() | 0x40) as u8,
        Mode::Command,
        backlight,
    ) + data_frames_spec(percent_line_spec(percent_hundredths), backlight)
}

/// Computes the whole expander write run of one display refresh
/// showing a volume and a fill grade.
pub fn refresh_frames(volume_ml: u64, percent_hundredths: u64, backlight: bool) -> (v: Vec<u8>)
    requires
        volume_ml + 50 <= u64::MAX,
        percent_hundredths + 5 <= u64::MAX,
    ensures
        v@ == refresh_frames_spec(volume_ml, percent_hundredths, backlight),
{
    proof {
        assert(128u8 | 0u8 == 128u8) by (bit_vector);
    }
    let mut v = send_frames(set_cursor_code(0, 0), Mode::Command, backlight);
    let line1 = render_volume_line(volume_ml);
    let mut frames1 = data_frames(&line1, backlight);
    v.append(&mut frames1);
    let mut cursor2 = send_frames(set_cursor_code(0, 1), Mode::Command, backlight);
    v.append(&mut cursor2);
    let line2 = render_percent_line(percent_hundredths);
    let mut frames2 = data_frames(&line2, backlight);
    v.append(&mut frames2);
    proof {
        assert(v@ =~= refresh_frames_spec(volume_ml, percent_hundredths, backlight));
    }
    v
}

} // verus!
