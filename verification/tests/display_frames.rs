//! Tests of the display encoding: command bytes, glyphs, the expander
//! frame layout, and the rendered lines.

use tank_monitor::display::{
    create_char_frames, data_frames, function_set_code, render_decimal, render_percent_line,
    render_tenths, render_volume_line, send_frames, set_cursor_code, Command, DisplayCursorShift,
    DisplayMove, Mode, Symbol, BACKLIGHT_ON, DISPLAY_WIDTH, ENABLE, ROWS_2,
};

#[test]
fn command_codes() {
    assert_eq!(Command::ClearDisplay.code(), 0x01);
    assert_eq!(Command::ReturnHome.code(), 0x02);
    assert_eq!(Command::EntryModeSet.code(), 0x04);
    assert_eq!(Command::DisplayControl.code(), 0x08);
    assert_eq!(Command::CursorShift.code(), 0x10);
    assert_eq!(Command::FunctionSet.code(), 0x20);
    assert_eq!(Command::SetCgramAddr.code(), 0x40);
    assert_eq!(Command::SetDgramAddr.code(), 0x80);
    assert_eq!(DisplayCursorShift::DisplayMove.code(), 0x08);
    assert_eq!(DisplayCursorShift::CursorMove.code(), 0x00);
    assert_eq!(DisplayMove::Right.code(), 0x04);
    assert_eq!(DisplayMove::Left.code(), 0x00);
    assert_eq!(Mode::Command.code(), 0x00);
    assert_eq!(Mode::Data.code(), 0x01);
}

#[test]
fn symbol_slots_and_bitmaps() {
    assert_eq!(Symbol::Liter.slot(), 0);
    assert_eq!(Symbol::PercentLeft.slot(), 1);
    assert_eq!(Symbol::PercentRight.slot(), 2);
    assert_eq!(Symbol::Droplet.slot(), 3);
    assert_eq!(Symbol::OeLowercase.slot(), 4);
    assert_eq!(Symbol::Liter.bitmap(), [0x02, 0x05, 0x05, 0x06, 0x0c, 0x04, 0x03, 0x00]);
    assert_eq!(
        Symbol::Droplet.bitmap(),
        [0b00100, 0b00100, 0b01110, 0b01110, 0b11111, 0b11111, 0b11111, 0b01110]
    );
}

#[test]
fn send_frames_strobe_each_half() {
    // Clearing the display with the backlight on: the high half is
    // 0x00, the low half 0x10, each written plain, with the enable
    // strobe raised, and with it lowered, all carrying the backlight.
    let frames = send_frames(Command::ClearDisplay.code(), Mode::Command, true);
    assert_eq!(
        frames,
        vec![
            BACKLIGHT_ON,
            ENABLE | BACKLIGHT_ON,
            BACKLIGHT_ON,
            0x10 | BACKLIGHT_ON,
            0x10 | ENABLE | BACKLIGHT_ON,
            0x10 | BACKLIGHT_ON,
        ]
    );
    // Without the backlight, the data mode bit rides on every write.
    let frames = send_frames(0xAB, Mode::Data, false);
    assert_eq!(frames, vec![0xA1, 0xA1 | ENABLE, 0xA1, 0xB1, 0xB1 | ENABLE, 0xB1]);
}

#[test]
fn data_frames_concatenate_per_byte() {
    let bytes = vec![0x48u8, 0x69];
    let frames = data_frames(&bytes, false);
    let mut expected = send_frames(0x48, Mode::Data, false);
    expected.extend(send_frames(0x69, Mode::Data, false));
    assert_eq!(frames, expected);
}

#[test]
fn cursor_and_function_set_codes() {
    assert_eq!(set_cursor_code(0, 0), 0x80);
    assert_eq!(set_cursor_code(0, 1), 0xC0);
    assert_eq!(set_cursor_code(5, 0), 0x85);
    assert_eq!(function_set_code(2, false), Command::FunctionSet.code() | ROWS_2);
    assert_eq!(function_set_code(1, false), Command::FunctionSet.code());
}

#[test]
fn create_char_frames_load_address_then_rows() {
    let bitmap = Symbol::Liter.bitmap();
    let frames = create_char_frames(0, &bitmap, true);
    // One command byte and eight data bytes, six expander writes each.
    assert_eq!(frames.len(), 6 * 9);
    let mut expected = send_frames(Command::SetCgramAddr.code(), Mode::Command, true);
    for row in bitmap {
        expected.extend(send_frames(row, Mode::Data, true));
    }
    assert_eq!(frames, expected);
}

#[test]
fn decimal_rendering() {
    assert_eq!(render_decimal(0), b"0".to_vec());
    assert_eq!(render_decimal(7), b"7".to_vec());
    assert_eq!(render_decimal(4410), b"4410".to_vec());
    assert_eq!(render_decimal(100), b"100".to_vec());
}

#[test]
fn tenths_rendering_pads_on_the_left() {
    assert_eq!(render_tenths(44104, 7), b" 4410,4".to_vec());
    assert_eq!(render_tenths(0, 4), b" 0,0".to_vec());
    assert_eq!(render_tenths(667, 12), b"        66,7".to_vec());
    // A number wider than the field is not truncated.
    assert_eq!(render_tenths(123456, 3), b"12345,6".to_vec());
}

#[test]
fn volume_line_shows_litres_with_one_decimal() {
    // 4410400 millilitres round to 4410.4 litres.
    let line = render_volume_line(4_410_400);
    let mut expected: Vec<u8> = Vec::new();
    expected.extend(b"Heiz");
    expected.push(Symbol::OeLowercase.slot());
    expected.push(b'l');
    expected.extend(b" 4410,4 ");
    expected.push(Symbol::Liter.slot());
    expected.push(b' ');
    assert_eq!(line, expected);
    assert_eq!(line.len(), DISPLAY_WIDTH);
}

#[test]
fn percent_line_shows_percent_with_one_decimal() {
    // 6667 hundredths round to 66.7 percent.
    let line = render_percent_line(6667);
    let mut expected: Vec<u8> = Vec::new();
    expected.push(Symbol::Droplet.slot());
    expected.extend(b"        66,7 ");
    expected.push(Symbol::PercentLeft.slot());
    expected.push(Symbol::PercentRight.slot());
    assert_eq!(line, expected);
    assert_eq!(line.len(), DISPLAY_WIDTH);
}

#[test]
fn rounding_is_half_up() {
    // 50 millilitres round up to 0.1 litres; 49 round down to 0.0.
    assert_eq!(render_tenths((50 + 50) / 100, 4), b" 0,1".to_vec());
    assert_eq!(render_tenths((49 + 50) / 100, 4), b" 0,0".to_vec());
}
