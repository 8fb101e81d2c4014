use lcds::Dispatch;
use lcds::ErrorCode;
use lcds::LCDS;

fn ready() -> LCDS {
    let mut lcds = LCDS::new();
    lcds.begin(true);
    lcds
}

#[test]
fn define_user_char_full_block_in_slot_zero() {
    let rows = [0x1Fu8; 8];
    let expected =
        "\u{1b}[0x1F;0x1F;0x1F;0x1F;0x1F;0x1F;0x1F;0x1F;0d\u{1b}[3p".as_bytes().to_vec();
    assert_eq!(expected.len(), 2 + 8 * 5 + 2 + 4);
    assert_eq!(ready().define_user_char(&rows, 0), Dispatch::Write(expected));
}

#[test]
fn define_user_char_keeps_the_row_order() {
    let rows = [0x00u8, 0x0A, 0x1F, 0x1F, 0x0E, 0x04, 0x00, 0xFF];
    let expected =
        "\u{1b}[0x00;0x0A;0x1F;0x1F;0x0E;0x04;0x00;0xFF;7d\u{1b}[3p".as_bytes().to_vec();
    assert_eq!(ready().define_user_char(&rows, 7), Dispatch::Write(expected));
}

#[test]
fn define_user_char_uses_upper_case_digits() {
    let rows = [0xABu8, 0xCD, 0xEF, 0x9A, 0xA9, 0x10, 0x01, 0xF0];
    let expected =
        "\u{1b}[0xAB;0xCD;0xEF;0x9A;0xA9;0x10;0x01;0xF0;3d\u{1b}[3p".as_bytes().to_vec();
    assert_eq!(ready().define_user_char(&rows, 3), Dispatch::Write(expected));
}

#[test]
fn define_user_char_slot_domain() {
    let lcds = ready();
    let rows = [0u8; 8];
    for slot in 0u8..=7 {
        let expected = format!(
            "\u{1b}[0x00;0x00;0x00;0x00;0x00;0x00;0x00;0x00;{}d\u{1b}[3p",
            slot
        )
        .into_bytes();
        assert_eq!(lcds.define_user_char(&rows, slot), Dispatch::Write(expected));
    }
    for slot in 8u8..=255 {
        let out = lcds.define_user_char(&rows, slot);
        assert_eq!(out, Dispatch::Rejected(ErrorCode::PositionRange));
        assert!(out.wire().is_empty());
    }
}

#[test]
fn define_user_char_takes_the_first_eight_rows() {
    let lcds = ready();
    let ten = [1u8, 2, 3, 4, 5, 6, 7, 8, 9, 10];
    let expected =
        "\u{1b}[0x01;0x02;0x03;0x04;0x05;0x06;0x07;0x08;1d\u{1b}[3p".as_bytes().to_vec();
    assert_eq!(lcds.define_user_char(&ten, 1), Dispatch::Write(expected));
    let three = [0x11u8, 0x0E, 0x04];
    let expected = "\u{1b}[0x11;0x0E;0x04;2d\u{1b}[3p".as_bytes().to_vec();
    assert_eq!(lcds.define_user_char(&three, 2), Dispatch::Write(expected));
    let expected = "\u{1b}[5d\u{1b}[3p".as_bytes().to_vec();
    assert_eq!(lcds.define_user_char(&[], 5), Dispatch::Write(expected));
}

#[test]
fn build_user_def_char_appends_to_the_buffer() {
    let lcds = LCDS::new();
    let mut buffer = vec![0x1Bu8, 0x5B];
    lcds.build_user_def_char(&[0x1F, 0x00, 0xA5], &mut buffer);
    assert_eq!(buffer, "\u{1b}[0x1F;0x00;0xA5;".as_bytes().to_vec());
    lcds.build_user_def_char(&[], &mut buffer);
    assert_eq!(buffer, "\u{1b}[0x1F;0x00;0xA5;".as_bytes().to_vec());
}

#[test]
fn build_user_def_char_every_byte() {
    let lcds = LCDS::new();
    for value in 0u8..=255 {
        let mut buffer = Vec::new();
        lcds.build_user_def_char(&[value], &mut buffer);
        assert_eq!(buffer, format!("0x{:02X};", value).into_bytes());
    }
}

#[test]
fn build_user_def_char_stops_after_eight_rows() {
    let lcds = LCDS::new();
    let mut buffer = Vec::new();
    lcds.build_user_def_char(&[0u8; 20], &mut buffer);
    assert_eq!(buffer.len(), 40);
    let mut eight = Vec::new();
    lcds.build_user_def_char(&[0u8; 8], &mut eight);
    assert_eq!(buffer, eight);
}

#[test]
fn disp_user_char_sends_the_slots_after_the_position() {
    let lcds = ready();
    assert_eq!(
        lcds.disp_user_char(&[0, 1, 2], 3, 1, 12),
        Dispatch::Write(vec![0x1B, 0x5B, b'1', b';', b'1', b'2', b'H', 0, 1, 2])
    );
}

#[test]
fn disp_user_char_takes_the_first_slots() {
    let lcds = ready();
    assert_eq!(
        lcds.disp_user_char(&[7, 6, 5, 4], 2, 0, 0),
        Dispatch::Write(vec![0x1B, 0x5B, b'0', b';', b'0', b'0', b'H', 7, 6])
    );
    assert_eq!(lcds.disp_user_char(&[7, 6, 5, 4], 0, 2, 39), lcds.set_pos(2, 39));
}

#[test]
fn disp_user_char_count_beyond_the_slots() {
    let lcds = ready();
    assert_eq!(
        lcds.disp_user_char(&[3, 4], 200, 2, 5),
        Dispatch::Write(vec![0x1B, 0x5B, b'2', b';', b'0', b'5', b'H', 3, 4])
    );
    assert_eq!(lcds.disp_user_char(&[], 4, 0, 1), lcds.set_pos(0, 1));
}

#[test]
fn disp_user_char_rejects_bad_positions() {
    let lcds = ready();
    assert_eq!(
        lcds.disp_user_char(&[0, 1], 2, 3, 0),
        Dispatch::Rejected(ErrorCode::RowRange)
    );
    assert_eq!(
        lcds.disp_user_char(&[0, 1], 2, 0, 40),
        Dispatch::Rejected(ErrorCode::ColumnRange)
    );
    assert_eq!(
        lcds.disp_user_char(&[0, 1], 2, 4, 41),
        Dispatch::Rejected(ErrorCode::RowRange)
    );
}
