use lcds::Dispatch;
use lcds::ErrorCode;
use lcds::Report;
use lcds::TransportError;
use lcds::LCDS;

fn every_operation(lcds: &LCDS) -> Vec<Dispatch> {
    vec![
        lcds.send_bytes(vec![1, 2, 3]),
        lcds.display_set(true, true),
        lcds.cursor_mode_set(true, false),
        lcds.display_clear(),
        lcds.write_string_at_pos(0, 38, "HELLO"),
        lcds.display_scroll(true, 4),
        lcds.save_cursor(),
        lcds.restore_cursor(),
        lcds.display_mode(false),
        lcds.erase_in_line(2),
        lcds.erase_chars(4),
        lcds.reset(),
        lcds.save_twi_addr(1),
        lcds.save_br(6),
        lcds.chars_to_lcd(3),
        lcds.save_ram_to_eeprom(0),
        lcds.ld_eeprom_to_ram(1),
        lcds.save_comm_to_eeprom(2),
        lcds.eeprom_wr_en(),
        lcds.save_cursor_to_eeprom(1),
        lcds.save_display_to_eeprom(1),
        lcds.define_user_char(&[0x1F; 8], 0),
        lcds.disp_user_char(&[0, 1], 2, 1, 1),
        lcds.set_pos(2, 39),
    ]
}

#[test]
fn new_driver_holds_no_transport() {
    assert!(!LCDS::new().is_initialized());
}

#[test]
fn begin_records_the_outcome() {
    let mut lcds = LCDS::new();
    lcds.begin(false);
    assert!(!lcds.is_initialized());
    lcds.begin(true);
    assert!(lcds.is_initialized());
    lcds.begin(true);
    assert!(lcds.is_initialized());
    lcds.begin(false);
    assert!(!lcds.is_initialized());
}

#[test]
fn send_bytes_hands_the_buffer_over() {
    let mut lcds = LCDS::new();
    lcds.begin(true);
    assert_eq!(lcds.send_bytes(vec![0x1B, 0x5B, b'j']), Dispatch::Write(vec![0x1B, 0x5B, b'j']));
    assert_eq!(lcds.send_bytes(Vec::new()), Dispatch::Write(Vec::new()));
}

#[test]
fn send_bytes_without_transport_fails() {
    let lcds = LCDS::new();
    let out = lcds.send_bytes(vec![0x1B, 0x5B, b'j']);
    assert_eq!(out, Dispatch::NotInitialized);
    assert!(out.wire().is_empty());
    assert!(!out.report(true).is_success());
    assert!(!out.report(false).is_success());
    assert_eq!(out.report(true).transport, Some(TransportError::NotInitialized));
}

#[test]
fn uninitialized_driver_never_writes_nor_succeeds() {
    let mut failed = LCDS::new();
    failed.begin(false);
    for lcds in [LCDS::new(), failed] {
        for out in every_operation(&lcds) {
            assert_eq!(out, Dispatch::NotInitialized);
            assert!(out.wire().is_empty());
            for written in [false, true] {
                let report = out.report(written);
                assert!(!report.is_success());
                assert_eq!(report.transport, Some(TransportError::NotInitialized));
            }
        }
    }
}

#[test]
fn initialized_driver_writes_every_valid_operation() {
    let mut lcds = LCDS::new();
    lcds.begin(true);
    for out in every_operation(&lcds) {
        assert!(matches!(out, Dispatch::Write(_)));
        assert!(!out.wire().is_empty());
        assert_eq!(out.status(), ErrorCode::Success);
        assert!(out.report(true).is_success());
        assert!(!out.report(false).is_success());
    }
}

#[test]
fn report_of_a_completed_write() {
    let out = Dispatch::Write(vec![0x1B, 0x5B, b'j']);
    assert_eq!(out.report(true), Report { code: ErrorCode::Success, transport: None });
    assert!(out.report(true).is_success());
}

#[test]
fn report_of_a_failed_write() {
    let out = Dispatch::Write(vec![0x1B, 0x5B, b'j']);
    assert_eq!(
        out.report(false),
        Report { code: ErrorCode::Success, transport: Some(TransportError::WriteFailed) }
    );
    assert!(!out.report(false).is_success());
}

#[test]
fn report_of_a_rejection_keeps_the_error() {
    let out = Dispatch::Rejected(ErrorCode::TableRange);
    for written in [false, true] {
        assert_eq!(out.report(written), Report { code: ErrorCode::TableRange, transport: None });
        assert!(!out.report(written).is_success());
    }
    assert_eq!(out.status(), ErrorCode::TableRange);
    assert!(out.wire().is_empty());
}

#[test]
fn wire_of_a_write_is_its_buffer() {
    let out = Dispatch::Write(vec![9, 8, 7]);
    assert_eq!(out.wire(), &[9u8, 8, 7][..]);
    assert_eq!(out.status(), ErrorCode::Success);
}

#[test]
fn rejection_does_not_depend_on_the_transport() {
    let without = LCDS::new();
    let mut with = LCDS::new();
    with.begin(true);
    for lcds in [without, with] {
        assert_eq!(lcds.set_pos(3, 0), Dispatch::Rejected(ErrorCode::RowRange));
        assert_eq!(lcds.display_scroll(true, 40), Dispatch::Rejected(ErrorCode::ColumnRange));
        assert_eq!(lcds.erase_in_line(3), Dispatch::Rejected(ErrorCode::EraseOptions));
        assert_eq!(lcds.save_br(7), Dispatch::Rejected(ErrorCode::BaudRateRange));
        assert_eq!(lcds.chars_to_lcd(4), Dispatch::Rejected(ErrorCode::TableRange));
        assert_eq!(lcds.save_comm_to_eeprom(3), Dispatch::Rejected(ErrorCode::CommRange));
        assert_eq!(lcds.save_cursor_to_eeprom(3), Dispatch::Rejected(ErrorCode::CursorRange));
        assert_eq!(
            lcds.save_display_to_eeprom(2),
            Dispatch::Rejected(ErrorCode::DisplayModeRange)
        );
        assert_eq!(
            lcds.define_user_char(&[0; 8], 8),
            Dispatch::Rejected(ErrorCode::PositionRange)
        );
    }
}

#[test]
fn same_operands_give_the_same_bytes() {
    let mut first = LCDS::new();
    first.begin(true);
    let mut second = LCDS::new();
    second.begin(false);
    second.begin(true);
    assert_eq!(every_operation(&first), every_operation(&first));
    assert_eq!(every_operation(&first), every_operation(&second));
    assert_eq!(first.set_pos(1, 25), first.set_pos(1, 25));
    assert_eq!(first.set_pos(9, 25), first.set_pos(9, 25));
    assert_ne!(first.set_pos(1, 25), first.set_pos(1, 26));
}
