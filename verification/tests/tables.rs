use lcds::validate::check_position;
use lcds::Domain;
use lcds::ErrorCode;
use lcds::Opcode;

const CODES: [ErrorCode; 10] = [
    ErrorCode::Success,
    ErrorCode::RowRange,
    ErrorCode::ColumnRange,
    ErrorCode::EraseOptions,
    ErrorCode::BaudRateRange,
    ErrorCode::TableRange,
    ErrorCode::CommRange,
    ErrorCode::CursorRange,
    ErrorCode::DisplayModeRange,
    ErrorCode::PositionRange,
];

#[test]
fn error_codes_are_numbered_from_zero() {
    for (number, code) in CODES.iter().enumerate() {
        assert_eq!(code.code() as usize, number);
    }
    assert_eq!(ErrorCode::Success.code(), 0);
    assert_eq!(ErrorCode::PositionRange.code(), 9);
}

#[test]
fn error_code_from_its_number() {
    for code in CODES {
        assert_eq!(ErrorCode::from_code(code.code()), Some(code));
    }
    for number in 10u8..=255 {
        assert_eq!(ErrorCode::from_code(number), None);
    }
}

#[test]
fn only_success_is_success() {
    for code in CODES {
        assert_eq!(code.is_success(), code == ErrorCode::Success);
    }
}

#[test]
fn opcode_table() {
    let table = [
        (Opcode::CursorPosition, b'H'),
        (Opcode::CursorSave, b's'),
        (Opcode::CursorRestore, b'u'),
        (Opcode::DisplayClear, b'j'),
        (Opcode::EraseInLine, b'K'),
        (Opcode::EraseField, b'N'),
        (Opcode::ScrollLeft, b'@'),
        (Opcode::ScrollRight, b'A'),
        (Opcode::Reset, b'*'),
        (Opcode::DisplayEnable, b'e'),
        (Opcode::DisplayMode, b'h'),
        (Opcode::CursorMode, b'c'),
        (Opcode::SaveTwiAddress, b'a'),
        (Opcode::SaveBaudRate, b'b'),
        (Opcode::ProgramCharTable, b'p'),
        (Opcode::SaveRamToEeprom, b't'),
        (Opcode::LoadEepromToRam, b'l'),
        (Opcode::DefineChar, b'd'),
        (Opcode::SaveCommMode, b'm'),
        (Opcode::EepromWriteEnable, b'w'),
        (Opcode::SaveCursorMode, b'n'),
        (Opcode::SaveDisplayMode, b'o'),
    ];
    for (opcode, byte) in table {
        assert_eq!(opcode.byte(), byte);
    }
    for (i, (_, a)) in table.iter().enumerate() {
        for (_, b) in &table[i + 1..] {
            assert_ne!(a, b);
        }
    }
}

#[test]
fn domain_table() {
    let table = [
        (Domain::Row, 2u8, ErrorCode::RowRange),
        (Domain::Column, 39, ErrorCode::ColumnRange),
        (Domain::EraseMode, 2, ErrorCode::EraseOptions),
        (Domain::BaudRate, 6, ErrorCode::BaudRateRange),
        (Domain::CharTable, 3, ErrorCode::TableRange),
        (Domain::CommMode, 2, ErrorCode::CommRange),
        (Domain::CursorMode, 2, ErrorCode::CursorRange),
        (Domain::DisplayMode, 1, ErrorCode::DisplayModeRange),
        (Domain::Slot, 7, ErrorCode::PositionRange),
    ];
    for (domain, max, violation) in table {
        assert_eq!(domain.max(), max);
        assert_eq!(domain.violation(), violation);
        for value in 0u8..=255 {
            let expected = if value <= max { ErrorCode::Success } else { violation };
            assert_eq!(domain.check(value), expected);
        }
    }
}

#[test]
fn check_position_row_first() {
    assert_eq!(check_position(0, 0), ErrorCode::Success);
    assert_eq!(check_position(2, 39), ErrorCode::Success);
    assert_eq!(check_position(3, 39), ErrorCode::RowRange);
    assert_eq!(check_position(2, 40), ErrorCode::ColumnRange);
    assert_eq!(check_position(3, 40), ErrorCode::RowRange);
}
