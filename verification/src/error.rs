//! The two failure classes of the driver: operand errors, which are part of
//! every operation's result, and transport errors, which are reported beside
//! them.

use vstd::prelude::*;

verus! {

/// Result of checking an operation's operands against their domains.
///
/// `Success` means that every operand is inside its domain; every other value
/// names the domain that was violated.
#[derive(Clone, Copy, Debug, PartialEq, Eq, Structural)]
pub enum ErrorCode {
    /// All operands are inside their domains.
    Success,
    /// A row index above 2.
    RowRange,
    /// A column index or scroll offset above 39.
    ColumnRange,
    /// An erase mode above 2.
    EraseOptions,
    /// A baud-rate selector above 6.
    BaudRateRange,
    /// A character-table index above 3.
    TableRange,
    /// A communication-mode selector above 2.
    CommRange,
    /// A cursor mode above 2.
    CursorRange,
    /// A display mode above 1.
    DisplayModeRange,
    /// A custom-character slot above 7.
    PositionRange,
}

impl ErrorCode {
    /// The number that stands for this code.
    pub open spec fn spec_code(self) -> u8 {
        match self {
            ErrorCode::Success => 0,
            ErrorCode::RowRange => 1,
            ErrorCode::ColumnRange => 2,
            ErrorCode::EraseOptions => 3,
            ErrorCode::BaudRateRange => 4,
            ErrorCode::TableRange => 5,
            ErrorCode::CommRange => 6,
            ErrorCode::CursorRange => 7,
            ErrorCode::DisplayModeRange => 8,
            ErrorCode::PositionRange => 9,
        }
    }

    /// The number that stands for this code.
    pub fn code(self) -> (c: u8)
        ensures
            c == self.spec_code(),
    {
        match self {
            ErrorCode::Success => 0,
            ErrorCode::RowRange => 1,
            ErrorCode::ColumnRange => 2,
            ErrorCode::EraseOptions => 3,
            ErrorCode::BaudRateRange => 4,
            ErrorCode::TableRange => 5,
            ErrorCode::CommRange => 6,
            ErrorCode::CursorRange => 7,
            ErrorCode::DisplayModeRange => 8,
            ErrorCode::PositionRange => 9,
        }
    }

    /// The code that `c` stands for, if there is one.
    pub fn from_code(c: u8) -> (e: Option<ErrorCode>)
        ensures
            c <= 9 ==> e is Some && e->0.spec_code() == c,
            c > 9 ==> e is None,
    {
        match c {
            0 => Some(ErrorCode::Success),
            1 => Some(ErrorCode::RowRange),
            2 => Some(ErrorCode::ColumnRange),
            3 => Some(ErrorCode::EraseOptions),
            4 => Some(ErrorCode::BaudRateRange),
            5 => Some(ErrorCode::TableRange),
            6 => Some(ErrorCode::CommRange),
            7 => Some(ErrorCode::CursorRange),
            8 => Some(ErrorCode::DisplayModeRange),
            9 => Some(ErrorCode::PositionRange),
            _ => None,
        }
    }

    /// Whether this code is `Success`.
    pub fn is_success(self) -> (b: bool)
        ensures
            b == (self == ErrorCode::Success),
    {
        match self {
            ErrorCode::Success => true,
            _ => false,
        }
    }
}

/// Two codes with the same number are the same code.
pub proof fn code_is_injective(a: ErrorCode, b: ErrorCode)
    requires
        a.spec_code() == b.spec_code(),
    ensures
        a == b,
{
}

/// Why nothing reached the device although the operands were valid.
#[derive(Clone, Copy, Debug, PartialEq, Eq, Structural)]
pub enum TransportError {
    /// The driver holds no transport handle.
    NotInitialized,
    /// The transport was asked to write and reported a failure.
    WriteFailed,
}

} // verus!
