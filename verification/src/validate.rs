//! The operand domains. Every numeric operand that is checked has a largest
//! admissible value and an error code of its own; operands are unsigned, so
//! there is no smallest one to check.

use vstd::prelude::*;
use crate::error::ErrorCode;

verus! {

/// The kinds of operand that are checked before anything is encoded.
#[derive(Clone, Copy, Debug, PartialEq, Eq, Structural)]
pub enum Domain {
    /// A row of the display.
    Row,
    /// A column of the display, or a number of columns to scroll by.
    Column,
    /// What part of the line to erase.
    EraseMode,
    /// A baud-rate selector.
    BaudRate,
    /// A character table.
    CharTable,
    /// A communication-mode selector.
    CommMode,
    /// A cursor mode.
    CursorMode,
    /// A display mode.
    DisplayMode,
    /// A slot for a custom character.
    Slot,
}

impl Domain {
    /// The largest value inside the domain.
    pub open spec fn spec_max(self) -> u8 {
        match self {
            Domain::Row => 2,
            Domain::Column => 39,
            Domain::EraseMode => 2,
            Domain::BaudRate => 6,
            Domain::CharTable => 3,
            Domain::CommMode => 2,
            Domain::CursorMode => 2,
            Domain::DisplayMode => 1,
            Domain::Slot => 7,
        }
    }

    /// The largest value inside the domain.
    pub fn max(self) -> (m: u8)
        ensures
            m == self.spec_max(),
    {
        match self {
            Domain::Row => 2,
            Domain::Column => 39,
            Domain::EraseMode => 2,
            Domain::BaudRate => 6,
            Domain::CharTable => 3,
            Domain::CommMode => 2,
            Domain::CursorMode => 2,
            Domain::DisplayMode => 1,
            Domain::Slot => 7,
        }
    }

    /// The error that a value outside the domain is answered with.
    pub open spec fn spec_violation(self) -> ErrorCode {
        match self {
            Domain::Row => ErrorCode::RowRange,
            Domain::Column => ErrorCode::ColumnRange,
            Domain::EraseMode => ErrorCode::EraseOptions,
            Domain::BaudRate => ErrorCode::BaudRateRange,
            Domain::CharTable => ErrorCode::TableRange,
            Domain::CommMode => ErrorCode::CommRange,
            Domain::CursorMode => ErrorCode::CursorRange,
            Domain::DisplayMode => ErrorCode::DisplayModeRange,
            Domain::Slot => ErrorCode::PositionRange,
        }
    }

    /// The error that a value outside the domain is answered with.
    pub fn violation(self) -> (e: ErrorCode)
        ensures
            e == self.spec_violation(),
    {
        match self {
            Domain::Row => ErrorCode::RowRange,
            Domain::Column => ErrorCode::ColumnRange,
            Domain::EraseMode => ErrorCode::EraseOptions,
            Domain::BaudRate => ErrorCode::BaudRateRange,
            Domain::CharTable => ErrorCode::TableRange,
            Domain::CommMode => ErrorCode::CommRange,
            Domain::CursorMode => ErrorCode::CursorRange,
            Domain::DisplayMode => ErrorCode::DisplayModeRange,
            Domain::Slot => ErrorCode::PositionRange,
        }
    }

    /// `Success` for a value inside the domain, the domain's error for any
    /// other.
    pub open spec fn status(self, value: u8) -> ErrorCode {
        if value <= self.spec_max() {
            ErrorCode::Success
        } else {
            self.spec_violation()
        }
    }

    /// Checks `value` against the domain.
    pub fn check(self, value: u8) -> (e: ErrorCode)
        ensures
            e == self.status(value),
    {
        if value <= self.max() {
            ErrorCode::Success
        } else {
            self.violation()
        }
    }
}

/// The status of a cursor position: the row is checked before the column, so
/// a position with both outside their domains is answered with the row's
/// error.
pub open spec fn position_status(row: u8, col: u8) -> ErrorCode {
    if Domain::Row.status(row) != ErrorCode::Success {
        Domain::Row.status(row)
    } else {
        Domain::Column.status(col)
    }
}

/// Checks a cursor position, the row first.
pub fn check_position(row: u8, col: u8) -> (e: ErrorCode)
    ensures
        e == position_status(row, col),
{
    let row_status: ErrorCode = Domain::Row.check(row);
    if row_status.is_success() {
        Domain::Column.check(col)
    } else {
        row_status
    }
}

/// A check succeeds on exactly the values up to the domain's largest, and
/// fails with the domain's own error, which is never `Success`.
pub proof fn status_decides_membership(domain: Domain, value: u8)
    ensures
        domain.status(value) == ErrorCode::Success <==> value <= domain.spec_max(),
        domain.status(value) != ErrorCode::Success ==> domain.status(value)
            == domain.spec_violation(),
        domain.spec_violation() != ErrorCode::Success,
{
}

/// Every value inside a domain can be written with the digits that its
/// command has room for: two for a column, one for anything else.
pub proof fn valid_operands_fit_their_digits(domain: Domain, value: u8)
    requires
        domain.status(value) == ErrorCode::Success,
    ensures
        domain == Domain::Column ==> value <= 99,
        domain != Domain::Column ==> value <= 9,
{
}

/// A position is accepted exactly when the row is at most 2 and the column at
/// most 39; otherwise the error is the row's if the row is outside its
/// domain, and the column's if only the column is.
pub proof fn position_status_cases(row: u8, col: u8)
    ensures
        row <= 2 && col <= 39 <==> position_status(row, col) == ErrorCode::Success,
        row > 2 ==> position_status(row, col) == ErrorCode::RowRange,
        row <= 2 && col > 39 ==> position_status(row, col) == ErrorCode::ColumnRange,
{
}

} // verus!
