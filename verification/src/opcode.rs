//! The opcode table: the one byte that ends each escape sequence and selects
//! the operation that the preceding parameter bytes apply to.

use vstd::prelude::*;

verus! {

/// The operations that the controller knows, one per opcode byte.
#[derive(Clone, Copy, Debug, PartialEq, Eq, Structural)]
pub enum Opcode {
    CursorPosition,
    CursorSave,
    CursorRestore,
    DisplayClear,
    EraseInLine,
    EraseField,
    ScrollLeft,
    ScrollRight,
    Reset,
    DisplayEnable,
    DisplayMode,
    CursorMode,
    SaveTwiAddress,
    SaveBaudRate,
    ProgramCharTable,
    SaveRamToEeprom,
    LoadEepromToRam,
    DefineChar,
    SaveCommMode,
    EepromWriteEnable,
    SaveCursorMode,
    SaveDisplayMode,
}

impl Opcode {
    /// The byte that selects this operation.
    pub open spec fn spec_byte(self) -> u8 {
        match self {
            Opcode::CursorPosition => 0x48,
            Opcode::CursorSave => 0x73,
            Opcode::CursorRestore => 0x75,
            Opcode::DisplayClear => 0x6A,
            Opcode::EraseInLine => 0x4B,
            Opcode::EraseField => 0x4E,
            Opcode::ScrollLeft => 0x40,
            Opcode::ScrollRight => 0x41,
            Opcode::Reset => 0x2A,
            Opcode::DisplayEnable => 0x65,
            Opcode::DisplayMode => 0x68,
            Opcode::CursorMode => 0x63,
            Opcode::SaveTwiAddress => 0x61,
            Opcode::SaveBaudRate => 0x62,
            Opcode::ProgramCharTable => 0x70,
            Opcode::SaveRamToEeprom => 0x74,
            Opcode::LoadEepromToRam => 0x6C,
            Opcode::DefineChar => 0x64,
            Opcode::SaveCommMode => 0x6D,
            Opcode::EepromWriteEnable => 0x77,
            Opcode::SaveCursorMode => 0x6E,
            Opcode::SaveDisplayMode => 0x6F,
        }
    }

    /// The byte that selects this operation.
    pub fn byte(self) -> (b: u8)
        ensures
            b == self.spec_byte(),
    {
        match self {
            Opcode::CursorPosition => 0x48,
            Opcode::CursorSave => 0x73,
            Opcode::CursorRestore => 0x75,
            Opcode::DisplayClear => 0x6A,
            Opcode::EraseInLine => 0x4B,
            Opcode::EraseField => 0x4E,
            Opcode::ScrollLeft => 0x40,
            Opcode::ScrollRight => 0x41,
            Opcode::Reset => 0x2A,
            Opcode::DisplayEnable => 0x65,
            Opcode::DisplayMode => 0x68,
            Opcode::CursorMode => 0x63,
            Opcode::SaveTwiAddress => 0x61,
            Opcode::SaveBaudRate => 0x62,
            Opcode::ProgramCharTable => 0x70,
            Opcode::SaveRamToEeprom => 0x74,
            Opcode::LoadEepromToRam => 0x6C,
            Opcode::DefineChar => 0x64,
            Opcode::SaveCommMode => 0x6D,
            Opcode::EepromWriteEnable => 0x77,
            Opcode::SaveCursorMode => 0x6E,
            Opcode::SaveDisplayMode => 0x6F,
        }
    }
}

/// No two operations share an opcode byte.
pub proof fn opcode_bytes_are_distinct(a: Opcode, b: Opcode)
    requires
        a.spec_byte() == b.spec_byte(),
    ensures
        a == b,
{
}

} // verus!
