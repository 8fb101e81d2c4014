//! The driver: one method per operation of the display. Each checks its
//! operands, encodes the command and decides what the transport is asked to
//! do. The driver keeps no picture of the device; all it remembers is whether
//! it holds the transport.

use vstd::prelude::*;
use vstd::slice::slice_subrange;
use crate::dispatch::Dispatch;
use crate::dispatch::DispatchView;
use crate::error::ErrorCode;
use crate::opcode::Opcode;
use crate::validate::check_position;
use crate::validate::position_status;
use crate::validate::Domain;
use crate::wire::cursor_position;
use crate::wire::cursor_selector;
use crate::wire::define_char;
use crate::wire::digit;
use crate::wire::display_selector;
use crate::wire::encode_cursor_position;
use crate::wire::encode_digit;
use crate::wire::encode_scroll;
use crate::wire::encode_single;
use crate::wire::escape;
use crate::wire::glyph_rows;
use crate::wire::hex_payload;
use crate::wire::push_bytes;
use crate::wire::push_hex_token;
use crate::wire::scroll;
use crate::wire::shown_slots;
use crate::wire::single;
use crate::wire::slots_at;
use crate::wire::text_at;
use crate::wire::visible_text;
use crate::wire::wrap_selector;
use crate::wire::BRACKET;
use crate::wire::ESC;
use crate::wire::GLYPH_ROWS;
use crate::wire::GLYPH_TABLE;
use crate::wire::LINE_WIDTH;
use crate::wire::SEPARATOR;
use crate::wire::ZERO;

verus! {

/// The driver of one display.
pub struct LCDS {
    initialized: bool,
}

impl LCDS {
    /// Whether the driver holds the transport.
    pub closed spec fn initialized(&self) -> bool {
        self.initialized
    }

    /// The decision that ends an operation whose operands have the given
    /// status and whose command is `bytes`: validation comes first, then the
    /// transport handle, and only then the write.
    pub open spec fn plan(&self, status: ErrorCode, bytes: Seq<u8>) -> DispatchView {
        if status != ErrorCode::Success {
            DispatchView::Rejected(status)
        } else if !self.initialized() {
            DispatchView::NotInitialized
        } else {
            DispatchView::Write(bytes)
        }
    }

    /// A driver that holds no transport yet.
    pub fn new() -> (lcds: Self)
        ensures
            !lcds.initialized(),
    {
        LCDS { initialized: false }
    }

    /// Records how the attempt to acquire the transport ended. After a
    /// failure the driver holds no transport.
    pub fn begin(&mut self, acquired: bool)
        ensures
            final(self).initialized() == acquired,
    {
        self.initialized = acquired;
    }

    /// Whether the driver holds the transport.
    pub fn is_initialized(&self) -> (b: bool)
        ensures
            b == self.initialized(),
    {
        self.initialized
    }

    /// Hands a finished command to the transport, if there is one: without
    /// a transport handle the answer is `NotInitialized`, never a write.
    pub fn send_bytes(&self, bytes: Vec<u8>) -> (out: Dispatch)
        ensures
            out@ == self.plan(ErrorCode::Success, bytes@),
            !self.initialized() ==> out@ == DispatchView::NotInitialized,
            self.initialized() ==> out@ == DispatchView::Write(bytes@),
    {
        if self.initialized {
            Dispatch::Write(bytes)
        } else {
            Dispatch::NotInitialized
        }
    }

    /// An operation with one checked single-digit operand.
    fn checked_single(&self, domain: Domain, value: u8, opcode: Opcode) -> (out: Dispatch)
        ensures
            out@ == self.plan(domain.status(value), single(value, opcode)),
    {
        let status: ErrorCode = domain.check(value);
        if status.is_success() {
            self.send_bytes(encode_single(value, opcode))
        } else {
            Dispatch::Rejected(status)
        }
    }

    /// Turns the display and the backlight on or off.
    pub fn display_set(&self, set_display: bool, set_bckl: bool) -> (out: Dispatch)
        ensures
            out@ == self.plan(
                ErrorCode::Success,
                single(display_selector(set_display, set_bckl), Opcode::DisplayEnable),
            ),
    {
        let selector: u8 = match (set_display, set_bckl) {
            (false, false) => 0,
            (true, false) => 1,
            (false, true) => 2,
            (true, true) => 3,
        };
        self.send_bytes(encode_single(selector, Opcode::DisplayEnable))
    }

    /// Shows or hides the cursor, and lets a visible cursor blink or not.
    pub fn cursor_mode_set(&self, set_cursor: bool, set_blink: bool) -> (out: Dispatch)
        ensures
            out@ == self.plan(
                ErrorCode::Success,
                single(cursor_selector(set_cursor, set_blink), Opcode::CursorMode),
            ),
    {
        let selector: u8 = match (set_cursor, set_blink) {
            (false, _) => 0,
            (true, false) => 1,
            (true, true) => 2,
        };
        self.send_bytes(encode_single(selector, Opcode::CursorMode))
    }

    /// Clears the display and returns the cursor home.
    pub fn display_clear(&self) -> (out: Dispatch)
        ensures
            out@ == self.plan(ErrorCode::Success, escape(Seq::empty(), Opcode::DisplayClear)),
    {
        let mut bytes: Vec<u8> = Vec::new();
        bytes.push(ESC);
        bytes.push(BRACKET);
        bytes.push(Opcode::DisplayClear.byte());
        assert(bytes@ == escape(Seq::empty(), Opcode::DisplayClear));
        self.send_bytes(bytes)
    }

    /// Writes `str_ln` from the given position on. Text that would run past
    /// the end of the line loses its tail; that is no error.
    pub fn write_string_at_pos(&self, idx_row: u8, idx_col: u8, str_ln: &str) -> (out: Dispatch)
        ensures
            out@ == self.plan(
                position_status(idx_row, idx_col),
                text_at(idx_row, idx_col, str_ln@),
            ),
    {
        let status: ErrorCode = check_position(idx_row, idx_col);
        if !status.is_success() {
            return Dispatch::Rejected(status);
        }
        let room: usize = (LINE_WIDTH - idx_col) as usize;
        let length: usize = str_ln.unicode_len();
        let kept: usize = if length > room {
            room
        } else {
            length
        };
        let shown: &str = str_ln.substring_char(0, kept);
        assert(shown@ == visible_text(idx_col, str_ln@));
        let mut bytes: Vec<u8> = encode_cursor_position(idx_row, idx_col);
        push_bytes(&mut bytes, shown.as_bytes());
        self.send_bytes(bytes)
    }

    /// Scrolls the display by `idx_col` columns, to the right if `direction`
    /// and to the left if not. The wrap width is set first.
    pub fn display_scroll(&self, direction: bool, idx_col: u8) -> (out: Dispatch)
        ensures
            out@ == self.plan(Domain::Column.status(idx_col), scroll(direction, idx_col)),
    {
        let status: ErrorCode = Domain::Column.check(idx_col);
        if status.is_success() {
            self.send_bytes(encode_scroll(direction, idx_col))
        } else {
            Dispatch::Rejected(status)
        }
    }

    /// Saves the cursor position.
    pub fn save_cursor(&self) -> (out: Dispatch)
        ensures
            out@ == self.plan(ErrorCode::Success, single(0, Opcode::CursorSave)),
    {
        self.send_bytes(encode_single(0, Opcode::CursorSave))
    }

    /// Restores the cursor position that was saved last.
    pub fn restore_cursor(&self) -> (out: Dispatch)
        ensures
            out@ == self.plan(ErrorCode::Success, single(0, Opcode::CursorRestore)),
    {
        self.send_bytes(encode_single(0, Opcode::CursorRestore))
    }

    /// Sets the wrap width: 16 characters if `char_number`, 40 if not.
    pub fn display_mode(&self, char_number: bool) -> (out: Dispatch)
        ensures
            out@ == self.plan(
                ErrorCode::Success,
                single(wrap_selector(char_number), Opcode::DisplayMode),
            ),
    {
        let selector: u8 = if char_number {
            0
        } else {
            1
        };
        self.send_bytes(encode_single(selector, Opcode::DisplayMode))
    }

    /// Erases part of the current line: from the cursor to the end (0), from
    /// the start to the cursor (1), or all of it (2).
    pub fn erase_in_line(&self, erase_param: u8) -> (out: Dispatch)
        ensures
            out@ == self.plan(
                Domain::EraseMode.status(erase_param),
                single(erase_param, Opcode::EraseInLine),
            ),
    {
        self.checked_single(Domain::EraseMode, erase_param, Opcode::EraseInLine)
    }

    /// Erases `chars_number` characters from the cursor on. The count is not
    /// checked against a domain; it has to fit into one parameter byte.
    pub fn erase_chars(&self, chars_number: u8) -> (out: Dispatch)
        requires
            chars_number + ZERO <= u8::MAX,
        ensures
            out@ == self.plan(ErrorCode::Success, single(chars_number, Opcode::EraseField)),
    {
        self.send_bytes(encode_single(chars_number, Opcode::EraseField))
    }

    /// Resets the display.
    pub fn reset(&self) -> (out: Dispatch)
        ensures
            out@ == self.plan(ErrorCode::Success, single(0, Opcode::Reset)),
    {
        self.send_bytes(encode_single(0, Opcode::Reset))
    }

    /// Saves the TWI address to EEPROM. The address is not checked against a
    /// domain; it has to fit into one parameter byte.
    pub fn save_twi_addr(&self, addr_eeprom: u8) -> (out: Dispatch)
        requires
            addr_eeprom + ZERO <= u8::MAX,
        ensures
            out@ == self.plan(ErrorCode::Success, single(addr_eeprom, Opcode::SaveTwiAddress)),
    {
        self.send_bytes(encode_single(addr_eeprom, Opcode::SaveTwiAddress))
    }

    /// Saves the baud-rate selector to EEPROM.
    pub fn save_br(&self, baud_rate: u8) -> (out: Dispatch)
        ensures
            out@ == self.plan(
                Domain::BaudRate.status(baud_rate),
                single(baud_rate, Opcode::SaveBaudRate),
            ),
    {
        self.checked_single(Domain::BaudRate, baud_rate, Opcode::SaveBaudRate)
    }

    /// Programs the character table `char_table` into the display.
    pub fn chars_to_lcd(&self, char_table: u8) -> (out: Dispatch)
        ensures
            out@ == self.plan(
                Domain::CharTable.status(char_table),
                single(char_table, Opcode::ProgramCharTable),
            ),
    {
        self.checked_single(Domain::CharTable, char_table, Opcode::ProgramCharTable)
    }

    /// Saves the character table `char_table` from RAM to EEPROM.
    pub fn save_ram_to_eeprom(&self, char_table: u8) -> (out: Dispatch)
        ensures
            out@ == self.plan(
                Domain::CharTable.status(char_table),
                single(char_table, Opcode::SaveRamToEeprom),
            ),
    {
        self.checked_single(Domain::CharTable, char_table, Opcode::SaveRamToEeprom)
    }

    /// Loads the character table `char_table` from EEPROM into RAM.
    pub fn ld_eeprom_to_ram(&self, char_table: u8) -> (out: Dispatch)
        ensures
            out@ == self.plan(
                Domain::CharTable.status(char_table),
                single(char_table, Opcode::LoadEepromToRam),
            ),
    {
        self.checked_single(Domain::CharTable, char_table, Opcode::LoadEepromToRam)
    }

    /// Saves the communication mode to EEPROM.
    pub fn save_comm_to_eeprom(&self, comm_sel: u8) -> (out: Dispatch)
        ensures
            out@ == self.plan(
                Domain::CommMode.status(comm_sel),
                single(comm_sel, Opcode::SaveCommMode),
            ),
    {
        self.checked_single(Domain::CommMode, comm_sel, Opcode::SaveCommMode)
    }

    /// Enables writing to EEPROM.
    pub fn eeprom_wr_en(&self) -> (out: Dispatch)
        ensures
            out@ == self.plan(ErrorCode::Success, single(0, Opcode::EepromWriteEnable)),
    {
        self.send_bytes(encode_single(0, Opcode::EepromWriteEnable))
    }

    /// Saves the cursor mode to EEPROM.
    pub fn save_cursor_to_eeprom(&self, mode_crs: u8) -> (out: Dispatch)
        ensures
            out@ == self.plan(
                Domain::CursorMode.status(mode_crs),
                single(mode_crs, Opcode::SaveCursorMode),
            ),
    {
        self.checked_single(Domain::CursorMode, mode_crs, Opcode::SaveCursorMode)
    }

    /// Saves the display mode to EEPROM.
    pub fn save_display_to_eeprom(&self, mode_disp: u8) -> (out: Dispatch)
        ensures
            out@ == self.plan(
                Domain::DisplayMode.status(mode_disp),
                single(mode_disp, Opcode::SaveDisplayMode),
            ),
    {
        self.checked_single(Domain::DisplayMode, mode_disp, Opcode::SaveDisplayMode)
    }

    /// Defines the custom character in slot `char_pos` from the rows in
    /// `str_user_def`, of which the first eight count, and programs the
    /// character table. Both commands travel in one buffer.
    pub fn define_user_char(&self, str_user_def: &[u8], char_pos: u8) -> (out: Dispatch)
        ensures
            out@ == self.plan(Domain::Slot.status(char_pos), define_char(str_user_def@, char_pos)),
    {
        let status: ErrorCode = Domain::Slot.check(char_pos);
        if !status.is_success() {
            return Dispatch::Rejected(status);
        }
        let mut cmd: Vec<u8> = Vec::new();
        cmd.push(ESC);
        cmd.push(BRACKET);
        self.build_user_def_char(str_user_def, &mut cmd);
        cmd.push(encode_digit(char_pos));
        cmd.push(Opcode::DefineChar.byte());
        cmd.push(ESC);
        cmd.push(BRACKET);
        cmd.push(encode_digit(GLYPH_TABLE));
        cmd.push(Opcode::ProgramCharTable.byte());
        assert(cmd@ == define_char(str_user_def@, char_pos));
        self.send_bytes(cmd)
    }

    /// Moves the cursor to the given position and shows custom characters
    /// there: the first `char_number` slots of `char_pos`, or all of them
    /// where there are fewer. The slots follow the position command as they
    /// are, one byte each.
    pub fn disp_user_char(&self, char_pos: &[u8], char_number: u8, idx_row: u8, idx_col: u8) -> (out:
        Dispatch)
        ensures
            out@ == self.plan(
                position_status(idx_row, idx_col),
                slots_at(idx_row, idx_col, char_pos@, char_number),
            ),
    {
        let status: ErrorCode = check_position(idx_row, idx_col);
        if !status.is_success() {
            return Dispatch::Rejected(status);
        }
        let count: usize = if (char_number as usize) < char_pos.len() {
            char_number as usize
        } else {
            char_pos.len()
        };
        let mut bytes: Vec<u8> = encode_cursor_position(idx_row, idx_col);
        let slots: &[u8] = slice_subrange(char_pos, 0, count);
        assert(slots@ == shown_slots(char_pos@, char_number));
        push_bytes(&mut bytes, slots);
        self.send_bytes(bytes)
    }

    /// Moves the cursor to `idx_row` and `idx_col`.
    ///
    /// A row up to 2 and a column up to 39 give exactly one escape sequence:
    /// the row as one digit, the separator, the column as two digits. Any
    /// other position is rejected, the row before the column, and gives no
    /// bytes at all.
    pub fn set_pos(&self, idx_row: u8, idx_col: u8) -> (out: Dispatch)
        ensures
            out@ == self.plan(
                position_status(idx_row, idx_col),
                cursor_position(idx_row, idx_col),
            ),
            idx_row <= 2 && idx_col <= 39 && self.initialized() ==> out@ == DispatchView::Write(
                seq![
                    ESC,
                    BRACKET,
                    digit(idx_row),
                    SEPARATOR,
                    digit(idx_col / 10),
                    digit(idx_col % 10),
                    Opcode::CursorPosition.spec_byte(),
                ],
            ),
            idx_row > 2 ==> out@ == DispatchView::Rejected(ErrorCode::RowRange),
            idx_row <= 2 && idx_col > 39 ==> out@ == DispatchView::Rejected(
                ErrorCode::ColumnRange,
            ),
            idx_row > 2 || idx_col > 39 ==> out@.wire().len() == 0,
    {
        let status: ErrorCode = check_position(idx_row, idx_col);
        if status.is_success() {
            let bytes: Vec<u8> = encode_cursor_position(idx_row, idx_col);
            assert(bytes@ == seq![
                ESC,
                BRACKET,
                digit(idx_row),
                SEPARATOR,
                digit(idx_col / 10),
                digit(idx_col % 10),
                Opcode::CursorPosition.spec_byte(),
            ]);
            self.send_bytes(bytes)
        } else {
            Dispatch::Rejected(status)
        }
    }

    /// Appends the payload of a custom character to `cmd_str`: for each of
    /// the first eight rows in `str_user_def` the text `0x`, the row as two
    /// upper-case hexadecimal digits, and a separator.
    pub fn build_user_def_char(&self, str_user_def: &[u8], cmd_str: &mut Vec<u8>)
        ensures
            final(cmd_str)@ == old(cmd_str)@ + hex_payload(glyph_rows(str_user_def@)),
    {
        let count: usize = if str_user_def.len() > GLYPH_ROWS {
            GLYPH_ROWS
        } else {
            str_user_def.len()
        };
        let mut i: usize = 0;
        while i < count
            invariant
                i <= count <= str_user_def@.len(),
                cmd_str@ == old(cmd_str)@ + hex_payload(str_user_def@.take(i as int)),
            decreases count - i,
        {
            push_hex_token(cmd_str, str_user_def[i]);
            i += 1;
            assert(str_user_def@.take(i as int).drop_last() == str_user_def@.take(i - 1));
        }
        assert(str_user_def@.take(count as int) == glyph_rows(str_user_def@));
    }
}

} // verus!
