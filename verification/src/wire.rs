//! The wire format: what the bytes of each command look like.
//!
//! A command is an escape sequence: the two preamble bytes, the parameter
//! bytes, and one opcode byte. Numeric parameters travel as ASCII digits.
//! The rows of a custom character travel as hexadecimal text.

use vstd::prelude::*;
use vstd::utf8::encode_utf8;
use vstd::utf8::is_ascii_chars;
use vstd::utf8::is_ascii_chars_encode_utf8;
use crate::opcode::Opcode;

verus! {

/// First byte of the preamble.
pub const ESC: u8 = 0x1B;

/// Second byte of the preamble, `[`.
pub const BRACKET: u8 = 0x5B;

/// The byte between the row and the column of a cursor position, and the
/// byte that ends each token of a custom-character payload: `;`.
pub const SEPARATOR: u8 = 0x3B;

/// The ASCII digit zero.
pub const ZERO: u8 = 0x30;

/// The ASCII letter `A`, the hexadecimal digit ten.
pub const LETTER_A: u8 = 0x41;

/// The ASCII letter `x` of the `0x` prefix.
pub const LETTER_X: u8 = 0x78;

/// The number of characters that one line of the display holds.
pub const LINE_WIDTH: u8 = 40;

/// The number of rows that make up one custom character.
pub const GLYPH_ROWS: usize = 8;

/// The character table that a newly defined character is programmed into.
pub const GLYPH_TABLE: u8 = 3;

/// The byte that stands for the single-digit parameter `value`.
pub open spec fn digit(value: u8) -> u8
    recommends
        value + ZERO <= u8::MAX,
{
    (value + ZERO) as u8
}

/// The tens digit and the ones digit of `value`, each as its ASCII digit.
pub open spec fn two_digits(value: u8) -> Seq<u8>
    recommends
        value <= 99,
{
    seq![digit(value / 10), digit(value % 10)]
}

/// An escape sequence: preamble, parameter bytes, opcode.
pub open spec fn escape(params: Seq<u8>, opcode: Opcode) -> Seq<u8> {
    seq![ESC, BRACKET] + params + seq![opcode.spec_byte()]
}

/// The escape sequence with the one single-digit parameter `param`.
pub open spec fn single(param: u8, opcode: Opcode) -> Seq<u8> {
    escape(seq![digit(param)], opcode)
}

/// The parameter of the display-enable command: 1 for the display, plus 2
/// for the backlight.
pub open spec fn display_selector(display: bool, backlight: bool) -> u8 {
    match (display, backlight) {
        (false, false) => 0,
        (true, false) => 1,
        (false, true) => 2,
        (true, true) => 3,
    }
}

/// The parameter of the cursor-mode command: 0 for a hidden cursor, 1 for a
/// steady one, 2 for a blinking one. A hidden cursor does not blink.
pub open spec fn cursor_selector(cursor: bool, blink: bool) -> u8 {
    if !cursor {
        0
    } else if !blink {
        1
    } else {
        2
    }
}

/// The parameter of the display-mode command: 0 to wrap at 16 characters, 1
/// to wrap at 40.
pub open spec fn wrap_selector(sixteen: bool) -> u8 {
    if sixteen {
        0
    } else {
        1
    }
}

/// The command that moves the cursor to `row` and `col`.
pub open spec fn cursor_position(row: u8, col: u8) -> Seq<u8> {
    escape(seq![digit(row), SEPARATOR] + two_digits(col), Opcode::CursorPosition)
}

/// The companion command that sets the wrap width to 16 characters, followed
/// by the command that scrolls by `col` columns, to the right if `right`.
pub open spec fn scroll(right: bool, col: u8) -> Seq<u8> {
    single(0, Opcode::DisplayMode) + escape(
        two_digits(col),
        if right {
            Opcode::ScrollRight
        } else {
            Opcode::ScrollLeft
        },
    )
}

/// The part of `text` that fits on a line when it starts at column `col`:
/// all of it, or as many leading characters as there are columns left.
pub open spec fn visible_text(col: u8, text: Seq<char>) -> Seq<char> {
    if col + text.len() > LINE_WIDTH {
        text.take(LINE_WIDTH - col)
    } else {
        text
    }
}

/// The slots of custom characters that are shown: the first `count` of
/// `slots`, or all of them where there are fewer.
pub open spec fn shown_slots(slots: Seq<u8>, count: u8) -> Seq<u8> {
    if count < slots.len() {
        slots.take(count as int)
    } else {
        slots
    }
}

/// The rows that define a custom character: the first eight of `rows`, or all
/// of them where there are fewer.
pub open spec fn glyph_rows(rows: Seq<u8>) -> Seq<u8> {
    if rows.len() > GLYPH_ROWS {
        rows.take(GLYPH_ROWS as int)
    } else {
        rows
    }
}

/// The upper-case hexadecimal digit of `nibble`.
pub open spec fn hex_digit(nibble: u8) -> u8
    recommends
        nibble <= 15,
{
    if nibble < 10 {
        (ZERO + nibble) as u8
    } else {
        (LETTER_A + (nibble - 10)) as u8
    }
}

/// The five bytes that stand for one row of a custom character: `0x`, two
/// upper-case hexadecimal digits, and the separator.
pub open spec fn hex_token(value: u8) -> Seq<u8> {
    seq![ZERO, LETTER_X, hex_digit(value / 16), hex_digit(value % 16), SEPARATOR]
}

/// The tokens of `rows`, one after the other in row order.
pub open spec fn hex_payload(rows: Seq<u8>) -> Seq<u8>
    decreases rows.len(),
{
    if rows.len() == 0 {
        Seq::empty()
    } else {
        hex_payload(rows.drop_last()) + hex_token(rows.last())
    }
}

/// The command that defines the custom character in `slot` from `rows`,
/// followed by the command that programs the character table.
pub open spec fn define_char(rows: Seq<u8>, slot: u8) -> Seq<u8> {
    escape(hex_payload(glyph_rows(rows)) + seq![digit(slot)], Opcode::DefineChar) + single(
        GLYPH_TABLE,
        Opcode::ProgramCharTable,
    )
}

/// The bytes that write `text` from `row` and `col` on: the cursor position,
/// then the part of the text that fits on the line, in UTF-8.
pub open spec fn text_at(row: u8, col: u8, text: Seq<char>) -> Seq<u8> {
    cursor_position(row, col) + encode_utf8(visible_text(col, text))
}

/// The bytes that show custom characters from `row` and `col` on: the cursor
/// position, then the slots that are shown, one byte each.
pub open spec fn slots_at(row: u8, col: u8, slots: Seq<u8>, count: u8) -> Seq<u8> {
    cursor_position(row, col) + shown_slots(slots, count)
}

/// A value up to nine travels as the ASCII digit that names it.
pub proof fn digit_is_ascii(value: u8)
    requires
        value <= 9,
    ensures
        ZERO <= digit(value) <= ZERO + 9,
        digit(value) - ZERO == value,
{
}

/// A value below one hundred travels as the two digits of its decimal
/// expansion, the tens first.
pub proof fn two_digits_is_decimal(value: u8)
    requires
        value <= 99,
    ensures
        two_digits(value).len() == 2,
        ZERO <= two_digits(value)[0] <= ZERO + 9,
        ZERO <= two_digits(value)[1] <= ZERO + 9,
        10 * (two_digits(value)[0] - ZERO) + (two_digits(value)[1] - ZERO) == value,
{
}

/// An escape sequence is the preamble, the parameters as they are, and the
/// opcode as its last byte.
pub proof fn escape_layout(params: Seq<u8>, opcode: Opcode)
    ensures
        escape(params, opcode).len() == params.len() + 3,
        escape(params, opcode)[0] == ESC,
        escape(params, opcode)[1] == BRACKET,
        escape(params, opcode).subrange(2, 2 + params.len() as int) == params,
        escape(params, opcode).last() == opcode.spec_byte(),
{
}

/// The cursor-position command is one escape sequence of seven bytes: the
/// row as one digit, the separator, the column as two digits.
pub proof fn cursor_position_layout(row: u8, col: u8)
    ensures
        cursor_position(row, col) == seq![
            ESC,
            BRACKET,
            digit(row),
            SEPARATOR,
            digit(col / 10),
            digit(col % 10),
            Opcode::CursorPosition.spec_byte(),
        ],
{
}

/// The commands that define a custom character: the preamble, the payload,
/// the slot and the define opcode, then a second escape sequence that
/// programs the character table.
pub proof fn define_char_layout(rows: Seq<u8>, slot: u8)
    ensures
        define_char(rows, slot) == seq![ESC, BRACKET] + hex_payload(glyph_rows(rows)) + seq![
            digit(slot),
            Opcode::DefineChar.spec_byte(),
            ESC,
            BRACKET,
            digit(GLYPH_TABLE),
            Opcode::ProgramCharTable.spec_byte(),
        ],
        define_char(rows, slot).len() == 5 * glyph_rows(rows).len() + 8,
        glyph_rows(rows).len() <= GLYPH_ROWS,
        glyph_rows(rows).is_prefix_of(rows),
{
    hex_payload_tokens(glyph_rows(rows));
}

/// A payload holds five bytes for each row, and the bytes from `5 * i` on are
/// the token of row `i`.
pub proof fn hex_payload_tokens(rows: Seq<u8>)
    ensures
        hex_payload(rows).len() == 5 * rows.len(),
        forall|i: int|
            0 <= i < rows.len() ==> #[trigger] hex_payload(rows).subrange(5 * i, 5 * i + 5)
                == hex_token(rows[i]),
    decreases rows.len(),
{
    if rows.len() > 0 {
        let front = rows.drop_last();
        hex_payload_tokens(front);
        assert forall|i: int| 0 <= i < rows.len() implies #[trigger] hex_payload(rows).subrange(
            5 * i,
            5 * i + 5,
        ) == hex_token(rows[i]) by {
            if i < front.len() {
                assert(hex_payload(rows).subrange(5 * i, 5 * i + 5) == hex_payload(
                    front,
                ).subrange(5 * i, 5 * i + 5));
                assert(front[i] == rows[i]);
            } else {
                assert(hex_payload(rows).subrange(5 * i, 5 * i + 5) == hex_token(rows.last()));
            }
        }
    }
}

/// The number that the hexadecimal digit `d` stands for.
pub open spec fn hex_value(d: u8) -> int
    recommends
        ZERO <= d <= ZERO + 9 || LETTER_A <= d <= LETTER_A + 5,
{
    if d >= LETTER_A {
        d - LETTER_A + 10
    } else {
        d - ZERO
    }
}

/// A token is the text `0x`, two digits out of `0` to `9` and `A` to `F`
/// that read as the row in base sixteen, and the separator.
pub proof fn hex_token_names_its_row(value: u8)
    ensures
        hex_token(value).len() == 5,
        hex_token(value)[0] == ZERO,
        hex_token(value)[1] == LETTER_X,
        ZERO <= hex_token(value)[2] <= ZERO + 9 || LETTER_A <= hex_token(value)[2] <= LETTER_A + 5,
        ZERO <= hex_token(value)[3] <= ZERO + 9 || LETTER_A <= hex_token(value)[3] <= LETTER_A + 5,
        16 * hex_value(hex_token(value)[2]) + hex_value(hex_token(value)[3]) == value,
        hex_token(value)[4] == SEPARATOR,
{
}

/// Text that starts inside the line never runs past its end.
pub proof fn visible_text_fits(col: u8, text: Seq<char>)
    requires
        col <= LINE_WIDTH,
    ensures
        col + visible_text(col, text).len() <= LINE_WIDTH,
        visible_text(col, text).is_prefix_of(text),
        col + text.len() <= LINE_WIDTH ==> visible_text(col, text) == text,
{
}

/// ASCII text travels one byte for each character, the character's own code,
/// and together with the column it starts at never passes the line width.
pub proof fn ascii_text_is_sent_as_it_is(col: u8, text: Seq<char>)
    requires
        col <= LINE_WIDTH,
        is_ascii_chars(text),
    ensures
        encode_utf8(visible_text(col, text)).len() == visible_text(col, text).len(),
        col + encode_utf8(visible_text(col, text)).len() <= LINE_WIDTH,
        forall|i: int|
            0 <= i < visible_text(col, text).len() ==> #[trigger] encode_utf8(
                visible_text(col, text),
            )[i] == text[i] as u8,
{
    is_ascii_chars_encode_utf8(visible_text(col, text));
}

/// Encodes the single-digit parameter `value` as its ASCII digit.
pub fn encode_digit(value: u8) -> (d: u8)
    requires
        value + ZERO <= u8::MAX,
    ensures
        d == digit(value),
{
    value + ZERO
}

/// Encodes `nibble` as its upper-case hexadecimal digit.
pub fn encode_hex_digit(nibble: u8) -> (d: u8)
    requires
        nibble <= 15,
    ensures
        d == hex_digit(nibble),
{
    if nibble < 10 {
        ZERO + nibble
    } else {
        LETTER_A + (nibble - 10)
    }
}

/// Appends the bytes of `tail` to `buffer`.
pub fn push_bytes(buffer: &mut Vec<u8>, tail: &[u8])
    ensures
        final(buffer)@ == old(buffer)@ + tail@,
{
    let mut i: usize = 0;
    while i < tail.len()
        invariant
            i <= tail@.len(),
            buffer@ == old(buffer)@ + tail@.take(i as int),
        decreases tail@.len() - i,
    {
        buffer.push(tail[i]);
        i += 1;
        assert(tail@.take(i as int) == tail@.take(i - 1).push(tail@[i - 1]));
    }
    assert(tail@.take(i as int) == tail@);
}

/// Appends the tens digit and the ones digit of `value` to `buffer`.
pub fn push_two_digits(buffer: &mut Vec<u8>, value: u8)
    requires
        value <= 99,
    ensures
        final(buffer)@ == old(buffer)@ + two_digits(value),
{
    buffer.push(encode_digit(value / 10));
    buffer.push(encode_digit(value % 10));
}

/// Builds the escape sequence with the one single-digit parameter `param`.
pub fn encode_single(param: u8, opcode: Opcode) -> (out: Vec<u8>)
    requires
        param + ZERO <= u8::MAX,
    ensures
        out@ == single(param, opcode),
{
    let mut out: Vec<u8> = Vec::new();
    out.push(ESC);
    out.push(BRACKET);
    out.push(encode_digit(param));
    out.push(opcode.byte());
    out
}

/// Builds the command that moves the cursor to `row` and `col`.
pub fn encode_cursor_position(row: u8, col: u8) -> (out: Vec<u8>)
    requires
        row <= 9,
        col <= 99,
    ensures
        out@ == cursor_position(row, col),
{
    let mut out: Vec<u8> = Vec::new();
    out.push(ESC);
    out.push(BRACKET);
    out.push(encode_digit(row));
    out.push(SEPARATOR);
    push_two_digits(&mut out, col);
    out.push(Opcode::CursorPosition.byte());
    out
}

/// Builds the wrap-width command and the scroll command that follows it.
pub fn encode_scroll(right: bool, col: u8) -> (out: Vec<u8>)
    requires
        col <= 99,
    ensures
        out@ == scroll(right, col),
{
    let mut out: Vec<u8> = encode_single(0, Opcode::DisplayMode);
    out.push(ESC);
    out.push(BRACKET);
    push_two_digits(&mut out, col);
    if right {
        out.push(Opcode::ScrollRight.byte());
    } else {
        out.push(Opcode::ScrollLeft.byte());
    }
    out
}

/// Appends the token of one row of a custom character to `buffer`.
pub fn push_hex_token(buffer: &mut Vec<u8>, value: u8)
    ensures
        final(buffer)@ == old(buffer)@ + hex_token(value),
{
    buffer.push(ZERO);
    buffer.push(LETTER_X);
    buffer.push(encode_hex_digit(value / 16));
    buffer.push(encode_hex_digit(value % 16));
    buffer.push(SEPARATOR);
}

} // verus!
