//! What holds of the driver as a whole, proved from the contracts of its
//! operations.

use vstd::prelude::*;
use crate::dispatch::Dispatch;
use crate::dispatch::DispatchView;
use crate::driver::LCDS;
use crate::error::ErrorCode;

verus! {

/// Whatever the state of the driver, operands outside their domains send
/// nothing: the decision is the rejection, it carries the violated domain's
/// error, and no byte goes to the transport.
pub proof fn invalid_operands_send_nothing(lcds: LCDS, status: ErrorCode, bytes: Seq<u8>)
    requires
        status != ErrorCode::Success,
    ensures
        lcds.plan(status, bytes) == DispatchView::Rejected(status),
        lcds.plan(status, bytes).wire().len() == 0,
        forall|written: bool| !(#[trigger] lcds.plan(status, bytes).report(written)).succeeded(),
{
}

/// With valid operands and a transport, the decision is to write exactly the
/// encoded command, and the operation succeeds if and only if the transport
/// completes that write.
pub proof fn valid_operands_send_the_command(lcds: LCDS, bytes: Seq<u8>, written: bool)
    requires
        lcds.initialized(),
    ensures
        lcds.plan(ErrorCode::Success, bytes) == DispatchView::Write(bytes),
        lcds.plan(ErrorCode::Success, bytes).wire() == bytes,
        lcds.plan(ErrorCode::Success, bytes).report(written).succeeded() <==> written,
{
}

/// A driver that holds no transport never asks for a write and never reports
/// success, whatever the operation, its operands, and whatever the caller
/// says of the transport.
pub proof fn uninitialized_never_succeeds(
    lcds: LCDS,
    status: ErrorCode,
    bytes: Seq<u8>,
    written: bool,
)
    requires
        !lcds.initialized(),
    ensures
        !(lcds.plan(status, bytes) is Write),
        lcds.plan(status, bytes).wire().len() == 0,
        !lcds.plan(status, bytes).report(written).succeeded(),
        status == ErrorCode::Success ==> lcds.plan(status, bytes) == DispatchView::NotInitialized,
{
}

/// The same, of the dispatcher itself: every answer that its contract admits
/// on a driver without a transport is `NotInitialized`.
pub proof fn uninitialized_dispatch_fails(lcds: LCDS, bytes: Vec<u8>, out: Dispatch, written: bool)
    requires
        !lcds.initialized(),
        call_ensures(LCDS::send_bytes, (&lcds, bytes), out),
    ensures
        out@ == DispatchView::NotInitialized,
        !out@.report(written).succeeded(),
{
}

/// Every decision that ends an operation is well formed.
pub proof fn plan_is_well_formed(lcds: LCDS, status: ErrorCode, bytes: Seq<u8>)
    ensures
        lcds.plan(status, bytes).well_formed(),
{
}

/// Encoding is a function of the operands. For every operation, two results
/// that its contract admits for the same operands, on drivers that agree on
/// whether they hold the transport, are the same decision with the same
/// bytes.
pub proof fn same_operands_same_bytes(a: LCDS, b: LCDS)
    requires
        a.initialized() == b.initialized(),
    ensures
        forall|bytes: Vec<u8>, other: Vec<u8>, first: Dispatch, second: Dispatch|
            #![trigger call_ensures(LCDS::send_bytes, (&a, bytes), first), call_ensures(LCDS::send_bytes, (&b, other), second)]
            bytes@ == other@ && call_ensures(LCDS::send_bytes, (&a, bytes), first) && call_ensures(
                LCDS::send_bytes,
                (&b, other),
                second,
            ) ==> first@ == second@,
        forall|display: bool, backlight: bool, first: Dispatch, second: Dispatch|
            #![trigger call_ensures(LCDS::display_set, (&a, display, backlight), first), call_ensures(LCDS::display_set, (&b, display, backlight), second)]
            call_ensures(LCDS::display_set, (&a, display, backlight), first) && call_ensures(
                LCDS::display_set,
                (&b, display, backlight),
                second,
            ) ==> first@ == second@,
        forall|cursor: bool, blink: bool, first: Dispatch, second: Dispatch|
            #![trigger call_ensures(LCDS::cursor_mode_set, (&a, cursor, blink), first), call_ensures(LCDS::cursor_mode_set, (&b, cursor, blink), second)]
            call_ensures(LCDS::cursor_mode_set, (&a, cursor, blink), first) && call_ensures(
                LCDS::cursor_mode_set,
                (&b, cursor, blink),
                second,
            ) ==> first@ == second@,
        forall|first: Dispatch, second: Dispatch|
            #![trigger call_ensures(LCDS::display_clear, (&a,), first), call_ensures(LCDS::display_clear, (&b,), second)]
            call_ensures(LCDS::display_clear, (&a,), first) && call_ensures(
                LCDS::display_clear,
                (&b,),
                second,
            ) ==> first@ == second@,
        forall|row: u8, col: u8, text: &str, other: &str, first: Dispatch, second: Dispatch|
            #![trigger call_ensures(LCDS::write_string_at_pos, (&a, row, col, text), first), call_ensures(LCDS::write_string_at_pos, (&b, row, col, other), second)]
            text@ == other@ && call_ensures(LCDS::write_string_at_pos, (&a, row, col, text), first)
                && call_ensures(LCDS::write_string_at_pos, (&b, row, col, other), second)
                ==> first@ == second@,
        forall|direction: bool, col: u8, first: Dispatch, second: Dispatch|
            #![trigger call_ensures(LCDS::display_scroll, (&a, direction, col), first), call_ensures(LCDS::display_scroll, (&b, direction, col), second)]
            call_ensures(LCDS::display_scroll, (&a, direction, col), first) && call_ensures(
                LCDS::display_scroll,
                (&b, direction, col),
                second,
            ) ==> first@ == second@,
        forall|first: Dispatch, second: Dispatch|
            #![trigger call_ensures(LCDS::save_cursor, (&a,), first), call_ensures(LCDS::save_cursor, (&b,), second)]
            call_ensures(LCDS::save_cursor, (&a,), first) && call_ensures(
                LCDS::save_cursor,
                (&b,),
                second,
            ) ==> first@ == second@,
        forall|first: Dispatch, second: Dispatch|
            #![trigger call_ensures(LCDS::restore_cursor, (&a,), first), call_ensures(LCDS::restore_cursor, (&b,), second)]
            call_ensures(LCDS::restore_cursor, (&a,), first) && call_ensures(
                LCDS::restore_cursor,
                (&b,),
                second,
            ) ==> first@ == second@,
        forall|sixteen: bool, first: Dispatch, second: Dispatch|
            #![trigger call_ensures(LCDS::display_mode, (&a, sixteen), first), call_ensures(LCDS::display_mode, (&b, sixteen), second)]
            call_ensures(LCDS::display_mode, (&a, sixteen), first) && call_ensures(
                LCDS::display_mode,
                (&b, sixteen),
                second,
            ) ==> first@ == second@,
        forall|value: u8, first: Dispatch, second: Dispatch|
            #![trigger call_ensures(LCDS::erase_in_line, (&a, value), first), call_ensures(LCDS::erase_in_line, (&b, value), second)]
            call_ensures(LCDS::erase_in_line, (&a, value), first) && call_ensures(
                LCDS::erase_in_line,
                (&b, value),
                second,
            ) ==> first@ == second@,
        forall|value: u8, first: Dispatch, second: Dispatch|
            #![trigger call_ensures(LCDS::erase_chars, (&a, value), first), call_ensures(LCDS::erase_chars, (&b, value), second)]
            call_ensures(LCDS::erase_chars, (&a, value), first) && call_ensures(
                LCDS::erase_chars,
                (&b, value),
                second,
            ) ==> first@ == second@,
        forall|first: Dispatch, second: Dispatch|
            #![trigger call_ensures(LCDS::reset, (&a,), first), call_ensures(LCDS::reset, (&b,), second)]
            call_ensures(LCDS::reset, (&a,), first) && call_ensures(LCDS::reset, (&b,), second)
                ==> first@ == second@,
        forall|value: u8, first: Dispatch, second: Dispatch|
            #![trigger call_ensures(LCDS::save_twi_addr, (&a, value), first), call_ensures(LCDS::save_twi_addr, (&b, value), second)]
            call_ensures(LCDS::save_twi_addr, (&a, value), first) && call_ensures(
                LCDS::save_twi_addr,
                (&b, value),
                second,
            ) ==> first@ == second@,
        forall|value: u8, first: Dispatch, second: Dispatch|
            #![trigger call_ensures(LCDS::save_br, (&a, value), first), call_ensures(LCDS::save_br, (&b, value), second)]
            call_ensures(LCDS::save_br, (&a, value), first) && call_ensures(
                LCDS::save_br,
                (&b, value),
                second,
            ) ==> first@ == second@,
        forall|value: u8, first: Dispatch, second: Dispatch|
            #![trigger call_ensures(LCDS::chars_to_lcd, (&a, value), first), call_ensures(LCDS::chars_to_lcd, (&b, value), second)]
            call_ensures(LCDS::chars_to_lcd, (&a, value), first) && call_ensures(
                LCDS::chars_to_lcd,
                (&b, value),
                second,
            ) ==> first@ == second@,
        forall|value: u8, first: Dispatch, second: Dispatch|
            #![trigger call_ensures(LCDS::save_ram_to_eeprom, (&a, value), first), call_ensures(LCDS::save_ram_to_eeprom, (&b, value), second)]
            call_ensures(LCDS::save_ram_to_eeprom, (&a, value), first) && call_ensures(
                LCDS::save_ram_to_eeprom,
                (&b, value),
                second,
            ) ==> first@ == second@,
        forall|value: u8, first: Dispatch, second: Dispatch|
            #![trigger call_ensures(LCDS::ld_eeprom_to_ram, (&a, value), first), call_ensures(LCDS::ld_eeprom_to_ram, (&b, value), second)]
            call_ensures(LCDS::ld_eeprom_to_ram, (&a, value), first) && call_ensures(
                LCDS::ld_eeprom_to_ram,
                (&b, value),
                second,
            ) ==> first@ == second@,
        forall|value: u8, first: Dispatch, second: Dispatch|
            #![trigger call_ensures(LCDS::save_comm_to_eeprom, (&a, value), first), call_ensures(LCDS::save_comm_to_eeprom, (&b, value), second)]
            call_ensures(LCDS::save_comm_to_eeprom, (&a, value), first) && call_ensures(
                LCDS::save_comm_to_eeprom,
                (&b, value),
                second,
            ) ==> first@ == second@,
        forall|first: Dispatch, second: Dispatch|
            #![trigger call_ensures(LCDS::eeprom_wr_en, (&a,), first), call_ensures(LCDS::eeprom_wr_en, (&b,), second)]
            call_ensures(LCDS::eeprom_wr_en, (&a,), first) && call_ensures(
                LCDS::eeprom_wr_en,
                (&b,),
                second,
            ) ==> first@ == second@,
        forall|value: u8, first: Dispatch, second: Dispatch|
            #![trigger call_ensures(LCDS::save_cursor_to_eeprom, (&a, value), first), call_ensures(LCDS::save_cursor_to_eeprom, (&b, value), second)]
            call_ensures(LCDS::save_cursor_to_eeprom, (&a, value), first) && call_ensures(
                LCDS::save_cursor_to_eeprom,
                (&b, value),
                second,
            ) ==> first@ == second@,
        forall|value: u8, first: Dispatch, second: Dispatch|
            #![trigger call_ensures(LCDS::save_display_to_eeprom, (&a, value), first), call_ensures(LCDS::save_display_to_eeprom, (&b, value), second)]
            call_ensures(LCDS::save_display_to_eeprom, (&a, value), first) && call_ensures(
                LCDS::save_display_to_eeprom,
                (&b, value),
                second,
            ) ==> first@ == second@,
        forall|rows: &[u8], other: &[u8], slot: u8, first: Dispatch, second: Dispatch|
            #![trigger call_ensures(LCDS::define_user_char, (&a, rows, slot), first), call_ensures(LCDS::define_user_char, (&b, other, slot), second)]
            rows@ == other@ && call_ensures(LCDS::define_user_char, (&a, rows, slot), first)
                && call_ensures(LCDS::define_user_char, (&b, other, slot), second) ==> first@
                == second@,
        forall|
            slots: &[u8],
            other: &[u8],
            count: u8,
            row: u8,
            col: u8,
            first: Dispatch,
            second: Dispatch,
        |
            #![trigger call_ensures(LCDS::disp_user_char, (&a, slots, count, row, col), first), call_ensures(LCDS::disp_user_char, (&b, other, count, row, col), second)]
            slots@ == other@ && call_ensures(
                LCDS::disp_user_char,
                (&a, slots, count, row, col),
                first,
            ) && call_ensures(LCDS::disp_user_char, (&b, other, count, row, col), second) ==> first@
                == second@,
        forall|row: u8, col: u8, first: Dispatch, second: Dispatch|
            #![trigger call_ensures(LCDS::set_pos, (&a, row, col), first), call_ensures(LCDS::set_pos, (&b, row, col), second)]
            call_ensures(LCDS::set_pos, (&a, row, col), first) && call_ensures(
                LCDS::set_pos,
                (&b, row, col),
                second,
            ) ==> first@ == second@,
{
}

/// The payload of a custom character does not depend on the driver, nor on
/// anything but the rows and what the buffer held before: two results that
/// the contract admits for the same rows and equal buffers are equal.
pub proof fn same_rows_same_payload(a: LCDS, b: LCDS, rows: &[u8])
    ensures
        forall|first: &mut Vec<u8>, second: &mut Vec<u8>|
            #![trigger call_ensures(LCDS::build_user_def_char, (&a, rows, first), ()), call_ensures(LCDS::build_user_def_char, (&b, rows, second), ())]
            first@ == second@ && call_ensures(LCDS::build_user_def_char, (&a, rows, first), ())
                && call_ensures(LCDS::build_user_def_char, (&b, rows, second), ())
                ==> final(first)@ == final(second)@,
{
}

} // verus!
