//! The text of error reports handed to the trace hook.

use vstd::prelude::*;

use crate::iunknown::NTSTATUS;
use crate::unicode::string_push;
use vstd::string::StringExecFns;

verus! {

/// The lowercase hexadecimal digit for `d < 16`.
pub open spec fn hex_char(d: nat) -> char {
    if d < 10 {
        ((48 + d) as u32) as char
    } else {
        ((87 + d) as u32) as char
    }
}

/// The hexadecimal digits of `v`, without leading zeros.
pub open spec fn hex_digits(v: nat) -> Seq<char>
    decreases v,
{
    if v < 16 {
        seq![hex_char(v)]
    } else {
        hex_digits(v / 16).push(hex_char(v % 16))
    }
}

/// The decimal digits of `v`, without leading zeros.
pub open spec fn dec_digits(v: nat) -> Seq<char>
    decreases v,
{
    if v < 10 {
        seq![hex_char(v)]
    } else {
        dec_digits(v / 10).push(hex_char(v % 10))
    }
}

/// The bits of a status code read as unsigned, as `{:#x}` prints them.
pub open spec fn status_bits(status: NTSTATUS) -> nat {
    if status >= 0 {
        status as nat
    } else {
        (status + 0x1_0000_0000) as nat
    }
}

fn digit_char(d: u32) -> (c: char)
    requires
        d < 16,
    ensures
        c == hex_char(d as nat),
{
    let c = match d {
        0 => '0',
        1 => '1',
        2 => '2',
        3 => '3',
        4 => '4',
        5 => '5',
        6 => '6',
        7 => '7',
        8 => '8',
        9 => '9',
        10 => 'a',
        11 => 'b',
        12 => 'c',
        13 => 'd',
        14 => 'e',
        _ => 'f',
    };
    c
}

fn push_hex(out: &mut String, v: u32)
    ensures
        final(out)@ == old(out)@ + hex_digits(v as nat),
    decreases v,
{
    if v >= 16 {
        push_hex(out, v / 16);
    }
    string_push(out, digit_char(v % 16));
    proof {
        if v >= 16 {
            assert(old(out)@ + hex_digits(v as nat) =~= old(out)@ + hex_digits((v / 16) as nat)
                + seq![hex_char((v % 16) as nat)]);
        } else {
            assert(old(out)@ + hex_digits(v as nat) =~= old(out)@.push(hex_char((v % 16) as nat)));
        }
    }
}

fn push_dec(out: &mut String, v: u32)
    ensures
        final(out)@ == old(out)@ + dec_digits(v as nat),
    decreases v,
{
    if v >= 10 {
        push_dec(out, v / 10);
    }
    string_push(out, digit_char(v % 10));
    proof {
        if v >= 10 {
            assert(old(out)@ + dec_digits(v as nat) =~= old(out)@ + dec_digits((v / 10) as nat)
                + seq![hex_char((v % 10) as nat)]);
        } else {
            assert(old(out)@ + dec_digits(v as nat) =~= old(out)@.push(hex_char((v % 10) as nat)));
        }
    }
}

/// The reported text: `kcom error 0x<status> at <file>:<line>`.
pub open spec fn spec_error_report(file: Seq<char>, line: u32, status: NTSTATUS) -> Seq<char> {
    "kcom error 0x"@ + hex_digits(status_bits(status)) + " at "@ + file + ":"@ + dec_digits(
        line as nat,
    )
}

/// The text of an error report: the status in hexadecimal with its
/// two's-complement bits, then where it was raised.
pub fn report_error(file: &str, line: u32, status: NTSTATUS) -> (r: String)
    ensures
        r@ == spec_error_report(file@, line, status),
{
    let mut out = String::new();
    out.append("kcom error 0x");
    let bits: u32 = if status >= 0 {
        status as u32
    } else {
        (status as i64 + 0x1_0000_0000i64) as u32
    };
    push_hex(&mut out, bits);
    out.append(" at ");
    out.append(file);
    out.append(":");
    push_dec(&mut out, line);
    assert(out@ =~= spec_error_report(file@, line, status));
    out
}

/// The text of an error report with a message: the report, ` - `, and the
/// message.
pub fn report_error_msg(file: &str, line: u32, status: NTSTATUS, msg: &str) -> (r: String)
    ensures
        r@ == spec_error_report(file@, line, status) + " - "@ + msg@,
{
    let mut out = report_error(file, line, status);
    out.append(" - ");
    out.append(msg);
    out
}

/// A checked condition with a reported failure: `Ok(())` when `cond` holds;
/// otherwise the status to return and the one report to send to the trace
/// hook, the text of `report_error_msg` for where the check stands.
pub fn ensure_report(cond: bool, status: NTSTATUS, file: &str, line: u32, msg: &str) -> (r: Result<
    (),
    (NTSTATUS, String),
>)
    ensures
        cond ==> r == Ok::<(), (NTSTATUS, String)>(()),
        !cond ==> r is Err && r->Err_0.0 == status && r->Err_0.1@ == spec_error_report(
            file@,
            line,
            status,
        ) + " - "@ + msg@,
{
    if cond {
        Ok(())
    } else {
        Err((status, report_error_msg(file, line, status, msg)))
    }
}

} // verus!
