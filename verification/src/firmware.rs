//! The firmware version text of a camera, built from the two bytes that
//! `GetQHYCCDFWVersion` writes.

use vstd::prelude::*;

use crate::error::QHYError;
use crate::status::{check_status, SdkCall, QHYCCD_SUCCESS};

verus! {

/// The character of the decimal digit `d` (`0 <= d < 10`).
pub open spec fn digit_char(d: nat) -> char {
    (48 + d) as char
}

/// The decimal representation of `n`, without leading zeros.
pub open spec fn decimal(n: nat) -> Seq<char>
    decreases n,
{
    if n < 10 {
        seq![digit_char(n)]
    } else {
        decimal(n / 10).push(digit_char(n % 10))
    }
}

/// The year of a firmware version: the high nibble of the first byte counts
/// years after 2000, where nibbles up to 9 stand for the years from 2016 on.
pub open spec fn firmware_year(first: u8) -> nat {
    let high = (first / 16) as nat;
    if high <= 9 {
        high + 16
    } else {
        high
    }
}

/// The month of a firmware version: the low nibble of the first byte.
pub open spec fn firmware_month(first: u8) -> nat {
    (first % 16) as nat
}

/// The text of the firmware version given by the bytes `first` and `second`,
/// `"Firmware version: 20<year>_<month>_<day>"` where the day is `second`.
pub open spec fn firmware_version_text(first: u8, second: u8) -> Seq<char> {
    "Firmware version: 20"@ + decimal(firmware_year(first)) + seq!['_'] + decimal(
        firmware_month(first),
    ) + seq!['_'] + decimal(second as nat)
}

/// Appends one character to a string: `String::push`. The contract claims
/// that the characters of the string afterwards are the former ones followed
/// by `c`, as std documents.
#[verifier::external_body]
fn push_char(s: &mut String, c: char)
    ensures
        final(s)@ == old(s)@.push(c),
{
    s.push(c)
}

/// Returns the character of the decimal digit `d`.
fn digit(d: u32) -> (c: char)
    requires
        d < 10,
    ensures
        c == digit_char(d as nat),
{
    let b: u8 = 48u8 + d as u8;
    b as char
}

/// Appends the decimal representation of `n` to `s`.
fn push_decimal(s: &mut String, n: u32)
    ensures
        final(s)@ == old(s)@ + decimal(n as nat),
    decreases n,
{
    if n >= 10 {
        push_decimal(s, n / 10);
    }
    push_char(s, digit(n % 10));
    proof {
        if n < 10 {
            assert(decimal(n as nat) =~= seq![digit_char(n as nat)]);
        }
    }
}

/// Builds the firmware version text from the two version bytes.
pub fn format_firmware_version(first: u8, second: u8) -> (s: String)
    ensures
        s@ == firmware_version_text(first, second),
{
    let high: u8 = first >> 4;
    let low: u8 = first & 0x0F;
    assert(high == first / 16 && low == first % 16) by (bit_vector)
        requires
            high == first >> 4u8,
            low == first & 0x0Fu8,
    ;
    let year: u32 = if high <= 9 {
        (high + 0x10) as u32
    } else {
        high as u32
    };
    let mut s = String::from_str("Firmware version: 20");
    push_decimal(&mut s, year);
    push_char(&mut s, '_');
    push_decimal(&mut s, low as u32);
    push_char(&mut s, '_');
    push_decimal(&mut s, second as u32);
    proof {
        assert(s@ =~= firmware_version_text(first, second));
    }
    s
}

/// The firmware version reported by `GetQHYCCDFWVersion`: its text when the
/// status is `QHYCCD_SUCCESS`, else `GetFirmwareVersionError` with the status.
pub fn firmware_version_result(status: u32, first: u8, second: u8) -> (r: Result<
    String,
    QHYError,
>)
    ensures
        status == QHYCCD_SUCCESS <==> r is Ok,
        r matches Ok(s) ==> s@ == firmware_version_text(first, second),
        r matches Err(e) ==> e == (QHYError::GetFirmwareVersionError { error_code: status }),
{
    match check_status(SdkCall::GetFirmwareVersion, status) {
        Ok(()) => Ok(format_firmware_version(first, second)),
        Err(e) => Err(e),
    }
}

/// Two-digit numbers `n` (10 to 99) of the 21st century: the decimal
/// representation of the year `2000 + n` is `20` followed by that of `n`.
proof fn lemma_decimal_of_century_year(n: nat)
    requires
        10 <= n <= 99,
    ensures
        decimal((2000 + n) as nat) == seq!['2', '0'] + decimal(n),
{
    let tens = n / 10;
    let ones = n % 10;
    assert((2000 + n) as nat / 10 == 200 + tens);
    assert((2000 + n) as nat % 10 == ones);
    assert((200 + tens) as nat / 10 == 20);
    assert((200 + tens) as nat % 10 == tens);
    assert(decimal(2) == seq![digit_char(2)]);
    assert(decimal(20) == decimal(2).push(digit_char(0)));
    assert(decimal((200 + tens) as nat) == decimal(20).push(digit_char(tens)));
    assert(decimal(tens) == seq![digit_char(tens)]);
    assert(decimal(n) == decimal(tens).push(digit_char(ones)));
    assert(digit_char(2) == '2');
    assert(digit_char(0) == '0');
    assert(decimal((2000 + n) as nat) =~= seq!['2', '0'] + decimal(n));
}

/// The firmware version text reads `Firmware version: <year>_<month>_<day>`
/// with the calendar year of the first byte's high nibble `h`: 2016 + h for
/// `h` up to 9, else 2000 + h; the month is the low nibble of the first byte
/// and the day the second byte.
pub proof fn lemma_firmware_version_reads_calendar_date(first: u8, second: u8)
    ensures
        ({
            let h = first as int / 16;
            let year: nat = if h <= 9 {
                (2016 + h) as nat
            } else {
                (2000 + h) as nat
            };
            firmware_version_text(first, second) == "Firmware version: "@ + decimal(year)
                + seq!['_'] + decimal((first as int % 16) as nat) + seq!['_'] + decimal(
                second as nat,
            )
        }),
{
    reveal_strlit("Firmware version: ");
    reveal_strlit("Firmware version: 20");
    let h = first as int / 16;
    let short_year = firmware_year(first);
    assert(10 <= short_year <= 99);
    lemma_decimal_of_century_year(short_year);
    assert("Firmware version: 20"@ =~= "Firmware version: "@ + seq!['2', '0']);
    let year: nat = if h <= 9 {
        (2016 + h) as nat
    } else {
        (2000 + h) as nat
    };
    assert(year == 2000 + short_year);
    assert(firmware_version_text(first, second) =~= "Firmware version: "@ + decimal(year)
        + seq!['_'] + decimal((first as int % 16) as nat) + seq!['_'] + decimal(second as nat));
}

} // verus!
