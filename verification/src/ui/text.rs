//! The texts that the user interface shows.

use vstd::prelude::*;
use crate::remote::net::RemoteError;
use crate::remote::protocol::{GPIOMode, GPIOValue, GPIOValueLevel};

verus! {

/// The character of a decimal digit.
pub open spec fn digit_char(d: nat) -> char {
    if d == 0 { '0' }
    else if d == 1 { '1' }
    else if d == 2 { '2' }
    else if d == 3 { '3' }
    else if d == 4 { '4' }
    else if d == 5 { '5' }
    else if d == 6 { '6' }
    else if d == 7 { '7' }
    else if d == 8 { '8' }
    else { '9' }
}

/// A number written in decimal, most significant digit first, without
/// leading zeros.
pub open spec fn decimal(n: nat) -> Seq<char>
    decreases n,
{
    if n < 10 {
        seq![digit_char(n)]
    } else {
        decimal(n / 10) + seq![digit_char(n % 10)]
    }
}

/// The value of a decimal digit, 0 for any other character.
pub open spec fn digit_value(c: char) -> nat {
    if c == '1' { 1 }
    else if c == '2' { 2 }
    else if c == '3' { 3 }
    else if c == '4' { 4 }
    else if c == '5' { 5 }
    else if c == '6' { 6 }
    else if c == '7' { 7 }
    else if c == '8' { 8 }
    else if c == '9' { 9 }
    else { 0 }
}

/// The number that a string of decimal digits reads as, most significant
/// digit first.
pub open spec fn digits_value(s: Seq<char>) -> nat
    decreases s.len(),
{
    if s.len() == 0 {
        0
    } else {
        digits_value(s.drop_last()) * 10 + digit_value(s.last())
    }
}

proof fn lemma_digit_reads_back(d: nat)
    requires
        d < 10,
    ensures
        digit_value(digit_char(d)) == d,
{
}

/// A number written in decimal reads back as that number, so two numbers
/// are written alike only where they are equal.
pub proof fn law_decimal_reads_back(n: nat)
    ensures
        digits_value(decimal(n)) == n,
        decimal(n).len() >= 1,
    decreases n,
{
    let d = decimal(n);
    if n < 10 {
        lemma_digit_reads_back(n);
        assert(d.drop_last() =~= Seq::<char>::empty());
        assert(digits_value(d.drop_last()) == 0);
    } else {
        lemma_digit_reads_back(n % 10);
        law_decimal_reads_back(n / 10);
        assert(d.drop_last() =~= decimal(n / 10));
        assert(d.last() == digit_char(n % 10));
        assert(n == (n / 10) * 10 + n % 10);
    }
}

fn digit_str(d: u8) -> (s: &'static str)
    requires
        d < 10,
    ensures
        s@ == seq![digit_char(d as nat)],
{
    proof {
        reveal_strlit("0");
        reveal_strlit("1");
        reveal_strlit("2");
        reveal_strlit("3");
        reveal_strlit("4");
        reveal_strlit("5");
        reveal_strlit("6");
        reveal_strlit("7");
        reveal_strlit("8");
        reveal_strlit("9");
    }
    if d == 0 { "0" }
    else if d == 1 { "1" }
    else if d == 2 { "2" }
    else if d == 3 { "3" }
    else if d == 4 { "4" }
    else if d == 5 { "5" }
    else if d == 6 { "6" }
    else if d == 7 { "7" }
    else if d == 8 { "8" }
    else { "9" }
}

fn push_decimal(out: &mut String, n: u128)
    ensures
        final(out)@ == old(out)@ + decimal(n as nat),
    decreases n,
{
    if n >= 10 {
        push_decimal(out, n / 10);
    }
    out.append(digit_str((n % 10) as u8));
    assert(out@ =~= old(out)@ + decimal(n as nat));
}

/// `n` in decimal.
pub fn decimal_string(n: u128) -> (s: String)
    ensures
        s@ == decimal(n as nat),
{
    let mut s = String::new();
    push_decimal(&mut s, n);
    assert(s@ =~= decimal(n as nat));
    s
}

/// How a mode is written on screen: the variant's name.
pub open spec fn mode_label(m: GPIOMode) -> Seq<char> {
    match m {
        GPIOMode::UNKNOWN => "UNKNOWN"@,
        GPIOMode::INPUT => "INPUT"@,
        GPIOMode::OUTPUT => "OUTPUT"@,
        GPIOMode::ANALOG => "ANALOG"@,
        GPIOMode::PWM => "PWM"@,
    }
}

/// How a value is written on screen: "NONE", or the level, "LOW" or
/// "HIGH", as the value picker names them.
pub open spec fn value_label(v: GPIOValue) -> Seq<char> {
    match v {
        GPIOValue::NONE => "NONE"@,
        GPIOValue::LEVEL(GPIOValueLevel::LOW) => "LOW"@,
        GPIOValue::LEVEL(GPIOValueLevel::HIGH) => "HIGH"@,
    }
}

pub fn mode_text(m: GPIOMode) -> (s: &'static str)
    ensures
        s@ == mode_label(m),
{
    match m {
        GPIOMode::UNKNOWN => "UNKNOWN",
        GPIOMode::INPUT => "INPUT",
        GPIOMode::OUTPUT => "OUTPUT",
        GPIOMode::ANALOG => "ANALOG",
        GPIOMode::PWM => "PWM",
    }
}

pub fn value_text(v: GPIOValue) -> (s: &'static str)
    ensures
        s@ == value_label(v),
{
    match v {
        GPIOValue::NONE => "NONE",
        GPIOValue::LEVEL(GPIOValueLevel::LOW) => "LOW",
        GPIOValue::LEVEL(GPIOValueLevel::HIGH) => "HIGH",
    }
}

/// The note shown once a pin was configured.
pub open spec fn added_text(pin: u8) -> Seq<char> {
    "Added pin "@ + decimal(pin as nat)
}

/// The error shown when a pin could not be configured.
pub open spec fn add_failed_text(reason: Seq<char>) -> Seq<char> {
    "Unable to add pin: "@ + reason
}

/// The note shown once a pin was removed from the list.
pub open spec fn deleted_text(pin: u8) -> Seq<char> {
    "Delete Pin "@ + decimal(pin as nat)
}

/// The note shown once a pin was written.
pub open spec fn set_text(pin: u8, value: GPIOValue) -> Seq<char> {
    "Set pin "@ + decimal(pin as nat) + " to "@ + value_label(value)
}

/// The label of the last round trip to the server.
pub open spec fn ping_text(millis: u128) -> Seq<char> {
    "Ping "@ + decimal(millis as nat) + "ms"@
}

/// The ping label carries the whole round trip: what stands between
/// "Ping " and "ms" reads back as the number of milliseconds.
pub proof fn law_ping_label_reads_back(millis: u128)
    ensures
        ping_text(millis).len() >= 8,
        ping_text(millis).subrange(0, 5) == "Ping "@,
        ping_text(millis).subrange(ping_text(millis).len() - 2, ping_text(millis).len() as int) == "ms"@,
        digits_value(ping_text(millis).subrange(5, ping_text(millis).len() - 2)) == millis,
{
    reveal_strlit("Ping ");
    reveal_strlit("ms");
    law_decimal_reads_back(millis as nat);
    let t = ping_text(millis);
    let d = decimal(millis as nat);
    assert(t.subrange(0, 5) =~= "Ping "@);
    assert(t.subrange(t.len() - 2, t.len() as int) =~= "ms"@);
    assert(t.subrange(5, t.len() - 2) =~= d);
}

/// Two different round trips are labelled differently.
pub proof fn law_ping_labels_differ(a: u128, b: u128)
    requires
        a != b,
    ensures
        ping_text(a) != ping_text(b),
{
    law_ping_label_reads_back(a);
    law_ping_label_reads_back(b);
}

/// The text of the status bar when no error is shown.
pub open spec fn done_text() -> Seq<char> {
    "Done"@
}

pub fn added_message(pin: u8) -> (s: String)
    ensures
        s@ == added_text(pin),
        s@ == "Added pin "@ + decimal(pin as nat),
{
    let s = String::from_str("Added pin ");
    s.concat(decimal_string(pin as u128).as_str())
}

pub fn add_failed_message(reason: &str) -> (s: String)
    ensures
        s@ == add_failed_text(reason@),
        s@ == "Unable to add pin: "@ + reason@,
{
    String::from_str("Unable to add pin: ").concat(reason)
}

pub fn deleted_message(pin: u8) -> (s: String)
    ensures
        s@ == deleted_text(pin),
        s@ == "Delete Pin "@ + decimal(pin as nat),
{
    String::from_str("Delete Pin ").concat(decimal_string(pin as u128).as_str())
}

/// The note for a pin that was given `value`.
pub fn set_message(pin: u8, value: GPIOValue) -> (s: String)
    ensures
        s@ == set_text(pin, value),
        s@ == "Set pin "@ + decimal(pin as nat) + " to "@ + value_label(value),
{
    String::from_str("Set pin ").concat(decimal_string(pin as u128).as_str()).concat(" to ").concat(value_text(value))
}

pub fn ping_label(millis: u128) -> (s: String)
    ensures
        s@ == ping_text(millis),
        s@ == "Ping "@ + decimal(millis as nat) + "ms"@,
{
    String::from_str("Ping ").concat(decimal_string(millis).as_str()).concat("ms")
}

/// The colour of the status bar while it shows an error: red, a quarter
/// opaque, as red, green, blue and alpha.
pub open spec fn error_color() -> (u8, u8, u8, u8) {
    (255, 0, 0, 64)
}

/// The status bar: the error where there is one, in the error colour, else
/// "Done" with the default colour.
pub fn status_line(error: &Option<String>) -> (r: (String, Option<(u8, u8, u8, u8)>))
    ensures
        error is Some ==> r.0@ == error->0@ && r.1 == Some(error_color()),
        error is None ==> r.0@ == done_text() && r.1 is None,
{
    match error {
        Some(err) => (err.clone(), Some((255, 0, 0, 64))),
        None => (String::from_str("Done"), None),
    }
}

/// The ping and the status once a ping is over: the round trip and no note
/// where it succeeded, no round trip and the error's message where it failed.
pub fn finish_ping<D>(result: Result<D, RemoteError>) -> (r: (Option<D>, Result<Option<String>, String>))
    ensures
        result is Ok ==> r.0 == Some(result->Ok_0) && r.1 == Ok::<Option<String>, String>(None),
        result is Err ==> r.0 is None && r.1 is Err && r.1->Err_0@ == result->Err_0@.message(),
{
    match result {
        Ok(d) => (Some(d), Ok(None)),
        Err(mut err) => (None, Err(err.unwrap())),
    }
}

} // verus!
