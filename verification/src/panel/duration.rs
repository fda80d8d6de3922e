//! Typing a duration as `hh:mm:ss`.

use vstd::prelude::*;

use crate::text::{
    chars_of, clock_text, hms, law_hms_pieces, law_two_digits_spell_number, number, parse_number,
    pieces, split_pieces, to_hms,
};

verus! {

/// The largest `u64` where `n` does not fit, else `n`.
pub open spec fn saturated(n: int) -> u64 {
    if n <= u64::MAX {
        n as u64
    } else {
        u64::MAX
    }
}

/// The milliseconds that an `hh:mm:ss` text stands for: three numbers, minutes and seconds below
/// sixty. What is too long for a `u64` counts as the longest duration.
pub open spec fn hms_millis(text: Seq<char>) -> Option<u64> {
    let parts = pieces(text, ':');
    if parts.len() != 3 {
        None
    } else {
        match (number(parts[0]), number(parts[1]), number(parts[2])) {
            (Some(hours), Some(minutes), Some(seconds)) if minutes < 60 && seconds < 60 => Some(
                saturated((hours * 3600 + minutes * 60 + seconds) * 1000),
            ),
            _ => None,
        }
    }
}

/// The `hh:mm:ss` text of the whole seconds in `ms` milliseconds.
pub open spec fn millis_text(ms: u64) -> Seq<char> {
    clock_text((ms / 1000) as nat)
}

fn saturating_mul(a: u64, b: u64) -> (product: u64)
    ensures
        product == saturated(a * b),
{
    match a.checked_mul(b) {
        Some(product) => product,
        None => u64::MAX,
    }
}

/// Reads the milliseconds of an `hh:mm:ss` text.
pub fn parse_hms(input: &str) -> (ms: Option<u64>)
    ensures
        ms == hms_millis(input@),
{
    let parts = split_pieces(&chars_of(input), ':');
    if parts.len() != 3 {
        return None;
    }
    let hours: u64 = match parse_number(&parts[0]) {
        Some(hours) => hours,
        None => {
            return None;
        },
    };
    let minutes: u64 = match parse_number(&parts[1]) {
        Some(minutes) => minutes,
        None => {
            return None;
        },
    };
    let seconds: u64 = match parse_number(&parts[2]) {
        Some(seconds) => seconds,
        None => {
            return None;
        },
    };
    if minutes >= 60 || seconds >= 60 {
        return None;
    }
    let total_seconds: u64 = saturating_mul(hours, 3600).saturating_add(
        saturating_mul(minutes, 60),
    ).saturating_add(seconds);
    Some(saturating_mul(total_seconds, 1000))
}

/// Writes `ms` milliseconds as `hh:mm:ss`.
pub fn format_hms(ms: u64) -> (text: String)
    ensures
        text@ == millis_text(ms),
{
    let secs: u64 = ms / 1000;
    let hours: u64 = secs / 3600;
    let minutes: u64 = (secs % 3600) / 60;
    let seconds: u64 = secs % 60;
    assert((secs % 3600) / 60 == (secs / 60) % 60) by (nonlinear_arith);
    to_hms(hours as u128, minutes as u128, seconds as u128)
}

/// The text of a duration input while it is edited.
#[derive(Debug)]
pub struct DurationField {
    pub text: String,
}

impl DurationField {
    /// A field that shows `value`.
    pub fn new(value: u64) -> (field: DurationField)
        ensures
            field.text@ == millis_text(value),
    {
        DurationField { text: format_hms(value) }
    }

    /// The value changed outside of the field: the field shows it, where there is one.
    pub fn show(&mut self, value: Option<u64>)
        ensures
            final(self).text@ == match value {
                Some(ms) => millis_text(ms),
                None => old(self).text@,
            },
    {
        if let Some(ms) = value {
            self.text = format_hms(ms);
        }
    }

    /// Something was typed.
    pub fn input(&mut self, text: String)
        ensures
            final(self).text == text,
    {
        self.text = text;
    }

    /// The field lost the focus: returns the new value where the text stands for one, and shows it;
    /// else shows the current `value` again.
    pub fn blur(&mut self, value: u64) -> (parsed: Option<u64>)
        ensures
            parsed == hms_millis(old(self).text@),
            final(self).text@ == millis_text(
                match parsed {
                    Some(ms) => ms,
                    None => value,
                },
            ),
    {
        let parsed = parse_hms(self.text.as_str());
        let shown: u64 = match parsed {
            Some(ms) => ms,
            None => value,
        };
        self.text = format_hms(shown);
        parsed
    }
}

/// Reading back what was written gives the duration up to its whole seconds.
pub proof fn law_format_then_parse(ms: u64)
    ensures
        hms_millis(millis_text(ms)) == Some((ms / 1000 * 1000) as u64),
{
    let secs = (ms / 1000) as nat;
    let hours = secs / 3600;
    let minutes = (secs / 60) % 60;
    let seconds = secs % 60;
    law_hms_pieces(hours, minutes, seconds);
    law_two_digits_spell_number(hours);
    law_two_digits_spell_number(minutes);
    law_two_digits_spell_number(seconds);
    assert(millis_text(ms) == hms(hours, minutes, seconds));
    assert(hours * 3600 + minutes * 60 + seconds == secs);
}

/// A text that is read gives a value whose text is read as that value again, up to whole seconds.
/// So a field that lost the focus stays as it is when it loses it again.
pub proof fn law_blur_is_stable(text: Seq<char>)
    ensures
        hms_millis(text) matches Some(ms) ==> {
            &&& hms_millis(millis_text(ms)) matches Some(again) && millis_text(again)
                == millis_text(ms)
            &&& ms < u64::MAX ==> hms_millis(millis_text(ms)) == Some(ms)
        },
{
    if let Some(ms) = hms_millis(text) {
        law_format_then_parse(ms);
    }
}

/// A text is read as a duration exactly where it is three numbers with colons between them, the
/// minutes and the seconds below sixty. It lasts its hours, minutes and seconds, at most as long as
/// can be counted.
pub proof fn law_duration_is_read(
    input: &str,
    chars: &Vec<char>,
    parts: Vec<Vec<char>>,
    hours: Option<u64>,
    minutes: Option<u64>,
    seconds: Option<u64>,
    ms: Option<u64>,
)
    requires
        call_ensures(parse_hms, (input,), ms),
        chars@ == input@,
        call_ensures(split_pieces, (chars, ':'), parts),
        call_ensures(parse_number, (&parts@[0],), hours),
        call_ensures(parse_number, (&parts@[1],), minutes),
        call_ensures(parse_number, (&parts@[2],), seconds),
    ensures
        ms is Some <==> {
            &&& parts.len() == 3
            &&& hours is Some && minutes is Some && seconds is Some
            &&& minutes->Some_0 < 60
            &&& seconds->Some_0 < 60
        },
        ms matches Some(ms) ==> {
            let lasts = hours->Some_0 * 3_600_000 + minutes->Some_0 * 60_000 + seconds->Some_0
                * 1_000;
            &&& lasts <= u64::MAX ==> ms == lasts
            &&& lasts > u64::MAX ==> ms == u64::MAX
        },
{
    if parts.len() == 3 {
        assert(parts@[0]@ == pieces(chars@, ':')[0]);
        assert(parts@[1]@ == pieces(chars@, ':')[1]);
        assert(parts@[2]@ == pieces(chars@, ':')[2]);
    }
}

/// A duration is written as its whole hours, then the whole minutes and the whole seconds that are
/// left of it.
pub proof fn law_duration_is_written(
    ms: u64,
    text: String,
    hours: u128,
    minutes: u128,
    seconds: u128,
    millis: int,
    written: String,
)
    requires
        call_ensures(format_hms, (ms,), text),
        ms == hours * 3_600_000 + minutes * 60_000 + seconds * 1_000 + millis,
        minutes < 60,
        seconds < 60,
        0 <= millis < 1_000,
        call_ensures(to_hms, (hours, minutes, seconds), written),
    ensures
        text@ == written@,
{
    let secs = (ms / 1000) as int;
    assert(secs == hours * 3600 + minutes * 60 + seconds);
    assert(secs / 3600 == hours);
    assert(secs / 60 == hours * 60 + minutes);
    assert((secs / 60) % 60 == minutes);
    assert(secs % 60 == seconds);
}

/// A field shows the duration that it is made with, or that it is given later.
pub proof fn law_field_shows_the_value(
    field: DurationField,
    shown: &mut DurationField,
    untouched: &mut DurationField,
    value: u64,
    text: String,
)
    requires
        call_ensures(DurationField::new, (value,), field),
        call_ensures(DurationField::show, (shown, Some(value)), ()),
        call_ensures(DurationField::show, (untouched, None), ()),
        call_ensures(format_hms, (value,), text),
    ensures
        field.text@ == text@,
        final(shown).text@ == text@,
        final(untouched).text@ == old(untouched).text@,
{
}

/// What is typed is what the field shows until it loses the focus.
pub proof fn law_field_takes_the_text(field: &mut DurationField, text: String)
    requires
        call_ensures(DurationField::input, (field, text), ()),
    ensures
        final(field).text@ == text@,
{
}

/// A field that loses the focus hands out what its text is read as, and shows that; where the text is
/// no duration it shows the value it had.
pub proof fn law_field_loses_the_focus(
    field: &mut DurationField,
    value: u64,
    parsed: Option<u64>,
    typed: &str,
    read: Option<u64>,
    shown: u64,
    text: String,
)
    requires
        call_ensures(DurationField::blur, (field, value), parsed),
        typed@ == old(field).text@,
        call_ensures(parse_hms, (typed,), read),
        read is Some ==> shown == read->Some_0,
        read is None ==> shown == value,
        call_ensures(format_hms, (shown,), text),
    ensures
        parsed == read,
        final(field).text@ == text@,
{
}

} // verus!
