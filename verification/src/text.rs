//! Decimal numbers and `hh:mm:ss` texts.

use vstd::prelude::*;

verus! {

/// The character of the decimal digit `d`.
pub open spec fn digit_char(d: int) -> char {
    (48 + d) as char
}

/// Whether `c` is one of the ten ASCII digits.
pub open spec fn is_digit(c: char) -> bool {
    48 <= c as int <= 57
}

/// The value of the digit `c`.
pub open spec fn digit_value(c: char) -> int {
    c as int - 48
}

/// The shortest decimal notation of `n`.
pub open spec fn decimal(n: nat) -> Seq<char>
    decreases n,
{
    if n < 10 {
        seq![digit_char(n as int)]
    } else {
        decimal(n / 10).push(digit_char((n % 10) as int))
    }
}

/// Decimal notation of `n`, with a minus sign where it is negative.
pub open spec fn signed_decimal(n: int) -> Seq<char> {
    if n < 0 {
        seq!['-'] + decimal((-n) as nat)
    } else {
        decimal(n as nat)
    }
}

/// Decimal notation of `n` with a leading zero where it has one digit only.
pub open spec fn two_digits(n: nat) -> Seq<char> {
    if n < 10 {
        seq!['0'] + decimal(n)
    } else {
        decimal(n)
    }
}

/// `hh:mm:ss`.
pub open spec fn hms(hours: nat, minutes: nat, seconds: nat) -> Seq<char> {
    two_digits(hours) + seq![':'] + two_digits(minutes) + seq![':'] + two_digits(seconds)
}

/// `hh:mm:ss` of a number of seconds.
pub open spec fn clock_text(total_seconds: nat) -> Seq<char> {
    hms(total_seconds / 3600, (total_seconds / 60) % 60, total_seconds % 60)
}

/// Every character of `s` is a digit.
pub open spec fn all_digits(s: Seq<char>) -> bool {
    forall|i: int| 0 <= i < s.len() ==> is_digit(#[trigger] s[i])
}

/// The number that the digits `s` spell.
pub open spec fn digits_value(s: Seq<char>) -> nat
    decreases s.len(),
{
    if s.len() == 0 {
        0
    } else {
        (digits_value(s.drop_last()) * 10 + digit_value(s.last())) as nat
    }
}

/// `s` without a leading plus sign.
pub open spec fn unsigned_part(s: Seq<char>) -> Seq<char> {
    if s.len() > 0 && s[0] == '+' {
        s.skip(1)
    } else {
        s
    }
}

/// The `u64` that `s` spells: one digit or more, after an optional plus sign, and no larger than a
/// `u64` can hold.
pub open spec fn number(s: Seq<char>) -> Option<u64> {
    let digits = unsigned_part(s);
    if digits.len() > 0 && all_digits(digits) && digits_value(digits) <= u64::MAX {
        Some(digits_value(digits) as u64)
    } else {
        None
    }
}

/// The pieces of `s` between the occurrences of `separator`.
pub open spec fn pieces(s: Seq<char>, separator: char) -> Seq<Seq<char>>
    decreases s.len(),
{
    if s.len() == 0 {
        seq![Seq::empty()]
    } else {
        let before = pieces(s.drop_last(), separator);
        if s.last() == separator {
            before.push(Seq::empty())
        } else {
            before.drop_last().push(before.last().push(s.last()))
        }
    }
}

fn digit_text(d: u8) -> (s: &'static str)
    requires
        d < 10,
    ensures
        s@ == seq![digit_char(d as int)],
{
    proof {
        reveal_strlit("0");
        reveal_strlit("1");
        reveal_strlit("2");
        reveal_strlit("3");
        reveal_strlit("4");
        reveal_strlit("5");
        reveal_strlit("6");
        reveal_strlit("7");
        reveal_strlit("8");
        reveal_strlit("9");
    }
    match d {
        0 => "0",
        1 => "1",
        2 => "2",
        3 => "3",
        4 => "4",
        5 => "5",
        6 => "6",
        7 => "7",
        8 => "8",
        _ => "9",
    }
}

/// Writes `n` in decimal.
pub fn to_decimal(n: u128) -> (s: String)
    ensures
        s@ == decimal(n as nat),
    decreases n,
{
    if n < 10 {
        String::from_str(digit_text(n as u8))
    } else {
        let mut s = to_decimal(n / 10);
        s.append(digit_text((n % 10) as u8));
        s
    }
}

/// Writes `n` in decimal, with a minus sign where it is negative.
pub fn to_signed_decimal(n: i32) -> (s: String)
    ensures
        s@ == signed_decimal(n as int),
{
    if n < 0 {
        proof {
            reveal_strlit("-");
        }
        let magnitude: i64 = -(n as i64);
        let mut s = String::from_str("-");
        s.append(to_decimal(magnitude as u128).as_str());
        s
    } else {
        to_decimal(n as u128)
    }
}

/// Writes `n` in decimal with at least two digits.
pub fn to_two_digits(n: u128) -> (s: String)
    ensures
        s@ == two_digits(n as nat),
{
    if n < 10 {
        let mut s = String::from_str("0");
        s.append(to_decimal(n).as_str());
        proof {
            reveal_strlit("0");
        }
        s
    } else {
        to_decimal(n)
    }
}

/// Writes `hh:mm:ss`.
pub fn to_hms(hours: u128, minutes: u128, seconds: u128) -> (s: String)
    ensures
        s@ == hms(hours as nat, minutes as nat, seconds as nat),
{
    proof {
        reveal_strlit(":");
    }
    let mut s = to_two_digits(hours);
    s.append(":");
    s.append(to_two_digits(minutes).as_str());
    s.append(":");
    s.append(to_two_digits(seconds).as_str());
    s
}

/// The characters of `s`.
pub fn chars_of(s: &str) -> (chars: Vec<char>)
    ensures
        chars@ == s@,
{
    let mut chars: Vec<char> = Vec::new();
    let n: usize = s.unicode_len();
    let mut i: usize = 0;
    while i < n
        invariant
            n == s@.len(),
            i <= n,
            chars@ == s@.take(i as int),
        decreases n - i,
    {
        chars.push(s.get_char(i));
        assert(s@.take(i + 1) == s@.take(i as int).push(s@[i as int]));
        i += 1;
    }
    assert(s@.take(n as int) == s@);
    chars
}

/// `parts` are the pieces of `s`, in order.
pub open spec fn are_pieces(parts: Seq<Vec<char>>, s: Seq<char>, separator: char) -> bool {
    &&& parts.len() == pieces(s, separator).len()
    &&& forall|i: int| 0 <= i < parts.len() ==> (#[trigger] parts[i])@ == pieces(s, separator)[i]
}

/// Splits `chars` at every `separator`.
pub fn split_pieces(chars: &Vec<char>, separator: char) -> (parts: Vec<Vec<char>>)
    ensures
        are_pieces(parts@, chars@, separator),
{
    let mut done: Vec<Vec<char>> = Vec::new();
    let mut current: Vec<char> = Vec::new();
    let mut i: usize = 0;
    while i < chars.len()
        invariant
            i <= chars@.len(),
            pieces(chars@.take(i as int), separator).len() == done@.len() + 1,
            pieces(chars@.take(i as int), separator).last() == current@,
            forall|j: int|
                0 <= j < done@.len() ==> (#[trigger] done@[j])@ == pieces(
                    chars@.take(i as int),
                    separator,
                )[j],
        decreases chars@.len() - i,
    {
        let ghost next = chars@.take(i + 1);
        proof {
            assert(next.drop_last() == chars@.take(i as int));
        }
        let c = chars[i];
        if c == separator {
            done.push(current);
            current = Vec::new();
        } else {
            current.push(c);
        }
        i += 1;
    }
    assert(chars@.take(i as int) == chars@);
    done.push(current);
    done
}

/// The value so far only grows with further digits.
proof fn lemma_prefix_value(s: Seq<char>, i: int)
    requires
        all_digits(s),
        0 <= i <= s.len(),
    ensures
        digits_value(s.take(i)) <= digits_value(s),
    decreases s.len(),
{
    if i == s.len() {
        assert(s.take(i) == s);
    } else {
        let init = s.drop_last();
        assert(all_digits(init));
        assert(s.take(i) == init.take(i));
        lemma_prefix_value(init, i);
        assert(is_digit(s.last()));
    }
}

/// Reads a `u64` from its decimal notation.
pub fn parse_number(chars: &Vec<char>) -> (value: Option<u64>)
    ensures
        value == number(chars@),
{
    let start: usize = if chars.len() > 0 && chars[0] == '+' {
        1
    } else {
        0
    };
    let ghost digits = unsigned_part(chars@);
    assert(digits == chars@.skip(start as int));
    if start == chars.len() {
        return None;
    }
    let mut value: u64 = 0;
    let mut i: usize = start;
    while i < chars.len()
        invariant
            start <= i <= chars@.len(),
            digits == chars@.skip(start as int),
            digits == unsigned_part(chars@),
            all_digits(digits.take(i - start)),
            value == digits_value(digits.take(i - start)),
        decreases chars@.len() - i,
    {
        let c = chars[i];
        let ghost k = i - start;
        proof {
            assert(digits[k] == c);
            assert(digits.take(k + 1).drop_last() == digits.take(k));
        }
        if c < '0' || c > '9' {
            return None;
        }
        let d: u64 = (c as u32 - 48) as u64;
        proof {
            assert forall|j: int| 0 <= j < k + 1 implies is_digit(#[trigger] digits.take(k + 1)[j]) by {
                if j < k {
                    assert(digits.take(k)[j] == digits.take(k + 1)[j]);
                }
            }
            if all_digits(digits) {
                lemma_prefix_value(digits, k + 1);
            }
        }
        let scaled = match value.checked_mul(10) {
            Some(v) => v,
            None => {
                return None;
            },
        };
        value = match scaled.checked_add(d) {
            Some(v) => v,
            None => {
                return None;
            },
        };
        i += 1;
    }
    assert(digits.take(i - start) == digits);
    Some(value)
}

/// Decimal notation holds digits only, at least one, and spells its number.
pub proof fn law_decimal_spells_number(n: nat)
    ensures
        decimal(n).len() > 0,
        all_digits(decimal(n)),
        digits_value(decimal(n)) == n,
    decreases n,
{
    if n < 10 {
        let s = decimal(n);
        assert(s.drop_last() == Seq::<char>::empty());
        assert(digits_value(Seq::<char>::empty()) == 0);
        assert(digit_value(s.last()) == n);
        assert(digits_value(s) == n);
    } else {
        law_decimal_spells_number(n / 10);
        let s = decimal(n);
        assert(s.drop_last() == decimal(n / 10));
        assert forall|i: int| 0 <= i < s.len() implies is_digit(#[trigger] s[i]) by {
            if i < s.len() - 1 {
                assert(s[i] == decimal(n / 10)[i]);
            }
        }
    }
}

/// A leading zero changes nothing.
pub proof fn law_two_digits_spell_number(n: nat)
    ensures
        two_digits(n).len() >= 2,
        all_digits(two_digits(n)),
        digits_value(two_digits(n)) == n,
        n <= u64::MAX ==> number(two_digits(n)) == Some(n as u64),
{
    law_decimal_spells_number(n);
    if n < 10 {
        let s = two_digits(n);
        assert(s.drop_last() == seq!['0']);
        assert(seq!['0'].drop_last() == Seq::<char>::empty());
        assert(digits_value(Seq::<char>::empty()) == 0);
        assert(digits_value(seq!['0']) == 0);
        assert(s.last() == digit_char(n as int));
    } else {
        law_decimal_spells_number(n / 10);
        assert(decimal(n).len() == decimal(n / 10).len() + 1);
    }
    assert(is_digit(two_digits(n)[0]));
    assert(unsigned_part(two_digits(n)) == two_digits(n));
}

/// A text without the separator is one piece.
proof fn lemma_one_piece(s: Seq<char>, separator: char)
    requires
        !s.contains(separator),
    ensures
        pieces(s, separator) == seq![s],
    decreases s.len(),
{
    if s.len() > 0 {
        let init = s.drop_last();
        assert forall|c: char| init.contains(c) implies s.contains(c) by {
            let i = choose|i: int| 0 <= i < init.len() && init[i] == c;
            assert(s[i] == c);
        }
        lemma_one_piece(init, separator);
        assert(s.contains(s.last()));
        assert(init.push(s.last()) == s);
        assert(pieces(s, separator) == seq![s]);
    } else {
        assert(s == Seq::<char>::empty());
    }
}

/// A piece that follows a separator is the last piece.
proof fn lemma_last_piece(head: Seq<char>, tail: Seq<char>, separator: char)
    requires
        !tail.contains(separator),
    ensures
        pieces(head + seq![separator] + tail, separator) == pieces(head, separator).push(tail),
    decreases tail.len(),
{
    let whole = head + seq![separator] + tail;
    if tail.len() == 0 {
        assert(whole.drop_last() == head);
        assert(whole.last() == separator);
        assert(tail == Seq::<char>::empty());
    } else {
        let init = tail.drop_last();
        assert forall|c: char| init.contains(c) implies tail.contains(c) by {
            let i = choose|i: int| 0 <= i < init.len() && init[i] == c;
            assert(tail[i] == c);
        }
        lemma_last_piece(head, init, separator);
        assert(whole.drop_last() == head + seq![separator] + init);
        assert(tail.contains(tail.last()));
        assert(whole.last() == tail.last());
        let before = pieces(head, separator).push(init);
        assert(before.drop_last() == pieces(head, separator));
        assert(before.last() == init);
        assert(init.push(tail.last()) == tail);
    }
}

proof fn lemma_no_colon(s: Seq<char>)
    requires
        all_digits(s),
    ensures
        !s.contains(':'),
{
    if s.contains(':') {
        let i = choose|i: int| 0 <= i < s.len() && s[i] == ':';
        assert(is_digit(s[i]));
    }
}

/// An `hh:mm:ss` text falls into the three numbers that it was written from.
pub proof fn law_hms_pieces(hours: nat, minutes: nat, seconds: nat)
    ensures
        pieces(hms(hours, minutes, seconds), ':') == seq![
            two_digits(hours),
            two_digits(minutes),
            two_digits(seconds),
        ],
{
    law_two_digits_spell_number(hours);
    law_two_digits_spell_number(minutes);
    law_two_digits_spell_number(seconds);
    lemma_no_colon(two_digits(hours));
    lemma_no_colon(two_digits(minutes));
    lemma_no_colon(two_digits(seconds));
    lemma_one_piece(two_digits(hours), ':');
    lemma_last_piece(two_digits(hours), two_digits(minutes), ':');
    lemma_last_piece(
        two_digits(hours) + seq![':'] + two_digits(minutes),
        two_digits(seconds),
        ':',
    );
    assert(pieces(hms(hours, minutes, seconds), ':') == seq![
        two_digits(hours),
        two_digits(minutes),
        two_digits(seconds),
    ]);
}

/// A number of one digit is written as that digit; a longer one ends in its last digit, with the rest
/// of the number before it.
pub proof fn law_digit_by_digit(n: u128, text: String, rest: String)
    requires
        call_ensures(to_decimal, (n,), text),
        call_ensures(to_decimal, ((n / 10) as u128,), rest),
    ensures
        text@.last() as int == 48 + n % 10,
        n < 10 ==> text@.len() == 1,
        n >= 10 ==> text@.drop_last() == rest@,
        n >= 10 ==> text@.len() == rest@.len() + 1,
{
    if n >= 10 {
        assert(text@.drop_last() =~= rest@);
    }
}

/// A negative number is written as the number without its sign, behind a minus sign.
pub proof fn law_minus_sign(n: i32, text: String, magnitude: u128, digits: String)
    requires
        call_ensures(to_signed_decimal, (n,), text),
        call_ensures(to_decimal, (magnitude,), digits),
        magnitude == n || magnitude == -n,
    ensures
        n < 0 ==> text@ == seq!['-'] + digits@,
        n >= 0 ==> text@ == digits@,
{
}

/// A number of one digit gets a zero before it where two digits are wanted.
pub proof fn law_leading_zero(n: u128, text: String, digits: String)
    requires
        call_ensures(to_two_digits, (n,), text),
        call_ensures(to_decimal, (n,), digits),
    ensures
        n < 10 ==> text@ == seq!['0'] + digits@,
        n >= 10 ==> text@ == digits@,
{
}

/// The hours, the minutes and the seconds stand in this order, with colons between them.
pub proof fn law_hms_text(
    hours: u128,
    minutes: u128,
    seconds: u128,
    text: String,
    h: String,
    m: String,
    s: String,
)
    requires
        call_ensures(to_hms, (hours, minutes, seconds), text),
        call_ensures(to_two_digits, (hours,), h),
        call_ensures(to_two_digits, (minutes,), m),
        call_ensures(to_two_digits, (seconds,), s),
    ensures
        text@ == h@ + seq![':'] + m@ + seq![':'] + s@,
{
}

/// The characters of a text are its characters, each in its place.
pub proof fn law_chars(s: &str, chars: Vec<char>, i: int)
    requires
        call_ensures(chars_of, (s,), chars),
        0 <= i < chars.len(),
    ensures
        chars.len() == s@.len(),
        chars@[i] == s@[i],
{
}

/// A text without the separator is one piece. One with it falls into the pieces before its last
/// separator, and what stands behind that.
pub proof fn law_split_at_the_last_separator(
    whole: &Vec<char>,
    head: &Vec<char>,
    tail: Seq<char>,
    separator: char,
    parts: Vec<Vec<char>>,
    before: Vec<Vec<char>>,
)
    requires
        call_ensures(split_pieces, (whole, separator), parts),
        call_ensures(split_pieces, (head, separator), before),
        !tail.contains(separator),
    ensures
        whole@ == tail ==> parts.len() == 1 && parts@[0]@ == tail,
        whole@ == head@ + seq![separator] + tail ==> {
            &&& parts.len() == before.len() + 1
            &&& parts@.last()@ == tail
            &&& forall|i: int| 0 <= i < before.len() ==> (#[trigger] parts@[i])@ == before@[i]@
        },
{
    if whole@ == tail {
        lemma_one_piece(tail, separator);
    }
    if whole@ == head@ + seq![separator] + tail {
        lemma_last_piece(head@, tail, separator);
        assert forall|i: int| 0 <= i < before.len() implies (#[trigger] parts@[i])@
            == before@[i]@ by {
            assert(before@[i]@ == pieces(head@, separator)[i]);
        }
    }
}

/// Nothing is no number, and neither is a text with anything but digits behind an optional plus sign.
pub proof fn law_no_number(chars: &Vec<char>, value: Option<u64>, i: int)
    requires
        call_ensures(parse_number, (chars,), value),
        0 <= i < chars.len(),
        (chars@[i] as int) < 48 || 57 < chars@[i] as int,
        i > 0 || chars@[i] != '+' || chars.len() == 1,
    ensures
        value is None,
{
    let digits = unsigned_part(chars@);
    if digits.len() > 0 && all_digits(digits) {
        if chars@[0] == '+' {
            assert(chars@.skip(1)[i - 1] == chars@[i]);
            assert(is_digit(digits[i - 1]));
        } else {
            assert(is_digit(digits[i]));
        }
    }
}

/// Nothing is no number.
pub proof fn law_nothing_is_no_number(chars: &Vec<char>, value: Option<u64>)
    requires
        call_ensures(parse_number, (chars,), value),
        chars.len() == 0,
    ensures
        value is None,
{
}

/// One digit is read as its value, also behind a plus sign.
pub proof fn law_one_digit_is_read(chars: &Vec<char>, value: Option<u64>)
    requires
        call_ensures(parse_number, (chars,), value),
        chars.len() == 1 || chars.len() == 2 && chars@[0] == '+',
        48 <= chars@.last() as int <= 57,
    ensures
        value == Some((chars@.last() as int - 48) as u64),
{
    let digits = unsigned_part(chars@);
    assert(digits =~= seq![chars@.last()]);
    assert(digits.drop_last() =~= Seq::<char>::empty());
    assert(digits_value(Seq::<char>::empty()) == 0);
}

/// A further digit makes ten of every one before it, and what is then too large is no number.
pub proof fn law_next_digit_is_read(
    chars: &Vec<char>,
    longer: &Vec<char>,
    c: char,
    value: Option<u64>,
    next: Option<u64>,
)
    requires
        call_ensures(parse_number, (chars,), value),
        call_ensures(parse_number, (longer,), next),
        longer@ == chars@.push(c),
        48 <= c as int <= 57,
        value is Some,
    ensures
        value->Some_0 * 10 + (c as int - 48) <= u64::MAX ==> next == Some(
            (value->Some_0 * 10 + (c as int - 48)) as u64,
        ),
        value->Some_0 * 10 + (c as int - 48) > u64::MAX ==> next is None,
{
    let digits = unsigned_part(chars@);
    let more = unsigned_part(longer@);
    assert(more =~= digits.push(c));
    assert(more.drop_last() =~= digits);
    assert forall|i: int| 0 <= i < more.len() implies is_digit(#[trigger] more[i]) by {
        if i < digits.len() {
            assert(is_digit(digits[i]));
        }
    }
}

/// What is too large to be read does not become a number by further digits.
pub proof fn law_too_large_stays_too_large(
    chars: &Vec<char>,
    longer: &Vec<char>,
    c: char,
    value: Option<u64>,
    next: Option<u64>,
)
    requires
        call_ensures(parse_number, (chars,), value),
        call_ensures(parse_number, (longer,), next),
        longer@ == chars@.push(c),
        value is None,
        chars.len() > 1 || chars.len() == 1 && chars@[0] != '+',
    ensures
        next is None,
{
    let digits = unsigned_part(chars@);
    let more = unsigned_part(longer@);
    assert(more =~= digits.push(c));
    assert(more.drop_last() =~= digits);
    if all_digits(more) {
        assert forall|i: int| 0 <= i < digits.len() implies is_digit(#[trigger] digits[i]) by {
            assert(is_digit(more[i]));
        }
        assert(is_digit(more.last()));
    }
}

/// What was written in decimal is read as that number.
pub proof fn law_written_number_is_read(
    n: u64,
    text: String,
    chars: &Vec<char>,
    value: Option<u64>,
)
    requires
        call_ensures(to_decimal, (n as u128,), text),
        call_ensures(parse_number, (chars,), value),
        chars@ == text@ || chars@ == seq!['0'] + text@,
    ensures
        value == Some(n),
{
    law_decimal_spells_number(n as nat);
    assert(is_digit(text@[0]));
    if chars@ == text@ {
        assert(unsigned_part(chars@) == text@);
    } else {
        lemma_leading_zero(text@);
        assert(unsigned_part(chars@) == chars@);
    }
}

/// A leading zero changes nothing of what digits spell.
proof fn lemma_leading_zero(s: Seq<char>)
    requires
        all_digits(s),
    ensures
        all_digits(seq!['0'] + s),
        digits_value(seq!['0'] + s) == digits_value(s),
    decreases s.len(),
{
    let t = seq!['0'] + s;
    if s.len() == 0 {
        assert(t =~= seq!['0']);
        assert(t.drop_last() =~= Seq::<char>::empty());
        assert(digits_value(Seq::<char>::empty()) == 0);
    } else {
        assert(all_digits(s.drop_last()));
        lemma_leading_zero(s.drop_last());
        assert(t.drop_last() =~= seq!['0'] + s.drop_last());
        assert(t.last() == s.last());
        assert(is_digit(s.last()));
    }
    assert forall|i: int| 0 <= i < t.len() implies is_digit(#[trigger] t[i]) by {
        if i > 0 {
            assert(is_digit(s[i - 1]));
        }
    }
}

} // verus!
