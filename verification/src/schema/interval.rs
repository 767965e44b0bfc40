//! Time intervals: a count and a unit.
//!
//! An interval is made from a count and a unit, or read from a text of the
//! form `<count> <unit>`. It is written as `<count> <unit>` with the plural
//! name of the unit, whichever alias it was read from.

use vstd::prelude::*;
use vstd::string::StringExecFns;
use vstd::utf8::is_ascii_chars;
use crate::decimal::decimal_digits;
use crate::decimal::decimal_u64;
use crate::decimal::lemma_decimal_digits_len_u64;
use crate::decimal::lemma_decimal_round_trip;
use crate::decimal::parse_decimal;
use crate::decimal::push_decimal;
use crate::schema::error::ValidationError;
use crate::schema::error::ValidationErrorView;
use crate::text::ascii_lowercase;
use crate::text::byte_len;
use crate::text::char_is_ascii_alphanumeric;
use crate::text::chars_of;
use crate::text::is_ascii_alphanumeric;
use crate::text::is_ascii_digit;
use crate::text::lemma_utf8_len_of_ascii;
use crate::text::push_chars;
use crate::text::same_text;
use crate::text::to_ascii_lowercase;
use crate::text::utf8_len;

verus! {

/// The longest interval text, in bytes, that is read.
pub const MAX_INTERVAL_BYTES: usize = 50;

/// The units in which an interval is counted.
#[derive(Debug, Clone, Copy, PartialEq, Eq, Structural)]
pub enum TimeUnit {
    Microseconds,
    Milliseconds,
    Seconds,
    Minutes,
    Hours,
    Days,
    Weeks,
    Months,
    Years,
}

/// A count of time units.
#[derive(Debug, Clone, Copy, PartialEq, Eq, Structural)]
pub struct TimeInterval {
    value: u64,
    unit: TimeUnit,
}

/// What a `TimeInterval` stands for.
pub struct IntervalView {
    pub value: u64,
    pub unit: TimeUnit,
}

impl View for TimeInterval {
    type V = IntervalView;

    closed spec fn view(&self) -> IntervalView {
        IntervalView { value: self.value, unit: self.unit }
    }
}

/// The plural name under which a unit is written.
pub open spec fn unit_name(unit: TimeUnit) -> Seq<char> {
    match unit {
        TimeUnit::Microseconds => "microseconds"@,
        TimeUnit::Milliseconds => "milliseconds"@,
        TimeUnit::Seconds => "seconds"@,
        TimeUnit::Minutes => "minutes"@,
        TimeUnit::Hours => "hours"@,
        TimeUnit::Days => "days"@,
        TimeUnit::Weeks => "weeks"@,
        TimeUnit::Months => "months"@,
        TimeUnit::Years => "years"@,
    }
}

/// The canonical writing of an interval: the count in base ten, one space,
/// the plural name of the unit.
pub open spec fn interval_literal(interval: IntervalView) -> Seq<char> {
    decimal_digits(interval.value as nat) + seq![' '] + unit_name(interval.unit)
}

/// The interval as it stands in statement text: the keyword `INTERVAL` and
/// the canonical writing between single quotes.
pub open spec fn interval_sql(interval: IntervalView) -> Seq<char> {
    "INTERVAL '"@ + interval_literal(interval) + "'"@
}

/// What may stand in an interval text.
pub open spec fn is_interval_char(c: char) -> bool {
    is_ascii_alphanumeric(c) || c == ' ' || c == '.' || c == '-' || c == '_'
}

/// The leftmost character of `s` that may not stand in an interval text.
pub open spec fn first_foreign_interval_char(s: Seq<char>) -> Option<char>
    decreases s.len(),
{
    if s.len() == 0 {
        None
    } else if !is_interval_char(s[0]) {
        Some(s[0])
    } else {
        first_foreign_interval_char(s.drop_first())
    }
}

/// The length of the run of characters other than the space at the start of
/// `s`.
pub open spec fn word_len(s: Seq<char>) -> nat
    decreases s.len(),
{
    if s.len() == 0 || s[0] == ' ' {
        0
    } else {
        1 + word_len(s.drop_first())
    }
}

/// The words of `s`: its longest runs of characters other than the space,
/// from left to right. The space is the only white space that an interval
/// text may hold, so nothing else separates words.
pub open spec fn words(s: Seq<char>) -> Seq<Seq<char>>
    decreases s.len(),
{
    if s.len() == 0 {
        Seq::empty()
    } else if s[0] == ' ' {
        words(s.drop_first())
    } else {
        proof {
            lemma_word_len_bound(s);
        }
        seq![s.take(word_len(s) as int)] + words(s.skip(word_len(s) as int))
    }
}

/// The unit that the word `w` names, in any mix of upper and lower case.
pub open spec fn unit_of_word(w: Seq<char>) -> Option<TimeUnit> {
    let l = ascii_lowercase(w);
    if l == "microsecond"@ || l == "microseconds"@ || l == "us"@ {
        Some(TimeUnit::Microseconds)
    } else if l == "millisecond"@ || l == "milliseconds"@ || l == "ms"@ {
        Some(TimeUnit::Milliseconds)
    } else if l == "second"@ || l == "seconds"@ || l == "s"@ {
        Some(TimeUnit::Seconds)
    } else if l == "minute"@ || l == "minutes"@ || l == "m"@ {
        Some(TimeUnit::Minutes)
    } else if l == "hour"@ || l == "hours"@ || l == "h"@ {
        Some(TimeUnit::Hours)
    } else if l == "day"@ || l == "days"@ || l == "d"@ {
        Some(TimeUnit::Days)
    } else if l == "week"@ || l == "weeks"@ || l == "w"@ {
        Some(TimeUnit::Weeks)
    } else if l == "month"@ || l == "months"@ {
        Some(TimeUnit::Months)
    } else if l == "year"@ || l == "years"@ || l == "y"@ {
        Some(TimeUnit::Years)
    } else {
        None
    }
}

/// Why a text is no interval.
pub enum IntervalFault {
    /// The text is empty.
    Empty,
    /// The text takes more than 50 bytes.
    TooLong,
    /// The character carried here may not stand in an interval text.
    ForeignChar(char),
    /// The text does not consist of exactly two words.
    Shape,
    /// The first word is no count that fits in 64 bits.
    Count,
    /// The second word, carried here, names no unit.
    UnknownUnit(Seq<char>),
}

/// The rule on the text as a whole that `s` breaks first, if it breaks any.
pub open spec fn interval_text_fault(s: Seq<char>) -> Option<IntervalFault> {
    if s.len() == 0 {
        Some(IntervalFault::Empty)
    } else if utf8_len(s) > MAX_INTERVAL_BYTES {
        Some(IntervalFault::TooLong)
    } else {
        match first_foreign_interval_char(s) {
            Some(c) => Some(IntervalFault::ForeignChar(c)),
            None => None,
        }
    }
}

/// What reading `s` as an interval gives: the interval, or the first rule
/// that `s` breaks. The rules on the text as a whole come first, then the
/// number of words, then the count, then the unit.
pub open spec fn parse_interval(s: Seq<char>) -> Result<IntervalView, IntervalFault> {
    match interval_text_fault(s) {
        Some(fault) => Err(fault),
        None => {
            let w = words(s);
            if w.len() != 2 {
                Err(IntervalFault::Shape)
            } else {
                match decimal_u64(w[0]) {
                    None => Err(IntervalFault::Count),
                    Some(value) => match unit_of_word(w[1]) {
                        None => Err(IntervalFault::UnknownUnit(w[1])),
                        Some(unit) => Ok(IntervalView { value, unit }),
                    },
                }
            }
        }
    }
}

/// The reason reported for a fault.
pub open spec fn interval_fault_reason(fault: IntervalFault) -> Seq<char> {
    match fault {
        IntervalFault::Empty => "Interval cannot be empty"@,
        IntervalFault::TooLong => "Interval string too long"@,
        IntervalFault::ForeignChar(c) => "Invalid character '"@.push(c) + "' in interval"@,
        IntervalFault::Shape => "Interval must have format 'number unit'"@,
        IntervalFault::Count => "Invalid numeric value"@,
        IntervalFault::UnknownUnit(word) => "Unknown time unit: "@ + word,
    }
}

/// What reading `s` yields to the caller: the interval, or the error for the
/// first rule that `s` breaks.
pub open spec fn interval_verdict(s: Seq<char>) -> Result<IntervalView, ValidationErrorView> {
    match parse_interval(s) {
        Ok(interval) => Ok(interval),
        Err(fault) => Err(ValidationErrorView::InvalidInterval(interval_fault_reason(fault))),
    }
}

/// The views of a list of words.
pub open spec fn word_views(v: Seq<Vec<char>>) -> Seq<Seq<char>> {
    v.map_values(|w: Vec<char>| w@)
}

/// A word is never longer than the text that it starts.
pub proof fn lemma_word_len_bound(s: Seq<char>)
    ensures
        word_len(s) <= s.len(),
        s.len() > 0 && s[0] != ' ' ==> word_len(s) >= 1,
    decreases s.len(),
{
    if s.len() > 0 && s[0] != ' ' {
        lemma_word_len_bound(s.drop_first());
    }
}

/// No foreign character is found exactly when every character may stand in an
/// interval text; one that is found occurs in the text and may not stand
/// there.
pub proof fn lemma_first_foreign_interval_char(s: Seq<char>)
    ensures
        first_foreign_interval_char(s) is None <==> (forall|i: int|
            0 <= i < s.len() ==> is_interval_char(#[trigger] s[i])),
        first_foreign_interval_char(s) matches Some(c) ==> !is_interval_char(c) && s.contains(c),
    decreases s.len(),
{
    if s.len() > 0 {
        let rest = s.drop_first();
        lemma_first_foreign_interval_char(rest);
        if is_interval_char(s[0]) {
            if first_foreign_interval_char(rest) is None {
                assert forall|i: int| 0 <= i < s.len() implies is_interval_char(
                    #[trigger] s[i],
                ) by {
                    if i > 0 {
                        assert(s[i] == rest[i - 1]);
                    }
                }
            } else {
                let c = first_foreign_interval_char(rest)->0;
                let k = choose|k: int| 0 <= k < rest.len() && rest[k] == c;
                assert(s[k + 1] == c);
            }
        } else {
            assert(s[0] == s[0]);
        }
    }
}

/// A run without spaces that ends the text, or that a space follows, is a
/// word of its own.
pub proof fn lemma_word_len_of_run(run: Seq<char>, rest: Seq<char>)
    requires
        forall|i: int| 0 <= i < run.len() ==> #[trigger] run[i] != ' ',
        rest.len() == 0 || rest[0] == ' ',
    ensures
        word_len(run + rest) == run.len(),
    decreases run.len(),
{
    if run.len() == 0 {
        assert(run + rest == rest);
    } else {
        let tail = run.drop_first();
        assert forall|i: int| 0 <= i < tail.len() implies #[trigger] tail[i] != ' ' by {
            assert(tail[i] == run[i + 1]);
        }
        lemma_word_len_of_run(tail, rest);
        assert((run + rest).drop_first() == tail + rest);
        assert((run + rest)[0] == run[0]);
    }
}

/// Two runs without spaces, one space between them, are the two words of the
/// text.
pub proof fn lemma_words_of_pair(a: Seq<char>, b: Seq<char>)
    requires
        a.len() > 0,
        b.len() > 0,
        forall|i: int| 0 <= i < a.len() ==> #[trigger] a[i] != ' ',
        forall|i: int| 0 <= i < b.len() ==> #[trigger] b[i] != ' ',
    ensures
        words(a + seq![' '] + b) == seq![a, b],
{
    let s = a + seq![' '] + b;
    let rest = seq![' '] + b;
    assert(s == a + rest);
    lemma_word_len_of_run(a, rest);
    assert(s[0] == a[0]);
    assert(s.take(a.len() as int) == a);
    assert(s.skip(a.len() as int) == rest);
    assert(words(s) == seq![a] + words(rest));
    assert(rest.drop_first() == b);
    assert(words(rest) == words(b));
    let none = Seq::<char>::empty();
    assert(b == b + none);
    lemma_word_len_of_run(b, none);
    assert(b.take(b.len() as int) == b);
    assert(b.skip(b.len() as int) == none);
    assert(words(none) == Seq::<Seq<char>>::empty());
    assert(words(b) == seq![b] + words(none));
    assert(words(b) == seq![b]);
    assert(seq![a] + seq![b] == seq![a, b]);
}

/// The length of a word and its first three characters: enough to tell the
/// names of the units apart.
spec fn head(w: Seq<char>) -> (nat, char, char, char) {
    (w.len(), w[0], w[1], w[2])
}

/// The plural name of a unit is made of lower-case letters, is at most twelve
/// characters long, and names that unit.
pub proof fn lemma_unit_name(unit: TimeUnit)
    ensures
        1 <= unit_name(unit).len() <= 12,
        forall|i: int|
            0 <= i < unit_name(unit).len() ==> 'a' <= #[trigger] unit_name(unit)[i] <= 'z',
        ascii_lowercase(unit_name(unit)) == unit_name(unit),
        unit_of_word(unit_name(unit)) == Some(unit),
{
    reveal_strlit("microsecond");
    reveal_strlit("microseconds");
    reveal_strlit("millisecond");
    reveal_strlit("milliseconds");
    reveal_strlit("second");
    reveal_strlit("seconds");
    reveal_strlit("minute");
    reveal_strlit("minutes");
    reveal_strlit("hour");
    reveal_strlit("hours");
    reveal_strlit("day");
    reveal_strlit("days");
    reveal_strlit("week");
    reveal_strlit("weeks");
    reveal_strlit("month");
    reveal_strlit("months");
    reveal_strlit("year");
    reveal_strlit("years");
    reveal_strlit("us");
    reveal_strlit("ms");
    reveal_strlit("s");
    reveal_strlit("m");
    reveal_strlit("h");
    reveal_strlit("d");
    reveal_strlit("w");
    reveal_strlit("y");
    assert(head("microsecond"@) == (11nat, 'm', 'i', 'c'));
    assert(head("microseconds"@) == (12nat, 'm', 'i', 'c'));
    assert(head("millisecond"@) == (11nat, 'm', 'i', 'l'));
    assert(head("milliseconds"@) == (12nat, 'm', 'i', 'l'));
    assert(head("second"@) == (6nat, 's', 'e', 'c'));
    assert(head("seconds"@) == (7nat, 's', 'e', 'c'));
    assert(head("minute"@) == (6nat, 'm', 'i', 'n'));
    assert(head("minutes"@) == (7nat, 'm', 'i', 'n'));
    assert(head("hour"@) == (4nat, 'h', 'o', 'u'));
    assert(head("hours"@) == (5nat, 'h', 'o', 'u'));
    assert(head("day"@) == (3nat, 'd', 'a', 'y'));
    assert(head("days"@) == (4nat, 'd', 'a', 'y'));
    assert(head("week"@) == (4nat, 'w', 'e', 'e'));
    assert(head("weeks"@) == (5nat, 'w', 'e', 'e'));
    assert(head("month"@) == (5nat, 'm', 'o', 'n'));
    assert(head("months"@) == (6nat, 'm', 'o', 'n'));
    assert(head("year"@) == (4nat, 'y', 'e', 'a'));
    assert(head("years"@) == (5nat, 'y', 'e', 'a'));
    let name = unit_name(unit);
    assert(ascii_lowercase(name) =~= name);
}

/// The canonical writing of an interval is at most 33 characters long and
/// holds digits, one space and lower-case letters, nothing else: no quote,
/// semicolon or comment mark comes into statement text through it.
pub proof fn lemma_interval_literal_is_plain(interval: IntervalView)
    ensures
        1 <= interval_literal(interval).len() <= 33,
        forall|i: int|
            0 <= i < interval_literal(interval).len() ==> {
                let c = #[trigger] interval_literal(interval)[i];
                is_ascii_digit(c) || c == ' ' || ('a' <= c && c <= 'z')
            },
{
    let digits = decimal_digits(interval.value as nat);
    let name = unit_name(interval.unit);
    let s = interval_literal(interval);
    lemma_decimal_round_trip(interval.value as nat);
    lemma_decimal_digits_len_u64(interval.value);
    lemma_unit_name(interval.unit);
    assert forall|i: int| 0 <= i < s.len() implies {
        let c = #[trigger] s[i];
        is_ascii_digit(c) || c == ' ' || ('a' <= c && c <= 'z')
    } by {
        if i < digits.len() {
            assert(s[i] == digits[i]);
            assert(is_ascii_digit(digits[i]));
        } else if i == digits.len() {
        } else {
            assert(s[i] == name[i - digits.len() - 1]);
        }
    }
}

/// Reading the canonical writing of an interval gives the interval back.
pub proof fn lemma_literal_round_trip(interval: IntervalView)
    ensures
        parse_interval(interval_literal(interval)) == Ok::<IntervalView, IntervalFault>(interval),
{
    let digits = decimal_digits(interval.value as nat);
    let name = unit_name(interval.unit);
    let s = interval_literal(interval);
    lemma_decimal_round_trip(interval.value as nat);
    lemma_unit_name(interval.unit);
    lemma_interval_literal_is_plain(interval);
    assert forall|i: int| 0 <= i < s.len() implies is_interval_char(#[trigger] s[i]) && s[i]
        <= '\u{7f}' by {}
    assert(is_ascii_chars(s));
    lemma_utf8_len_of_ascii(s);
    lemma_first_foreign_interval_char(s);
    assert forall|i: int| 0 <= i < digits.len() implies #[trigger] digits[i] != ' ' by {
        assert(is_ascii_digit(digits[i]));
    }
    lemma_words_of_pair(digits, name);
    assert(words(s)[0] == digits);
    assert(words(s)[1] == name);
}

/// The leftmost character of `chars` that may not stand in an interval text.
pub fn find_foreign_interval_char(chars: &Vec<char>) -> (r: Option<char>)
    ensures
        r == first_foreign_interval_char(chars@),
{
    let mut i: usize = 0;
    assert(chars@.skip(0) == chars@);
    while i < chars.len()
        invariant
            i <= chars.len(),
            first_foreign_interval_char(chars@) == first_foreign_interval_char(
                chars@.skip(i as int),
            ),
        decreases chars.len() - i,
    {
        let c = chars[i];
        if !char_is_ascii_alphanumeric(c) && c != ' ' && c != '.' && c != '-' && c != '_' {
            return Some(c);
        }
        proof {
            assert(chars@.skip(i as int).drop_first() == chars@.skip(i as int + 1));
        }
        i += 1;
    }
    None
}

/// Checks the rules on an interval text as a whole: not empty, at most 50
/// bytes, no character that may not stand in an interval.
pub fn validate_interval_string(interval: &str) -> (r: Result<(), ValidationError>)
    ensures
        match r {
            Ok(_) => interval_text_fault(interval@) is None,
            Err(e) => interval_text_fault(interval@) matches Some(fault) && e@
                == ValidationErrorView::InvalidInterval(interval_fault_reason(fault)),
        },
{
    if interval.is_empty() {
        return Err(ValidationError::InvalidInterval(String::from_str("Interval cannot be empty")));
    }
    if byte_len(interval) > MAX_INTERVAL_BYTES {
        return Err(ValidationError::InvalidInterval(String::from_str("Interval string too long")));
    }
    let chars = chars_of(interval);
    match find_foreign_interval_char(&chars) {
        Some(c) => {
            let mut reason = String::from_str("Invalid character '");
            reason.push(c);
            reason.append("' in interval");
            Err(ValidationError::InvalidInterval(reason))
        },
        None => Ok(()),
    }
}

/// The words of `chars`, from left to right.
pub fn split_words(chars: &Vec<char>) -> (r: Vec<Vec<char>>)
    ensures
        word_views(r@) == words(chars@),
{
    let mut out: Vec<Vec<char>> = Vec::new();
    let mut i: usize = 0;
    assert(chars@.skip(0) == chars@);
    assert(word_views(out@) == Seq::<Seq<char>>::empty());
    while i < chars.len()
        invariant
            i <= chars.len(),
            words(chars@) == word_views(out@) + words(chars@.skip(i as int)),
        decreases chars.len() - i,
    {
        let ghost rest = chars@.skip(i as int);
        if chars[i] == ' ' {
            proof {
                assert(rest.drop_first() == chars@.skip(i as int + 1));
            }
            i += 1;
        } else {
            let start = i;
            let mut word: Vec<char> = Vec::new();
            while i < chars.len() && chars[i] != ' '
                invariant
                    start <= i <= chars.len(),
                    rest == chars@.skip(start as int),
                    word@ == chars@.subrange(start as int, i as int),
                    word_len(rest) == (i - start) + word_len(chars@.skip(i as int)),
                decreases chars.len() - i,
            {
                proof {
                    assert(chars@.skip(i as int).drop_first() == chars@.skip(i as int + 1));
                }
                word.push(chars[i]);
                i += 1;
            }
            proof {
                assert(word_len(chars@.skip(i as int)) == 0);
                assert(word@ == rest.take(word_len(rest) as int));
                assert(chars@.skip(i as int) == rest.skip(word_len(rest) as int));
                assert(words(rest) == seq![word@] + words(chars@.skip(i as int)));
                assert(word_views(out@.push(word)) == word_views(out@) + seq![word@]);
            }
            out.push(word);
        }
    }
    assert(words(chars@.skip(i as int)) == Seq::<Seq<char>>::empty());
    out
}

/// The unit that `word` names, in any mix of upper and lower case.
pub fn parse_unit(word: &Vec<char>) -> (r: Option<TimeUnit>)
    ensures
        r == unit_of_word(word@),
{
    let l = to_ascii_lowercase(word);
    if same_text(&l, "microsecond") || same_text(&l, "microseconds") || same_text(&l, "us") {
        Some(TimeUnit::Microseconds)
    } else if same_text(&l, "millisecond") || same_text(&l, "milliseconds")
        || same_text(&l, "ms") {
        Some(TimeUnit::Milliseconds)
    } else if same_text(&l, "second") || same_text(&l, "seconds") || same_text(&l, "s") {
        Some(TimeUnit::Seconds)
    } else if same_text(&l, "minute") || same_text(&l, "minutes") || same_text(&l, "m") {
        Some(TimeUnit::Minutes)
    } else if same_text(&l, "hour") || same_text(&l, "hours") || same_text(&l, "h") {
        Some(TimeUnit::Hours)
    } else if same_text(&l, "day") || same_text(&l, "days") || same_text(&l, "d") {
        Some(TimeUnit::Days)
    } else if same_text(&l, "week") || same_text(&l, "weeks") || same_text(&l, "w") {
        Some(TimeUnit::Weeks)
    } else if same_text(&l, "month") || same_text(&l, "months") {
        Some(TimeUnit::Months)
    } else if same_text(&l, "year") || same_text(&l, "years") || same_text(&l, "y") {
        Some(TimeUnit::Years)
    } else {
        None
    }
}

/// The plural name under which `unit` is written.
pub fn unit_str(unit: TimeUnit) -> (r: &'static str)
    ensures
        r@ == unit_name(unit),
{
    match unit {
        TimeUnit::Microseconds => "microseconds",
        TimeUnit::Milliseconds => "milliseconds",
        TimeUnit::Seconds => "seconds",
        TimeUnit::Minutes => "minutes",
        TimeUnit::Hours => "hours",
        TimeUnit::Days => "days",
        TimeUnit::Weeks => "weeks",
        TimeUnit::Months => "months",
        TimeUnit::Years => "years",
    }
}

impl TimeInterval {
    /// The interval of `value` units.
    pub fn new(value: u64, unit: TimeUnit) -> (r: Self)
        ensures
            r@ == (IntervalView { value, unit }),
    {
        Self { value, unit }
    }

    /// Appends the canonical writing of the interval to `out`.
    fn push_literal(&self, out: &mut String)
        ensures
            final(out)@ == old(out)@ + interval_literal(self@),
    {
        push_decimal(out, self.value);
        out.push(' ');
        out.append(unit_str(self.unit));
        assert(out@ == old(out)@ + interval_literal(self@));
    }

    /// The canonical writing of the interval, as the database reads it.
    pub fn to_postgres_interval(&self) -> (r: String)
        ensures
            r@ == interval_literal(self@),
    {
        let mut out = String::new();
        self.push_literal(&mut out);
        out
    }

    /// The interval as it stands in statement text.
    pub fn to_sql(&self) -> (r: String)
        ensures
            r@ == interval_sql(self@),
    {
        let mut out = String::from_str("INTERVAL '");
        self.push_literal(&mut out);
        out.append("'");
        out
    }

    /// Reads an interval from a text of the form `<count> <unit>`.
    pub fn from_string(interval: &str) -> (r: Result<Self, ValidationError>)
        ensures
            match r {
                Ok(t) => interval_verdict(interval@) == Ok::<IntervalView, ValidationErrorView>(
                    t@,
                ),
                Err(e) => interval_verdict(interval@) == Err::<IntervalView, ValidationErrorView>(
                    e@,
                ),
            },
    {
        match validate_interval_string(interval) {
            Err(e) => {
                return Err(e);
            },
            Ok(_) => {},
        }
        let chars = chars_of(interval);
        let parts = split_words(&chars);
        if parts.len() != 2 {
            return Err(
                ValidationError::InvalidInterval(
                    String::from_str("Interval must have format 'number unit'"),
                ),
            );
        }
        proof {
            assert(word_views(parts@)[0] == parts@[0]@);
            assert(word_views(parts@)[1] == parts@[1]@);
        }
        let value = match parse_decimal(&parts[0]) {
            Some(value) => value,
            None => {
                return Err(
                    ValidationError::InvalidInterval(String::from_str("Invalid numeric value")),
                );
            },
        };
        let unit = match parse_unit(&parts[1]) {
            Some(unit) => unit,
            None => {
                let mut reason = String::from_str("Unknown time unit: ");
                push_chars(&mut reason, &parts[1]);
                return Err(ValidationError::InvalidInterval(reason));
            },
        };
        Ok(TimeInterval::new(value, unit))
    }
}

} // verus!
