//! Dates as the database hands them out, and their text.

use vstd::prelude::*;
use vstd::string::*;
use vstd::utf8::*;

use crate::codec::utf8_text;
use crate::decimal::{decimal, decimal_chars, is_decimal_of, lemma_decimal_is_base_ten};

verus! {

/// The value of a date column: a calendar date with time of day and
/// microseconds, a byte string, or any other kind of value.
pub enum DateValue {
    Date(u16, u8, u8, u8, u8, u8, u32),
    Bytes(Vec<u8>),
    Other,
}

/// Why a value has no date text.
#[derive(Debug, Clone, Copy, PartialEq, Eq, Structural)]
pub enum DateError {
    InvalidUtf8,
    NotADate,
}

impl DateError {
    /// The message that serialisation fails with.
    pub fn message(&self) -> (m: &'static str)
        ensures
            *self == DateError::InvalidUtf8 ==> m@ == "UTF-8 error in date"@,
            *self == DateError::NotADate ==> m@ == "Value not a date"@,
    {
        match self {
            DateError::InvalidUtf8 => "UTF-8 error in date",
            DateError::NotADate => "Value not a date",
        }
    }
}

/// `year-month-day hour:minutes:seconds.micros`, each number in decimal
/// without padding.
pub open spec fn date_chars(
    year: u16,
    month: u8,
    day: u8,
    hour: u8,
    minutes: u8,
    seconds: u8,
    micros: u32,
) -> Seq<char> {
    decimal_chars(year as nat) + seq!['-'] + decimal_chars(month as nat) + seq!['-']
        + decimal_chars(day as nat) + seq![' '] + decimal_chars(hour as nat) + seq![':']
        + decimal_chars(minutes as nat) + seq![':'] + decimal_chars(seconds as nat) + seq!['.']
        + decimal_chars(micros as nat)
}

/// The text of a date is its seven fields, each as its own base-10 text and
/// unchanged, joined by `-`, `-`, ` `, `:`, `:` and `.`: year, month, day,
/// hour, minutes, seconds, microseconds. The result gives the positions of
/// the six separators.
pub proof fn lemma_date_fields(
    year: u16,
    month: u8,
    day: u8,
    hour: u8,
    minutes: u8,
    seconds: u8,
    micros: u32,
) -> (at: (int, int, int, int, int, int))
    ensures
        ({
            let s = date_chars(year, month, day, hour, minutes, seconds, micros);
            &&& 0 < at.0 < at.1 < at.2 < at.3 < at.4 < at.5 < s.len() - 1
            &&& s[at.0] == '-' && s[at.1] == '-' && s[at.2] == ' '
            &&& s[at.3] == ':' && s[at.4] == ':' && s[at.5] == '.'
            &&& is_decimal_of(s.subrange(0, at.0), year as nat)
            &&& is_decimal_of(s.subrange(at.0 + 1, at.1), month as nat)
            &&& is_decimal_of(s.subrange(at.1 + 1, at.2), day as nat)
            &&& is_decimal_of(s.subrange(at.2 + 1, at.3), hour as nat)
            &&& is_decimal_of(s.subrange(at.3 + 1, at.4), minutes as nat)
            &&& is_decimal_of(s.subrange(at.4 + 1, at.5), seconds as nat)
            &&& is_decimal_of(s.subrange(at.5 + 1, s.len() as int), micros as nat)
        }),
{
    lemma_decimal_is_base_ten(year as nat);
    lemma_decimal_is_base_ten(month as nat);
    lemma_decimal_is_base_ten(day as nat);
    lemma_decimal_is_base_ten(hour as nat);
    lemma_decimal_is_base_ten(minutes as nat);
    lemma_decimal_is_base_ten(seconds as nat);
    lemma_decimal_is_base_ten(micros as nat);
    let a = decimal_chars(year as nat);
    let b = decimal_chars(month as nat);
    let c = decimal_chars(day as nat);
    let d = decimal_chars(hour as nat);
    let e = decimal_chars(minutes as nat);
    let f = decimal_chars(seconds as nat);
    let g = decimal_chars(micros as nat);
    let s = date_chars(year, month, day, hour, minutes, seconds, micros);
    let i0: int = a.len() as int;
    let i1: int = i0 + 1 + b.len();
    let i2: int = i1 + 1 + c.len();
    let i3: int = i2 + 1 + d.len();
    let i4: int = i3 + 1 + e.len();
    let i5: int = i4 + 1 + f.len();
    assert(s.len() == i5 + 1 + g.len());
    assert(s[i0] == '-' && s[i1] == '-' && s[i2] == ' ');
    assert(s[i3] == ':' && s[i4] == ':' && s[i5] == '.');
    assert(s.subrange(0, i0) =~= a);
    assert(s.subrange(i0 + 1, i1) =~= b);
    assert(s.subrange(i1 + 1, i2) =~= c);
    assert(s.subrange(i2 + 1, i3) =~= d);
    assert(s.subrange(i3 + 1, i4) =~= e);
    assert(s.subrange(i4 + 1, i5) =~= f);
    assert(s.subrange(i5 + 1, s.len() as int) =~= g);
    (i0, i1, i2, i3, i4, i5)
}

/// The text of a date value: a date is rendered by `date_chars`, a byte
/// string is taken as UTF-8 text, and anything else has none.
pub open spec fn date_text_spec(v: DateValue) -> Result<Seq<char>, DateError> {
    match v {
        DateValue::Date(y, mo, d, h, mi, s, us) => Ok(date_chars(y, mo, d, h, mi, s, us)),
        DateValue::Bytes(b) => if valid_utf8(b@) {
            Ok(decode_utf8(b@))
        } else {
            Err(DateError::InvalidUtf8)
        },
        DateValue::Other => Err(DateError::NotADate),
    }
}

fn push_separator(s: &mut String, c: char)
    requires
        c == '-' || c == ' ' || c == ':' || c == '.',
    ensures
        final(s)@ == old(s)@ + seq![c],
{
    if c == '-' {
        proof { reveal_strlit("-"); }
        s.append("-");
    } else if c == ' ' {
        proof { reveal_strlit(" "); }
        s.append(" ");
    } else if c == ':' {
        proof { reveal_strlit(":"); }
        s.append(":");
    } else {
        proof { reveal_strlit("."); }
        s.append(".");
    }
}

/// The text that a date column is serialised as.
pub fn date_text(x: &DateValue) -> (res: Result<String, DateError>)
    ensures
        match res {
            Ok(s) => date_text_spec(*x) == Ok::<Seq<char>, DateError>(s@),
            Err(e) => date_text_spec(*x) == Err::<Seq<char>, DateError>(e),
        },
{
    match x {
        DateValue::Date(year, month, day, hour, minutes, seconds, micros) => {
            let mut s = decimal(*year as u64);
            push_separator(&mut s, '-');
            s.append(decimal(*month as u64).as_str());
            push_separator(&mut s, '-');
            s.append(decimal(*day as u64).as_str());
            push_separator(&mut s, ' ');
            s.append(decimal(*hour as u64).as_str());
            push_separator(&mut s, ':');
            s.append(decimal(*minutes as u64).as_str());
            push_separator(&mut s, ':');
            s.append(decimal(*seconds as u64).as_str());
            push_separator(&mut s, '.');
            s.append(decimal(*micros as u64).as_str());
            Ok(s)
        },
        DateValue::Bytes(bytes) => match utf8_text(bytes.as_slice()) {
            Some(text) => Ok(text.to_owned()),
            None => Err(DateError::InvalidUtf8),
        },
        DateValue::Other => Err(DateError::NotADate),
    }
}

/// A date column, as the queries of threads and posts return it.
pub struct SkyDate(pub DateValue);

impl SkyDate {
    /// The text that the date is serialised as.
    pub fn text(&self) -> (res: Result<String, DateError>)
        ensures
            match res {
                Ok(s) => date_text_spec(self.0) == Ok::<Seq<char>, DateError>(s@),
                Err(e) => date_text_spec(self.0) == Err::<Seq<char>, DateError>(e),
            },
    {
        date_text(&self.0)
    }
}

} // verus!
