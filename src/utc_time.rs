use crate::civil::{CivilTime, UtcDateTime};
use crate::digits::{
    all_digits, all_digits_in, ascii_chars, ascii_string, is_ascii_bytes, is_digit,
    lemma_two_digits_round_trip, push_two_digits, two_digit_bytes, two_digit_value, two_digits,
};
use crate::error::DecodeError;
use vstd::prelude::*;

verus! {

/// The year of a two-digit UTCTime year field: 50 to 99 are 1950 to 1999,
/// 00 to 49 are 2000 to 2049.
pub open spec fn utc_year(yy: int) -> int {
    if yy >= 50 {
        1900 + yy
    } else {
        2000 + yy
    }
}

/// `YYMMDDHHMMSSZ`: twelve digits and a `Z`.
pub open spec fn utc_time_shape(s: Seq<u8>) -> bool {
    s.len() == 13 && all_digits(s, 0, 12) && s[12] == 0x5a
}

/// The fields written in UTCTime content of the right shape.
pub open spec fn utc_time_fields(s: Seq<u8>) -> CivilTime {
    CivilTime {
        year: utc_year(two_digits(s, 0)),
        month: two_digits(s, 2),
        day: two_digits(s, 4),
        hour: two_digits(s, 6),
        minute: two_digits(s, 8),
        second: two_digits(s, 10),
    }
}

/// Content that decodes as a UTCTime.
pub open spec fn is_utc_time(s: Seq<u8>) -> bool {
    utc_time_shape(s) && utc_time_fields(s).is_valid()
}

/// The canonical UTCTime content of a timestamp: the year modulo 100.
pub open spec fn utc_time_bytes(t: CivilTime) -> Seq<u8> {
    two_digit_bytes(t.year % 100) + two_digit_bytes(t.month) + two_digit_bytes(t.day)
        + two_digit_bytes(t.hour) + two_digit_bytes(t.minute) + two_digit_bytes(t.second)
        + seq![0x5au8]
}

/// The last two decimal digits of a year, counted upwards from a multiple
/// of 100 (so the year -1 gives 99).
fn year_mod_100(year: i32) -> (r: u32)
    ensures
        r == year as int % 100,
        r < 100,
{
    let m: i32 = year % 100;
    if m < 0 {
        (m + 100) as u32
    } else {
        m as u32
    }
}

/// A timestamp carried in the UTCTime form.
#[derive(Clone, Copy, Debug, PartialEq, Eq, Structural)]
pub struct UtcTime(UtcDateTime);

impl View for UtcTime {
    type V = CivilTime;

    closed spec fn view(&self) -> CivilTime {
        self.0@
    }
}

impl UtcTime {
    /// The current time, to the second.
    pub fn now() -> (r: UtcTime)
        ensures
            r@.is_valid(),
    {
        UtcTime(UtcDateTime::now())
    }

    /// The UTCTime value that carries `t`.
    pub closed spec fn spec_from_instant(t: UtcDateTime) -> UtcTime {
        UtcTime(t)
    }

    /// The value carried is the one given.
    pub proof fn lemma_from_instant_view(t: UtcDateTime)
        ensures
            Self::spec_from_instant(t)@ == t@,
    {
    }

    /// A timestamp to be written as a UTCTime.
    pub fn from_instant(t: UtcDateTime) -> (r: UtcTime)
        ensures
            r == Self::spec_from_instant(t),
            r@ == t@,
    {
        UtcTime(t)
    }

    /// Decodes the content of a UTCTime primitive.
    pub fn from_primitive(content: &[u8]) -> (r: Result<UtcTime, DecodeError>)
        ensures
            r is Ok <==> is_utc_time(content@),
            r matches Ok(t) ==> t@ == utc_time_fields(content@),
            r matches Err(e) ==> e == DecodeError::Malformed,
    {
        if content.len() != 13 {
            return Err(DecodeError::Malformed);
        }
        if !all_digits_in(content, 0, 12) || content[12] != 0x5a {
            return Err(DecodeError::Malformed);
        }
        let yy = two_digit_value(content, 0);
        let year: i32 = if yy >= 50 {
            1900 + yy as i32
        } else {
            2000 + yy as i32
        };
        let month = two_digit_value(content, 2);
        let day = two_digit_value(content, 4);
        let hour = two_digit_value(content, 6);
        let minute = two_digit_value(content, 8);
        let second = two_digit_value(content, 10);
        match UtcDateTime::new(year, month, day, hour, minute, second) {
            Some(t) => Ok(UtcTime(t)),
            None => Err(DecodeError::Malformed),
        }
    }

    /// The timestamp.
    pub fn instant(&self) -> (r: &UtcDateTime)
        ensures
            r@ == self@,
    {
        &self.0
    }

    /// The canonical content bytes, `YYMMDDHHMMSSZ`.
    pub fn encoded_content(&self) -> (r: Vec<u8>)
        ensures
            r@ == utc_time_bytes(self@),
            r@.len() == 13,
            is_ascii_bytes(r@),
    {
        proof {
            use_type_invariant(&self.0);
        }
        let t = &self.0;
        let mut out: Vec<u8> = Vec::new();
        push_two_digits(&mut out, year_mod_100(t.year()));
        push_two_digits(&mut out, t.month());
        push_two_digits(&mut out, t.day());
        push_two_digits(&mut out, t.hour());
        push_two_digits(&mut out, t.minute());
        push_two_digits(&mut out, t.second());
        out.push(0x5a);
        assert(out@ =~= utc_time_bytes(self@));
        out
    }

    /// The length of the content: always 13.
    pub fn encoded_len(&self) -> (r: usize)
        ensures
            r == utc_time_bytes(self@).len(),
            r == 13,
    {
        13
    }

    /// The content as text.
    pub fn to_string(&self) -> (r: String)
        ensures
            r@ == ascii_chars(utc_time_bytes(self@)),
    {
        ascii_string(self.encoded_content())
    }
}

/// Decoding then encoding valid UTCTime content gives the same bytes.
pub proof fn lemma_utc_time_round_trip(s: Seq<u8>)
    requires
        is_utc_time(s),
    ensures
        utc_time_bytes(utc_time_fields(s)) == s,
{
    let t = utc_time_fields(s);
    lemma_two_digits_round_trip(s, 0);
    lemma_two_digits_round_trip(s, 2);
    lemma_two_digits_round_trip(s, 4);
    lemma_two_digits_round_trip(s, 6);
    lemma_two_digits_round_trip(s, 8);
    lemma_two_digits_round_trip(s, 10);
    assert(is_digit(s[0]) && is_digit(s[1]));
    assert(t.year % 100 == two_digits(s, 0));
    assert(utc_time_bytes(t) =~= s);
}

/// UTCTime content is exactly thirteen bytes.
pub proof fn lemma_utc_time_length(s: Seq<u8>)
    requires
        s.len() != 13,
    ensures
        !is_utc_time(s),
{
}

} // verus!
