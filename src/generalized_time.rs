use crate::civil::{CivilTime, UtcDateTime};
use crate::digits::{
    all_digits, all_digits_in, ascii_chars, ascii_string, four_digit_bytes, four_digit_value,
    four_digits, is_ascii_bytes, lemma_four_digits_round_trip, lemma_two_digits_round_trip,
    push_four_digits, push_two_digits, two_digit_bytes, two_digit_value, two_digits,
};
use crate::error::DecodeError;
use vstd::prelude::*;

verus! {

/// `YYYYMMDDHHMMSS`, then optionally `.` and one or more fraction digits,
/// then `Z`.
pub open spec fn generalized_time_shape(s: Seq<u8>) -> bool {
    &&& s.len() >= 15
    &&& all_digits(s, 0, 14)
    &&& s[s.len() - 1] == 0x5a
    &&& (s.len() == 15 || (s.len() >= 17 && s[14] == 0x2e && all_digits(s, 15, s.len() - 1)))
}

/// The whole-second fields written in GeneralizedTime content of the right
/// shape; a fraction of a second is dropped.
pub open spec fn generalized_time_fields(s: Seq<u8>) -> CivilTime {
    CivilTime {
        year: four_digits(s, 0),
        month: two_digits(s, 4),
        day: two_digits(s, 6),
        hour: two_digits(s, 8),
        minute: two_digits(s, 10),
        second: two_digits(s, 12),
    }
}

/// Content that decodes as a GeneralizedTime.
pub open spec fn is_generalized_time(s: Seq<u8>) -> bool {
    generalized_time_shape(s) && generalized_time_fields(s).is_valid()
}

/// The canonical GeneralizedTime content of a timestamp: no fraction.
pub open spec fn generalized_time_bytes(t: CivilTime) -> Seq<u8> {
    four_digit_bytes(t.year) + two_digit_bytes(t.month) + two_digit_bytes(t.day)
        + two_digit_bytes(t.hour) + two_digit_bytes(t.minute) + two_digit_bytes(t.second)
        + seq![0x5au8]
}

/// A timestamp carried in the GeneralizedTime form, with a four-digit year.
#[derive(Clone, Copy, Debug, PartialEq, Eq, Structural)]
pub struct GeneralizedTime(UtcDateTime);

impl View for GeneralizedTime {
    type V = CivilTime;

    closed spec fn view(&self) -> CivilTime {
        self.0@
    }
}

impl GeneralizedTime {
    #[verifier::type_invariant]
    pub(crate) open spec fn inv(&self) -> bool {
        0 <= self@.year <= 9999
    }

    /// Decodes the content of a GeneralizedTime primitive. Any number of
    /// fraction digits is accepted; the fraction is not kept.
    pub fn from_primitive(content: &[u8]) -> (r: Result<GeneralizedTime, DecodeError>)
        ensures
            r is Ok <==> is_generalized_time(content@),
            r matches Ok(t) ==> t@ == generalized_time_fields(content@),
            r matches Err(e) ==> e == DecodeError::Malformed,
    {
        let n: usize = content.len();
        if n < 15 || content[n - 1] != 0x5a {
            return Err(DecodeError::Malformed);
        }
        if !all_digits_in(content, 0, 14) {
            return Err(DecodeError::Malformed);
        }
        if n > 15 {
            if n < 17 || content[14] != 0x2e || !all_digits_in(content, 15, n - 1) {
                return Err(DecodeError::Malformed);
            }
        }
        let year = four_digit_value(content, 0);
        let month = two_digit_value(content, 4);
        let day = two_digit_value(content, 6);
        let hour = two_digit_value(content, 8);
        let minute = two_digit_value(content, 10);
        let second = two_digit_value(content, 12);
        match UtcDateTime::new(year as i32, month, day, hour, minute, second) {
            Some(t) => Ok(GeneralizedTime(t)),
            None => Err(DecodeError::Malformed),
        }
    }

    /// The timestamp.
    pub fn instant(&self) -> (r: &UtcDateTime)
        ensures
            r@ == self@,
    {
        &self.0
    }

    /// The canonical content bytes, `YYYYMMDDHHMMSSZ`.
    pub fn encoded_content(&self) -> (r: Vec<u8>)
        ensures
            r@ == generalized_time_bytes(self@),
            r@.len() == 15,
            is_ascii_bytes(r@),
    {
        proof {
            use_type_invariant(&*self);
            use_type_invariant(&self.0);
        }
        let t = &self.0;
        let mut out: Vec<u8> = Vec::new();
        push_four_digits(&mut out, t.year() as u32);
        push_two_digits(&mut out, t.month());
        push_two_digits(&mut out, t.day());
        push_two_digits(&mut out, t.hour());
        push_two_digits(&mut out, t.minute());
        push_two_digits(&mut out, t.second());
        out.push(0x5a);
        assert(out@ =~= generalized_time_bytes(self@));
        out
    }

    /// The length of the content: always 15.
    pub fn encoded_len(&self) -> (r: usize)
        ensures
            r == generalized_time_bytes(self@).len(),
            r == 15,
    {
        15
    }

    /// The content as text.
    pub fn to_string(&self) -> (r: String)
        ensures
            r@ == ascii_chars(generalized_time_bytes(self@)),
    {
        ascii_string(self.encoded_content())
    }
}

/// Decoding then encoding valid GeneralizedTime content gives its first
/// fourteen digits and `Z`: the fraction of a second, if any, is dropped.
pub proof fn lemma_generalized_time_canonical(s: Seq<u8>)
    requires
        is_generalized_time(s),
    ensures
        generalized_time_bytes(generalized_time_fields(s)) == s.subrange(0, 14).push(0x5au8),
{
    lemma_four_digits_round_trip(s, 0);
    lemma_two_digits_round_trip(s, 4);
    lemma_two_digits_round_trip(s, 6);
    lemma_two_digits_round_trip(s, 8);
    lemma_two_digits_round_trip(s, 10);
    lemma_two_digits_round_trip(s, 12);
    assert(generalized_time_bytes(generalized_time_fields(s)) =~= s.subrange(0, 14).push(0x5au8));
}

/// Decoding then encoding valid GeneralizedTime content without a fraction
/// gives the same bytes.
pub proof fn lemma_generalized_time_round_trip(s: Seq<u8>)
    requires
        is_generalized_time(s),
        s.len() == 15,
    ensures
        generalized_time_bytes(generalized_time_fields(s)) == s,
{
    lemma_generalized_time_canonical(s);
    assert(s.subrange(0, 14).push(0x5au8) =~= s);
}

/// GeneralizedTime content is at least fifteen bytes.
pub proof fn lemma_generalized_time_length(s: Seq<u8>)
    requires
        s.len() < 15,
    ensures
        !is_generalized_time(s),
{
}

} // verus!
