use crate::civil::{CivilTime, UtcDateTime};
use crate::error::DecodeError;
use crate::generalized_time::{
    generalized_time_bytes, generalized_time_fields, is_generalized_time, GeneralizedTime,
};
use crate::utc_time::{is_utc_time, utc_time_bytes, utc_time_fields, utc_time_shape, UtcTime};
use vstd::prelude::*;

verus! {

/// The class of an ASN.1 tag.
#[derive(Clone, Copy, Debug, PartialEq, Eq, Structural)]
pub enum TagClass {
    Universal,
    Application,
    ContextSpecific,
    Private,
}

/// An ASN.1 tag: its class and number.
#[derive(Clone, Copy, Debug, PartialEq, Eq, Structural)]
pub struct TagId {
    pub class: TagClass,
    pub number: u32,
}

/// The universal tag number of UTCTime.
pub const UTC_TIME_NUMBER: u32 = 23;

/// The universal tag number of GeneralizedTime.
pub const GENERALIZED_TIME_NUMBER: u32 = 24;

pub open spec fn utc_time_tag() -> TagId {
    TagId { class: TagClass::Universal, number: 23 }
}

pub open spec fn generalized_time_tag() -> TagId {
    TagId { class: TagClass::Universal, number: 24 }
}

impl TagId {
    /// The tag of UTCTime.
    pub fn utc_time() -> (r: TagId)
        ensures
            r == utc_time_tag(),
    {
        TagId { class: TagClass::Universal, number: UTC_TIME_NUMBER }
    }

    /// The tag of GeneralizedTime.
    pub fn generalized_time() -> (r: TagId)
        ensures
            r == generalized_time_tag(),
    {
        TagId { class: TagClass::Universal, number: GENERALIZED_TIME_NUMBER }
    }
}

/// Content that decodes under `tag`: the tag chooses the grammar.
pub open spec fn is_time_content(tag: TagId, s: Seq<u8>) -> bool {
    if tag == utc_time_tag() {
        is_utc_time(s)
    } else if tag == generalized_time_tag() {
        is_generalized_time(s)
    } else {
        false
    }
}

/// A certificate timestamp in the form in which it arrived.
#[derive(Clone, Copy, Debug, PartialEq, Eq, Structural)]
pub enum Time {
    UtcTime(UtcTime),
    GeneralTime(GeneralizedTime),
}

impl View for Time {
    type V = CivilTime;

    open spec fn view(&self) -> CivilTime {
        match self {
            Time::UtcTime(t) => t@,
            Time::GeneralTime(t) => t@,
        }
    }
}

/// The content bytes that a time value encodes to, in its own form.
pub open spec fn time_bytes(t: Time) -> Seq<u8> {
    match t {
        Time::UtcTime(u) => utc_time_bytes(u@),
        Time::GeneralTime(g) => generalized_time_bytes(g@),
    }
}

impl Time {
    /// The current time, in the UTCTime form.
    pub fn now() -> (r: Time)
        ensures
            r is UtcTime,
            r@.is_valid(),
    {
        Time::UtcTime(UtcTime::now())
    }

    /// Decodes the content of a primitive with the decoder that its tag
    /// names; any other tag is refused.
    pub fn from_primitive(tag: TagId, content: &[u8]) -> (r: Result<Time, DecodeError>)
        ensures
            r is Ok <==> is_time_content(tag, content@),
            r matches Ok(t) ==> (tag == utc_time_tag() && t is UtcTime && t@ == utc_time_fields(
                content@,
            )) || (tag == generalized_time_tag() && t is GeneralTime && t@
                == generalized_time_fields(content@)),
            r matches Err(e) ==> e == DecodeError::Malformed,
    {
        if tag == TagId::utc_time() {
            match UtcTime::from_primitive(content) {
                Ok(t) => Ok(Time::UtcTime(t)),
                Err(e) => Err(e),
            }
        } else if tag == TagId::generalized_time() {
            match GeneralizedTime::from_primitive(content) {
                Ok(t) => Ok(Time::GeneralTime(t)),
                Err(e) => Err(e),
            }
        } else {
            Err(DecodeError::Malformed)
        }
    }

    /// The tag of the form the value is in.
    pub fn tag(&self) -> (r: TagId)
        ensures
            r == (match self {
                Time::UtcTime(_) => utc_time_tag(),
                Time::GeneralTime(_) => generalized_time_tag(),
            }),
    {
        match self {
            Time::UtcTime(_) => TagId::utc_time(),
            Time::GeneralTime(_) => TagId::generalized_time(),
        }
    }

    /// The canonical content bytes, in the form the value is in.
    pub fn encode_ref(&self) -> (r: Vec<u8>)
        ensures
            r@ == time_bytes(*self),
    {
        match self {
            Time::UtcTime(t) => t.encoded_content(),
            Time::GeneralTime(t) => t.encoded_content(),
        }
    }

    /// The timestamp, whichever the form.
    pub fn instant(&self) -> (r: &UtcDateTime)
        ensures
            r@ == self@,
    {
        match self {
            Time::UtcTime(t) => t.instant(),
            Time::GeneralTime(t) => t.instant(),
        }
    }
}

impl From<UtcDateTime> for Time {
    fn from(t: UtcDateTime) -> (r: Time) {
        Time::UtcTime(UtcTime::from_instant(t))
    }
}

impl vstd::std_specs::convert::FromSpecImpl<UtcDateTime> for Time {
    open spec fn obeys_from_spec() -> bool {
        true
    }

    open spec fn from_spec(t: UtcDateTime) -> Time {
        Time::UtcTime(UtcTime::spec_from_instant(t))
    }
}

/// A timestamp converted to a `Time` is in the UTCTime form and keeps its
/// value.
pub proof fn lemma_from_instant(t: UtcDateTime)
    ensures
        <Time as vstd::std_specs::convert::FromSpec<UtcDateTime>>::from_spec(t) is UtcTime,
        <Time as vstd::std_specs::convert::FromSpec<UtcDateTime>>::from_spec(t)@ == t@,
{
    UtcTime::lemma_from_instant_view(t);
}

/// Content not ending in `Z` is refused under every tag.
pub proof fn lemma_zulu_required(tag: TagId, s: Seq<u8>)
    requires
        s.len() == 0 || s[s.len() - 1] != 0x5a,
    ensures
        !is_time_content(tag, s),
{
}

/// Under the GeneralizedTime tag, content in the UTCTime shape is held to
/// the GeneralizedTime grammar, and refused; under the UTCTime tag it is
/// held to the UTCTime grammar.
pub proof fn lemma_tag_selects_grammar(s: Seq<u8>)
    requires
        utc_time_shape(s),
    ensures
        !is_time_content(generalized_time_tag(), s),
        is_time_content(utc_time_tag(), s) == is_utc_time(s),
{
}

} // verus!
