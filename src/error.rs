use vstd::prelude::*;

verus! {

/// The failure of a time decoder: the content does not follow the grammar of
/// the time type, names a day or a time of day that does not exist, or the
/// tag names no time type.
#[derive(Clone, Copy, Debug, PartialEq, Eq, Structural)]
pub enum DecodeError {
    Malformed,
}

} // verus!
