//! Enumerations that cross the embedder boundary as integer codes.
use vstd::prelude::*;

verus! {

/// An enumeration whose values are written across the embedder boundary as
/// integer codes. Every value has a code; a code that stands for no value is
/// handed back unchanged by [`NativeEnum::from_raw`] instead of being forced
/// into a value.
pub trait NativeEnum: Sized {
    /// The code that this value is written as.
    spec fn code(self) -> u32;

    /// The value that a code stands for, if any.
    spec fn of_code(raw: u32) -> Option<Self>;

    /// Writes the value as its code.
    fn to_raw(self) -> (r: u32)
        ensures
            r == self.code(),
    ;

    /// Reads a code; an unknown code comes back as the error.
    fn from_raw(raw: u32) -> (r: Result<Self, u32>)
        ensures
            match Self::of_code(raw) {
                Some(v) => r == Ok::<Self, u32>(v),
                None => r == Err::<Self, u32>(raw),
            },
    ;

    /// Writing a value and reading it back gives the same value.
    proof fn lemma_round_trip(self)
        ensures
            Self::of_code(self.code()) == Some(self),
    ;

    /// A code that reads as a value is exactly the code of that value.
    proof fn lemma_code_of_decoded(raw: u32)
        ensures
            Self::of_code(raw) matches Some(v) ==> v.code() == raw,
    ;
}

/// For every enumeration of the interface, writing a value and reading it
/// back gives the same value, and a code that reads as a value is the code
/// of that value; any other code reads as an error.
pub proof fn lemma_native_enum_round_trip<E: NativeEnum>(value: E, raw: u32)
    ensures
        E::of_code(value.code()) == Some(value),
        E::of_code(raw) matches Some(v) ==> v.code() == raw,
{
    value.lemma_round_trip();
    E::lemma_code_of_decoded(raw);
}

} // verus!
