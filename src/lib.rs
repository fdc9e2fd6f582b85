//! A builder for `String` values, fed with text fragments and UTF-8 byte slices.

pub mod laws;

use std::str::Utf8Error;
use vstd::prelude::*;
use vstd::utf8::{decode_utf8, valid_utf8};

verus! {

/// `std::str::Utf8Error`, carried through unopened as the error of a failed byte append.
#[verifier::external_type_specification]
#[verifier::external_body]
pub struct ExUtf8Error(Utf8Error);

/// Relies on `String::with_capacity`: the new string is empty, whatever capacity it was given.
pub assume_specification[ String::with_capacity ](capacity: usize) -> (r: String)
    ensures
        r@ == Seq::<char>::empty(),
;

/// Relies on `String::push_str`: the characters of `string` are added at the end, in order.
pub assume_specification[ String::push_str ](s: &mut String, string: &str)
    ensures
        final(s)@ == old(s)@ + string@,
;

/// Relies on `std::str::from_utf8`: it succeeds exactly on well-formed UTF-8, and then
/// yields the characters that the bytes encode.
pub assume_specification[ std::str::from_utf8 ](v: &[u8]) -> (r: Result<&str, Utf8Error>)
    ensures
        r is Ok <==> valid_utf8(v@),
        r matches Ok(s) ==> s@ == decode_utf8(v@),
;

/// Ergonomic construction of a `String` from text fragments and UTF-8 encoded bytes.
///
/// Every method consumes the builder and hands it back, so calls chain.
/// The buffer only ever holds whole characters: bytes are decoded before they are added.
pub struct StringBuilder(String);

impl View for StringBuilder {
    type V = Seq<char>;

    /// The characters accumulated so far.
    closed spec fn view(&self) -> Seq<char> {
        self.0@
    }
}

impl StringBuilder {
    /// An empty builder, with the default capacity.
    pub fn new() -> (r: Self)
        ensures
            r@ == Seq::<char>::empty(),
    {
        StringBuilder(String::new())
    }

    /// An empty builder whose buffer is allocated for at least `size` bytes up front.
    ///
    /// The capacity is a hint only: the content is the same as that of `new()`.
    pub fn with_capacity(size: usize) -> (r: Self)
        ensures
            r@ == Seq::<char>::empty(),
    {
        StringBuilder(String::with_capacity(size))
    }

    /// A builder that starts out holding a copy of `from`.
    pub fn from(from: &str) -> (r: Self)
        ensures
            r@ == from@,
    {
        broadcast use vstd::string::to_string_from_display_ensures_for_str;

        StringBuilder(from.to_string())
    }

    /// Appends the characters of `from`, in order, after those already held.
    pub fn append(self, from: &str) -> (r: Self)
        ensures
            r@ == self@ + from@,
    {
        let mut b = self;
        b.0.push_str(from);
        b
    }

    /// Appends the text that `from` encodes in UTF-8.
    ///
    /// `from` must be well-formed UTF-8 on its own: a character cut at either end of the
    /// slice makes it malformed. Called on malformed bytes, this panics.
    pub fn append_bytes(self, from: &[u8]) -> (r: Self)
        requires
            valid_utf8(from@),
        ensures
            r@ == self@ + decode_utf8(from@),
    {
        let from_bytes = std::str::from_utf8(from).unwrap();
        let mut b = self;
        b.0.push_str(from_bytes);
        b
    }

    /// Appends the text that `from` encodes in UTF-8, or reports why `from` is not
    /// well-formed UTF-8.
    ///
    /// The builder is consumed either way; on error nothing of it is handed back.
    pub fn try_append_bytes(self, from: &[u8]) -> (r: Result<Self, Utf8Error>)
        ensures
            r is Ok <==> valid_utf8(from@),
            r matches Ok(b) ==> b@ == self@ + decode_utf8(from@),
    {
        match std::str::from_utf8(from) {
            Ok(from_bytes) => {
                let mut b = self;
                b.0.push_str(from_bytes);
                Ok(b)
            },
            Err(e) => Err(e),
        }
    }

    /// Ends the chain and hands out the text that was built.
    pub fn to_string(self) -> (r: String)
        ensures
            r@ == self@,
    {
        self.0
    }
}

} // verus!
