//! String representations for the high level operations.
//!
//! Paths, arguments and environment entries travel through guest memory as
//! bytes. What they are on the host side is a choice: everything above the
//! wire is generic over it.

use vstd::prelude::*;
use vstd::string::StringSliceAdditionalSpecFns;
use vstd::utf8::{encode_utf8, valid_utf8};

verus! {

/// A host-side representation of the strings that cross the wire.
pub trait StringRepresentation: Sized {
    /// The bytes that stand for the string on the wire.
    spec fn bytes(&self) -> Seq<u8>;

    /// Whether `bytes` stand for a string of this representation.
    spec fn representable(bytes: Seq<u8>) -> bool;

    /// Tries to convert a vector of owned bytes into a string. Succeeds
    /// exactly on the bytes that the representation admits, and then keeps
    /// them.
    fn from_bytes(bytes: Vec<u8>) -> (result: Result<Self, ()>)
        ensures
            match result {
                Ok(string) => Self::representable(bytes@) && string.bytes() == bytes@,
                Err(_) => !Self::representable(bytes@),
            },
    ;

    /// The bytes of the string.
    fn as_bytes(&self) -> (bytes: &[u8])
        ensures
            bytes@ == self.bytes(),
    ;
}

/// The bytes of each string.
pub open spec fn wire_strings<S: StringRepresentation>(strings: Seq<S>) -> Seq<Seq<u8>> {
    strings.map_values(|s: S| s.bytes())
}

/// `String::from_utf8` of std: the text that `bytes` encode in UTF-8, or an
/// error when they are not valid UTF-8.
#[verifier::external_body]
fn string_from_utf8(bytes: Vec<u8>) -> (result: Result<String, ()>)
    ensures
        match result {
            Ok(text) => valid_utf8(bytes@) && encode_utf8(text@) == bytes@,
            Err(_) => !valid_utf8(bytes@),
        },
{
    String::from_utf8(bytes).map_err(|_| ())
}

/// Text: the bytes must be valid UTF-8.
impl StringRepresentation for String {
    open spec fn bytes(&self) -> Seq<u8> {
        encode_utf8(self@)
    }

    open spec fn representable(bytes: Seq<u8>) -> bool {
        valid_utf8(bytes)
    }

    fn from_bytes(bytes: Vec<u8>) -> (result: Result<Self, ()>) {
        string_from_utf8(bytes)
    }

    fn as_bytes(&self) -> (bytes: &[u8]) {
        self.as_str().as_bytes()
    }
}

/// Raw bytes: every byte string is admitted.
impl StringRepresentation for Vec<u8> {
    open spec fn bytes(&self) -> Seq<u8> {
        self@
    }

    open spec fn representable(bytes: Seq<u8>) -> bool {
        true
    }

    fn from_bytes(bytes: Vec<u8>) -> (result: Result<Self, ()>) {
        Ok(bytes)
    }

    fn as_bytes(&self) -> (bytes: &[u8]) {
        self.as_slice()
    }
}

/// A string in the operating system's own encoding. On Unix that is any
/// byte string.
#[derive(Debug, PartialEq, Eq)]
pub struct OsBytes {
    pub bytes: Vec<u8>,
}

impl Clone for OsBytes {
    fn clone(&self) -> (copy: Self)
        ensures
            copy.bytes@ == self.bytes@,
    {
        let bytes: Vec<u8> = self.bytes.clone();
        assert(bytes@ =~= self.bytes@);
        OsBytes { bytes }
    }
}

impl StringRepresentation for OsBytes {
    open spec fn bytes(&self) -> Seq<u8> {
        self.bytes@
    }

    open spec fn representable(bytes: Seq<u8>) -> bool {
        true
    }

    fn from_bytes(bytes: Vec<u8>) -> (result: Result<Self, ()>) {
        Ok(OsBytes { bytes })
    }

    fn as_bytes(&self) -> (bytes: &[u8]) {
        self.bytes.as_slice()
    }
}

/// Whether no byte of `bytes` is NUL.
pub open spec fn nul_free(bytes: Seq<u8>) -> bool {
    forall|i: int| 0 <= i < bytes.len() ==> bytes[i] != 0u8
}

/// A string that can be handed to C: it holds no NUL byte. The terminating
/// NUL is not part of it.
#[derive(Debug, PartialEq, Eq)]
pub struct CBytes {
    bytes: Vec<u8>,
}

impl Clone for CBytes {
    fn clone(&self) -> (copy: Self)
        ensures
            copy.content() == self.content(),
    {
        proof {
            use_type_invariant(self);
        }
        let bytes: Vec<u8> = self.bytes.clone();
        assert(bytes@ =~= self.bytes@);
        CBytes { bytes }
    }
}

impl CBytes {
    #[verifier::type_invariant]
    spec fn well_formed(self) -> bool {
        nul_free(self.bytes@)
    }

    /// The bytes of the string, without the terminating NUL.
    pub closed spec fn content(&self) -> Seq<u8> {
        self.bytes@
    }

    /// The string of `bytes`, unless one of them is NUL.
    pub fn new(bytes: Vec<u8>) -> (result: Option<Self>)
        ensures
            match result {
                Some(string) => nul_free(bytes@) && string.content() == bytes@,
                None => !nul_free(bytes@),
            },
    {
        let mut i: usize = 0;
        while i < bytes.len()
            invariant
                i <= bytes.len(),
                forall|j: int| 0 <= j < i ==> bytes[j] != 0u8,
            decreases bytes.len() - i,
        {
            if bytes[i] == 0 {
                return None;
            }
            i = i + 1;
        }
        Some(CBytes { bytes })
    }

    /// The bytes of the string, without the terminating NUL.
    pub fn to_bytes(&self) -> (bytes: &[u8])
        ensures
            bytes@ == self.content(),
            nul_free(bytes@),
    {
        proof {
            use_type_invariant(self);
        }
        self.bytes.as_slice()
    }
}

impl StringRepresentation for CBytes {
    open spec fn bytes(&self) -> Seq<u8> {
        self.content()
    }

    open spec fn representable(bytes: Seq<u8>) -> bool {
        nul_free(bytes)
    }

    fn from_bytes(bytes: Vec<u8>) -> (result: Result<Self, ()>) {
        match CBytes::new(bytes) {
            Some(string) => Ok(string),
            None => Err(()),
        }
    }

    fn as_bytes(&self) -> (bytes: &[u8]) {
        self.to_bytes()
    }
}

} // verus!
