//! Text on both sides of the boundary: the host's view of a foreign string
//! object, exchanged as UTF-8 bytes.

use crate::handle::{ForeignHandle, HandleError, Ownership, NIL};
use vstd::prelude::*;
use vstd::std_specs::convert::FromSpecImpl;
use vstd::string::*;
use vstd::utf8::*;

verus! {

broadcast use {encode_utf8_valid_utf8, encode_utf8_decode_utf8};

/// The number by which the foreign runtime knows the UTF-8 encoding.
pub const UTF8_ENCODING: u64 = 4;

/// Where the bytes of a foreign string object live.
#[derive(Debug)]
enum Contents<'a> {
    /// The object holds a copy of its own.
    Copied(Vec<u8>),
    /// The object reads the host's buffer, which must outlive it.
    Aliased(&'a [u8]),
}

/// A wrapper for a foreign string object: its handle, and the UTF-8 bytes
/// that the object holds.
///
/// A value made by [`NSString::no_copy`] borrows the host buffer for `'a`,
/// so it cannot outlive the text it was made from.
#[derive(Debug)]
pub struct NSString<'a> {
    objc: ForeignHandle,
    contents: Contents<'a>,
}

/// `std::str::from_utf8`: the bytes as a string slice where they are valid
/// UTF-8, and nothing where they are not. The slice has exactly the bytes
/// that were given.
#[verifier::external_body]
fn from_utf8<'b>(bytes: &'b [u8]) -> (text: Option<&'b str>)
    ensures
        text is Some <==> valid_utf8(bytes@),
        text matches Some(s) ==> s.spec_bytes() == bytes@,
{
    match std::str::from_utf8(bytes) {
        Ok(s) => Some(s),
        Err(_) => None,
    }
}

/// The bytes as a host string slice, or nothing where they are not valid
/// UTF-8.
pub fn try_decode<'b>(bytes: &'b [u8]) -> (text: Option<&'b str>)
    ensures
        text is Some <==> valid_utf8(bytes@),
        text matches Some(s) ==> s.spec_bytes() == bytes@ && s@ == decode_utf8(bytes@),
{
    from_utf8(bytes)
}

/// The bytes as a host string slice. They must be valid UTF-8.
pub fn decode<'b>(bytes: &'b [u8]) -> (text: &'b str)
    requires
        valid_utf8(bytes@),
    ensures
        text.spec_bytes() == bytes@,
        text@ == decode_utf8(bytes@),
{
    from_utf8(bytes).unwrap()
}

impl<'a> NSString<'a> {
    /// The UTF-8 bytes that the foreign string object holds.
    pub closed spec fn utf8(&self) -> Seq<u8> {
        match self.contents {
            Contents::Copied(bytes) => bytes@,
            Contents::Aliased(bytes) => bytes@,
        }
    }

    /// The handle on the backing foreign string object.
    pub closed spec fn handle(&self) -> ForeignHandle {
        self.objc
    }

    /// Whether the object reads the host's buffer instead of a copy.
    pub closed spec fn aliases_host(&self) -> bool {
        self.contents is Aliased
    }

    /// Wraps the foreign string `object` that was made by copying the bytes
    /// of `s`. The wrapper holds a copy too, and owes the object an increment
    /// now and a decrement on release.
    pub fn new(s: &str, object: usize) -> (made: Result<Self, HandleError>)
        ensures
            made is Ok <==> object != NIL,
            made matches Ok(string) ==> {
                &&& string.utf8() == s.spec_bytes()
                &&& valid_utf8(string.utf8())
                &&& decode_utf8(string.utf8()) == s@
                &&& !string.aliases_host()
                &&& string.handle().address() == object
                &&& string.handle().ownership() == Ownership::Retain
            },
            made matches Err(e) ==> e == HandleError::InvalidPointer,
    {
        match ForeignHandle::from_owned_retain(object) {
            Ok(objc) => Ok(NSString { objc, contents: Contents::Copied(s.as_bytes_vec()) }),
            Err(e) => Err(e),
        }
    }

    /// Wraps the foreign string `object` that was made over the bytes of `s`
    /// without copying them. The wrapper reads the same buffer, and the
    /// borrow keeps `s` alive for as long as the wrapper lives.
    pub fn no_copy(s: &'a str, object: usize) -> (made: Result<Self, HandleError>)
        ensures
            made is Ok <==> object != NIL,
            made matches Ok(string) ==> {
                &&& string.utf8() == s.spec_bytes()
                &&& valid_utf8(string.utf8())
                &&& decode_utf8(string.utf8()) == s@
                &&& string.aliases_host()
                &&& string.handle().address() == object
                &&& string.handle().ownership() == Ownership::Retain
            },
            made matches Err(e) ==> e == HandleError::InvalidPointer,
    {
        match ForeignHandle::from_owned_retain(object) {
            Ok(objc) => Ok(NSString { objc, contents: Contents::Aliased(s.as_bytes()) }),
            Err(e) => Err(e),
        }
    }

    /// Wraps a foreign string `object` vended by the runtime, of which the
    /// host holds no reference yet. `utf8` is what the object holds.
    pub fn retain(object: usize, utf8: Vec<u8>) -> (made: Result<Self, HandleError>)
        ensures
            made is Ok <==> object != NIL,
            made matches Ok(string) ==> {
                &&& string.utf8() == utf8@
                &&& !string.aliases_host()
                &&& string.handle().address() == object
                &&& string.handle().ownership() == Ownership::Retain
            },
            made matches Err(e) ==> e == HandleError::InvalidPointer,
    {
        match ForeignHandle::from_owned_retain(object) {
            Ok(objc) => Ok(NSString { objc, contents: Contents::Copied(utf8) }),
            Err(e) => Err(e),
        }
    }

    /// Wraps a foreign string `object` of which the host was already granted
    /// a reference. `utf8` is what the object holds.
    pub fn from_retained(object: usize, utf8: Vec<u8>) -> (made: Result<Self, HandleError>)
        ensures
            made is Ok <==> object != NIL,
            made matches Ok(string) ==> {
                &&& string.utf8() == utf8@
                &&& !string.aliases_host()
                &&& string.handle().address() == object
                &&& string.handle().ownership() == Ownership::Adopt
            },
            made matches Err(e) ==> e == HandleError::InvalidPointer,
    {
        match ForeignHandle::from_owned_adopt(object) {
            Ok(objc) => Ok(NSString { objc, contents: Contents::Copied(utf8) }),
            Err(e) => Err(e),
        }
    }

    /// The handle on the backing foreign string object.
    pub fn objc(&self) -> (objc: &ForeignHandle)
        ensures
            *objc == self.handle(),
    {
        &self.objc
    }

    /// Gives the wrapper up for its handle, which says what is owed to the
    /// foreign string on release.
    pub fn into_handle(self) -> (objc: ForeignHandle)
        ensures
            objc == self.handle(),
    {
        self.objc
    }

    /// The UTF-8 bytes of this string. For a string made by
    /// [`NSString::no_copy`] this is the host's own buffer.
    pub fn bytes(&self) -> (bytes: &[u8])
        ensures
            bytes@ == self.utf8(),
    {
        match &self.contents {
            Contents::Copied(bytes) => bytes.as_slice(),
            Contents::Aliased(bytes) => bytes,
        }
    }

    /// The length of this string in UTF-8 bytes.
    pub fn bytes_len(&self) -> (len: usize)
        ensures
            len == self.utf8().len(),
    {
        self.bytes().len()
    }

    /// The string as a host string slice, or nothing where the bytes are not
    /// valid UTF-8.
    pub fn try_to_str(&self) -> (text: Option<&str>)
        ensures
            text is Some <==> valid_utf8(self.utf8()),
            text matches Some(s) ==> s.spec_bytes() == self.utf8() && s@ == decode_utf8(
                self.utf8(),
            ),
    {
        try_decode(self.bytes())
    }

    /// The string as a host string slice. The bytes must be valid UTF-8.
    pub fn to_str(&self) -> (text: &str)
        requires
            valid_utf8(self.utf8()),
        ensures
            text.spec_bytes() == self.utf8(),
            text@ == decode_utf8(self.utf8()),
    {
        decode(self.bytes())
    }

    /// The string as an owned host string. The bytes must be valid UTF-8.
    pub fn to_string(&self) -> (text: String)
        requires
            valid_utf8(self.utf8()),
        ensures
            text@ == decode_utf8(self.utf8()),
    {
        self.to_str().to_owned()
    }
}

impl<'a> FromSpecImpl<NSString<'a>> for usize {
    open spec fn obeys_from_spec() -> bool {
        true
    }

    open spec fn from_spec(string: NSString<'a>) -> usize {
        string.handle().address()
    }
}

impl<'a> From<NSString<'a>> for usize {
    /// Consumes the wrapper and returns the address of the foreign string.
    fn from(string: NSString<'a>) -> (address: usize) {
        string.objc.as_ptr()
    }
}

/// Text that was encoded for a foreign string decodes to itself: what
/// [`NSString::new`] and [`NSString::no_copy`] hold is valid UTF-8, and
/// [`NSString::to_string`] reads it back unchanged.
pub proof fn lemma_text_round_trip(text: Seq<char>)
    ensures
        valid_utf8(encode_utf8(text)),
        decode_utf8(encode_utf8(text)) == text,
{
}

/// Bytes that a foreign string holds, if they are valid UTF-8, are the
/// encoding of the text they decode to.
pub proof fn lemma_bytes_round_trip(utf8: Seq<u8>)
    requires
        valid_utf8(utf8),
    ensures
        encode_utf8(decode_utf8(utf8)) == utf8,
{
    decode_utf8_encode_utf8(utf8);
}

} // verus!
