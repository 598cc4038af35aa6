//! Taking the value out of a result, and the errors of the sweep.

use std::fmt::Display;
use std::ops::Deref;
use vstd::prelude::*;
use vstd::pervasive::unreached;
use vstd::utf8::{decode_utf8, valid_utf8};

verus! {

broadcast use vstd::string::group_string_axioms;

/// Unwrapping where the caller would explain a failure by a message made
/// from the error.
pub trait Expect: Sized {
    type T;

    type E;

    /// The value that is held, if one is.
    spec fn held(self) -> Option<Self::T>;

    /// The value that is held. The message is for a failure, and a caller
    /// here has shown that there is none.
    fn expect_fn<S: Display, F: Fn(Self::E) -> S>(self, msg: F) -> (value: Self::T)
        requires
            self.held() is Some,
        ensures
            self.held() == Some(value),
    ;
}

impl<T, E> Expect for Result<T, E> {
    type T = T;

    type E = E;

    open spec fn held(self) -> Option<T> {
        match self {
            Ok(x) => Some(x),
            Err(_) => None,
        }
    }

    #[inline]
    fn expect_fn<S: Display, F: Fn(E) -> S>(self, msg: F) -> (value: T) {
        match self {
            Ok(x) => x,
            Err(_) => unreached(),
        }
    }
}

/// Unwrapping where the error explains itself.
pub trait ExceptDisplay: Sized {
    type T;

    /// The value that is held, if one is.
    spec fn shown(self) -> Option<Self::T>;

    /// The value that is held.
    fn expect_display(self) -> (value: Self::T)
        requires
            self.shown() is Some,
        ensures
            self.shown() == Some(value),
    ;
}

impl<T, E: Display> ExceptDisplay for Result<T, E> {
    type T = T;

    open spec fn shown(self) -> Option<T> {
        match self {
            Ok(value) => Some(value),
            Err(_) => None,
        }
    }

    #[inline]
    fn expect_display(self) -> (value: T) {
        match self {
            Ok(value) => value,
            Err(_) => unreached(),
        }
    }
}

impl<T> ExceptDisplay for Option<T> {
    type T = T;

    open spec fn shown(self) -> Option<T> {
        self
    }

    #[inline]
    fn expect_display(self) -> (value: T) {
        match self {
            Some(value) => value,
            None => unreached(),
        }
    }
}

/// What the sweep cannot work with.
#[derive(Debug)]
pub enum Error {
    /// A file name that is no text; it holds the name as far as it can be
    /// shown.
    InvalidFileName(String),
}

/// The complaint about a file name that is no text.
pub open spec fn invalid_name_text(shown: Seq<char>) -> Seq<char> {
    "File \""@ + shown + "\" has an invalid name."@
}

impl Error {
    /// The error in words.
    pub open spec fn text(self) -> Seq<char> {
        match self {
            Error::InvalidFileName(shown) => invalid_name_text(shown@),
        }
    }

    /// The error in words.
    pub fn message(&self) -> (m: String)
        ensures
            m@ == self.text(),
    {
        match self {
            Error::InvalidFileName(shown) => {
                let mut m = String::from_str("File \"");
                m.append(shown.as_str());
                m.append("\" has an invalid name.");
                m
            },
        }
    }
}

#[verifier::external_type_specification]
#[verifier::external_body]
pub struct ExUtf8Error(core::str::Utf8Error);

/// `core::str::from_utf8` of the standard library: it succeeds exactly on
/// well-formed UTF-8, and the string then holds the characters that the
/// bytes encode.
pub assume_specification[ core::str::from_utf8 ](v: &[u8]) -> (r: Result<
    &str,
    core::str::Utf8Error,
>)
    ensures
        r is Ok <==> valid_utf8(v@),
        r matches Ok(s) ==> s@ == decode_utf8(v@),
;

/// What `String::from_utf8_lossy` makes of `bytes`: their text, with the
/// replacement character where they are no UTF-8.
pub uninterp spec fn lossy_text(bytes: Seq<u8>) -> Seq<char>;

/// Calls `String::from_utf8_lossy`. Trusted: the result is the text that this
/// function gives, owned.
#[verifier::external_body]
pub(crate) fn to_lossy_text(bytes: &[u8]) -> (s: String)
    ensures
        s@ == lossy_text(bytes@),
{
    String::from_utf8_lossy(bytes).into_owned()
}

/// What the conversion of a name to text gives.
pub open spec fn utf8_conversion(bytes: Seq<u8>) -> Result<Seq<char>, Seq<char>> {
    if valid_utf8(bytes) {
        Ok(decode_utf8(bytes))
    } else {
        Err(lossy_text(bytes))
    }
}

/// A name as the system holds it, taken as text.
pub trait ConvertToUtf8: Sized {
    type S: Deref<Target = str>;

    /// The bytes of the name.
    spec fn raw(self) -> Seq<u8>;

    /// The characters of a converted name.
    spec fn text_of(s: Self::S) -> Seq<char>;

    /// The text, where the bytes are UTF-8; else the error with the name as
    /// far as it can be shown.
    fn convert_to_utf_8(self) -> (r: Result<Self::S, Error>)
        ensures
            match utf8_conversion(self.raw()) {
                Ok(text) => r matches Ok(s) && Self::text_of(s) == text,
                Err(shown) => r matches Err(Error::InvalidFileName(name)) && name@ == shown,
            },
    ;
}

impl ConvertToUtf8 for Vec<u8> {
    type S = String;

    open spec fn raw(self) -> Seq<u8> {
        self@
    }

    open spec fn text_of(s: String) -> Seq<char> {
        s@
    }

    fn convert_to_utf_8(self) -> (r: Result<String, Error>) {
        match core::str::from_utf8(self.as_slice()) {
            Ok(value) => Ok(String::from_str(value)),
            Err(_) => Err(Error::InvalidFileName(to_lossy_text(self.as_slice()))),
        }
    }
}

impl<'a> ConvertToUtf8 for &'a [u8] {
    type S = &'a str;

    open spec fn raw(self) -> Seq<u8> {
        self@
    }

    open spec fn text_of(s: &'a str) -> Seq<char> {
        s@
    }

    fn convert_to_utf_8(self) -> (r: Result<&'a str, Error>) {
        match core::str::from_utf8(self) {
            Ok(value) => Ok(value),
            Err(_) => Err(Error::InvalidFileName(to_lossy_text(self))),
        }
    }
}

} // verus!
