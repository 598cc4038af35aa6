//! From bytes to text and back: what the detector and the codecs are
//! trusted to do, and what the library makes of their answers.

use vstd::prelude::*;
use chardet::detect;
use encoding::label::encoding_from_whatwg_label;
use encoding::{DecoderTrap, EncoderTrap};
use crate::report::{
    undecodable, undecodable_text, undetected, undetected_text, unencodable, unencodable_text,
};

verus! {

broadcast use vstd::string::group_string_axioms;

/// The escape byte.
pub const ESCAPE: u8 = 0x1b;

/// A byte beyond ASCII, the no-break space of the Latin sets apart.
pub open spec fn is_high(byte: u8) -> bool {
    byte >= 0x80 && byte != 0xa0
}

/// The bytes hold an escape byte and no high byte.
pub open spec fn escaped_ascii(bytes: Seq<u8>) -> bool {
    &&& exists|i: int| 0 <= i < bytes.len() && bytes[i] == ESCAPE
    &&& forall|i: int| 0 <= i < bytes.len() ==> !is_high(bytes[i])
}

/// The bytes that are handed to the detector: no escaped ASCII, on which it
/// may stop without an answer, and no more bytes than its counters hold.
pub open spec fn detectable(bytes: Seq<u8>) -> bool {
    !escaped_ascii(bytes) && bytes.len() <= i32::MAX
}

/// The name of the character set that `chardet::detect` finds in `bytes`;
/// empty where it finds none.
pub uninterp spec fn detected_charset(bytes: Seq<u8>) -> Seq<char>;

/// The label under which the codecs know a character set of the detector.
pub open spec fn charset_label(charset: Seq<char>) -> Seq<char> {
    if charset == "CP932"@ {
        "windows-31j"@
    } else if charset == "CP949"@ {
        "windows-949"@
    } else if charset == "MacCyrillic"@ {
        "x-mac-cyrillic"@
    } else {
        charset
    }
}

/// Whether `encoding::label::encoding_from_whatwg_label` knows an encoding
/// under `label`.
pub uninterp spec fn label_known(label: Seq<char>) -> bool;

/// What `Encoding::decode` of the encoding under `label` makes of `bytes`,
/// with malformed sequences left out: the text, or the decoder's reason.
pub uninterp spec fn decoded(label: Seq<char>, bytes: Seq<u8>) -> Result<Seq<char>, Seq<char>>;

/// What `Encoding::encode` of the encoding under `label` makes of `text`,
/// with the characters it cannot hold left out: the bytes, or the encoder's
/// reason.
pub uninterp spec fn encoded(label: Seq<char>, text: Seq<char>) -> Result<Seq<u8>, Seq<char>>;

/// Calls `chardet::detect` and keeps the name of the character set. Trusted:
/// on bytes that are `detectable` the call returns, and the name is a function
/// of the bytes.
#[verifier::external_body]
pub(crate) fn detect_charset(bytes: &[u8]) -> (charset: String)
    requires
        detectable(bytes@),
    ensures
        charset@ == detected_charset(bytes@),
{
    detect(bytes).0
}

/// `chardet::charset2encoding`: three names of the detector are exchanged for
/// the labels of the codecs, every other name is returned as it is.
pub assume_specification[ chardet::charset2encoding ](enc: &String) -> (label: &str)
    ensures
        label@ == charset_label(enc@),
;

/// The value `r` stands for `model`.
pub open spec fn is_decoded(r: Result<String, String>, model: Result<Seq<char>, Seq<char>>) -> bool {
    match model {
        Ok(text) => r matches Ok(t) && t@ == text,
        Err(why) => r matches Err(e) && e@ == why,
    }
}

/// The value `r` stands for `model`.
pub open spec fn is_encoded(r: Result<Vec<u8>, String>, model: Result<Seq<u8>, Seq<char>>) -> bool {
    match model {
        Ok(bytes) => r matches Ok(b) && b@ == bytes,
        Err(why) => r matches Err(e) && e@ == why,
    }
}

/// Looks `label` up with `encoding_from_whatwg_label` and calls
/// `Encoding::decode` with `DecoderTrap::Ignore`. Trusted: nothing comes back
/// exactly where the label is unknown, and otherwise what the decoder gave.
#[verifier::external_body]
pub(crate) fn decode_as(label: &str, bytes: &[u8]) -> (r: Option<Result<String, String>>)
    ensures
        r is Some <==> label_known(label@),
        r matches Some(d) ==> is_decoded(d, decoded(label@, bytes@)),
{
    match encoding_from_whatwg_label(label) {
        Some(coder) => Some(
            match coder.decode(bytes, DecoderTrap::Ignore) {
                Ok(text) => Ok(text),
                Err(why) => Err(why.into_owned()),
            },
        ),
        None => None,
    }
}

/// Looks `label` up with `encoding_from_whatwg_label` and calls
/// `Encoding::encode` with `EncoderTrap::Ignore`. Trusted: nothing comes back
/// exactly where the label is unknown, and otherwise what the encoder gave.
#[verifier::external_body]
pub(crate) fn encode_as(label: &str, text: &str) -> (r: Option<Result<Vec<u8>, String>>)
    ensures
        r is Some <==> label_known(label@),
        r matches Some(e) ==> is_encoded(e, encoded(label@, text@)),
{
    match encoding_from_whatwg_label(label) {
        Some(coder) => Some(
            match coder.encode(text, EncoderTrap::Ignore) {
                Ok(bytes) => Ok(bytes),
                Err(why) => Err(why.into_owned()),
            },
        ),
        None => None,
    }
}

/// Whether the bytes can be handed to the detector.
pub fn is_detectable(bytes: &[u8]) -> (r: bool)
    ensures
        r == detectable(bytes@),
{
    if bytes.len() > 0x7fff_ffff {
        return false;
    }
    let mut escape_seen = false;
    let mut i: usize = 0;
    while i < bytes.len()
        invariant
            i <= bytes.len(),
            bytes.len() <= i32::MAX,
            escape_seen == (exists|j: int| 0 <= j < i && bytes@[j] == ESCAPE),
            forall|j: int| 0 <= j < i ==> !is_high(bytes@[j]),
        decreases bytes.len() - i,
    {
        let byte = bytes[i];
        if byte >= 0x80 && byte != 0xa0 {
            assert(is_high(bytes@[i as int]));
            return true;
        }
        if byte == ESCAPE {
            escape_seen = true;
        }
        i += 1;
    }
    !escape_seen
}

/// The label of the encoding that the bytes seem to be written in, where the
/// detector can be asked.
pub open spec fn detected_label(bytes: Seq<u8>) -> Option<Seq<char>> {
    if detectable(bytes) {
        Some(charset_label(detected_charset(bytes)))
    } else {
        None
    }
}

/// The label of the encoding that the bytes seem to be written in. Bytes
/// that cannot be handed to the detector have none.
pub fn detect_label(bytes: &[u8]) -> (r: Option<String>)
    ensures
        match detected_label(bytes@) {
            Some(label) => r matches Some(l) && l@ == label,
            None => r is None,
        },
{
    if is_detectable(bytes) {
        let charset = detect_charset(bytes);
        let label = chardet::charset2encoding(&charset);
        Some(String::from_str(label))
    } else {
        None
    }
}

/// The text of a file, from what the decoder gave for its label: the text,
/// or the complaint that the encoding is unknown or does not fit.
pub fn decoded_text(path: &str, answer: Option<Result<String, String>>) -> (r: Result<
    String,
    String,
>)
    ensures
        match answer {
            Some(Ok(text)) => r matches Ok(t) && t@ == text@,
            Some(Err(why)) => r matches Err(m) && m@ == undecodable_text(path@, why@),
            None => r matches Err(m) && m@ == undetected_text(path@),
        },
{
    match answer {
        Some(Ok(text)) => Ok(text),
        Some(Err(why)) => Err(undecodable(path, why.as_str())),
        None => Err(undetected(path)),
    }
}

/// The new bytes of a file, from what the encoder gave for its label: the
/// bytes, or the complaint that the encoding is unknown or cannot hold the
/// text.
pub fn encoded_bytes(path: &str, answer: Option<Result<Vec<u8>, String>>) -> (r: Result<
    Vec<u8>,
    String,
>)
    ensures
        match answer {
            Some(Ok(bytes)) => r matches Ok(b) && b@ == bytes@,
            Some(Err(why)) => r matches Err(m) && m@ == unencodable_text(path@, why@),
            None => r matches Err(m) && m@ == undetected_text(path@),
        },
{
    match answer {
        Some(Ok(bytes)) => Ok(bytes),
        Some(Err(why)) => Err(unencodable(path, why.as_str())),
        None => Err(undetected(path)),
    }
}

} // verus!
