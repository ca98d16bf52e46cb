//! Types for reading _Service Information_ from a DVB MPEG Transport Stream, formatted according
//! to ETSI EN 300 468.
//!
//! Every view in this crate borrows the caller's buffer: nothing is copied until text is decoded,
//! and every view becomes invalid once that buffer is freed or reused.
#![allow(non_camel_case_types)]

pub mod charset;
pub mod descriptor;
pub mod sdt;

use vstd::prelude::*;
use vstd::utf8::*;
pub use crate::descriptor::En300_468Descriptors;
use crate::charset::{decode_lossy, decode_strict, decoded_lossy, decoded_strict, latin1_to_string};



verus! {

/// Text encodings as defined by _ETSI EN 300 468_, used by the [`Text`] type.
#[derive(Debug, Clone, Copy, PartialEq, Eq, Structural)]
pub enum TextEncoding {
    Reserved1(u8),
    Reserved2(u8, u8),
    /// ISO 8859-1
    Iso88591,
    /// ISO 8859-2
    Iso88592,
    /// ISO 8859-3
    Iso88593,
    /// ISO 8859-4
    Iso88594,
    /// ISO 8859-5
    Iso88595,
    /// ISO 8859-6
    Iso88596,
    /// ISO 8859-7
    Iso88597,
    /// ISO 8859-8
    Iso88598,
    /// ISO 8859-9
    Iso88599,
    /// ISO 8859-10
    Iso885910,
    /// ISO 8859-11
    Iso885911,
    /// ISO 8859-13
    Iso885913,
    /// ISO 8859-14
    Iso885914,
    /// ISO 8859-15
    Iso885915,
    /// ISO 10646
    Iso10646,
    /// KSX1001-2004
    KSX1001_2004,
    /// GB-2312-1980
    GB2312_1980,
    /// Big5 subset of ISO/IEC 10646
    Big5,
    /// UTF-8
    UTF8,
}

/// There are several pieces of metadata that may apply to the 'actual' transport stream (i.e.
/// the one containing the metadata) or some 'other' transport stream.  This wrapper allows these
/// cases to be discriminated.
///
/// The `Other` variant allows metadata to be announced for services that are actually broadcast
/// in a different multiplex (on a different frequency), for example.
pub enum ActualOther<T> {
    /// The wrapped information pertains to the current transport stream / network.
    Actual(T),
    /// The wrapped information pertains to some other transport stream / network.
    Other(T),
}

impl<T> ActualOther<T> {
    pub fn actual(&self) -> (r: Option<&T>)
        ensures
            r == (match self {
                ActualOther::Actual(v) => Some(v),
                ActualOther::Other(_) => None,
            }),
    {
        match self {
            ActualOther::Actual(v) => Some(v),
            ActualOther::Other(_) => None,
        }
    }

    /// The same variant, borrowing the wrapped value.
    pub fn as_ref(&self) -> (r: ActualOther<&T>)
        ensures
            (r is Actual) == (self is Actual),
            self is Actual ==> *r->Actual_0 == self->Actual_0,
            self is Other ==> *r->Other_0 == self->Other_0,
    {
        match self {
            ActualOther::Actual(v) => ActualOther::Actual(v),
            ActualOther::Other(v) => ActualOther::Other(v),
        }
    }

    pub fn other(&self) -> (r: Option<&T>)
        ensures
            r == (match self {
                ActualOther::Actual(_) => None,
                ActualOther::Other(v) => Some(v),
            }),
    {
        match self {
            ActualOther::Actual(_) => None,
            ActualOther::Other(v) => Some(v),
        }
    }
}

/// A problem encountered while decoding a [`Text`].
#[derive(Debug, Clone, Copy, PartialEq, Eq, Structural)]
pub enum TextError {
    NotEnoughData { expected: usize, available: usize },
    DecodeFailure,
    UnsupportedEncoding(TextEncoding),
}

/// The ISO 8859 part `n` (1 to 15, but for 12) as a [`TextEncoding`].
pub open spec fn iso_8859_part(n: int) -> TextEncoding
    recommends
        1 <= n <= 15,
        n != 12,
{
    if n == 1 {
        TextEncoding::Iso88591
    } else if n == 2 {
        TextEncoding::Iso88592
    } else if n == 3 {
        TextEncoding::Iso88593
    } else if n == 4 {
        TextEncoding::Iso88594
    } else if n == 5 {
        TextEncoding::Iso88595
    } else if n == 6 {
        TextEncoding::Iso88596
    } else if n == 7 {
        TextEncoding::Iso88597
    } else if n == 8 {
        TextEncoding::Iso88598
    } else if n == 9 {
        TextEncoding::Iso88599
    } else if n == 10 {
        TextEncoding::Iso885910
    } else if n == 11 {
        TextEncoding::Iso885911
    } else if n == 13 {
        TextEncoding::Iso885913
    } else if n == 14 {
        TextEncoding::Iso885914
    } else {
        TextEncoding::Iso885915
    }
}

/// Whether the encoding of the (non-empty) field `data` can be resolved: a `0x10` selector is
/// followed by its two code bytes.
pub open spec fn resolvable(data: Seq<u8>) -> bool {
    &&& data.len() >= 1
    &&& data[0] == 0x10 ==> data.len() >= 3
}

/// The encoding that the leading byte(s) of a text field select. The bytes that select none, and
/// `0x1F`, whose encoding is named through a registry that this crate does not hold, resolve to
/// a reserved encoding that keeps the byte.
pub open spec fn encoding_of(data: Seq<u8>) -> TextEncoding
    recommends
        resolvable(data),
{
    let id = data[0];
    if id >= 0x20 {
        TextEncoding::Iso88591
    } else if (0x01 <= id <= 0x07) || (0x09 <= id <= 0x0b) {
        iso_8859_part(id + 4)
    } else if id == 0x10 {
        if data[1] == 0 && 1 <= data[2] <= 15 && data[2] != 12 {
            iso_8859_part(data[2] as int)
        } else {
            TextEncoding::Reserved2(data[1], data[2])
        }
    } else if id == 0x11 {
        TextEncoding::Iso10646
    } else if id == 0x12 {
        TextEncoding::KSX1001_2004
    } else if id == 0x13 {
        TextEncoding::GB2312_1980
    } else if id == 0x14 {
        TextEncoding::Big5
    } else if id == 0x15 {
        TextEncoding::UTF8
    } else {
        TextEncoding::Reserved1(id)
    }
}

/// The number of selector bytes in front of the text itself.
pub open spec fn prefix_len(data: Seq<u8>) -> int {
    if data[0] >= 0x20 {
        0
    } else if data[0] == 0x10 {
        3
    } else if data[0] == 0x1f {
        2
    } else {
        1
    }
}

/// The text that the bytes `b` stand for in ISO 8859-1: each byte is the code point of its
/// character.
pub open spec fn latin1(b: Seq<u8>) -> Seq<char> {
    Seq::new(b.len(), |i: int| b[i] as char)
}

/// The WHATWG label under which the decoding backend knows an encoding, for the encodings other
/// than ISO 8859-1 that it can decode.
pub open spec fn charset_label(enc: TextEncoding) -> Option<Seq<char>> {
    match enc {
        TextEncoding::Iso88592 => Some("iso-8859-2"@),
        TextEncoding::Iso88593 => Some("iso-8859-3"@),
        TextEncoding::Iso88594 => Some("iso-8859-4"@),
        TextEncoding::Iso88595 => Some("iso-8859-5"@),
        TextEncoding::Iso88596 => Some("iso-8859-6"@),
        TextEncoding::Iso88597 => Some("iso-8859-7"@),
        TextEncoding::Iso88598 => Some("iso-8859-8"@),
        TextEncoding::Iso885910 => Some("iso-8859-10"@),
        TextEncoding::Iso885913 => Some("iso-8859-13"@),
        TextEncoding::Iso885914 => Some("iso-8859-14"@),
        TextEncoding::Iso885915 => Some("iso-8859-15"@),
        TextEncoding::Big5 => Some("big5"@),
        TextEncoding::UTF8 => Some("utf-8"@),
        _ => None,
    }
}

/// Whether `label` is one that [`charset_label`] gives.
pub open spec fn is_charset_label(label: Seq<char>) -> bool {
    exists|e: TextEncoding| charset_label(e) == Some(label)
}

/// The error for a field that is shorter than its selector bytes, if it is.
pub open spec fn prefix_error(data: Seq<u8>) -> Option<TextError> {
    if prefix_len(data) > data.len() {
        Some(
            TextError::NotEnoughData {
                expected: prefix_len(data) as usize,
                available: data.len() as usize,
            },
        )
    } else {
        None
    }
}

/// What decoding `bytes` with replacement in the charset labelled `label` gives: the strict
/// decoding where there is one, and otherwise the text with U+FFFD for malformed sequences.
pub open spec fn lossy_in(label: Seq<char>, bytes: Seq<u8>) -> Seq<char> {
    if label == "utf-8"@ && valid_utf8(bytes) {
        decode_utf8(bytes)
    } else {
        match decoded_strict(label, bytes) {
            Some(s) => s,
            None => decoded_lossy(label, bytes),
        }
    }
}

/// What decoding the field `data` gives where invalid byte sequences are an error.
pub open spec fn strict_decoding(data: Seq<u8>) -> Result<Seq<char>, TextError> {
    match prefix_error(data) {
        Some(e) => Err(e),
        None => {
            let enc = encoding_of(data);
            let payload = data.skip(prefix_len(data));
            match enc {
                TextEncoding::Iso88591 => Ok(latin1(payload)),
                TextEncoding::UTF8 => if valid_utf8(payload) {
                    Ok(decode_utf8(payload))
                } else {
                    Err(TextError::DecodeFailure)
                },
                _ => match charset_label(enc) {
                    Some(label) => match decoded_strict(label, payload) {
                        Some(s) => Ok(s),
                        None => Err(TextError::DecodeFailure),
                    },
                    None => Err(TextError::UnsupportedEncoding(enc)),
                },
            }
        },
    }
}

/// What decoding the field `data` gives where invalid byte sequences become the Unicode
/// replacement character.
pub open spec fn lossy_decoding(data: Seq<u8>) -> Result<Seq<char>, TextError> {
    match prefix_error(data) {
        Some(e) => Err(e),
        None => {
            let enc = encoding_of(data);
            let payload = data.skip(prefix_len(data));
            match enc {
                TextEncoding::Iso88591 => Ok(latin1(payload)),
                _ => match charset_label(enc) {
                    Some(label) => Ok(lossy_in(label, payload)),
                    None => Err(TextError::UnsupportedEncoding(enc)),
                },
            }
        },
    }
}

/// The text held by a decoding result.
pub open spec fn text_result(r: Result<String, TextError>) -> Result<Seq<char>, TextError> {
    match r {
        Ok(s) => Ok(s@),
        Err(e) => Err(e),
    }
}

/// A wrapper around bytes representing text having embedded encoding information, with
/// functionality for trying to decode this into a Rust `String`.
pub struct Text<'buf> {
    data: &'buf [u8],
}

impl<'buf> View for Text<'buf> {
    type V = Seq<u8>;

    closed spec fn view(&self) -> Seq<u8> {
        self.data@
    }
}

impl<'buf> Text<'buf> {
    #[verifier::type_invariant]
    closed spec fn inv(self) -> bool {
        self.data@.len() >= 1
    }

    pub fn new(data: &'buf [u8]) -> (r: Result<Text<'buf>, TextError>)
        ensures
            data@.len() == 0 ==> r == Err::<Text, _>(
                TextError::NotEnoughData { expected: 1, available: 0 },
            ),
            data@.len() > 0 ==> (r matches Ok(t) && t@ == data@),
    {
        if data.len() == 0 {
            Err(TextError::NotEnoughData { expected: 1, available: 0 })
        } else {
            Ok(Text { data })
        }
    }

    /// The field's bytes, selector included, which are never empty.
    pub fn bytes(&self) -> (r: &'buf [u8])
        ensures
            r@ == self@,
            r@.len() >= 1,
    {
        proof {
            use_type_invariant(self);
        }
        self.data
    }

    /// The encoding that the field's leading byte(s) select.
    pub fn encoding(&self) -> (r: TextEncoding)
        requires
            resolvable(self@),
        ensures
            r == encoding_of(self@),
    {
        let id = self.data[0];
        match id {
            0x20..=0xff => TextEncoding::Iso88591,
            0x01 => TextEncoding::Iso88595,
            0x02 => TextEncoding::Iso88596,
            0x03 => TextEncoding::Iso88597,
            0x04 => TextEncoding::Iso88598,
            0x05 => TextEncoding::Iso88599,
            0x06 => TextEncoding::Iso885910,
            0x07 => TextEncoding::Iso885911,
            0x08 => TextEncoding::Reserved1(id),
            0x09 => TextEncoding::Iso885913,
            0x0a => TextEncoding::Iso885914,
            0x0b => TextEncoding::Iso885915,
            0x0c..=0x0f => TextEncoding::Reserved1(id),
            0x10 => {
                let ids = (self.data[1], self.data[2]);
                match ids {
                    (0x00, 0x01) => TextEncoding::Iso88591,
                    (0x00, 0x02) => TextEncoding::Iso88592,
                    (0x00, 0x03) => TextEncoding::Iso88593,
                    (0x00, 0x04) => TextEncoding::Iso88594,
                    (0x00, 0x05) => TextEncoding::Iso88595,
                    (0x00, 0x06) => TextEncoding::Iso88596,
                    (0x00, 0x07) => TextEncoding::Iso88597,
                    (0x00, 0x08) => TextEncoding::Iso88598,
                    (0x00, 0x09) => TextEncoding::Iso88599,
                    (0x00, 0x0a) => TextEncoding::Iso885910,
                    (0x00, 0x0b) => TextEncoding::Iso885911,
                    (0x00, 0x0d) => TextEncoding::Iso885913,
                    (0x00, 0x0e) => TextEncoding::Iso885914,
                    (0x00, 0x0f) => TextEncoding::Iso885915,
                    _ => TextEncoding::Reserved2(ids.0, ids.1),
                }
            },
            0x11 => TextEncoding::Iso10646,
            0x12 => TextEncoding::KSX1001_2004,
            0x13 => TextEncoding::GB2312_1980,
            0x14 => TextEncoding::Big5,
            0x15 => TextEncoding::UTF8,
            _ => TextEncoding::Reserved1(id),
        }
    }
    /// The number of selector bytes in front of the text itself, or the error if the field is
    /// shorter than that.
    fn enc_prefix_len(&self) -> (r: Result<usize, TextError>)
        ensures
            r == (match prefix_error(self@) {
                Some(e) => Err(e),
                None => Ok(prefix_len(self@) as usize),
            }),
    {
        proof {
            use_type_invariant(self);
        }
        let n: usize = match self.data[0] {
            0x20..=0xff => 0,
            0x10 => 3,
            0x1f => 2,
            _ => 1,
        };
        if n > self.data.len() {
            Err(TextError::NotEnoughData { expected: n, available: self.data.len() })
        } else {
            Ok(n)
        }
    }

    /// The bytes of the text itself, after the selector.
    fn buffer(&self) -> (r: Result<&'buf [u8], TextError>)
        ensures
            r matches Ok(b) ==> prefix_error(self@) is None && b@ == self@.skip(prefix_len(self@)),
            r matches Err(e) ==> prefix_error(self@) == Some(e),
    {
        proof {
            use_type_invariant(self);
        }
        let start = match self.enc_prefix_len() {
            Ok(n) => n,
            Err(e) => return Err(e),
        };
        Ok(vstd::slice::slice_subrange(self.data, start, self.data.len()))
    }

    /// Decodes the text, failing on byte sequences that are malformed in its encoding.
    pub fn to_string(&self) -> (r: Result<String, TextError>)
        ensures
            text_result(r) == strict_decoding(self@),
    {
        proof {
            use_type_invariant(self);
        }
        let payload = match self.buffer() {
            Ok(b) => b,
            Err(e) => return Err(e),
        };
        let enc = self.encoding();
        match enc {
            TextEncoding::Iso88591 => Ok(latin1_to_string(payload)),
            _ => match label_of(enc) {
                Some(label) => match decode_strict(label, payload) {
                    Some(s) => Ok(s),
                    None => Err(TextError::DecodeFailure),
                },
                None => Err(TextError::UnsupportedEncoding(enc)),
            },
        }
    }

    /// Decodes the text, with any un-decodable entries replaced with the *Unicode Replacement
    /// Character*.
    pub fn to_string_with_replacement(&self) -> (r: Result<String, TextError>)
        ensures
            text_result(r) == lossy_decoding(self@),
    {
        proof {
            use_type_invariant(self);
        }
        let payload = match self.buffer() {
            Ok(b) => b,
            Err(e) => return Err(e),
        };
        let enc = self.encoding();
        match enc {
            TextEncoding::Iso88591 => Ok(latin1_to_string(payload)),
            _ => match label_of(enc) {
                Some(label) => Ok(decode_lossy(label, payload)),
                None => Err(TextError::UnsupportedEncoding(enc)),
            },
        }
    }

    /// The text for display, which never fails: decoded with replacement, or a marker where
    /// even that is not possible.
    pub fn to_display_string(&self) -> (r: String)
        ensures
            r@ == display_text(self@),
    {
        proof {
            use_type_invariant(self);
        }
        match self.to_string_with_replacement() {
            Ok(s) => s,
            Err(_) => "<undecodable text>".to_owned(),
        }
    }
}

/// The text for display: decoded with replacement where that succeeds, else
/// [`undecodable_marker`].
pub open spec fn display_text(data: Seq<u8>) -> Seq<char> {
    if lossy_decoding(data) is Ok {
        lossy_decoding(data)->Ok_0
    } else {
        undecodable_marker()
    }
}

/// What stands for text that cannot be decoded.
pub open spec fn undecodable_marker() -> Seq<char> {
    "<undecodable text>"@
}

/// The label of `enc` for the decoding backend, if it has one.
fn label_of(enc: TextEncoding) -> (r: Option<&'static str>)
    ensures
        r matches Some(l) ==> charset_label(enc) == Some(l@) && is_charset_label(l@),
        r is None ==> charset_label(enc) is None,
{
    let r = match enc {
        TextEncoding::Iso88592 => Some("iso-8859-2"),
        TextEncoding::Iso88593 => Some("iso-8859-3"),
        TextEncoding::Iso88594 => Some("iso-8859-4"),
        TextEncoding::Iso88595 => Some("iso-8859-5"),
        TextEncoding::Iso88596 => Some("iso-8859-6"),
        TextEncoding::Iso88597 => Some("iso-8859-7"),
        TextEncoding::Iso88598 => Some("iso-8859-8"),
        TextEncoding::Iso885910 => Some("iso-8859-10"),
        TextEncoding::Iso885913 => Some("iso-8859-13"),
        TextEncoding::Iso885914 => Some("iso-8859-14"),
        TextEncoding::Iso885915 => Some("iso-8859-15"),
        TextEncoding::Big5 => Some("big5"),
        TextEncoding::UTF8 => Some("utf-8"),
        _ => None,
    };
    proof {
        if let Some(l) = r {
            assert(charset_label(enc) == Some(l@));
        }
    }
    r
}

/// Every selector byte from `0x20` up selects ISO 8859-1 and is itself part of the text: both
/// decodings give the whole field, read as ISO 8859-1.
pub proof fn latin1_selector_range(data: Seq<u8>)
    requires
        data.len() >= 1,
        data[0] >= 0x20,
    ensures
        encoding_of(data) == TextEncoding::Iso88591,
        prefix_len(data) == 0,
        strict_decoding(data) == Ok::<_, TextError>(latin1(data)),
        lossy_decoding(data) == Ok::<_, TextError>(latin1(data)),
{
    assert(data.skip(0) =~= data);
}

/// The single selector bytes choose their encoding by a fixed table; the reserved ones are kept,
/// unchanged, in the encoding they resolve to.
pub proof fn single_byte_selectors(data: Seq<u8>)
    requires
        data.len() >= 1,
    ensures
        data[0] == 0x01 ==> encoding_of(data) == TextEncoding::Iso88595,
        data[0] == 0x02 ==> encoding_of(data) == TextEncoding::Iso88596,
        data[0] == 0x03 ==> encoding_of(data) == TextEncoding::Iso88597,
        data[0] == 0x04 ==> encoding_of(data) == TextEncoding::Iso88598,
        data[0] == 0x05 ==> encoding_of(data) == TextEncoding::Iso88599,
        data[0] == 0x06 ==> encoding_of(data) == TextEncoding::Iso885910,
        data[0] == 0x07 ==> encoding_of(data) == TextEncoding::Iso885911,
        data[0] == 0x09 ==> encoding_of(data) == TextEncoding::Iso885913,
        data[0] == 0x0a ==> encoding_of(data) == TextEncoding::Iso885914,
        data[0] == 0x0b ==> encoding_of(data) == TextEncoding::Iso885915,
        data[0] == 0x11 ==> encoding_of(data) == TextEncoding::Iso10646,
        data[0] == 0x12 ==> encoding_of(data) == TextEncoding::KSX1001_2004,
        data[0] == 0x13 ==> encoding_of(data) == TextEncoding::GB2312_1980,
        data[0] == 0x14 ==> encoding_of(data) == TextEncoding::Big5,
        data[0] == 0x15 ==> encoding_of(data) == TextEncoding::UTF8,
        (data[0] == 0x08 || 0x0c <= data[0] <= 0x0f || 0x16 <= data[0] <= 0x1e) ==> encoding_of(data)
            == TextEncoding::Reserved1(data[0]),
{
}

/// A `0x10` selector without its two code bytes makes both decodings fail, naming the three
/// bytes needed and the bytes there are.
pub proof fn short_multi_byte_selector(data: Seq<u8>)
    requires
        data.len() >= 1,
        data[0] == 0x10,
        data.len() < 3,
    ensures
        strict_decoding(data) == Err::<Seq<char>, _>(
            TextError::NotEnoughData { expected: 3, available: data.len() as usize },
        ),
        lossy_decoding(data) == Err::<Seq<char>, _>(
            TextError::NotEnoughData { expected: 3, available: data.len() as usize },
        ),
{
}

/// Any text, written in UTF-8 behind the `0x15` selector, decodes strictly to itself.
pub proof fn utf8_round_trip(s: Seq<char>)
    ensures
        strict_decoding(seq![0x15u8] + encode_utf8(s)) == Ok::<_, TextError>(s),
{
    broadcast use encode_utf8_decode_utf8, encode_utf8_valid_utf8;

    let data = seq![0x15u8] + encode_utf8(s);
    assert(data.skip(1) =~= encode_utf8(s));
}

/// Decoding with replacement fails only for want of bytes or of a decoder for the encoding, never
/// on malformed text, and gives the strict decoding wherever that succeeds; under the UTF-8
/// selector it always succeeds, where strict decoding of malformed UTF-8 fails.
pub proof fn replacement_never_fails_on_bad_bytes(data: Seq<u8>)
    requires
        data.len() >= 1,
        prefix_error(data) is None,
    ensures
        lossy_decoding(data) matches Err(e) ==> e == TextError::UnsupportedEncoding(
            encoding_of(data),
        ),
        strict_decoding(data) is Ok ==> lossy_decoding(data) == strict_decoding(data),
        data[0] == 0x15 ==> lossy_decoding(data) is Ok,
        data[0] == 0x15 && !valid_utf8(data.skip(1)) ==> strict_decoding(data) == Err::<
            Seq<char>,
            _,
        >(TextError::DecodeFailure),
{
    reveal_strlit("utf-8");
    reveal_strlit("big5");
    reveal_strlit("iso-8859-2");
    reveal_strlit("iso-8859-3");
    reveal_strlit("iso-8859-4");
    reveal_strlit("iso-8859-5");
    reveal_strlit("iso-8859-6");
    reveal_strlit("iso-8859-7");
    reveal_strlit("iso-8859-8");
    reveal_strlit("iso-8859-10");
    reveal_strlit("iso-8859-13");
    reveal_strlit("iso-8859-14");
    reveal_strlit("iso-8859-15");
    let enc = encoding_of(data);
    if let Some(label) = charset_label(enc) {
        if enc != TextEncoding::UTF8 {
            assert(label[0] != "utf-8"@[0] || label.len() != "utf-8"@.len());
        }
    }
}

/// A field without a selector (`0x00`), or whose encoding is named through a registry (`0x1F`),
/// resolves to a reserved encoding that keeps the byte; both decodings report it as unsupported,
/// or as too short where a `0x1F` field lacks its second byte.
pub proof fn unresolved_selectors(data: Seq<u8>)
    requires
        data.len() >= 1,
        data[0] == 0x00 || data[0] == 0x1f,
    ensures
        encoding_of(data) == TextEncoding::Reserved1(data[0]),
        data[0] == 0x1f && data.len() < 2 ==> strict_decoding(data) == Err::<Seq<char>, _>(
            TextError::NotEnoughData { expected: 2, available: data.len() as usize },
        ) && lossy_decoding(data) == strict_decoding(data),
        !(data[0] == 0x1f && data.len() < 2) ==> strict_decoding(data) == Err::<Seq<char>, _>(
            TextError::UnsupportedEncoding(TextEncoding::Reserved1(data[0])),
        ) && lossy_decoding(data) == strict_decoding(data),
{
}

} // verus!
