//! The calls into the `encoding_rs` decoding backend, with what this crate relies on of each.
use vstd::prelude::*;
use vstd::utf8::*;
use crate::{is_charset_label, latin1};

verus! {

/// The text that strict decoding of `bytes` in the charset labelled `label` gives, or `None`
/// where `bytes` is malformed in that charset.
pub uninterp spec fn decoded_strict(label: Seq<char>, bytes: Seq<u8>) -> Option<Seq<char>>;

/// The text that decoding of `bytes` in the charset labelled `label` gives, with each malformed
/// sequence replaced by U+FFFD.
pub uninterp spec fn decoded_lossy(label: Seq<char>, bytes: Seq<u8>) -> Seq<char>;

/// Relies on `encoding_rs::mem::decode_latin1`: each byte becomes the character whose code point
/// it is.
#[verifier::external_body]
pub(crate) fn latin1_to_string(bytes: &[u8]) -> (r: String)
    ensures
        r@ == latin1(bytes@),
{
    encoding_rs::mem::decode_latin1(bytes).into_owned()
}

/// Relies on `encoding_rs::Encoding::for_label`, which knows every label that
/// `charset_label` gives, and on `Encoding::decode_without_bom_handling_and_without_replacement`,
/// which fails on malformed input and, for UTF-8, accepts exactly the valid UTF-8 sequences and
/// hands them back unchanged.
#[verifier::external_body]
pub(crate) fn decode_strict(label: &str, bytes: &[u8]) -> (r: Option<String>)
    requires
        is_charset_label(label@),
    ensures
        r matches Some(s) ==> decoded_strict(label@, bytes@) == Some(s@),
        r is None ==> decoded_strict(label@, bytes@) is None,
        label@ == "utf-8"@ ==> (r is Some <==> valid_utf8(bytes@)),
        label@ == "utf-8"@ && r is Some ==> r->Some_0@ == decode_utf8(bytes@),
{
    let enc = encoding_rs::Encoding::for_label(label.as_bytes()).unwrap();
    enc.decode_without_bom_handling_and_without_replacement(bytes).map(|s| s.into_owned())
}

/// Relies on `encoding_rs::Encoding::for_label`, which knows every label that
/// `charset_label` gives, and on `Encoding::decode_without_bom_handling`, which replaces each
/// malformed sequence with U+FFFD and always returns text: the same text as strict decoding
/// wherever that succeeds, which for UTF-8 is the input itself wherever it is valid UTF-8.
#[verifier::external_body]
pub(crate) fn decode_lossy(label: &str, bytes: &[u8]) -> (r: String)
    requires
        is_charset_label(label@),
    ensures
        label@ == "utf-8"@ && valid_utf8(bytes@) ==> r@ == decode_utf8(bytes@),
        decoded_strict(label@, bytes@) matches Some(t) ==> r@ == t,
        decoded_strict(label@, bytes@) is None ==> r@ == decoded_lossy(label@, bytes@),
{
    let enc = encoding_rs::Encoding::for_label(label.as_bytes()).unwrap();
    enc.decode_without_bom_handling(bytes).0.into_owned()
}

} // verus!
