//! Addresses and escaped text, as the `url` and `url_escape` crates make
//! them. The functions of this file call into those crates; what is said
//! of their results here is taken on trust.

use crate::cups::ipp_attribute::opt_text;
use url::Url;
use vstd::prelude::*;
use vstd::utf8::encode_utf8;

verus! {

/// The longest text, in bytes, that is handed to an operation which changes
/// an address. An address counts its bytes in 32 bits; the limit leaves
/// room for what parsing and escaping add.
pub const MAX_URI_BYTES: usize = 0x1000_0000;

/// The text is too long to be handed to an operation on addresses.
pub open spec fn too_long(text: Seq<char>) -> bool {
    encode_utf8(text).len() > MAX_URI_BYTES
}

/// The address that `Url::parse` reads out of a text, in its normal
/// written form; `None` where the text is no absolute address.
pub uninterp spec fn parsed_uri(input: Seq<char>) -> Option<Seq<char>>;

/// The written form of the address `uri` after `Url::set_username`; `None`
/// where `uri` is no address or cannot carry a user name.
pub uninterp spec fn uri_with_username(uri: Seq<char>, username: Seq<char>) -> Option<Seq<char>>;

/// The written form of the address `uri` after `Url::set_password`; `None`
/// where `uri` is no address or cannot carry a password.
pub uninterp spec fn uri_with_password(uri: Seq<char>, password: Seq<char>) -> Option<Seq<char>>;

/// The written form of the address that `Url::join` resolves `reference`
/// to against `base`; `None` where `base` is no address or the reference
/// does not resolve.
pub uninterp spec fn uri_joined(base: Seq<char>, reference: Seq<char>) -> Option<Seq<char>>;

/// Whether a byte is written as an escape inside a fragment: the controls,
/// the space, `"`, `<`, `>`, the backtick, DEL and every byte of a
/// character outside ASCII.
pub open spec fn in_fragment_set(b: u8) -> bool {
    b <= 0x20 || b == 0x22 || b == 0x3c || b == 0x3e || b == 0x60 || b >= 0x7f
}

/// The upper-case hexadecimal digit of a number below sixteen.
pub open spec fn hex_digit(n: u8) -> char {
    if n < 10 {
        (0x30 + n) as u8 as char
    } else {
        (0x37 + n) as u8 as char
    }
}

/// One byte as it stands in escaped text: itself, or `%` and two digits.
pub open spec fn escaped_byte(b: u8) -> Seq<char> {
    if in_fragment_set(b) {
        seq!['%', hex_digit(b / 16), hex_digit(b % 16)]
    } else {
        seq![b as char]
    }
}

/// A run of bytes, each escaped where the fragment set asks for it.
pub open spec fn escaped_bytes(bytes: Seq<u8>) -> Seq<char>
    decreases bytes.len(),
{
    if bytes.len() == 0 {
        Seq::empty()
    } else {
        escaped_bytes(bytes.drop_last()) + escaped_byte(bytes.last())
    }
}

/// A text made safe for the fragment of an address: its UTF-8 bytes, each
/// escaped where the fragment set asks for it.
pub open spec fn fragment_escaped(text: Seq<char>) -> Seq<char> {
    escaped_bytes(encode_utf8(text))
}

/// Calls `url::Url::parse` and hands back the written form of the address
/// it read, `None` where it refused the text. The contract names that
/// result; it says nothing of what it looks like.
#[verifier::external_body]
pub(crate) fn parse_uri(input: &str) -> (res: Option<String>)
    ensures
        opt_text(res) == parsed_uri(input@),
{
    match Url::parse(input) {
        Ok(address) => Some(address.into()),
        Err(_) => None,
    }
}

/// Calls `url::Url::set_username` on the address written in `uri` and
/// hands back the written form of the changed address. `None` where `uri`
/// does not parse or where the address takes no user name (it has no
/// host, or its scheme is `file`). The contract names the result. Texts
/// over the limit are kept out: past four gigabytes the call panics.
#[verifier::external_body]
pub(crate) fn set_uri_username(uri: &str, username: &str) -> (res: Option<String>)
    requires
        !too_long(uri@),
        !too_long(username@),
    ensures
        opt_text(res) == uri_with_username(uri@, username@),
{
    let mut address = Url::parse(uri).ok()?;
    address.set_username(username).ok()?;
    Some(address.into())
}

/// Calls `url::Url::set_password` on the address written in `uri`, with
/// `Some(password)`, and hands back the written form of the changed
/// address. `None` where `uri` does not parse or where the address takes
/// no password. The contract names the result. Texts over the limit are
/// kept out: past four gigabytes the call panics.
#[verifier::external_body]
pub(crate) fn set_uri_password(uri: &str, password: &str) -> (res: Option<String>)
    requires
        !too_long(uri@),
        !too_long(password@),
    ensures
        opt_text(res) == uri_with_password(uri@, password@),
{
    let mut address = Url::parse(uri).ok()?;
    address.set_password(Some(password)).ok()?;
    Some(address.into())
}

/// Calls `url::Url::join` on the address written in `base` and hands back
/// the written form of the address that `reference` resolves to. `None`
/// where `base` does not parse or the reference does not resolve. The
/// contract names the result.
#[verifier::external_body]
pub(crate) fn join_uri(base: &str, reference: &str) -> (res: Option<String>)
    ensures
        opt_text(res) == uri_joined(base@, reference@),
{
    let address = Url::parse(base).ok()?;
    let joined = address.join(reference).ok()?;
    Some(joined.into())
}

/// Calls `url_escape::encode_fragment`. The contract says what that
/// function is documented to do: every byte of the fragment set, and every
/// byte of a character outside ASCII, is written as `%` and two upper-case
/// hexadecimal digits; every other byte stays.
#[verifier::external_body]
pub(crate) fn encode_fragment(text: &str) -> (res: String)
    ensures
        res@ == fragment_escaped(text@),
{
    url_escape::encode_fragment(text).into_owned()
}

/// Whether a text is over the limit for operations on addresses.
pub fn is_too_long(text: &str) -> (res: bool)
    ensures
        res == too_long(text@),
{
    text.as_bytes().len() > MAX_URI_BYTES
}

/// No escaped byte holds a NUL.
pub proof fn lemma_escaped_byte_has_no_nul(b: u8)
    ensures
        forall|i: int| 0 <= i < escaped_byte(b).len() ==> escaped_byte(b)[i] != '\0',
{
    assert(hex_digit(b / 16) != '\0' && hex_digit(b % 16) != '\0') by {
        assert(b / 16 < 16 && b % 16 < 16);
    }
    if !in_fragment_set(b) {
        assert(b as char != '\0');
    }
}

/// Escaped text never holds a NUL, whatever text it was made of.
pub proof fn lemma_escaped_bytes_have_no_nul(bytes: Seq<u8>)
    ensures
        !escaped_bytes(bytes).contains('\0'),
    decreases bytes.len(),
{
    if bytes.len() > 0 {
        lemma_escaped_bytes_have_no_nul(bytes.drop_last());
        lemma_escaped_byte_has_no_nul(bytes.last());
        let head = escaped_bytes(bytes.drop_last());
        let tail = escaped_byte(bytes.last());
        assert forall|i: int| 0 <= i < (head + tail).len() implies (head + tail)[i] != '\0' by {
            if i < head.len() {
                assert(head.contains(head[i]));
            } else {
                assert((head + tail)[i] == tail[i - head.len()]);
            }
        }
    }
}

/// A text made safe for a fragment can always be sent as a value.
pub proof fn lemma_fragment_escaped_has_no_nul(text: Seq<char>)
    ensures
        !crate::text::has_nul(fragment_escaped(text)),
{
    lemma_escaped_bytes_have_no_nul(encode_utf8(text));
}

} // verus!
