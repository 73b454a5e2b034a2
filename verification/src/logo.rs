//! The application logo as the user interface takes it: the image bytes
//! as a `data:` URL, and the path of the cached file with forward slashes.

use vstd::prelude::*;
use vstd::string::*;

verus! {

/// The standard base64 encoding of `bytes`, with padding, as the `base64`
/// crate computes it.
pub uninterp spec fn base64_standard(bytes: Seq<u8>) -> Seq<char>;

/// Whether the base64 encoding of `len` bytes has a length that fits the
/// machine: four characters for every three bytes, the last group padded.
pub open spec fn base64_fits(len: nat) -> bool {
    (len / 3) * 4 + (if len % 3 > 0 {
        4int
    } else {
        0int
    }) <= usize::MAX
}

/// The `data:` URL of a PNG image whose base64 encoding is `encoded`.
pub open spec fn png_data_url(encoded: Seq<char>) -> Seq<char> {
    "data:image/png;base64,"@ + encoded
}

/// `path` with each backslash turned into a forward slash.
pub open spec fn forward_slashes(path: Seq<char>) -> Seq<char> {
    path.map_values(
        |c: char|
            if c == '\\' {
                '/'
            } else {
                c
            },
    )
}

/// `Engine::encode` of the `base64` crate, on its `STANDARD` engine.
/// Trusted: the result is the standard padded encoding of the bytes, a
/// function of the bytes alone. The crate panics where the encoded length
/// does not fit in `usize`, which the precondition rules out.
#[verifier::external_body]
fn encode_base64(bytes: &[u8]) -> (text: String)
    requires
        base64_fits(bytes@.len()),
    ensures
        text@ == base64_standard(bytes@),
{
    base64::Engine::encode(&base64::engine::general_purpose::STANDARD, bytes)
}

/// `String::from_iter` of the standard library, on characters. Trusted:
/// the string holds exactly those characters, in order.
#[verifier::external_body]
fn string_of_chars(chars: &Vec<char>) -> (text: String)
    ensures
        text@ == chars@,
{
    String::from_iter(chars.iter())
}

/// Whether `len` bytes can be base64-encoded on this machine.
pub fn can_encode(len: usize) -> (ok: bool)
    ensures
        ok == base64_fits(len as nat),
{
    match (len / 3).checked_mul(4) {
        None => false,
        Some(whole) => len % 3 == 0 || whole.checked_add(4).is_some(),
    }
}

/// The `data:` URL of a PNG image, given its base64 encoding.
pub fn data_url_of(encoded: &str) -> (url: String)
    ensures
        url@ == png_data_url(encoded@),
{
    String::from_str("data:image/png;base64,").concat(encoded)
}

/// The `data:` URL of the PNG image `bytes`.
pub fn logo_data_url(bytes: &[u8]) -> (url: String)
    requires
        base64_fits(bytes@.len()),
    ensures
        url@ == png_data_url(base64_standard(bytes@)),
{
    let encoded = encode_base64(bytes);
    data_url_of(encoded.as_str())
}

/// The `data:` URL of the PNG image `bytes`, or `None` where the image is
/// too long to encode on this machine.
pub fn checked_logo_data_url(bytes: &[u8]) -> (url: Option<String>)
    ensures
        match url {
            Some(text) => base64_fits(bytes@.len()) && text@ == png_data_url(
                base64_standard(bytes@),
            ),
            None => !base64_fits(bytes@.len()),
        },
{
    if can_encode(bytes.len()) {
        Some(logo_data_url(bytes))
    } else {
        None
    }
}

/// The path of the logo file as the user interface takes it: with forward
/// slashes on every platform.
pub fn logo_path_text(path: &str) -> (text: String)
    ensures
        text@ == forward_slashes(path@),
{
    let mut chars: Vec<char> = Vec::new();
    for c in it: path.chars()
        invariant
            it.seq() == path@,
            chars@ == forward_slashes(path@.take(it.index() as int)),
    {
        proof {
            assert(path@.take(it.index() + 1) =~= path@.take(it.index() as int).push(c));
            assert(forward_slashes(path@.take(it.index() + 1)) =~= forward_slashes(
                path@.take(it.index() as int),
            ).push(forward_slashes(seq![c])[0]));
        }
        chars.push(if c == '\\' { '/' } else { c });
    }
    proof {
        assert(path@.take(path@.len() as int) =~= path@);
    }
    string_of_chars(&chars)
}

} // verus!
