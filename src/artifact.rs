//! Where the waveform artifact of an input goes: a directory and a name
//! derived from a digest of the input path.

use vstd::prelude::*;
use vstd::string::StringSliceAdditionalSpecFns;

verus! {

/// The SHA-1 digest of a byte string.
pub uninterp spec fn sha1_of(data: Seq<u8>) -> Seq<u8>;

/// Relies on `sha1_smol::Sha1`: `from` feeds the bytes and `digest().bytes()`
/// returns the 20-byte digest, a function of the bytes alone.
#[verifier::external_body]
fn sha1_digest(data: &[u8]) -> (r: Vec<u8>)
    ensures
        r@ == sha1_of(data@),
        r@.len() == 20,
{
    sha1_smol::Sha1::from(data).digest().bytes().to_vec()
}

/// The lower-case hexadecimal digit of a value below 16.
pub open spec fn hex_digit(n: int) -> char {
    seq!['0', '1', '2', '3', '4', '5', '6', '7', '8', '9', 'a', 'b', 'c', 'd', 'e', 'f'][n]
}

/// Two lower-case hexadecimal digits per byte, the high one first.
pub open spec fn hex_of(b: Seq<u8>) -> Seq<char> {
    Seq::new(
        2 * b.len(),
        |k: int|
            if k % 2 == 0 {
                hex_digit(b[k / 2] as int / 16)
            } else {
                hex_digit(b[k / 2] as int % 16)
            },
    )
}

/// Relies on `hex::encode`: each byte becomes two digits from the table
/// `0123456789abcdef`, the high nibble first.
#[verifier::external_body]
fn hex_encode(data: &[u8]) -> (r: String)
    ensures
        r@ == hex_of(data@),
{
    hex::encode(data)
}

/// The directory used where none is configured.
pub open spec fn default_artifacts_dir() -> Seq<char> {
    seq!['.', 'm', 'e', 't', 'a', '-', 'd', 'j', '-', 'a', 'r', 't', 'i', 'f', 'a', 'c', 't', 's']
}

/// The suffix of a waveform artifact's file name.
pub open spec fn waveform_suffix() -> Seq<char> {
    seq!['.', 'w', 'a', 'v', 'e', 'f', 'o', 'r', 'm', '.', 'j', 's', 'o', 'n']
}

/// The identifier of an input path: the hex digest of its UTF-8 bytes.
pub open spec fn waveform_id_spec(path: &str) -> Seq<char> {
    hex_of(sha1_of(path.spec_bytes()))
}

/// The identifier of an input path: the hex digest of its UTF-8 bytes.
pub fn waveform_id(path: &str) -> (r: String)
    ensures
        r@ == waveform_id_spec(path),
        r@.len() == 40,
{
    let digest = sha1_digest(path.as_bytes());
    hex_encode(digest.as_slice())
}

/// The artifacts directory: the configured one, or the default.
pub fn artifacts_dir(configured: Option<String>) -> (r: String)
    ensures
        configured matches Some(d) ==> r@ == d@,
        configured is None ==> r@ == default_artifacts_dir(),
{
    match configured {
        Some(d) => d,
        None => {
            proof {
                reveal_strlit(".meta-dj-artifacts");
            }
            String::from_str(".meta-dj-artifacts")
        },
    }
}

/// The file of the waveform artifact of `path` in `dir`:
/// `<dir>/<id>.waveform.json`.
pub fn waveform_artifact_path(dir: &str, path: &str) -> (r: String)
    ensures
        r@ == dir@ + seq!['/'] + waveform_id_spec(path) + waveform_suffix(),
{
    let id = waveform_id(path);
    let mut out = String::from_str(dir);
    proof {
        reveal_strlit("/");
        reveal_strlit(".waveform.json");
    }
    out.append("/");
    out.append(id.as_str());
    out.append(".waveform.json");
    out
}

} // verus!
