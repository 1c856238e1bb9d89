//! Content-addressed identity of a tool definition.
//!
//! The fingerprint is the lowercase hex form of the first eight bytes of
//! the SHA-256 digest of `name|description|schema`. It holds no secret: it
//! identifies, it does not authenticate.

use crate::gateway::{Tool, ToolView};
use crate::text::{append_str, from_chars, to_chars};
use sha2::{Digest, Sha256};
use vstd::prelude::*;

verus! {

/// The number of digest bytes that make up a fingerprint.
pub const FINGERPRINT_BYTES: usize = 8;

/// The SHA-256 digest of a sequence of bytes, as `Sha256::digest` of the
/// `sha2` crate computes it.
pub uninterp spec fn sha256(data: Seq<u8>) -> Seq<u8>;

/// The lowercase hexadecimal digit for a value below sixteen.
pub open spec fn hex_digit(nibble: int) -> char {
    if nibble < 10 {
        ((nibble + 48) as u8) as char
    } else {
        ((nibble + 87) as u8) as char
    }
}

/// The lowercase hexadecimal form of a sequence of bytes: two digits for
/// each byte, the high half first.
pub open spec fn hex_lower(data: Seq<u8>) -> Seq<char> {
    Seq::new(
        2 * data.len(),
        |i: int|
            if i % 2 == 0 {
                hex_digit(data[i / 2] as int / 16)
            } else {
                hex_digit(data[i / 2] as int % 16)
            },
    )
}

/// The text that is hashed for a tool: name, description (empty when there
/// is none) and serialised schema, separated by `|`.
pub open spec fn fingerprint_content(tool: ToolView) -> Seq<char> {
    let description = match tool.description {
        Some(d) => d,
        None => Seq::empty(),
    };
    tool.name + "|"@ + description + "|"@ + tool.input_schema
}

/// The identity token for a digest: the hex form of its first eight bytes
/// (of all of them where it has fewer).
pub open spec fn digest_token(digest: Seq<u8>) -> Seq<char> {
    if digest.len() >= FINGERPRINT_BYTES {
        hex_lower(digest.take(FINGERPRINT_BYTES as int))
    } else {
        hex_lower(digest)
    }
}

/// The fingerprint of a tool.
pub open spec fn tool_fingerprint(tool: ToolView) -> Seq<char> {
    digest_token(sha256(vstd::utf8::encode_utf8(fingerprint_content(tool))))
}

/// A tool without a description has the fingerprint of the same tool with
/// an empty description.
pub proof fn lemma_missing_description_is_empty(tool: ToolView)
    requires
        tool.description is None,
    ensures
        tool_fingerprint(tool) == tool_fingerprint(
            ToolView { description: Some(Seq::empty()), ..tool },
        ),
{
    let other = ToolView { description: Some(Seq::empty()), ..tool };
    assert(fingerprint_content(tool) =~= fingerprint_content(other));
}

/// Computes SHA-256 with `Sha256::digest` of the `sha2` crate: the result
/// is the digest of the given bytes, which has 32 bytes.
#[verifier::external_body]
fn sha256_digest(data: &[u8]) -> (digest: Vec<u8>)
    ensures
        digest@ == sha256(data@),
        digest@.len() == 32,
{
    Sha256::digest(data).to_vec()
}

/// Encodes bytes with `hex::encode`: two lowercase hexadecimal digits for
/// each byte, in order.
#[verifier::external_body]
fn hex_encode(data: &[u8]) -> (text: String)
    ensures
        text@ == hex_lower(data@),
{
    hex::encode(data)
}

/// Renders a digest as an identity token: the lowercase hex form of its
/// first eight bytes.
pub fn token_from_digest(digest: &Vec<u8>) -> (token: String)
    ensures
        token@ == digest_token(digest@),
{
    let count = if digest.len() >= FINGERPRINT_BYTES {
        FINGERPRINT_BYTES
    } else {
        digest.len()
    };
    let mut head: Vec<u8> = Vec::new();
    let mut i: usize = 0;
    while i < count
        invariant
            i <= count <= digest.len(),
            head@ == digest@.take(i as int),
        decreases count - i,
    {
        head.push(digest[i]);
        i += 1;
        assert(head@ =~= digest@.take(i as int));
    }
    assert(digest@.take(digest.len() as int) == digest@);
    hex_encode(head.as_slice())
}

/// Computes the fingerprint of a tool: a deterministic content hash of its
/// name, description and input schema, as sixteen lowercase hex
/// characters. A missing description counts as an empty one.
pub fn compute_tool_fingerprint(tool: &Tool) -> (fingerprint: String)
    ensures
        fingerprint@ == tool_fingerprint(tool@),
        fingerprint@.len() == 16,
{
    let mut content: Vec<char> = to_chars(tool.name.as_str());
    content.push('|');
    match &tool.description {
        Some(description) => {
            append_str(&mut content, description.as_str());
        },
        None => {},
    }
    content.push('|');
    append_str(&mut content, tool.input_schema.as_str());
    proof {
        reveal_strlit("|");
        assert(content@ =~= fingerprint_content(tool@));
    }
    let text = from_chars(&content);
    let digest = sha256_digest(text.as_str().as_bytes());
    token_from_digest(&digest)
}

} // verus!
