//! Attachments kept as files that are named by their content.
//!
//! An attachment arrives as base64 text. Its bytes are kept in the folder of
//! the account it belongs to, in a file named by the SHA-256 digest of the
//! bytes, so that the same content is kept once.
use vstd::prelude::*;
use vstd::string::*;
use base64::Engine;
use sha2::Digest;

verus! {

/// The decoder's account of what is wrong with a text.
#[verifier::external_type_specification]
#[verifier::external_body]
pub struct ExDecodeError(base64::DecodeError);

/// The bytes that a text stands for in standard base64 with padding, none
/// where the text is not such an encoding.
pub uninterp spec fn base64_decoded(text: Seq<char>) -> Option<Seq<u8>>;

/// The text that stands for the bytes in standard base64 with padding.
pub uninterp spec fn base64_encoded(bytes: Seq<u8>) -> Seq<char>;

/// The SHA-256 digest of the bytes.
pub uninterp spec fn sha256(bytes: Seq<u8>) -> Seq<u8>;

/// Decodes standard base64.
///
/// Trusted: the body is `Engine::decode` of base64's `STANDARD` engine. The
/// contract claims that whether decoding succeeds, and with which bytes,
/// depends on the text alone.
#[verifier::external_body]
fn decode_standard(text: &str) -> (decoded: Result<Vec<u8>, base64::DecodeError>)
    ensures
        match decoded {
            Ok(bytes) => base64_decoded(text@) == Some(bytes@),
            Err(_) => base64_decoded(text@) is None,
        },
{
    base64::engine::general_purpose::STANDARD.decode(text)
}

/// Puts a decoding error in words.
///
/// Trusted: the body is the `Display` of `base64::DecodeError`. Nothing is
/// claimed of the words.
#[verifier::external_body]
fn describe(error: &base64::DecodeError) -> (words: String) {
    error.to_string()
}

/// Encodes bytes as standard base64.
///
/// Trusted: the body is `Engine::encode` of base64's `STANDARD` engine. The
/// contract claims that the text depends on the bytes alone.
#[verifier::external_body]
fn encode_standard(bytes: &[u8]) -> (text: String)
    ensures
        text@ == base64_encoded(bytes@),
{
    base64::engine::general_purpose::STANDARD.encode(bytes)
}

/// Computes the SHA-256 digest of bytes.
///
/// Trusted: the body is `Digest::digest` of sha2's `Sha256`. The contract
/// claims that the digest depends on the bytes alone and is 32 bytes long.
#[verifier::external_body]
fn sha256_digest(bytes: &[u8]) -> (digest: Vec<u8>)
    ensures
        digest@ == sha256(bytes@),
        digest@.len() == 32,
{
    sha2::Sha256::digest(bytes).to_vec()
}

/// Why an attachment could not be taken in.
#[derive(Clone, Debug, PartialEq, Eq)]
pub enum BlobError {
    /// The text is not base64; the decoder's words say why.
    InvalidBase64(String),
}

/// The text that reports a failure to take in an attachment.
pub open spec fn blob_error_text(error: BlobError) -> Seq<char> {
    match error {
        BlobError::InvalidBase64(words) => "Invalid base64: "@ + words@,
    }
}

impl BlobError {
    /// The error as a message for the caller.
    pub fn message(&self) -> (text: String)
        ensures
            text@ == blob_error_text(*self),
    {
        match self {
            BlobError::InvalidBase64(words) => {
                let mut text = String::from_str("Invalid base64: ");
                text.append(words.as_str());
                text
            },
        }
    }
}

/// The character of one hexadecimal digit, in lower case.
pub open spec fn hex_digit(d: nat) -> char
    recommends
        d < 16,
{
    if d == 0 {
        '0'
    } else if d == 1 {
        '1'
    } else if d == 2 {
        '2'
    } else if d == 3 {
        '3'
    } else if d == 4 {
        '4'
    } else if d == 5 {
        '5'
    } else if d == 6 {
        '6'
    } else if d == 7 {
        '7'
    } else if d == 8 {
        '8'
    } else if d == 9 {
        '9'
    } else if d == 10 {
        'a'
    } else if d == 11 {
        'b'
    } else if d == 12 {
        'c'
    } else if d == 13 {
        'd'
    } else if d == 14 {
        'e'
    } else {
        'f'
    }
}

/// Bytes written in hexadecimal, two lower-case digits for each byte.
pub open spec fn lower_hex(bytes: Seq<u8>) -> Seq<char> {
    Seq::new(
        2 * bytes.len(),
        |i: int|
            if i % 2 == 0 {
                hex_digit((bytes[i / 2] / 16) as nat)
            } else {
                hex_digit((bytes[i / 2] % 16) as nat)
            },
    )
}

/// The name of the file that keeps the given content.
pub open spec fn content_name(bytes: Seq<u8>) -> Seq<char> {
    lower_hex(sha256(bytes))
}

/// The folder of an account's attachments, as the names on the way to it
/// from the root of the application's data.
pub open spec fn account_folder(account_id: Seq<char>) -> Seq<Seq<char>> {
    seq!["workspaces"@, account_id, "blobs"@]
}

fn hex_digit_text(d: u8) -> (text: &'static str)
    requires
        d < 16,
    ensures
        text@ == seq![hex_digit(d as nat)],
{
    proof {
        reveal_strlit("0");
        reveal_strlit("1");
        reveal_strlit("2");
        reveal_strlit("3");
        reveal_strlit("4");
        reveal_strlit("5");
        reveal_strlit("6");
        reveal_strlit("7");
        reveal_strlit("8");
        reveal_strlit("9");
        reveal_strlit("a");
        reveal_strlit("b");
        reveal_strlit("c");
        reveal_strlit("d");
        reveal_strlit("e");
        reveal_strlit("f");
    }
    let text = if d == 0 {
        "0"
    } else if d == 1 {
        "1"
    } else if d == 2 {
        "2"
    } else if d == 3 {
        "3"
    } else if d == 4 {
        "4"
    } else if d == 5 {
        "5"
    } else if d == 6 {
        "6"
    } else if d == 7 {
        "7"
    } else if d == 8 {
        "8"
    } else if d == 9 {
        "9"
    } else if d == 10 {
        "a"
    } else if d == 11 {
        "b"
    } else if d == 12 {
        "c"
    } else if d == 13 {
        "d"
    } else if d == 14 {
        "e"
    } else {
        "f"
    };
    assert(text@ =~= seq![hex_digit(d as nat)]);
    text
}

/// Writes bytes in hexadecimal, two lower-case digits for each byte.
pub fn to_lower_hex(bytes: &[u8]) -> (text: String)
    ensures
        text@ == lower_hex(bytes@),
{
    let mut text = String::new();
    let mut at: usize = 0;
    assert(text@ =~= lower_hex(bytes@.take(0)));
    while at < bytes.len()
        invariant
            at <= bytes@.len(),
            text@ == lower_hex(bytes@.take(at as int)),
        decreases bytes@.len() - at,
    {
        let byte = bytes[at];
        let ghost before = text@;
        text.append(hex_digit_text(byte / 16));
        text.append(hex_digit_text(byte % 16));
        assert(text@ =~= lower_hex(bytes@.take(at + 1))) by {
            let next = lower_hex(bytes@.take(at + 1));
            assert(text@.len() == next.len());
            assert forall|i: int| 0 <= i < next.len() implies text@[i] == next[i] by {
                if i < 2 * at {
                    assert(text@[i] == before[i]);
                    assert(bytes@.take(at as int)[i / 2] == bytes@.take(at + 1)[i / 2]);
                } else {
                    assert(i / 2 == at);
                    assert(bytes@.take(at + 1)[at as int] == byte);
                }
            }
        }
        at += 1;
    }
    assert(bytes@.take(at as int) =~= bytes@);
    text
}

/// Decodes the base64 text of an attachment.
pub fn decode_blob(file_base64: &str) -> (decoded: Result<Vec<u8>, BlobError>)
    ensures
        match decoded {
            Ok(bytes) => base64_decoded(file_base64@) == Some(bytes@),
            Err(error) => base64_decoded(file_base64@) is None && error is InvalidBase64,
        },
{
    match decode_standard(file_base64) {
        Ok(bytes) => Ok(bytes),
        Err(error) => Err(BlobError::InvalidBase64(describe(&error))),
    }
}

/// Encodes the content of an attachment as base64 text.
pub fn encode_blob(bytes: &[u8]) -> (text: String)
    ensures
        text@ == base64_encoded(bytes@),
{
    encode_standard(bytes)
}

/// The name of the file that keeps `bytes`: their SHA-256 digest in
/// hexadecimal.
pub fn blob_name(bytes: &[u8]) -> (name: String)
    ensures
        name@ == content_name(bytes@),
        name@.len() == 64,
{
    let digest = sha256_digest(bytes);
    to_lower_hex(digest.as_slice())
}

/// The folder that keeps the attachments of an account, as the names on the
/// way to it from the root of the application's data.
pub fn blob_folder(account_id: &String) -> (names: Vec<String>)
    ensures
        names.deep_view() == account_folder(account_id@),
{
    let mut names: Vec<String> = Vec::new();
    names.push(String::from_str("workspaces"));
    names.push(account_id.clone());
    names.push(String::from_str("blobs"));
    assert(names.deep_view() =~= account_folder(account_id@));
    names
}

} // verus!
