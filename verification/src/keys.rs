use base64::engine::general_purpose::STANDARD as BASE64_STANDARD;
use base64::Engine;
use sha2::{Digest, Sha256};
use tokio_util::bytes::BytesMut;
use tokio_util::codec::{Encoder, LengthDelimitedCodec};
use std::collections::hash_map::RandomState;
use vstd::prelude::*;
use vstd::utf8::encode_utf8;

use crate::text::{decimal, path_join, path_joined};

verus! {

/// When a key is uploaded, relative to the activation.
#[derive(Clone, Copy, Debug, PartialEq, Eq, Hash, Structural)]
pub enum UploadKeyAt {
    PreActivation,
    PostActivation,
    NoFilter,
}

/// Where the content of a key comes from.
#[derive(Debug)]
pub enum Source {
    String(String),
    Path(String),
    Command(Vec<String>),
}

/// A secret to upload to a node.
#[derive(Debug)]
pub struct Key {
    pub name: String,
    pub dest_dir: String,
    pub path: String,
    pub group: String,
    pub user: String,
    pub permissions: String,
    pub source: Source,
    pub upload_at: UploadKeyAt,
    pub environment: im::HashMap<String, String, RandomState>,
}

/// Whether `c` is an octal digit.
pub open spec fn is_octal_digit(c: char) -> bool {
    '0' <= c && c <= '7'
}

/// The value of the octal digits `s`.
pub open spec fn octal_digits_value(s: Seq<char>) -> nat
    decreases s.len(),
{
    if s.len() == 0 {
        0
    } else {
        octal_digits_value(s.drop_last()) * 8 + ((s.last() as nat) - 48) as nat
    }
}

/// What `u32::from_str_radix(s, 8)` gives: an optional `+`, then at least
/// one octal digit, with a value that fits in a `u32`; `None` for anything
/// else.
pub open spec fn octal_u32(s: Seq<char>) -> Option<u32> {
    let digits = if s.len() > 0 && s[0] == '+' {
        s.subrange(1, s.len() as int)
    } else {
        s
    };
    if digits.len() > 0 && (forall|i: int| 0 <= i < digits.len() ==> is_octal_digit(#[trigger] digits[i]))
        && octal_digits_value(digits) <= u32::MAX {
        Some(octal_digits_value(digits) as u32)
    } else {
        None
    }
}

/// `u32::from_str_radix(s, 8)`. Claimed, as std documents: an optional `+`
/// followed by digits of the radix is accepted when its value fits, and
/// nothing else.
#[verifier::external_body]
fn parse_octal_u32(s: &str) -> (res: Option<u32>)
    ensures
        res == octal_u32(s@),
{
    u32::from_str_radix(s, 8).ok()
}

/// The SHA-256 digest of `bytes` (sha2).
pub uninterp spec fn sha256_of(bytes: Seq<u8>) -> Seq<u8>;

/// `Sha256::digest`. Claimed: the named digest, of 32 bytes.
#[verifier::external_body]
fn sha256(bytes: &[u8]) -> (res: Vec<u8>)
    ensures
        res@ == sha256_of(bytes@),
        res@.len() == 32,
{
    Sha256::digest(bytes).to_vec()
}

/// The character of the standard base64 alphabet for the six-bit value `v`.
pub open spec fn base64_char(v: nat) -> char {
    if v < 26 {
        (65 + v) as char
    } else if v < 52 {
        (97 + v - 26) as char
    } else if v < 62 {
        (48 + v - 52) as char
    } else if v == 62 {
        '+'
    } else {
        '/'
    }
}

/// The standard base64 encoding of `bytes`, with padding: each group of
/// three bytes gives four characters of six bits each, most significant
/// first; a last group of one or two bytes is completed with zero bits and
/// padded with `=` to four characters.
pub open spec fn base64_encoded(bytes: Seq<u8>) -> Seq<char>
    decreases bytes.len(),
{
    if bytes.len() == 0 {
        Seq::empty()
    } else if bytes.len() == 1 {
        let b0 = bytes[0] as nat;
        seq![base64_char(b0 / 4), base64_char((b0 % 4) * 16), '=', '=']
    } else if bytes.len() == 2 {
        let (b0, b1) = (bytes[0] as nat, bytes[1] as nat);
        seq![base64_char(b0 / 4), base64_char((b0 % 4) * 16 + b1 / 16), base64_char((b1 % 16) * 4), '=']
    } else {
        let (b0, b1, b2) = (bytes[0] as nat, bytes[1] as nat, bytes[2] as nat);
        seq![
            base64_char(b0 / 4),
            base64_char((b0 % 4) * 16 + b1 / 16),
            base64_char((b1 % 16) * 4 + b2 / 64),
            base64_char(b2 % 64),
        ] + base64_encoded(bytes.skip(3))
    }
}

/// The bytes that the standard base64 text `text` decodes to, if it is
/// valid.
pub uninterp spec fn base64_decoded(text: Seq<u8>) -> Option<Seq<u8>>;

/// `BASE64_STANDARD.encode`. Claimed: the standard padded base64 encoding
/// (RFC 4648), which `BASE64_STANDARD.decode` turns back into `bytes`.
#[verifier::external_body]
pub(crate) fn base64_encode(bytes: &[u8]) -> (res: String)
    ensures
        res@ == base64_encoded(bytes@),
        base64_decoded(encode_utf8(res@)) == Some(bytes@),
{
    BASE64_STANDARD.encode(bytes)
}

/// `BASE64_STANDARD.decode`. Claimed: the named decoding; `None` on an
/// error.
#[verifier::external_body]
pub(crate) fn base64_decode(text: &[u8]) -> (res: Option<Vec<u8>>)
    ensures
        match res {
            Some(b) => base64_decoded(text@) == Some(b@),
            None => base64_decoded(text@) is None,
        },
{
    BASE64_STANDARD.decode(text).ok()
}

/// The largest frame that the length-delimited codec encodes by default.
pub open spec fn max_frame_len() -> nat {
    8 * 1024 * 1024
}

/// The four bytes of `n`, most significant first.
pub open spec fn be_u32(n: nat) -> Seq<u8> {
    seq![(n / 16777216 % 256) as u8, (n / 65536 % 256) as u8, (n / 256 % 256) as u8, (n % 256) as u8]
}

/// A frame of the default length-delimited codec: the length as four bytes,
/// most significant first, then the data.
pub open spec fn frame_of(data: Seq<u8>) -> Seq<u8> {
    be_u32(data.len()) + data
}

/// `LengthDelimitedCodec::new()` encoding `data`. Claimed, as its source
/// shows: with the default settings the frame is a big-endian four byte
/// length followed by the data, and data longer than 8 MiB is refused.
#[verifier::external_body]
pub(crate) fn encode_frame(data: &[u8]) -> (res: Option<Vec<u8>>)
    ensures
        data@.len() <= max_frame_len() <==> res is Some,
        res matches Some(f) ==> f@ == frame_of(data@),
{
    let mut codec = LengthDelimitedCodec::new();
    let mut buffer = BytesMut::new();
    match codec.encode(data, &mut buffer) {
        Ok(()) => Some(buffer.to_vec()),
        Err(_) => None,
    }
}

/// The file that a key is written to, with its owner, group, mode, length
/// and digest, as sent to the key agent.
#[derive(Debug)]
pub struct KeySpec {
    pub destination: String,
    pub user: String,
    pub group: String,
    pub permissions: u32,
    pub length: u32,
    pub digest: Vec<u8>,
    pub last: bool,
}

/// How a key spec is shown: `destination user:group permissions`.
pub open spec fn keyspec_text(spec: KeySpec) -> Seq<char> {
    spec.destination@ + " "@ + spec.user@ + ":"@ + spec.group@ + " "@ + decimal(spec.permissions as nat)
}

/// `destination user:group permissions`.
pub fn pretty_keyspec(spec: &KeySpec) -> (res: String)
    ensures
        res@ == keyspec_text(*spec),
{
    let mut s = spec.destination.clone();
    s.append(" ");
    s.append(spec.user.as_str());
    s.append(":");
    s.append(spec.group.as_str());
    s.append(" ");
    s.append(crate::text::u64_to_string(spec.permissions as u64).as_str());
    s
}

/// Why a key could not be staged.
#[derive(Debug)]
pub enum KeyError {
    /// The key's permissions are no octal number.
    ParseKeyPermissions(String),
    /// The key is longer than its length field holds.
    TooLong,
}

/// The permissions of a key, read as an octal number.
pub fn get_u32_permission(key: &Key) -> (res: Option<u32>)
    ensures
        res == octal_u32(key.permissions@),
{
    parse_octal_u32(key.permissions.as_str())
}

/// The spec of `key` with content `content`: written to the key's name
/// inside its destination directory, with its owner, group and octal
/// permissions, the content's length and SHA-256 digest, not the last.
pub fn key_spec_for(key: &Key, content: &Vec<u8>) -> (res: Result<KeySpec, KeyError>)
    ensures
        content@.len() > u32::MAX ==> res matches Err(KeyError::TooLong),
        content@.len() <= u32::MAX && octal_u32(key.permissions@) is None ==> (res matches Err(
            KeyError::ParseKeyPermissions(p),
        ) && p@ == key.permissions@),
        content@.len() <= u32::MAX && octal_u32(key.permissions@) is Some ==> (res matches Ok(spec) && {
            &&& spec.destination@ == path_joined(key.dest_dir@, key.name@)
            &&& spec.user@ == key.user@
            &&& spec.group@ == key.group@
            &&& spec.permissions == octal_u32(key.permissions@)->0
            &&& spec.length == content@.len()
            &&& spec.digest@ == sha256_of(content@)
            &&& !spec.last
        }),
{
    if content.len() > 4294967295usize {
        return Err(KeyError::TooLong);
    }
    let length = content.len() as u32;
    let permissions = match get_u32_permission(key) {
        Some(p) => p,
        None => return Err(KeyError::ParseKeyPermissions(key.permissions.clone())),
    };
    let destination = path_join(key.dest_dir.as_str(), key.name.as_str());
    Ok(KeySpec {
        destination,
        user: key.user.clone(),
        group: key.group.clone(),
        permissions,
        length,
        digest: sha256(content.as_slice()),
        last: false,
    })
}

/// Whether a key is uploaded by the key step with `filter`: every key
/// without filter, else the keys whose moment differs from the filter.
pub open spec fn uploaded_by(filter: UploadKeyAt, upload_at: UploadKeyAt) -> bool {
    filter == UploadKeyAt::NoFilter || upload_at != filter
}

/// The indices of the keys that the key step with `filter` uploads, in
/// order.
pub fn keys_to_upload(keys: &Vec<Key>, filter: UploadKeyAt) -> (res: Vec<usize>)
    ensures
        forall|i: int| 0 <= i < res@.len() ==> #[trigger] res@[i] < keys@.len() && uploaded_by(filter, keys@[res@[i] as int].upload_at),
        forall|i: int, j: int| 0 <= i < j < res@.len() ==> res@[i] < res@[j],
        forall|k: int| 0 <= k < keys@.len() && uploaded_by(filter, keys@[k].upload_at) ==> res@.contains(k as usize),
{
    let mut res: Vec<usize> = Vec::new();
    let mut i: usize = 0;
    while i < keys.len()
        invariant
            0 <= i <= keys@.len(),
            forall|m: int| 0 <= m < res@.len() ==> #[trigger] res@[m] < i && uploaded_by(filter, keys@[res@[m] as int].upload_at),
            forall|m: int, n: int| 0 <= m < n < res@.len() ==> res@[m] < res@[n],
            forall|k: int| 0 <= k < i && uploaded_by(filter, keys@[k].upload_at) ==> res@.contains(k as usize),
        decreases keys@.len() - i,
    {
        let upload_at = keys[i].upload_at;
        let take = match filter {
            UploadKeyAt::NoFilter => true,
            _ => upload_at != filter,
        };
        if take {
            let ghost before = res@;
            res.push(i);
            proof {
                assert forall|k: int| 0 <= k < i + 1 && uploaded_by(filter, keys@[k].upload_at) implies res@.contains(k as usize) by {
                    if k == i {
                        assert(res@[res@.len() - 1] == i);
                    } else {
                        let m = choose|m: int| 0 <= m < before.len() && before[m] == k as usize;
                        assert(res@[m] == k as usize);
                    }
                }
            }
        }
        i = i + 1;
    }
    res
}

/// Marks the last of `specs`, if any, as the last key the agent reads.
pub fn mark_last(specs: &mut Vec<KeySpec>)
    ensures
        final(specs)@.len() == old(specs)@.len(),
        forall|i: int| 0 <= i < old(specs)@.len() - 1 ==> #[trigger] final(specs)@[i] == old(specs)@[i],
        old(specs)@.len() > 0 ==> {
            let n = old(specs)@.len() - 1;
            &&& final(specs)@[n] == (KeySpec { last: true, ..old(specs)@[n] })
        },
{
    let n = specs.len();
    if n > 0 {
        let mut spec = specs.pop().unwrap();
        spec.last = true;
        specs.push(spec);
    }
}

/// The two frames that carry a key to the agent: the base64 of the encoded
/// spec, then the base64 of the content, each length-delimited. `None` where
/// a frame would pass the codec's limit.
pub open spec fn key_frames(encoded_spec: Seq<u8>, content: Seq<u8>) -> Option<Seq<u8>> {
    let a = encode_utf8(base64_encoded(encoded_spec));
    let b = encode_utf8(base64_encoded(content));
    if a.len() <= max_frame_len() && b.len() <= max_frame_len() {
        Some(frame_of(a) + frame_of(b))
    } else {
        None
    }
}

/// The bytes written to the key agent for one key, given its encoded spec.
/// What the agent decodes of the two frames is the spec and the content.
pub fn frame_key(encoded_spec: &[u8], content: &[u8]) -> (res: Option<Vec<u8>>)
    ensures
        opt_bytes(res) == key_frames(encoded_spec@, content@),
        res is Some ==> base64_decoded(encode_utf8(base64_encoded(encoded_spec@))) == Some(encoded_spec@)
            && base64_decoded(encode_utf8(base64_encoded(content@))) == Some(content@),
{
    let a = base64_encode(encoded_spec);
    let b = base64_encode(content);
    let fa = match encode_frame(a.as_str().as_bytes()) {
        Some(f) => f,
        None => return None,
    };
    let fb = match encode_frame(b.as_str().as_bytes()) {
        Some(f) => f,
        None => return None,
    };
    let mut out = fa;
    out.extend_from_slice(fb.as_slice());
    Some(out)
}

/// The model of optional bytes.
pub open spec fn opt_bytes(b: Option<Vec<u8>>) -> Option<Seq<u8>> {
    match b {
        Some(b) => Some(b@),
        None => None,
    }
}

/// The key agent accepts a key when the SHA-256 digest of the received
/// content is the digest that its spec carries.
pub fn digest_matches(spec_digest: &Vec<u8>, key_bytes: &[u8]) -> (res: bool)
    ensures
        res == (sha256_of(key_bytes@) == spec_digest@),
{
    let digest = sha256(key_bytes);
    if digest.len() != spec_digest.len() {
        return false;
    }
    let mut i: usize = 0;
    while i < digest.len()
        invariant
            0 <= i <= digest@.len(),
            digest@.len() == spec_digest@.len(),
            digest@ == sha256_of(key_bytes@),
            forall|j: int| 0 <= j < i ==> digest@[j] == spec_digest@[j],
        decreases digest@.len() - i,
    {
        if digest[i] != spec_digest[i] {
            return false;
        }
        i = i + 1;
    }
    proof {
        assert(digest@ =~= spec_digest@);
    }
    true
}

/// The content of a key frame as the agent decodes it.
pub fn decode_key_content(frame_payload: &[u8]) -> (res: Option<Vec<u8>>)
    ensures
        opt_bytes(res) == base64_decoded(frame_payload@),
{
    base64_decode(frame_payload)
}

/// The name of the variable that gives the key agent's directory for
/// `platform`: `WIRE_KEY_AGENT_` and the platform, with `-` as `_`.
pub open spec fn agent_variable(platform: Seq<char>) -> Seq<char> {
    "WIRE_KEY_AGENT_"@ + platform.map_values(|c: char| if c == '-' { '_' } else { c })
}

/// The variable that gives the key agent's directory for `platform`.
pub fn key_agent_variable(platform: &str) -> (res: String)
    ensures
        res@ == agent_variable(platform@),
{
    let mut s = String::from_str("WIRE_KEY_AGENT_");
    let n = platform.unicode_len();
    let mut i: usize = 0;
    while i < n
        invariant
            0 <= i <= n,
            n == platform@.len(),
            s@ == "WIRE_KEY_AGENT_"@ + platform@.take(i as int).map_values(|c: char| if c == '-' { '_' } else { c }),
        decreases n - i,
    {
        let c = platform.get_char(i);
        let d = if c == '-' { '_' } else { c };
        crate::text::push_char(&mut s, d);
        i = i + 1;
    }
    s
}

} // verus!
