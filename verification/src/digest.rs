//! SHA-256 checksums of bootstrap sources through `sha2`, in the
//! `sha256:<lowercase hex>` form of the migration catalog.

use sha2::Digest;
use vstd::prelude::*;

verus! {

/// The SHA-256 digest of `data`.
pub uninterp spec fn sha256_of(data: Seq<u8>) -> Seq<u8>;

/// Calls `sha2::Sha256::digest`: the 32-byte SHA-256 digest of `data`.
#[verifier::external_body]
fn sha256_digest(data: &[u8]) -> (digest: Vec<u8>)
    ensures
        digest@ == sha256_of(data@),
        digest@.len() == 32,
{
    sha2::Sha256::digest(data).to_vec()
}

/// The byte sequence with every CR LF pair, and then every remaining lone CR,
/// written as one LF: what `replace("\r\n", "\n").replace('\r', "\n")` does
/// to UTF-8 text (neither byte occurs inside a multi-byte character).
pub open spec fn normalized_line_endings(bytes: Seq<u8>) -> Seq<u8>
    decreases bytes.len(),
{
    if bytes.len() == 0 {
        Seq::empty()
    } else if bytes[0] == 13u8 && bytes.len() > 1 && bytes[1] == 10u8 {
        seq![10u8] + normalized_line_endings(bytes.subrange(2, bytes.len() as int))
    } else if bytes[0] == 13u8 {
        seq![10u8] + normalized_line_endings(bytes.drop_first())
    } else {
        seq![bytes[0]] + normalized_line_endings(bytes.drop_first())
    }
}

/// The lowercase hexadecimal digit of `n`.
pub open spec fn hex_digit(n: int) -> char {
    if n < 10 {
        (('0' as int) + n) as char
    } else {
        (('a' as int) + n - 10) as char
    }
}

/// Two lowercase hexadecimal digits per byte, as `{byte:02x}` writes them.
pub open spec fn hex_lower(bytes: Seq<u8>) -> Seq<char>
    decreases bytes.len(),
{
    if bytes.len() == 0 {
        Seq::empty()
    } else {
        hex_lower(bytes.drop_last()) + seq![
            hex_digit(bytes.last() as int / 16),
            hex_digit(bytes.last() as int % 16),
        ]
    }
}

/// The catalog checksum of a SQL source: `sha256:` and the hex digest of its
/// bytes with normalized line endings.
pub open spec fn lf_checksum_text(sql_bytes: Seq<u8>) -> Seq<char> {
    "sha256:"@ + hex_lower(sha256_of(normalized_line_endings(sql_bytes)))
}

/// Law: normalizing line endings twice gives what normalizing once gives, so a
/// source already written with LF keeps its checksum.
pub proof fn lemma_normalize_idempotent(bytes: Seq<u8>)
    ensures
        normalized_line_endings(normalized_line_endings(bytes)) == normalized_line_endings(bytes),
    decreases bytes.len(),
{
    if bytes.len() == 0 {
        assert(normalized_line_endings(bytes) =~= Seq::<u8>::empty());
    } else {
        let n = normalized_line_endings(bytes);
        let tail = if bytes[0] == 13u8 && bytes.len() > 1 && bytes[1] == 10u8 {
            bytes.subrange(2, bytes.len() as int)
        } else {
            bytes.drop_first()
        };
        lemma_normalize_idempotent(tail);
        let nt = normalized_line_endings(tail);
        assert(n =~= seq![n[0]] + nt);
        assert(n[0] != 13u8);
        assert(n.drop_first() =~= nt);
        assert(normalized_line_endings(n) =~= seq![n[0]] + normalized_line_endings(nt));
    }
}

fn normalize_line_endings(bytes: &[u8]) -> (normalized: Vec<u8>)
    ensures
        normalized@ == normalized_line_endings(bytes@),
{
    let mut out: Vec<u8> = Vec::new();
    let mut i: usize = 0;
    let len = bytes.len();
    assert(bytes@.subrange(0, len as int) =~= bytes@);
    assert(out@ + normalized_line_endings(bytes@) =~= normalized_line_endings(bytes@));
    while i < len
        invariant
            i <= len,
            len == bytes@.len(),
            out@ + normalized_line_endings(bytes@.subrange(i as int, len as int))
                == normalized_line_endings(bytes@),
        decreases len - i,
    {
        let ghost rest = bytes@.subrange(i as int, len as int);
        if bytes[i] == 13u8 && i + 1 < len && bytes[i + 1] == 10u8 {
            assert(rest.subrange(2, rest.len() as int) =~= bytes@.subrange(i + 2, len as int));
            out.push(10u8);
            i = i + 2;
        } else {
            assert(rest.drop_first() =~= bytes@.subrange(i + 1, len as int));
            if bytes[i] == 13u8 {
                out.push(10u8);
            } else {
                out.push(bytes[i]);
            }
            i = i + 1;
        }
        assert(out@ + normalized_line_endings(bytes@.subrange(i as int, len as int))
            =~= normalized_line_endings(bytes@)) by {
            assert(bytes@.subrange(i as int, len as int) =~= bytes@.subrange(i as int, len as int));
        }
    }
    assert(bytes@.subrange(len as int, len as int) =~= Seq::<u8>::empty());
    assert(out@ + Seq::<u8>::empty() =~= out@);
    out
}

/// The one-character text of the hexadecimal digit `n`.
fn hex_digit_str(n: u8) -> (s: &'static str)
    requires
        n < 16,
    ensures
        s@ == seq![hex_digit(n as int)],
{
    let digits = "0123456789abcdef";
    proof {
        reveal_strlit("0123456789abcdef");
    }
    assert(digits@[n as int] == hex_digit(n as int));
    let s = digits.substring_ascii(n as usize, n as usize + 1);
    assert(s@ =~= seq![hex_digit(n as int)]);
    s
}

/// Appends the lowercase hexadecimal text of `bytes` to `out`.
fn append_hex(out: &mut String, bytes: &[u8])
    ensures
        final(out)@ == old(out)@ + hex_lower(bytes@),
{
    let ghost start = out@;
    let mut i: usize = 0;
    while i < bytes.len()
        invariant
            i <= bytes@.len(),
            out@ == start + hex_lower(bytes@.take(i as int)),
        decreases bytes@.len() - i,
    {
        let byte = bytes[i];
        out.append(hex_digit_str(byte / 16));
        out.append(hex_digit_str(byte % 16));
        assert(bytes@.take(i + 1).drop_last() =~= bytes@.take(i as int));
        assert(out@ =~= start + hex_lower(bytes@.take(i + 1)));
        i = i + 1;
    }
    assert(bytes@.take(bytes@.len() as int) =~= bytes@);
}

/// The `sha256:`-prefixed lowercase hex SHA-256 of `sql` with normalized line
/// endings, the checksum that the migration catalog records for a source.
pub fn lf_sha256(sql: &str) -> (checksum: String)
    ensures
        checksum@ == lf_checksum_text(vstd::utf8::encode_utf8(sql@)),
        checksum@.len() == 71,
{
    let normalized = normalize_line_endings(sql.as_bytes());
    let digest = sha256_digest(normalized.as_slice());
    let mut checksum = String::from_str("sha256:");
    append_hex(&mut checksum, digest.as_slice());
    proof {
        reveal_strlit("sha256:");
        lemma_hex_lower_len(digest@);
    }
    checksum
}

/// The lowercase hex SHA-256 of the UTF-8 bytes of `text`: the digest that
/// proposal candidates and stream batches are compared by.
pub fn hex_sha256(text: &str) -> (digest: String)
    ensures
        digest@ == hex_lower(sha256_of(vstd::utf8::encode_utf8(text@))),
        digest@.len() == 64,
{
    let bytes = sha256_digest(text.as_bytes());
    let mut digest = String::new();
    append_hex(&mut digest, bytes.as_slice());
    proof {
        lemma_hex_lower_len(bytes@);
    }
    digest
}

/// Two hex digits stand for each byte.
proof fn lemma_hex_lower_len(bytes: Seq<u8>)
    ensures
        hex_lower(bytes).len() == 2 * bytes.len(),
    decreases bytes.len(),
{
    if bytes.len() > 0 {
        lemma_hex_lower_len(bytes.drop_last());
    }
}

} // verus!
