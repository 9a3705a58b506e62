//! Archive integrity: the SHA-256 digest of the archive, in hex, against the
//! digest published in a checksum sidecar.

use vstd::prelude::*;

use sha2::Digest;

use crate::text::{eq_ignore_ascii_case, lower_ascii, owned, same_ignoring_case};
use crate::update::UpdateError;

verus! {

/// The SHA-256 digest of `data`.
pub uninterp spec fn sha256_of(data: Seq<u8>) -> Seq<u8>;

/// Relies on `sha2::Sha256::digest`: the SHA-256 digest of `data`, whose
/// output size is 32 bytes.
#[verifier::external_body]
fn sha256(data: &[u8]) -> (r: Vec<u8>)
    ensures
        r@ == sha256_of(data@),
        r@.len() == 32,
{
    sha2::Sha256::digest(data).to_vec()
}

/// The lower-case hex digit for `n` (below 16).
pub open spec fn hex_digit(n: u8) -> char {
    "0123456789abcdef"@[n as int]
}

/// The character at position `j` of the hex form of `b`.
pub open spec fn hex_char_at(b: Seq<u8>, j: int) -> char {
    if j % 2 == 0 {
        hex_digit(b[j / 2] / 16)
    } else {
        hex_digit(b[j / 2] % 16)
    }
}

/// Lower-case hex of `b`: two digits per byte, high nibble first.
pub open spec fn hex_of(b: Seq<u8>) -> Seq<char> {
    Seq::new(2 * b.len(), |j: int| hex_char_at(b, j))
}

/// The hex digit for `n` as a one-character string.
fn hex_digit_str(n: u8) -> (r: &'static str)
    requires
        n < 16,
    ensures
        r@ == seq![hex_digit(n)],
{
    let digits = "0123456789abcdef";
    proof {
        reveal_strlit("0123456789abcdef");
    }
    let r = digits.substring_char(n as usize, n as usize + 1);
    assert(r@ =~= seq![hex_digit(n)]);
    r
}

/// Lower-case hex of `data`.
pub fn to_hex(data: &[u8]) -> (r: String)
    ensures
        r@ == hex_of(data@),
{
    let mut r = String::new();
    let n = data.len();
    let mut i: usize = 0;
    while i < n
        invariant
            i <= n,
            n == data@.len(),
            r@.len() == 2 * i,
            forall|j: int| 0 <= j < 2 * i ==> r@[j] == hex_char_at(data@, j),
        decreases n - i,
    {
        let b = data[i];
        r.append(hex_digit_str(b / 16));
        r.append(hex_digit_str(b % 16));
        assert forall|j: int| 0 <= j < 2 * (i + 1) implies r@[j] == hex_char_at(data@, j) by {
            if j >= 2 * i {
                assert(j / 2 == i as int);
            }
        }
        i = i + 1;
    }
    assert(r@ =~= hex_of(data@));
    r
}

/// The hex SHA-256 digest of `data`.
pub fn sha256_hex(data: &[u8]) -> (r: String)
    ensures
        r@ == hex_of(sha256_of(data@)),
{
    let d = sha256(data);
    to_hex(d.as_slice())
}

/// Unicode white space (the characters for which `char::is_whitespace`
/// holds), which separates tokens in a sidecar body.
pub open spec fn is_space(c: char) -> bool {
    ('\t' <= c && c <= '\r') || c == ' ' || c == '\u{85}' || c == '\u{a0}' || c == '\u{1680}' || (
        '\u{2000}' <= c && c <= '\u{200a}') || c == '\u{2028}' || c == '\u{2029}' || c == '\u{202f}'
        || c == '\u{205f}' || c == '\u{3000}'
}

/// Whether `c` is Unicode white space.
pub fn is_space_char(c: char) -> (r: bool)
    ensures
        r == is_space(c),
{
    ('\t' <= c && c <= '\r') || c == ' ' || c == '\u{85}' || c == '\u{a0}' || c == '\u{1680}' || (
        '\u{2000}' <= c && c <= '\u{200a}') || c == '\u{2028}' || c == '\u{2029}' || c == '\u{202f}'
        || c == '\u{205f}' || c == '\u{3000}'
}

/// The first position at or after `i` that holds no whitespace.
pub open spec fn skip_space(s: Seq<char>, i: int) -> int
    decreases s.len() - i,
{
    if 0 <= i < s.len() && is_space(s[i]) {
        skip_space(s, i + 1)
    } else {
        i
    }
}

/// The first position at or after `i` that holds whitespace, or the end.
pub open spec fn token_end(s: Seq<char>, i: int) -> int
    decreases s.len() - i,
{
    if 0 <= i < s.len() && !is_space(s[i]) {
        token_end(s, i + 1)
    } else {
        i
    }
}

/// The first whitespace-delimited token of `s` (empty where `s` holds none).
pub open spec fn first_token(s: Seq<char>) -> Seq<char> {
    let start = skip_space(s, 0);
    s.subrange(start, token_end(s, start))
}

proof fn lemma_skip_space_bounds(s: Seq<char>, i: int)
    requires
        0 <= i <= s.len(),
    ensures
        i <= skip_space(s, i) <= s.len(),
    decreases s.len() - i,
{
    if i < s.len() && is_space(s[i]) {
        lemma_skip_space_bounds(s, i + 1);
    }
}

/// The expected digest in a sidecar body: its first whitespace-delimited
/// token, so that a file name after the digest is ignored.
pub fn expected_digest(body: &str) -> (r: String)
    ensures
        r@ == first_token(body@),
{
    let n = body.unicode_len();
    let mut i: usize = 0;
    while i < n && is_space_char(body.get_char(i))
        invariant
            i <= n,
            n == body@.len(),
            skip_space(body@, i as int) == skip_space(body@, 0),
        decreases n - i,
    {
        i = i + 1;
    }
    let start = i;
    proof {
        lemma_skip_space_bounds(body@, 0);
    }
    assert(start as int == skip_space(body@, 0));
    let mut k: usize = start;
    while k < n && !is_space_char(body.get_char(k))
        invariant
            start <= k <= n,
            n == body@.len(),
            token_end(body@, k as int) == token_end(body@, start as int),
        decreases n - k,
    {
        k = k + 1;
    }
    assert(k as int == token_end(body@, start as int));
    owned(body.substring_char(start, k))
}

/// Whether a sidecar body publishes `actual` as the digest: its first token
/// equals `actual` up to ASCII case.
pub open spec fn digest_matches(body: Seq<char>, actual: Seq<char>) -> bool {
    eq_ignore_ascii_case(first_token(body), actual)
}

/// Checks the archive digest `actual` against the sidecar body, when one was
/// fetched. `Ok(true)`: verified; `Ok(false)`: skipped for want of a sidecar;
/// `Err(Integrity)`: the digests differ, and the error carries both.
pub fn check_digest(actual: &str, sidecar: Option<&str>) -> (r: Result<bool, UpdateError>)
    ensures
        sidecar is None ==> r == Ok::<bool, UpdateError>(false),
        sidecar matches Some(b) && digest_matches(b@, actual@) ==> r == Ok::<bool, UpdateError>(
            true,
        ),
        sidecar matches Some(b) ==> (!digest_matches(b@, actual@) ==> (r matches Err(
            UpdateError::Integrity { expected: e, actual: a },
        ) && e@ == first_token(b@) && a@ == actual@)),
{
    match sidecar {
        None => Ok(false),
        Some(body) => {
            let expected = expected_digest(body);
            if same_ignoring_case(expected.as_str(), actual) {
                Ok(true)
            } else {
                Err(UpdateError::Integrity { expected, actual: owned(actual) })
            }
        },
    }
}

/// Checks the archive `data` against the sidecar body, when one was fetched,
/// over the hex SHA-256 digest of `data`.
pub fn verify_archive(data: &[u8], sidecar: Option<&str>) -> (r: Result<bool, UpdateError>)
    ensures
        sidecar is None ==> r == Ok::<bool, UpdateError>(false),
        sidecar matches Some(b) && digest_matches(b@, hex_of(sha256_of(data@))) ==> r == Ok::<
            bool,
            UpdateError,
        >(true),
        sidecar matches Some(b) ==> (!digest_matches(b@, hex_of(sha256_of(data@))) ==> (r matches Err(
            UpdateError::Integrity { expected: e, actual: a },
        ) && e@ == first_token(b@) && a@ == hex_of(sha256_of(data@)))),
{
    let actual = sha256_hex(data);
    check_digest(actual.as_str(), sidecar)
}

proof fn lemma_hex_digit_facts(n: u8, m: u8)
    requires
        n < 16,
        m < 16,
    ensures
        !is_space(hex_digit(n)),
        !('A' <= hex_digit(n) && hex_digit(n) <= 'Z'),
        hex_digit(n) == hex_digit(m) ==> n == m,
{
    reveal_strlit("0123456789abcdef");
}

proof fn lemma_hex_facts(b: Seq<u8>)
    ensures
        forall|j: int| 0 <= j < hex_of(b).len() ==> !is_space(#[trigger] hex_of(b)[j]),
        forall|j: int| 0 <= j < hex_of(b).len() ==> lower_ascii(#[trigger] hex_of(b)[j]) == hex_of(b)[j],
{
    assert forall|j: int| 0 <= j < hex_of(b).len() implies !is_space(#[trigger] hex_of(b)[j]) && lower_ascii(hex_of(b)[j]) == hex_of(b)[j] by {
        lemma_hex_digit_facts(b[j / 2] / 16, 0);
        lemma_hex_digit_facts(b[j / 2] % 16, 0);
    }
}

proof fn lemma_token_end_spaceless(s: Seq<char>, i: int)
    requires
        0 <= i <= s.len(),
        forall|j: int| 0 <= j < s.len() ==> !is_space(#[trigger] s[j]),
    ensures
        token_end(s, i) == s.len(),
    decreases s.len() - i,
{
    if i < s.len() {
        lemma_token_end_spaceless(s, i + 1);
    }
}

/// The hex form of bytes is a single token.
pub proof fn lemma_first_token_of_hex(b: Seq<u8>)
    ensures
        first_token(hex_of(b)) == hex_of(b),
{
    let h = hex_of(b);
    lemma_hex_facts(b);
    lemma_token_end_spaceless(h, 0);
    assert(h.subrange(0, h.len() as int) =~= h);
}

/// A sidecar that publishes the archive's own digest is accepted.
pub proof fn lemma_published_digest_accepted(data: Seq<u8>)
    ensures
        digest_matches(hex_of(sha256_of(data)), hex_of(sha256_of(data))),
{
    lemma_first_token_of_hex(sha256_of(data));
}

/// A sidecar that publishes the digest of other content is rejected whenever
/// that digest differs from the archive's own; the hex form loses nothing.
pub proof fn lemma_other_digest_rejected(data: Seq<u8>, other: Seq<u8>)
    requires
        sha256_of(other) != sha256_of(data),
    ensures
        !digest_matches(hex_of(sha256_of(other)), hex_of(sha256_of(data))),
{
    let a = sha256_of(other);
    let b = sha256_of(data);
    lemma_first_token_of_hex(a);
    lemma_hex_facts(a);
    lemma_hex_facts(b);
    if digest_matches(hex_of(a), hex_of(b)) {
        assert(a.len() == b.len());
        assert forall|k: int| 0 <= k < a.len() implies a[k] == b[k] by {
            assert(hex_of(a)[2 * k] == hex_of(b)[2 * k]);
            assert(hex_of(a)[2 * k + 1] == hex_of(b)[2 * k + 1]);
            assert((2 * k) / 2 == k && (2 * k) % 2 == 0);
            assert((2 * k + 1) / 2 == k && (2 * k + 1) % 2 == 1);
            lemma_hex_digit_facts(a[k] / 16, b[k] / 16);
            lemma_hex_digit_facts(a[k] % 16, b[k] % 16);
            let x = a[k];
            let y = b[k];
            assert(x / 16 == y / 16 && x % 16 == y % 16 ==> x == y) by (bit_vector);
        }
        assert(a =~= b);
    }
}

} // verus!
