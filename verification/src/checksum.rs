//! SHA-256 digests of packages, and the `SHA256SUMS` manifest that lists them.
use vstd::prelude::*;

use crate::helper::valid_hash;
use crate::text::{
    all_hex, ascii_lower, byte_hex_lower, digit_char, is_hex_digit, chars_eq, chars_of, copy_str, hex_digest, hex_digest_string, is_whitespace,
    is_ws, lowercase_vec, push_str, string_from, string_of, trim_start, utf8_len,
};

verus! {

/// The SHA-256 digest of a byte sequence, as `sha2::Sha256` computes it.
pub uninterp spec fn sha256(data: Seq<u8>) -> Seq<u8>;

/// `sha2::Sha256::digest`.
///
/// Trusted: the result is the crate's digest of the input, named `sha256`,
/// and is 32 bytes long (the output size of SHA-256).
#[verifier::external_body]
fn sha256_digest(data: &[u8]) -> (r: Vec<u8>)
    ensures
        r@ == sha256(data@),
        r@.len() == 32,
{
    <sha2::Sha256 as sha2::Digest>::digest(data).to_vec()
}

/// The lower-case hex SHA-256 digest of the package bytes.
pub fn calculate_sha256(data: &[u8]) -> (r: String)
    ensures
        r@ == hex_digest(sha256(data@)),
        r@.len() == 64,
        lower_hex(r@),
{
    let digest = sha256_digest(data);
    proof {
        lemma_hex_digest_len(digest@);
        lemma_hex_digest_lower(digest@);
    }
    hex_digest_string(&digest)
}

proof fn lemma_hex_digest_len(bytes: Seq<u8>)
    ensures
        hex_digest(bytes).len() == 2 * bytes.len(),
    decreases bytes.len(),
{
    if bytes.len() > 0 {
        lemma_hex_digest_len(bytes.drop_last());
    }
}

/// Length of the first line: the characters before the first `\n`.
pub open spec fn first_line_len(s: Seq<char>) -> nat
    decreases s.len(),
{
    if s.len() == 0 || s[0] == '\n' {
        0
    } else {
        1 + first_line_len(s.drop_first())
    }
}

pub proof fn lemma_first_line_len(s: Seq<char>)
    ensures
        first_line_len(s) <= s.len(),
        first_line_len(s) < s.len() ==> s[first_line_len(s) as int] == '\n',
        forall|k: int| 0 <= k < first_line_len(s) ==> s[k] != '\n',
    decreases s.len(),
{
    if s.len() > 0 && s[0] != '\n' {
        lemma_first_line_len(s.drop_first());
        assert forall|k: int| 0 <= k < first_line_len(s) implies s[k] != '\n' by {
            if k > 0 {
                assert(s[k] == s.drop_first()[k - 1]);
            }
        }
    }
}

/// Length of the leading run of characters that are not white space.
pub open spec fn word_len(s: Seq<char>) -> nat
    decreases s.len(),
{
    if s.len() == 0 || is_ws(s[0]) {
        0
    } else {
        1 + word_len(s.drop_first())
    }
}

pub proof fn lemma_word_len(s: Seq<char>)
    ensures
        word_len(s) <= s.len(),
    decreases s.len(),
{
    if s.len() > 0 && !is_ws(s[0]) {
        lemma_word_len(s.drop_first());
    }
}

/// The first white-space separated field of a line (empty if none).
pub open spec fn field0(line: Seq<char>) -> Seq<char> {
    let t = trim_start(line);
    t.take(word_len(t) as int)
}

/// The second white-space separated field of a line (empty if none).
pub open spec fn field1(line: Seq<char>) -> Seq<char> {
    let t = trim_start(line);
    let rest = trim_start(t.skip(word_len(t) as int));
    rest.take(word_len(rest) as int)
}

/// The text without its leading `*` characters (`trim_start_matches('*')`).
pub open spec fn strip_stars(s: Seq<char>) -> Seq<char>
    decreases s.len(),
{
    if s.len() > 0 && s[0] == '*' {
        strip_stars(s.drop_first())
    } else {
        s
    }
}

/// The digest that one manifest line gives for `name`: the line's first
/// field, lower-cased, where its second field, without leading `*`, is
/// `name`.
pub open spec fn entry_for(line: Seq<char>, name: Seq<char>) -> Option<Seq<char>> {
    if field0(line).len() > 0 && field1(line).len() > 0 && strip_stars(field1(line)) == name {
        Some(ascii_lower(field0(line)))
    } else {
        None
    }
}

/// The digest that the first matching line of a `SHA256SUMS` text gives for
/// `name`. Lines are split at `\n`; a `\r` before it is white space to the
/// field split, and an empty last line has no fields, so this agrees with
/// `str::lines`.
pub open spec fn expected_digest(contents: Seq<char>, name: Seq<char>) -> Option<Seq<char>>
    decreases contents.len(),
{
    let n = first_line_len(contents);
    match entry_for(contents.take(n as int), name) {
        Some(h) => Some(h),
        None => if n < contents.len() {
            proof {
                lemma_first_line_len(contents);
            }
            expected_digest(contents.skip(n + 1 as int), name)
        } else {
            None
        },
    }
}

/// Why a downloaded package failed verification.
#[derive(Debug, Clone)]
pub enum ChecksumError {
    /// The manifest has no line for the package.
    MissingEntry { package_name: String },
    /// The manifest's digest for the package is not 64 bytes long.
    InvalidDigest { package_name: String },
    /// The package's digest differs from the manifest's.
    Mismatch { package_name: String, expected: String, actual: String },
}

impl ChecksumError {
    /// The message that the Updater reports for this error.
    pub fn message(&self) -> (r: String)
        ensures
            match self {
                ChecksumError::MissingEntry { package_name } => r@ == "SHA256SUMS does not contain "@
                    + package_name@,
                ChecksumError::InvalidDigest { package_name } => r@
                    == "invalid SHA-256 digest for "@ + package_name@,
                ChecksumError::Mismatch { package_name, expected, actual } => r@
                    == "checksum mismatch for "@ + package_name@ + "\nexpected: "@ + expected@
                    + "\nactual:   "@ + actual@,
            },
    {
        let mut r = String::new();
        match self {
            ChecksumError::MissingEntry { package_name } => {
                push_str(&mut r, "SHA256SUMS does not contain ");
                push_str(&mut r, package_name.as_str());
            },
            ChecksumError::InvalidDigest { package_name } => {
                push_str(&mut r, "invalid SHA-256 digest for ");
                push_str(&mut r, package_name.as_str());
            },
            ChecksumError::Mismatch { package_name, expected, actual } => {
                push_str(&mut r, "checksum mismatch for ");
                push_str(&mut r, package_name.as_str());
                push_str(&mut r, "\nexpected: ");
                push_str(&mut r, expected.as_str());
                push_str(&mut r, "\nactual:   ");
                push_str(&mut r, actual.as_str());
            },
        }
        r
    }
}

proof fn lemma_trim_start_skip(s: Seq<char>, i: int)
    requires
        0 <= i < s.len(),
        is_ws(s[i]),
    ensures
        trim_start(s.skip(i)) == trim_start(s.skip(i + 1)),
{
    assert(s.skip(i).drop_first() =~= s.skip(i + 1));
}

/// First index at or after `i`, before `end`, that is not white space.
fn skip_ws(v: &Vec<char>, i: usize, end: usize) -> (j: usize)
    requires
        i <= end <= v.len(),
    ensures
        i <= j <= end,
        trim_start(v@.subrange(i as int, end as int)) == v@.subrange(j as int, end as int),
{
    let ghost s = v@.subrange(i as int, end as int);
    let mut j = i;
    assert(s.skip(0) =~= s);
    while j < end && is_whitespace(v[j])
        invariant
            i <= j <= end <= v.len(),
            s == v@.subrange(i as int, end as int),
            trim_start(s) == trim_start(s.skip(j - i)),
        decreases end - j,
    {
        proof {
            lemma_trim_start_skip(s, j - i);
        }
        j += 1;
    }
    assert(s.skip(j - i) =~= v@.subrange(j as int, end as int));
    j
}

/// End of the run of non-white-space characters that starts at `i`.
fn word_end(v: &Vec<char>, i: usize, end: usize) -> (j: usize)
    requires
        i <= end <= v.len(),
    ensures
        i <= j <= end,
        j - i == word_len(v@.subrange(i as int, end as int)),
{
    let ghost s = v@.subrange(i as int, end as int);
    let mut j = i;
    assert(s.skip(0) =~= s);
    while j < end && !is_whitespace(v[j])
        invariant
            i <= j <= end <= v.len(),
            s == v@.subrange(i as int, end as int),
            word_len(s) == (j - i) + word_len(s.skip(j - i)),
        decreases end - j,
    {
        assert(s.skip(j - i).drop_first() =~= s.skip(j - i + 1));
        j += 1;
    }
    assert(s.skip(j - i) =~= v@.subrange(j as int, end as int));
    j
}

/// Index of the first `\n` at or after `i`, or the length.
fn line_end(v: &Vec<char>, i: usize) -> (j: usize)
    requires
        i <= v.len(),
    ensures
        i <= j <= v.len(),
        j - i == first_line_len(v@.skip(i as int)),
{
    let ghost s = v@.skip(i as int);
    let mut j = i;
    assert(s.skip(0) =~= s);
    while j < v.len() && v[j] != '\n'
        invariant
            i <= j <= v.len(),
            s == v@.skip(i as int),
            first_line_len(s) == (j - i) + first_line_len(s.skip(j - i)),
        decreases v.len() - j,
    {
        assert(s.skip(j - i).drop_first() =~= s.skip(j - i + 1));
        j += 1;
    }
    assert(s.skip(j - i) =~= v@.skip(j as int));
    j
}

/// First index at or after `i`, before `end`, that is not `*`.
fn skip_stars(v: &Vec<char>, i: usize, end: usize) -> (j: usize)
    requires
        i <= end <= v.len(),
    ensures
        i <= j <= end,
        strip_stars(v@.subrange(i as int, end as int)) == v@.subrange(j as int, end as int),
{
    let ghost s = v@.subrange(i as int, end as int);
    let mut j = i;
    assert(s.skip(0) =~= s);
    while j < end && v[j] == '*'
        invariant
            i <= j <= end <= v.len(),
            s == v@.subrange(i as int, end as int),
            strip_stars(s) == strip_stars(s.skip(j - i)),
        decreases end - j,
    {
        assert(s.skip(j - i).drop_first() =~= s.skip(j - i + 1));
        j += 1;
    }
    assert(s.skip(j - i) =~= v@.subrange(j as int, end as int));
    j
}

/// The digest that the line `v[start..end]` gives for `name`.
fn entry_in_line(v: &Vec<char>, start: usize, end: usize, name: &Vec<char>) -> (r: Option<
    String,
>)
    requires
        start <= end <= v.len(),
    ensures
        match r {
            Some(h) => entry_for(v@.subrange(start as int, end as int), name@) == Some(h@),
            None => entry_for(v@.subrange(start as int, end as int), name@) is None,
        },
{
    let ghost line = v@.subrange(start as int, end as int);
    let a = skip_ws(v, start, end);
    let b = word_end(v, a, end);
    let ghost t = trim_start(line);
    assert(t == v@.subrange(a as int, end as int));
    assert(field0(line) =~= v@.subrange(a as int, b as int));
    assert(t.skip(word_len(t) as int) =~= v@.subrange(b as int, end as int));
    let c = skip_ws(v, b, end);
    let d = word_end(v, c, end);
    assert(field1(line) =~= v@.subrange(c as int, d as int));
    if a == b || c == d {
        return None;
    }
    let e = skip_stars(v, c, d);
    let stripped = string_from(v, e, d);
    let stripped_chars = chars_of(stripped.as_str());
    if !chars_eq(&stripped_chars, name) {
        return None;
    }
    let hash = string_from(v, a, b);
    let hash_chars = chars_of(hash.as_str());
    let lower = lowercase_vec(&hash_chars);
    Some(string_of(&lower))
}

/// The digest that the manifest lists for `name`, if any.
pub fn find_expected_digest(contents: &str, name: &str) -> (r: Option<String>)
    ensures
        match r {
            Some(h) => expected_digest(contents@, name@) == Some(h@),
            None => expected_digest(contents@, name@) is None,
        },
{
    let v = chars_of(contents);
    let n = chars_of(name);
    let mut start: usize = 0;
    assert(v@.skip(0) =~= v@);
    loop
        invariant
            start <= v.len(),
            n@ == name@,
            expected_digest(contents@, name@) == expected_digest(v@.skip(start as int), name@),
        decreases v.len() - start,
    {
        let end = line_end(&v, start);
        let ghost rest = v@.skip(start as int);
        assert(rest.take((end - start) as int) =~= v@.subrange(start as int, end as int));
        match entry_in_line(&v, start, end, &n) {
            Some(h) => {
                return Some(h);
            },
            None => {},
        }
        if end == v.len() {
            return None;
        }
        assert(rest.skip((end - start) + 1) =~= v@.skip(end + 1));
        start = end + 1;
    }
}

/// Whether the UTF-8 encoding of `v` is exactly `target` bytes long.
fn utf8_len_is(v: &Vec<char>, target: u64) -> (r: bool)
    requires
        target < 0x1_0000,
    ensures
        r == (utf8_len(v@) == target),
{
    let cap: u64 = target + 1;
    let mut n: u64 = 0;
    let mut i: usize = 0;
    while i < v.len()
        invariant
            i <= v.len(),
            cap == target + 1,
            cap <= 0x1_0000,
            n == if utf8_len(v@.take(i as int)) < cap {
                utf8_len(v@.take(i as int))
            } else {
                cap as nat
            },
        decreases v.len() - i,
    {
        let u = v[i] as u32;
        let w: u64 = if u < 0x80 {
            1
        } else if u < 0x800 {
            2
        } else if u < 0x10000 {
            3
        } else {
            4
        };
        assert(v@.take(i + 1).drop_last() =~= v@.take(i as int));
        n = if n + w < cap {
            n + w
        } else {
            cap
        };
        i += 1;
    }
    assert(v@.take(v.len() as int) =~= v@);
    n == target
}

/// What verifying a package against a manifest yields.
pub open spec fn verification_outcome(
    contents: Seq<char>,
    name: Seq<char>,
    package: Seq<u8>,
    r: Result<String, ChecksumError>,
) -> bool {
    match expected_digest(contents, name) {
        None => r matches Err(ChecksumError::MissingEntry { package_name }) && package_name@
            == name,
        Some(e) => if utf8_len(e) != 64 {
            r matches Err(ChecksumError::InvalidDigest { package_name }) && package_name@ == name
        } else if hex_digest(sha256(package)) != e {
            r matches Err(ChecksumError::Mismatch { package_name, expected, actual })
                && package_name@ == name && expected@ == e && actual@ == hex_digest(
                sha256(package),
            )
        } else {
            r matches Ok(d) && d@ == e
        },
    }
}

/// Checks a downloaded package against the `SHA256SUMS` manifest and gives
/// back its digest: the manifest must list the package, with a digest of
/// 64 bytes, equal to the package's own.
pub fn verify_checksum(checksums: &str, package_name: &str, package: &[u8]) -> (r: Result<
    String,
    ChecksumError,
>)
    ensures
        verification_outcome(checksums@, package_name@, package@, r),
{
    let expected = match find_expected_digest(checksums, package_name) {
        None => {
            return Err(ChecksumError::MissingEntry { package_name: copy_str(package_name) });
        },
        Some(e) => e,
    };
    let expected_chars = chars_of(expected.as_str());
    if !utf8_len_is(&expected_chars, 64) {
        return Err(ChecksumError::InvalidDigest { package_name: copy_str(package_name) });
    }
    let actual = calculate_sha256(package);
    let actual_chars = chars_of(actual.as_str());
    if !chars_eq(&actual_chars, &expected_chars) {
        return Err(
            ChecksumError::Mismatch { package_name: copy_str(package_name), expected, actual },
        );
    }
    Ok(actual)
}

/// Every character is a lower-case hex digit.
pub open spec fn lower_hex(s: Seq<char>) -> bool {
    forall|i: int| 0 <= i < s.len() ==> ('0' <= #[trigger] s[i] <= '9' || 'a' <= s[i] <= 'f')
}

proof fn lemma_digit_char_lower(d: nat)
    requires
        d < 16,
    ensures
        '0' <= digit_char(d) <= '9' || 'a' <= digit_char(d) <= 'f',
{
    if d < 10 {
        assert(((48 + d) as u32) as char == digit_char(d));
        assert('0' as u32 == 48);
        assert('9' as u32 == 57);
    } else {
        assert(((87 + d) as u32) as char == digit_char(d));
        assert('a' as u32 == 97);
        assert('f' as u32 == 102);
    }
}

proof fn lemma_hex_digest_lower(bytes: Seq<u8>)
    ensures
        lower_hex(hex_digest(bytes)),
    decreases bytes.len(),
{
    if bytes.len() > 0 {
        lemma_hex_digest_lower(bytes.drop_last());
        let b = bytes.last();
        lemma_digit_char_lower((b / 16) as nat);
        lemma_digit_char_lower((b % 16) as nat);
        let a = hex_digest(bytes.drop_last());
        let t = byte_hex_lower(b);
        assert forall|i: int| 0 <= i < hex_digest(bytes).len() implies ('0' <= #[trigger] hex_digest(
            bytes,
        )[i] <= '9' || 'a' <= hex_digest(bytes)[i] <= 'f') by {
            if i < a.len() {
                assert(hex_digest(bytes)[i] == a[i]);
            } else {
                assert(hex_digest(bytes)[i] == t[i - a.len()]);
            }
        }
    }
}

/// A digest that verification accepts is one that the privileged helper
/// accepts unchanged: 64 hex digits, already in lower case.
pub proof fn law_verified_digest_accepted(
    contents: Seq<char>,
    name: Seq<char>,
    package: Seq<u8>,
    r: Result<String, ChecksumError>,
)
    requires
        verification_outcome(contents, name, package, r),
        r is Ok,
    ensures
        valid_hash(r->Ok_0@),
        ascii_lower(r->Ok_0@) == r->Ok_0@,
{
    let d = r->Ok_0@;
    lemma_hex_digest_lower(sha256(package));
    assert(d == hex_digest(sha256(package)));
    assert forall|i: int| 0 <= i < d.len() implies is_hex_digit(#[trigger] d[i]) by {
        assert('0' <= d[i] <= '9' || 'a' <= d[i] <= 'f');
    }
    assert(ascii_lower(d) =~= d);
}

} // verus!
