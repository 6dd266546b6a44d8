//! The published checksums of the distribution, and hashing of a downloaded archive.
use vstd::prelude::*;
use crate::error::{RuntimeError, RuntimeErrorView};
use crate::text::{chars_of, string_of_range, trim, trim_bounds};

verus! {

/// Position of the first newline at or after `i` in `s`, or `s.len()` if there is none.
pub open spec fn line_end(s: Seq<char>, i: int) -> int
    decreases s.len() - i,
{
    if i >= s.len() {
        s.len() as int
    } else if s[i] == '\n' {
        i
    } else {
        line_end(s, i + 1)
    }
}

/// Where the line that starts at `i` ends.
pub proof fn lemma_line_end(s: Seq<char>, i: int)
    requires
        0 <= i <= s.len(),
    ensures
        i <= line_end(s, i) <= s.len(),
        forall|j: int| i <= j < line_end(s, i) ==> s[j] != '\n',
        line_end(s, i) < s.len() ==> s[line_end(s, i)] == '\n',
    decreases s.len() - i,
{
    if i < s.len() && s[i] != '\n' {
        lemma_line_end(s, i + 1);
    }
}

/// The newline-separated pieces of `s` from position `i` on.
pub open spec fn lines_from(s: Seq<char>, i: int) -> Seq<Seq<char>>
    decreases s.len() + 1 - i,
{
    if i < 0 || i > s.len() {
        seq![]
    } else {
        proof {
            lemma_line_end(s, i);
        }
        seq![s.subrange(i, line_end(s, i))] + lines_from(s, line_end(s, i) + 1)
    }
}

/// Position of the first two consecutive spaces in `t` at or after `i`, or -1.
pub open spec fn double_space_from(t: Seq<char>, i: int) -> int
    decreases t.len() - i,
{
    if i < 0 || i + 1 >= t.len() {
        -1
    } else if t[i] == ' ' && t[i + 1] == ' ' {
        i
    } else {
        double_space_from(t, i + 1)
    }
}

/// The checksum that a line of the checksum list gives for the archive `name`: the
/// trimmed line is `<checksum>  <file name>`, split at its first two spaces, and the
/// trimmed file name is `name`. The checksum comes back trimmed.
pub open spec fn line_checksum(line: Seq<char>, name: Seq<char>) -> Option<Seq<char>> {
    let t = trim(line);
    let k = double_space_from(t, 0);
    if t.len() == 0 || k < 0 {
        None
    } else if trim(t.skip(k + 2)) == name {
        Some(trim(t.take(k)))
    } else {
        None
    }
}

/// The checksum given by the first of `lines` that gives one for `name`.
pub open spec fn checksum_in_lines(lines: Seq<Seq<char>>, name: Seq<char>) -> Option<Seq<char>>
    decreases lines.len(),
{
    if lines.len() == 0 {
        None
    } else {
        match line_checksum(lines[0], name) {
            Some(c) => Some(c),
            None => checksum_in_lines(lines.drop_first(), name),
        }
    }
}

/// The checksum that the checksum list `body` publishes for the archive `name`: that of
/// the first line that names it. (The list's carriage returns are white space, which
/// trimming removes.)
pub open spec fn published_checksum(body: Seq<char>, name: Seq<char>) -> Option<Seq<char>> {
    checksum_in_lines(lines_from(body, 0), name)
}

/// Whether `v[lo..hi]` holds the characters of `w`.
fn range_eq(v: &Vec<char>, lo: usize, hi: usize, w: &Vec<char>) -> (r: bool)
    requires
        lo <= hi <= v@.len(),
    ensures
        r == (v@.subrange(lo as int, hi as int) == w@),
{
    if hi - lo != w.len() {
        return false;
    }
    let mut i: usize = 0;
    while i < w.len()
        invariant
            lo <= hi <= v@.len(),
            hi - lo == w@.len(),
            i <= w@.len(),
            forall|j: int| 0 <= j < i ==> v@[lo + j] == w@[j],
        decreases w@.len() - i,
    {
        if v[lo + i] != w[i] {
            assert(v@.subrange(lo as int, hi as int)[i as int] != w@[i as int]);
            return false;
        }
        i = i + 1;
    }
    assert(v@.subrange(lo as int, hi as int) =~= w@);
    true
}

/// Position of the first two consecutive spaces in `v[lo..hi]` (as a position in `v`).
fn find_double_space(v: &Vec<char>, lo: usize, hi: usize) -> (r: Option<usize>)
    requires
        lo <= hi <= v@.len(),
    ensures
        match r {
            Some(k) => lo <= k && k + 2 <= hi && double_space_from(v@.subrange(lo as int, hi as int), 0) == k - lo,
            None => double_space_from(v@.subrange(lo as int, hi as int), 0) == -1,
        },
{
    let ghost t = v@.subrange(lo as int, hi as int);
    let mut k = lo;
    while k < hi && hi - k >= 2
        invariant
            lo <= k <= hi,
            hi <= v@.len(),
            t == v@.subrange(lo as int, hi as int),
            double_space_from(t, 0) == double_space_from(t, k - lo),
        decreases hi - k,
    {
        if v[k] == ' ' && v[k + 1] == ' ' {
            assert(t[k - lo] == ' ' && t[k - lo + 1] == ' ');
            return Some(k);
        }
        k = k + 1;
    }
    None
}

/// The checksum that line `v[lo..hi]` gives for `name`, as in [`line_checksum`].
fn checksum_of_line(v: &Vec<char>, lo: usize, hi: usize, name: &Vec<char>) -> (r: Option<String>)
    requires
        lo <= hi <= v@.len(),
    ensures
        r.deep_view() == line_checksum(v@.subrange(lo as int, hi as int), name@),
{
    let (a, b) = trim_bounds(v, lo, hi);
    let ghost t = v@.subrange(a as int, b as int);
    if a == b {
        return None;
    }
    match find_double_space(v, a, b) {
        None => None,
        Some(k) => {
            let (c, d) = trim_bounds(v, k + 2, b);
            assert(t.skip(k - a + 2) =~= v@.subrange(k + 2, b as int));
            if range_eq(v, c, d, name) {
                let (e, f) = trim_bounds(v, a, k);
                assert(t.take(k - a) =~= v@.subrange(a as int, k as int));
                Some(string_of_range(v, e, f))
            } else {
                None
            }
        },
    }
}

/// The checksum that the checksum list `body` publishes for the archive `artifact_filename`,
/// or the error that it publishes none.
pub fn resolve_expected_sha256(body: &str, artifact_filename: &str) -> (r: Result<String, RuntimeError>)
    ensures
        match r {
            Ok(sha) => published_checksum(body@, artifact_filename@) == Some(sha@),
            Err(e) => published_checksum(body@, artifact_filename@) is None && e@
                == (RuntimeErrorView::ChecksumNotFound { filename: artifact_filename@ }),
        },
{
    let v = chars_of(body);
    let name = chars_of(artifact_filename);
    let ghost s = v@;
    let mut start: usize = 0;
    loop
        invariant
            s == v@,
            name@ == artifact_filename@,
            s == body@,
            start <= v@.len(),
            published_checksum(s, name@) == checksum_in_lines(lines_from(s, start as int), name@),
        decreases v@.len() - start,
    {
        let mut e = start;
        while e < v.len() && v[e] != '\n'
            invariant
                start <= e <= v@.len(),
                line_end(s, start as int) == line_end(s, e as int),
                s == v@,
            decreases v@.len() - e,
        {
            e = e + 1;
        }
        proof {
            lemma_line_end(s, start as int);
            let ls = lines_from(s, start as int);
            assert(ls[0] == s.subrange(start as int, e as int));
            assert(ls.drop_first() =~= lines_from(s, e + 1));
        }
        match checksum_of_line(&v, start, e, &name) {
            Some(sha) => {
                return Ok(sha);
            },
            None => {},
        }
        if e == v.len() {
            assert(lines_from(s, e + 1) =~= Seq::<Seq<char>>::empty());
            assert(checksum_in_lines(lines_from(s, e + 1), name@) is None);
            assert(line_checksum(lines_from(s, start as int)[0], name@) is None);
            return Err(
                RuntimeError::ChecksumNotFound { filename: String::from_str(artifact_filename) },
            );
        }
        start = e + 1;
    }
}


/// The SHA-256 digest of `data`, as the `sha2` crate computes it.
pub uninterp spec fn sha256_digest(data: Seq<u8>) -> Seq<u8>;

/// The bytes fed so far into the `sha2` hasher `h`.
pub uninterp spec fn hashed_bytes(h: Sha256State) -> Seq<u8>;

/// A running SHA-256 computation: the `sha2` crate's hasher, in a private field that
/// only the wrappers below touch. What it has been fed is named by [`hashed_bytes`].
#[verifier::external_body]
pub struct Sha256State {
    inner: sha2::Sha256,
}

/// Trusted: a wrapper of `sha2::Digest::new` for `sha2::Sha256`, which makes a hasher
/// that has been fed nothing.
#[verifier::external_body]
fn sha256_new() -> (h: Sha256State)
    ensures
        hashed_bytes(h) == Seq::<u8>::empty(),
{
    Sha256State { inner: <sha2::Sha256 as sha2::Digest>::new() }
}

/// Trusted: a wrapper of `sha2::Digest::update`, which feeds `data` to the hasher after
/// what it was fed before.
#[verifier::external_body]
fn sha256_update(h: &mut Sha256State, data: &[u8])
    ensures
        hashed_bytes(*final(h)) == hashed_bytes(*old(h)) + data@,
{
    sha2::Digest::update(&mut h.inner, data)
}

/// Trusted: a wrapper of `sha2::Digest::finalize`, which gives the 32-byte digest of all
/// that the hasher was fed.
#[verifier::external_body]
fn sha256_finalize(h: Sha256State) -> (d: Vec<u8>)
    ensures
        d@ == sha256_digest(hashed_bytes(h)),
        d@.len() == 32,
{
    sha2::Digest::finalize(h.inner).to_vec()
}

/// The lowercase hexadecimal digit for `n`, with `0 <= n < 16`.
pub open spec fn hex_digit(n: int) -> char {
    if n < 10 {
        (48 + n) as char
    } else {
        (87 + n) as char
    }
}

/// `data` in lowercase hexadecimal, two digits per byte, high digit first.
pub open spec fn hex_lower(data: Seq<u8>) -> Seq<char>
    decreases data.len(),
{
    if data.len() == 0 {
        seq![]
    } else {
        hex_lower(data.drop_last()) + seq![
            hex_digit((data.last() / 16) as int),
            hex_digit((data.last() % 16) as int),
        ]
    }
}

/// Trusted: a wrapper of `hex::encode`, which writes each byte as two lowercase
/// hexadecimal digits, high digit first.
#[verifier::external_body]
fn hex_encode(data: &[u8]) -> (s: String)
    ensures
        s@ == hex_lower(data@),
{
    hex::encode(data)
}

/// SHA-256 of a downloaded archive, fed chunk by chunk as the file is read.
pub struct ArchiveHasher {
    inner: Sha256State,
}

impl ArchiveHasher {
    /// The bytes fed so far.
    pub closed spec fn hashed(&self) -> Seq<u8> {
        hashed_bytes(self.inner)
    }

    /// A hasher that has been fed nothing.
    pub fn new() -> (h: ArchiveHasher)
        ensures
            h.hashed() == Seq::<u8>::empty(),
    {
        ArchiveHasher { inner: sha256_new() }
    }

    /// Feeds the next chunk of the file.
    pub fn update(&mut self, chunk: &[u8])
        ensures
            final(self).hashed() == old(self).hashed() + chunk@,
    {
        sha256_update(&mut self.inner, chunk);
    }

    /// The SHA-256 digest of all bytes fed, in lowercase hexadecimal.
    pub fn finish_hex(self) -> (s: String)
        ensures
            s@ == hex_lower(sha256_digest(self.hashed())),
            s@.len() == 64,
    {
        let d = sha256_finalize(self.inner);
        let s = hex_encode(d.as_slice());
        proof {
            lemma_hex_lower_len(d@);
        }
        s
    }
}

/// Hexadecimal text is twice as long as the data.
pub proof fn lemma_hex_lower_len(data: Seq<u8>)
    ensures
        hex_lower(data).len() == 2 * data.len(),
    decreases data.len(),
{
    if data.len() > 0 {
        lemma_hex_lower_len(data.drop_last());
    }
}

/// The lowercase form of `s`, as `str::to_lowercase` computes it (Unicode lowercase mapping).
pub uninterp spec fn lowercase(s: Seq<char>) -> Seq<char>;

/// Trusted: a wrapper of `str::to_lowercase`, whose result depends on the text alone.
#[verifier::external_body]
fn to_lowercase(s: &str) -> (r: String)
    ensures
        r@ == lowercase(s@),
{
    s.to_lowercase()
}

/// Whether a computed checksum agrees with the published one, letter case aside.
pub fn checksums_match(actual: &str, expected: &str) -> (r: bool)
    ensures
        r == (lowercase(actual@) == lowercase(expected@)),
{
    let a = to_lowercase(actual);
    let b = to_lowercase(expected);
    a == b
}

} // verus!
