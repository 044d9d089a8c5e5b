//! Host-key fingerprints: normalisation and the acceptance decision.

use vstd::prelude::*;
use vstd::string::*;
use crate::text::chars_of;
use russh::keys::{HashAlg, PublicKey};

verus! {

/// Unicode `White_Space` characters, the set that `str::trim` removes.
pub open spec fn white_space(c: char) -> bool {
    let u = c as u32;
    ||| 0x9 <= u <= 0xD
    ||| u == 0x20
    ||| u == 0x85
    ||| u == 0xA0
    ||| u == 0x1680
    ||| 0x2000 <= u <= 0x200A
    ||| u == 0x2028
    ||| u == 0x2029
    ||| u == 0x202F
    ||| u == 0x205F
    ||| u == 0x3000
}

/// `s` without its leading white space.
pub open spec fn trim_start(s: Seq<char>) -> Seq<char>
    decreases s.len(),
{
    if s.len() > 0 && white_space(s[0]) {
        trim_start(s.drop_first())
    } else {
        s
    }
}

/// `s` without its trailing white space.
pub open spec fn trim_end(s: Seq<char>) -> Seq<char>
    decreases s.len(),
{
    if s.len() > 0 && white_space(s.last()) {
        trim_end(s.drop_last())
    } else {
        s
    }
}

/// `s` without leading and trailing white space.
pub open spec fn trim(s: Seq<char>) -> Seq<char> {
    trim_end(trim_start(s))
}

/// The algorithm tag that SHA-256 fingerprints carry.
pub open spec fn sha256_tag() -> Seq<char> {
    seq!['S', 'H', 'A', '2', '5', '6', ':']
}

/// `s` with every leading repetition of the `SHA256:` tag removed.
pub open spec fn strip_sha256_tags(s: Seq<char>) -> Seq<char>
    decreases s.len(),
{
    if s.len() >= 7 && s.take(7) == sha256_tag() {
        strip_sha256_tags(s.skip(7))
    } else {
        s
    }
}

/// The comparable form of a fingerprint.
pub open spec fn normalized(s: Seq<char>) -> Seq<char> {
    strip_sha256_tags(trim(s))
}

proof fn lemma_trim_end_last(s: Seq<char>)
    ensures
        trim_end(s).len() <= s.len(),
        trim_end(s) == s.take(trim_end(s).len() as int),
        trim_end(s).len() > 0 ==> !white_space(trim_end(s).last()),
    decreases s.len(),
{
    if s.len() > 0 && white_space(s.last()) {
        lemma_trim_end_last(s.drop_last());
        let t = trim_end(s.drop_last());
        assert(s.drop_last().take(t.len() as int) =~= s.take(t.len() as int));
    } else {
        assert(s.take(s.len() as int) =~= s);
    }
}

proof fn lemma_strip_suffix(s: Seq<char>)
    ensures
        strip_sha256_tags(s).len() <= s.len(),
        strip_sha256_tags(s) == s.skip(s.len() - strip_sha256_tags(s).len()),
        !(strip_sha256_tags(s).len() >= 7 && strip_sha256_tags(s).take(7) == sha256_tag()),
    decreases s.len(),
{
    if s.len() >= 7 && s.take(7) == sha256_tag() {
        lemma_strip_suffix(s.skip(7));
        let r = strip_sha256_tags(s.skip(7));
        assert(s.skip(7).skip(s.skip(7).len() - r.len()) =~= s.skip(s.len() - r.len()));
    } else {
        assert(s.skip(0) =~= s);
    }
}

/// What normalisation leaves: a tail of the trimmed text that neither
/// starts with the `SHA256:` tag nor ends in white space.
pub proof fn lemma_normalized_form(s: Seq<char>)
    ensures
        normalized(s) == trim(s).skip(trim(s).len() - normalized(s).len()),
        !(normalized(s).len() >= 7 && normalized(s).take(7) == sha256_tag()),
        normalized(s).len() > 0 ==> !white_space(normalized(s).last()),
{
    let t = trim(s);
    lemma_trim_end_last(trim_start(s));
    lemma_strip_suffix(t);
    let n = normalized(s);
    if n.len() > 0 {
        assert(n.last() == t.last());
    }
}

/// Executable form of `white_space`.
pub fn is_white_space(c: char) -> (b: bool)
    ensures
        b == white_space(c),
{
    let u = c as u32;
    (0x9 <= u && u <= 0xD) || u == 0x20 || u == 0x85 || u == 0xA0 || u == 0x1680 || (0x2000 <= u
        && u <= 0x200A) || u == 0x2028 || u == 0x2029 || u == 0x202F || u == 0x205F || u == 0x3000
}

fn tag_at(cs: &Vec<char>, start: usize, end: usize) -> (b: bool)
    requires
        start <= end <= cs@.len(),
    ensures
        b == (end - start >= 7 && cs@.subrange(start as int, end as int).take(7) == sha256_tag()),
{
    if end - start < 7 {
        return false;
    }
    let b = cs[start] == 'S' && cs[start + 1] == 'H' && cs[start + 2] == 'A' && cs[start + 3] == '2'
        && cs[start + 4] == '5' && cs[start + 5] == '6' && cs[start + 6] == ':';
    let ghost sub = cs@.subrange(start as int, end as int).take(7);
    assert(sub.len() == 7);
    assert(forall|k: int| 0 <= k < 7 ==> sub[k] == cs@[start + k]);
    if b {
        assert(sub =~= sha256_tag());
    } else {
        assert(sub != sha256_tag()) by {
            if sub == sha256_tag() {
                assert(sub[0] == 'S' && sub[1] == 'H' && sub[2] == 'A' && sub[3] == '2');
                assert(sub[4] == '5' && sub[5] == '6' && sub[6] == ':');
            }
        }
    }
    b
}

/// Strips surrounding white space and any leading `SHA256:` tags, so that a
/// fingerprint given with or without its algorithm tag compares equal to the
/// one computed from a key.
pub fn normalize_fingerprint(value: &str) -> (res: String)
    ensures
        res@ == normalized(value@),
{
    let cs = chars_of(value);
    let n = cs.len();
    let mut start: usize = 0;
    assert(cs@.subrange(0, n as int) =~= cs@);
    while start < n && is_white_space(cs[start])
        invariant
            start <= n,
            n == cs@.len(),
            trim_start(cs@) == trim_start(cs@.subrange(start as int, n as int)),
        decreases n - start,
    {
        assert(cs@.subrange(start as int, n as int).drop_first() =~= cs@.subrange(
            start + 1,
            n as int,
        ));
        start = start + 1;
    }
    let ghost front = cs@.subrange(start as int, n as int);
    assert(trim_start(cs@) == front);
    let mut end: usize = n;
    while end > start && is_white_space(cs[end - 1])
        invariant
            start <= end <= n,
            n == cs@.len(),
            front == cs@.subrange(start as int, n as int),
            trim_end(front) == trim_end(cs@.subrange(start as int, end as int)),
        decreases end,
    {
        assert(cs@.subrange(start as int, end as int).drop_last() =~= cs@.subrange(
            start as int,
            end - 1,
        ));
        end = end - 1;
    }
    assert(trim(cs@) == cs@.subrange(start as int, end as int));
    while tag_at(&cs, start, end)
        invariant
            start <= end <= n,
            n == cs@.len(),
            normalized(cs@) == strip_sha256_tags(cs@.subrange(start as int, end as int)),
        decreases end - start,
    {
        assert(cs@.subrange(start as int, end as int).skip(7) =~= cs@.subrange(
            start + 7,
            end as int,
        ));
        start = start + 7;
    }
    let sub = value.substring_char(start, end);
    sub.to_owned()
}


/// The characters of the unpadded standard base64 alphabet.
pub open spec fn base64_char(c: char) -> bool {
    ||| 'A' <= c <= 'Z'
    ||| 'a' <= c <= 'z'
    ||| '0' <= c <= '9'
    ||| c == '+'
    ||| c == '/'
}

/// The shape of a rendered SHA-256 key fingerprint: the `SHA256:` tag and
/// the 43 characters of an unpadded base64 rendering of a 32-byte digest.
pub open spec fn sha256_fingerprint_shape(f: Seq<char>) -> bool {
    &&& f.len() == 50
    &&& f.take(7) == sha256_tag()
    &&& forall|i: int| 7 <= i < 50 ==> base64_char(#[trigger] f[i])
}

/// The rendered SHA-256 fingerprint of the public key whose SSH wire
/// encoding is `key_bytes`, or `None` when the bytes do not decode as a
/// public key.
pub uninterp spec fn key_fingerprint(key_bytes: Seq<u8>) -> Option<Seq<char>>;

/// Decodes the server's public key with `ssh_key::PublicKey::from_bytes` and
/// renders `PublicKey::fingerprint(HashAlg::Sha256)` through the `Display`
/// of `ssh_key::Fingerprint`. That `Display` writes the algorithm prefix
/// `SHA256`, a colon and the unpadded standard base64 of the 32-byte digest,
/// which is what the shape clause claims; the result is named
/// `key_fingerprint` of the bytes, so which digest comes out is not stated.
#[verifier::external_body]
fn sha256_fingerprint(key_bytes: &[u8]) -> (fp: Option<String>)
    ensures
        match fp {
            Some(s) => key_fingerprint(key_bytes@) == Some(s@),
            None => key_fingerprint(key_bytes@) is None,
        },
        fp matches Some(s) ==> sha256_fingerprint_shape(s@),
{
    match PublicKey::from_bytes(key_bytes) {
        Ok(key) => Some(key.fingerprint(HashAlg::Sha256).to_string()),
        Err(_) => None,
    }
}

/// Whether a server key with fingerprint `got` is acceptable when the user
/// expects `expected`: without an expectation every key is accepted for the
/// current run only; with one, the normalised forms must be equal.
pub open spec fn host_key_accepted(expected: Option<Seq<char>>, got: Seq<char>) -> bool {
    match expected {
        Some(e) => normalized(e) == normalized(got),
        None => true,
    }
}

/// Decides whether the server key whose fingerprint is `got` is accepted.
pub fn accepts_fingerprint(expected: Option<&str>, got: &str) -> (ok: bool)
    ensures
        ok == host_key_accepted(
            match expected {
                Some(e) => Some(e@),
                None => None,
            },
            got@,
        ),
{
    match expected {
        Some(e) => normalize_fingerprint(e) == normalize_fingerprint(got),
        None => true,
    }
}

/// What the host-key check decided, with the fingerprint it computed.
pub struct HostKeyVerdict {
    pub accepted: bool,
    pub fingerprint: String,
}

/// The server-key policy of one SSH connection.
pub struct Handler {
    pub expected_fingerprint: Option<String>,
}

impl Handler {
    /// The fingerprint the user expects, as a character sequence.
    pub open spec fn expected(&self) -> Option<Seq<char>> {
        match self.expected_fingerprint {
            Some(e) => Some(e@),
            None => None,
        }
    }

    /// Computes the SHA-256 fingerprint of the server key given by its SSH
    /// wire encoding and decides whether the key is accepted; `None` when
    /// the bytes are not a public key.
    pub fn check_server_key(&self, key_bytes: &[u8]) -> (v: Option<HostKeyVerdict>)
        ensures
            match key_fingerprint(key_bytes@) {
                Some(f) => v matches Some(verdict) && verdict.fingerprint@ == f
                    && verdict.accepted == host_key_accepted(self.expected(), f)
                    && sha256_fingerprint_shape(f),
                None => v is None,
            },
    {
        let got = match sha256_fingerprint(key_bytes) {
            Some(got) => got,
            None => return None,
        };
        let accepted = match &self.expected_fingerprint {
            Some(e) => accepts_fingerprint(Some(e.as_str()), got.as_str()),
            None => accepts_fingerprint(None, got.as_str()),
        };
        Some(HostKeyVerdict { accepted, fingerprint: got })
    }
}

/// A rendered fingerprint is its own comparable form after the tag, and
/// that tail is unchanged by normalisation.
pub proof fn lemma_fingerprint_normal_form(f: Seq<char>)
    requires
        sha256_fingerprint_shape(f),
    ensures
        normalized(f) == f.skip(7),
        normalized(f.skip(7)) == f.skip(7),
{
    let g = f.skip(7);
    assert(f[0] == f.take(7)[0]);
    assert(!white_space(f[0]));
    assert(!base64_char(':'));
    assert(base64_char(f[49]));
    assert(forall|c: char| base64_char(c) ==> !white_space(c));
    assert(trim_start(f) == f);
    assert(f.last() == f[49]);
    assert(trim_end(f) == f);
    assert(g.len() == 43);
    assert(g[0] == f[7]);
    assert(g.last() == f[49]);
    assert(trim_start(g) == g);
    assert(trim_end(g) == g);
    assert(g.take(7)[6] == f[13]);
    assert(g.take(7) != sha256_tag());
    assert(strip_sha256_tags(g) == g);
    assert(strip_sha256_tags(f) == strip_sha256_tags(g));
}

/// The exact fingerprint of the server key is accepted, whether it is given
/// with its `SHA256:` tag or without it; and an accepted expectation always
/// normalises to the digest part of the key's fingerprint.
pub proof fn lemma_exact_fingerprint_accepted(f: Seq<char>, expected: Seq<char>)
    requires
        sha256_fingerprint_shape(f),
    ensures
        host_key_accepted(Some(f), f),
        host_key_accepted(Some(f.skip(7)), f),
        host_key_accepted(Some(expected), f) <==> normalized(expected) == f.skip(7),
{
    lemma_fingerprint_normal_form(f);
}

/// Without an expected fingerprint, every server key is accepted.
pub proof fn lemma_no_expectation_accepts(got: Seq<char>)
    ensures
        host_key_accepted(None, got),
{
}

} // verus!
