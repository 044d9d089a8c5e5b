//! The SSH destination: `user@host` parsing and the exit-country rule.

use vstd::prelude::*;
use vstd::string::*;
use crate::error::AnonError;
use crate::text::chars_of;

verus! {

/// Index of the last occurrence of `c` in `s`, or -1.
pub open spec fn last_index_of(s: Seq<char>, c: char) -> int
    decreases s.len(),
{
    if s.len() == 0 {
        -1
    } else if s.last() == c {
        s.len() - 1
    } else {
        last_index_of(s.drop_last(), c)
    }
}

/// `(user, host)` when `d` splits at its last `@` into two non-empty parts.
pub open spec fn destination_parts(d: Seq<char>) -> Option<(Seq<char>, Seq<char>)> {
    let i = last_index_of(d, '@');
    if 0 < i && i < d.len() - 1 {
        Some((d.take(i), d.skip(i + 1)))
    } else {
        None
    }
}

proof fn lemma_last_index_of(s: Seq<char>, c: char)
    ensures
        -1 <= last_index_of(s, c) < s.len(),
        last_index_of(s, c) >= 0 ==> s[last_index_of(s, c)] == c,
        forall|k: int| last_index_of(s, c) < k < s.len() ==> s[k] != c,
    decreases s.len(),
{
    if s.len() > 0 && s.last() != c {
        lemma_last_index_of(s.drop_last(), c);
        assert forall|k: int| last_index_of(s, c) < k < s.len() implies s[k] != c by {
            if k < s.len() - 1 {
                assert(s[k] == s.drop_last()[k]);
            }
        }
    }
}

/// A destination splits at its last `@`: the host never contains `@`, the
/// user may, and `user@host` gives the destination back. A destination is
/// refused exactly when it has no `@` or one of the parts would be empty.
pub proof fn lemma_destination_round_trip(d: Seq<char>)
    ensures
        destination_parts(d) matches Some((u, h)) ==> {
            &&& u.len() > 0
            &&& h.len() > 0
            &&& !h.contains('@')
            &&& u + seq!['@'] + h == d
        },
        destination_parts(d) is None <==> (!d.contains('@') || d[0] == '@' && !d.drop_first().contains('@')
            || d.last() == '@'),
{
    lemma_last_index_of(d, '@');
    let i = last_index_of(d, '@');
    if let Some((u, h)) = destination_parts(d) {
        assert(u + seq!['@'] + h =~= d);
        if h.contains('@') {
            let k = choose|k: int| 0 <= k < h.len() && h[k] == '@';
            assert(d[i + 1 + k] == '@');
        }
    }
    if i >= 0 {
        assert(d.contains('@'));
    }
    if d.contains('@') {
        let k = choose|k: int| 0 <= k < d.len() && d[k] == '@';
        assert(i >= k);
    }
    if d.len() > 0 && d[0] == '@' && !d.drop_first().contains('@') {
        if i > 0 {
            assert(d.drop_first()[i - 1] == '@');
        }
    }
    if i == 0 && d.drop_first().contains('@') {
        let k = choose|k: int| 0 <= k < d.drop_first().len() && d.drop_first()[k] == '@';
        assert(d[k + 1] == '@');
    }
}

/// Splits `destination` at its last `@` into user and host; both must be
/// non-empty.
pub fn parse_destination(destination: &str) -> (res: Result<(String, String), AnonError>)
    ensures
        match destination_parts(destination@) {
            Some((u, h)) => res matches Ok((user, host)) && user@ == u && host@ == h,
            None => res matches Err(AnonError::InvalidDestination),
        },
{
    let cs = chars_of(destination);
    let n = cs.len();
    let mut i: usize = n;
    assert(cs@.take(n as int) =~= cs@);
    while i > 0 && cs[i - 1] != '@'
        invariant
            i <= n,
            n == cs@.len(),
            last_index_of(cs@, '@') == last_index_of(cs@.take(i as int), '@'),
        decreases i,
    {
        assert(cs@.take(i as int).drop_last() =~= cs@.take(i - 1));
        i = i - 1;
    }
    proof {
        if i > 0 {
            assert(cs@.take(i as int).last() == cs@[i - 1]);
        }
    }
    // `i` is one past the last `@`, or 0 when there is none.
    if i <= 1 || i >= n {
        return Err(AnonError::InvalidDestination);
    }
    let user = destination.substring_char(0, i - 1).to_owned();
    let host = destination.substring_char(i, n).to_owned();
    Ok((user, host))
}

/// The ASCII lower-case form of `c`; other characters are unchanged.
pub open spec fn ascii_lower(c: char) -> char {
    if 'A' <= c <= 'Z' {
        ((c as u32) + 32) as char
    } else {
        c
    }
}

/// The onion-service suffix.
pub open spec fn onion_suffix() -> Seq<char> {
    seq!['.', 'o', 'n', 'i', 'o', 'n']
}

/// Whether `host`, lower-cased in ASCII, ends with `.onion`.
pub open spec fn is_onion_host(host: Seq<char>) -> bool {
    let lower = host.map_values(|c: char| ascii_lower(c));
    lower.len() >= 6 && lower.skip(lower.len() - 6) == onion_suffix()
}

fn lower_is(c: char, l: char) -> (b: bool)
    requires
        'a' <= l <= 'z' || l == '.',
    ensures
        b == (ascii_lower(c) == l),
{
    if c == l {
        return true;
    }
    if 'A' <= c && c <= 'Z' {
        let u = c as u32;
        assert(ascii_lower(c) as u32 == u + 32);
        u + 32 == l as u32
    } else {
        false
    }
}

/// Whether `host` names an onion service.
pub fn onion_host(host: &str) -> (b: bool)
    ensures
        b == is_onion_host(host@),
{
    let cs = chars_of(host);
    let n = cs.len();
    let ghost lower = host@.map_values(|c: char| ascii_lower(c));
    if n < 6 {
        return false;
    }
    let b = lower_is(cs[n - 6], '.') && lower_is(cs[n - 5], 'o') && lower_is(cs[n - 4], 'n')
        && lower_is(cs[n - 3], 'i') && lower_is(cs[n - 2], 'o') && lower_is(cs[n - 1], 'n');
    let ghost tail = lower.skip(lower.len() - 6);
    assert(tail.len() == 6);
    assert(forall|k: int| 0 <= k < 6 ==> tail[k] == ascii_lower(cs@[n - 6 + k]));
    if b {
        assert(tail =~= onion_suffix());
    } else {
        assert(tail != onion_suffix()) by {
            if tail == onion_suffix() {
                assert(tail[0] == '.' && tail[1] == 'o' && tail[2] == 'n');
                assert(tail[3] == 'i' && tail[4] == 'o' && tail[5] == 'n');
            }
        }
    }
    b
}

/// Refuses an exit-country restriction for an onion service, which is not
/// reached through an exit relay.
pub fn validate_exit_country_target(country: Option<&str>, host: &str) -> (res: Result<
    (),
    AnonError,
>)
    ensures
        country is Some && is_onion_host(host@) ==> res matches Err(AnonError::ExitCountryForOnion),
        !(country is Some && is_onion_host(host@)) ==> res is Ok,
{
    if country.is_some() && onion_host(host) {
        return Err(AnonError::ExitCountryForOnion);
    }
    Ok(())
}

/// The outcome of checking the command line's destination before Tor is
/// started: nothing when only bootstrapping, otherwise the parsed
/// `(user, host)`, refused when missing, malformed, or an onion service with
/// an exit-country restriction.
pub open spec fn destination_choice(
    bootstrap_only: bool,
    destination: Option<Seq<char>>,
    exit_country: bool,
) -> Result<Option<(Seq<char>, Seq<char>)>, AnonError> {
    if bootstrap_only {
        Ok(None)
    } else {
        match destination {
            None => Err(AnonError::InvalidDestination),
            Some(d) => match destination_parts(d) {
                None => Err(AnonError::InvalidDestination),
                Some((u, h)) => if exit_country && is_onion_host(h) {
                    Err(AnonError::ExitCountryForOnion)
                } else {
                    Ok(Some((u, h)))
                },
            },
        }
    }
}

/// Checks the destination given on the command line.
pub fn select_destination(
    bootstrap_only: bool,
    destination: Option<&str>,
    exit_country: Option<&str>,
) -> (res: Result<Option<(String, String)>, AnonError>)
    ensures
        match destination_choice(
            bootstrap_only,
            match destination {
                Some(d) => Some(d@),
                None => None,
            },
            exit_country is Some,
        ) {
            Ok(None) => res matches Ok(None),
            Ok(Some((u, h))) => res matches Ok(Some((user, host))) && user@ == u && host@ == h,
            Err(AnonError::InvalidDestination) => res matches Err(AnonError::InvalidDestination),
            Err(AnonError::ExitCountryForOnion) => res matches Err(AnonError::ExitCountryForOnion),
            Err(_) => false,
        },
{
    if bootstrap_only {
        return Ok(None);
    }
    let d = match destination {
        Some(d) => d,
        None => return Err(AnonError::InvalidDestination),
    };
    let (user, host) = match parse_destination(d) {
        Ok(parts) => parts,
        Err(e) => return Err(e),
    };
    match validate_exit_country_target(exit_country, host.as_str()) {
        Ok(()) => Ok(Some((user, host))),
        Err(e) => Err(e),
    }
}

proof fn lemma_lower_is(c: char, l: char)
    requires
        'a' <= l <= 'z' || l == '.',
    ensures
        ascii_lower(c) == l <==> (c == l || ('a' <= l <= 'z' && c as u32 == l as u32 - 32)),
{
    if 'A' <= c <= 'Z' {
        assert(ascii_lower(c) as u32 == c as u32 + 32);
    }
    if 'a' <= l <= 'z' && c as u32 == l as u32 - 32 {
        assert('A' <= c <= 'Z');
    }
}

/// A host is an onion service exactly when its last six characters are
/// `.onion` in any mix of ASCII letter case.
pub proof fn lemma_onion_host_characterized(h: Seq<char>)
    ensures
        is_onion_host(h) <==> {
            &&& h.len() >= 6
            &&& h[h.len() - 6] == '.'
            &&& (h[h.len() - 5] == 'o' || h[h.len() - 5] == 'O')
            &&& (h[h.len() - 4] == 'n' || h[h.len() - 4] == 'N')
            &&& (h[h.len() - 3] == 'i' || h[h.len() - 3] == 'I')
            &&& (h[h.len() - 2] == 'o' || h[h.len() - 2] == 'O')
            &&& (h[h.len() - 1] == 'n' || h[h.len() - 1] == 'N')
        },
{
    let lower = h.map_values(|c: char| ascii_lower(c));
    if h.len() >= 6 {
        let tail = lower.skip(lower.len() - 6);
        assert(forall|k: int| 0 <= k < 6 ==> tail[k] == ascii_lower(h[h.len() - 6 + k]));
        let n = h.len();
        lemma_lower_is(h[n - 6], '.');
        lemma_lower_is(h[n - 5], 'o');
        lemma_lower_is(h[n - 4], 'n');
        lemma_lower_is(h[n - 3], 'i');
        lemma_lower_is(h[n - 2], 'o');
        lemma_lower_is(h[n - 1], 'n');
        if is_onion_host(h) {
            assert(tail[0] == '.' && tail[1] == 'o' && tail[2] == 'n');
            assert(tail[3] == 'i' && tail[4] == 'o' && tail[5] == 'n');
        } else {
            assert(tail != onion_suffix());
        }
        if h[h.len() - 6] == '.' && (h[h.len() - 5] == 'o' || h[h.len() - 5] == 'O') && (h[h.len()
            - 4] == 'n' || h[h.len() - 4] == 'N') && (h[h.len() - 3] == 'i' || h[h.len() - 3] == 'I')
            && (h[h.len() - 2] == 'o' || h[h.len() - 2] == 'O') && (h[h.len() - 1] == 'n' || h[h.len()
            - 1] == 'N') {
            assert(tail =~= onion_suffix());
        }
    }
}

/// An exit country refuses only onion services: a destination whose host
/// is not one is accepted as parsed whether or not an exit country is
/// given, and one whose host is one is refused only with an exit country.
pub proof fn lemma_exit_country_refuses_only_onions(d: Seq<char>, exit_country: bool)
    ensures
        destination_parts(d) matches Some((u, h)) ==> (!is_onion_host(h) ==> destination_choice(
            false,
            Some(d),
            exit_country,
        ) == Ok::<Option<(Seq<char>, Seq<char>)>, AnonError>(Some((u, h)))),
        destination_parts(d) matches Some((u, h)) ==> (is_onion_host(h) ==> (destination_choice(
            false,
            Some(d),
            exit_country,
        ) is Err <==> exit_country)),
        destination_parts(d) matches Some((u, h)) ==> destination_choice(false, Some(d), false)
            == Ok::<Option<(Seq<char>, Seq<char>)>, AnonError>(Some((u, h))),
{
}

} // verus!
