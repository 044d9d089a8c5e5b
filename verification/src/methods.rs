//! SSH authentication methods and the server's ordered sets of them.

use vstd::prelude::*;
use vstd::string::*;
use russh::{MethodKind, MethodSet};
use crate::text::{join, join_strings};

verus! {

/// An SSH user-authentication method.
#[derive(PartialEq, Eq, Structural, Clone, Copy, Debug)]
pub enum AuthMethod {
    NoneAuth,
    Password,
    PublicKey,
    HostBased,
    KeyboardInteractive,
    GssapiWithMic,
}

/// The protocol name of each method.
pub open spec fn method_name(m: AuthMethod) -> Seq<char> {
    match m {
        AuthMethod::NoneAuth => "none"@,
        AuthMethod::Password => "password"@,
        AuthMethod::PublicKey => "publickey"@,
        AuthMethod::HostBased => "hostbased"@,
        AuthMethod::KeyboardInteractive => "keyboard-interactive"@,
        AuthMethod::GssapiWithMic => "gssapi-with-mic"@,
    }
}

#[verifier::external_type_specification]
#[verifier::external_body]
pub struct ExMethodSet(MethodSet);

#[verifier::external_type_specification]
#[verifier::external_body]
pub struct ExMethodKind(MethodKind);

/// The methods that a `MethodSet` holds, in its order.
pub uninterp spec fn method_set_contents(s: MethodSet) -> Seq<AuthMethod>;

/// `MethodSet::empty`: a set without methods.
#[verifier::external_body]
pub(crate) fn empty_method_set() -> (s: MethodSet)
    ensures
        method_set_contents(s) == Seq::<AuthMethod>::empty(),
{
    MethodSet::empty()
}

/// `MethodSet::clone` (derived): the same methods in the same order.
#[verifier::external_body]
pub(crate) fn clone_method_set(s: &MethodSet) -> (c: MethodSet)
    ensures
        method_set_contents(c) == method_set_contents(*s),
{
    s.clone()
}

/// The number of methods, through the slice that `MethodSet` dereferences to.
#[verifier::external_body]
fn method_set_len(s: &MethodSet) -> (n: usize)
    ensures
        n == method_set_contents(*s).len(),
{
    s.len()
}

/// The `i`-th method, through the slice that `MethodSet` dereferences to,
/// each `MethodKind` variant mapped to the `AuthMethod` of the same name.
#[verifier::external_body]
fn method_set_get(s: &MethodSet, i: usize) -> (m: AuthMethod)
    requires
        i < method_set_contents(*s).len(),
    ensures
        m == method_set_contents(*s)[i as int],
{
    match s[i] {
        MethodKind::None => AuthMethod::NoneAuth,
        MethodKind::Password => AuthMethod::Password,
        MethodKind::PublicKey => AuthMethod::PublicKey,
        MethodKind::HostBased => AuthMethod::HostBased,
        MethodKind::KeyboardInteractive => AuthMethod::KeyboardInteractive,
        MethodKind::GssapiWithMic => AuthMethod::GssapiWithMic,
    }
}

/// The protocol name of the `i`-th method, by russh's
/// `From<&MethodKind> for &'static str`, whose match gives each method the
/// name that `method_name` lists.
#[verifier::external_body]
fn method_set_name(s: &MethodSet, i: usize) -> (name: &'static str)
    requires
        i < method_set_contents(*s).len(),
    ensures
        name@ == method_name(method_set_contents(*s)[i as int]),
{
    <&str>::from(&s[i])
}

/// Whether the set holds `m`.
pub fn methods_contain(s: &MethodSet, m: AuthMethod) -> (b: bool)
    ensures
        b == method_set_contents(*s).contains(m),
{
    let n = method_set_len(s);
    let mut i: usize = 0;
    while i < n
        invariant
            i <= n,
            n == method_set_contents(*s).len(),
            forall|k: int| 0 <= k < i ==> method_set_contents(*s)[k] != m,
        decreases n - i,
    {
        if method_set_get(s, i) == m {
            assert(method_set_contents(*s)[i as int] == m);
            return true;
        }
        i = i + 1;
    }
    false
}

/// How a set of remaining methods is shown: `none` when empty, otherwise
/// the names in order, separated by commas.
pub open spec fn methods_text(ms: Seq<AuthMethod>) -> Seq<char> {
    if ms.len() == 0 {
        "none"@
    } else {
        join(ms.map_values(|m: AuthMethod| method_name(m)), ","@)
    }
}

/// Renders the methods for an error message.
pub fn format_methods(methods: &MethodSet) -> (res: String)
    ensures
        res@ == methods_text(method_set_contents(*methods)),
{
    let n = method_set_len(methods);
    if n == 0 {
        return String::from_str("none");
    }
    let ghost ms = method_set_contents(*methods);
    let mut names: Vec<String> = Vec::new();
    let mut i: usize = 0;
    while i < n
        invariant
            i <= n,
            n == ms.len(),
            ms == method_set_contents(*methods),
            names@.len() == i,
            forall|k: int| 0 <= k < i ==> (#[trigger] names@[k])@ == method_name(ms[k]),
        decreases n - i,
    {
        let name = method_set_name(methods, i);
        names.push(String::from_str(name));
        i = i + 1;
    }
    assert(names@.map_values(|p: String| p@) =~= ms.map_values(|m: AuthMethod| method_name(m)));
    join_strings(&names, ",")
}

} // verus!
