//! Pluggable transports for bridges: which transport protocols to run and
//! which binary runs them.

use vstd::prelude::*;
use vstd::string::*;
use crate::error::AnonError;

verus! {

/// Where the Tor client keeps its state and cache: under the directory the
/// user named, kept across runs, or under a temporary directory that is
/// deleted when the program exits.
pub struct TorStorage {
    /// Whether the storage is a temporary directory deleted on exit.
    pub temporary: bool,
    /// The subdirectory for Tor state.
    pub state_dir_name: String,
    /// The subdirectory for the directory cache.
    pub cache_dir_name: String,
}

/// Chooses the Tor client's storage: temporary, and so deleted on exit,
/// exactly when no state directory was given.
pub fn tor_storage(has_state_dir: bool) -> (s: TorStorage)
    ensures
        s.temporary == !has_state_dir,
        s.state_dir_name@ == "state"@,
        s.cache_dir_name@ == "cache"@,
{
    TorStorage {
        temporary: !has_state_dir,
        state_dir_name: String::from_str("state"),
        cache_dir_name: String::from_str("cache"),
    }
}

/// Whether bridges, and with them a pluggable transport, are configured:
/// only when at least one bridge line was given. Without bridges no
/// transport binary is looked for.
pub fn bridges_enabled(bridge_lines: usize) -> (b: bool)
    ensures
        b == (bridge_lines > 0),
{
    bridge_lines > 0
}

/// `ps` with `p` appended unless it is already listed.
pub open spec fn with_protocol(ps: Seq<Seq<char>>, p: Seq<char>) -> Seq<Seq<char>> {
    if ps.contains(p) {
        ps
    } else {
        ps.push(p)
    }
}

/// The views of a list of strings.
pub open spec fn views(v: Seq<String>) -> Seq<Seq<char>> {
    v.map_values(|s: String| s@)
}

/// Records the transport protocol named by one bridge line; a protocol
/// that an earlier bridge already named is not listed twice.
pub fn add_protocol(protocols: &mut Vec<String>, protocol: String)
    ensures
        views(final(protocols)@) == with_protocol(views(old(protocols)@), protocol@),
{
    let ghost vs = views(protocols@);
    let mut i: usize = 0;
    while i < protocols.len()
        invariant
            i <= protocols@.len(),
            vs == views(protocols@),
            forall|k: int| 0 <= k < i ==> vs[k] != protocol@,
        decreases protocols.len() - i,
    {
        if protocols[i] == protocol {
            assert(vs[i as int] == protocol@);
            return;
        }
        i = i + 1;
    }
    assert(!vs.contains(protocol@));
    protocols.push(protocol);
    assert(views(protocols@) =~= vs.push(protocol@));
}

/// The protocol list that a sequence of bridge transports yields.
pub open spec fn protocols_of(transports: Seq<Seq<char>>) -> Seq<Seq<char>>
    decreases transports.len(),
{
    if transports.len() == 0 {
        Seq::empty()
    } else {
        with_protocol(protocols_of(transports.drop_last()), transports.last())
    }
}

/// The transport protocols to run for bridges naming `transports`, in
/// order of first appearance, each once.
pub fn collect_protocols(transports: &Vec<String>) -> (protocols: Vec<String>)
    ensures
        views(protocols@) == protocols_of(views(transports@)),
{
    let ghost ts = views(transports@);
    let mut protocols: Vec<String> = Vec::new();
    let mut i: usize = 0;
    while i < transports.len()
        invariant
            i <= transports@.len(),
            ts == views(transports@),
            views(protocols@) == protocols_of(ts.take(i as int)),
        decreases transports.len() - i,
    {
        assert(ts.take(i + 1).drop_last() =~= ts.take(i as int));
        assert(ts.take(i + 1).last() == transports@[i as int]@);
        add_protocol(&mut protocols, transports[i].clone());
        i = i + 1;
    }
    assert(ts.take(transports@.len() as int) =~= ts);
    protocols
}

/// Every transport that the bridges name is listed exactly once, and
/// nothing else is listed.
pub proof fn lemma_protocols_unique(transports: Seq<Seq<char>>)
    ensures
        protocols_of(transports).no_duplicates(),
        forall|p: Seq<char>| #[trigger] protocols_of(transports).contains(p) <==> transports.contains(p),
    decreases transports.len(),
{
    if transports.len() > 0 {
        let prev = transports.drop_last();
        lemma_protocols_unique(prev);
        let ps = protocols_of(prev);
        let p = transports.last();
        assert forall|q: Seq<char>| #[trigger] protocols_of(transports).contains(q) <==> transports.contains(q) by {
            if transports.contains(q) && q != p {
                let k = choose|k: int| 0 <= k < transports.len() && transports[k] == q;
                assert(prev[k] == q);
            }
            if prev.contains(q) {
                let k = choose|k: int| 0 <= k < prev.len() && prev[k] == q;
                assert(transports[k] == q);
            }
            if !ps.contains(p) {
                assert(ps.push(p)[ps.len() as int] == p);
                if ps.push(p).contains(q) {
                    let k = choose|k: int| 0 <= k < ps.push(p).len() && ps.push(p)[k] == q;
                    if k < ps.len() {
                        assert(ps[k] == q);
                    }
                }
                if ps.contains(q) {
                    let k = choose|k: int| 0 <= k < ps.len() && ps[k] == q;
                    assert(ps.push(p)[k] == q);
                }
            }
            assert(transports[transports.len() - 1] == p);
        }
        if !ps.contains(p) {
            assert forall|i: int, j: int|
                0 <= i < ps.push(p).len() && 0 <= j < ps.push(p).len() && i != j implies ps.push(p)[i]
                != ps.push(p)[j] by {
                if i < ps.len() && j < ps.len() {
                } else if i == ps.len() {
                    assert(ps[j] == ps.push(p)[j]);
                } else {
                    assert(ps[i] == ps.push(p)[i]);
                }
            }
        }
    }
}

/// A place where the pluggable-transport binary may be found.
#[derive(PartialEq, Eq, Structural, Clone, Copy, Debug)]
pub enum PtSource {
    /// The `--pt-path` option.
    Explicit,
    /// The `ANONSSH_PT_PATH` environment variable.
    Environment,
    /// A known binary in a `PATH` directory.
    SearchPath,
    /// Tor Browser's installation (Windows only).
    TorBrowser,
}

/// The order in which the places are consulted.
pub open spec fn pt_source_order() -> Seq<PtSource> {
    seq![PtSource::Explicit, PtSource::Environment, PtSource::SearchPath, PtSource::TorBrowser]
}

/// The places to consult for the pluggable-transport binary; the first
/// that yields a path decides, later ones are not consulted.
pub fn pt_sources() -> (v: Vec<PtSource>)
    ensures
        v@ == pt_source_order(),
{
    let v = vec![PtSource::Explicit, PtSource::Environment, PtSource::SearchPath, PtSource::TorBrowser];
    assert(v@ =~= pt_source_order());
    v
}

/// The environment variable that may name the pluggable-transport binary.
pub fn pt_path_variable() -> (name: String)
    ensures
        name@ == "ANONSSH_PT_PATH"@,
{
    String::from_str("ANONSSH_PT_PATH")
}

/// What is known of a candidate pluggable-transport binary.
pub struct PtCandidate {
    /// The path, as displayed to the user.
    pub path: String,
    /// Whether the path names a regular file.
    pub is_file: bool,
    /// The Unix permission bits, on systems that have them.
    pub unix_mode: Option<u32>,
}

/// Whether some execute bit is set.
pub open spec fn executable_mode(mode: u32) -> bool {
    mode & 0o111 != 0
}

/// The outcome of resolving the pluggable-transport binary: the first
/// candidate found, if any, must be a file and, where permissions exist,
/// executable.
pub open spec fn pt_resolution(candidate: Option<PtCandidate>) -> Result<Seq<char>, AnonError> {
    match candidate {
        None => Err(AnonError::TransportNotFound),
        Some(c) => if !c.is_file {
            Err(AnonError::TransportNotFile(c.path))
        } else if c.unix_mode matches Some(m) && !executable_mode(m) {
            Err(AnonError::TransportNotExecutable(c.path))
        } else {
            Ok(c.path@)
        },
    }
}

/// Accepts the candidate binary for running pluggable transports, or says
/// why it cannot be used.
pub fn resolve_pt_path(candidate: Option<PtCandidate>) -> (res: Result<String, AnonError>)
    ensures
        match (pt_resolution(candidate), res) {
            (Ok(p), Ok(r)) => r@ == p,
            (Err(AnonError::TransportNotFound), Err(AnonError::TransportNotFound)) => true,
            (Err(AnonError::TransportNotFile(p)), Err(AnonError::TransportNotFile(r))) => r@ == p@,
            (
                Err(AnonError::TransportNotExecutable(p)),
                Err(AnonError::TransportNotExecutable(r)),
            ) => r@ == p@,
            _ => false,
        },
{
    match candidate {
        None => Err(AnonError::TransportNotFound),
        Some(c) => {
            if !c.is_file {
                return Err(AnonError::TransportNotFile(c.path));
            }
            if let Some(m) = c.unix_mode {
                if m & 0o111 == 0 {
                    return Err(AnonError::TransportNotExecutable(c.path));
                }
            }
            Ok(c.path)
        },
    }
}

/// The binaries searched for on `PATH`, in order of preference.
pub open spec fn pt_binary_names_spec(windows: bool) -> Seq<Seq<char>> {
    if windows {
        seq!["lyrebird.exe"@, "snowflake-client.exe"@]
    } else {
        seq!["lyrebird"@, "snowflake-client"@]
    }
}

/// The pluggable-transport binaries to look for in each `PATH` directory.
pub fn pt_binary_names(windows: bool) -> (v: Vec<String>)
    ensures
        views(v@) == pt_binary_names_spec(windows),
{
    let mut v: Vec<String> = Vec::new();
    if windows {
        v.push(String::from_str("lyrebird.exe"));
        v.push(String::from_str("snowflake-client.exe"));
    } else {
        v.push(String::from_str("lyrebird"));
        v.push(String::from_str("snowflake-client"));
    }
    assert(views(v@) =~= pt_binary_names_spec(windows));
    v
}

/// Where Tor Browser keeps its `lyrebird.exe`: under the directory named
/// by one of these environment variables, tried in order, at this
/// relative path. Only Windows installations are searched.
pub fn tor_browser_pt_locations(windows: bool) -> (r: Option<(Vec<String>, String)>)
    ensures
        !windows ==> r is None,
        windows ==> (r matches Some((vars, rel)) && views(vars@) == seq![
            "PROGRAMFILES"@,
            "PROGRAMFILES(X86)"@,
            "LOCALAPPDATA"@,
        ] && rel@ == "Tor Browser/Browser/TorBrowser/Tor/PluggableTransports/lyrebird.exe"@),
{
    if !windows {
        return None;
    }
    let mut vars: Vec<String> = Vec::new();
    vars.push(String::from_str("PROGRAMFILES"));
    vars.push(String::from_str("PROGRAMFILES(X86)"));
    vars.push(String::from_str("LOCALAPPDATA"));
    assert(views(vars@) =~= seq!["PROGRAMFILES"@, "PROGRAMFILES(X86)"@, "LOCALAPPDATA"@]);
    Some(
        (
            vars,
            String::from_str("Tor Browser/Browser/TorBrowser/Tor/PluggableTransports/lyrebird.exe"),
        ),
    )
}

/// A file candidate is accepted exactly when its mode is unknown or has at
/// least one execute bit set (owner, group or other); every other bit of
/// the mode, file-type bits included, is irrelevant.
pub proof fn lemma_execute_bits_decide(c: PtCandidate, m: u32)
    requires
        c.is_file,
        c.unix_mode == Some(m),
    ensures
        m & 0o111 != 0 ==> pt_resolution(Some(c)) == Ok::<Seq<char>, AnonError>(c.path@),
        m & 0o111 == 0 ==> pt_resolution(Some(c)) == Err::<Seq<char>, AnonError>(
            AnonError::TransportNotExecutable(c.path),
        ),
        pt_resolution(Some(c)) == pt_resolution(Some(PtCandidate { unix_mode: Some(m & 0o111), ..c })),
{
    assert((m & 0o111) & 0o111 == m & 0o111) by (bit_vector);
}

/// A file candidate without permission bits (a system that has none) is
/// accepted as it is.
pub proof fn lemma_file_without_mode_accepted(c: PtCandidate)
    requires
        c.is_file,
        c.unix_mode is None,
    ensures
        pt_resolution(Some(c)) == Ok::<Seq<char>, AnonError>(c.path@),
{
}

/// Without any candidate the binary is reported as not found, and a
/// candidate that is not a file is refused whatever its mode.
pub proof fn lemma_missing_or_not_file(c: PtCandidate)
    ensures
        pt_resolution(None) == Err::<Seq<char>, AnonError>(AnonError::TransportNotFound),
        !c.is_file ==> pt_resolution(Some(c)) == Err::<Seq<char>, AnonError>(
            AnonError::TransportNotFile(c.path),
        ),
{
}

} // verus!
