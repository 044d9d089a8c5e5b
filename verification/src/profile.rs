//! The client's single, stable algorithm profile and its HASSH source.
//!
//! Every session offers the same banner and the same KEXINIT lists, in the
//! order of Go's `x/crypto/ssh`, so that clients of this program do not
//! stand out through rare per-session combinations.

use vstd::prelude::*;
use vstd::string::*;
use crate::text::{join, join_strings};

verus! {

/// The identification string sent before key exchange.
pub open spec fn profile_client_id() -> Seq<char> {
    "SSH-2.0-Go"@
}

/// Offered key-exchange algorithms, most preferred first.
pub open spec fn profile_kex() -> Seq<Seq<char>> {
    seq![
        "mlkem768x25519-sha256"@,
        "curve25519-sha256"@,
        "curve25519-sha256@libssh.org"@,
        "ecdh-sha2-nistp256"@,
        "ecdh-sha2-nistp384"@,
        "ecdh-sha2-nistp521"@,
        "diffie-hellman-group14-sha256"@,
        "diffie-hellman-group16-sha512"@,
        "diffie-hellman-group-exchange-sha256"@,
        "ext-info-c"@,
        "kex-strict-c-v00@openssh.com"@,
    ]
}

/// Offered ciphers, most preferred first.
pub open spec fn profile_ciphers() -> Seq<Seq<char>> {
    seq![
        "aes128-gcm@openssh.com"@,
        "aes256-gcm@openssh.com"@,
        "chacha20-poly1305@openssh.com"@,
        "aes128-ctr"@,
        "aes192-ctr"@,
        "aes256-ctr"@,
    ]
}

/// Offered MAC algorithms, most preferred first.
pub open spec fn profile_macs() -> Seq<Seq<char>> {
    seq![
        "hmac-sha2-256-etm@openssh.com"@,
        "hmac-sha2-512-etm@openssh.com"@,
        "hmac-sha2-256"@,
        "hmac-sha2-512"@,
        "hmac-sha1"@,
    ]
}

/// Offered compression algorithms.
pub open spec fn profile_compression() -> Seq<Seq<char>> {
    seq!["none"@]
}

/// The algorithm names that a client offers in its KEXINIT; host-key
/// algorithms are left to the SSH implementation's defaults.
pub struct Preferred {
    pub kex: Vec<String>,
    pub cipher: Vec<String>,
    pub mac: Vec<String>,
    pub compression: Vec<String>,
}

/// The client settings that this program chooses; all others keep the SSH
/// implementation's defaults.
pub struct ClientConfig {
    pub client_id: String,
    pub preferred: Preferred,
    /// `None`: an idle session is never closed for inactivity.
    pub inactivity_timeout_secs: Option<u64>,
}

/// The views of a list of names.
pub open spec fn names(v: Vec<String>) -> Seq<Seq<char>> {
    v@.map_values(|s: String| s@)
}

fn strings(lits: &[&str]) -> (v: Vec<String>)
    ensures
        v@.map_values(|s: String| s@) == lits@.map_values(|s: &str| s@),
{
    let mut v: Vec<String> = Vec::new();
    let mut i: usize = 0;
    while i < lits.len()
        invariant
            i <= lits@.len(),
            v@.len() == i,
            forall|k: int| 0 <= k < i ==> (#[trigger] v@[k])@ == lits@[k]@,
        decreases lits.len() - i,
    {
        v.push(String::from_str(lits[i]));
        i = i + 1;
    }
    assert(v@.map_values(|s: String| s@) =~= lits@.map_values(|s: &str| s@));
    v
}

/// The settings of every SSH connection: Go's banner and algorithm order.
pub fn ssh_client_config() -> (c: ClientConfig)
    ensures
        c.client_id@ == profile_client_id(),
        names(c.preferred.kex) == profile_kex(),
        names(c.preferred.cipher) == profile_ciphers(),
        names(c.preferred.mac) == profile_macs(),
        names(c.preferred.compression) == profile_compression(),
        c.inactivity_timeout_secs is None,
{
    let kex_lits: [&str; 11] = [
        "mlkem768x25519-sha256",
        "curve25519-sha256",
        "curve25519-sha256@libssh.org",
        "ecdh-sha2-nistp256",
        "ecdh-sha2-nistp384",
        "ecdh-sha2-nistp521",
        "diffie-hellman-group14-sha256",
        "diffie-hellman-group16-sha512",
        "diffie-hellman-group-exchange-sha256",
        "ext-info-c",
        "kex-strict-c-v00@openssh.com",
    ];
    let cipher_lits: [&str; 6] = [
        "aes128-gcm@openssh.com",
        "aes256-gcm@openssh.com",
        "chacha20-poly1305@openssh.com",
        "aes128-ctr",
        "aes192-ctr",
        "aes256-ctr",
    ];
    let mac_lits: [&str; 5] = [
        "hmac-sha2-256-etm@openssh.com",
        "hmac-sha2-512-etm@openssh.com",
        "hmac-sha2-256",
        "hmac-sha2-512",
        "hmac-sha1",
    ];
    let compression_lits: [&str; 1] = ["none"];
    let kex = strings(&kex_lits);
    let cipher = strings(&cipher_lits);
    let mac = strings(&mac_lits);
    let compression = strings(&compression_lits);
    assert(kex_lits@.map_values(|s: &str| s@) =~= profile_kex());
    assert(cipher_lits@.map_values(|s: &str| s@) =~= profile_ciphers());
    assert(mac_lits@.map_values(|s: &str| s@) =~= profile_macs());
    assert(compression_lits@.map_values(|s: &str| s@) =~= profile_compression());
    ClientConfig {
        client_id: String::from_str("SSH-2.0-Go"),
        preferred: Preferred { kex, cipher, mac, compression },
        inactivity_timeout_secs: None,
    }
}

/// The HASSH source of a KEXINIT: each client-to-server list joined with
/// commas, the four lists joined with semicolons.
pub open spec fn hassh_text(
    kex: Seq<Seq<char>>,
    cipher: Seq<Seq<char>>,
    mac: Seq<Seq<char>>,
    compression: Seq<Seq<char>>,
) -> Seq<char> {
    join(
        seq![join(kex, ","@), join(cipher, ","@), join(mac, ","@), join(compression, ","@)],
        ";"@,
    )
}

/// The HASSH source of the lists that `preferred` offers.
pub fn hassh_source(preferred: &Preferred) -> (s: String)
    ensures
        s@ == hassh_text(
            names(preferred.kex),
            names(preferred.cipher),
            names(preferred.mac),
            names(preferred.compression),
        ),
{
    let mut parts: Vec<String> = Vec::new();
    parts.push(join_strings(&preferred.kex, ","));
    parts.push(join_strings(&preferred.cipher, ","));
    parts.push(join_strings(&preferred.mac, ","));
    parts.push(join_strings(&preferred.compression, ","));
    let ghost expected = seq![
        join(names(preferred.kex), ","@),
        join(names(preferred.cipher), ","@),
        join(names(preferred.mac), ","@),
        join(names(preferred.compression), ","@),
    ];
    assert(parts@.map_values(|p: String| p@) =~= expected);
    join_strings(&parts, ";")
}

} // verus!
