use anonssh::kexinit::{kexinit_hassh_source, payload_of_packet};
use anonssh::profile::{hassh_source, ssh_client_config, ClientConfig};
use russh::client;
use russh::{compression, kex, Preferred, SshId};
use std::borrow::Cow;
use std::sync::Arc;
use tokio::io::{AsyncReadExt, AsyncWriteExt};

const EXPECTED_SOURCE: &str = "mlkem768x25519-sha256,curve25519-sha256,curve25519-sha256@libssh.org,ecdh-sha2-nistp256,ecdh-sha2-nistp384,ecdh-sha2-nistp521,diffie-hellman-group14-sha256,diffie-hellman-group16-sha512,diffie-hellman-group-exchange-sha256,ext-info-c,kex-strict-c-v00@openssh.com;aes128-gcm@openssh.com,aes256-gcm@openssh.com,chacha20-poly1305@openssh.com,aes128-ctr,aes192-ctr,aes256-ctr;hmac-sha2-256-etm@openssh.com,hmac-sha2-512-etm@openssh.com,hmac-sha2-256,hmac-sha2-512,hmac-sha1;none";

struct Silent;

impl client::Handler for Silent {
    type Error = russh::Error;
}

fn kex_name(name: &str) -> kex::Name {
    if name == "ext-info-c" {
        kex::EXTENSION_SUPPORT_AS_CLIENT
    } else if name == "kex-strict-c-v00@openssh.com" {
        kex::EXTENSION_OPENSSH_STRICT_KEX_AS_CLIENT
    } else {
        kex::Name::try_from(name).unwrap()
    }
}

fn russh_config(config: &ClientConfig) -> client::Config {
    let default = Preferred::DEFAULT;
    let p = &config.preferred;
    client::Config {
        client_id: SshId::Standard(Cow::Owned(config.client_id.clone())),
        preferred: Preferred {
            kex: Cow::Owned(p.kex.iter().map(|n| kex_name(n)).collect()),
            key: default.key,
            host_key_certificates: default.host_key_certificates,
            cipher: Cow::Owned(p.cipher.iter().map(|n| russh::cipher::Name::try_from(n.as_str()).unwrap()).collect()),
            mac: Cow::Owned(p.mac.iter().map(|n| russh::mac::Name::try_from(n.as_str()).unwrap()).collect()),
            compression: Cow::Owned(p.compression.iter().map(|n| compression::Name::try_from(n.as_str()).unwrap()).collect()),
        },
        inactivity_timeout: None,
        ..Default::default()
    }
}

#[test]
fn profile_hassh_source_is_stable() {
    let source = hassh_source(&ssh_client_config().preferred);
    assert_eq!(source, EXPECTED_SOURCE);
    assert_eq!(format!("{:x}", md5::compute(source.as_bytes())), "905ba763813042a5e5327b92d4a053a0");
}

#[test]
fn client_identification_is_go() {
    let config = ssh_client_config();
    assert_eq!(config.client_id, "SSH-2.0-Go");
    assert_eq!(config.inactivity_timeout_secs, None);
}

#[test]
fn wire_kexinit_has_stable_hassh() {
    let runtime = tokio::runtime::Builder::new_current_thread().enable_all().build().unwrap();
    runtime.block_on(async {
        let (client_stream, mut peer) = tokio::io::duplex(64 * 1024);
        let connection = tokio::spawn(client::connect_stream(
            Arc::new(russh_config(&ssh_client_config())),
            client_stream,
            Silent,
        ));

        let mut banner = Vec::new();
        loop {
            let byte = peer.read_u8().await.unwrap();
            banner.push(byte);
            if byte == b'\n' {
                break;
            }
        }
        assert_eq!(banner, b"SSH-2.0-Go\r\n");
        peer.write_all(b"SSH-2.0-test-server\r\n").await.unwrap();

        let packet_len = peer.read_u32().await.unwrap() as usize;
        let mut packet = vec![0_u8; packet_len];
        peer.read_exact(&mut packet).await.unwrap();
        let payload = payload_of_packet(&packet).unwrap();
        assert_eq!(payload[0], 20, "first packet must be SSH_MSG_KEXINIT");

        let source = kexinit_hassh_source(&payload).unwrap();
        assert_eq!(source, hassh_source(&ssh_client_config().preferred));
        assert_eq!(source, EXPECTED_SOURCE);
        assert_eq!(format!("{:x}", md5::compute(source.as_bytes())), "905ba763813042a5e5327b92d4a053a0");

        connection.abort();
    });
}

fn name_list(out: &mut Vec<u8>, text: &[u8]) {
    out.extend_from_slice(&(text.len() as u32).to_be_bytes());
    out.extend_from_slice(text);
}

fn sample_kexinit(lists: &[&[u8]]) -> Vec<u8> {
    let mut payload = vec![20_u8];
    payload.extend_from_slice(&[7_u8; 16]);
    for list in lists {
        name_list(&mut payload, list);
    }
    payload
}

#[test]
fn kexinit_source_takes_client_to_server_lists() {
    let payload = sample_kexinit(&[b"k1,k2", b"ssh-ed25519", b"c1", b"c2", b"m1", b"m2", b"none", b"zlib", b"", b""]);
    assert_eq!(kexinit_hassh_source(&payload).unwrap(), "k1,k2;c1;m1;none");
}

#[test]
fn kexinit_source_rejects_other_messages_and_truncation() {
    let mut payload = sample_kexinit(&[b"a", b"b", b"c", b"d", b"e", b"f", b"g"]);
    assert_eq!(kexinit_hassh_source(&payload).unwrap(), "a;c;e;g");
    payload[0] = 21;
    assert!(kexinit_hassh_source(&payload).is_none());
    let truncated = sample_kexinit(&[b"a", b"b", b"c", b"d", b"e", b"f"]);
    assert!(kexinit_hassh_source(&truncated).is_none());
    let mut cut = sample_kexinit(&[b"a", b"b", b"c", b"d", b"e", b"f", b"ggg"]);
    cut.pop();
    assert!(kexinit_hassh_source(&cut).is_none());
    assert!(kexinit_hassh_source(&[20_u8; 10]).is_none());
}

#[test]
fn kexinit_source_requires_utf8_lists() {
    let payload = sample_kexinit(&[b"a", b"b", &[0xff, 0xfe], b"d", b"e", b"f", b"g"]);
    assert!(kexinit_hassh_source(&payload).is_none());
    let ignored = sample_kexinit(&[b"a", &[0xff], b"c", b"d", b"e", b"f", b"g"]);
    assert_eq!(kexinit_hassh_source(&ignored).unwrap(), "a;c;e;g");
}

#[test]
fn packet_payload_drops_padding() {
    let packet = [3_u8, 20, 1, 2, 9, 9, 9];
    assert_eq!(payload_of_packet(&packet).unwrap(), vec![20_u8, 1, 2]);
    assert_eq!(payload_of_packet(&[0_u8]).unwrap(), Vec::<u8>::new());
    assert!(payload_of_packet(&[5_u8, 1, 2]).is_none());
    assert!(payload_of_packet(&[]).is_none());
}
