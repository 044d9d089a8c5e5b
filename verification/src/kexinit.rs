//! Reading the HASSH source back from a client's first binary packet, the
//! KEXINIT message (RFC 4253, sections 6 and 7.1).

use vstd::prelude::*;
use vstd::utf8::*;
use crate::text::{join, join_strings};

verus! {

/// The message number of SSH_MSG_KEXINIT.
pub open spec fn msg_kexinit() -> u8 {
    20
}

/// The payload of a binary packet (after its length field): the bytes
/// after the padding-length byte, without the padding.
pub open spec fn packet_payload(packet: Seq<u8>) -> Option<Seq<u8>> {
    if packet.len() >= 1 && packet[0] as int + 1 <= packet.len() {
        Some(packet.subrange(1, packet.len() - packet[0] as int))
    } else {
        None
    }
}

/// Extracts the payload of a binary packet.
pub fn payload_of_packet(packet: &[u8]) -> (r: Option<Vec<u8>>)
    ensures
        match packet_payload(packet@) {
            Some(p) => r matches Some(v) && v@ == p,
            None => r is None,
        },
{
    if packet.len() < 1 {
        return None;
    }
    let padding = packet[0] as usize;
    if padding + 1 > packet.len() {
        return None;
    }
    let end = packet.len() - padding;
    let mut v: Vec<u8> = Vec::new();
    let mut i: usize = 1;
    while i < end
        invariant
            1 <= i <= end <= packet@.len(),
            v@ == packet@.subrange(1, i as int),
        decreases end - i,
    {
        v.push(packet[i]);
        i = i + 1;
        assert(v@ =~= packet@.subrange(1, i as int));
    }
    Some(v)
}

/// The big-endian 32-bit number at `off`.
pub open spec fn be_u32(b: Seq<u8>, off: int) -> int {
    b[off] * 16777216 + b[off + 1] * 65536 + b[off + 2] * 256 + b[off + 3]
}

/// `n` consecutive name-lists starting at `off`: each a 32-bit length and
/// that many bytes. `None` if the bytes end too early.
pub open spec fn name_lists(b: Seq<u8>, off: int, n: nat) -> Option<Seq<Seq<u8>>>
    decreases n,
{
    if n == 0 {
        Some(Seq::empty())
    } else if 0 <= off && off + 4 <= b.len() && off + 4 + be_u32(b, off) <= b.len() {
        let len = be_u32(b, off);
        match name_lists(b, off + 4 + len, (n - 1) as nat) {
            Some(rest) => Some(seq![b.subrange(off + 4, off + 4 + len)] + rest),
            None => None,
        }
    } else {
        None
    }
}

/// The HASSH source of a KEXINIT payload: after the message number and the
/// 16-byte cookie come ten name-lists; the client-to-server key-exchange,
/// cipher, MAC and compression lists (the first, third, fifth and seventh
/// of them) are decoded as UTF-8 and joined with semicolons.
pub open spec fn kexinit_hassh(payload: Seq<u8>) -> Option<Seq<char>> {
    if payload.len() >= 17 && payload[0] == msg_kexinit() {
        match name_lists(payload, 17, 7) {
            Some(ls) => if valid_utf8(ls[0]) && valid_utf8(ls[2]) && valid_utf8(ls[4])
                && valid_utf8(ls[6]) {
                Some(
                    join(
                        seq![
                            decode_utf8(ls[0]),
                            decode_utf8(ls[2]),
                            decode_utf8(ls[4]),
                            decode_utf8(ls[6]),
                        ],
                        ";"@,
                    ),
                )
            } else {
                None
            },
            None => None,
        }
    } else {
        None
    }
}

/// `std::str::from_utf8`: the text that `bytes` encode, if they are valid
/// UTF-8.
#[verifier::external_body]
fn utf8_text(bytes: &[u8]) -> (r: Option<&str>)
    ensures
        r is Some <==> valid_utf8(bytes@),
        r matches Some(s) ==> s@ == decode_utf8(bytes@),
{
    match std::str::from_utf8(bytes) {
        Ok(s) => Some(s),
        Err(_) => None,
    }
}

fn read_be_u32(b: &[u8], off: usize) -> (v: u64)
    requires
        off + 4 <= b@.len(),
    ensures
        v == be_u32(b@, off as int),
{
    (b[off] as u64) * 16777216 + (b[off + 1] as u64) * 65536 + (b[off + 2] as u64) * 256 + (b[off
        + 3] as u64)
}

/// Reads one name-list at `off`: the list and the offset after it.
fn read_name_list(b: &[u8], off: usize) -> (r: Option<(Option<String>, usize)>)
    ensures
        match name_lists(b@, off as int, 1) {
            Some(ls) => r matches Some((text, next)) && next == off + 4 + be_u32(b@, off as int) && (
            text is Some <==> valid_utf8(ls[0])) && (text matches Some(s) ==> s@ == decode_utf8(
                ls[0],
            )),
            None => r is None,
        },
{
    if b.len() < 4 || off > b.len() - 4 {
        return None;
    }
    let len = read_be_u32(b, off);
    if len > (b.len() - off - 4) as u64 {
        return None;
    }
    let start = off + 4;
    let end = start + len as usize;
    let text = match utf8_text(&b[start..end]) {
        Some(s) => Some(s.to_owned()),
        None => None,
    };
    proof {
        let ls = name_lists(b@, off as int, 1).unwrap();
        assert(name_lists(b@, end as int, 0) == Some(Seq::<Seq<u8>>::empty()));
        assert(ls[0] == b@.subrange(start as int, end as int));
    }
    Some((text, end))
}

proof fn lemma_name_lists_len(b: Seq<u8>, off: int, n: nat)
    ensures
        name_lists(b, off, n) matches Some(ls) ==> ls.len() == n,
        n > 0 && name_lists(b, off, n) is Some ==> name_lists(b, off, 1) is Some,
    decreases n,
{
    if n > 0 && 0 <= off && off + 4 <= b.len() && off + 4 + be_u32(b, off) <= b.len() {
        lemma_name_lists_len(b, off + 4 + be_u32(b, off), (n - 1) as nat);
        assert(name_lists(b, off + 4 + be_u32(b, off), 0) == Some(Seq::<Seq<u8>>::empty()));
    }
}

proof fn lemma_name_lists_step(b: Seq<u8>, off: int, n: nat)
    requires
        n > 0,
        name_lists(b, off, 1) is Some,
    ensures
        ({
            let next = off + 4 + be_u32(b, off);
            match name_lists(b, off, n) {
                Some(ls) => name_lists(b, next, (n - 1) as nat) == Some(ls.drop_first()) && ls[0]
                    == name_lists(b, off, 1).unwrap()[0],
                None => name_lists(b, next, (n - 1) as nat) is None,
            }
        }),
{
    let next = off + 4 + be_u32(b, off);
    if let Some(ls) = name_lists(b, off, n) {
        let rest = name_lists(b, next, (n - 1) as nat).unwrap();
        assert(ls.drop_first() =~= rest);
    }
}

/// Computes the HASSH source of a client's KEXINIT payload.
pub fn kexinit_hassh_source(payload: &[u8]) -> (r: Option<String>)
    ensures
        match kexinit_hassh(payload@) {
            Some(h) => r matches Some(s) && s@ == h,
            None => r is None,
        },
{
    if payload.len() < 17 || payload[0] != 20 {
        return None;
    }
    let ghost all = name_lists(payload@, 17, 7);
    proof {
        lemma_name_lists_len(payload@, 17, 7);
        if let Some(ls) = all {
            assert(ls.skip(0) =~= ls);
        }
    }
    let mut parts: Vec<String> = Vec::new();
    let mut off: usize = 17;
    let mut k: usize = 0;
    let mut valid = true;
    while k < 7
        invariant
            k <= 7,
            17 <= off <= payload@.len(),
            all == name_lists(payload@, 17, 7),
            all matches Some(ls) ==> ls.len() == 7,
            match all {
                Some(ls) => name_lists(payload@, off as int, (7 - k) as nat) == Some(ls.skip(k as int)),
                None => name_lists(payload@, off as int, (7 - k) as nat) is None,
            },
            parts@.len() == (k + 1) / 2,
            all matches Some(ls) ==> (valid <==> forall|j: int|
                0 <= j < k && j % 2 == 0 ==> valid_utf8(#[trigger] ls[j])),
            all matches Some(ls) ==> valid ==> forall|j: int|
                0 <= j < parts@.len() ==> (#[trigger] parts@[j])@ == decode_utf8(ls[2 * j]),
        decreases 7 - k,
    {
        match read_name_list(payload, off) {
            None => {
                proof {
                    lemma_name_lists_len(payload@, off as int, (7 - k) as nat);
                }
                return None;
            },
            Some((text, next)) => {
                proof {
                    lemma_name_lists_step(payload@, off as int, (7 - k) as nat);
                    if let Some(ls) = all {
                        assert(ls.skip(k as int).drop_first() =~= ls.skip(k + 1));
                        assert(ls.skip(k as int)[0] == ls[k as int]);
                    }
                }
                if k % 2 == 0 {
                    match text {
                        Some(s) => parts.push(s),
                        None => {
                            valid = false;
                            parts.push(String::new());
                        },
                    }
                }
                off = next;
            },
        }
        k = k + 1;
    }
    proof {
        if all is None {
            assert(name_lists(payload@, off as int, 0) == Some(Seq::<Seq<u8>>::empty()));
        }
    }
    let ghost ls = all.unwrap();
    if !valid {
        assert(!(valid_utf8(ls[0]) && valid_utf8(ls[2]) && valid_utf8(ls[4]) && valid_utf8(ls[6])))
            by {
            let j = choose|j: int| 0 <= j < 7 && j % 2 == 0 && !valid_utf8(#[trigger] ls[j]);
            assert(j == 0 || j == 2 || j == 4 || j == 6);
        }
        return None;
    }
    assert(parts@.map_values(|p: String| p@) =~= seq![
        decode_utf8(ls[0]),
        decode_utf8(ls[2]),
        decode_utf8(ls[4]),
        decode_utf8(ls[6]),
    ]);
    let h = join_strings(&parts, ";");
    Some(h)
}

} // verus!
