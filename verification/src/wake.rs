//! The wake signal: a magic packet broadcast over UDP.

use vstd::prelude::*;

verus! {

/// How many times the packet is sent, since a broadcast may be lost.
pub const WOL_COUNT: u8 = 3;

/// The pause between two successive packets, in milliseconds.
pub const WOL_DELAY: u64 = 100;

/// `mac` written `n` times in a row.
pub open spec fn repeated(mac: Seq<u8>, n: nat) -> Seq<u8>
    decreases n,
{
    if n == 0 {
        Seq::empty()
    } else {
        repeated(mac, (n - 1) as nat) + mac
    }
}

/// The magic packet for `mac`: six bytes `0xff`, then the address sixteen
/// times.
pub open spec fn magic_packet(mac: Seq<u8>) -> Seq<u8> {
    Seq::new(6, |i: int| 0xffu8) + repeated(mac, 16)
}

/// Where each byte of a repetition comes from.
pub proof fn lemma_repeated_index(mac: Seq<u8>, n: nat)
    requires
        mac.len() == 6,
    ensures
        repeated(mac, n).len() == 6 * n,
        forall|j: int| 0 <= j < 6 * n ==> #[trigger] repeated(mac, n)[j] == mac[j % 6],
    decreases n,
{
    if n > 0 {
        lemma_repeated_index(mac, (n - 1) as nat);
        let shorter = repeated(mac, (n - 1) as nat);
        assert forall|j: int| 0 <= j < 6 * n implies #[trigger] repeated(mac, n)[j] == mac[j
            % 6] by {
            if j >= 6 * (n - 1) {
                assert(repeated(mac, n)[j] == mac[j - shorter.len()]);
            } else {
                assert(repeated(mac, n)[j] == shorter[j]);
            }
        }
    }
}

/// The packet byte by byte: it is 102 bytes long, the first six are `0xff`,
/// and byte `i` from the sixth on is byte `i mod 6` of the address.
pub proof fn lemma_packet_bytes(mac: Seq<u8>)
    requires
        mac.len() == 6,
    ensures
        magic_packet(mac).len() == 102,
        forall|i: int| 0 <= i < 6 ==> #[trigger] magic_packet(mac)[i] == 0xff,
        forall|i: int| 6 <= i < 102 ==> #[trigger] magic_packet(mac)[i] == mac[i % 6],
{
    lemma_repeated_index(mac, 16);
    assert forall|i: int| 6 <= i < 102 implies #[trigger] magic_packet(mac)[i] == mac[i % 6] by {
        assert(magic_packet(mac)[i] == repeated(mac, 16)[i - 6]);
    }
}

/// Builds the magic packet for a hardware address.
pub fn build_packet(mac: &[u8; 6]) -> (packet: [u8; 102])
    ensures
        packet@ == magic_packet(mac@),
{
    let mut packet: [u8; 102] = [0xff;102];
    let mut i: usize = 6;
    while i < 102
        invariant
            6 <= i <= 102,
            forall|j: int| 0 <= j < 6 ==> #[trigger] packet@[j] == 0xff,
            forall|j: int| 6 <= j < i ==> #[trigger] packet@[j] == mac@[j % 6],
        decreases 102 - i,
    {
        packet[i] = mac[i % 6];
        i += 1;
    }
    proof {
        lemma_packet_bytes(mac@);
    }
    packet
}

} // verus!
