//! TCP MSS clamping for SYN segments that cross the repeater.
//!
//! The repeater lowers the MTU of both interfaces to `HTTP_FRIENDLY_MTU` and
//! rewrites the MSS option of every outgoing TCP SYN so that no peer proposes
//! segments larger than `MSS_CLAMP`, adjusting the TCP checksum incrementally.

use vstd::prelude::*;

verus! {

/// MTU set on both network interfaces.
pub const HTTP_FRIENDLY_MTU: u16 = 1360;

/// Largest MSS a SYN may announce: the MTU minus 40 bytes of IPv4 and TCP headers.
pub const MSS_CLAMP: u16 = 1320;

/// The big-endian 16-bit word at `off`.
pub open spec fn be16(p: Seq<u8>, off: int) -> int {
    p[off] as int * 256 + p[off + 1] as int
}

/// When `p` starts an IPv4 datagram carrying a TCP segment with the SYN flag
/// set, whose headers fit in `p`: the offset of the TCP header and its length.
pub open spec fn syn_tcp_header(p: Seq<u8>) -> Option<(int, int)> {
    if p.len() < 40 {
        None
    } else {
        let ihl = (p[0] % 16) as int * 4;
        if ihl < 20 || p.len() < ihl + 20 || p[9] != 6 {
            None
        } else if (p[ihl + 13] / 2) % 2 == 0 {
            None
        } else {
            let doff = (p[ihl + 12] / 16) as int * 4;
            if doff < 20 || p.len() < ihl + doff {
                None
            } else {
                Some((ihl, doff))
            }
        }
    }
}

/// Walks the TCP options of the header at `tcp` (of length `doff`) from the
/// option at relative offset `i`: the absolute offset of the first well-formed
/// MSS option (kind 2, length 4), if the walk meets one before the end of the
/// option list, a zero kind or a malformed length.
pub open spec fn find_mss_option(p: Seq<u8>, tcp: int, doff: int, i: int) -> Option<int>
    decreases doff - i,
{
    if i + 1 >= doff {
        None
    } else {
        let k = p[tcp + i];
        if k == 0 {
            None
        } else if k == 1 {
            find_mss_option(p, tcp, doff, i + 1)
        } else {
            let l = p[tcp + i + 1] as int;
            if l < 2 || i + l > doff {
                None
            } else if k == 2 && l == 4 {
                Some(tcp + i)
            } else {
                find_mss_option(p, tcp, doff, i + l)
            }
        }
    }
}

/// The TCP header offset and the MSS option offset of a SYN segment in `p`.
pub open spec fn mss_option(p: Seq<u8>) -> Option<(int, int)> {
    match syn_tcp_header(p) {
        Some((tcp, doff)) => match find_mss_option(p, tcp, doff, 20) {
            Some(opt) => Some((tcp, opt)),
            None => None,
        },
        None => None,
    }
}

/// One end-around-carry fold of a sum of 16-bit words.
pub open spec fn fold16(s: int) -> int {
    s % 0x10000 + s / 0x10000
}

/// The TCP checksum after the 16-bit word `old_mss` of a segment with
/// checksum `hc` is replaced by `MSS_CLAMP` (incremental update, RFC 1624).
pub open spec fn adjusted_checksum(hc: int, old_mss: int) -> int {
    0xffff - fold16(fold16((0xffff - hc) + (0xffff - old_mss) + MSS_CLAMP))
}

/// `p` after clamping: when `p` is a SYN whose MSS option announces more than
/// `MSS_CLAMP`, the option value becomes `MSS_CLAMP` and the checksum is
/// adjusted; every other packet is left as it is.
pub open spec fn clamp_spec(p: Seq<u8>) -> Seq<u8> {
    match mss_option(p) {
        Some((tcp, opt)) => {
            let old_mss = be16(p, opt + 2);
            if old_mss > MSS_CLAMP {
                let c = adjusted_checksum(be16(p, tcp + 16), old_mss);
                p.update(opt + 2, (MSS_CLAMP / 256) as u8).update(
                    opt + 3,
                    (MSS_CLAMP % 256) as u8,
                ).update(tcp + 16, (c / 256) as u8).update(tcp + 17, (c % 256) as u8)
            } else {
                p
            }
        },
        None => p,
    }
}

proof fn lemma_find_mss_bounds(p: Seq<u8>, tcp: int, doff: int, i: int)
    requires
        0 <= i,
    ensures
        find_mss_option(p, tcp, doff, i) matches Some(opt) ==> tcp + i <= opt && opt + 4 <= tcp
            + doff,
    decreases doff - i,
{
    if i + 1 < doff {
        let k = p[tcp + i];
        if k == 1 {
            lemma_find_mss_bounds(p, tcp, doff, i + 1);
        } else if k != 0 {
            let l = p[tcp + i + 1] as int;
            if l >= 2 && i + l <= doff && !(k == 2 && l == 4) {
                lemma_find_mss_bounds(p, tcp, doff, i + l);
            }
        }
    }
}

proof fn lemma_find_mss_stable(p: Seq<u8>, q: Seq<u8>, tcp: int, doff: int, i: int, opt: int)
    requires
        0 <= i,
        find_mss_option(p, tcp, doff, i) == Some(opt),
        forall|j: int| tcp + i <= j < opt + 2 ==> q[j] == p[j],
    ensures
        find_mss_option(q, tcp, doff, i) == Some(opt),
    decreases doff - i,
{
    lemma_find_mss_bounds(p, tcp, doff, i);
    let k = p[tcp + i];
    if k == 1 {
        lemma_find_mss_bounds(p, tcp, doff, i + 1);
        lemma_find_mss_stable(p, q, tcp, doff, i + 1, opt);
    } else {
        let l = p[tcp + i + 1] as int;
        if !(k == 2 && l == 4) {
            lemma_find_mss_bounds(p, tcp, doff, i + l);
            lemma_find_mss_stable(p, q, tcp, doff, i + l, opt);
        }
    }
}

/// Clamping changes at most the two bytes of the MSS value and the two bytes
/// of the TCP checksum, keeps the packet's length and the position of its MSS
/// option, and leaves an MSS of at most `MSS_CLAMP`: the new MSS is the
/// smaller of the old one and `MSS_CLAMP`.
pub proof fn clamp_only_touches_mss_and_checksum(p: Seq<u8>)
    ensures
        clamp_spec(p).len() == p.len(),
        mss_option(clamp_spec(p)) == mss_option(p),
        mss_option(p) matches Some((tcp, opt)) ==> {
            &&& be16(clamp_spec(p), opt + 2) == if be16(p, opt + 2) > MSS_CLAMP {
                MSS_CLAMP as int
            } else {
                be16(p, opt + 2)
            }
            &&& forall|j: int|
                0 <= j < p.len() && j != opt + 2 && j != opt + 3 && j != tcp + 16 && j != tcp
                    + 17 ==> clamp_spec(p)[j] == p[j]
        },
        mss_option(p) is None ==> clamp_spec(p) == p,
{
    if let Some((tcp, opt)) = mss_option(p) {
        let (_, doff) = syn_tcp_header(p)->0;
        lemma_find_mss_bounds(p, tcp, doff, 20);
        let q = clamp_spec(p);
        if be16(p, opt + 2) > MSS_CLAMP {
            assert(syn_tcp_header(q) == syn_tcp_header(p));
            lemma_find_mss_stable(p, q, tcp, doff, 20, opt);
        }
    }
}

/// Clamping is idempotent: a packet that was clamped once is left unchanged
/// by a second clamp.
pub proof fn clamp_is_idempotent(p: Seq<u8>)
    ensures
        clamp_spec(clamp_spec(p)) == clamp_spec(p),
{
    clamp_only_touches_mss_and_checksum(p);
}

/// The checksum adjustment is exact in one's-complement arithmetic: the
/// complemented new checksum equals the complemented old one with the old MSS
/// word taken out and `MSS_CLAMP` put in, modulo 0xffff (RFC 1624, eqn. 3).
/// The adjustment treats the MSS value as one of the 16-bit words the
/// checksum sums, which it is when the value starts at an even offset of the
/// TCP segment.
pub proof fn adjusted_checksum_is_exact(hc: int, old_mss: int)
    requires
        0 <= hc <= 0xffff,
        0 <= old_mss <= 0xffff,
    ensures
        0 <= adjusted_checksum(hc, old_mss) <= 0xffff,
        (0xffff - adjusted_checksum(hc, old_mss)) % 0xffff == ((0xffff - hc) - old_mss
            + MSS_CLAMP) % 0xffff,
{
    let s = (0xffff - hc) + (0xffff - old_mss) + MSS_CLAMP;
    lemma_fold16_mod(s);
    lemma_fold16_mod(fold16(s));
    assert(((0xffff - hc) - old_mss + MSS_CLAMP) % 0xffff == s % 0xffff) by {
        vstd::arithmetic::div_mod::lemma_mod_add_multiples_vanish((0xffff - hc) - old_mss
            + MSS_CLAMP, 0xffff);
    }
}

proof fn lemma_fold16_mod(s: int)
    requires
        0 <= s < 0x30000,
    ensures
        fold16(s) % 0xffff == s % 0xffff,
        0 <= fold16(s) <= 0xffff + 2,
        s <= 0x10001 ==> fold16(s) <= 0xffff,
{
    let q = s / 0x10000;
    let r = s % 0x10000;
    vstd::arithmetic::div_mod::lemma_fundamental_div_mod(s, 0x10000);
    vstd::arithmetic::div_mod::lemma_mod_bound(s, 0x10000);
    assert(0 <= q <= 2) by (nonlinear_arith)
        requires s == 0x10000 * q + r, 0 <= r < 0x10000, 0 <= s < 0x30000;
    assert((r + q) % 0xffff == s % 0xffff) by {
        assert(s == (r + q) + q * 0xffff);
        vstd::arithmetic::div_mod::lemma_mod_multiples_vanish(q, r + q, 0xffff);
    }
}

/// Every SYN is clamped, whatever its other flags (a SYN-ACK included): for
/// an IPv4 datagram with a well-formed header of `ihl` bytes carrying TCP
/// (protocol 6), whose TCP header of `doff` bytes fits and has the SYN bit
/// (0x02) set, the first well-formed MSS option of the option list, when it
/// announces more than `MSS_CLAMP`, announces exactly `MSS_CLAMP` afterwards
/// (bytes 0x05 0x28), and the packet keeps its length.
pub proof fn syn_with_large_mss_is_clamped(p: Seq<u8>, ihl: int, doff: int, opt: int)
    requires
        p.len() >= 40,
        ihl == (p[0] & 0x0fu8) as int * 4,
        20 <= ihl,
        ihl + 20 <= p.len(),
        p[9] == 6,
        p[ihl + 13] & 0x02u8 == 0x02u8,
        doff == (p[ihl + 12] >> 4u8) as int * 4,
        20 <= doff,
        ihl + doff <= p.len(),
        find_mss_option(p, ihl, doff, 20) == Some(opt),
        p[opt + 2] as int * 256 + p[opt + 3] as int > 1320,
    ensures
        clamp_spec(p).len() == p.len(),
        clamp_spec(p)[opt + 2] == 0x05u8,
        clamp_spec(p)[opt + 3] == 0x28u8,
{
    let b0 = p[0];
    let f = p[ihl + 13];
    let b12 = p[ihl + 12];
    assert(b0 & 0x0f == b0 % 16) by (bit_vector);
    assert((f & 0x02 == 0x02) ==> (f / 2) % 2 == 1) by (bit_vector);
    assert(b12 >> 4 == b12 / 16) by (bit_vector);
    assert(syn_tcp_header(p) == Some((ihl, doff)));
    lemma_find_mss_bounds(p, ihl, doff, 20);
}

/// The common layout: a SYN (any other flags) whose first TCP option is an
/// MSS option announcing more than `MSS_CLAMP` gets that option rewritten to
/// `MSS_CLAMP`, and every byte other than the MSS value and the checksum is
/// kept.
pub proof fn leading_mss_option_is_clamped(p: Seq<u8>, ihl: int, doff: int)
    requires
        p.len() >= 40,
        ihl == (p[0] & 0x0fu8) as int * 4,
        20 <= ihl,
        p[9] == 6,
        ihl + 24 <= p.len(),
        p[ihl + 13] & 0x02u8 == 0x02u8,
        doff == (p[ihl + 12] >> 4u8) as int * 4,
        24 <= doff,
        ihl + doff <= p.len(),
        p[ihl + 20] == 2,
        p[ihl + 21] == 4,
        p[ihl + 22] as int * 256 + p[ihl + 23] as int > 1320,
    ensures
        clamp_spec(p).len() == p.len(),
        clamp_spec(p)[ihl + 22] == 0x05u8,
        clamp_spec(p)[ihl + 23] == 0x28u8,
        forall|j: int|
            0 <= j < p.len() && j != ihl + 22 && j != ihl + 23 && j != ihl + 16 && j != ihl + 17
                ==> clamp_spec(p)[j] == p[j],
{
    assert(find_mss_option(p, ihl, doff, 20) == Some(ihl + 20));
    syn_with_large_mss_is_clamped(p, ihl, doff, ihl + 20);
    clamp_only_touches_mss_and_checksum(p);
    let b0 = p[0];
    let f = p[ihl + 13];
    let b12 = p[ihl + 12];
    assert(b0 & 0x0f == b0 % 16) by (bit_vector);
    assert((f & 0x02 == 0x02) ==> (f / 2) % 2 == 1) by (bit_vector);
    assert(b12 >> 4 == b12 / 16) by (bit_vector);
    assert(mss_option(p) == Some((ihl, ihl + 20)));
}

/// Clamps the MSS option of an outgoing TCP SYN held in `packet` (an IPv4
/// datagram, first buffer segment) to `MSS_CLAMP`, fixing the TCP checksum.
pub fn clamp_syn_mss(packet: &mut [u8])
    ensures
        final(packet)@ == clamp_spec(old(packet)@),
{
    let len = packet.len();
    if len < 40 {
        return ;
    }
    let b0 = packet[0];
    assert(b0 & 0x0f == b0 % 16) by (bit_vector);
    let ihl = ((b0 & 0x0f) as usize) * 4;
    if ihl < 20 || len < ihl + 20 || packet[9] != 6 {
        return ;
    }
    let tcp = ihl;
    let flags = packet[tcp + 13];
    assert((flags & 0x02 == 0) == ((flags / 2) % 2 == 0)) by (bit_vector);
    if flags & 0x02 == 0 {
        return ;
    }
    let b12 = packet[tcp + 12];
    assert(b12 >> 4 <= 15) by (bit_vector);
    assert(b12 >> 4 == b12 / 16) by (bit_vector);
    let doff = ((b12 >> 4) as usize) * 4;
    if doff < 20 || len < ihl + doff {
        return ;
    }
    let ghost p0 = packet@;
    assert(syn_tcp_header(p0) == Some((tcp as int, doff as int)));
    let mut i: usize = 20;
    while i + 1 < doff
        invariant
            packet@ == p0,
            old(packet)@ == p0,
            len == p0.len(),
            syn_tcp_header(p0) == Some((tcp as int, doff as int)),
            20 <= i <= doff,
            doff <= 60,
            tcp + doff <= len,
            find_mss_option(p0, tcp as int, doff as int, i as int) == find_mss_option(
                p0,
                tcp as int,
                doff as int,
                20,
            ),
        decreases doff - i,
    {
        let k = packet[tcp + i];
        if k == 0 {
            assert(find_mss_option(p0, tcp as int, doff as int, i as int) is None);
            return ;
        }
        if k == 1 {
            i = i + 1;
            continue ;
        }
        let l = packet[tcp + i + 1] as usize;
        if l < 2 || i + l > doff {
            assert(find_mss_option(p0, tcp as int, doff as int, i as int) is None);
            return ;
        }
        if k == 2 && l == 4 {
            let mp = tcp + i + 2;
            let old_mss: u16 = (packet[mp] as u16) * 256 + (packet[mp + 1] as u16);
            if old_mss > MSS_CLAMP {
                // MSS_CLAMP (0x0528) in network byte order.
                packet[mp] = 0x05;
                packet[mp + 1] = 0x28;
                let cp = tcp + 16;
                let hc: u16 = (packet[cp] as u16) * 256 + (packet[cp + 1] as u16);
                assert(!hc == 0xffff - hc) by (bit_vector);
                assert(!old_mss == 0xffff - old_mss) by (bit_vector);
                let s0: u32 = ((!hc) as u32) + ((!old_mss) as u32) + (MSS_CLAMP as u32);
                assert(s0 & 0xffff == s0 % 0x10000 && s0 >> 16 == s0 / 0x10000) by (bit_vector);
                let s1: u32 = (s0 & 0xffff) + (s0 >> 16);
                assert(s1 & 0xffff == s1 % 0x10000 && s1 >> 16 == s1 / 0x10000) by (bit_vector);
                let s2: u32 = (s1 & 0xffff) + (s1 >> 16);
                assert(s2 <= 0xffff);
                let c16 = s2 as u16;
                assert(!c16 == 0xffff - c16) by (bit_vector);
                let c: u16 = !c16;
                assert((c >> 8) as u8 == c / 256 && (c & 0xff) as u8 == c % 256) by (bit_vector);
                packet[cp] = (c >> 8) as u8;
                packet[cp + 1] = (c & 0xff) as u8;
                assert(packet@ =~= clamp_spec(p0));
            }
            return ;
        }
        i = i + l;
    }
}

} // verus!
