//! The fixed-layout values that ride inside control-protocol attributes: the
//! 32-byte frame header, the frame itself (header plus opaque payload), the
//! per-attempt transmission descriptors and the reception summary.
//!
//! Every type states its wire form as a spec-level byte sequence; `emit`
//! appends exactly those bytes, and the `from_bytes` constructors invert them.

use crate::wire::{byte_to_i8_exec, i8_to_byte, i8_to_byte_exec, push_u16_le, push_u32_le};
use vstd::prelude::*;

verus! {

broadcast use vstd::array::group_array_axioms, crate::wire::lemma_i8_byte_round_trip, crate::wire::lemma_byte_i8_round_trip;

/// Longest frame payload an attribute can carry: the attribute's declared
/// length (four bytes of attribute header, 32 bytes of frame header, then the
/// payload) must fit in its 16-bit length field.
pub const MAX_FRAME_PAYLOAD: usize = 65499;

/// Fixed 32-byte 802.11 MAC header. The fields are raw byte arrays; nothing
/// here interprets them beyond routing on a destination address.
#[derive(Clone, Copy, Debug, PartialEq, Eq)]
pub struct IEEE80211Header {
    pub frame_control: [u8; 2],
    pub duration_id: [u8; 2],
    pub addr1: [u8; 6],
    pub addr2: [u8; 6],
    pub addr3: [u8; 6],
    pub seq_ctrl: [u8; 2],
    pub addr4: [u8; 6],
    pub qos: [u8; 2],
}

/// The 32 bytes of a header in wire order.
pub open spec fn header_bytes(h: IEEE80211Header) -> Seq<u8> {
    h.frame_control@ + h.duration_id@ + h.addr1@ + h.addr2@ + h.addr3@ + h.seq_ctrl@ + h.addr4@
        + h.qos@
}

pub broadcast proof fn lemma_header_bytes_len(h: IEEE80211Header)
    ensures
        (#[trigger] header_bytes(h)).len() == 32,
{
}

fn read2(b: &[u8], off: usize) -> (r: [u8; 2])
    requires
        off + 2 <= b@.len(),
    ensures
        r@ == b@.subrange(off as int, off + 2),
{
    let n: usize = b.len();
    let r = [b[off], b[off + 1]];
    proof {
        assert(r@ =~= b@.subrange(off as int, off + 2));
    }
    r
}

fn read6(b: &[u8], off: usize) -> (r: [u8; 6])
    requires
        off + 6 <= b@.len(),
    ensures
        r@ == b@.subrange(off as int, off + 6),
{
    let n: usize = b.len();
    let r = [b[off], b[off + 1], b[off + 2], b[off + 3], b[off + 4], b[off + 5]];
    proof {
        assert(r@ =~= b@.subrange(off as int, off + 6));
    }
    r
}

/// Reads a hardware address from the first six bytes of `b`.
pub fn read_mac(b: &[u8]) -> (r: [u8; 6])
    requires
        6 <= b@.len(),
    ensures
        r@ == b@.subrange(0, 6),
{
    read6(b, 0)
}

/// True when the two hardware addresses hold the same six bytes.
pub fn mac_eq(a: &[u8; 6], b: &[u8; 6]) -> (r: bool)
    ensures
        r == (a@ == b@),
{
    let r = a[0] == b[0] && a[1] == b[1] && a[2] == b[2] && a[3] == b[3] && a[4] == b[4] && a[5]
        == b[5];
    proof {
        if r {
            assert(a@ =~= b@);
        }
    }
    r
}

impl IEEE80211Header {
    /// A header of all-zero fields.
    pub fn zeroed() -> (r: Self)
        ensures
            header_bytes(r) == Seq::new(32, |i: int| 0u8),
    {
        let r = IEEE80211Header {
            frame_control: [0, 0],
            duration_id: [0, 0],
            addr1: [0, 0, 0, 0, 0, 0],
            addr2: [0, 0, 0, 0, 0, 0],
            addr3: [0, 0, 0, 0, 0, 0],
            seq_ctrl: [0, 0],
            addr4: [0, 0, 0, 0, 0, 0],
            qos: [0, 0],
        };
        proof {
            assert(header_bytes(r) =~= Seq::new(32, |i: int| 0u8));
        }
        r
    }

    pub fn buffer_len(&self) -> (r: usize)
        ensures
            r == header_bytes(*self).len(),
    {
        32
    }

    /// Appends the 32 wire bytes of this header to `out`.
    pub fn emit(&self, out: &mut Vec<u8>)
        ensures
            final(out)@ == old(out)@ + header_bytes(*self),
    {
        out.extend_from_slice(self.frame_control.as_slice());
        out.extend_from_slice(self.duration_id.as_slice());
        out.extend_from_slice(self.addr1.as_slice());
        out.extend_from_slice(self.addr2.as_slice());
        out.extend_from_slice(self.addr3.as_slice());
        out.extend_from_slice(self.seq_ctrl.as_slice());
        out.extend_from_slice(self.addr4.as_slice());
        out.extend_from_slice(self.qos.as_slice());
    }

    /// Rebuilds a header from its 32 wire bytes at `off` in `b`.
    pub fn from_bytes(b: &[u8], off: usize) -> (r: Self)
        requires
            off + 32 <= b@.len(),
        ensures
            header_bytes(r) == b@.subrange(off as int, off + 32),
    {
        let n: usize = b.len();
        let r = IEEE80211Header {
            frame_control: read2(b, off),
            duration_id: read2(b, off + 2),
            addr1: read6(b, off + 4),
            addr2: read6(b, off + 10),
            addr3: read6(b, off + 16),
            seq_ctrl: read2(b, off + 22),
            addr4: read6(b, off + 24),
            qos: read2(b, off + 30),
        };
        proof {
            assert(header_bytes(r) =~= b@.subrange(off as int, off + 32));
        }
        r
    }
}

/// A frame as moved over the medium: fixed header, opaque payload bytes.
#[derive(Debug, PartialEq, Eq)]
pub struct Frame {
    pub header: IEEE80211Header,
    pub payload: Vec<u8>,
}

impl Clone for Frame {
    /// An exact copy: same header, same payload bytes.
    fn clone(&self) -> (r: Self)
        ensures
            r.header == self.header,
            r.payload@ == self.payload@,
            frame_bytes(r) == frame_bytes(*self),
    {
        let mut payload: Vec<u8> = Vec::new();
        payload.extend_from_slice(self.payload.as_slice());
        proof {
            assert(payload@ =~= self.payload@);
        }
        Frame { header: self.header, payload }
    }
}

/// A frame's wire form: the 32 header bytes followed by the payload.
pub open spec fn frame_bytes(f: Frame) -> Seq<u8> {
    header_bytes(f.header) + f.payload@
}

/// A frame small enough to travel as a single attribute value.
pub open spec fn frame_wf(f: Frame) -> bool {
    f.payload@.len() <= MAX_FRAME_PAYLOAD
}

impl Frame {
    /// An empty frame: zeroed header, no payload.
    pub fn empty() -> (r: Self)
        ensures
            header_bytes(r.header) == Seq::new(32, |i: int| 0u8),
            r.payload@ == Seq::<u8>::empty(),
            frame_wf(r),
    {
        Frame { header: IEEE80211Header::zeroed(), payload: Vec::new() }
    }

    pub fn buffer_len(&self) -> (r: usize)
        requires
            frame_wf(*self),
        ensures
            r == frame_bytes(*self).len(),
    {
        32 + self.payload.len()
    }

    /// Appends the frame's wire bytes to `out`.
    pub fn emit(&self, out: &mut Vec<u8>)
        ensures
            final(out)@ == old(out)@ + frame_bytes(*self),
    {
        self.header.emit(out);
        out.extend_from_slice(self.payload.as_slice());
        proof {
            assert(final(out)@ =~= old(out)@ + frame_bytes(*self));
        }
    }

    /// Rebuilds a frame from a whole wire byte run: header first, everything
    /// after it the payload.
    pub fn from_bytes(b: &[u8]) -> (r: Self)
        requires
            32 <= b@.len(),
        ensures
            frame_bytes(r) == b@,
            r.payload@.len() == b@.len() - 32,
    {
        let n: usize = b.len();
        let header = IEEE80211Header::from_bytes(b, 0);
        let mut payload: Vec<u8> = Vec::new();
        payload.extend_from_slice(&b[32..n]);
        let r = Frame { header, payload };
        proof {
            assert(frame_bytes(r) =~= b@);
        }
        r
    }
}

/// One transmission rate attempt: rate index (negative means unused) and how
/// often that rate was tried.
#[derive(Clone, Copy, Debug, PartialEq, Eq, Structural)]
pub struct TXInfo {
    pub idx: i8,
    pub count: u8,
}

/// A rate attempt's two wire bytes.
pub open spec fn tx_info_bytes(t: TXInfo) -> Seq<u8> {
    seq![i8_to_byte(t.idx), t.count]
}

/// The wire bytes of all four rate attempts, in order.
pub open spec fn tx_infos_bytes(s: Seq<TXInfo>) -> Seq<u8>
    recommends
        s.len() == 4,
{
    tx_info_bytes(s[0]) + tx_info_bytes(s[1]) + tx_info_bytes(s[2]) + tx_info_bytes(s[3])
}

impl TXInfo {
    /// An unused rate attempt.
    pub fn unused() -> (r: Self)
        ensures
            r == (TXInfo { idx: 0i8, count: 0u8 }),
    {
        TXInfo { idx: 0, count: 0 }
    }

    pub fn buffer_len(&self) -> (r: usize)
        ensures
            r == tx_info_bytes(*self).len(),
    {
        2
    }

    /// Appends the attempt's two wire bytes to `out`.
    pub fn emit(&self, out: &mut Vec<u8>)
        ensures
            final(out)@ == old(out)@ + tx_info_bytes(*self),
    {
        out.push(i8_to_byte_exec(self.idx));
        out.push(self.count);
        proof {
            assert(final(out)@ =~= old(out)@ + tx_info_bytes(*self));
        }
    }
}

/// Emits all four rate attempts back to back.
pub fn emit_tx_infos(infos: &[TXInfo; 4], out: &mut Vec<u8>)
    ensures
        final(out)@ == old(out)@ + tx_infos_bytes(infos@),
{
    infos[0].emit(out);
    infos[1].emit(out);
    infos[2].emit(out);
    infos[3].emit(out);
    proof {
        assert(final(out)@ =~= old(out)@ + tx_infos_bytes(infos@));
    }
}

/// Reads four rate attempts from their eight wire bytes at `off`.
pub fn read_tx_infos(b: &[u8], off: usize) -> (r: [TXInfo; 4])
    requires
        off + 8 <= b@.len(),
    ensures
        tx_infos_bytes(r@) == b@.subrange(off as int, off + 8),
{
    let n: usize = b.len();
    let r = [
        TXInfo { idx: byte_to_i8_exec(b[off]), count: b[off + 1] },
        TXInfo { idx: byte_to_i8_exec(b[off + 2]), count: b[off + 3] },
        TXInfo { idx: byte_to_i8_exec(b[off + 4]), count: b[off + 5] },
        TXInfo { idx: byte_to_i8_exec(b[off + 6]), count: b[off + 7] },
    ];
    proof {
        assert(tx_infos_bytes(r@) =~= b@.subrange(off as int, off + 8));
    }
    r
}

/// One rate attempt paired with its status flag bits.
#[derive(Clone, Copy, Debug, PartialEq, Eq, Structural)]
pub struct TXInfoFlag {
    pub idx: i8,
    pub flags: u16,
}

/// A flagged attempt's three wire bytes: index byte, then the flags
/// little-endian.
pub open spec fn tx_info_flag_bytes(t: TXInfoFlag) -> Seq<u8> {
    seq![i8_to_byte(t.idx)] + vstd::bytes::spec_u16_to_le_bytes(t.flags)
}

/// The wire bytes of all four flagged attempts, in order.
pub open spec fn tx_info_flags_bytes(s: Seq<TXInfoFlag>) -> Seq<u8>
    recommends
        s.len() == 4,
{
    tx_info_flag_bytes(s[0]) + tx_info_flag_bytes(s[1]) + tx_info_flag_bytes(s[2])
        + tx_info_flag_bytes(s[3])
}

impl TXInfoFlag {
    /// An unused flagged attempt.
    pub fn unused() -> (r: Self)
        ensures
            r == (TXInfoFlag { idx: 0i8, flags: 0u16 }),
    {
        TXInfoFlag { idx: 0, flags: 0 }
    }

    pub fn buffer_len(&self) -> (r: usize)
        ensures
            r == tx_info_flag_bytes(*self).len(),
    {
        proof {
            vstd::bytes::lemma_auto_spec_u16_to_from_le_bytes();
        }
        3
    }

    /// Appends the flagged attempt's three wire bytes to `out`.
    pub fn emit(&self, out: &mut Vec<u8>)
        ensures
            final(out)@ == old(out)@ + tx_info_flag_bytes(*self),
    {
        out.push(i8_to_byte_exec(self.idx));
        push_u16_le(out, self.flags);
        proof {
            assert(final(out)@ =~= old(out)@ + tx_info_flag_bytes(*self));
        }
    }
}

/// Emits all four flagged attempts back to back.
pub fn emit_tx_info_flags(flags: &[TXInfoFlag; 4], out: &mut Vec<u8>)
    ensures
        final(out)@ == old(out)@ + tx_info_flags_bytes(flags@),
{
    flags[0].emit(out);
    flags[1].emit(out);
    flags[2].emit(out);
    flags[3].emit(out);
    proof {
        assert(final(out)@ =~= old(out)@ + tx_info_flags_bytes(flags@));
    }
}

/// Reads four flagged attempts from their twelve wire bytes at `off`.
pub fn read_tx_info_flags(b: &[u8], off: usize) -> (r: [TXInfoFlag; 4])
    requires
        off + 12 <= b@.len(),
    ensures
        tx_info_flags_bytes(r@) == b@.subrange(off as int, off + 12),
{
    let f0 = TXInfoFlag { idx: byte_to_i8_exec(b[off]), flags: crate::wire::read_u16_le(b, off + 1) };
    let f1 = TXInfoFlag {
        idx: byte_to_i8_exec(b[off + 3]),
        flags: crate::wire::read_u16_le(b, off + 4),
    };
    let f2 = TXInfoFlag {
        idx: byte_to_i8_exec(b[off + 6]),
        flags: crate::wire::read_u16_le(b, off + 7),
    };
    let f3 = TXInfoFlag {
        idx: byte_to_i8_exec(b[off + 9]),
        flags: crate::wire::read_u16_le(b, off + 10),
    };
    let r = [f0, f1, f2, f3];
    proof {
        vstd::bytes::lemma_auto_spec_u16_to_from_le_bytes();
        assert(tx_info_flags_bytes(r@) =~= b@.subrange(off as int, off + 12));
    }
    r
}

/// What one receiving radio reports for a delivered frame.
#[derive(Clone, Copy, Debug, PartialEq, Eq)]
pub struct ReceiverInfo {
    pub addr: [u8; 6],
    pub signal: u32,
}

/// A reception report's ten wire bytes: address, then signal little-endian.
pub open spec fn receiver_info_bytes(r: ReceiverInfo) -> Seq<u8> {
    r.addr@ + vstd::bytes::spec_u32_to_le_bytes(r.signal)
}

impl ReceiverInfo {
    pub fn buffer_len(&self) -> (r: usize)
        ensures
            r == receiver_info_bytes(*self).len(),
    {
        proof {
            vstd::bytes::lemma_auto_spec_u32_to_from_le_bytes();
        }
        10
    }

    /// Appends the report's ten wire bytes to `out`.
    pub fn emit(&self, out: &mut Vec<u8>)
        ensures
            final(out)@ == old(out)@ + receiver_info_bytes(*self),
    {
        out.extend_from_slice(self.addr.as_slice());
        push_u32_le(out, self.signal);
        proof {
            assert(final(out)@ =~= old(out)@ + receiver_info_bytes(*self));
        }
    }
}

} // verus!
