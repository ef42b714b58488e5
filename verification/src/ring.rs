//! The shared ring transport: a fixed-size byte region treated as circular,
//! holding length-prefixed records.
//!
//! A record is a four-byte little-endian length followed by that many
//! payload bytes; writing or reading past the region's end wraps to its
//! start. The region does not track how much is unread — record boundaries
//! are self-describing, and the caller brings the offset it was handed.
//! A declared record length over the caller's maximum (or too big for the
//! region at all) is [`RingError::RingCorruption`]: that one read is
//! abandoned, nothing else is harmed.

use vstd::arithmetic::div_mod::{
    lemma_fundamental_div_mod, lemma_mod_bound, lemma_mod_equivalence, lemma_mod_multiples_vanish,
    lemma_small_mod,
};
use vstd::bytes::{spec_u32_from_le_bytes, spec_u32_to_le_bytes};
use vstd::prelude::*;

verus! {

/// A record's declared length does not fit the region or the caller's
/// bound; the record cannot be trusted.
#[derive(Clone, Copy, Debug, PartialEq, Eq, Structural)]
pub enum RingError {
    RingCorruption,
}

/// Widest region this transport accepts; keeps every cursor sum inside
/// `usize` with room to spare.
pub const MAX_RING_SIZE: usize = 0x4000_0000;

/// The bytes at `n` circular positions starting at `start`.
pub open spec fn ring_read(region: Seq<u8>, start: int, n: int) -> Seq<u8>
    recommends
        0 < region.len(),
        0 <= start < region.len(),
        0 <= n,
{
    Seq::new(n as nat, |i: int| region[(start + i) % (region.len() as int)])
}

/// The region after `data` is laid down circularly from `start`: each
/// position inside the written window takes its data byte, the rest keep
/// theirs.
pub open spec fn ring_write(region: Seq<u8>, start: int, data: Seq<u8>) -> Seq<u8>
    recommends
        0 < region.len(),
        0 <= start < region.len(),
        data.len() <= region.len(),
{
    Seq::new(
        region.len(),
        |j: int|
            {
                let d = (j - start) % (region.len() as int);
                if d < data.len() {
                    data[d]
                } else {
                    region[j]
                }
            },
    )
}

/// A record as laid down in the region: the payload's length as four
/// little-endian bytes, then the payload.
pub open spec fn record_bytes(payload: Seq<u8>) -> Seq<u8>
    recommends
        payload.len() <= u32::MAX,
{
    spec_u32_to_le_bytes(payload.len() as u32) + payload
}

/// Adding to a value before or after reducing it modulo `m` reads the same
/// circular position.
proof fn lemma_mod_shift(a: int, k: int, m: int)
    requires
        0 < m,
        0 <= a,
        0 <= k,
    ensures
        ((a % m) + k) % m == (a + k) % m,
{
    lemma_fundamental_div_mod(a, m);
    lemma_mod_multiples_vanish(a / m, (a % m) + k, m);
}

/// A circular position lies in the written window at displacement `j`
/// exactly when it is the window's `j`-th position.
proof fn lemma_ring_pos(start: int, j: int, m: int, p: int)
    requires
        0 < m,
        0 <= start < m,
        0 <= j < m,
        0 <= p < m,
    ensures
        (p == (start + j) % m) <==> ((p - start) % m == j),
{
    lemma_small_mod(j as nat, m as nat);
    lemma_small_mod(p as nat, m as nat);
    lemma_mod_equivalence(p, start + j, m);
    lemma_mod_equivalence(p - start, j, m);
}

/// The heart of the wraparound argument: after writing `data` at `start`,
/// reading `n` bytes from the circular position `i` bytes into the window
/// gives exactly `data[i .. i + n]`.
pub proof fn lemma_ring_read_of_write(region: Seq<u8>, start: int, data: Seq<u8>, i: int, n: int)
    requires
        0 < region.len(),
        0 <= start < region.len(),
        data.len() <= region.len(),
        0 <= i,
        0 <= n,
        i + n <= data.len(),
    ensures
        ring_read(ring_write(region, start, data), (start + i) % (region.len() as int), n)
            == data.subrange(i, i + n),
{
    let m = region.len() as int;
    let w = ring_write(region, start, data);
    let base = (start + i) % m;
    lemma_mod_bound(start + i, m);
    assert forall|k: int| 0 <= k < n implies ring_read(w, base, n)[k] == data[i + k] by {
        lemma_mod_shift(start + i, k, m);
        let p = (base + k) % m;
        assert(p == (start + (i + k)) % m);
        lemma_mod_bound(base + k, m);
        lemma_ring_pos(start, i + k, m, p);
        assert((p - start) % m == i + k);
    }
    assert(ring_read(w, base, n) =~= data.subrange(i, i + n));
}

/// Writing then reading a full window at the same cursor gives back
/// exactly the bytes written.
pub proof fn lemma_ring_round_trip(region: Seq<u8>, start: int, data: Seq<u8>)
    requires
        0 < region.len(),
        0 <= start < region.len(),
        data.len() <= region.len(),
    ensures
        ring_read(ring_write(region, start, data), start, data.len() as int) == data,
{
    let m = region.len() as int;
    lemma_small_mod(start as nat, region.len());
    lemma_ring_read_of_write(region, start, data, 0, data.len() as int);
    assert(data.subrange(0, data.len() as int) =~= data);
}

/// After a record is laid down at `start`, its length prefix reads back as
/// the payload's length and the payload reads back whole.
pub proof fn lemma_record_round_trip(region: Seq<u8>, start: int, payload: Seq<u8>)
    requires
        0 < region.len(),
        0 <= start < region.len(),
        payload.len() + 4 <= region.len(),
        payload.len() <= u32::MAX,
    ensures
        spec_u32_from_le_bytes(
            ring_read(ring_write(region, start, record_bytes(payload)), start, 4),
        ) == payload.len(),
        ring_read(
            ring_write(region, start, record_bytes(payload)),
            (start + 4) % (region.len() as int),
            payload.len() as int,
        ) == payload,
{
    vstd::bytes::lemma_auto_spec_u32_to_from_le_bytes();
    let m = region.len() as int;
    let rec = record_bytes(payload);
    lemma_small_mod(start as nat, region.len());
    lemma_ring_read_of_write(region, start, rec, 0, 4);
    assert(rec.subrange(0, 4) =~= spec_u32_to_le_bytes(payload.len() as u32));
    lemma_ring_read_of_write(region, start, rec, 4, payload.len() as int);
    assert(rec.subrange(4, 4 + payload.len() as int) =~= payload);
}

/// One circular half of a radio's mapped region.
#[derive(Debug, PartialEq, Eq)]
pub struct RingRegion {
    buf: Vec<u8>,
}

impl View for RingRegion {
    type V = Seq<u8>;

    closed spec fn view(&self) -> Seq<u8> {
        self.buf@
    }
}

impl RingRegion {
    /// A usable region: nonempty, and small enough that cursor sums stay
    /// inside machine integers.
    pub open spec fn wf(&self) -> bool {
        0 < self@.len() <= MAX_RING_SIZE
    }

    /// A zeroed region of `size` bytes.
    pub fn new(size: usize) -> (r: RingRegion)
        requires
            0 < size <= MAX_RING_SIZE,
        ensures
            r@ == Seq::new(size as nat, |i: int| 0u8),
            r.wf(),
    {
        let mut buf: Vec<u8> = Vec::new();
        let mut i: usize = 0;
        while i < size
            invariant
                i <= size,
                buf@ =~= Seq::new(i as nat, |j: int| 0u8),
            decreases size - i,
        {
            buf.push(0);
            proof {
                assert(buf@ =~= Seq::new((i + 1) as nat, |j: int| 0u8));
            }
            i = i + 1;
        }
        RingRegion { buf }
    }

    /// The region's size in bytes.
    pub fn size(&self) -> (r: usize)
        ensures
            r == self@.len(),
    {
        self.buf.len()
    }

    /// Lays `data` down circularly from `start`; gives back the cursor just
    /// past the written window.
    pub fn write_bytes(&mut self, start: usize, data: &[u8]) -> (next: usize)
        requires
            old(self).wf(),
            start < old(self)@.len(),
            data@.len() <= old(self)@.len(),
        ensures
            final(self)@ == ring_write(old(self)@, start as int, data@),
            final(self).wf(),
            next == (start + data@.len()) % (old(self)@.len() as int),
    {
        let m: usize = self.buf.len();
        let n: usize = data.len();
        let mut j: usize = 0;
        while j < n
            invariant
                j <= n,
                n == data@.len(),
                n <= m,
                0 < m <= MAX_RING_SIZE,
                start < m,
                m == self.buf@.len(),
                m == old(self)@.len(),
                self.buf@ == ring_write(old(self)@, start as int, data@.subrange(0, j as int)),
            decreases n - j,
        {
            let pos: usize = (start + j) % m;
            let ghost prior = self.buf@;
            self.buf[pos] = data[j];
            proof {
                let mi = m as int;
                assert forall|p: int| 0 <= p < mi implies self.buf@[p] == ring_write(
                    old(self)@,
                    start as int,
                    data@.subrange(0, j + 1),
                )[p] by {
                    lemma_mod_bound(start + j, mi);
                    lemma_ring_pos(start as int, j as int, mi, p);
                    lemma_mod_bound(p - start, mi);
                }
                assert(self.buf@ =~= ring_write(old(self)@, start as int, data@.subrange(0, j + 1)));
            }
            j = j + 1;
        }
        proof {
            assert(data@.subrange(0, n as int) =~= data@);
        }
        (start + n) % m
    }

    /// Reads `n` bytes circularly from `start`.
    pub fn read_bytes(&self, start: usize, n: usize) -> (r: Vec<u8>)
        requires
            self.wf(),
            start < self@.len(),
            n <= self@.len(),
        ensures
            r@ == ring_read(self@, start as int, n as int),
    {
        let m: usize = self.buf.len();
        let mut out: Vec<u8> = Vec::new();
        let mut j: usize = 0;
        while j < n
            invariant
                j <= n,
                n <= m,
                0 < m <= MAX_RING_SIZE,
                start < m,
                m == self.buf@.len(),
                out@ =~= ring_read(self@, start as int, j as int),
            decreases n - j,
        {
            let pos: usize = (start + j) % m;
            proof {
                lemma_mod_bound((start + j) as int, m as int);
            }
            out.push(self.buf[pos]);
            proof {
                assert(out@ =~= ring_read(self@, start as int, j + 1));
            }
            j = j + 1;
        }
        out
    }

    /// Writes one record — length prefix, then payload — at `start`; gives
    /// back the cursor just past the record, where the next record would
    /// begin.
    pub fn write_record(&mut self, start: usize, payload: &[u8]) -> (next: usize)
        requires
            old(self).wf(),
            start < old(self)@.len(),
            payload@.len() + 4 <= old(self)@.len(),
        ensures
            final(self)@ == ring_write(old(self)@, start as int, record_bytes(payload@)),
            final(self).wf(),
            next == (start + 4 + payload@.len()) % (old(self)@.len() as int),
    {
        let mut rec: Vec<u8> = Vec::new();
        proof {
            vstd::bytes::lemma_auto_spec_u32_to_from_le_bytes();
            assert(payload@.len() <= MAX_RING_SIZE);
        }
        crate::wire::push_u32_le(&mut rec, payload.len() as u32);
        rec.extend_from_slice(payload);
        proof {
            assert(rec@ =~= record_bytes(payload@));
        }
        self.write_bytes(start, rec.as_slice())
    }

    /// Reads the record at `start`: its length prefix, then that many
    /// payload bytes, wrapping as needed. A declared length over
    /// `max_record`, or too long to sit in the region beside its prefix, is
    /// corruption: the read is refused.
    pub fn read_record(&self, start: usize, max_record: usize) -> (r: Result<
        (Vec<u8>, usize),
        RingError,
    >)
        requires
            self.wf(),
            start < self@.len(),
            4 <= self@.len(),
        ensures
            ({
                let declared = spec_u32_from_le_bytes(ring_read(self@, start as int, 4)) as int;
                match r {
                    Result::Ok((payload, next)) => {
                        &&& declared <= max_record
                        &&& declared + 4 <= self@.len()
                        &&& payload@ == ring_read(
                            self@,
                            (start + 4) % (self@.len() as int),
                            declared,
                        )
                        &&& next == (start + 4 + declared) % (self@.len() as int)
                    },
                    Result::Err(e) => {
                        &&& e == RingError::RingCorruption
                        &&& (declared > max_record || declared + 4 > self@.len())
                    },
                }
            }),
    {
        let m: usize = self.buf.len();
        let prefix = self.read_bytes(start, 4);
        let declared = vstd::bytes::u32_from_le_bytes(prefix.as_slice());
        let declared_usize = declared as usize;
        if declared_usize > max_record || declared_usize > m - 4 {
            return Result::Err(RingError::RingCorruption);
        }
        let data_start: usize = (start + 4) % m;
        proof {
            lemma_mod_bound((start + 4) as int, m as int);
        }
        let payload = self.read_bytes(data_start, declared_usize);
        let next: usize = (data_start + declared_usize) % m;
        proof {
            lemma_mod_shift((start + 4) as int, declared_usize as int, m as int);
        }
        Result::Ok((payload, next))
    }
}

} // verus!
