//! The durable buffer's on-disk record layer.
//!
//! A segment is a byte string of appended records, each
//! `[u32 length][payload bytes][u32 checksum]` with little-endian integers.
//! Every push appends its whole record before returning, so the segment
//! always holds a crash-consistent prefix of the pushed records. Replay
//! walks the records from the front and truncates at the first incomplete
//! or corrupt record: whatever a crash leaves on disk replays to a prefix
//! of what was pushed, in order, with no duplication — at-least-once rather
//! than exactly-once semantics.

use vstd::prelude::*;

verus! {

/// The four little-endian bytes of a 32-bit integer.
pub open spec fn enc_u32(n: u32) -> Seq<u8> {
    seq![
        (n & 0xff) as u8,
        ((n >> 8) & 0xff) as u8,
        ((n >> 16) & 0xff) as u8,
        ((n >> 24) & 0xff) as u8,
    ]
}

/// The 32-bit integer read back from four little-endian bytes.
pub open spec fn dec_u32(b0: u8, b1: u8, b2: u8, b3: u8) -> u32 {
    (b0 as u32) | ((b1 as u32) << 8) | ((b2 as u32) << 16) | ((b3 as u32) << 24)
}

pub proof fn lemma_u32_roundtrip(n: u32)
    ensures
        dec_u32(
            (n & 0xff) as u8,
            ((n >> 8) & 0xff) as u8,
            ((n >> 16) & 0xff) as u8,
            ((n >> 24) & 0xff) as u8,
        ) == n,
{
    assert((((n & 0xff) as u8) as u32) | ((((n >> 8) & 0xff) as u8) as u32) << 8 | ((((n >> 16)
        & 0xff) as u8) as u32) << 16 | ((((n >> 24) & 0xff) as u8) as u32) << 24 == n)
        by (bit_vector);
}

/// The record checksum: the bytes folded left with wrapping 32-bit
/// addition.
pub open spec fn spec_checksum(s: Seq<u8>) -> u32
    decreases s.len(),
{
    if s.len() == 0 {
        0
    } else {
        ((spec_checksum(s.drop_last()) + s.last()) % 0x1_0000_0000) as u32
    }
}

/// One framed record: length, payload, checksum.
pub open spec fn spec_record(p: Seq<u8>) -> Seq<u8> {
    enc_u32(p.len() as u32) + p + enc_u32(spec_checksum(p))
}

/// A whole segment: the records of the pushed payloads, in push order.
pub open spec fn spec_segment(ps: Seq<Seq<u8>>) -> Seq<u8>
    decreases ps.len(),
{
    if ps.len() == 0 {
        Seq::<u8>::empty()
    } else {
        spec_record(ps[0]) + spec_segment(ps.drop_first())
    }
}

/// What replay recovers from a byte string: records parsed from the front,
/// stopping at the first incomplete record or checksum mismatch.
pub open spec fn spec_replay(b: Seq<u8>) -> Seq<Seq<u8>>
    decreases b.len(),
{
    if b.len() < 8 {
        Seq::<Seq<u8>>::empty()
    } else {
        let len = dec_u32(b[0], b[1], b[2], b[3]) as int;
        if b.len() < 8 + len {
            Seq::<Seq<u8>>::empty()
        } else {
            let payload = b.subrange(4, 4 + len);
            let ck = dec_u32(b[4 + len], b[5 + len], b[6 + len], b[7 + len]);
            if ck == spec_checksum(payload) {
                seq![payload] + spec_replay(b.skip(8 + len))
            } else {
                Seq::<Seq<u8>>::empty()
            }
        }
    }
}

/// Replay inverts appending one intact record.
pub proof fn lemma_replay_step(p: Seq<u8>, rest: Seq<u8>)
    requires
        p.len() <= u32::MAX,
    ensures
        spec_replay(spec_record(p) + rest) == seq![p] + spec_replay(rest),
{
    let b = spec_record(p) + rest;
    let n = p.len() as u32;
    lemma_u32_roundtrip(n);
    assert(b[0] == (n & 0xff) as u8 && b[1] == ((n >> 8) & 0xff) as u8 && b[2] == ((n >> 16)
        & 0xff) as u8 && b[3] == ((n >> 24) & 0xff) as u8);
    assert(n & 0xff < 256 && (n >> 8) & 0xff < 256 && (n >> 16) & 0xff < 256 && (n >> 24) & 0xff
        < 256) by (bit_vector);
    assert(dec_u32(b[0], b[1], b[2], b[3]) == n);
    assert(b.len() == 8 + p.len() + rest.len());
    assert(b.subrange(4, 4 + p.len() as int) =~= p);
    let c = spec_checksum(p);
    lemma_u32_roundtrip(c);
    assert(b[4 + p.len() as int] == (c & 0xff) as u8 && b[5 + p.len() as int] == ((c >> 8) & 0xff) as u8 && b[6 + p.len() as int] == ((c >> 16) & 0xff) as u8 && b[7 + p.len() as int] == ((c >> 24) & 0xff) as u8);
    assert(dec_u32(b[4 + p.len() as int], b[5 + p.len() as int], b[6 + p.len() as int], b[7 + p.len() as int]) == c);
    assert(b.skip(8 + p.len() as int) =~= rest);
}

/// A truncated record replays to nothing: the length field demands more
/// bytes than the truncation left.
pub proof fn lemma_replay_truncated(p: Seq<u8>, cut: int)
    requires
        p.len() <= u32::MAX,
        0 <= cut < spec_record(p).len(),
    ensures
        spec_replay(spec_record(p).take(cut)) == Seq::<Seq<u8>>::empty(),
{
    let b = spec_record(p).take(cut);
    assert(spec_record(p).len() == 8 + p.len());
    if cut < 8 {
        assert(b.len() < 8);
    } else {
        let n = p.len() as u32;
        lemma_u32_roundtrip(n);
        assert(b[0] == (n & 0xff) as u8 && b[1] == ((n >> 8) & 0xff) as u8 && b[2] == ((n >> 16)
            & 0xff) as u8 && b[3] == ((n >> 24) & 0xff) as u8);
        assert(dec_u32(b[0], b[1], b[2], b[3]) == n);
        assert(b.len() == cut < 8 + p.len());
    }
}

/// Is `a` a prefix of `b`?
pub open spec fn is_prefix_of(a: Seq<Seq<u8>>, b: Seq<Seq<u8>>) -> bool {
    a.len() <= b.len() && a == b.take(a.len() as int)
}

/// Replay of an intact segment loses nothing: every pushed payload comes
/// back, in push order.
pub proof fn lemma_replay_complete(ps: Seq<Seq<u8>>)
    requires
        forall|i: int| 0 <= i < ps.len() ==> (#[trigger] ps[i]).len() <= u32::MAX,
    ensures
        spec_replay(spec_segment(ps)) == ps,
    decreases ps.len(),
{
    if ps.len() == 0 {
        assert(spec_segment(ps).len() == 0);
    } else {
        assert(forall|i: int|
            0 <= i < ps.drop_first().len() ==> (#[trigger] ps.drop_first()[i]).len()
                <= u32::MAX);
        lemma_replay_complete(ps.drop_first());
        lemma_replay_step(ps[0], spec_segment(ps.drop_first()));
        assert(seq![ps[0]] + ps.drop_first() =~= ps);
    }
}

/// Durability round-trip under crash truncation: whatever byte prefix of
/// the segment a crash leaves on disk, replay yields a prefix of the pushed
/// payload sequence — no reordering, no duplication, no invention.
pub proof fn lemma_replay_prefix(ps: Seq<Seq<u8>>, cut: int)
    requires
        forall|i: int| 0 <= i < ps.len() ==> (#[trigger] ps[i]).len() <= u32::MAX,
        0 <= cut <= spec_segment(ps).len(),
    ensures
        is_prefix_of(spec_replay(spec_segment(ps).take(cut)), ps),
    decreases ps.len(),
{
    if ps.len() == 0 {
        assert(spec_segment(ps).take(cut) =~= Seq::<u8>::empty());
        assert(spec_replay(Seq::<u8>::empty()) =~= Seq::<Seq<u8>>::empty());
        assert(Seq::<Seq<u8>>::empty() =~= ps.take(0));
    } else {
        let r0 = spec_record(ps[0]);
        let rest = spec_segment(ps.drop_first());
        assert(spec_segment(ps) == r0 + rest);
        if cut < r0.len() {
            assert(spec_segment(ps).take(cut) =~= r0.take(cut));
            lemma_replay_truncated(ps[0], cut);
            assert(spec_replay(r0.take(cut)) =~= ps.take(0));
        } else {
            assert(spec_segment(ps).take(cut) =~= r0 + rest.take(cut - r0.len()));
            lemma_replay_step(ps[0], rest.take(cut - r0.len()));
            assert(forall|i: int|
                0 <= i < ps.drop_first().len() ==> (#[trigger] ps.drop_first()[i]).len()
                    <= u32::MAX);
            lemma_replay_prefix(ps.drop_first(), cut - r0.len());
            let tail = spec_replay(rest.take(cut - r0.len()));
            assert(tail == ps.drop_first().take(tail.len() as int));
            assert(seq![ps[0]] + tail =~= ps.take(tail.len() as int + 1));
        }
    }
}

/// Compute the checksum of a payload.
pub fn checksum(p: &Vec<u8>) -> (r: u32)
    ensures
        r == spec_checksum(p@),
{
    let mut acc: u32 = 0;
    let mut i: usize = 0;
    while i < p.len()
        invariant
            0 <= i <= p@.len(),
            acc == spec_checksum(p@.take(i as int)),
        decreases p@.len() - i,
    {
        let t: u64 = acc as u64 + p[i] as u64;
        acc = (t % 0x1_0000_0000) as u32;
        proof {
            assert(p@.take(i + 1).drop_last() =~= p@.take(i as int));
            assert(p@.take(i + 1).last() == p@[i as int]);
        }
        i = i + 1;
    }
    assert(p@.take(p@.len() as int) =~= p@);
    acc
}

fn push_u32(storage: &mut Vec<u8>, n: u32)
    ensures
        final(storage)@ == old(storage)@ + enc_u32(n),
{
    let ghost before = storage@;
    storage.push((n & 0xff) as u8);
    storage.push(((n >> 8) & 0xff) as u8);
    storage.push(((n >> 16) & 0xff) as u8);
    storage.push(((n >> 24) & 0xff) as u8);
    assert(storage@ =~= before + enc_u32(n));
}

/// Append one framed record to the segment. The caller persists the bytes
/// before acknowledging the push, per the configured durability level.
pub fn append_record(storage: &mut Vec<u8>, payload: &Vec<u8>) -> (r: Result<(), ()>)
    ensures
        payload@.len() <= u32::MAX ==> (r is Ok && final(storage)@ == old(storage)@ + spec_record(
            payload@,
        )),
        payload@.len() > u32::MAX ==> (r is Err && final(storage)@ == old(storage)@),
{
    if payload.len() > 0xffff_ffffusize {
        return Err(());
    }
    let ghost before = storage@;
    push_u32(storage, payload.len() as u32);
    let mut i: usize = 0;
    while i < payload.len()
        invariant
            0 <= i <= payload@.len(),
            payload@.len() <= u32::MAX,
            storage@ == before + enc_u32(payload@.len() as u32) + payload@.take(i as int),
        decreases payload@.len() - i,
    {
        storage.push(payload[i]);
        assert(storage@ =~= before + enc_u32(payload@.len() as u32) + payload@.take(i + 1));
        i = i + 1;
    }
    assert(payload@.take(payload@.len() as int) =~= payload@);
    let ck = checksum(payload);
    push_u32(storage, ck);
    assert(storage@ =~= before + spec_record(payload@));
    Ok(())
}

/// Replay a segment's bytes after a restart: parse records from the front
/// and stop at the first incomplete or corrupt one. The recovered payloads
/// are exactly what `spec_replay` says, so by `lemma_replay_prefix` they
/// are a prefix of what was pushed before the crash.
pub fn replay(storage: &Vec<u8>) -> (r: Vec<Vec<u8>>)
    ensures
        r@.map_values(|p: Vec<u8>| p@) == spec_replay(storage@),
{
    let mut out: Vec<Vec<u8>> = Vec::new();
    let mut pos: usize = 0;
    proof {
        assert(storage@.skip(0) =~= storage@);
        assert(out@.map_values(|p: Vec<u8>| p@) =~= Seq::<Seq<u8>>::empty());
        assert(out@.map_values(|p: Vec<u8>| p@) + spec_replay(storage@) =~= spec_replay(
            storage@,
        ));
    }
    loop
        invariant
            0 <= pos <= storage@.len(),
            spec_replay(storage@) == out@.map_values(|p: Vec<u8>| p@) + spec_replay(
                storage@.skip(pos as int),
            ),
        decreases storage@.len() - pos,
    {
        let ghost tail = storage@.skip(pos as int);
        if storage.len() - pos < 8 {
            assert(tail.len() < 8);
            assert(out@.map_values(|p: Vec<u8>| p@) + spec_replay(tail) =~= out@.map_values(
                |p: Vec<u8>| p@,
            ));
            return out;
        }
        let len32 = {
            let b0 = storage[pos];
            let b1 = storage[pos + 1];
            let b2 = storage[pos + 2];
            let b3 = storage[pos + 3];
            assert(tail[0] == storage@[pos as int] && tail[1] == storage@[pos + 1] && tail[2]
                == storage@[pos + 2] && tail[3] == storage@[pos + 3]);
            (b0 as u32) | ((b1 as u32) << 8) | ((b2 as u32) << 16) | ((b3 as u32) << 24)
        };
        assert(len32 == dec_u32(tail[0], tail[1], tail[2], tail[3]));
        let len = len32 as usize;
        if storage.len() - pos < 8 || storage.len() - pos - 8 < len {
            assert(tail.len() < 8 + len);
            assert(out@.map_values(|p: Vec<u8>| p@) + spec_replay(tail) =~= out@.map_values(
                |p: Vec<u8>| p@,
            ));
            return out;
        }
        let mut payload: Vec<u8> = Vec::new();
        let mut i: usize = 0;
        while i < len
            invariant
                0 <= i <= len,
                pos + 8 + len <= storage@.len(),
                pos + 8 + len <= usize::MAX,
                payload@ == storage@.subrange(pos + 4, pos + 4 + i),
            decreases len - i,
        {
            payload.push(storage[pos + 4 + i]);
            assert(payload@ =~= storage@.subrange(pos + 4, pos + 4 + i + 1));
            i = i + 1;
        }
        assert(payload@ =~= tail.subrange(4, 4 + len as int));
        let ck = checksum(&payload);
        let stored = {
            let b0 = storage[pos + 4 + len];
            let b1 = storage[pos + 5 + len];
            let b2 = storage[pos + 6 + len];
            let b3 = storage[pos + 7 + len];
            (b0 as u32) | ((b1 as u32) << 8) | ((b2 as u32) << 16) | ((b3 as u32) << 24)
        };
        assert(stored == dec_u32(tail[4 + len], tail[5 + len], tail[6 + len], tail[7 + len]));
        if stored != ck {
            assert(out@.map_values(|p: Vec<u8>| p@) + spec_replay(tail) =~= out@.map_values(
                |p: Vec<u8>| p@,
            ));
            return out;
        }
        let ghost out_before = out@;
        out.push(payload);
        proof {
            assert(tail.skip(8 + len as int) =~= storage@.skip(pos + 8 + len));
            assert(spec_replay(tail) == seq![tail.subrange(4, 4 + len as int)] + spec_replay(
                storage@.skip(pos + 8 + len),
            ));
            assert(out@.map_values(|p: Vec<u8>| p@) =~= out_before.map_values(|p: Vec<u8>| p@)
                + seq![tail.subrange(4, 4 + len as int)]);
            assert(out_before.map_values(|p: Vec<u8>| p@) + spec_replay(tail)
                =~= out@.map_values(|p: Vec<u8>| p@) + spec_replay(storage@.skip(pos + 8 + len)));
        }
        pos = pos + 8 + len;
    }
}

} // verus!
