//! Packets out of a byte stream.
//!
//! The transport hands over bytes in reads that know nothing of packets: one may
//! hold several packets, half of one, or junk. The bytes go into a buffer, and
//! packets are taken from its front.
use crate::protocol::packet;
use crate::protocol::packet::{Packet, PacketView};
use vstd::prelude::*;
use vstd::slice::*;

verus! {

// ---------------------------------------------------------------------------
// The model
// ---------------------------------------------------------------------------

/// Two magic bytes stand at position `i`.
pub open spec fn magic_at(buf: Seq<u8>, i: int) -> bool {
    0 <= i && i + 1 < buf.len() && packet::is_magic(buf[i], buf[i + 1])
}

/// The first position at or behind `i` with two magic bytes.
pub open spec fn first_magic_from(buf: Seq<u8>, i: int) -> Option<int>
    decreases buf.len() - i,
{
    if i < 0 || i + 1 >= buf.len() {
        None
    } else if packet::is_magic(buf[i], buf[i + 1]) {
        Some(i)
    } else {
        first_magic_from(buf, i + 1)
    }
}

/// The first position with two magic bytes.
pub open spec fn first_magic(buf: Seq<u8>) -> Option<int> {
    first_magic_from(buf, 0)
}

/// What lies in the buffer from its first magic bytes on.
pub open spec fn from_magic(buf: Seq<u8>) -> Seq<u8> {
    match first_magic(buf) {
        Some(i) => buf.subrange(i, buf.len() as int),
        None => buf,
    }
}

pub proof fn lemma_first_magic(buf: Seq<u8>, i: int)
    requires
        0 <= i,
    ensures
        match first_magic_from(buf, i) {
            Some(k) => i <= k && magic_at(buf, k) && forall|j: int| i <= j < k ==> !magic_at(buf, j),
            None => forall|j: int| i <= j ==> !magic_at(buf, j),
        },
    decreases buf.len() - i,
{
    if i + 1 < buf.len() && !packet::is_magic(buf[i], buf[i + 1]) {
        lemma_first_magic(buf, i + 1);
    }
}

pub proof fn lemma_first_magic_is(buf: Seq<u8>, k: int)
    requires
        magic_at(buf, k),
        forall|j: int| 0 <= j < k ==> !magic_at(buf, j),
    ensures
        first_magic(buf) == Some(k),
{
    lemma_first_magic(buf, 0);
}

/// The next packet of the buffer, if it holds a whole one, and what is left of
/// the buffer. Junk before the magic bytes is dropped; so are magic bytes that
/// start nothing that could be a packet.
pub open spec fn take(buf: Seq<u8>) -> (Option<PacketView>, Seq<u8>)
    decreases buf.len(),
    via take_terminates
{
    if first_magic(buf) is None {
        (None, buf)
    } else {
        let b = from_magic(buf);
        match packet::parse_result(b) {
            Ok((p, n)) => (Some(p), b.subrange(n, b.len() as int)),
            Err(e) => if e.incomplete() {
                (None, b)
            } else {
                take(b.subrange(2, b.len() as int))
            },
        }
    }
}

#[via_fn]
proof fn take_terminates(buf: Seq<u8>) {
    lemma_first_magic(buf, 0);
}

/// The models of packets.
pub open spec fn packets(s: Seq<Packet>) -> Seq<PacketView> {
    Seq::new(s.len(), |i: int| s[i]@)
}

/// All packets of the buffer in their order, and what is left.
pub open spec fn take_all(buf: Seq<u8>) -> (Seq<PacketView>, Seq<u8>)
    decreases buf.len(),
    via take_all_terminates
{
    let (p, rest) = take(buf);
    match p {
        Some(pkt) => {
            let (more, left) = take_all(rest);
            (seq![pkt] + more, left)
        },
        None => (Seq::empty(), rest),
    }
}

#[via_fn]
proof fn take_all_terminates(buf: Seq<u8>) {
    lemma_take_shrinks(buf);
}

/// Taking a packet uses up some of the buffer.
pub proof fn lemma_take_shrinks(buf: Seq<u8>)
    ensures
        take(buf).1.len() <= buf.len(),
        take(buf).0 is Some ==> take(buf).1.len() < buf.len(),
    decreases buf.len(),
{
    lemma_first_magic(buf, 0);
    if first_magic(buf) is Some {
        let b = from_magic(buf);
        match packet::parse_result(b) {
            Ok(_) => {},
            Err(e) => {
                if !e.incomplete() {
                    lemma_take_shrinks(b.subrange(2, b.len() as int));
                }
            },
        }
    }
}

// ---------------------------------------------------------------------------
// Operations
// ---------------------------------------------------------------------------

/// The first position with two magic bytes.
pub fn find_magic(buf: &[u8]) -> (r: Option<usize>)
    ensures
        match r {
            Some(i) => first_magic(buf@) == Some(i as int),
            None => first_magic(buf@) is None,
        },
{
    let n: usize = buf.len();
    let mut i: usize = 0;
    while n > 0 && i < n - 1
        invariant
            n == buf@.len(),
            i <= n,
            n > 0 ==> i <= n - 1,
            first_magic(buf@) == first_magic_from(buf@, i as int),
        decreases n - i,
    {
        let a = buf[i];
        let b = buf[i + 1];
        if (a == 0x55 && b == 0xAA) || (a == 0xAA && b == 0x55) {
            return Some(i);
        }
        i += 1;
    }
    None
}

/// Removes the first `n` bytes.
pub fn drop_front(buf: &mut Vec<u8>, n: usize)
    requires
        n <= old(buf)@.len(),
    ensures
        final(buf)@ == old(buf)@.subrange(n as int, old(buf)@.len() as int),
{
    let rest = buf.split_off(n);
    *buf = rest;
}

/// Takes the next packet from the front of the buffer.
pub fn next_packet(buf: &mut Vec<u8>) -> (r: Option<Packet>)
    ensures
        final(buf)@ == take(old(buf)@).1,
        match r {
            Some(p) => take(old(buf)@).0 == Some(p@),
            None => take(old(buf)@).0 is None,
        },
{
    loop
        invariant
            take(buf@) == take(old(buf)@),
        decreases buf@.len(),
    {
        proof {
            lemma_first_magic(buf@, 0);
        }
        match find_magic(buf.as_slice()) {
            None => {
                return None;
            },
            Some(i) => {
                drop_front(buf, i);
                match Packet::decode(buf.as_slice()) {
                    Ok((p, n)) => {
                        proof {
                            packet::law_parse_reads_a_prefix(buf@);
                        }
                        drop_front(buf, n);
                        return Some(p);
                    },
                    Err(e) => {
                        if e.is_incomplete() {
                            return None;
                        }
                        drop_front(buf, 2);
                    },
                }
            },
        }
    }
}

/// A read came in: takes all packets that the buffer then holds.
pub fn receive(buf: &mut Vec<u8>, read: &[u8]) -> (r: Vec<Packet>)
    ensures
        (packets(r@), final(buf)@) == take_all(old(buf)@ + read@),
{
    let mut i: usize = 0;
    while i < read.len()
        invariant
            i <= read@.len(),
            buf@ == old(buf)@ + read@.subrange(0, i as int),
        decreases read@.len() - i,
    {
        buf.push(read[i]);
        i += 1;
        proof {
            assert(buf@ =~= old(buf)@ + read@.subrange(0, i as int));
        }
    }
    let ghost whole = old(buf)@ + read@;
    proof {
        assert(read@.subrange(0, read@.len() as int) =~= read@);
    }
    let mut out: Vec<Packet> = Vec::new();
    proof {
        assert(packets(out@) =~= Seq::empty());
        assert(packets(out@) + take_all(whole).0 =~= take_all(whole).0);
    }
    loop
        invariant
            packets(out@) + take_all(buf@).0 == take_all(whole).0,
            take_all(buf@).1 == take_all(whole).1,
            whole == old(buf)@ + read@,
        decreases buf@.len(),
    {
        let ghost before = buf@;
        let ghost taken = packets(out@);
        proof {
            lemma_take_shrinks(before);
        }
        match next_packet(buf) {
            Some(p) => {
                let ghost v = p@;
                out.push(p);
                proof {
                    assert(packets(out@) =~= taken.push(v));
                    assert(taken + take_all(before).0 =~= taken.push(v) + take_all(buf@).0);
                }
            },
            None => {
                proof {
                    assert(taken + take_all(before).0 =~= taken);
                }
                return out;
            },
        }
    }
}

// ---------------------------------------------------------------------------
// Laws
// ---------------------------------------------------------------------------

/// A packet that stands behind junk comes out whole, and what follows it stays.
pub proof fn law_take_finds_packet(junk: Seq<u8>, p: PacketView, rest: Seq<u8>)
    requires
        p.representable(),
        forall|j: int| 0 <= j < junk.len() ==> !magic_at(junk + p.wire(), j),
    ensures
        take(junk + p.wire() + rest) == (Some(p), rest),
{
    let buf = junk + p.wire() + rest;
    let k = junk.len() as int;
    assert forall|j: int| 0 <= j < k implies !magic_at(buf, j) by {
        assert(!magic_at(junk + p.wire(), j));
        assert(buf[j] == (junk + p.wire())[j]);
        assert(buf[j + 1] == (junk + p.wire())[j + 1]);
    }
    assert(buf[k] == p.wire()[0] && buf[k + 1] == p.wire()[1]);
    lemma_first_magic_is(buf, k);
    let b = from_magic(buf);
    assert(b =~= p.wire() + rest);
    packet::law_parse_of_wire(p, rest);
    assert(b.subrange(p.wire().len() as int, b.len() as int) =~= rest);
}

/// How a stream is cut into reads does not matter: where the bytes so far hold no
/// whole packet, going on with what was kept of them is the same as having had
/// all bytes at once.
pub proof fn law_take_is_incremental(buf: Seq<u8>, more: Seq<u8>)
    requires
        take(buf).0 is None,
    ensures
        take(buf + more) == take(take(buf).1 + more),
    decreases buf.len(),
{
    lemma_first_magic(buf, 0);
    if first_magic(buf) is Some {
        let b = from_magic(buf);
        lemma_magic_extends(buf, more);
        assert(from_magic(buf + more) =~= b + more);
        match packet::parse_result(b) {
            Ok(_) => {},
            Err(e) => {
                if e.incomplete() {
                    lemma_magic_extends(b, more);
                    assert(magic_at(b, 0));
                    lemma_first_magic_is(b + more, 0);
                    assert(from_magic(b + more) =~= b + more);
                } else {
                    let c = b.subrange(2, b.len() as int);
                    packet::law_parse_is_stable(b, more);
                    assert((b + more).subrange(2, (b + more).len() as int) =~= c + more);
                    law_take_is_incremental(c, more);
                }
            },
        }
    }
}

proof fn lemma_magic_extends(buf: Seq<u8>, more: Seq<u8>)
    requires
        first_magic(buf) is Some,
    ensures
        first_magic(buf + more) == first_magic(buf),
{
    lemma_first_magic(buf, 0);
    let k = first_magic(buf)->0;
    let t = buf + more;
    assert forall|j: int| 0 <= j < k implies !magic_at(t, j) by {
        assert(!magic_at(buf, j));
        assert(t[j] == buf[j] && t[j + 1] == buf[j + 1]);
    }
    assert(t[k] == buf[k] && t[k + 1] == buf[k + 1]);
    lemma_first_magic_is(t, k);
}

/// A packet that is taken now would also have been taken had more bytes been there.
pub proof fn law_take_is_stable(buf: Seq<u8>, more: Seq<u8>)
    requires
        take(buf).0 is Some,
    ensures
        take(buf + more) == (take(buf).0, take(buf).1 + more),
    decreases buf.len(),
{
    lemma_first_magic(buf, 0);
    let b = from_magic(buf);
    lemma_magic_extends(buf, more);
    assert(from_magic(buf + more) =~= b + more);
    packet::law_parse_is_stable(b, more);
    match packet::parse_result(b) {
        Ok((p, n)) => {
            packet::law_parse_reads_a_prefix(b);
            assert((b + more).subrange(n, (b + more).len() as int) =~= b.subrange(n, b.len() as int)
                + more);
        },
        Err(e) => {
            let c = b.subrange(2, b.len() as int);
            assert((b + more).subrange(2, (b + more).len() as int) =~= c + more);
            law_take_is_stable(c, more);
        },
    }
}

/// Reading a stream in two parts gives the packets of the first part and then
/// those that what was kept of it makes with the second: the packets of the whole.
pub proof fn law_take_all_in_two_reads(buf: Seq<u8>, more: Seq<u8>)
    ensures
        take_all(buf + more).0 == take_all(buf).0 + take_all(take_all(buf).1 + more).0,
        take_all(buf + more).1 == take_all(take_all(buf).1 + more).1,
    decreases buf.len(),
{
    lemma_take_shrinks(buf);
    let (p, rest) = take(buf);
    match p {
        None => {
            law_take_is_incremental(buf, more);
            lemma_take_all_agrees(buf + more, rest + more);
            assert(Seq::<PacketView>::empty() + take_all(rest + more).0 =~= take_all(
                rest + more,
            ).0);
        },
        Some(pkt) => {
            law_take_is_stable(buf, more);
            law_take_all_in_two_reads(rest, more);
            let a = take_all(rest).0;
            let c = take_all(take_all(rest).1 + more).0;
            assert(seq![pkt] + (a + c) =~= (seq![pkt] + a) + c);
        },
    }
}

/// Two buffers that give the same next packet and the same rest give the same packets.
proof fn lemma_take_all_agrees(a: Seq<u8>, b: Seq<u8>)
    requires
        take(a) == take(b),
    ensures
        take_all(a) == take_all(b),
{
}

} // verus!
