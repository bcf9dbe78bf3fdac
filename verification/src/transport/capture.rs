//! Captures: a record of every read and write on a transport, and the check that
//! what was recorded parses.
//!
//! Bytes are recorded as hexadecimal text. For a read the frame as it came in is
//! recorded beside the protocol bytes in it.
use crate::hex::{self, bytes_to_hex, hex_to_bytes};
use crate::protocol::packet::{self, Packet, PayloadView};
use vstd::prelude::*;
use vstd::slice::*;
use vstd::string::*;
use vstd::utf8::*;

verus! {

/// One read or write.
#[derive(Debug, Clone)]
pub struct CaptureRecord {
    /// Milliseconds since the Unix epoch.
    pub ts_ms: u64,
    /// `R` for a read, `W` for a write.
    pub dir: String,
    /// The frame as it came in, for a read.
    pub raw_hex: Option<String>,
    /// The protocol bytes.
    pub proto_hex: String,
    /// The number of protocol bytes.
    pub proto_len: usize,
}

impl CaptureRecord {
    /// The protocol bytes that the record spells.
    pub open spec fn proto(self) -> Seq<u8> {
        hex::pairs_value(encode_utf8(self.proto_hex@))
    }

    /// The record of a read that filled `raw` into a buffer for `capacity` bytes.
    pub fn of_read(ts_ms: u64, raw: &[u8], capacity: usize) -> (r: Self)
        ensures
            r.ts_ms == ts_ms,
            r.dir@ == "R"@,
            r.raw_hex matches Some(h) && h@ == hex::bytes_text(raw@),
            r.proto_len == (if raw@.len() < capacity {
                raw@.len()
            } else {
                capacity as nat
            }),
            r.proto_hex@ == hex::bytes_text(raw@.subrange(0, r.proto_len as int)),
    {
        let n: usize = if raw.len() < capacity {
            raw.len()
        } else {
            capacity
        };
        CaptureRecord {
            ts_ms,
            dir: "R".to_owned(),
            raw_hex: Some(bytes_to_hex(raw)),
            proto_hex: bytes_to_hex(slice_subrange(raw, 0, n)),
            proto_len: n,
        }
    }

    /// The record of a write.
    pub fn of_write(ts_ms: u64, buf: &[u8]) -> (r: Self)
        ensures
            r.ts_ms == ts_ms,
            r.dir@ == "W"@,
            r.raw_hex is None,
            r.proto_len == buf@.len(),
            r.proto_hex@ == hex::bytes_text(buf@),
    {
        CaptureRecord {
            ts_ms,
            dir: "W".to_owned(),
            raw_hex: None,
            proto_hex: bytes_to_hex(buf),
            proto_len: buf.len(),
        }
    }

    /// The protocol bytes.
    pub fn protocol_bytes(&self) -> (r: Vec<u8>)
        requires
            hex::splits_in_pairs(self.proto_hex@),
        ensures
            r@ == self.proto(),
    {
        hex_to_bytes(self.proto_hex.as_str())
    }

    /// The frame as it came in, for a read.
    pub fn raw_bytes(&self) -> (r: Option<Vec<u8>>)
        requires
            self.raw_hex matches Some(h) ==> hex::splits_in_pairs(h@),
        ensures
            match self.raw_hex {
                Some(h) => r matches Some(b) && b@ == hex::pairs_value(encode_utf8(h@)),
                None => r is None,
            },
    {
        match &self.raw_hex {
            Some(h) => Some(hex_to_bytes(h.as_str())),
            None => None,
        }
    }
}

// ---------------------------------------------------------------------------
// Validation
// ---------------------------------------------------------------------------

/// A packet that was found in a record.
#[derive(Debug)]
pub struct ParsedPacketInfo {
    pub record_index: usize,
    pub direction: String,
    pub cmd: u16,
    pub payload_len: usize,
    /// Where in the record's bytes the packet starts.
    pub offset: usize,
}

/// The model of a found packet.
pub struct PacketInfoView {
    pub record_index: int,
    pub direction: Seq<char>,
    pub cmd: u16,
    pub payload_len: int,
    pub offset: int,
}

impl View for ParsedPacketInfo {
    type V = PacketInfoView;

    open spec fn view(&self) -> PacketInfoView {
        PacketInfoView {
            record_index: self.record_index as int,
            direction: self.direction@,
            cmd: self.cmd,
            payload_len: self.payload_len as int,
            offset: self.offset as int,
        }
    }
}

/// What a capture holds.
#[derive(Debug)]
pub struct CaptureValidation {
    /// The packets, in the order in which they stand.
    pub packets: Vec<ParsedPacketInfo>,
    /// The records with bytes in which no packet was found.
    pub parse_failures: Vec<usize>,
    /// The number of records without bytes.
    pub empty: usize,
}

/// The model of what a capture holds.
pub struct ValidationView {
    pub packets: Seq<PacketInfoView>,
    pub parse_failures: Seq<int>,
    pub empty: int,
}

impl View for CaptureValidation {
    type V = ValidationView;

    open spec fn view(&self) -> ValidationView {
        ValidationView {
            packets: self.packets@.map_values(|p: ParsedPacketInfo| p@),
            parse_failures: self.parse_failures@.map_values(|i: usize| i as int),
            empty: self.empty as int,
        }
    }
}

impl Default for CaptureValidation {
    fn default() -> (r: Self)
        ensures
            r@ == (ValidationView {
                packets: Seq::empty(),
                parse_failures: Seq::empty(),
                empty: 0,
            }),
    {
        let r = CaptureValidation { packets: Vec::new(), parse_failures: Vec::new(), empty: 0 };
        proof {
            assert(r@.packets =~= Seq::empty());
            assert(r@.parse_failures =~= Seq::empty());
        }
        r
    }
}

impl CaptureValidation {
    pub fn total_parsed(&self) -> (r: usize)
        ensures
            r == self@.packets.len(),
    {
        self.packets.len()
    }

    pub fn total_failed(&self) -> (r: usize)
        ensures
            r == self@.parse_failures.len(),
    {
        self.parse_failures.len()
    }
}

/// The number of payload bytes; none for an acknowledgement.
pub open spec fn payload_len(p: PayloadView) -> int {
    match p {
        PayloadView::Bytes(b) => b.len() as int,
        PayloadView::Ack(_) => 0,
    }
}

/// The packets that stand one behind the other from `offset` on, up to the first
/// place where none parses.
pub open spec fn packets_from(b: Seq<u8>, offset: int, index: int, dir: Seq<char>) -> Seq<
    PacketInfoView,
>
    decreases b.len() - offset,
{
    if offset < 0 || offset >= b.len() {
        Seq::empty()
    } else {
        match packet::parse_result(b.subrange(offset, b.len() as int)) {
            Ok((p, n)) => if n > 0 {
                seq![
                    PacketInfoView {
                        record_index: index,
                        direction: dir,
                        cmd: p.cmd(),
                        payload_len: payload_len(p.payload),
                        offset,
                    },
                ] + packets_from(b, offset + n, index, dir)
            } else {
                Seq::empty()
            },
            Err(_) => Seq::empty(),
        }
    }
}

/// A record that can be checked.
pub open spec fn checkable(r: CaptureRecord) -> bool {
    hex::splits_in_pairs(r.proto_hex@)
}

/// What a run of records holds.
pub open spec fn validation(records: Seq<CaptureRecord>) -> ValidationView
    decreases records.len(),
{
    if records.len() == 0 {
        ValidationView { packets: Seq::empty(), parse_failures: Seq::empty(), empty: 0 }
    } else {
        let v = validation(records.drop_last());
        let r = records.last();
        let i = records.len() - 1;
        if r.proto().len() == 0 {
            ValidationView { empty: v.empty + 1, ..v }
        } else {
            ValidationView {
                packets: v.packets + packets_from(r.proto(), 0, i, r.dir@),
                parse_failures: if packet::parse_result(r.proto()) is Err {
                    v.parse_failures.push(i)
                } else {
                    v.parse_failures
                },
                ..v
            }
        }
    }
}

/// Whether a record can be checked.
pub fn is_checkable(r: &CaptureRecord) -> (ok: bool)
    ensures
        ok == checkable(*r),
{
    pairs_split(r.proto_hex.as_str())
}

/// Whether a text can be read two bytes at a time.
fn pairs_split(s: &str) -> (r: bool)
    ensures
        r == hex::splits_in_pairs(s@),
{
    let b = s.as_bytes();
    let n: usize = b.len();
    let mut i: usize = 0;
    loop
        invariant
            n == b@.len(),
            b@ == encode_utf8(s@),
            i <= n,
            i % 2 == 0,
            forall|k: int| 0 <= k && 2 * k < i ==> #[trigger] is_char_boundary(b@, 2 * k),
        decreases n - i,
    {
        if !s.is_char_boundary(i) {
            proof {
                let k = i as int / 2;
                assert(2 * k == i);
                assert(!is_char_boundary(b@, 2 * k));
            }
            return false;
        }
        if n - i < 2 {
            proof {
                assert forall|k: int| 0 <= k && 2 * k <= b@.len() implies #[trigger]
                is_char_boundary(b@, 2 * k) by {
                    if 2 * k >= i {
                        assert(2 * k == i);
                    }
                }
            }
            return true;
        }
        i += 2;
    }
}

/// Parses every record of a capture.
pub fn validate_capture(records: &[CaptureRecord]) -> (r: CaptureValidation)
    requires
        forall|i: int| 0 <= i < records@.len() ==> checkable(#[trigger] records@[i]),
    ensures
        r@ == validation(records@),
{
    let mut result = CaptureValidation::default();
    let mut idx: usize = 0;
    while idx < records.len()
        invariant
            idx <= records@.len(),
            result.empty <= idx,
            forall|i: int| 0 <= i < records@.len() ==> checkable(#[trigger] records@[i]),
            result@ == validation(records@.subrange(0, idx as int)),
        decreases records@.len() - idx,
    {
        let record = &records[idx];
        let b = record.protocol_bytes();
        let ghost seen = records@.subrange(0, idx + 1);
        proof {
            assert(seen.drop_last() =~= records@.subrange(0, idx as int));
            assert(seen.last() == records@[idx as int]);
        }
        if b.len() == 0 {
            result.empty = result.empty + 1;
        } else {
            validate_record(record, idx, b.as_slice(), &mut result);
            proof {
                assert(b@.subrange(0, b@.len() as int) =~= b@);
            }
        }
        idx += 1;
    }
    proof {
        assert(records@.subrange(0, records@.len() as int) =~= records@);
    }
    result
}

/// Parses one record that holds bytes.
fn validate_record(record: &CaptureRecord, idx: usize, b: &[u8], result: &mut CaptureValidation)
    requires
        b@.len() > 0,
    ensures
        final(result).empty == old(result).empty,
        final(result)@ == (ValidationView {
            packets: old(result)@.packets + packets_from(b@, 0, idx as int, record.dir@),
            parse_failures: if packet::parse_result(b@) is Err {
                old(result)@.parse_failures.push(idx as int)
            } else {
                old(result)@.parse_failures
            },
            ..old(result)@
        }),
{
    let n: usize = b.len();
    let ghost before = *result;
    let ghost all = packets_from(b@, 0, idx as int, record.dir@);
    let mut offset: usize = 0;
    let mut parsed_any = false;
    let mut found: Vec<ParsedPacketInfo> = Vec::new();
    proof {
        assert(b@.subrange(0, b@.len() as int) =~= b@);
        assert(found@.map_values(|p: ParsedPacketInfo| p@) + all =~= all);
    }
    while offset < n
        invariant
            n == b@.len(),
            offset <= n,
            parsed_any == (offset > 0),
            parsed_any ==> packet::parse_result(b@) is Ok,
            all == packets_from(b@, 0, idx as int, record.dir@),
            all == found@.map_values(|p: ParsedPacketInfo| p@) + packets_from(
                b@,
                offset as int,
                idx as int,
                record.dir@,
            ),
            b@.subrange(0, b@.len() as int) == b@,
        ensures
            all == found@.map_values(|p: ParsedPacketInfo| p@),
            offset < n ==> parsed_any || packet::parse_result(b@) is Err,
            parsed_any ==> packet::parse_result(b@) is Ok,
            offset >= n && !parsed_any ==> n == 0,
        decreases n - offset,
    {
        let rest = slice_subrange(b, offset, n);
        match Packet::decode(rest) {
            Ok((pkt, consumed)) => {
                proof {
                    packet::law_parse_reads_a_prefix(rest@);
                }
                let len: usize = match pkt.payload_bytes() {
                    Some(p) => p.len(),
                    None => 0,
                };
                let info = ParsedPacketInfo {
                    record_index: idx,
                    direction: record.dir.clone(),
                    cmd: pkt.cmd(),
                    payload_len: len,
                    offset,
                };
                let ghost f0 = found@.map_values(|p: ParsedPacketInfo| p@);
                let ghost tail = packets_from(b@, offset + consumed, idx as int, record.dir@);
                let ghost shown = info@;
                found.push(info);
                proof {
                    assert(found@.map_values(|p: ParsedPacketInfo| p@) =~= f0.push(shown));
                    assert(f0 + (seq![shown] + tail) =~= f0.push(shown) + tail);
                }
                offset += consumed;
                parsed_any = true;
            },
            Err(_) => {
                proof {
                    assert(all =~= found@.map_values(|p: ParsedPacketInfo| p@));
                }
                break;
            },
        }
    }
    if !parsed_any {
        result.parse_failures.push(idx);
    }
    proof {
        assert(result.parse_failures@.map_values(|i: usize| i as int) =~= if parsed_any {
            before@.parse_failures
        } else {
            before@.parse_failures.push(idx as int)
        });
    }
    let ghost p0 = result.packets@;
    let ghost f = found@;
    result.packets.append(&mut found);
    proof {
        assert(result.packets@.map_values(|p: ParsedPacketInfo| p@) =~= p0.map_values(
            |p: ParsedPacketInfo| p@,
        ) + f.map_values(|p: ParsedPacketInfo| p@));
    }
}

// ---------------------------------------------------------------------------
// Laws
// ---------------------------------------------------------------------------

/// A packet that was recorded is found again: the record of a written packet holds
/// that packet and nothing else.
pub proof fn law_recorded_packet_is_found(p: packet::PacketView, index: int, dir: Seq<char>)
    requires
        p.representable(),
    ensures
        hex::pairs_value(encode_utf8(hex::bytes_text(p.wire()))) == p.wire(),
        packets_from(p.wire(), 0, index, dir) == seq![
            PacketInfoView {
                record_index: index,
                direction: dir,
                cmd: p.cmd(),
                payload_len: payload_len(p.payload),
                offset: 0,
            },
        ],
{
    hex::law_hex_round_trip(p.wire());
    let w = p.wire();
    assert(w + Seq::<u8>::empty() =~= w);
    assert(w.subrange(0, w.len() as int) =~= w);
    packet::law_parse_of_wire(p, Seq::empty());
    assert(packets_from(w, w.len() as int, index, dir) =~= Seq::empty());
    assert(packets_from(w, 0, index, dir) =~= seq![
        PacketInfoView {
            record_index: index,
            direction: dir,
            cmd: p.cmd(),
            payload_len: payload_len(p.payload),
            offset: 0,
        },
    ]);
}

/// What a capture holds, record by record: a record fails exactly where it has bytes and they
/// start with no packet.
pub proof fn law_failures_are_found(records: Seq<CaptureRecord>, i: int)
    ensures
        validation(records).parse_failures.contains(i) <==> {
            &&& 0 <= i < records.len()
            &&& records[i].proto().len() > 0
            &&& packet::parse_result(records[i].proto()) is Err
        },
    decreases records.len(),
{
    if records.len() > 0 {
        let d = records.drop_last();
        law_failures_are_found(d, i);
        let f = validation(d).parse_failures;
        let last = records.len() - 1;
        assert(records.last() == records[last]);
        if i < last {
            assert(0 <= i ==> d[i] == records[i]);
        }
        assert(f.push(last as int).contains(i) <==> f.contains(i) || i == last) by {
            if f.contains(i) {
                assert(f.push(last as int)[f.index_of(i)] == i);
            }
            assert(f.push(last as int)[f.len() as int] == last);
        }
    }
}

/// A record without bytes is counted and nothing more; the packets of a record with bytes
/// stand behind those of the records before it.
pub proof fn law_records_add_up(records: Seq<CaptureRecord>, r: CaptureRecord)
    ensures
        ({
            let before = validation(records);
            let after = validation(records.push(r));
            &&& r.proto().len() == 0 ==> {
                &&& after.empty == before.empty + 1
                &&& after.packets == before.packets
                &&& after.parse_failures == before.parse_failures
            }
            &&& r.proto().len() > 0 ==> {
                &&& after.empty == before.empty
                &&& after.packets == before.packets + packets_from(
                    r.proto(),
                    0,
                    records.len() as int,
                    r.dir@,
                )
            }
        }),
{
    assert(records.push(r).drop_last() =~= records);
}

/// Packets that were recorded one behind the other in one record are all found, each with its
/// own command, length and place.
pub proof fn law_two_packets_in_a_record(
    p: packet::PacketView,
    q: packet::PacketView,
    index: int,
    dir: Seq<char>,
)
    requires
        p.representable(),
        q.representable(),
    ensures
        ({
            let found = packets_from(p.wire() + q.wire(), 0, index, dir);
            &&& found.len() == 2
            &&& found[0].cmd == p.cmd() && found[0].offset == 0 && found[0].payload_len
                == payload_len(p.payload)
            &&& found[1].cmd == q.cmd() && found[1].offset == p.wire().len()
                && found[1].payload_len == payload_len(q.payload)
            &&& found[0].record_index == index && found[1].record_index == index
            &&& found[0].direction == dir && found[1].direction == dir
        }),
{
    let w = p.wire() + q.wire();
    let n = p.wire().len() as int;
    let none = Seq::<u8>::empty();
    assert(w.subrange(0, w.len() as int) =~= w);
    packet::law_parse_of_wire(p, q.wire());
    assert(w.subrange(n, w.len() as int) =~= q.wire());
    assert(q.wire() + none =~= q.wire());
    packet::law_parse_of_wire(q, none);
    assert(packets_from(w, w.len() as int, index, dir) =~= Seq::empty());
    assert(packets_from(w, n, index, dir).len() == 1);
}

/// The payload of a packet is as long as it is; an acknowledgement has none.
pub proof fn law_payload_length(p: PayloadView)
    ensures
        p is Bytes ==> payload_len(p) == p->Bytes_0.len(),
        p is Ack ==> payload_len(p) == 0,
{
}

} // verus!
