//! A transport without a dongle: replies are registered beforehand and read back
//! when the command that they answer is written.
use crate::protocol::packet::{self, Packet};
use crate::transport::hidraw::copy_into;
use crate::transport::TransportError;
use std::collections::{HashMap, VecDeque};
use vstd::prelude::*;
use vstd::slice::*;

verus! {

/// A scripted transport.
pub struct ReplayTransport {
    /// Bytes that wait to be read.
    read_queue: VecDeque<u8>,
    /// Every byte that was written.
    written_data: Vec<u8>,
    /// For each command word, the replies that are still to come.
    responses: HashMap<u16, VecDeque<Vec<u8>>>,
    /// The other end is gone.
    disconnected: bool,
}

/// The model of a scripted transport.
pub struct ReplayView {
    pub unread: Seq<u8>,
    pub written: Seq<u8>,
    pub replies: Map<u16, Seq<Seq<u8>>>,
    pub disconnected: bool,
}

impl ReplayView {
    /// A transport on which nothing happened yet.
    pub open spec fn empty() -> ReplayView {
        ReplayView {
            unread: Seq::empty(),
            written: Seq::empty(),
            replies: Map::empty(),
            disconnected: false,
        }
    }

    /// The replies that are still to come for a command.
    pub open spec fn queued(self, cmd: u16) -> Seq<Seq<u8>> {
        if self.replies.contains_key(cmd) {
            self.replies[cmd]
        } else {
            Seq::empty()
        }
    }

    pub open spec fn register(self, cmd: u16, resp: Seq<u8>) -> ReplayView {
        ReplayView { replies: self.replies.insert(cmd, self.queued(cmd).push(resp)), ..self }
    }

    pub open spec fn enqueue(self, data: Seq<u8>) -> ReplayView {
        ReplayView { unread: self.unread + data, ..self }
    }

    /// Bytes were written: they are kept, and where they are a packet with a
    /// registered reply, that reply can be read from now on.
    pub open spec fn write(self, buf: Seq<u8>) -> ReplayView {
        let w = ReplayView { written: self.written + buf, ..self };
        match packet::parse_result(buf) {
            Ok((p, _)) => if self.queued(p.cmd()).len() > 0 {
                ReplayView {
                    replies: self.replies.insert(p.cmd(), self.queued(p.cmd()).drop_first()),
                    ..w
                }.enqueue(self.queued(p.cmd())[0])
            } else {
                w
            },
            Err(_) => w,
        }
    }

    /// The first `n` bytes were read.
    pub open spec fn read(self, n: int) -> ReplayView {
        ReplayView { unread: self.unread.subrange(n, self.unread.len() as int), ..self }
    }

    pub open spec fn disconnect(self) -> ReplayView {
        ReplayView { disconnected: true, ..self }
    }
}

pub open spec fn contents(q: VecDeque<Vec<u8>>) -> Seq<Seq<u8>> {
    q@.map_values(|v: Vec<u8>| v@)
}

impl View for ReplayTransport {
    type V = ReplayView;

    closed spec fn view(&self) -> ReplayView {
        ReplayView {
            unread: self.read_queue@,
            written: self.written_data@,
            replies: self.responses@.map_values(|q: VecDeque<Vec<u8>>| contents(q)),
            disconnected: self.disconnected,
        }
    }
}

impl ReplayTransport {
    /// A transport on which nothing happened yet.
    pub fn new() -> (r: Self)
        ensures
            r@ == ReplayView::empty(),
    {
        broadcast use vstd::std_specs::hash::group_hash_axioms;

        let r = ReplayTransport {
            read_queue: VecDeque::new(),
            written_data: Vec::new(),
            responses: HashMap::new(),
            disconnected: false,
        };
        proof {
            assert(r@.replies =~= Map::empty());
        }
        r
    }

    /// Registers a reply to a command, behind those that it already has.
    pub fn register_response(&mut self, cmd: u16, resp: Vec<u8>)
        ensures
            final(self)@ == old(self)@.register(cmd, resp@),
    {
        broadcast use vstd::std_specs::hash::group_hash_axioms;

        let ghost before = self@;
        let mut queue = match self.responses.remove(&cmd) {
            Some(q) => q,
            None => VecDeque::new(),
        };
        let ghost q0 = queue;
        queue.push_back(resp);
        proof {
            assert(contents(q0) =~= before.queued(cmd));
            assert(contents(queue) =~= contents(q0).push(resp@));
        }
        self.responses.insert(cmd, queue);
        proof {
            assert(self@.replies =~= before.register(cmd, resp@).replies);
        }
    }

    /// Adds bytes for the host to read.
    pub fn enqueue_read(&mut self, data: &[u8])
        ensures
            final(self)@ == old(self)@.enqueue(data@),
    {
        let ghost before = *self;
        let mut i: usize = 0;
        while i < data.len()
            invariant
                i <= data@.len(),
                self.read_queue@ == before.read_queue@ + data@.subrange(0, i as int),
                self.written_data == before.written_data,
                self.responses == before.responses,
                self.disconnected == before.disconnected,
            decreases data@.len() - i,
        {
            proof {
                assert(before.read_queue@ + data@.subrange(0, i + 1) =~= (before.read_queue@
                    + data@.subrange(0, i as int)).push(data@[i as int]));
            }
            self.read_queue.push_back(data[i]);
            i += 1;
        }
        proof {
            assert(data@.subrange(0, data@.len() as int) =~= data@);
        }
    }

    /// Every byte that the host wrote.
    pub fn get_written(&self) -> (r: Vec<u8>)
        ensures
            r@ == self@.written,
    {
        slice_to_vec(self.written_data.as_slice())
    }

    /// Forgets what the host wrote.
    pub fn clear_written(&mut self)
        ensures
            final(self)@ == (ReplayView { written: Seq::empty(), ..old(self)@ }),
    {
        self.written_data.clear();
    }

    /// Whether bytes wait to be read.
    pub fn has_unread(&self) -> (r: bool)
        ensures
            r == (self@.unread.len() > 0),
    {
        self.read_queue.len() > 0
    }

    /// From now on the other end is gone.
    pub fn disconnect(&mut self)
        ensures
            final(self)@ == old(self)@.disconnect(),
    {
        self.disconnected = true;
    }

    /// Reads as many bytes as there are and as fit.
    pub fn read(&mut self, buf: &mut [u8]) -> (r: Result<usize, TransportError>)
        ensures
            old(self)@.disconnected ==> r == Err::<usize, TransportError>(
                TransportError::BrokenPipe,
            ) && final(self)@ == old(self)@ && final(buf)@ == old(buf)@,
            !old(self)@.disconnected ==> (r matches Ok(n) && {
                let unread = old(self)@.unread;
                &&& n == (if unread.len() <= old(buf)@.len() {
                    unread.len()
                } else {
                    old(buf)@.len()
                })
                &&& final(self)@ == old(self)@.read(n as int)
                &&& final(buf)@ == unread.subrange(0, n as int) + old(buf)@.subrange(
                    n as int,
                    old(buf)@.len() as int,
                )
            }),
    {
        if self.disconnected {
            return Err(TransportError::BrokenPipe);
        }
        let n: usize = if self.read_queue.len() < buf.len() {
            self.read_queue.len()
        } else {
            buf.len()
        };
        let ghost before = *self;
        let mut taken: Vec<u8> = Vec::new();
        let mut i: usize = 0;
        while i < n
            invariant
                i <= n <= before.read_queue@.len(),
                taken@ == before.read_queue@.subrange(0, i as int),
                self.read_queue@ == before.read_queue@.subrange(
                    i as int,
                    before.read_queue@.len() as int,
                ),
                self.written_data == before.written_data,
                self.responses == before.responses,
                self.disconnected == before.disconnected,
            decreases n - i,
        {
            match self.read_queue.pop_front() {
                Some(b) => {
                    proof {
                        assert(before.read_queue@.subrange(0, i + 1)
                            =~= before.read_queue@.subrange(0, i as int).push(b));
                    }
                    taken.push(b);
                },
                None => {},
            }
            proof {
                assert(self.read_queue@ =~= before.read_queue@.subrange(
                    i + 1,
                    before.read_queue@.len() as int,
                ));
            }
            i += 1;
        }
        copy_into(taken.as_slice(), 0, n, buf);
        proof {
            assert(taken@.subrange(0, 0 + n) =~= taken@);
        }
        Ok(n)
    }

    /// Writes bytes. A packet brings the reply that is next for its command.
    pub fn write(&mut self, buf: &[u8]) -> (r: Result<(), TransportError>)
        ensures
            old(self)@.disconnected ==> r == Err::<(), TransportError>(TransportError::BrokenPipe)
                && final(self)@ == old(self)@,
            !old(self)@.disconnected ==> r is Ok && final(self)@ == old(self)@.write(buf@),
    {
        broadcast use vstd::std_specs::hash::group_hash_axioms;

        if self.disconnected {
            return Err(TransportError::BrokenPipe);
        }
        let ghost before = self@;
        self.written_data.extend_from_slice(buf);
        proof {
            assert(self@.written =~= before.written + buf@);
        }
        match Packet::decode(buf) {
            Ok((pkt, _)) => {
                let cmd = pkt.cmd();
                match self.responses.remove(&cmd) {
                    Some(mut queue) => {
                        let ghost q0 = queue;
                        proof {
                            assert(contents(q0) =~= before.queued(cmd));
                        }
                        let next = queue.pop_front();
                        let ghost q1 = queue;
                        self.responses.insert(cmd, queue);
                        match next {
                            Some(resp) => {
                                proof {
                                    assert(contents(q1) =~= contents(q0).drop_first());
                                    assert(resp@ == before.queued(cmd)[0]);
                                    assert(self@.replies =~= before.write(buf@).replies);
                                }
                                self.enqueue_read(resp.as_slice());
                            },
                            None => {
                                proof {
                                    assert(contents(q1) =~= contents(q0));
                                    assert(self@.replies =~= before.replies);
                                }
                            },
                        }
                    },
                    None => {
                        proof {
                            assert(self@.replies =~= before.replies);
                        }
                    },
                }
            },
            Err(_) => {},
        }
        Ok(())
    }
}

// ---------------------------------------------------------------------------
// Laws
// ---------------------------------------------------------------------------

/// Writing a command brings the reply that was registered for it, and nothing else.
pub proof fn law_reply_is_read_back(t: ReplayView, p: packet::PacketView, resp: Seq<u8>)
    requires
        p.representable(),
        t.queued(p.cmd()).len() == 0,
    ensures
        t.register(p.cmd(), resp).write(p.wire()).unread == t.unread + resp,
        t.register(p.cmd(), resp).write(p.wire()).queued(p.cmd()).len() == 0,
{
    assert(p.wire() + Seq::<u8>::empty() =~= p.wire());
    packet::law_parse_of_wire(p, Seq::empty());
}

/// Replies to one command come in the order in which they were registered.
pub proof fn law_replies_keep_their_order(
    t: ReplayView,
    p: packet::PacketView,
    first: Seq<u8>,
    second: Seq<u8>,
)
    requires
        p.representable(),
        t.queued(p.cmd()).len() == 0,
    ensures
        t.register(p.cmd(), first).register(p.cmd(), second).write(p.wire()).write(
            p.wire(),
        ).unread == t.unread + first + second,
{
    assert(p.wire() + Seq::<u8>::empty() =~= p.wire());
    packet::law_parse_of_wire(p, Seq::empty());
    let t2 = t.register(p.cmd(), first).register(p.cmd(), second);
    assert(t2.queued(p.cmd()) =~= t.queued(p.cmd()).push(first).push(second));
    let t3 = t2.write(p.wire());
    assert(t3.queued(p.cmd()) =~= seq![second]);
}

/// A reply waits for its own command: writing another one leaves it where it is.
pub proof fn law_other_commands_leave_replies(t: ReplayView, p: packet::PacketView, cmd: u16)
    requires
        p.representable(),
        p.cmd() != cmd,
    ensures
        t.write(p.wire()).queued(cmd) == t.queued(cmd),
{
    assert(p.wire() + Seq::<u8>::empty() =~= p.wire());
    packet::law_parse_of_wire(p, Seq::empty());
}

/// Every byte that is written is kept in its order, and what was to be read stays before what
/// a reply adds; a command without a reply adds nothing.
pub proof fn law_writes_are_kept(t: ReplayView, buf: Seq<u8>)
    ensures
        t.write(buf).written == t.written + buf,
        t.write(buf).disconnected == t.disconnected,
        packet::parse_result(buf) is Err ==> t.write(buf).unread == t.unread && t.write(
            buf,
        ).replies == t.replies,
        packet::parse_result(buf) is Ok && t.queued(packet::parse_result(buf)->Ok_0.0.cmd()).len()
            == 0 ==> t.write(buf).unread == t.unread,
        packet::parse_result(buf) is Ok && t.queued(packet::parse_result(buf)->Ok_0.0.cmd()).len()
            > 0 ==> {
            let cmd = packet::parse_result(buf)->Ok_0.0.cmd();
            &&& t.write(buf).unread == t.unread + t.queued(cmd)[0]
            &&& t.write(buf).queued(cmd) == t.queued(cmd).drop_first()
        },
{
}

/// Bytes are read once and in the order in which they came; reading changes nothing else.
pub proof fn law_bytes_are_read_once(t: ReplayView, data: Seq<u8>, n: int)
    requires
        0 <= n <= t.unread.len(),
    ensures
        t.unread == t.unread.subrange(0, n) + t.read(n).unread,
        t.read(n).written == t.written,
        t.read(n).replies == t.replies,
        t.read(n).disconnected == t.disconnected,
        t.enqueue(data).unread == t.unread + data,
        t.enqueue(data).read(t.unread.len() as int).unread == data,
        t.enqueue(data).written == t.written,
{
    assert(t.unread =~= t.unread.subrange(0, n) + t.read(n).unread);
    let all = t.unread + data;
    assert(all.subrange(t.unread.len() as int, all.len() as int) =~= data);
}

/// A transport starts with nothing to read, nothing written and no reply, and stays connected
/// until it is disconnected.
pub proof fn law_new_transport(t: ReplayView, cmd: u16, resp: Seq<u8>)
    ensures
        ReplayView::empty().unread.len() == 0,
        ReplayView::empty().written.len() == 0,
        ReplayView::empty().queued(cmd).len() == 0,
        !ReplayView::empty().disconnected,
        t.disconnect().disconnected,
        t.disconnect().unread == t.unread,
        t.register(cmd, resp).queued(cmd) == t.queued(cmd).push(resp),
        t.register(cmd, resp).unread == t.unread,
{
}

} // verus!
