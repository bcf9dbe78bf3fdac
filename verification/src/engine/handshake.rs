//! The handshake that unlocks a dongle: five exchanges, in which it tells its MAC
//! address and its firmware version.
use crate::engine::command;
use crate::engine::command::{EngineError, Request, RequestView};
use crate::protocol::packet::{commands, Packet, PacketView, PayloadView};
use crate::text;
use vstd::prelude::*;
use vstd::utf8::*;

verus! {

/// The exchange that comes next.
#[derive(Debug, Copy, Clone, PartialEq, Eq, Structural)]
pub enum HandshakeStep {
    Inquiry,
    KeyExchange,
    DongleMac,
    Version,
    FinishAuth,
    Done,
}

/// How far a handshake has come, and what the dongle has told.
#[derive(Debug, PartialEq, Eq)]
pub struct Handshake {
    pub step: HandshakeStep,
    pub dongle_mac: Option<String>,
    pub dongle_version: Option<String>,
}

/// The model of a handshake.
pub struct HandshakeView {
    pub step: HandshakeStep,
    pub dongle_mac: Option<Seq<char>>,
    pub dongle_version: Option<Seq<char>>,
}

impl View for Handshake {
    type V = HandshakeView;

    open spec fn view(&self) -> HandshakeView {
        HandshakeView {
            step: self.step,
            dongle_mac: text::option_view(self.dongle_mac),
            dongle_version: text::option_view(self.dongle_version),
        }
    }
}

/// The model of an answer, where there is one.
pub open spec fn seen(reply: Option<&Packet>) -> Option<PacketView> {
    match reply {
        Some(p) => Some(p@),
        None => None,
    }
}

impl HandshakeStep {
    /// What is asked in a step.
    pub open spec fn request(self) -> Option<RequestView> {
        match self {
            HandshakeStep::Inquiry => Some(
                command::request_of(
                    commands::CMD_INQUIRY,
                    Seq::empty(),
                    commands::CMD_INQUIRY_RESPONSE,
                ),
            ),
            HandshakeStep::KeyExchange => Some(
                command::request_of(
                    commands::CMD_GET_ENR,
                    command::enr_token(),
                    commands::CMD_ENR_RESPONSE,
                ),
            ),
            HandshakeStep::DongleMac => Some(
                command::request_of(
                    commands::CMD_GET_MAC,
                    Seq::empty(),
                    commands::CMD_MAC_RESPONSE,
                ),
            ),
            HandshakeStep::Version => Some(
                command::request_of(
                    commands::CMD_GET_VERSION,
                    Seq::empty(),
                    commands::CMD_VERSION_RESPONSE,
                ),
            ),
            HandshakeStep::FinishAuth => Some(
                command::request_of(
                    commands::CMD_FINISH_AUTH,
                    seq![0xFFu8],
                    commands::CMD_FINISH_AUTH_RESPONSE,
                ),
            ),
            HandshakeStep::Done => None,
        }
    }

    /// The step behind a step.
    pub open spec fn next(self) -> HandshakeStep {
        match self {
            HandshakeStep::Inquiry => HandshakeStep::KeyExchange,
            HandshakeStep::KeyExchange => HandshakeStep::DongleMac,
            HandshakeStep::DongleMac => HandshakeStep::Version,
            HandshakeStep::Version => HandshakeStep::FinishAuth,
            HandshakeStep::FinishAuth => HandshakeStep::Done,
            HandshakeStep::Done => HandshakeStep::Done,
        }
    }
}

impl HandshakeView {
    /// Nothing was asked yet.
    pub open spec fn start() -> HandshakeView {
        HandshakeView { step: HandshakeStep::Inquiry, dongle_mac: None, dongle_version: None }
    }

    /// The handshake after an answer, or why it ends there.
    pub open spec fn answered(self, reply: PacketView) -> Result<HandshakeView, EngineError> {
        let h = HandshakeView { step: self.step.next(), ..self };
        match self.step {
            HandshakeStep::Inquiry => match command::inquiry_result(reply) {
                Ok(_) => Ok(h),
                Err(e) => Err(e),
            },
            HandshakeStep::KeyExchange => match command::enr_result(reply) {
                Ok(_) => Ok(h),
                Err(e) => Err(e),
            },
            HandshakeStep::DongleMac => match command::mac_result(reply) {
                Ok(m) => Ok(HandshakeView { dongle_mac: Some(m), ..h }),
                Err(e) => Err(e),
            },
            HandshakeStep::Version => match command::version_result(reply) {
                Ok(v) => Ok(HandshakeView { dongle_version: Some(v), ..h }),
                Err(e) => Err(e),
            },
            _ => Ok(h),
        }
    }

    /// The handshake after a run of answers, or why it ends at one of them.
    pub open spec fn answered_all(self, replies: Seq<PacketView>) -> Result<
        HandshakeView,
        EngineError,
    >
        decreases replies.len(),
    {
        if replies.len() == 0 {
            Ok(self)
        } else {
            match self.answered(replies[0]) {
                Ok(h) => h.answered_all(replies.subrange(1, replies.len() as int)),
                Err(e) => Err(e),
            }
        }
    }

    /// What the dongle has told by the step that the handshake is at.
    pub open spec fn consistent(self) -> bool {
        &&& self.step is Version || self.step is FinishAuth || self.step is Done
            ==> self.dongle_mac is Some
        &&& self.step is FinishAuth || self.step is Done ==> self.dongle_version is Some
    }
}

impl Handshake {
    /// Nothing was asked yet.
    pub fn new() -> (r: Self)
        ensures
            r@ == HandshakeView::start(),
    {
        Handshake { step: HandshakeStep::Inquiry, dongle_mac: None, dongle_version: None }
    }

    /// What is to be asked next; nothing when the dongle is unlocked.
    pub fn request(&self) -> (r: Option<Request>)
        ensures
            match r {
                Some(q) => self@.step.request() == Some(q@),
                None => self@.step.request() is None,
            },
    {
        match self.step {
            HandshakeStep::Inquiry => Some(command::inquiry()),
            HandshakeStep::KeyExchange => Some(command::get_enr()),
            HandshakeStep::DongleMac => Some(command::get_mac()),
            HandshakeStep::Version => Some(command::get_version()),
            HandshakeStep::FinishAuth => Some(command::finish_auth()),
            HandshakeStep::Done => None,
        }
    }

    fn advance(&mut self)
        ensures
            final(self)@ == (HandshakeView { step: old(self)@.step.next(), ..old(self)@ }),
    {
        self.step = match self.step {
            HandshakeStep::Inquiry => HandshakeStep::KeyExchange,
            HandshakeStep::KeyExchange => HandshakeStep::DongleMac,
            HandshakeStep::DongleMac => HandshakeStep::Version,
            HandshakeStep::Version => HandshakeStep::FinishAuth,
            HandshakeStep::FinishAuth => HandshakeStep::Done,
            HandshakeStep::Done => HandshakeStep::Done,
        };
    }

    /// Takes the answer to what was asked. An answer that ends the handshake leaves it
    /// where it is.
    pub fn answer(&mut self, reply: &Packet) -> (r: Result<(), EngineError>)
        ensures
            match r {
                Ok(_) => old(self)@.answered(reply@) == Ok::<HandshakeView, EngineError>(
                    final(self)@,
                ),
                Err(e) => old(self)@.answered(reply@) == Err::<HandshakeView, EngineError>(e)
                    && final(self)@ == old(self)@,
            },
    {
        match self.step {
            HandshakeStep::Inquiry => match command::read_inquiry(reply) {
                Ok(_) => {
                    self.advance();
                    Ok(())
                },
                Err(e) => Err(e),
            },
            HandshakeStep::KeyExchange => match command::read_enr(reply) {
                Ok(_) => {
                    self.advance();
                    Ok(())
                },
                Err(e) => Err(e),
            },
            HandshakeStep::DongleMac => match command::read_mac(reply) {
                Ok(m) => {
                    self.advance();
                    self.dongle_mac = Some(m);
                    Ok(())
                },
                Err(e) => Err(e),
            },
            HandshakeStep::Version => match command::read_version(reply) {
                Ok(v) => {
                    self.advance();
                    self.dongle_version = Some(v);
                    Ok(())
                },
                Err(e) => Err(e),
            },
            _ => {
                self.advance();
                Ok(())
            },
        }
    }
}

// ---------------------------------------------------------------------------
// Laws
// ---------------------------------------------------------------------------

/// A handshake starts out with nothing told, and at every step it knows what the dongle
/// has told by then.
pub proof fn law_handshake_stays_consistent(h: HandshakeView, reply: PacketView)
    ensures
        HandshakeView::start().consistent(),
        h.consistent() ==> match h.answered(reply) {
            Ok(n) => n.consistent(),
            Err(_) => true,
        },
{
}

/// Five good answers unlock the dongle, and its MAC address and version are those that
/// it told.
pub proof fn law_good_answers_unlock(
    inquiry: PacketView,
    enr: PacketView,
    mac: PacketView,
    version: PacketView,
    auth: PacketView,
)
    requires
        command::inquiry_result(inquiry) is Ok,
        command::enr_result(enr) is Ok,
        command::mac_result(mac) is Ok,
        command::version_result(version) is Ok,
    ensures
        HandshakeView::start().answered_all(seq![inquiry, enr, mac, version, auth]) == Ok::<
            HandshakeView,
            EngineError,
        >(
            HandshakeView {
                step: HandshakeStep::Done,
                dongle_mac: Some(command::mac_result(mac)->Ok_0),
                dongle_version: Some(command::version_result(version)->Ok_0),
            },
        ),
{
    let s = seq![inquiry, enr, mac, version, auth];
    let s1 = s.subrange(1, 5);
    assert(s1 =~= seq![enr, mac, version, auth]);
    let s2 = s1.subrange(1, 4);
    assert(s2 =~= seq![mac, version, auth]);
    let s3 = s2.subrange(1, 3);
    assert(s3 =~= seq![version, auth]);
    let s4 = s3.subrange(1, 2);
    assert(s4 =~= seq![auth]);
    let s5 = s4.subrange(1, 1);
    assert(s5 =~= Seq::<PacketView>::empty());
    reveal_with_fuel(HandshakeView::answered_all, 6);
}

spec fn place(s: HandshakeStep) -> int {
    match s {
        HandshakeStep::Inquiry => 0,
        HandshakeStep::KeyExchange => 1,
        HandshakeStep::DongleMac => 2,
        HandshakeStep::Version => 3,
        HandshakeStep::FinishAuth => 4,
        HandshakeStep::Done => 5,
    }
}

proof fn lemma_place(h: HandshakeView, replies: Seq<PacketView>)
    ensures
        match h.answered_all(replies) {
            Ok(n) => place(n.step) <= place(h.step) + replies.len(),
            Err(_) => true,
        },
    decreases replies.len(),
{
    if replies.len() > 0 {
        match h.answered(replies[0]) {
            Ok(n) => {
                lemma_place(n, replies.subrange(1, replies.len() as int));
            },
            Err(_) => {},
        }
    }
}

/// Fewer than five answers never unlock a dongle.
pub proof fn law_no_step_is_skipped(replies: Seq<PacketView>)
    requires
        replies.len() < 5,
    ensures
        match HandshakeView::start().answered_all(replies) {
            Ok(h) => !(h.step is Done),
            Err(_) => true,
        },
{
    lemma_place(HandshakeView::start(), replies);
}

/// What a handshake asks, step by step: whether the dongle is there, sixteen zeros for the
/// key exchange, the address, the version, and at last that the exchange is over.
pub proof fn law_handshake_asks()
    ensures
        ({
            let q = HandshakeStep::Inquiry.request()->0;
            &&& HandshakeStep::Inquiry.request() is Some
            &&& q.packet.cmd() == 0x4327 && q.expected == 0x4328
            &&& q.packet.payload == PayloadView::Bytes(Seq::empty())
        }),
        ({
            let q = HandshakeStep::KeyExchange.request()->0;
            &&& HandshakeStep::KeyExchange.request() is Some
            &&& q.packet.cmd() == 0x4302 && q.expected == 0x4303
            &&& q.packet.payload is Bytes
            &&& q.packet.payload->Bytes_0.len() == 16
            &&& forall|i: int| 0 <= i < 16 ==> q.packet.payload->Bytes_0[i] == 48
        }),
        ({
            let q = HandshakeStep::DongleMac.request()->0;
            &&& HandshakeStep::DongleMac.request() is Some
            &&& q.packet.cmd() == 0x4304 && q.expected == 0x4305
            &&& q.packet.payload == PayloadView::Bytes(Seq::empty())
        }),
        ({
            let q = HandshakeStep::Version.request()->0;
            &&& HandshakeStep::Version.request() is Some
            &&& q.packet.cmd() == 0x5316 && q.expected == 0x5317
            &&& q.packet.payload == PayloadView::Bytes(Seq::empty())
        }),
        ({
            let q = HandshakeStep::FinishAuth.request()->0;
            &&& HandshakeStep::FinishAuth.request() is Some
            &&& q.packet.cmd() == 0x5314 && q.expected == 0x5315
            &&& q.packet.payload == PayloadView::Bytes(seq![0xFFu8])
        }),
        HandshakeStep::Done.request() is None,
{
}

/// What a dongle tells of itself is kept in its own place: the answer to the question for
/// its address becomes the address, that to the question for its version the version, and no
/// other answer changes either. An answer takes the handshake on by one step.
pub proof fn law_answers_are_kept_apart(h: HandshakeView, reply: PacketView)
    requires
        h.answered(reply) is Ok,
    ensures
        ({
            let n = h.answered(reply)->Ok_0;
            &&& h.step is Inquiry ==> n.step is KeyExchange
            &&& h.step is KeyExchange ==> n.step is DongleMac
            &&& h.step is DongleMac ==> n.step is Version
            &&& h.step is Version ==> n.step is FinishAuth
            &&& h.step is FinishAuth ==> n.step is Done
            &&& h.step is DongleMac ==> n.dongle_mac is Some && encode_utf8(n.dongle_mac->0)
                == reply.payload->Bytes_0 && n.dongle_version == h.dongle_version
            &&& h.step is Version ==> n.dongle_version is Some && encode_utf8(n.dongle_version->0)
                == reply.payload->Bytes_0 && n.dongle_mac == h.dongle_mac
            &&& !(h.step is DongleMac) && !(h.step is Version) ==> n.dongle_mac == h.dongle_mac
                && n.dongle_version == h.dongle_version
        }),
{
    command::law_answers_are_read(reply);
}

/// A handshake ends where the dongle does not say that it is there, where its key exchange is
/// not sixteen bytes, and where its address or version is no text; never anywhere else.
pub proof fn law_handshake_is_cut_short(h: HandshakeView, reply: PacketView)
    ensures
        h.answered(reply) is Err <==> {
            ||| h.step is Inquiry && reply.payload != PayloadView::Bytes(seq![1u8])
            ||| h.step is KeyExchange && !(reply.payload is Bytes && reply.payload->Bytes_0.len()
                == 16)
            ||| (h.step is DongleMac || h.step is Version) && !(reply.payload is Bytes
                && valid_utf8(reply.payload->Bytes_0))
        },
{
    command::law_answers_are_read(reply);
}

/// What stands in a handshake is what its model shows, field by field.
pub proof fn law_model_of_a_handshake(h: Handshake)
    ensures
        h@.step == h.step,
        h@.dongle_mac == text::option_view(h.dongle_mac),
        h@.dongle_version == text::option_view(h.dongle_version),
        HandshakeView::start().step is Inquiry,
        HandshakeView::start().dongle_mac is None,
        HandshakeView::start().dongle_version is None,
{
}

} // verus!
