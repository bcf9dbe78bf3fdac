//! Pairing a sensor that came up in a scan: exchange tokens, end the scan, bind the
//! sensor to the dongle.
use crate::engine::command;
use crate::engine::command::{Request, RequestView};
use crate::engine::Engine;
use crate::protocol::packet::{commands, Packet, PacketView};
use crate::protocol::telemetry::{DongleEvent, EventView, SensorType, TelemetryData, TelemetryView};
use crate::text;
use vstd::prelude::*;
use vstd::utf8::*;

verus! {

/// What comes next.
#[derive(Debug, Copy, Clone, PartialEq, Eq, Structural)]
pub enum PairingStep {
    ExchangeToken,
    StopScan,
    Verify,
    Paired,
    Failed,
}

/// A sensor on its way to be bound.
#[derive(Debug, PartialEq, Eq)]
pub struct Pairing {
    pub mac: String,
    pub sensor_type: SensorType,
    pub version: u8,
    pub step: PairingStep,
}

/// The model of a pairing.
pub struct PairingView {
    pub mac: Seq<char>,
    pub sensor_type: SensorType,
    pub version: u8,
    pub step: PairingStep,
}

impl View for Pairing {
    type V = PairingView;

    open spec fn view(&self) -> PairingView {
        PairingView {
            mac: self.mac@,
            sensor_type: self.sensor_type,
            version: self.version,
            step: self.step,
        }
    }
}

/// What came of a request.
pub enum Outcome {
    /// A packet came back.
    Answer(Packet),
    /// Nothing came back.
    Failure,
}

/// The model of an outcome.
pub enum OutcomeView {
    Answer(PacketView),
    Failure,
}

impl View for Outcome {
    type V = OutcomeView;

    open spec fn view(&self) -> OutcomeView {
        match self {
            Outcome::Answer(p) => OutcomeView::Answer(p@),
            Outcome::Failure => OutcomeView::Failure,
        }
    }
}

impl PairingView {
    /// What is asked in a step; nothing at the end.
    pub open spec fn request(self) -> Option<RequestView> {
        match self.step {
            PairingStep::ExchangeToken => Some(
                command::sensor_request(
                    commands::CMD_GET_R1,
                    self.mac,
                    command::pairing_token(),
                    commands::CMD_R1_RESPONSE,
                ),
            ),
            PairingStep::StopScan => Some(
                command::request_of(
                    commands::CMD_SET_SCAN,
                    seq![0u8],
                    commands::CMD_SET_SCAN_RESPONSE,
                ),
            ),
            PairingStep::Verify => Some(
                command::sensor_request(
                    commands::CMD_VERIFY_SENSOR,
                    self.mac,
                    seq![0xFFu8, 0x04u8],
                    commands::CMD_VERIFY_SENSOR_RESPONSE,
                ),
            ),
            PairingStep::Paired | PairingStep::Failed => None,
        }
    }

    /// The step behind an outcome. Without a token there is no pairing; whether the scan
    /// ended does not matter; the dongle has to confirm the rest.
    pub open spec fn after(self, o: OutcomeView) -> PairingView {
        PairingView {
            step: match self.step {
                PairingStep::ExchangeToken => match o {
                    OutcomeView::Answer(p) => if command::token_result(p) is Ok {
                        PairingStep::StopScan
                    } else {
                        PairingStep::Failed
                    },
                    OutcomeView::Failure => PairingStep::Failed,
                },
                PairingStep::StopScan => PairingStep::Verify,
                PairingStep::Verify => match o {
                    OutcomeView::Answer(_) => PairingStep::Paired,
                    OutcomeView::Failure => PairingStep::Failed,
                },
                PairingStep::Paired => PairingStep::Paired,
                PairingStep::Failed => PairingStep::Failed,
            },
            ..self
        }
    }

    /// The event that tells of the pairing, when it is done.
    pub open spec fn event(self, dongle: Option<Seq<char>>, now: u64) -> Option<EventView> {
        if self.step is Paired {
            Some(
                EventView {
                    mac: self.mac,
                    timestamp: now,
                    sensor_type: self.sensor_type,
                    event_type: 0,
                    data: TelemetryView::Paired { version: self.version },
                    dongle_mac: dongle,
                },
            )
        } else {
            None
        }
    }
}

impl Pairing {
    /// A sensor that came up in a scan. One whose MAC address is not eight bytes long
    /// cannot be asked for a token, so it fails at once.
    pub fn new(mac: String, sensor_type: SensorType, version: u8) -> (r: Self)
        ensures
            r@ == (PairingView {
                mac: mac@,
                sensor_type,
                version,
                step: if command::is_mac(mac@) {
                    PairingStep::ExchangeToken
                } else {
                    PairingStep::Failed
                },
            }),
    {
        let step = if mac.as_str().as_bytes().len() == 8 {
            PairingStep::ExchangeToken
        } else {
            PairingStep::Failed
        };
        Pairing { mac, sensor_type, version, step }
    }

    /// The pairing that an event starts: that of a sensor in a scan.
    pub fn of_event(event: &DongleEvent) -> (r: Option<Self>)
        ensures
            match r {
                Some(p) => {
                    &&& event.data@ is Scanned
                    &&& p@ == (PairingView {
                        mac: event.mac@,
                        sensor_type: event.sensor_type,
                        version: event.data@->Scanned_version,
                        step: if command::is_mac(event.mac@) {
                            PairingStep::ExchangeToken
                        } else {
                            PairingStep::Failed
                        },
                    })
                },
                None => !(event.data@ is Scanned),
            },
    {
        match &event.data {
            TelemetryData::Scanned { version } => Some(
                Pairing::new(event.mac.clone(), event.sensor_type, *version),
            ),
            _ => None,
        }
    }

    /// What is to be asked next.
    pub fn request(&self) -> (r: Option<Request>)
        requires
            command::is_mac(self.mac@) || self.step is Paired || self.step is Failed,
        ensures
            match r {
                Some(q) => self@.request() == Some(q@),
                None => self@.request() is None,
            },
    {
        match self.step {
            PairingStep::ExchangeToken => match Engine::get_sensor_r1(self.mac.as_str()) {
                Ok(q) => Some(q),
                Err(_) => None,
            },
            PairingStep::StopScan => Some(Engine::set_scan(false)),
            PairingStep::Verify => match Engine::verify_sensor(self.mac.as_str()) {
                Ok(q) => Some(q),
                Err(_) => None,
            },
            PairingStep::Paired => None,
            PairingStep::Failed => None,
        }
    }

    /// Takes what came of the request.
    pub fn advance(&mut self, outcome: &Outcome)
        ensures
            final(self)@ == old(self)@.after(outcome@),
    {
        self.step = match self.step {
            PairingStep::ExchangeToken => match outcome {
                Outcome::Answer(p) => match command::read_token(p) {
                    Ok(_) => PairingStep::StopScan,
                    Err(_) => PairingStep::Failed,
                },
                Outcome::Failure => PairingStep::Failed,
            },
            PairingStep::StopScan => PairingStep::Verify,
            PairingStep::Verify => match outcome {
                Outcome::Answer(_) => PairingStep::Paired,
                Outcome::Failure => PairingStep::Failed,
            },
            PairingStep::Paired => PairingStep::Paired,
            PairingStep::Failed => PairingStep::Failed,
        };
    }

    /// The event that tells of the pairing, when it is done.
    pub fn event(&self, dongle: &Option<String>, now: u64) -> (r: Option<DongleEvent>)
        ensures
            match r {
                Some(e) => self@.event(text::option_view(*dongle), now) == Some(e@),
                None => self@.event(text::option_view(*dongle), now) is None,
            },
    {
        match self.step {
            PairingStep::Paired => Some(
                DongleEvent {
                    mac: self.mac.clone(),
                    timestamp: now,
                    sensor_type: self.sensor_type,
                    event_type: 0,
                    data: TelemetryData::Paired { version: self.version },
                    dongle_mac: text::copy_option(dongle),
                },
            ),
            _ => None,
        }
    }
}

// ---------------------------------------------------------------------------
// Pairing by hand
// ---------------------------------------------------------------------------

/// What comes next when somebody at a terminal pairs a sensor.
#[derive(Debug, Copy, Clone, PartialEq, Eq, Structural)]
pub enum HandStep {
    StartScan,
    /// The dongle searches; a sensor has to come up.
    Wait,
    ExchangeToken,
    Verify,
    StopScan,
    Over,
}

/// A pairing by hand: the first sensor that comes up is bound, and the search ends
/// whatever came of it.
#[derive(Debug, PartialEq, Eq)]
pub struct HandPairing {
    pub step: HandStep,
    /// The sensor that came up.
    pub mac: Option<String>,
    /// The sensor gave its token.
    pub token: bool,
    /// The dongle confirmed the sensor.
    pub bound: bool,
}

/// The model of a pairing by hand.
pub struct HandView {
    pub step: HandStep,
    pub mac: Option<Seq<char>>,
    pub token: bool,
    pub bound: bool,
}

impl View for HandPairing {
    type V = HandView;

    open spec fn view(&self) -> HandView {
        HandView {
            step: self.step,
            mac: text::option_view(self.mac),
            token: self.token,
            bound: self.bound,
        }
    }
}

impl HandView {
    /// Nothing was asked yet.
    pub open spec fn start() -> HandView {
        HandView { step: HandStep::StartScan, mac: None, token: false, bound: false }
    }

    /// There is a sensor that can be asked where one is asked.
    pub open spec fn sound(self) -> bool {
        self.step is ExchangeToken || self.step is Verify ==> self.mac is Some
            && command::is_mac(self.mac->0)
    }

    /// What is asked in a step; nothing while a sensor has to come up, nor at the end.
    pub open spec fn request(self) -> Option<RequestView> {
        match self.step {
            HandStep::StartScan => Some(
                command::request_of(
                    commands::CMD_SET_SCAN,
                    seq![1u8],
                    commands::CMD_SET_SCAN_RESPONSE,
                ),
            ),
            HandStep::ExchangeToken => Some(
                command::sensor_request(
                    commands::CMD_GET_R1,
                    self.mac->0,
                    command::pairing_token(),
                    commands::CMD_R1_RESPONSE,
                ),
            ),
            HandStep::Verify => Some(
                command::sensor_request(
                    commands::CMD_VERIFY_SENSOR,
                    self.mac->0,
                    seq![0xFFu8, 0x04u8],
                    commands::CMD_VERIFY_SENSOR_RESPONSE,
                ),
            ),
            HandStep::StopScan => Some(
                command::request_of(
                    commands::CMD_SET_SCAN,
                    seq![0u8],
                    commands::CMD_SET_SCAN_RESPONSE,
                ),
            ),
            HandStep::Wait | HandStep::Over => None,
        }
    }

    /// The step behind an outcome. Without a search there is nothing to wait for; a sensor
    /// that gives no token is bound all the same if the dongle confirms it.
    pub open spec fn after(self, o: OutcomeView) -> HandView {
        match self.step {
            HandStep::StartScan => HandView {
                step: if o is Answer {
                    HandStep::Wait
                } else {
                    HandStep::Over
                },
                ..self
            },
            HandStep::ExchangeToken => HandView {
                step: HandStep::Verify,
                token: o is Answer && command::token_result(o->Answer_0) is Ok,
                ..self
            },
            HandStep::Verify => HandView {
                step: HandStep::StopScan,
                bound: o is Answer,
                ..self
            },
            HandStep::StopScan => HandView { step: HandStep::Over, ..self },
            HandStep::Wait | HandStep::Over => self,
        }
    }

    /// An event came in. The first sensor that comes up in the search is taken; one whose
    /// MAC address is not eight bytes long cannot be asked for anything.
    pub open spec fn heard(self, e: EventView) -> HandView {
        if self.step is Wait && e.data is Scanned {
            HandView {
                step: if command::is_mac(e.mac) {
                    HandStep::ExchangeToken
                } else {
                    HandStep::StopScan
                },
                mac: Some(e.mac),
                ..self
            }
        } else {
            self
        }
    }

    /// No sensor came up in time.
    pub open spec fn given_up(self) -> HandView {
        if self.step is Wait {
            HandView { step: HandStep::StopScan, ..self }
        } else {
            self
        }
    }
}

impl HandPairing {
    /// Nothing was asked yet.
    pub fn new() -> (r: Self)
        ensures
            r@ == HandView::start(),
    {
        HandPairing { step: HandStep::StartScan, mac: None, token: false, bound: false }
    }

    /// What is to be asked next.
    pub fn request(&self) -> (r: Option<Request>)
        requires
            self@.sound(),
        ensures
            match r {
                Some(q) => self@.request() == Some(q@),
                None => self@.request() is None,
            },
    {
        match self.step {
            HandStep::StartScan => Some(Engine::set_scan(true)),
            HandStep::ExchangeToken => match &self.mac {
                Some(mac) => match Engine::get_sensor_r1(mac.as_str()) {
                    Ok(q) => Some(q),
                    Err(_) => None,
                },
                None => None,
            },
            HandStep::Verify => match &self.mac {
                Some(mac) => match Engine::verify_sensor(mac.as_str()) {
                    Ok(q) => Some(q),
                    Err(_) => None,
                },
                None => None,
            },
            HandStep::StopScan => Some(Engine::set_scan(false)),
            HandStep::Wait => None,
            HandStep::Over => None,
        }
    }

    /// Takes what came of the request.
    pub fn advance(&mut self, outcome: &Outcome)
        ensures
            final(self)@ == old(self)@.after(outcome@),
    {
        match self.step {
            HandStep::StartScan => {
                self.step = match outcome {
                    Outcome::Answer(_) => HandStep::Wait,
                    Outcome::Failure => HandStep::Over,
                };
            },
            HandStep::ExchangeToken => {
                self.token = match outcome {
                    Outcome::Answer(p) => command::read_token(p).is_ok(),
                    Outcome::Failure => false,
                };
                self.step = HandStep::Verify;
            },
            HandStep::Verify => {
                self.bound = match outcome {
                    Outcome::Answer(_) => true,
                    Outcome::Failure => false,
                };
                self.step = HandStep::StopScan;
            },
            HandStep::StopScan => {
                self.step = HandStep::Over;
            },
            HandStep::Wait => {},
            HandStep::Over => {},
        }
    }

    /// Takes an event that came in.
    pub fn hear(&mut self, event: &DongleEvent)
        ensures
            final(self)@ == old(self)@.heard(event@),
    {
        match (self.step, &event.data) {
            (HandStep::Wait, TelemetryData::Scanned { .. }) => {
                self.step = if event.mac.as_str().as_bytes().len() == 8 {
                    HandStep::ExchangeToken
                } else {
                    HandStep::StopScan
                };
                self.mac = Some(event.mac.clone());
            },
            _ => {},
        }
    }

    /// No sensor came up in time.
    pub fn give_up(&mut self)
        ensures
            final(self)@ == old(self)@.given_up(),
    {
        match self.step {
            HandStep::Wait => {
                self.step = HandStep::StopScan;
            },
            _ => {},
        }
    }
}

// ---------------------------------------------------------------------------
// Laws
// ---------------------------------------------------------------------------

/// A sensor is paired exactly when it gave its token and the dongle confirmed it; how
/// the end of the scan went does not matter.
pub proof fn law_pairing_needs_token_and_confirmation(
    p: PairingView,
    token: OutcomeView,
    scan: OutcomeView,
    verify: OutcomeView,
)
    requires
        p.step is ExchangeToken,
    ensures
        p.after(token).after(scan).after(verify).step is Paired <==> {
            &&& token is Answer
            &&& command::token_result(token->Answer_0) is Ok
            &&& verify is Answer
        },
        p.after(token).after(scan).after(verify).request() is None,
{
}

/// A pairing that is over stays as it is, and a sensor keeps its address, type and
/// version through it.
pub proof fn law_pairing_ends(p: PairingView, o: OutcomeView)
    ensures
        p.request() is None ==> p.after(o) == p,
        p.after(o).mac == p.mac,
        p.after(o).sensor_type == p.sensor_type,
        p.after(o).version == p.version,
{
}

/// A pairing by hand starts out sound and stays so, whatever happens.
pub proof fn law_hand_pairing_stays_sound(p: HandView, o: OutcomeView, e: EventView)
    requires
        p.sound(),
    ensures
        HandView::start().sound(),
        p.after(o).sound(),
        p.heard(e).sound(),
        p.given_up().sound(),
{
}

/// A search that was started is always ended: nothing leads to the end of a pairing by
/// hand but the request that ends the search, or a search that never started.
pub proof fn law_search_by_hand_is_ended(p: HandView, o: OutcomeView, e: EventView)
    requires
        !(p.step is Over),
    ensures
        p.after(o).step is Over ==> p.step is StopScan || p.step is StartScan && o is Failure,
        !(p.heard(e).step is Over),
        !(p.given_up().step is Over),
{
}

/// The first sensor that comes up is the one that is paired: later events change nothing.
/// It is bound exactly when the dongle confirms it, with a token or without, and the
/// search is ended last of all.
pub proof fn law_first_sensor_is_bound_by_hand(
    p: HandView,
    first: EventView,
    later: EventView,
    token: OutcomeView,
    verify: OutcomeView,
    scan: OutcomeView,
)
    requires
        p.step is Wait,
        first.data is Scanned,
        command::is_mac(first.mac),
    ensures
        p.heard(first).heard(later) == p.heard(first),
        p.heard(first).mac == Some(first.mac),
        p.heard(first).after(token).after(verify).step is StopScan,
        p.heard(first).after(token).after(verify).after(scan) == (HandView {
            step: HandStep::Over,
            mac: Some(first.mac),
            token: token is Answer && command::token_result(token->Answer_0) is Ok,
            bound: verify is Answer,
        }),
{
}

/// What a pairing asks: the sensor for its token, then the dongle to end its search, then to
/// bind the sensor. Every request on a sensor names the sensor that is paired.
pub proof fn law_pairing_asks(p: PairingView)
    ensures
        p.step is ExchangeToken ==> p.request() == Some(command::token_request(p.mac)),
        p.step is StopScan ==> p.request() == Some(command::scan_request(false)),
        p.step is Verify ==> p.request() == Some(command::verify_request(p.mac)),
        p.step is Paired || p.step is Failed ==> p.request() is None,
{
}

/// How a pairing goes on: a token leads to the end of the search, a missing one to failure;
/// the end of the search always leads to the binding, and that succeeds with an answer and
/// fails without one.
pub proof fn law_pairing_goes_on(p: PairingView, o: OutcomeView)
    ensures
        p.step is ExchangeToken && o is Answer && o->Answer_0.payload is Bytes
            ==> p.after(o).step is StopScan,
        p.step is ExchangeToken && (o is Failure || o->Answer_0.payload is Ack)
            ==> p.after(o).step is Failed,
        p.step is StopScan ==> p.after(o).step is Verify,
        p.step is Verify && o is Answer ==> p.after(o).step is Paired,
        p.step is Verify && o is Failure ==> p.after(o).step is Failed,
{
}

/// A pairing that is done is told, of the sensor and the version that came up in the scan and
/// under the dongle that bound it; one that is not done is not told.
pub proof fn law_pairing_is_told(p: PairingView, dongle: Option<Seq<char>>, now: u64)
    ensures
        p.event(dongle, now) is Some <==> p.step is Paired,
        p.step is Paired ==> {
            let e = p.event(dongle, now)->0;
            &&& e.mac == p.mac
            &&& e.timestamp == now
            &&& e.sensor_type == p.sensor_type
            &&& e.event_type == 0
            &&& e.data == (TelemetryView::Paired { version: p.version })
            &&& e.dongle_mac == dongle
        },
{
}

/// What a pairing by hand asks: the dongle to search, the sensor that came up for its token,
/// the dongle to bind it, and the dongle to end the search.
pub proof fn law_hand_pairing_asks(p: HandView)
    ensures
        p.step is StartScan ==> p.request() == Some(command::scan_request(true)),
        p.step is ExchangeToken ==> p.request() == Some(command::token_request(p.mac->0)),
        p.step is Verify ==> p.request() == Some(command::verify_request(p.mac->0)),
        p.step is StopScan ==> p.request() == Some(command::scan_request(false)),
        p.step is Wait || p.step is Over ==> p.request() is None,
        HandView::start().step is StartScan,
        HandView::start().mac is None,
        !HandView::start().token,
        !HandView::start().bound,
{
}

/// While a pairing by hand waits, only a sensor in a scan takes it on, and only waiting can be
/// given up; a sensor whose address cannot be asked ends the search.
pub proof fn law_waiting_by_hand(p: HandView, o: OutcomeView, e: EventView)
    ensures
        p.step is StartScan && o is Answer ==> p.after(o).step is Wait,
        p.step is StartScan && o is Failure ==> p.after(o).step is Over,
        p.step is Wait && !(e.data is Scanned) ==> p.heard(e) == p,
        p.step is Wait && e.data is Scanned && encode_utf8(e.mac).len() != 8 ==> p.heard(
            e,
        ).step is StopScan,
        p.step is Wait ==> p.given_up().step is StopScan && p.given_up().mac == p.mac,
        !(p.step is Wait) ==> p.given_up() == p && p.heard(e) == p,
        p.step is Wait ==> p.after(o) == p,
{
}

/// What stands in a pairing is what its model shows, field by field.
pub proof fn law_model_of_a_pairing(p: Pairing, h: HandPairing)
    ensures
        p@.mac == p.mac@,
        p@.sensor_type == p.sensor_type,
        p@.version == p.version,
        p@.step == p.step,
        h@.step == h.step,
        h@.mac == text::option_view(h.mac),
        h@.token == h.token,
        h@.bound == h.bound,
{
}

} // verus!
