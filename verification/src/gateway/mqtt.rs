//! MQTT: the topics of the bridge, what is published on them and when, and what the
//! messages that come in ask for.
//!
//! Nothing here talks to a broker. What is to be done comes out as a list of actions.
use crate::config::sensors::SensorsConfig;
use crate::json::{DeviceInfo, DeviceView, JsonObject, JsonValue, JsonView};
use crate::protocol::discovery;
use crate::protocol::manager;
use crate::protocol::manager::{Loaded, Route, SensorManager};
use crate::protocol::sensor;
use crate::protocol::telemetry::{DongleEvent, EventView, TelemetryData};
use crate::registry::Registry;
use crate::text;
use vstd::prelude::*;
use vstd::string::*;

verus! {

// ---------------------------------------------------------------------------
// Commands
// ---------------------------------------------------------------------------

/// What a message asks of the bridge.
#[allow(inconsistent_fields)]
#[derive(Debug, Clone, PartialEq, Eq)]
pub enum GatewayCommand {
    /// Search for new sensors, or end the search.
    Scan { enable: bool, dongle_mac: String },
    /// Unbind a sensor; the dongle is looked up where none is named.
    Delete { sensor_mac: String, dongle_mac: Option<String> },
    /// Read the files again.
    Reload,
}

/// The model of a command.
#[allow(inconsistent_fields)]
pub enum CommandView {
    Scan { enable: bool, dongle_mac: Seq<char> },
    Delete { sensor_mac: Seq<char>, dongle_mac: Option<Seq<char>> },
    Reload,
}

impl View for GatewayCommand {
    type V = CommandView;

    open spec fn view(&self) -> CommandView {
        match self {
            GatewayCommand::Scan { enable, dongle_mac } => CommandView::Scan {
                enable: *enable,
                dongle_mac: dongle_mac@,
            },
            GatewayCommand::Delete { sensor_mac, dongle_mac } => CommandView::Delete {
                sensor_mac: sensor_mac@,
                dongle_mac: text::option_view(*dongle_mac),
            },
            GatewayCommand::Reload => CommandView::Reload,
        }
    }
}

/// The topic for a search that names no dongle.
pub open spec fn scan_topic(root: Seq<char>) -> Seq<char> {
    root + "/scan"@
}

pub open spec fn remove_topic(root: Seq<char>) -> Seq<char> {
    root + "/remove"@
}

pub open spec fn reload_topic(root: Seq<char>) -> Seq<char> {
    root + "/reload"@
}

/// The topics for a search by any dongle.
pub open spec fn dongle_scan_wildcard(root: Seq<char>) -> Seq<char> {
    root + "/dongle/+/scan/set"@
}

pub open spec fn dongle_prefix(root: Seq<char>) -> Seq<char> {
    root + "/dongle/"@
}

/// The topic for a search by one dongle.
pub open spec fn dongle_scan_topic(root: Seq<char>, mac: Seq<char>) -> Seq<char> {
    dongle_prefix(root) + mac + "/scan/set"@
}

fn joined(root: &str, tail: &str) -> (r: String)
    ensures
        r@ == root@ + tail@,
{
    let mut t = root.to_owned();
    t.append(tail);
    t
}

/// A topic that starts and ends like that of a search by one dongle.
pub open spec fn names_dongle_scan(root: Seq<char>, topic: Seq<char>) -> bool {
    text::has_prefix(topic, dongle_prefix(root)) && text::has_suffix(topic, "/scan/set"@)
}

/// A topic whose start and end overlap, so that it names no dongle between them.
pub open spec fn overlaps(root: Seq<char>, topic: Seq<char>) -> bool {
    &&& topic != scan_topic(root)
    &&& names_dongle_scan(root, topic)
    &&& topic.len() < dongle_prefix(root).len() + "/scan/set"@.len()
}

/// What turns a search on; anything else turns it off.
pub open spec fn says_on(payload: Seq<char>) -> bool {
    payload == "1"@ || text::same_ignoring_ascii_case(payload, "ON"@)
        || text::same_ignoring_ascii_case(payload, "true"@)
}

/// What a message asks for, if anything. A search has to name its dongle.
pub open spec fn routed(
    root: Seq<char>,
    topic: Seq<char>,
    payload: Seq<char>,
) -> Option<CommandView> {
    if topic == scan_topic(root) {
        None
    } else if names_dongle_scan(root, topic) {
        Some(
            CommandView::Scan {
                enable: says_on(payload),
                dongle_mac: topic.subrange(
                    dongle_prefix(root).len() as int,
                    topic.len() - "/scan/set"@.len(),
                ),
            },
        )
    } else if topic == remove_topic(root) {
        Some(CommandView::Delete { sensor_mac: payload, dongle_mac: None })
    } else if topic == reload_topic(root) {
        Some(CommandView::Reload)
    } else {
        None
    }
}

/// What a message asks for. The payload comes without whitespace around it.
pub fn route_message(root: &str, topic: &str, payload: &str) -> (r: Option<GatewayCommand>)
    requires
        !overlaps(root@, topic@),
    ensures
        match r {
            Some(c) => routed(root@, topic@, payload@) == Some(c@),
            None => routed(root@, topic@, payload@) is None,
        },
{
    if text::same(topic, joined(root, "/scan").as_str()) {
        return None;
    }
    let prefix = joined(root, "/dongle/");
    if text::starts_with(topic, prefix.as_str()) && text::ends_with(topic, "/scan/set") {
        let dongle_mac = text::inner(topic, prefix.as_str(), "/scan/set");
        let enable = text::same(payload, "1") || text::eq_ignore_ascii_case(payload, "ON")
            || text::eq_ignore_ascii_case(payload, "true");
        return Some(GatewayCommand::Scan { enable, dongle_mac });
    }
    if text::same(topic, joined(root, "/remove").as_str()) {
        Some(GatewayCommand::Delete { sensor_mac: payload.to_owned(), dongle_mac: None })
    } else if text::same(topic, joined(root, "/reload").as_str()) {
        Some(GatewayCommand::Reload)
    } else {
        None
    }
}

fn has_overlap(root: &str, topic: &str) -> (r: bool)
    ensures
        r == overlaps(root@, topic@),
{
    let prefix = joined(root, "/dongle/");
    let scan = joined(root, "/scan");
    if text::same(topic, scan.as_str()) || !text::starts_with(topic, prefix.as_str())
        || !text::ends_with(topic, "/scan/set") {
        return false;
    }
    let n: usize = text::chars_of(topic).len();
    let a: usize = text::chars_of(prefix.as_str()).len();
    let b: usize = text::chars_of("/scan/set").len();
    n - a < b
}

/// A topic that names no dongle where it should.
#[derive(Debug, Copy, Clone, PartialEq, Eq, Structural)]
pub struct BadTopic;

/// What a message asks for, as it came from the broker.
pub fn route_publish(root: &str, topic: &[u8], payload: &[u8]) -> (r: Result<
    Option<GatewayCommand>,
    BadTopic,
>)
    ensures
        match r {
            Ok(c) => {
                &&& !overlaps(root@, text::lossy_text(topic@))
                &&& match c {
                    Some(x) => routed(
                        root@,
                        text::lossy_text(topic@),
                        text::trimmed(text::lossy_text(payload@)),
                    ) == Some(x@),
                    None => routed(
                        root@,
                        text::lossy_text(topic@),
                        text::trimmed(text::lossy_text(payload@)),
                    ) is None,
                }
            },
            Err(_) => overlaps(root@, text::lossy_text(topic@)),
        },
{
    let t = text::from_utf8_lossy(topic);
    let p = text::trim(text::from_utf8_lossy(payload).as_str());
    if has_overlap(root, t.as_str()) {
        Err(BadTopic)
    } else {
        Ok(route_message(root, t.as_str(), p.as_str()))
    }
}

// ---------------------------------------------------------------------------
// Actions
// ---------------------------------------------------------------------------

/// What a message says.
#[derive(Debug, PartialEq, Eq)]
pub enum Body {
    Text(String),
    Object(JsonObject),
}

/// The model of a body.
pub enum BodyView {
    Text(Seq<char>),
    Object(Map<Seq<char>, JsonView>),
}

impl View for Body {
    type V = BodyView;

    open spec fn view(&self) -> BodyView {
        match self {
            Body::Text(s) => BodyView::Text(s@),
            Body::Object(o) => BodyView::Object(o@),
        }
    }
}

/// What is to be done towards the broker.
#[derive(Debug, PartialEq, Eq)]
pub enum Action {
    /// Publish a message; the broker keeps it if it is retained.
    Publish { topic: String, retain: bool, body: Body },
    Subscribe { topic: String },
    /// Wait, so that what was announced can be taken in.
    Pause { millis: u64 },
}

/// The model of an action.
pub enum ActionView {
    Publish { topic: Seq<char>, retain: bool, body: BodyView },
    Subscribe { topic: Seq<char> },
    Pause { millis: u64 },
}

impl View for Action {
    type V = ActionView;

    open spec fn view(&self) -> ActionView {
        match self {
            Action::Publish { topic, retain, body } => ActionView::Publish {
                topic: topic@,
                retain: *retain,
                body: body@,
            },
            Action::Subscribe { topic } => ActionView::Subscribe { topic: topic@ },
            Action::Pause { millis } => ActionView::Pause { millis: *millis },
        }
    }
}

/// The models of actions.
pub open spec fn actions(s: Seq<Action>) -> Seq<ActionView> {
    Seq::new(s.len(), |i: int| s[i]@)
}

fn act(out: &mut Vec<Action>, a: Action)
    ensures
        actions(final(out)@) == actions(old(out)@).push(a@),
{
    let ghost before = out@;
    out.push(a);
    proof {
        assert(actions(out@) =~= actions(before).push(a@));
    }
}

fn act_all(out: &mut Vec<Action>, more: Vec<Action>)
    ensures
        actions(final(out)@) == actions(old(out)@) + actions(more@),
{
    let ghost before = out@;
    let ghost added = more@;
    let mut rest = more;
    out.append(&mut rest);
    proof {
        assert(actions(out@) =~= actions(before) + actions(added));
    }
}

/// A text that the broker keeps.
pub open spec fn kept_text(topic: Seq<char>, s: Seq<char>) -> ActionView {
    ActionView::Publish { topic, retain: true, body: BodyView::Text(s) }
}

/// An object that the broker keeps.
pub open spec fn kept_object(topic: Seq<char>, o: Map<Seq<char>, JsonView>) -> ActionView {
    ActionView::Publish { topic, retain: true, body: BodyView::Object(o) }
}

fn keep_text(topic: String, s: &str) -> (r: Action)
    ensures
        r@ == kept_text(topic@, s@),
{
    Action::Publish { topic, retain: true, body: Body::Text(s.to_owned()) }
}

fn keep_object(topic: String, o: JsonObject) -> (r: Action)
    ensures
        r@ == kept_object(topic@, o@),
{
    Action::Publish { topic, retain: true, body: Body::Object(o) }
}

// ---------------------------------------------------------------------------
// Sensors
// ---------------------------------------------------------------------------

/// The sensors whose discovery has been published.
#[derive(Debug)]
pub struct Published {
    macs: Registry<bool>,
}

impl View for Published {
    type V = Set<Seq<char>>;

    closed spec fn view(&self) -> Set<Seq<char>> {
        self.macs@.dom()
    }
}

impl Published {
    pub closed spec fn wf(&self) -> bool {
        self.macs.wf()
    }

    pub fn new() -> (r: Self)
        ensures
            r.wf(),
            r@ == Set::<Seq<char>>::empty(),
    {
        let r = Published { macs: Registry::new() };
        proof {
            assert(r@ =~= Set::empty());
        }
        r
    }

    fn contains(&self, mac: &str) -> (r: bool)
        requires
            self.wf(),
        ensures
            r == self@.contains(mac@),
    {
        self.macs.contains_key(mac)
    }

    fn insert(&mut self, mac: &str)
        requires
            old(self).wf(),
        ensures
            final(self).wf(),
            final(self)@ == old(self)@.insert(mac@),
    {
        self.macs.insert(mac.to_owned(), true);
        proof {
            assert(self@ =~= old(self)@.insert(mac@));
        }
    }

    fn remove(&mut self, mac: &str)
        requires
            old(self).wf(),
        ensures
            final(self).wf(),
            final(self)@ == old(self)@.remove(mac@),
    {
        self.macs.remove(mac);
        proof {
            assert(self@ =~= old(self)@.remove(mac@));
        }
    }
}

/// How long Home Assistant gets to take in a discovery.
pub const SETTLE_MS: u64 = 500;

/// A discovery under a discovery root, as messages that the broker keeps.
pub open spec fn discovery_actions(
    hass: Seq<char>,
    d: Seq<(Seq<char>, Map<Seq<char>, JsonView>)>,
) -> Seq<ActionView> {
    Seq::new(d.len(), |i: int| kept_object(hass + d[i].0, d[i].1))
}

/// The discovery that is due for a sensor: all of it if it was not published, none if
/// it was or if there is nothing to show.
pub open spec fn due(
    m: manager::Sensors,
    root: Seq<char>,
    mac: Seq<char>,
    published: Set<Seq<char>>,
) -> Seq<(Seq<char>, Map<Seq<char>, JsonView>)> {
    if m.contains_key(mac) && !published.contains(mac) {
        m[mac].entities(root)
    } else {
        Seq::empty()
    }
}

/// What was published before, if it is not to be published again in any case.
pub open spec fn trusted_to_stand(
    published: Set<Seq<char>>,
    mac: Seq<char>,
    force: bool,
) -> Set<Seq<char>> {
    if force {
        published.remove(mac)
    } else {
        published
    }
}

/// What has been published when a sensor was announced.
pub open spec fn published_after(
    m: manager::Sensors,
    root: Seq<char>,
    mac: Seq<char>,
    published: Set<Seq<char>>,
    force: bool,
) -> Set<Seq<char>> {
    let p = trusted_to_stand(published, mac, force);
    if due(m, root, mac, p).len() > 0 {
        p.insert(mac)
    } else {
        p
    }
}

/// Whether a device can be reached, in words.
pub open spec fn reachability(is_online: bool) -> Seq<char> {
    if is_online {
        "online"@
    } else {
        "offline"@
    }
}

/// A sensor is announced: its discovery where that is due, then whether it can be
/// reached, then its state.
pub open spec fn sensor_actions(
    m: manager::Sensors,
    hass: Seq<char>,
    root: Seq<char>,
    mac: Seq<char>,
    is_online: bool,
    published: Set<Seq<char>>,
    force: bool,
) -> Seq<ActionView> {
    let d = due(m, root, mac, trusted_to_stand(published, mac, force));
    let settle = if d.len() > 0 {
        seq![ActionView::Pause { millis: SETTLE_MS }]
    } else {
        Seq::empty()
    };
    let status = seq![kept_text(discovery::status_topic(root, mac), reachability(is_online))];
    let state = if m.contains_key(mac) {
        seq![
            ActionView::Publish {
                topic: discovery::state_topic(root, mac),
                retain: false,
                body: BodyView::Object(m[mac].state_payload()),
            },
        ]
    } else {
        Seq::empty()
    };
    discovery_actions(hass, d) + settle + status + state
}

fn publish_discovery(payloads: Vec<(String, JsonObject)>) -> (r: Vec<Action>)
    ensures
        actions(r@) == Seq::new(
            payloads@.len(),
            |i: int| kept_object(payloads@[i].0@, payloads@[i].1@),
        ),
{
    let ghost d = discovery::announced(payloads@);
    let mut left = payloads;
    let mut r: Vec<Action> = Vec::new();
    while left.len() > 0
        invariant
            r@.len() + left@.len() == d.len(),
            forall|i: int|
                #![auto]
                0 <= i < left@.len() ==> d[r@.len() + i] == (left@[i].0@, left@[i].1@),
            forall|i: int| #![auto] 0 <= i < r@.len() ==> r@[i]@ == kept_object(d[i].0, d[i].1),
        decreases left@.len(),
    {
        let ghost before = left@;
        let ghost k = r@.len() as int;
        let (topic, o) = left.remove(0);
        r.push(keep_object(topic, o));
        proof {
            assert(d[k + 0] == (before[0].0@, before[0].1@));
            assert forall|i: int| #![auto] 0 <= i < left@.len() implies d[r@.len() + i] == (
                left@[i].0@,
                left@[i].1@,
            ) by {
                assert(left@[i] == before[i + 1]);
                assert(d[k + (i + 1)] == (before[i + 1].0@, before[i + 1].1@));
            }
        }
    }
    proof {
        assert(actions(r@) =~= Seq::new(
            payloads@.len(),
            |i: int| kept_object(payloads@[i].0@, payloads@[i].1@),
        ));
    }
    r
}

/// Announces a sensor. The discovery is published once for each sensor, and again where
/// that is forced, since a broker that was restarted may have lost it. A sensor whose
/// kind is not known has nothing to show, and does not count as published.
pub fn announce_sensor(
    manager: &SensorManager,
    hass_root: &str,
    root: &str,
    mac: &str,
    is_online: bool,
    published: &mut Published,
    force: bool,
) -> (r: Vec<Action>)
    requires
        manager.wf(),
        old(published).wf(),
    ensures
        final(published).wf(),
        final(published)@ == published_after(manager@, root@, mac@, old(published)@, force),
        actions(r@) == sensor_actions(
            manager@,
            hass_root@,
            root@,
            mac@,
            is_online,
            old(published)@,
            force,
        ),
{
    if force {
        published.remove(mac);
    }
    let ghost p = published@;
    let mut out: Vec<Action> = Vec::new();
    let known = manager.get_sensors().get(mac);
    let ghost d = due(manager@, root@, mac@, p);
    let mut first: Vec<Action> = Vec::new();
    match known {
        Some(s) => {
            if !published.contains(mac) {
                let payloads = s.get_discovery_payloads_under(hass_root, root);
                let n: usize = payloads.len();
                let ghost shown = discovery::announced(payloads@);
                first = publish_discovery(payloads);
                proof {
                    assert(shown.len() == n);
                    assert forall|i: int| 0 <= i < n implies #[trigger] actions(first@)[i]
                        == kept_object(shown[i].0, shown[i].1) by {}
                }
                if n > 0 {
                    published.insert(mac);
                    act(&mut first, Action::Pause { millis: SETTLE_MS });
                }
            }
        },
        None => {},
    }
    let ghost settle = if d.len() > 0 {
        seq![ActionView::Pause { millis: SETTLE_MS }]
    } else {
        Seq::empty()
    };
    proof {
        assert(actions(first@) =~= discovery_actions(hass_root@, d) + settle);
        assert(actions(out@) =~= Seq::empty());
    }
    act_all(&mut out, first);
    let word = if is_online {
        "online"
    } else {
        "offline"
    };
    act(&mut out, keep_text(discovery::make_status_topic(root, mac), word));
    match known {
        Some(s) => {
            act(
                &mut out,
                Action::Publish {
                    topic: discovery::make_state_topic(root, mac),
                    retain: false,
                    body: Body::Object(s.get_state_payload()),
                },
            );
        },
        None => {},
    }
    proof {
        assert(actions(out@) =~= sensor_actions(
            manager@,
            hass_root@,
            root@,
            mac@,
            is_online,
            old(published)@,
            force,
        ));
    }
    out
}

/// Whether a sensor counts as online when an event about it came in: as the event made it
/// where the event was taken, else by the event alone.
pub open spec fn online_by(m: manager::Sensors, e: EventView, took: bool) -> bool {
    if took {
        m[e.mac].is_online
    } else {
        !(e.data is Offline)
    }
}

/// Whether a sensor counts as online when an event about it was dispatched.
pub open spec fn online_after(l: Loaded, e: EventView, now: u64) -> bool {
    online_by(manager::dispatched(l, e, now).sensors, e, manager::takes(l, e, now))
}

/// An event was prepared: it changes the sensor that it is about, unless it is given up
/// because a new sensor could not be saved, and the sensor is announced. Says whether the
/// event was taken.
pub fn settle_event(
    manager: &mut SensorManager,
    event: &DongleEvent,
    route: Route,
    saved: bool,
    hass_root: &str,
    root: &str,
    published: &mut Published,
) -> (r: (bool, Vec<Action>))
    requires
        old(manager).wf(),
        old(published).wf(),
    ensures
        final(manager).wf(),
        final(published).wf(),
        final(manager).paths() == old(manager).paths(),
        ({
            let after = manager::finished(old(manager)@, event@, route, saved);
            let took = manager::finishes(old(manager)@, event@, route, saved);
            &&& final(manager)@ == after
            &&& r.0 == took
            &&& actions(r.1@) == sensor_actions(
                after,
                hass_root@,
                root@,
                event.mac@,
                online_by(after, event@, took),
                old(published)@,
                false,
            )
            &&& final(published)@ == published_after(
                after,
                root@,
                event.mac@,
                old(published)@,
                false,
            )
        }),
{
    let took = manager.finish_event(event, route, saved);
    let mut is_online: bool = match &event.data {
        TelemetryData::Offline => false,
        _ => true,
    };
    if took {
        match manager.get_sensors().get(event.mac.as_str()) {
            Some(s) => {
                is_online = s.is_online;
            },
            None => {},
        }
    }
    let out = announce_sensor(
        manager,
        hass_root,
        root,
        event.mac.as_str(),
        is_online,
        published,
        false,
    );
    (took, out)
}

/// An event came in, and nothing fails to be saved: it changes the sensor that it is about,
/// and the sensor is announced.
/// Says whether the event was taken.
pub fn handle_event(
    manager: &mut SensorManager,
    config: &mut SensorsConfig,
    event: &DongleEvent,
    now: u64,
    hass_root: &str,
    root: &str,
    published: &mut Published,
) -> (r: (bool, Vec<Action>))
    requires
        old(manager).wf(),
        old(config).sensors.wf(),
        old(published).wf(),
        manager::route_of(old(manager)@, event@) is Registered || manager::route_of(
            old(manager)@,
            event@,
        ) is Upgraded ==> manager::nameable(old(config).sensors@, event.mac@),
    ensures
        final(manager).wf(),
        final(config).sensors.wf(),
        final(published).wf(),
        final(manager).paths() == old(manager).paths(),
        ({
            let l = Loaded { sensors: old(manager)@, config: old(config).sensors@ };
            let after = manager::dispatched(l, event@, now);
            &&& final(manager)@ == after.sensors
            &&& final(config).sensors@ == after.config
            &&& r.0 == manager::takes(l, event@, now)
            &&& actions(r.1@) == sensor_actions(
                after.sensors,
                hass_root@,
                root@,
                event.mac@,
                online_after(l, event@, now),
                old(published)@,
                false,
            )
            &&& final(published)@ == published_after(
                after.sensors,
                root@,
                event.mac@,
                old(published)@,
                false,
            )
        }),
{
    let route = manager.prepare_event(event, config, now);
    settle_event(manager, event, route, true, hass_root, root, published)
}

// ---------------------------------------------------------------------------
// Dongles
// ---------------------------------------------------------------------------

/// The identifier of a dongle, from its MAC address in lower case.
pub open spec fn dongle_id(lower: Seq<char>) -> Seq<char> {
    "wyzesense_dongle_"@ + lower
}

pub open spec fn dongle_device(
    mac: Seq<char>,
    lower: Seq<char>,
    version: Seq<char>,
) -> DeviceView {
    DeviceView {
        identifiers: seq![dongle_id(lower)],
        name: "Wyze Dongle "@ + mac,
        model: "WLPP1 USB Dongle"@,
        manufacturer: "Wyze"@,
        sw_version: Some(version),
        via_device: "wyzesense2mqtt_bridge"@,
    }
}

/// The topic of a dongle's availability.
pub open spec fn dongle_status_topic(root: Seq<char>, mac: Seq<char>) -> Seq<char> {
    dongle_prefix(root) + mac + "/status"@
}

/// The topic of a dongle's state.
pub open spec fn dongle_state_topic(root: Seq<char>, mac: Seq<char>) -> Seq<char> {
    dongle_prefix(root) + mac + "/state"@
}

fn make_dongle_topic(root: &str, mac: &str, tail: &str) -> (r: String)
    ensures
        r@ == dongle_prefix(root@) + mac@ + tail@,
{
    let mut t = joined(root, "/dongle/");
    t.append(mac);
    t.append(tail);
    t
}

/// An entity of a dongle: its name, its identifier, and the topic of its state.
pub open spec fn dongle_entity(
    mac: Seq<char>,
    lower: Seq<char>,
    version: Seq<char>,
    name: Seq<char>,
    key: Seq<char>,
    state: Seq<char>,
) -> Map<Seq<char>, JsonView> {
    Map::<Seq<char>, JsonView>::empty().insert("name"@, JsonView::Text(name)).insert(
        "unique_id"@,
        JsonView::Text(dongle_id(lower) + key),
    ).insert("state_topic"@, JsonView::Text(state)).insert(
        "device"@,
        JsonView::Device(dongle_device(mac, lower, version)),
    )
}

/// Whether the dongle is connected.
pub open spec fn dongle_status_config(
    root: Seq<char>,
    mac: Seq<char>,
    lower: Seq<char>,
    version: Seq<char>,
) -> Map<Seq<char>, JsonView> {
    dongle_entity(mac, lower, version, "Status"@, "_status"@, dongle_status_topic(root, mac)).insert(
        "device_class"@,
        JsonView::Text("connectivity"@),
    ).insert("payload_on"@, JsonView::Text("online"@)).insert(
        "payload_off"@,
        JsonView::Text("offline"@),
    ).insert("entity_category"@, JsonView::Text("diagnostic"@))
}

/// A value out of the dongle's state, for the diagnostics page.
pub open spec fn dongle_value_config(
    root: Seq<char>,
    mac: Seq<char>,
    lower: Seq<char>,
    version: Seq<char>,
    name: Seq<char>,
    key: Seq<char>,
    template: Seq<char>,
    icon: Seq<char>,
) -> Map<Seq<char>, JsonView> {
    dongle_entity(mac, lower, version, name, key, dongle_state_topic(root, mac)).insert(
        "value_template"@,
        JsonView::Text(template),
    ).insert("icon"@, JsonView::Text(icon)).insert(
        "entity_category"@,
        JsonView::Text("diagnostic"@),
    )
}

/// The switch that turns the search for sensors on and off.
pub open spec fn dongle_scan_config(
    root: Seq<char>,
    mac: Seq<char>,
    lower: Seq<char>,
    version: Seq<char>,
) -> Map<Seq<char>, JsonView> {
    dongle_entity(mac, lower, version, "Scan Mode"@, "_scan"@, dongle_state_topic(root, mac)).insert(
        "value_template"@,
        JsonView::Text("{{ value_json.scanning }}"@),
    ).insert("command_topic"@, JsonView::Text(dongle_scan_topic(root, mac))).insert(
        "payload_on"@,
        JsonView::Text("ON"@),
    ).insert("payload_off"@, JsonView::Text("OFF"@)).insert(
        "state_on"@,
        JsonView::Text("true"@),
    ).insert("state_off"@, JsonView::Text("false"@)).insert(
        "icon"@,
        JsonView::Text("mdi:magnify-scan"@),
    )
}

/// The state of a dongle that has just been announced.
pub open spec fn dongle_state(version: Seq<char>) -> Map<Seq<char>, JsonView> {
    Map::<Seq<char>, JsonView>::empty().insert("version"@, JsonView::Text(version)).insert(
        "sensor_count"@,
        JsonView::Int(0),
    ).insert("scanning"@, JsonView::Bool(false))
}

/// A dongle is announced: its four entities, that it is there, and its state.
pub open spec fn dongle_actions(
    hass: Seq<char>,
    root: Seq<char>,
    mac: Seq<char>,
    lower: Seq<char>,
    version: Seq<char>,
) -> Seq<ActionView> {
    let id = dongle_id(lower);
    seq![
        kept_object(
            hass + discovery::config_path("binary_sensor"@, id, "status"@),
            dongle_status_config(root, mac, lower, version),
        ),
        kept_object(
            hass + discovery::config_path("sensor"@, id, "firmware"@),
            dongle_value_config(
                root,
                mac,
                lower,
                version,
                "Firmware Version"@,
                "_firmware"@,
                "{{ value_json.version }}"@,
                "mdi:chip"@,
            ),
        ),
        kept_object(
            hass + discovery::config_path("sensor"@, id, "sensor_count"@),
            dongle_value_config(
                root,
                mac,
                lower,
                version,
                "Connected Sensors"@,
                "_sensor_count"@,
                "{{ value_json.sensor_count }}"@,
                "mdi:counter"@,
            ),
        ),
        kept_object(
            hass + discovery::config_path("switch"@, id, "scan"@),
            dongle_scan_config(root, mac, lower, version),
        ),
        kept_text(dongle_status_topic(root, mac), "online"@),
        kept_object(dongle_state_topic(root, mac), dongle_state(version)),
    ]
}

fn make_dongle_id(lower: &str) -> (r: String)
    ensures
        r@ == dongle_id(lower@),
{
    joined("wyzesense_dongle_", lower)
}

fn make_dongle_device(mac: &str, lower: &str, version: &str) -> (r: DeviceInfo)
    ensures
        r@ == dongle_device(mac@, lower@, version@),
{
    let mut identifiers: Vec<String> = Vec::new();
    identifiers.push(make_dongle_id(lower));
    let mut name = "Wyze Dongle ".to_owned();
    name.append(mac);
    let r = DeviceInfo {
        identifiers,
        name,
        model: "WLPP1 USB Dongle".to_owned(),
        manufacturer: "Wyze".to_owned(),
        sw_version: Some(version.to_owned()),
        via_device: "wyzesense2mqtt_bridge".to_owned(),
    };
    proof {
        assert(r@.identifiers =~= seq![dongle_id(lower@)]);
    }
    r
}

fn make_dongle_entity(
    mac: &str,
    lower: &str,
    version: &str,
    name: &str,
    key: &str,
    state: String,
) -> (r: JsonObject)
    ensures
        r@ == dongle_entity(mac@, lower@, version@, name@, key@, state@),
{
    let mut o = JsonObject::new();
    o.set_text("name", name);
    let mut id = make_dongle_id(lower);
    id.append(key);
    o.set_text("unique_id", id.as_str());
    o.set_text("state_topic", state.as_str());
    o.set("device", JsonValue::Device(make_dongle_device(mac, lower, version)));
    o
}

fn make_dongle_value(
    root: &str,
    mac: &str,
    lower: &str,
    version: &str,
    name: &str,
    key: &str,
    template: &str,
    icon: &str,
) -> (r: JsonObject)
    ensures
        r@ == dongle_value_config(root@, mac@, lower@, version@, name@, key@, template@, icon@),
{
    let mut o = make_dongle_entity(
        mac,
        lower,
        version,
        name,
        key,
        make_dongle_topic(root, mac, "/state"),
    );
    o.set_text("value_template", template);
    o.set_text("icon", icon);
    o.set_text("entity_category", "diagnostic");
    o
}

/// The topic on which an entity of a dongle is announced.
fn make_dongle_config(hass_root: &str, component: &str, id: &str, key: &str) -> (r: String)
    ensures
        r@ == hass_root@ + discovery::config_path(component@, id@, key@),
{
    discovery::make_topic_under(
        hass_root,
        discovery::make_config_path(component, id, key).as_str(),
    )
}

/// Announces a dongle, whose MAC address is given also in lower case.
pub fn dongle_discovery(
    hass_root: &str,
    root: &str,
    mac: &str,
    lower: &str,
    version: &str,
) -> (r: Vec<Action>)
    ensures
        actions(r@) == dongle_actions(hass_root@, root@, mac@, lower@, version@),
{
    let id = make_dongle_id(lower);
    let mut status = make_dongle_entity(
        mac,
        lower,
        version,
        "Status",
        "_status",
        make_dongle_topic(root, mac, "/status"),
    );
    status.set_text("device_class", "connectivity");
    status.set_text("payload_on", "online");
    status.set_text("payload_off", "offline");
    status.set_text("entity_category", "diagnostic");
    let firmware = make_dongle_value(
        root,
        mac,
        lower,
        version,
        "Firmware Version",
        "_firmware",
        "{{ value_json.version }}",
        "mdi:chip",
    );
    let count = make_dongle_value(
        root,
        mac,
        lower,
        version,
        "Connected Sensors",
        "_sensor_count",
        "{{ value_json.sensor_count }}",
        "mdi:counter",
    );
    let mut scan = make_dongle_entity(
        mac,
        lower,
        version,
        "Scan Mode",
        "_scan",
        make_dongle_topic(root, mac, "/state"),
    );
    scan.set_text("value_template", "{{ value_json.scanning }}");
    scan.set_text("command_topic", make_dongle_topic(root, mac, "/scan/set").as_str());
    scan.set_text("payload_on", "ON");
    scan.set_text("payload_off", "OFF");
    scan.set_text("state_on", "true");
    scan.set_text("state_off", "false");
    scan.set_text("icon", "mdi:magnify-scan");
    let mut state = JsonObject::new();
    state.set_text("version", version);
    state.set("sensor_count", JsonValue::Int(0));
    state.set("scanning", JsonValue::Bool(false));
    let mut out: Vec<Action> = Vec::new();
    let id = id.as_str();
    out.push(keep_object(make_dongle_config(hass_root, "binary_sensor", id, "status"), status));
    out.push(keep_object(make_dongle_config(hass_root, "sensor", id, "firmware"), firmware));
    out.push(keep_object(make_dongle_config(hass_root, "sensor", id, "sensor_count"), count));
    out.push(keep_object(make_dongle_config(hass_root, "switch", id, "scan"), scan));
    out.push(keep_text(make_dongle_topic(root, mac, "/status"), "online"));
    out.push(keep_object(make_dongle_topic(root, mac, "/state"), state));
    proof {
        assert(actions(out@) =~= dongle_actions(hass_root@, root@, mac@, lower@, version@));
    }
    out
}

/// Announces a dongle.
pub fn publish_dongle_discovery(
    hass_root: &str,
    root: &str,
    mac: &str,
    version: &str,
) -> (r: Vec<Action>)
    ensures
        actions(r@) == dongle_actions(
            hass_root@,
            root@,
            mac@,
            text::lowercase(mac@),
            version@,
        ),
{
    dongle_discovery(hass_root, root, mac, text::to_lowercase(mac).as_str(), version)
}

// ---------------------------------------------------------------------------
// Connecting
// ---------------------------------------------------------------------------

/// How long the broker keeps the session of a bridge that is gone, in seconds.
pub const SESSION_EXPIRY_SECS: u32 = 900;

/// What the broker is to say when the bridge is gone.
#[derive(Debug, PartialEq, Eq)]
pub struct Will {
    pub topic: String,
    pub payload: String,
    pub retain: bool,
    /// How long the broker waits before it says so, in seconds.
    pub delay_secs: u32,
}

/// The message that the broker is to say when the bridge is gone.
pub open spec fn will_message(root: Seq<char>) -> ActionView {
    ActionView::Publish {
        topic: discovery::bridge_status_topic(root),
        retain: true,
        body: BodyView::Text("offline"@),
    }
}

/// The will of the bridge. It is said so late that a restart passes unnoticed, and while
/// the broker still keeps the session.
pub fn last_will(root: &str) -> (r: Will)
    ensures
        r.topic@ == discovery::bridge_status_topic(root@),
        r.topic@ == root@ + "/status"@,
        r.payload@ == "offline"@,
        r.retain,
        will_message(root@) == (ActionView::Publish {
            topic: r.topic@,
            retain: r.retain,
            body: BodyView::Text(r.payload@),
        }),
        r.delay_secs == 600,
        r.delay_secs < SESSION_EXPIRY_SECS,
{
    Will {
        topic: discovery::make_bridge_status_topic(root),
        payload: "offline".to_owned(),
        retain: true,
        delay_secs: 600,
    }
}

/// What comes first on every connect: that the bridge is there, and what it listens to.
pub open spec fn greeting_actions(root: Seq<char>) -> Seq<ActionView> {
    seq![
        kept_text(discovery::bridge_status_topic(root), "online"@),
        ActionView::Subscribe { topic: scan_topic(root) },
        ActionView::Subscribe { topic: remove_topic(root) },
        ActionView::Subscribe { topic: reload_topic(root) },
        ActionView::Subscribe { topic: dongle_scan_wildcard(root) },
    ]
}

/// The dongles with their firmware versions.
pub open spec fn dongle_list(s: Seq<(String, Option<String>)>) -> Seq<
    (Seq<char>, Option<Seq<char>>),
> {
    Seq::new(s.len(), |i: int| (s[i].0@, text::option_view(s[i].1)))
}

/// All dongles are announced.
pub open spec fn dongles_actions(
    hass: Seq<char>,
    root: Seq<char>,
    dongles: Seq<(Seq<char>, Option<Seq<char>>)>,
) -> Seq<ActionView>
    decreases dongles.len(),
{
    if dongles.len() == 0 {
        Seq::empty()
    } else {
        dongles_actions(hass, root, dongles.drop_last()) + dongle_actions(
            hass,
            root,
            dongles.last().0,
            text::lowercase(dongles.last().0),
            match dongles.last().1 {
                Some(v) => v,
                None => "unknown"@,
            },
        )
    }
}

/// All sensors are announced, whatever was published before.
pub open spec fn sensors_actions(
    m: manager::Sensors,
    hass: Seq<char>,
    root: Seq<char>,
    keys: Seq<Seq<char>>,
    published: Set<Seq<char>>,
) -> (Seq<ActionView>, Set<Seq<char>>)
    decreases keys.len(),
{
    if keys.len() == 0 {
        (Seq::empty(), published)
    } else {
        let (a, p) = sensors_actions(m, hass, root, keys.drop_last(), published);
        let k = keys.last();
        (
            a + sensor_actions(m, hass, root, k, m[k].is_online, p, true),
            published_after(m, root, k, p, true),
        )
    }
}

/// What is done on every connect, the first and any later one.
pub fn announce_on_connect(
    manager: &SensorManager,
    hass_root: &str,
    root: &str,
    dongles: &[(String, Option<String>)],
    published: &mut Published,
) -> (r: Vec<Action>)
    requires
        manager.wf(),
        old(published).wf(),
    ensures
        final(published).wf(),
        ({
            let (s, p) = sensors_actions(
                manager@,
                hass_root@,
                root@,
                manager.keys(),
                old(published)@,
            );
            &&& actions(r@) == greeting_actions(root@) + dongles_actions(
                hass_root@,
                root@,
                dongle_list(dongles@),
            ) + s
            &&& final(published)@ == p
        }),
{
    let mut out: Vec<Action> = Vec::new();
    out.push(keep_text(discovery::make_bridge_status_topic(root), "online"));
    out.push(Action::Subscribe { topic: joined(root, "/scan") });
    out.push(Action::Subscribe { topic: joined(root, "/remove") });
    out.push(Action::Subscribe { topic: joined(root, "/reload") });
    out.push(Action::Subscribe { topic: joined(root, "/dongle/+/scan/set") });
    let ghost greeting = greeting_actions(root@);
    let ghost list = dongle_list(dongles@);
    proof {
        assert(actions(out@) =~= greeting);
        assert(greeting + dongles_actions(hass_root@, root@, list.subrange(0, 0)) =~= greeting);
    }
    let mut i: usize = 0;
    while i < dongles.len()
        invariant
            i <= dongles@.len(),
            list == dongle_list(dongles@),
            actions(out@) == greeting + dongles_actions(hass_root@, root@, list.subrange(0, i as int)),
        decreases dongles@.len() - i,
    {
        let version: &str = match &dongles[i].1 {
            Some(v) => v.as_str(),
            None => "unknown",
        };
        let more = publish_dongle_discovery(hass_root, root, dongles[i].0.as_str(), version);
        proof {
            let w = list.subrange(0, i + 1);
            assert(w.drop_last() =~= list.subrange(0, i as int));
            assert(w.last() == list[i as int]);
        }
        act_all(&mut out, more);
        i += 1;
        proof {
            assert(actions(out@) =~= greeting + dongles_actions(
                hass_root@,
                root@,
                list.subrange(0, i as int),
            ));
        }
    }
    proof {
        assert(list.subrange(0, list.len() as int) =~= list);
    }
    let ghost head = actions(out@);
    let ghost keys = manager.keys();
    let sensors = manager.get_sensors();
    let mut j: usize = 0;
    proof {
        assert(head + Seq::<ActionView>::empty() =~= head);
        assert(keys.subrange(0, 0) =~= Seq::<Seq<char>>::empty());
    }
    while j < sensors.len()
        invariant
            manager.wf(),
            sensors.wf(),
            sensors@ == manager@,
            sensors.keys() == keys,
            published.wf(),
            j <= keys.len(),
            actions(out@) == head + sensors_actions(
                manager@,
                hass_root@,
                root@,
                keys.subrange(0, j as int),
                old(published)@,
            ).0,
            published@ == sensors_actions(
                manager@,
                hass_root@,
                root@,
                keys.subrange(0, j as int),
                old(published)@,
            ).1,
        decreases keys.len() - j,
    {
        proof {
            let w = keys.subrange(0, j + 1);
            assert(w.drop_last() =~= keys.subrange(0, j as int));
            assert(w.last() == keys[j as int]);
        }
        let more = announce_sensor(
            manager,
            hass_root,
            root,
            sensors.key(j),
            sensors.value(j).is_online,
            published,
            true,
        );
        act_all(&mut out, more);
        j += 1;
        proof {
            assert(actions(out@) =~= head + sensors_actions(
                manager@,
                hass_root@,
                root@,
                keys.subrange(0, j as int),
                old(published)@,
            ).0);
        }
    }
    proof {
        assert(keys.subrange(0, keys.len() as int) =~= keys);
    }
    out
}

// ---------------------------------------------------------------------------
// Laws
// ---------------------------------------------------------------------------

proof fn lemma_scan_topics_differ(root: Seq<char>, mac: Seq<char>)
    ensures
        dongle_scan_topic(root, mac) != scan_topic(root),
{
    reveal_strlit("/dongle/");
    reveal_strlit("/scan");
    let n = root.len() as int;
    assert(dongle_scan_topic(root, mac)[n + 1] == 'd');
    assert(scan_topic(root)[n + 1] == 's');
}

/// A message on the scan topic of a dongle asks that dongle, and no other, to search or
/// to end its search.
pub proof fn law_scan_names_its_dongle(root: Seq<char>, mac: Seq<char>, payload: Seq<char>)
    ensures
        !overlaps(root, dongle_scan_topic(root, mac)),
        routed(root, dongle_scan_topic(root, mac), payload) == Some(
            CommandView::Scan { enable: says_on(payload), dongle_mac: mac },
        ),
{
    let t = dongle_scan_topic(root, mac);
    let p = dongle_prefix(root);
    lemma_scan_topics_differ(root, mac);
    assert(t.subrange(0, p.len() as int) =~= p);
    assert(t.subrange(t.len() - "/scan/set"@.len(), t.len() as int) =~= "/scan/set"@);
    assert(t.subrange(p.len() as int, t.len() - "/scan/set"@.len()) =~= mac);
}

/// A search that names no dongle is not started, whatever the message says.
pub proof fn law_scan_without_dongle_is_ignored(root: Seq<char>, payload: Seq<char>)
    ensures
        routed(root, scan_topic(root), payload) is None,
{
}

proof fn lemma_not_a_scan(root: Seq<char>, tail: Seq<char>)
    requires
        tail.len() >= 2,
        tail[1] == 'r',
    ensures
        !text::has_prefix(root + tail, dongle_prefix(root)),
        root + tail != scan_topic(root),
{
    reveal_strlit("/dongle/");
    reveal_strlit("/scan");
    let n = root.len() as int;
    let t = root + tail;
    assert(t[n + 1] == 'r');
    assert(scan_topic(root)[n + 1] == 's');
    if text::has_prefix(t, dongle_prefix(root)) {
        assert(t.subrange(0, dongle_prefix(root).len() as int)[n + 1] == 'r');
        assert(dongle_prefix(root)[n + 1] == 'd');
    }
}

/// A message on the remove topic asks for the sensor that it names to be unbound; one on
/// the reload topic asks for a reload.
pub proof fn law_remove_and_reload(root: Seq<char>, payload: Seq<char>)
    ensures
        routed(root, remove_topic(root), payload) == Some(
            CommandView::Delete { sensor_mac: payload, dongle_mac: None },
        ),
        routed(root, reload_topic(root), payload) == Some(CommandView::Reload),
{
    reveal_strlit("/remove");
    reveal_strlit("/reload");
    lemma_not_a_scan(root, "/remove"@);
    lemma_not_a_scan(root, "/reload"@);
    let n = root.len() as int;
    assert(remove_topic(root)[n + 3] == 'm');
    assert(reload_topic(root)[n + 3] == 'l');
}

/// A discovery is published once: the next announcement of the sensor holds only its
/// status and its state.
pub proof fn law_discovery_is_published_once(
    m: manager::Sensors,
    hass: Seq<char>,
    root: Seq<char>,
    mac: Seq<char>,
    is_online: bool,
    published: Set<Seq<char>>,
    force: bool,
)
    requires
        m.contains_key(mac),
        m[mac].entities(root).len() > 0,
    ensures
        ({
            let p = published_after(m, root, mac, published, force);
            &&& p.contains(mac)
            &&& sensor_actions(m, hass, root, mac, is_online, p, false) == seq![
                kept_text(discovery::status_topic(root, mac), reachability(is_online)),
                ActionView::Publish {
                    topic: discovery::state_topic(root, mac),
                    retain: false,
                    body: BodyView::Object(m[mac].state_payload()),
                },
            ]
        }),
{
    let p = published_after(m, root, mac, published, force);
    assert(p.contains(mac));
    assert(discovery_actions(hass, Seq::empty()) =~= Seq::empty());
    assert(sensor_actions(m, hass, root, mac, is_online, p, false) =~= seq![
        kept_text(discovery::status_topic(root, mac), reachability(is_online)),
        ActionView::Publish {
            topic: discovery::state_topic(root, mac),
            retain: false,
            body: BodyView::Object(m[mac].state_payload()),
        },
    ]);
}

/// A sensor with nothing to show does not count as published, so that its discovery is
/// due as soon as its kind is known.
pub proof fn law_nothing_to_show_is_not_published(
    m: manager::Sensors,
    later: manager::Sensors,
    root: Seq<char>,
    mac: Seq<char>,
    published: Set<Seq<char>>,
    force: bool,
)
    requires
        m.contains_key(mac),
        m[mac].entities(root).len() == 0,
        later.contains_key(mac),
        !published.contains(mac),
    ensures
        ({
            let p = published_after(m, root, mac, published, force);
            &&& !p.contains(mac)
            &&& due(later, root, mac, p) == later[mac].entities(root)
        }),
{
}

/// On a connect every sensor is announced with its discovery, whatever was published
/// before.
pub proof fn law_connect_announces_discovery(
    m: manager::Sensors,
    hass: Seq<char>,
    root: Seq<char>,
    mac: Seq<char>,
    is_online: bool,
    published: Set<Seq<char>>,
    i: int,
)
    requires
        m.contains_key(mac),
        0 <= i < m[mac].discovery_under(hass, root).len(),
    ensures
        sensor_actions(m, hass, root, mac, is_online, published, true)[i] == kept_object(
            m[mac].discovery_under(hass, root)[i].0,
            m[mac].discovery_under(hass, root)[i].1,
        ),
{
}

/// Nothing is published twice over by two sensors: what one announcement marks as
/// published is the sensor that it announces.
pub proof fn law_announcement_marks_its_sensor(
    m: manager::Sensors,
    root: Seq<char>,
    mac: Seq<char>,
    published: Set<Seq<char>>,
    force: bool,
    other: Seq<char>,
)
    requires
        other != mac,
    ensures
        published_after(m, root, mac, published, force).contains(other) == published.contains(
            other,
        ),
{
}

/// The messages that actions publish on a topic, in order, each with whether the broker
/// keeps it.
pub open spec fn messages_on(a: Seq<ActionView>, topic: Seq<char>) -> Seq<(bool, BodyView)>
    decreases a.len(),
{
    if a.len() == 0 {
        Seq::empty()
    } else {
        let before = messages_on(a.drop_last(), topic);
        match a.last() {
            ActionView::Publish { topic: t, retain, body } => if t == topic {
                before.push((retain, body))
            } else {
                before
            },
            _ => before,
        }
    }
}

proof fn lemma_messages_append(a: Seq<ActionView>, b: Seq<ActionView>, topic: Seq<char>)
    ensures
        messages_on(a + b, topic) == messages_on(a, topic) + messages_on(b, topic),
    decreases b.len(),
{
    if b.len() == 0 {
        assert(a + b =~= a);
        assert(messages_on(a, topic) + messages_on(b, topic) =~= messages_on(a, topic));
    } else {
        lemma_messages_append(a, b.drop_last(), topic);
        assert((a + b).drop_last() =~= a + b.drop_last());
        assert((a + b).last() == b.last());
        assert(messages_on(a + b, topic) =~= messages_on(a, topic) + messages_on(b, topic));
    }
}

/// Whether an action publishes on a topic.
pub open spec fn publishes_on(a: ActionView, topic: Seq<char>) -> bool {
    a matches ActionView::Publish { topic: t, .. } && t == topic
}

proof fn lemma_no_messages(a: Seq<ActionView>, topic: Seq<char>)
    requires
        forall|i: int| 0 <= i < a.len() ==> !publishes_on(#[trigger] a[i], topic),
    ensures
        messages_on(a, topic) == Seq::<(bool, BodyView)>::empty(),
    decreases a.len(),
{
    if a.len() > 0 {
        assert forall|i: int| 0 <= i < a.drop_last().len() implies !publishes_on(
            #[trigger] a.drop_last()[i],
            topic,
        ) by {
            assert(a.drop_last()[i] == a[i]);
        }
        lemma_no_messages(a.drop_last(), topic);
        assert(!publishes_on(a[a.len() - 1], topic));
    }
}

/// A discovery topic is never one on which availability is told: the two end differently.
proof fn lemma_config_is_no_status(
    hass: Seq<char>,
    root: Seq<char>,
    mac: Seq<char>,
    component: Seq<char>,
    id: Seq<char>,
    key: Seq<char>,
)
    ensures
        hass + discovery::config_path(component, id, key) != discovery::status_topic(root, mac),
{
    reveal_strlit("/config");
    reveal_strlit("/status");
    let a = hass + discovery::config_path(component, id, key);
    let b = discovery::status_topic(root, mac);
    assert(a[a.len() - 1] == 'g');
    assert(b[b.len() - 1] == 's');
}

proof fn lemma_discovery_tells_no_status(
    m: manager::Sensors,
    hass: Seq<char>,
    root: Seq<char>,
    k: Seq<char>,
    mac: Seq<char>,
)
    ensures
        messages_on(discovery_actions(hass, m[k].entities(root)), discovery::status_topic(root, mac))
            == Seq::<(bool, BodyView)>::empty(),
{
    let d = m[k].entities(root);
    let a = discovery_actions(hass, d);
    let topic = discovery::status_topic(root, mac);
    assert forall|i: int| 0 <= i < a.len() implies !publishes_on(#[trigger] a[i], topic) by {
        discovery::law_entity_topics(m[k], root, i);
        let (component, key) = choose|component: Seq<char>, key: Seq<char>|
            d[i].0 == #[trigger] discovery::config_path(component, m[k].device_id(), key);
        lemma_config_is_no_status(hass, root, mac, component, m[k].device_id(), key);
    }
    lemma_no_messages(a, topic);
}

proof fn lemma_status_topics(root: Seq<char>, k: Seq<char>, mac: Seq<char>)
    ensures
        discovery::status_topic(root, k) == discovery::status_topic(root, mac) ==> k == mac,
        discovery::state_topic(root, k) == discovery::status_topic(root, mac) ==> k == mac
            + "/status"@,
        discovery::state_topic(root, mac) != discovery::status_topic(root, mac),
        discovery::bridge_status_topic(root) != discovery::status_topic(root, mac),
        dongle_status_topic(root, k) == discovery::status_topic(root, mac) ==> mac == "dongle/"@
            + k,
        dongle_state_topic(root, k) != discovery::status_topic(root, mac),
{
    reveal_strlit("/");
    reveal_strlit("/status");
    reveal_strlit("/state");
    reveal_strlit("/dongle/");
    reveal_strlit("dongle/");
    let n = root.len() as int;
    let t = discovery::status_topic(root, mac);
    assert(t.subrange(n + 1, n + 1 + mac.len()) =~= mac);
    assert(t.subrange(n + 1, t.len() as int) =~= mac + "/status"@);
    let a = discovery::status_topic(root, k);
    assert(a.subrange(n + 1, n + 1 + k.len()) =~= k);
    let b = discovery::state_topic(root, k);
    assert(b.subrange(n + 1, b.len() as int) =~= k);
    assert(discovery::state_topic(root, mac).len() < t.len());
    assert(discovery::bridge_status_topic(root).len() < t.len());
    let c = dongle_status_topic(root, k);
    assert(c.subrange(n + 1, c.len() - 7) =~= "dongle/"@ + k);
    let d = dongle_state_topic(root, k);
    assert(d[d.len() - 1] == 'e');
    assert(t[t.len() - 1] == 's');
}

/// Whatever else is done when a sensor is announced, on the topic of its availability one
/// message is published, which the broker keeps: `online` or `offline`, as the sensor is.
pub proof fn law_announcement_tells_availability(
    m: manager::Sensors,
    hass: Seq<char>,
    root: Seq<char>,
    mac: Seq<char>,
    is_online: bool,
    published: Set<Seq<char>>,
    force: bool,
)
    ensures
        messages_on(
            sensor_actions(m, hass, root, mac, is_online, published, force),
            root + "/"@ + mac + "/status"@,
        ) == seq![
            (
                true,
                BodyView::Text(
                    if is_online {
                        "online"@
                    } else {
                        "offline"@
                    },
                ),
            ),
        ],
{
    reveal_strlit("/status");
    assert((mac + "/status"@).len() > mac.len());
    lemma_announcement_tells(m, hass, root, mac, mac, is_online, published, force);
}

/// What the announcement of the sensor `k` tells of the availability of the sensor `mac`:
/// nothing, unless they are the same.
proof fn lemma_announcement_tells(
    m: manager::Sensors,
    hass: Seq<char>,
    root: Seq<char>,
    k: Seq<char>,
    mac: Seq<char>,
    is_online: bool,
    published: Set<Seq<char>>,
    force: bool,
)
    requires
        k != mac + "/status"@,
    ensures
        messages_on(
            sensor_actions(m, hass, root, k, is_online, published, force),
            discovery::status_topic(root, mac),
        ) == if k == mac {
            seq![(true, BodyView::Text(reachability(is_online)))]
        } else {
            Seq::empty()
        },
{
    let topic = discovery::status_topic(root, mac);
    let d = due(m, root, k, trusted_to_stand(published, k, force));
    let first = discovery_actions(hass, d);
    let settle = if d.len() > 0 {
        seq![ActionView::Pause { millis: SETTLE_MS }]
    } else {
        Seq::empty()
    };
    let status = seq![kept_text(discovery::status_topic(root, k), reachability(is_online))];
    let state = if m.contains_key(k) {
        seq![
            ActionView::Publish {
                topic: discovery::state_topic(root, k),
                retain: false,
                body: BodyView::Object(m[k].state_payload()),
            },
        ]
    } else {
        Seq::empty()
    };
    lemma_status_topics(root, k, mac);
    if m.contains_key(k) && !trusted_to_stand(published, k, force).contains(k) {
        lemma_discovery_tells_no_status(m, hass, root, k, mac);
    } else {
        lemma_no_messages(first, topic);
    }
    lemma_no_messages(settle, topic);
    lemma_no_messages(state, topic);
    assert(status.drop_last() =~= Seq::<ActionView>::empty());
    assert(messages_on(status.drop_last(), topic) =~= Seq::<(bool, BodyView)>::empty());
    let told = if k == mac {
        seq![(true, BodyView::Text(reachability(is_online)))]
    } else {
        Seq::empty()
    };
    assert(messages_on(status, topic) =~= told);
    lemma_messages_append(first, settle, topic);
    lemma_messages_append(first + settle, status, topic);
    lemma_messages_append(first + settle + status, state, topic);
    assert(messages_on(first + settle + status + state, topic) =~= told);
}

proof fn lemma_sensors_tell(
    m: manager::Sensors,
    hass: Seq<char>,
    root: Seq<char>,
    keys: Seq<Seq<char>>,
    published: Set<Seq<char>>,
    mac: Seq<char>,
)
    requires
        keys.no_duplicates(),
        !keys.contains(mac + "/status"@),
    ensures
        messages_on(
            sensors_actions(m, hass, root, keys, published).0,
            discovery::status_topic(root, mac),
        ) == if keys.contains(mac) {
            seq![(true, BodyView::Text(reachability(m[mac].is_online)))]
        } else {
            Seq::empty()
        },
    decreases keys.len(),
{
    let topic = discovery::status_topic(root, mac);
    if keys.len() > 0 {
        let d = keys.drop_last();
        let k = keys.last();
        assert(keys[keys.len() - 1] == k);
        assert(keys.contains(k));
        assert forall|x: Seq<char>| keys.contains(x) == (#[trigger] d.contains(x) || x == k) by {
            if d.contains(x) {
                assert(keys[d.index_of(x)] == x);
            }
            if keys.contains(x) && x != k {
                assert(d[keys.index_of(x)] == x);
            }
        }
        assert(!d.contains(k)) by {
            if d.contains(k) {
                assert(keys[d.index_of(k)] == keys[keys.len() - 1]);
            }
        }
        assert(keys.contains(mac) == (d.contains(mac) || mac == k));
        assert(!d.contains(mac + "/status"@)) by {
            assert(keys.contains(mac + "/status"@) == (d.contains(mac + "/status"@) || mac
                + "/status"@ == k));
        }
        lemma_sensors_tell(m, hass, root, d, published, mac);
        let (a, p) = sensors_actions(m, hass, root, d, published);
        lemma_announcement_tells(m, hass, root, k, mac, m[k].is_online, p, true);
        lemma_messages_append(
            a,
            sensor_actions(m, hass, root, k, m[k].is_online, p, true),
            topic,
        );
        assert(messages_on(sensors_actions(m, hass, root, keys, published).0, topic) =~= if keys.contains(mac) {
            seq![(true, BodyView::Text(reachability(m[mac].is_online)))]
        } else {
            Seq::empty()
        });
    }
}

proof fn lemma_dongles_tell_no_sensor(
    hass: Seq<char>,
    root: Seq<char>,
    dongles: Seq<(Seq<char>, Option<Seq<char>>)>,
    mac: Seq<char>,
)
    requires
        forall|i: int| 0 <= i < dongles.len() ==> mac != "dongle/"@ + (#[trigger] dongles[i]).0,
    ensures
        messages_on(dongles_actions(hass, root, dongles), discovery::status_topic(root, mac))
            == Seq::<(bool, BodyView)>::empty(),
    decreases dongles.len(),
{
    let topic = discovery::status_topic(root, mac);
    if dongles.len() > 0 {
        let d = dongles.drop_last();
        let x = dongles.last();
        assert(mac != "dongle/"@ + dongles[dongles.len() - 1].0);
        assert forall|i: int| 0 <= i < d.len() implies mac != "dongle/"@ + (#[trigger] d[i]).0 by {
            assert(d[i] == dongles[i]);
        }
        lemma_dongles_tell_no_sensor(hass, root, d, mac);
        let lower = text::lowercase(x.0);
        let version = match x.1 {
            Some(v) => v,
            None => "unknown"@,
        };
        let a = dongle_actions(hass, root, x.0, lower, version);
        let id = dongle_id(lower);
        lemma_config_is_no_status(hass, root, mac, "binary_sensor"@, id, "status"@);
        lemma_config_is_no_status(hass, root, mac, "sensor"@, id, "firmware"@);
        lemma_config_is_no_status(hass, root, mac, "sensor"@, id, "sensor_count"@);
        lemma_config_is_no_status(hass, root, mac, "switch"@, id, "scan"@);
        lemma_status_topics(root, x.0, mac);
        lemma_no_messages(a, topic);
        lemma_messages_append(dongles_actions(hass, root, d), a, topic);
        assert(messages_on(dongles_actions(hass, root, dongles), topic) =~= Seq::<
            (bool, BodyView),
        >::empty());
    }
}

/// On a connect, for every sensor of the bridge exactly one message is published on the
/// topic of its availability. The broker keeps it, and it says `online` if the sensor counts
/// as online and `offline` if it does not. An address that would lead into the topics of a
/// dongle or of another sensor is left out.
pub proof fn law_connect_tells_availability(
    m: manager::Sensors,
    hass: Seq<char>,
    root: Seq<char>,
    dongles: Seq<(Seq<char>, Option<Seq<char>>)>,
    keys: Seq<Seq<char>>,
    published: Set<Seq<char>>,
    k: Seq<char>,
)
    requires
        keys.no_duplicates(),
        keys.contains(k),
        !keys.contains(k + "/status"@),
        forall|i: int| 0 <= i < dongles.len() ==> k != "dongle/"@ + (#[trigger] dongles[i]).0,
    ensures
        messages_on(
            greeting_actions(root) + dongles_actions(hass, root, dongles) + sensors_actions(
                m,
                hass,
                root,
                keys,
                published,
            ).0,
            root + "/"@ + k + "/status"@,
        ) == seq![
            (
                true,
                BodyView::Text(
                    if m[k].is_online {
                        "online"@
                    } else {
                        "offline"@
                    },
                ),
            ),
        ],
{
    let topic = discovery::status_topic(root, k);
    let g = greeting_actions(root);
    let d = dongles_actions(hass, root, dongles);
    let s = sensors_actions(m, hass, root, keys, published).0;
    lemma_status_topics(root, k, k);
    lemma_no_messages(g, topic);
    lemma_dongles_tell_no_sensor(hass, root, dongles, k);
    lemma_sensors_tell(m, hass, root, keys, published, k);
    lemma_messages_append(g, d, topic);
    lemma_messages_append(g + d, s, topic);
    assert(messages_on(g + d + s, topic) =~= messages_on(s, topic));
}

/// An announcement goes in order: the discovery that is due, which the broker keeps, half a
/// second for it to be taken in, the availability, and last the state, which the broker does
/// not keep and which is that of the sensor itself.
pub proof fn law_announcement_goes_in_order(
    m: manager::Sensors,
    hass: Seq<char>,
    root: Seq<char>,
    mac: Seq<char>,
    is_online: bool,
    published: Set<Seq<char>>,
    force: bool,
)
    requires
        m.contains_key(mac),
    ensures
        ({
            let a = sensor_actions(m, hass, root, mac, is_online, published, force);
            let state = ActionView::Publish {
                topic: root + "/"@ + mac,
                retain: false,
                body: BodyView::Object(m[mac].state_payload()),
            };
            let n = m[mac].discovery_under(hass, root).len() as int;
            &&& a.len() >= 2
            &&& a[a.len() - 1] == state
            &&& publishes_on(a[a.len() - 2], root + "/"@ + mac + "/status"@)
            &&& published.contains(mac) && !force ==> a.len() == 2
            &&& (force || !published.contains(mac)) && n > 0 ==> {
                &&& a.len() == n + 3
                &&& a[n] == ActionView::Pause { millis: 500 }
                &&& forall|i: int|
                    0 <= i < n ==> #[trigger] a[i] == (ActionView::Publish {
                        topic: m[mac].discovery_under(hass, root)[i].0,
                        retain: true,
                        body: BodyView::Object(m[mac].discovery_under(hass, root)[i].1),
                    })
            }
        }),
{
}

/// A sensor that an event took offline is announced as `offline`, one that sent anything
/// else as `online`, whether the event was taken or not.
pub proof fn law_event_tells_availability(
    l: Loaded,
    e: EventView,
    now: u64,
    hass: Seq<char>,
    root: Seq<char>,
    published: Set<Seq<char>>,
)
    ensures
        online_after(l, e, now) <==> !(e.data is Offline),
        messages_on(
            sensor_actions(
                manager::dispatched(l, e, now).sensors,
                hass,
                root,
                e.mac,
                online_after(l, e, now),
                published,
                false,
            ),
            root + "/"@ + e.mac + "/status"@,
        ) == seq![
            (
                true,
                BodyView::Text(
                    if e.data is Offline {
                        "offline"@
                    } else {
                        "online"@
                    },
                ),
            ),
        ],
{
    law_announcement_tells_availability(
        manager::dispatched(l, e, now).sensors,
        hass,
        root,
        e.mac,
        online_after(l, e, now),
        published,
        false,
    );
}

/// From the air to the broker: an alarm of a contact sensor that the bridge knows is
/// published as the sensor's state, `open` for the byte 1 and `closed` for any other, as the
/// last thing that is done.
pub proof fn law_contact_alarm_is_published(
    l: Loaded,
    e: EventView,
    now: u64,
    hass: Seq<char>,
    root: Seq<char>,
    published: Set<Seq<char>>,
)
    requires
        l.sensors.contains_key(e.mac),
        !(l.sensors[e.mac].sensor_type is Unknown),
        l.sensors[e.mac].state is Contact,
        e.data is Alarm,
    ensures
        ({
            let after = manager::dispatched(l, e, now).sensors;
            let a = sensor_actions(
                after,
                hass,
                root,
                e.mac,
                online_after(l, e, now),
                published,
                false,
            );
            let last = a[a.len() - 1];
            &&& last is Publish
            &&& last->Publish_topic == root + "/"@ + e.mac
            &&& last->body is Object
            &&& last->body->Object_0["state"@] == JsonView::Text(
                if e.data->Alarm_state == 1 {
                    "open"@
                } else {
                    "closed"@
                },
            )
        }),
{
    let after = manager::dispatched(l, e, now).sensors;
    sensor::law_alarm_is_followed(l.sensors[e.mac], e);
    assert(after[e.mac] == l.sensors[e.mac].after_event(e));
    law_announcement_goes_in_order(
        after,
        hass,
        root,
        e.mac,
        online_after(l, e, now),
        published,
        false,
    );
}

/// On every connect the bridge first says that it is there, on the topic where its will says
/// the contrary, in a message that the broker keeps; and it listens to what can be asked of
/// it.
pub proof fn law_greeting(root: Seq<char>)
    ensures
        greeting_actions(root)[0] == (ActionView::Publish {
            topic: root + "/status"@,
            retain: true,
            body: BodyView::Text("online"@),
        }),
        greeting_actions(root).contains(ActionView::Subscribe { topic: root + "/scan"@ }),
        greeting_actions(root).contains(ActionView::Subscribe { topic: root + "/remove"@ }),
        greeting_actions(root).contains(ActionView::Subscribe { topic: root + "/reload"@ }),
        greeting_actions(root).contains(
            ActionView::Subscribe { topic: root + "/dongle/+/scan/set"@ },
        ),
        greeting_actions(root).len() == 5,
{
    let g = greeting_actions(root);
    assert(g[1] == ActionView::Subscribe { topic: root + "/scan"@ });
    assert(g[2] == ActionView::Subscribe { topic: root + "/remove"@ });
    assert(g[3] == ActionView::Subscribe { topic: root + "/reload"@ });
    assert(g[4] == ActionView::Subscribe { topic: root + "/dongle/+/scan/set"@ });
}

/// What the topics of the bridge ask for: a search by the dongle that the topic names, the
/// sensor that the message names unbound, the files read again. A topic outside the root of
/// the bridge asks for nothing.
pub proof fn law_topics_ask(root: Seq<char>, mac: Seq<char>, topic: Seq<char>, payload: Seq<char>)
    ensures
        ({
            let c = routed(root, root + "/dongle/"@ + mac + "/scan/set"@, payload);
            &&& c is Some
            &&& c->0 is Scan
            &&& c->0->Scan_dongle_mac == mac
        }),
        routed(root, root + "/scan"@, payload) is None,
        routed(root, root + "/remove"@, payload) == Some(
            CommandView::Delete { sensor_mac: payload, dongle_mac: None },
        ),
        routed(root, root + "/reload"@, payload) == Some(CommandView::Reload),
        !text::has_prefix(topic, root) ==> routed(root, topic, payload) is None,
{
    law_scan_names_its_dongle(root, mac, payload);
    law_remove_and_reload(root, payload);
    if !text::has_prefix(topic, root) {
        let p = dongle_prefix(root);
        if text::has_prefix(topic, p) {
            assert(topic.subrange(0, root.len() as int) =~= topic.subrange(
                0,
                p.len() as int,
            ).subrange(0, root.len() as int));
            assert(p.subrange(0, root.len() as int) =~= root);
        }
        assert(remove_topic(root).subrange(0, root.len() as int) =~= root);
        assert(reload_topic(root).subrange(0, root.len() as int) =~= root);
    }
}

/// A search is turned on by `1`, and by `on` and `true` in any mixture of small and capital
/// letters; by nothing else.
pub proof fn law_words_that_turn_on(payload: Seq<char>)
    ensures
        says_on(payload) <==> {
            ||| payload == seq!['1']
            ||| payload.len() == 2 && (payload[0] == 'o' || payload[0] == 'O') && (payload[1] == 'n'
                || payload[1] == 'N')
            ||| payload.len() == 4 && (payload[0] == 't' || payload[0] == 'T') && (payload[1] == 'r'
                || payload[1] == 'R') && (payload[2] == 'u' || payload[2] == 'U') && (payload[3]
                == 'e' || payload[3] == 'E')
        },
{
    reveal_strlit("1");
    reveal_strlit("ON");
    reveal_strlit("true");
    assert("1"@ =~= seq!['1']);
    assert("ON"@[0] == 'O' && "ON"@[1] == 'N');
    assert("true"@[0] == 't' && "true"@[1] == 'r' && "true"@[2] == 'u' && "true"@[3] == 'e');
    if payload.len() == 2 {
        lemma_same_letter(payload[0], 'O', 'o');
        lemma_same_letter(payload[1], 'N', 'n');
    }
    if payload.len() == 4 {
        lemma_same_letter(payload[0], 'T', 't');
        lemma_same_letter(payload[1], 'R', 'r');
        lemma_same_letter(payload[2], 'U', 'u');
        lemma_same_letter(payload[3], 'E', 'e');
    }
}

proof fn lemma_same_letter(c: char, capital: char, small: char)
    requires
        'A' <= capital <= 'Z',
        small as u32 == capital as u32 + 32,
    ensures
        text::ascii_lower(c) == text::ascii_lower(capital) <==> c == capital || c == small,
        text::ascii_lower(c) == text::ascii_lower(small) <==> c == capital || c == small,
{
}

/// The scan switch of a dongle works: what it writes when it is turned on is understood as
/// a request to that dongle to search, and what it writes when it is turned off as one to
/// end the search.
pub proof fn law_scan_switch_works(
    root: Seq<char>,
    mac: Seq<char>,
    lower: Seq<char>,
    version: Seq<char>,
)
    ensures
        ({
            let c = dongle_scan_config(root, mac, lower, version);
            &&& c["command_topic"@] is Text
            &&& c["payload_on"@] is Text
            &&& c["payload_off"@] is Text
            &&& routed(root, c["command_topic"@]->Text_0, c["payload_on"@]->Text_0) == Some(
                CommandView::Scan { enable: true, dongle_mac: mac },
            )
            &&& routed(root, c["command_topic"@]->Text_0, c["payload_off"@]->Text_0) == Some(
                CommandView::Scan { enable: false, dongle_mac: mac },
            )
        }),
{
    lemma_dongle_names();
    law_scan_names_its_dongle(root, mac, "ON"@);
    law_scan_names_its_dongle(root, mac, "OFF"@);
    reveal_strlit("ON");
    reveal_strlit("OFF");
    reveal_strlit("1");
    reveal_strlit("true");
    assert("OFF"@.len() == 3 && "ON"@.len() == 2 && "true"@.len() == 4 && "1"@.len() == 1);
}

proof fn lemma_dongle_names()
    ensures
        "name"@.len() == 4 && "name"@[0] == 'n',
        "icon"@.len() == 4 && "icon"@[0] == 'i',
        "device"@.len() == 6,
        "state_on"@.len() == 8,
        "unique_id"@.len() == 9 && "unique_id"@[0] == 'u',
        "state_off"@.len() == 9 && "state_off"@[0] == 's',
        "payload_on"@.len() == 10,
        "state_topic"@.len() == 11 && "state_topic"@[0] == 's',
        "payload_off"@.len() == 11 && "payload_off"@[0] == 'p',
        "device_class"@.len() == 12,
        "command_topic"@.len() == 13,
        "value_template"@.len() == 14,
        "entity_category"@.len() == 15,
        "version"@.len() == 7,
        "scanning"@.len() == 8,
        "sensor_count"@.len() == 12,
{
    reveal_strlit("name");
    reveal_strlit("icon");
    reveal_strlit("device");
    reveal_strlit("state_on");
    reveal_strlit("unique_id");
    reveal_strlit("state_off");
    reveal_strlit("payload_on");
    reveal_strlit("state_topic");
    reveal_strlit("payload_off");
    reveal_strlit("device_class");
    reveal_strlit("command_topic");
    reveal_strlit("value_template");
    reveal_strlit("entity_category");
    reveal_strlit("version");
    reveal_strlit("scanning");
    reveal_strlit("sensor_count");
}

/// What is announced of a dongle reads what is published of it. The status entity listens to
/// the topic on which the dongle's availability is told, and knows the word for a dongle that
/// is there; the other entities listen to the topic of its state, and each picks out of the
/// state the field that it shows. Everything is kept by the broker.
pub proof fn law_dongle_entities_read_what_is_published(
    hass: Seq<char>,
    root: Seq<char>,
    mac: Seq<char>,
    lower: Seq<char>,
    version: Seq<char>,
)
    ensures
        ({
            let a = dongle_actions(hass, root, mac, lower, version);
            let status = a[0]->body->Object_0;
            let firmware = a[1]->body->Object_0;
            let count = a[2]->body->Object_0;
            let scan = a[3]->body->Object_0;
            let state = a[5]->body->Object_0;
            let online = root + "/dongle/"@ + mac + "/status"@;
            let told = root + "/dongle/"@ + mac + "/state"@;
            &&& a.len() == 6
            &&& forall|i: int| 0 <= i < 6 ==> (#[trigger] a[i]) is Publish && a[i]->retain
            &&& forall|i: int|
                0 <= i < 6 && i != 4 ==> (#[trigger] a[i])->body is Object
            &&& a[4] == (ActionView::Publish {
                topic: online,
                retain: true,
                body: BodyView::Text("online"@),
            })
            &&& a[5]->Publish_topic == told
            &&& status["state_topic"@] == JsonView::Text(online)
            &&& status["payload_on"@] == JsonView::Text("online"@)
            &&& status["payload_off"@] == JsonView::Text("offline"@)
            &&& status["device_class"@] == JsonView::Text("connectivity"@)
            &&& status["entity_category"@] == JsonView::Text("diagnostic"@)
            &&& firmware["entity_category"@] == JsonView::Text("diagnostic"@)
            &&& firmware["icon"@] == JsonView::Text("mdi:chip"@)
            &&& count["entity_category"@] == JsonView::Text("diagnostic"@)
            &&& count["icon"@] == JsonView::Text("mdi:counter"@)
            &&& scan["icon"@] == JsonView::Text("mdi:magnify-scan"@)
            &&& firmware["state_topic"@] == JsonView::Text(told)
            &&& firmware["value_template"@] == JsonView::Text("{{ value_json.version }}"@)
            &&& count["state_topic"@] == JsonView::Text(told)
            &&& count["value_template"@] == JsonView::Text("{{ value_json.sensor_count }}"@)
            &&& scan["state_topic"@] == JsonView::Text(told)
            &&& scan["value_template"@] == JsonView::Text("{{ value_json.scanning }}"@)
            &&& scan["state_on"@] == JsonView::Text("true"@)
            &&& scan["state_off"@] == JsonView::Text("false"@)
            &&& state["version"@] == JsonView::Text(version)
            &&& state["sensor_count"@] == JsonView::Int(0)
            &&& state["scanning"@] == JsonView::Bool(false)
        }),
{
    lemma_dongle_names();
}

/// The four entities of a dongle are announced under the identifier made of its address in
/// lower case, and belong to one device, which carries its address and its firmware version.
pub proof fn law_dongle_entities_belong_to_the_dongle(
    hass: Seq<char>,
    root: Seq<char>,
    mac: Seq<char>,
    lower: Seq<char>,
    version: Seq<char>,
    i: int,
)
    requires
        0 <= i < 4,
    ensures
        ({
            let a = dongle_actions(hass, root, mac, lower, version);
            let c = a[i]->body->Object_0;
            let id = "wyzesense_dongle_"@ + lower;
            &&& c["device"@] is Device
            &&& c["device"@]->Device_0.identifiers == seq![id]
            &&& c["device"@]->Device_0.name == "Wyze Dongle "@ + mac
            &&& c["device"@]->Device_0.sw_version == Some(version)
            &&& c["device"@]->Device_0.manufacturer == "Wyze"@
            &&& c["device"@]->Device_0.model == "WLPP1 USB Dongle"@
            &&& c["device"@]->Device_0.via_device == "wyzesense2mqtt_bridge"@
            &&& a[0]->Publish_topic == hass + discovery::config_path(
                "binary_sensor"@,
                id,
                "status"@,
            )
            &&& a[1]->Publish_topic == hass + discovery::config_path("sensor"@, id, "firmware"@)
            &&& a[2]->Publish_topic == hass + discovery::config_path(
                "sensor"@,
                id,
                "sensor_count"@,
            )
            &&& a[3]->Publish_topic == hass + discovery::config_path("switch"@, id, "scan"@)
            &&& c["unique_id"@] == JsonView::Text(
                id + (if i == 0 {
                    "_status"@
                } else if i == 1 {
                    "_firmware"@
                } else if i == 2 {
                    "_sensor_count"@
                } else {
                    "_scan"@
                }),
            )
            &&& c["name"@] == JsonView::Text(
                if i == 0 {
                    "Status"@
                } else if i == 1 {
                    "Firmware Version"@
                } else if i == 2 {
                    "Connected Sensors"@
                } else {
                    "Scan Mode"@
                },
            )
        }),
{
    lemma_dongle_names();
}

/// On a connect every dongle is announced, with its own firmware version, or as `unknown`
/// where that is not known.
pub proof fn law_connect_announces_dongles(
    hass: Seq<char>,
    root: Seq<char>,
    dongles: Seq<(Seq<char>, Option<Seq<char>>)>,
    i: int,
)
    requires
        0 <= i < dongles.len(),
    ensures
        dongles_actions(hass, root, dongles).len() == 6 * dongles.len(),
        dongles_actions(hass, root, dongles).subrange(6 * i, 6 * i + 6) == dongle_actions(
            hass,
            root,
            dongles[i].0,
            text::lowercase(dongles[i].0),
            if dongles[i].1 is Some {
                dongles[i].1->0
            } else {
                "unknown"@
            },
        ),
    decreases dongles.len(),
{
    let d = dongles.drop_last();
    let last = dongles.last();
    let version = if last.1 is Some {
        last.1->0
    } else {
        "unknown"@
    };
    let own = dongle_actions(hass, root, last.0, text::lowercase(last.0), version);
    let all = dongles_actions(hass, root, dongles);
    if dongles.len() > 1 {
        law_connect_announces_dongles(hass, root, d, if i < d.len() {
            i
        } else {
            0
        });
    }
    assert(all == dongles_actions(hass, root, d) + own);
    if i < d.len() {
        assert(d[i] == dongles[i]);
        assert(all.subrange(6 * i, 6 * i + 6) =~= dongles_actions(hass, root, d).subrange(
            6 * i,
            6 * i + 6,
        ));
    } else {
        assert(all.subrange(6 * i, 6 * i + 6) =~= own);
    }
}

/// On a connect the state of every sensor is published on the sensor's own topic.
pub proof fn law_connect_tells_states(
    m: manager::Sensors,
    hass: Seq<char>,
    root: Seq<char>,
    keys: Seq<Seq<char>>,
    published: Set<Seq<char>>,
    k: Seq<char>,
)
    requires
        keys.contains(k),
        m.contains_key(k),
    ensures
        sensors_actions(m, hass, root, keys, published).0.contains(
            ActionView::Publish {
                topic: root + "/"@ + k,
                retain: false,
                body: BodyView::Object(m[k].state_payload()),
            },
        ),
    decreases keys.len(),
{
    let d = keys.drop_last();
    let last = keys.last();
    let (a, p) = sensors_actions(m, hass, root, d, published);
    let own = sensor_actions(m, hass, root, last, m[last].is_online, p, true);
    let all = sensors_actions(m, hass, root, keys, published).0;
    let state = ActionView::Publish {
        topic: root + "/"@ + k,
        retain: false,
        body: BodyView::Object(m[k].state_payload()),
    };
    assert(all == a + own);
    if last == k {
        law_announcement_goes_in_order(m, hass, root, k, m[k].is_online, p, true);
        assert(all[all.len() - 1] == own[own.len() - 1]);
    } else {
        assert(d[keys.index_of(k)] == k);
        law_connect_tells_states(m, hass, root, d, published, k);
        assert(all[a.index_of(state)] == state);
    }
}

/// What stands in a command or an action is what its model shows.
pub proof fn law_model_of_commands_and_actions(c: GatewayCommand, a: Action)
    ensures
        c matches GatewayCommand::Scan { enable, dongle_mac } ==> c@ == (CommandView::Scan {
            enable,
            dongle_mac: dongle_mac@,
        }),
        c matches GatewayCommand::Delete { sensor_mac, dongle_mac } ==> c@ == (
        CommandView::Delete { sensor_mac: sensor_mac@, dongle_mac: text::option_view(dongle_mac) }),
        c is Reload <==> c@ is Reload,
        a matches Action::Publish { topic, retain, body } ==> a@ == (ActionView::Publish {
            topic: topic@,
            retain,
            body: body@,
        }),
        a matches Action::Subscribe { topic } ==> a@ == (ActionView::Subscribe { topic: topic@ }),
        a matches Action::Pause { millis } ==> a@ == (ActionView::Pause { millis }),
        a matches Action::Publish { topic, retain, body: Body::Text(s) } ==> a@->body
            == BodyView::Text(s@),
        a matches Action::Publish { topic, retain, body: Body::Object(o) } ==> a@->body
            == BodyView::Object(o@),
{
}

/// What a connect marks as published: every sensor that has something to show, and of the
/// sensors of the bridge no other.
pub proof fn law_connect_marks_what_is_shown(
    m: manager::Sensors,
    hass: Seq<char>,
    root: Seq<char>,
    keys: Seq<Seq<char>>,
    published: Set<Seq<char>>,
    k: Seq<char>,
)
    requires
        keys.no_duplicates(),
        forall|i: int| 0 <= i < keys.len() ==> m.contains_key(#[trigger] keys[i]),
    ensures
        keys.contains(k) ==> (sensors_actions(m, hass, root, keys, published).1.contains(k)
            <==> m[k].discovery_under(hass, root).len() > 0),
        !keys.contains(k) ==> (sensors_actions(m, hass, root, keys, published).1.contains(k)
            <==> published.contains(k)),
    decreases keys.len(),
{
    if keys.len() > 0 {
        let d = keys.drop_last();
        let last = keys.last();
        assert(keys[keys.len() - 1] == last);
        assert(!d.contains(last)) by {
            if d.contains(last) {
                assert(keys[d.index_of(last)] == keys[keys.len() - 1]);
            }
        }
        assert(keys.contains(k) <==> d.contains(k) || k == last) by {
            if d.contains(k) {
                assert(keys[d.index_of(k)] == k);
            }
            if keys.contains(k) && k != last {
                assert(d[keys.index_of(k)] == k);
            }
        }
        assert forall|i: int| 0 <= i < d.len() implies m.contains_key(#[trigger] d[i]) by {
            assert(d[i] == keys[i]);
        }
        law_connect_marks_what_is_shown(m, hass, root, d, published, k);
    }
}

/// The will takes back what the greeting says: it is said on the same topic, kept by the
/// broker alike, and says `offline` where the greeting says `online`. The session is kept for
/// a quarter of an hour.
pub proof fn law_will_takes_the_greeting_back(root: Seq<char>)
    ensures
        SESSION_EXPIRY_SECS == 15 * 60,
        will_message(root) == (ActionView::Publish {
            topic: root + "/status"@,
            retain: true,
            body: BodyView::Text("offline"@),
        }),
        messages_on(
            greeting_actions(root).push(will_message(root)),
            root + "/status"@,
        ) == seq![(true, BodyView::Text("online"@)), (true, BodyView::Text("offline"@))],
{
    let g = greeting_actions(root);
    let topic = root + "/status"@;
    let first = seq![g[0]];
    let rest = g.subrange(1, 5);
    assert(g =~= first + rest);
    lemma_messages_append(first, rest, topic);
    lemma_no_messages(rest, topic);
    assert(first.drop_last() =~= Seq::<ActionView>::empty());
    assert(messages_on(first.drop_last(), topic) =~= Seq::<(bool, BodyView)>::empty());
    assert(messages_on(first, topic) =~= seq![(true, BodyView::Text("online"@))]);
    assert(messages_on(g, topic) =~= seq![(true, BodyView::Text("online"@))]);
    let all = g.push(will_message(root));
    assert(all.drop_last() =~= g);
    assert(messages_on(all, topic) =~= seq![
        (true, BodyView::Text("online"@)),
        (true, BodyView::Text("offline"@)),
    ]);
}

} // verus!
