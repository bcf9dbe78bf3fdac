//! Home Assistant discovery: the entities that a device shows, each announced with
//! a topic and a configuration.
use crate::json::{DeviceInfo, DeviceView, JsonObject, JsonValue, JsonView};
use crate::protocol::sensor::{self, SensorState, SensorView, WyzeSensor};
use crate::text;
use vstd::prelude::*;
use vstd::string::*;

verus! {

/// A configuration: values under names.
pub type Config = Map<Seq<char>, JsonView>;

/// Configurations with the topics on which they are published.
pub open spec fn announced(v: Seq<(String, JsonObject)>) -> Seq<(Seq<char>, Config)> {
    v.map_values(|x: (String, JsonObject)| (x.0@, x.1@))
}

// ---------------------------------------------------------------------------
// The model
// ---------------------------------------------------------------------------

/// The topic of the bridge's own availability.
pub open spec fn bridge_status_topic(root: Seq<char>) -> Seq<char> {
    root + "/status"@
}

/// The topic of a device's state.
pub open spec fn state_topic(root: Seq<char>, mac: Seq<char>) -> Seq<char> {
    root + "/"@ + mac
}

/// The topic of a device's availability.
pub open spec fn status_topic(root: Seq<char>, mac: Seq<char>) -> Seq<char> {
    root + "/"@ + mac + "/status"@
}

/// Where an entity is announced, below the discovery root.
pub open spec fn config_path(
    component: Seq<char>,
    device_id: Seq<char>,
    key: Seq<char>,
) -> Seq<char> {
    "/"@ + component + "/"@ + device_id + "/"@ + key + "/config"@
}

/// The discovery root that Home Assistant listens to unless it is told otherwise.
pub open spec fn usual_root() -> Seq<char> {
    "homeassistant"@
}

/// Announcements put below a discovery root.
pub open spec fn placed_under(hass: Seq<char>, d: Seq<(Seq<char>, Config)>) -> Seq<
    (Seq<char>, Config),
> {
    Seq::new(d.len(), |i: int| (hass + d[i].0, d[i].1))
}

/// The template that picks a field out of the state payload.
pub open spec fn field_template(key: Seq<char>) -> Seq<char> {
    "{{ value_json."@ + key + " }}"@
}

impl SensorView {
    pub open spec fn device_id(self) -> Seq<char> {
        "wyzesense_"@ + self.mac
    }

    pub open spec fn unique_id(self, key: Seq<char>) -> Seq<char> {
        self.device_id() + "_"@ + key
    }

    pub open spec fn device(self) -> DeviceView {
        DeviceView {
            identifiers: seq![self.device_id(), self.mac],
            name: self.friendly_name,
            model: self.sensor_type.model(),
            manufacturer: "Wyze"@,
            sw_version: None,
            via_device: "wyzesense2mqtt"@,
        }
    }

    /// The topics that tell whether the device can be reached.
    pub open spec fn availability(self, root: Seq<char>) -> Seq<Seq<char>> {
        seq![bridge_status_topic(root), status_topic(root, self.mac)]
    }

    /// What every entity says of itself.
    pub open spec fn with_identity(
        self,
        c: Config,
        key: Seq<char>,
        availability: Seq<Seq<char>>,
    ) -> Config {
        c.insert("unique_id"@, JsonView::Text(self.unique_id(key))).insert(
            "device"@,
            JsonView::Device(self.device()),
        ).insert("availability"@, JsonView::Topics(availability)).insert(
            "availability_mode"@,
            JsonView::Text("all"@),
        )
    }

    /// A measured value of the state payload.
    pub open spec fn measurement(
        self,
        root: Seq<char>,
        key: Seq<char>,
        class: Seq<char>,
        unit: Seq<char>,
        availability: Seq<Seq<char>>,
    ) -> Config {
        let c = Map::<Seq<char>, JsonView>::empty().insert(
            "state_topic"@,
            JsonView::Text(state_topic(root, self.mac)),
        ).insert("value_template"@, JsonView::Text(field_template(key))).insert(
            "device_class"@,
            JsonView::Text(class),
        ).insert("unit_of_measurement"@, JsonView::Text(unit)).insert(
            "state_class"@,
            JsonView::Text("measurement"@),
        );
        self.with_identity(c, key, availability)
    }

    /// A measured value for the diagnostics page.
    pub open spec fn diagnostic(
        self,
        root: Seq<char>,
        key: Seq<char>,
        class: Seq<char>,
        unit: Seq<char>,
        availability: Seq<Seq<char>>,
    ) -> (Seq<char>, Config) {
        (
            config_path("sensor"@, self.device_id(), key),
            self.measurement(root, key, class, unit, availability).insert(
                "entity_category"@,
                JsonView::Text("diagnostic"@),
            ),
        )
    }

    /// The chip temperature, which needs a name to tell it from the room's.
    pub open spec fn die_temperature(self, root: Seq<char>) -> (Seq<char>, Config) {
        let (topic, c) = self.diagnostic(
            root,
            "die_temperature"@,
            "temperature"@,
            "°C"@,
            self.availability(root),
        );
        (topic, c.insert("name"@, JsonView::Text("Die Temperature"@)))
    }

    /// The entities that all sensors have: battery where there is one, chip
    /// temperature, signal strength.
    pub open spec fn common_entities(self, root: Seq<char>) -> Seq<(Seq<char>, Config)> {
        let a = self.availability(root);
        let battery = if self.battery_pct is Some {
            seq![
                self.diagnostic(root, "battery"@, "battery"@, "%"@, a),
                self.diagnostic(root, "battery_voltage"@, "voltage"@, "V"@, a),
            ]
        } else {
            Seq::empty()
        };
        battery.push(self.die_temperature(root)).push(
            self.diagnostic(root, "signal_strength"@, "signal_strength"@, "dBm"@, a),
        )
    }

    /// An entity with two states out of the state payload.
    pub open spec fn binary(
        self,
        root: Seq<char>,
        class: Seq<char>,
        on: Seq<char>,
        off: Seq<char>,
    ) -> (Seq<char>, Config) {
        let topic = JsonView::Text(state_topic(root, self.mac));
        let c = Map::<Seq<char>, JsonView>::empty().insert("name"@, JsonView::Null).insert(
            "state_topic"@,
            topic,
        ).insert("value_template"@, JsonView::Text(field_template("state"@))).insert(
            "device_class"@,
            JsonView::Text(class),
        ).insert("payload_on"@, JsonView::Text(on)).insert("payload_off"@, JsonView::Text(off));
        (
            config_path("binary_sensor"@, self.device_id(), "state"@),
            self.with_identity(c, "state"@, self.availability(root)).insert(
                "json_attributes_topic"@,
                topic,
            ),
        )
    }

    /// Whether the probe of a leak sensor is connected.
    pub open spec fn probe_available(self, root: Seq<char>) -> (Seq<char>, Config) {
        let c = Map::<Seq<char>, JsonView>::empty().insert(
            "name"@,
            JsonView::Text("Probe"@),
        ).insert("state_topic"@, JsonView::Text(state_topic(root, self.mac))).insert(
            "value_template"@,
            JsonView::Text("{{ 'ON' if value_json.probe_available else 'OFF' }}"@),
        ).insert("device_class"@, JsonView::Text("connectivity"@));
        (
            config_path("binary_sensor"@, self.device_id(), "probe_available"@),
            self.with_identity(c, "probe_available"@, self.availability(root)).insert(
                "entity_category"@,
                JsonView::Text("diagnostic"@),
            ),
        )
    }

    /// The probe of a leak sensor; it cannot be reached while it is not connected.
    pub open spec fn probe_state(self, root: Seq<char>) -> (Seq<char>, Config) {
        let topic = JsonView::Text(state_topic(root, self.mac));
        (
            config_path("binary_sensor"@, self.device_id(), "probe_state"@),
            Map::<Seq<char>, JsonView>::empty().insert(
                "name"@,
                JsonView::Text("Probe Moisture"@),
            ).insert("state_topic"@, topic).insert(
                "value_template"@,
                JsonView::Text(field_template("probe_state"@)),
            ).insert(
                "availability_template"@,
                JsonView::Text("{{ 'online' if value_json.probe_available else 'offline' }}"@),
            ).insert("device_class"@, JsonView::Text("moisture"@)).insert(
                "payload_on"@,
                JsonView::Text("wet"@),
            ).insert("payload_off"@, JsonView::Text("dry"@)).insert(
                "payload_available"@,
                JsonView::Text("online"@),
            ).insert("payload_not_available"@, JsonView::Text("offline"@)).insert(
                "unique_id"@,
                JsonView::Text(self.unique_id("probe_state"@)),
            ).insert("device"@, JsonView::Device(self.device())).insert(
                "availability_mode"@,
                JsonView::Text("all"@),
            ).insert("json_attributes_topic"@, topic),
        )
    }

    /// A reading of a climate sensor.
    pub open spec fn reading(
        self,
        root: Seq<char>,
        key: Seq<char>,
        name: Seq<char>,
        unit: Seq<char>,
    ) -> (Seq<char>, Config) {
        (
            config_path("sensor"@, self.device_id(), key),
            self.measurement(root, key, key, unit, self.availability(root)).insert(
                "name"@,
                JsonView::Text(name),
            ).insert(
                "json_attributes_topic"@,
                JsonView::Text(state_topic(root, self.mac)),
            ),
        )
    }

    /// The button that rings a chime.
    pub open spec fn button(self, root: Seq<char>) -> (Seq<char>, Config) {
        let c = Map::<Seq<char>, JsonView>::empty().insert("name"@, JsonView::Null).insert(
            "command_topic"@,
            JsonView::Text(state_topic(root, self.mac) + "/chime"@),
        );
        (
            config_path("button"@, self.device_id(), "chime"@),
            self.with_identity(c, "chime"@, seq![bridge_status_topic(root)]).insert(
                "icon"@,
                JsonView::Text("mdi:bell-ring"@),
            ),
        )
    }

    /// The entities of a chime.
    pub open spec fn chime_entities(self, root: Seq<char>) -> Seq<(Seq<char>, Config)> {
        seq![
            self.diagnostic(
                root,
                "signal_strength"@,
                "signal_strength"@,
                "dBm"@,
                seq![bridge_status_topic(root)],
            ),
            self.button(root),
        ]
    }

    /// The entities of a sensor.
    pub open spec fn sensor_entities(self, root: Seq<char>) -> Seq<(Seq<char>, Config)> {
        let c = self.common_entities(root);
        match self.state {
            SensorState::Contact { .. } => c.push(
                self.binary(root, "opening"@, "open"@, "closed"@),
            ),
            SensorState::Motion { .. } => c.push(
                self.binary(root, "motion"@, "active"@, "inactive"@),
            ),
            SensorState::Leak { .. } => c.push(
                self.binary(root, "moisture"@, "wet"@, "dry"@),
            ).push(self.probe_available(root)).push(self.probe_state(root)),
            SensorState::Climate { .. } => c.push(
                self.reading(root, "temperature"@, "Temperature"@, "°C"@),
            ).push(self.reading(root, "humidity"@, "Humidity"@, "%"@)),
            _ => c,
        }
    }

    /// The entities of a device, each with its place below the discovery root; none while
    /// its kind is unknown.
    pub open spec fn entities(self, root: Seq<char>) -> Seq<(Seq<char>, Config)> {
        match self.state {
            SensorState::Chime => self.chime_entities(root),
            SensorState::Unknown => Seq::empty(),
            _ => self.sensor_entities(root),
        }
    }

    /// The entities of a device with the topics on which they are announced.
    pub open spec fn discovery_under(self, hass: Seq<char>, root: Seq<char>) -> Seq<
        (Seq<char>, Config),
    > {
        placed_under(hass, self.entities(root))
    }

    /// The entities of a device under the usual discovery root.
    pub open spec fn discovery(self, root: Seq<char>) -> Seq<(Seq<char>, Config)> {
        self.discovery_under(usual_root(), root)
    }
}

// ---------------------------------------------------------------------------
// Topics
// ---------------------------------------------------------------------------

pub fn make_bridge_status_topic(root: &str) -> (r: String)
    ensures
        r@ == bridge_status_topic(root@),
{
    let mut t = root.to_owned();
    t.append("/status");
    t
}

pub fn make_state_topic(root: &str, mac: &str) -> (r: String)
    ensures
        r@ == state_topic(root@, mac@),
{
    let mut t = root.to_owned();
    t.append("/");
    t.append(mac);
    t
}

pub fn make_status_topic(root: &str, mac: &str) -> (r: String)
    ensures
        r@ == status_topic(root@, mac@),
{
    let mut t = make_state_topic(root, mac);
    t.append("/status");
    t
}

pub fn make_config_path(component: &str, device_id: &str, key: &str) -> (r: String)
    ensures
        r@ == config_path(component@, device_id@, key@),
{
    let mut t = "/".to_owned();
    t.append(component);
    t.append("/");
    t.append(device_id);
    t.append("/");
    t.append(key);
    t.append("/config");
    t
}

fn make_field_template(key: &str) -> (r: String)
    ensures
        r@ == field_template(key@),
{
    let mut t = "{{ value_json.".to_owned();
    t.append(key);
    t.append(" }}");
    t
}

/// A topic below the discovery root.
pub fn make_topic_under(hass: &str, path: &str) -> (r: String)
    ensures
        r@ == hass@ + path@,
{
    let mut t = hass.to_owned();
    t.append(path);
    t
}

/// Puts announcements below a discovery root.
pub fn place_under(hass: &str, entities: Vec<(String, JsonObject)>) -> (r: Vec<
    (String, JsonObject),
>)
    ensures
        announced(r@) == placed_under(hass@, announced(entities@)),
{
    let ghost d = announced(entities@);
    let mut left = entities;
    let mut r: Vec<(String, JsonObject)> = Vec::new();
    proof {
        assert(announced(r@) =~= placed_under(hass@, d.subrange(0, 0)));
        assert(announced(left@) =~= d.subrange(0, d.len() as int));
    }
    while left.len() > 0
        invariant
            r@.len() + left@.len() == d.len(),
            announced(left@) == d.subrange(r@.len() as int, d.len() as int),
            announced(r@) == placed_under(hass@, d.subrange(0, r@.len() as int)),
        decreases left@.len(),
    {
        let ghost before = left@;
        let ghost k = r@.len() as int;
        let (path, o) = left.remove(0);
        proof {
            assert(announced(before)[0] == (path@, o@));
            assert(d.subrange(k, d.len() as int)[0] == d[k]);
            assert(announced(left@) =~= announced(before).remove(0));
            assert(announced(left@) =~= d.subrange(k + 1, d.len() as int));
        }
        announce(&mut r, (make_topic_under(hass, path.as_str()), o));
        proof {
            assert(announced(r@) =~= placed_under(hass@, d.subrange(0, k + 1)));
        }
    }
    proof {
        assert(d.subrange(0, d.len() as int) =~= d);
    }
    r
}

/// Adds a configuration to a list of announcements.
pub fn announce(out: &mut Vec<(String, JsonObject)>, entity: (String, JsonObject))
    ensures
        announced(final(out)@) == announced(old(out)@).push((entity.0@, entity.1@)),
{
    let ghost before = out@;
    out.push(entity);
    proof {
        assert(announced(out@) =~= announced(before).push((entity.0@, entity.1@)));
    }
}

// ---------------------------------------------------------------------------
// Building
// ---------------------------------------------------------------------------

impl WyzeSensor {
    fn device_id(&self) -> (r: String)
        ensures
            r@ == self@.device_id(),
    {
        let mut t = "wyzesense_".to_owned();
        t.append(self.mac.as_str());
        t
    }

    fn unique_id(&self, key: &str) -> (r: String)
        ensures
            r@ == self@.unique_id(key@),
    {
        let mut t = self.device_id();
        t.append("_");
        t.append(key);
        t
    }

    fn build_device_metadata(&self) -> (r: DeviceInfo)
        ensures
            r@ == self@.device(),
    {
        let mut identifiers: Vec<String> = Vec::new();
        identifiers.push(self.device_id());
        identifiers.push(self.mac.clone());
        let r = DeviceInfo {
            identifiers,
            name: self.friendly_name.clone(),
            model: self.sensor_type.model_str().to_owned(),
            manufacturer: "Wyze".to_owned(),
            sw_version: None,
            via_device: "wyzesense2mqtt".to_owned(),
        };
        proof {
            assert(r@.identifiers =~= self@.device().identifiers);
        }
        r
    }

    fn availability(&self, root: &str) -> (r: Vec<String>)
        ensures
            text::views(r@) == self@.availability(root@),
    {
        let mut r: Vec<String> = Vec::new();
        r.push(make_bridge_status_topic(root));
        r.push(make_status_topic(root, self.mac.as_str()));
        proof {
            assert(text::views(r@) =~= self@.availability(root@));
        }
        r
    }

    fn set_identity(&self, c: &mut JsonObject, key: &str, availability: Vec<String>)
        ensures
            final(c)@ == self@.with_identity(old(c)@, key@, text::views(availability@)),
    {
        c.set("unique_id", JsonValue::Text(self.unique_id(key)));
        c.set("device", JsonValue::Device(self.build_device_metadata()));
        c.set("availability", JsonValue::Topics(availability));
        c.set_text("availability_mode", "all");
    }

    fn measurement(
        &self,
        root: &str,
        key: &str,
        class: &str,
        unit: &str,
        availability: Vec<String>,
    ) -> (r: JsonObject)
        ensures
            r@ == self@.measurement(root@, key@, class@, unit@, text::views(availability@)),
    {
        let mut c = JsonObject::new();
        c.set("state_topic", JsonValue::Text(make_state_topic(root, self.mac.as_str())));
        c.set("value_template", JsonValue::Text(make_field_template(key)));
        c.set_text("device_class", class);
        c.set_text("unit_of_measurement", unit);
        c.set_text("state_class", "measurement");
        self.set_identity(&mut c, key, availability);
        c
    }

    fn diagnostic(
        &self,
        root: &str,
        key: &str,
        class: &str,
        unit: &str,
        availability: Vec<String>,
    ) -> (r: (String, JsonObject))
        ensures
            (r.0@, r.1@) == self@.diagnostic(
                root@,
                key@,
                class@,
                unit@,
                text::views(availability@),
            ),
    {
        let mut c = self.measurement(root, key, class, unit, availability);
        c.set_text("entity_category", "diagnostic");
        (make_config_path("sensor", self.device_id().as_str(), key), c)
    }

    /// Adds the entities that all sensors have.
    fn push_common_discovery_payloads(&self, root: &str, out: &mut Vec<(String, JsonObject)>)
        requires
            old(out)@.len() == 0,
        ensures
            announced(final(out)@) == self@.common_entities(root@),
    {
        proof {
            assert(announced(out@) =~= Seq::empty());
        }
        if self.battery_pct.is_some() {
            announce(out, self.diagnostic(root, "battery", "battery", "%", self.availability(root)));
            announce(
                out,
                self.diagnostic(root, "battery_voltage", "voltage", "V", self.availability(root)),
            );
            proof {
                let a = self@.availability(root@);
                assert(announced(out@) =~= seq![
                    self@.diagnostic(root@, "battery"@, "battery"@, "%"@, a),
                    self@.diagnostic(root@, "battery_voltage"@, "voltage"@, "V"@, a),
                ]);
            }
        }
        let (topic, mut c) = self.diagnostic(
            root,
            "die_temperature",
            "temperature",
            "°C",
            self.availability(root),
        );
        c.set_text("name", "Die Temperature");
        announce(out, (topic, c));
        announce(
            out,
            self.diagnostic(
                root,
                "signal_strength",
                "signal_strength",
                "dBm",
                self.availability(root),
            ),
        );
    }

    fn binary(&self, root: &str, class: &str, on: &str, off: &str) -> (r: (String, JsonObject))
        ensures
            (r.0@, r.1@) == self@.binary(root@, class@, on@, off@),
    {
        let mut c = JsonObject::new();
        c.set("name", JsonValue::Null);
        c.set("state_topic", JsonValue::Text(make_state_topic(root, self.mac.as_str())));
        c.set("value_template", JsonValue::Text(make_field_template("state")));
        c.set_text("device_class", class);
        c.set_text("payload_on", on);
        c.set_text("payload_off", off);
        self.set_identity(&mut c, "state", self.availability(root));
        c.set("json_attributes_topic", JsonValue::Text(make_state_topic(root, self.mac.as_str())));
        (make_config_path("binary_sensor", self.device_id().as_str(), "state"), c)
    }

    fn probe_available(&self, root: &str) -> (r: (String, JsonObject))
        ensures
            (r.0@, r.1@) == self@.probe_available(root@),
    {
        let mut c = JsonObject::new();
        c.set_text("name", "Probe");
        c.set("state_topic", JsonValue::Text(make_state_topic(root, self.mac.as_str())));
        c.set_text("value_template", "{{ 'ON' if value_json.probe_available else 'OFF' }}");
        c.set_text("device_class", "connectivity");
        self.set_identity(&mut c, "probe_available", self.availability(root));
        c.set_text("entity_category", "diagnostic");
        (make_config_path("binary_sensor", self.device_id().as_str(), "probe_available"), c)
    }

    fn probe_state(&self, root: &str) -> (r: (String, JsonObject))
        ensures
            (r.0@, r.1@) == self@.probe_state(root@),
    {
        let mut c = JsonObject::new();
        c.set_text("name", "Probe Moisture");
        c.set("state_topic", JsonValue::Text(make_state_topic(root, self.mac.as_str())));
        c.set("value_template", JsonValue::Text(make_field_template("probe_state")));
        c.set_text(
            "availability_template",
            "{{ 'online' if value_json.probe_available else 'offline' }}",
        );
        c.set_text("device_class", "moisture");
        c.set_text("payload_on", "wet");
        c.set_text("payload_off", "dry");
        c.set_text("payload_available", "online");
        c.set_text("payload_not_available", "offline");
        c.set("unique_id", JsonValue::Text(self.unique_id("probe_state")));
        c.set("device", JsonValue::Device(self.build_device_metadata()));
        c.set_text("availability_mode", "all");
        c.set("json_attributes_topic", JsonValue::Text(make_state_topic(root, self.mac.as_str())));
        (make_config_path("binary_sensor", self.device_id().as_str(), "probe_state"), c)
    }

    fn reading(&self, root: &str, key: &str, name: &str, unit: &str) -> (r: (String, JsonObject))
        ensures
            (r.0@, r.1@) == self@.reading(root@, key@, name@, unit@),
    {
        let mut c = self.measurement(root, key, key, unit, self.availability(root));
        c.set_text("name", name);
        c.set("json_attributes_topic", JsonValue::Text(make_state_topic(root, self.mac.as_str())));
        (make_config_path("sensor", self.device_id().as_str(), key), c)
    }

    fn bridge_availability(root: &str) -> (r: Vec<String>)
        ensures
            text::views(r@) == seq![bridge_status_topic(root@)],
    {
        let mut r: Vec<String> = Vec::new();
        r.push(make_bridge_status_topic(root));
        proof {
            assert(text::views(r@) =~= seq![bridge_status_topic(root@)]);
        }
        r
    }

    fn build_chime_discovery(&self, root: &str) -> (r: Vec<(String, JsonObject)>)
        ensures
            announced(r@) == self@.chime_entities(root@),
    {
        let mut out: Vec<(String, JsonObject)> = Vec::new();
        announce(
            &mut out,
            self.diagnostic(
                root,
                "signal_strength",
                "signal_strength",
                "dBm",
                Self::bridge_availability(root),
            ),
        );
        let mut c = JsonObject::new();
        c.set("name", JsonValue::Null);
        let mut command_topic = make_state_topic(root, self.mac.as_str());
        command_topic.append("/chime");
        c.set("command_topic", JsonValue::Text(command_topic));
        self.set_identity(&mut c, "chime", Self::bridge_availability(root));
        c.set_text("icon", "mdi:bell-ring");
        announce(&mut out, (make_config_path("button", self.device_id().as_str(), "chime"), c));
        proof {
            assert(announced(out@) =~= self@.chime_entities(root@));
        }
        out
    }

    fn build_sensor_discovery(&self, root: &str) -> (r: Vec<(String, JsonObject)>)
        ensures
            announced(r@) == self@.sensor_entities(root@),
    {
        let mut out: Vec<(String, JsonObject)> = Vec::new();
        self.push_common_discovery_payloads(root, &mut out);
        match self.state {
            SensorState::Contact { .. } => {
                announce(&mut out, self.binary(root, "opening", "open", "closed"));
            },
            SensorState::Motion { .. } => {
                announce(&mut out, self.binary(root, "motion", "active", "inactive"));
            },
            SensorState::Leak { .. } => {
                announce(&mut out, self.binary(root, "moisture", "wet", "dry"));
                announce(&mut out, self.probe_available(root));
                announce(&mut out, self.probe_state(root));
            },
            SensorState::Climate { .. } => {
                announce(&mut out, self.reading(root, "temperature", "Temperature", "°C"));
                announce(&mut out, self.reading(root, "humidity", "Humidity", "%"));
            },
            _ => {},
        }
        out
    }

    /// The entities that the device shows in Home Assistant, each with the topic on
    /// which it is announced under a discovery root.
    pub fn get_discovery_payloads_under(&self, hass_root: &str, topic_root: &str) -> (r: Vec<
        (String, JsonObject),
    >)
        ensures
            announced(r@) == self@.discovery_under(hass_root@, topic_root@),
    {
        place_under(hass_root, self.build_entities(topic_root))
    }

    /// The entities that the device shows in Home Assistant, each with the topic on
    /// which it is announced under the usual discovery root. A device whose kind is unknown
    /// shows none.
    pub fn get_discovery_payloads(&self, topic_root: &str) -> (r: Vec<(String, JsonObject)>)
        ensures
            announced(r@) == self@.discovery(topic_root@),
    {
        self.get_discovery_payloads_under("homeassistant", topic_root)
    }

    fn build_entities(&self, topic_root: &str) -> (r: Vec<(String, JsonObject)>)
        ensures
            announced(r@) == self@.entities(topic_root@),
    {
        match self.state {
            SensorState::Chime => self.build_chime_discovery(topic_root),
            SensorState::Unknown => {
                let none: Vec<(String, JsonObject)> = Vec::new();
                proof {
                    assert(announced(none@) =~= Seq::empty());
                }
                none
            },
            _ => self.build_sensor_discovery(topic_root),
        }
    }
}

// ---------------------------------------------------------------------------
// Laws
// ---------------------------------------------------------------------------

/// Every entity of a device is announced under the configured discovery root, and the
/// root changes nothing else: topics differ in it alone, configurations not at all.
pub proof fn law_discovery_stands_under_its_root(
    s: SensorView,
    hass: Seq<char>,
    other: Seq<char>,
    root: Seq<char>,
    i: int,
)
    requires
        0 <= i < s.discovery_under(hass, root).len(),
    ensures
        s.discovery_under(other, root).len() == s.discovery_under(hass, root).len(),
        text::has_prefix(s.discovery_under(hass, root)[i].0, hass),
        ({
            let a = s.discovery_under(hass, root)[i];
            let b = s.discovery_under(other, root)[i];
            &&& a.0.subrange(hass.len() as int, a.0.len() as int) == b.0.subrange(
                other.len() as int,
                b.0.len() as int,
            )
            &&& a.1 == b.1
        }),
{
    let path = s.entities(root)[i].0;
    let a = hass + path;
    let b = other + path;
    assert(a.subrange(0, hass.len() as int) =~= hass);
    assert(a.subrange(hass.len() as int, a.len() as int) =~= path);
    assert(b.subrange(other.len() as int, b.len() as int) =~= path);
}

/// How many entities a device shows: five for a contact or motion sensor, six for
/// a climate sensor, seven for a leak sensor, two less without a battery; two for a
/// chime, none for a device of unknown kind.
pub proof fn law_number_of_entities(s: SensorView, hass: Seq<char>, root: Seq<char>)
    ensures
        s.discovery_under(hass, root).len() == (match s.state {
            SensorState::Chime => 2int,
            SensorState::Unknown => 0,
            SensorState::Leak { .. } => if s.battery_pct is Some {
                7
            } else {
                5
            },
            SensorState::Climate { .. } => if s.battery_pct is Some {
                6
            } else {
                4
            },
            _ => if s.battery_pct is Some {
                5
            } else {
                3
            },
        }),
{
}

/// Every entity of a sensor reads the topic on which the sensor's state is published,
/// and belongs to the sensor's device.
pub proof fn law_entities_read_the_state_topic(
    s: SensorView,
    hass: Seq<char>,
    root: Seq<char>,
    i: int,
)
    requires
        !(s.state is Chime),
        0 <= i < s.discovery_under(hass, root).len(),
    ensures
        ({
            let c = s.discovery_under(hass, root)[i].1;
            &&& c.contains_key("state_topic"@)
            &&& c["state_topic"@] == JsonView::Text(state_topic(root, s.mac))
            &&& c.contains_key("device"@)
            &&& c["device"@] == JsonView::Device(s.device())
        }),
{
    lemma_names_differ();
}

proof fn lemma_names_differ()
    ensures
        "state_topic"@.len() == 11,
        "device"@.len() == 6,
        "value_template"@.len() == 14,
        "device_class"@.len() == 12,
        "unit_of_measurement"@.len() == 19,
        "state_class"@.len() == 11,
        "state_class"@[6] == 'c',
        "state_topic"@[6] == 't',
        "unique_id"@.len() == 9,
        "availability"@.len() == 12,
        "availability_mode"@.len() == 17,
        "entity_category"@.len() == 15,
        "name"@.len() == 4,
        "json_attributes_topic"@.len() == 21,
        "payload_on"@.len() == 10,
        "payload_off"@.len() == 11,
        "payload_off"@[0] == 'p',
        "state_topic"@[0] == 's',
        "availability_template"@.len() == 21,
        "payload_available"@.len() == 17,
        "payload_not_available"@.len() == 21,
        "command_topic"@.len() == 13,
        "icon"@.len() == 4,
        "icon"@[0] == 'i',
        "name"@[0] == 'n',
        "availability"@[0] == 'a',
        "device_class"@[0] == 'd',
        "availability_mode"@[0] == 'a',
        "payload_available"@[0] == 'p',
        "json_attributes_topic"@[0] == 'j',
        "availability_template"@[0] == 'a',
        "payload_not_available"@[0] == 'p',
{
    reveal_strlit("command_topic");
    reveal_strlit("icon");
    reveal_strlit("state_topic");
    reveal_strlit("device");
    reveal_strlit("value_template");
    reveal_strlit("device_class");
    reveal_strlit("unit_of_measurement");
    reveal_strlit("state_class");
    reveal_strlit("unique_id");
    reveal_strlit("availability");
    reveal_strlit("availability_mode");
    reveal_strlit("entity_category");
    reveal_strlit("name");
    reveal_strlit("json_attributes_topic");
    reveal_strlit("payload_on");
    reveal_strlit("payload_off");
    reveal_strlit("availability_template");
    reveal_strlit("payload_available");
    reveal_strlit("payload_not_available");
}

/// The position of the first entity that is particular to a kind of sensor: behind chip
/// temperature and signal strength, and behind level and voltage where there is a battery.
pub open spec fn first_own_entity(s: SensorView) -> int {
    if s.battery_pct is Some {
        4
    } else {
        2
    }
}

/// The state entity of a sensor understands what the sensor publishes: its `payload_on` is
/// the text that the state payload carries under `state` while the sensor is open, active
/// or wet, and its `payload_off` the text while it is closed, inactive or dry. For a contact
/// sensor these are `open` and `closed`.
pub proof fn law_state_entity_understands_the_payload(
    s: SensorView,
    hass: Seq<char>,
    root: Seq<char>,
)
    requires
        s.state is Contact || s.state is Motion || s.state is Leak,
    ensures
        ({
            let n = first_own_entity(s);
            let c = s.discovery_under(hass, root)[n].1;
            let (on, off) = match s.state {
                SensorState::Contact { .. } => (
                    SensorState::Contact { is_open: true },
                    SensorState::Contact { is_open: false },
                ),
                SensorState::Motion { .. } => (
                    SensorState::Motion { is_active: true },
                    SensorState::Motion { is_active: false },
                ),
                _ => (
                    SensorState::Leak { is_wet: true, probe_is_wet: s.state->probe_is_wet },
                    SensorState::Leak { is_wet: false, probe_is_wet: s.state->probe_is_wet },
                ),
            };
            &&& n < s.discovery_under(hass, root).len()
            &&& s.discovery_under(hass, root)[n].0 == hass + "/binary_sensor/wyzesense_"@ + s.mac
                + "/state/config"@
            &&& s.discovery_under(hass, root)[n].1["unique_id"@] == JsonView::Text(
                "wyzesense_"@ + s.mac + "_"@ + "state"@,
            )
            &&& c.contains_key("payload_on"@)
            &&& c["payload_on"@] == (SensorView { state: on, ..s }).state_payload()["state"@]
            &&& c.contains_key("payload_off"@)
            &&& c["payload_off"@] == (SensorView { state: off, ..s }).state_payload()["state"@]
            &&& c.contains_key("value_template"@)
            &&& c["value_template"@] == JsonView::Text("{{ value_json.state }}"@)
            &&& s.state is Contact ==> c["payload_on"@] == JsonView::Text("open"@)
                && c["payload_off"@] == JsonView::Text("closed"@)
            &&& s.state is Motion ==> c["payload_on"@] == JsonView::Text("active"@)
                && c["payload_off"@] == JsonView::Text("inactive"@)
            &&& s.state is Leak ==> c["payload_on"@] == JsonView::Text("wet"@) && c["payload_off"@]
                == JsonView::Text("dry"@)
            &&& c["device_class"@] == JsonView::Text(
                if s.state is Contact {
                    "opening"@
                } else if s.state is Motion {
                    "motion"@
                } else {
                    "moisture"@
                },
            )
        }),
{
    lemma_names_differ();
    lemma_templates();
    lemma_paths(hass, s.mac);
    sensor::law_payload_tells_the_state(s);
    reveal_strlit("state");
    reveal_strlit("probe_state");
    reveal_strlit("probe_available");
}

/// A configuration that shows a measured value: the field of the state payload that its
/// template picks, its device class and its unit.
pub open spec fn shows_measurement(
    c: Config,
    template: Seq<char>,
    class: Seq<char>,
    unit: Seq<char>,
) -> bool {
    &&& c.contains_key("value_template"@) && c["value_template"@] == JsonView::Text(template)
    &&& c.contains_key("device_class"@) && c["device_class"@] == JsonView::Text(class)
    &&& c.contains_key("unit_of_measurement"@) && c["unit_of_measurement"@] == JsonView::Text(
        unit,
    )
    &&& c.contains_key("state_class"@) && c["state_class"@] == JsonView::Text("measurement"@)
}

/// The entities that all sensors have show what they are named after: level and voltage of
/// a battery where there is one, the chip temperature, the signal strength, each announced
/// under its own name.
pub proof fn law_common_entities_show_their_reading(
    s: SensorView,
    hass: Seq<char>,
    root: Seq<char>,
)
    requires
        !(s.state is Chime),
        !(s.state is Unknown),
    ensures
        ({
            let d = s.discovery_under(hass, root);
            let n = first_own_entity(s);
            &&& d.len() > n
            &&& s.battery_pct is Some ==> {
                &&& d[0].0 == hass + "/sensor/wyzesense_"@ + s.mac + "/battery/config"@
                &&& d[0].1["unique_id"@] == JsonView::Text(
                    "wyzesense_"@ + s.mac + "_"@ + "battery"@,
                )
                &&& shows_measurement(d[0].1, "{{ value_json.battery }}"@, "battery"@, "%"@)
                &&& d[1].0 == hass + "/sensor/wyzesense_"@ + s.mac + "/battery_voltage/config"@
                &&& d[1].1["unique_id"@] == JsonView::Text(
                    "wyzesense_"@ + s.mac + "_"@ + "battery_voltage"@,
                )
                &&& shows_measurement(d[1].1, "{{ value_json.battery_voltage }}"@, "voltage"@, "V"@)
            }
            &&& d[n - 2].0 == hass + "/sensor/wyzesense_"@ + s.mac + "/die_temperature/config"@
            &&& d[n - 2].1["unique_id"@] == JsonView::Text(
                "wyzesense_"@ + s.mac + "_"@ + "die_temperature"@,
            )
            &&& shows_measurement(
                d[n - 2].1,
                "{{ value_json.die_temperature }}"@,
                "temperature"@,
                "°C"@,
            )
            &&& d[n - 2].1["name"@] == JsonView::Text("Die Temperature"@)
            &&& d[n - 1].0 == hass + "/sensor/wyzesense_"@ + s.mac + "/signal_strength/config"@
            &&& d[n - 1].1["unique_id"@] == JsonView::Text(
                "wyzesense_"@ + s.mac + "_"@ + "signal_strength"@,
            )
            &&& shows_measurement(
                d[n - 1].1,
                "{{ value_json.signal_strength }}"@,
                "signal_strength"@,
                "dBm"@,
            )
            &&& forall|i: int|
                0 <= i < n ==> (#[trigger] d[i]).1.contains_key("entity_category"@)
                    && d[i].1["entity_category"@] == JsonView::Text("diagnostic"@)
        }),
{
    lemma_names_differ();
    lemma_templates();
    lemma_paths(hass, s.mac);
}

/// A climate sensor shows temperature and humidity, each read from the field of its own
/// name.
pub proof fn law_climate_entities_show_their_reading(
    s: SensorView,
    hass: Seq<char>,
    root: Seq<char>,
)
    requires
        s.state is Climate,
    ensures
        ({
            let d = s.discovery_under(hass, root);
            let n = first_own_entity(s);
            &&& d.len() == n + 2
            &&& d[n].0 == hass + "/sensor/wyzesense_"@ + s.mac + "/temperature/config"@
            &&& d[n].1["unique_id"@] == JsonView::Text(
                "wyzesense_"@ + s.mac + "_"@ + "temperature"@,
            )
            &&& shows_measurement(
                d[n].1,
                "{{ value_json.temperature }}"@,
                "temperature"@,
                "°C"@,
            )
            &&& d[n].1["name"@] == JsonView::Text("Temperature"@)
            &&& d[n + 1].0 == hass + "/sensor/wyzesense_"@ + s.mac + "/humidity/config"@
            &&& d[n + 1].1["unique_id"@] == JsonView::Text(
                "wyzesense_"@ + s.mac + "_"@ + "humidity"@,
            )
            &&& shows_measurement(d[n + 1].1, "{{ value_json.humidity }}"@, "humidity"@, "%"@)
            &&& d[n + 1].1["name"@] == JsonView::Text("Humidity"@)
        }),
{
    lemma_names_differ();
    lemma_templates();
    lemma_paths(hass, s.mac);
}

/// The probe entities of a leak sensor understand what the sensor publishes: whether there
/// is a probe, and the texts for a wet probe and a dry one. Without a probe the moisture
/// entity is not available.
pub proof fn law_probe_entities_understand_the_payload(
    s: SensorView,
    hass: Seq<char>,
    root: Seq<char>,
)
    requires
        s.state is Leak,
    ensures
        ({
            let d = s.discovery_under(hass, root);
            let n = first_own_entity(s);
            let c = d[n + 2].1;
            let wet = SensorView {
                state: SensorState::Leak { is_wet: s.state->is_wet, probe_is_wet: Some(true) },
                ..s
            };
            let dry = SensorView {
                state: SensorState::Leak { is_wet: s.state->is_wet, probe_is_wet: Some(false) },
                ..s
            };
            &&& d.len() == n + 3
            &&& d[n + 1].0 == hass + "/binary_sensor/wyzesense_"@ + s.mac
                + "/probe_available/config"@
            &&& d[n + 1].1["unique_id"@] == JsonView::Text(
                "wyzesense_"@ + s.mac + "_"@ + "probe_available"@,
            )
            &&& d[n + 1].1["value_template"@] == JsonView::Text(
                "{{ 'ON' if value_json.probe_available else 'OFF' }}"@,
            )
            &&& d[n + 1].1["device_class"@] == JsonView::Text("connectivity"@)
            &&& d[n + 2].0 == hass + "/binary_sensor/wyzesense_"@ + s.mac + "/probe_state/config"@
            &&& d[n + 2].1["unique_id"@] == JsonView::Text(
                "wyzesense_"@ + s.mac + "_"@ + "probe_state"@,
            )
            &&& c["value_template"@] == JsonView::Text("{{ value_json.probe_state }}"@)
            &&& c["device_class"@] == JsonView::Text("moisture"@)
            &&& c["payload_on"@] == wet.state_payload()["probe_state"@]
            &&& c["payload_on"@] == JsonView::Text("wet"@)
            &&& c["payload_off"@] == dry.state_payload()["probe_state"@]
            &&& c["payload_off"@] == JsonView::Text("dry"@)
            &&& c["availability_template"@] == JsonView::Text(
                "{{ 'online' if value_json.probe_available else 'offline' }}"@,
            )
            &&& c["payload_available"@] == JsonView::Text("online"@)
            &&& c["payload_not_available"@] == JsonView::Text("offline"@)
        }),
{
    lemma_names_differ();
    lemma_templates();
    lemma_paths(hass, s.mac);
    reveal_strlit("state");
    reveal_strlit("probe_state");
    reveal_strlit("probe_available");
}

/// A chime shows its signal strength and a button, and the button writes to the chime's own
/// command topic.
pub proof fn law_chime_entities(s: SensorView, hass: Seq<char>, root: Seq<char>)
    requires
        s.state is Chime,
    ensures
        ({
            let d = s.discovery_under(hass, root);
            &&& d.len() == 2
            &&& d[0].0 == hass + "/sensor/wyzesense_"@ + s.mac + "/signal_strength/config"@
            &&& d[0].1["unique_id"@] == JsonView::Text(
                "wyzesense_"@ + s.mac + "_"@ + "signal_strength"@,
            )
            &&& shows_measurement(
                d[0].1,
                "{{ value_json.signal_strength }}"@,
                "signal_strength"@,
                "dBm"@,
            )
            &&& d[0].1["state_topic"@] == JsonView::Text(root + "/"@ + s.mac)
            &&& d[1].0 == hass + "/button/wyzesense_"@ + s.mac + "/chime/config"@
            &&& d[1].1["unique_id"@] == JsonView::Text(
                "wyzesense_"@ + s.mac + "_"@ + "chime"@,
            )
            &&& d[1].1["command_topic"@] == JsonView::Text(root + "/"@ + s.mac + "/chime"@)
            &&& forall|i: int|
                0 <= i < 2 ==> (#[trigger] d[i]).1["availability"@] == JsonView::Topics(
                    seq![root + "/status"@],
                )
        }),
{
    lemma_names_differ();
    lemma_templates();
    lemma_paths(hass, s.mac);
}

/// Every entity belongs to the device that its address names: the device carries the
/// address twice, alone and behind the name of the bridge, and the name that the user gave.
pub proof fn law_entities_belong_to_the_device(
    s: SensorView,
    hass: Seq<char>,
    root: Seq<char>,
    i: int,
)
    requires
        0 <= i < s.discovery_under(hass, root).len(),
    ensures
        ({
            let c = s.discovery_under(hass, root)[i].1;
            &&& c.contains_key("device"@)
            &&& c["device"@] is Device
            &&& c["device"@]->Device_0.identifiers.len() == 2
            &&& c["device"@]->Device_0.identifiers[0] == "wyzesense_"@ + s.mac
            &&& c["device"@]->Device_0.identifiers[1] == s.mac
            &&& c["device"@]->Device_0.name == s.friendly_name
            &&& c["device"@]->Device_0.model == s.sensor_type.model()
            &&& c["device"@]->Device_0.manufacturer == "Wyze"@
            &&& c["device"@]->Device_0.via_device == "wyzesense2mqtt"@
            &&& c.contains_key("unique_id"@)
            &&& c["unique_id"@] is Text
            &&& text::has_prefix(c["unique_id"@]->Text_0, "wyzesense_"@ + s.mac + "_"@)
            &&& c["availability_mode"@] == JsonView::Text("all"@)
        }),
{
    lemma_names_differ();
    let c = s.entities(root)[i].1;
    let id = s.device_id() + "_"@;
    assert(c["unique_id"@]->Text_0.subrange(0, id.len() as int) =~= id);
}

/// An entity of a sensor is available while the bridge and the sensor are: it names the
/// topics on which the two are told. The moisture of a probe alone goes by the probe.
pub proof fn law_entities_follow_bridge_and_sensor(
    s: SensorView,
    hass: Seq<char>,
    root: Seq<char>,
    i: int,
)
    requires
        !(s.state is Chime),
        0 <= i < s.discovery_under(hass, root).len(),
        s.state is Leak ==> i != first_own_entity(s) + 2,
    ensures
        s.discovery_under(hass, root)[i].1.contains_key("availability"@),
        s.discovery_under(hass, root)[i].1["availability"@] == JsonView::Topics(
            seq![root + "/status"@, root + "/"@ + s.mac + "/status"@],
        ),
{
    lemma_names_differ();
}

/// Unless it is told otherwise, a device is announced where Home Assistant listens.
pub proof fn law_usual_discovery_root(s: SensorView, root: Seq<char>, i: int)
    requires
        0 <= i < s.discovery(root).len(),
    ensures
        s.discovery(root) == s.discovery_under("homeassistant"@, root),
        text::has_prefix(s.discovery(root)[i].0, "homeassistant"@),
{
    law_discovery_stands_under_its_root(s, "homeassistant"@, "homeassistant"@, root, i);
}

proof fn lemma_templates()
    ensures
        field_template("battery"@) == "{{ value_json.battery }}"@,
        field_template("battery_voltage"@) == "{{ value_json.battery_voltage }}"@,
        field_template("die_temperature"@) == "{{ value_json.die_temperature }}"@,
        field_template("signal_strength"@) == "{{ value_json.signal_strength }}"@,
        field_template("state"@) == "{{ value_json.state }}"@,
        field_template("probe_state"@) == "{{ value_json.probe_state }}"@,
        field_template("temperature"@) == "{{ value_json.temperature }}"@,
        field_template("humidity"@) == "{{ value_json.humidity }}"@,
{
    reveal_strlit("{{ value_json.");
    reveal_strlit(" }}");
    reveal_strlit("battery");
    reveal_strlit("{{ value_json.battery }}");
    assert(field_template("battery"@) =~= "{{ value_json.battery }}"@);
    reveal_strlit("battery_voltage");
    reveal_strlit("{{ value_json.battery_voltage }}");
    assert(field_template("battery_voltage"@) =~= "{{ value_json.battery_voltage }}"@);
    reveal_strlit("die_temperature");
    reveal_strlit("{{ value_json.die_temperature }}");
    assert(field_template("die_temperature"@) =~= "{{ value_json.die_temperature }}"@);
    reveal_strlit("signal_strength");
    reveal_strlit("{{ value_json.signal_strength }}");
    assert(field_template("signal_strength"@) =~= "{{ value_json.signal_strength }}"@);
    reveal_strlit("state");
    reveal_strlit("{{ value_json.state }}");
    assert(field_template("state"@) =~= "{{ value_json.state }}"@);
    reveal_strlit("probe_state");
    reveal_strlit("{{ value_json.probe_state }}");
    assert(field_template("probe_state"@) =~= "{{ value_json.probe_state }}"@);
    reveal_strlit("temperature");
    reveal_strlit("{{ value_json.temperature }}");
    assert(field_template("temperature"@) =~= "{{ value_json.temperature }}"@);
    reveal_strlit("humidity");
    reveal_strlit("{{ value_json.humidity }}");
    assert(field_template("humidity"@) =~= "{{ value_json.humidity }}"@);
}

proof fn lemma_paths(hass: Seq<char>, mac: Seq<char>)
    ensures
        hass + config_path("sensor"@, "wyzesense_"@ + mac, "battery"@) == hass
            + "/sensor/wyzesense_"@ + mac + "/battery/config"@,
        hass + config_path("sensor"@, "wyzesense_"@ + mac, "battery_voltage"@) == hass
            + "/sensor/wyzesense_"@ + mac + "/battery_voltage/config"@,
        hass + config_path("sensor"@, "wyzesense_"@ + mac, "die_temperature"@) == hass
            + "/sensor/wyzesense_"@ + mac + "/die_temperature/config"@,
        hass + config_path("sensor"@, "wyzesense_"@ + mac, "signal_strength"@) == hass
            + "/sensor/wyzesense_"@ + mac + "/signal_strength/config"@,
        hass + config_path("sensor"@, "wyzesense_"@ + mac, "temperature"@) == hass
            + "/sensor/wyzesense_"@ + mac + "/temperature/config"@,
        hass + config_path("sensor"@, "wyzesense_"@ + mac, "humidity"@) == hass
            + "/sensor/wyzesense_"@ + mac + "/humidity/config"@,
        hass + config_path("binary_sensor"@, "wyzesense_"@ + mac, "state"@) == hass
            + "/binary_sensor/wyzesense_"@ + mac + "/state/config"@,
        hass + config_path("binary_sensor"@, "wyzesense_"@ + mac, "probe_available"@) == hass
            + "/binary_sensor/wyzesense_"@ + mac + "/probe_available/config"@,
        hass + config_path("binary_sensor"@, "wyzesense_"@ + mac, "probe_state"@) == hass
            + "/binary_sensor/wyzesense_"@ + mac + "/probe_state/config"@,
        hass + config_path("button"@, "wyzesense_"@ + mac, "chime"@) == hass
            + "/button/wyzesense_"@ + mac + "/chime/config"@,
{
    reveal_strlit("/");
    reveal_strlit("/config");
    reveal_strlit("wyzesense_");
    reveal_strlit("sensor");
    reveal_strlit("/sensor/wyzesense_");
    reveal_strlit("binary_sensor");
    reveal_strlit("/binary_sensor/wyzesense_");
    reveal_strlit("button");
    reveal_strlit("/button/wyzesense_");
    reveal_strlit("battery");
    reveal_strlit("/battery/config");
    assert(hass + config_path("sensor"@, "wyzesense_"@ + mac, "battery"@) =~= hass
        + "/sensor/wyzesense_"@ + mac + "/battery/config"@);
    reveal_strlit("battery_voltage");
    reveal_strlit("/battery_voltage/config");
    assert(hass + config_path("sensor"@, "wyzesense_"@ + mac, "battery_voltage"@) =~= hass
        + "/sensor/wyzesense_"@ + mac + "/battery_voltage/config"@);
    reveal_strlit("die_temperature");
    reveal_strlit("/die_temperature/config");
    assert(hass + config_path("sensor"@, "wyzesense_"@ + mac, "die_temperature"@) =~= hass
        + "/sensor/wyzesense_"@ + mac + "/die_temperature/config"@);
    reveal_strlit("signal_strength");
    reveal_strlit("/signal_strength/config");
    assert(hass + config_path("sensor"@, "wyzesense_"@ + mac, "signal_strength"@) =~= hass
        + "/sensor/wyzesense_"@ + mac + "/signal_strength/config"@);
    reveal_strlit("temperature");
    reveal_strlit("/temperature/config");
    assert(hass + config_path("sensor"@, "wyzesense_"@ + mac, "temperature"@) =~= hass
        + "/sensor/wyzesense_"@ + mac + "/temperature/config"@);
    reveal_strlit("humidity");
    reveal_strlit("/humidity/config");
    assert(hass + config_path("sensor"@, "wyzesense_"@ + mac, "humidity"@) =~= hass
        + "/sensor/wyzesense_"@ + mac + "/humidity/config"@);
    reveal_strlit("state");
    reveal_strlit("/state/config");
    assert(hass + config_path("binary_sensor"@, "wyzesense_"@ + mac, "state"@) =~= hass
        + "/binary_sensor/wyzesense_"@ + mac + "/state/config"@);
    reveal_strlit("probe_available");
    reveal_strlit("/probe_available/config");
    assert(hass + config_path("binary_sensor"@, "wyzesense_"@ + mac, "probe_available"@) =~= hass
        + "/binary_sensor/wyzesense_"@ + mac + "/probe_available/config"@);
    reveal_strlit("probe_state");
    reveal_strlit("/probe_state/config");
    assert(hass + config_path("binary_sensor"@, "wyzesense_"@ + mac, "probe_state"@) =~= hass
        + "/binary_sensor/wyzesense_"@ + mac + "/probe_state/config"@);
    reveal_strlit("chime");
    reveal_strlit("/chime/config");
    assert(hass + config_path("button"@, "wyzesense_"@ + mac, "chime"@) =~= hass
        + "/button/wyzesense_"@ + mac + "/chime/config"@);
}

/// Every entity of a device is announced under the device's identifier.
pub proof fn law_entity_topics(s: SensorView, root: Seq<char>, i: int)
    requires
        0 <= i < s.entities(root).len(),
    ensures
        exists|component: Seq<char>, key: Seq<char>|
            s.entities(root)[i].0 == #[trigger] config_path(component, s.device_id(), key),
{
    let t = s.entities(root)[i].0;
    let id = s.device_id();
    assert(t == config_path("sensor"@, id, "battery"@) || t == config_path(
        "sensor"@,
        id,
        "battery_voltage"@,
    ) || t == config_path("sensor"@, id, "die_temperature"@) || t == config_path(
        "sensor"@,
        id,
        "signal_strength"@,
    ) || t == config_path("binary_sensor"@, id, "state"@) || t == config_path(
        "binary_sensor"@,
        id,
        "probe_available"@,
    ) || t == config_path("binary_sensor"@, id, "probe_state"@) || t == config_path(
        "sensor"@,
        id,
        "temperature"@,
    ) || t == config_path("sensor"@, id, "humidity"@) || t == config_path(
        "button"@,
        id,
        "chime"@,
    ));
}

} // verus!
