//! Which sensors can be reached, by what the user says of them and what is remembered.
use crate::config::sensors::{MetadataView, SensorsConfig};
use crate::config::state::{PersistedView, SystemState};
use crate::registry::Registry;
use crate::text;
use vstd::prelude::*;
use vstd::string::*;

verus! {

/// Whether each sensor was online at the last look.
pub type Online = Map<Seq<char>, bool>;

/// The moment at which a sensor was last seen lies in the past.
pub open spec fn seen_by(memory: Map<Seq<char>, PersistedView>, k: Seq<char>, now: u64) -> bool {
    memory.contains_key(k) ==> memory[k].last_seen <= now
}

/// How long a sensor may be silent.
pub open spec fn allowed_silence(m: MetadataView, default_timeout: u64) -> u64 {
    match m.timeout_sec {
        Some(t) => t,
        None => default_timeout,
    }
}

/// A sensor counts as online while it has been silent for less than it may.
pub open spec fn counts_as_online(
    c: PersistedView,
    m: MetadataView,
    default_timeout: u64,
    now: u64,
) -> bool {
    now - c.last_seen < allowed_silence(m, default_timeout)
}

/// A sensor that nobody looked at counts as having been online.
pub open spec fn was_online(online: Online, k: Seq<char>) -> bool {
    online.contains_key(k) ==> online[k]
}

/// A look at the sensors that the user names, in their order: whether each is online now,
/// and those that went offline since the last look. A sensor of which nothing is
/// remembered is not looked at.
pub open spec fn looked(
    config: Map<Seq<char>, MetadataView>,
    memory: Map<Seq<char>, PersistedView>,
    default_timeout: u64,
    online: Online,
    keys: Seq<Seq<char>>,
    now: u64,
) -> (Online, Seq<Seq<char>>)
    decreases keys.len(),
{
    if keys.len() == 0 {
        (online, Seq::empty())
    } else {
        let k = keys.last();
        let (o, gone) = looked(config, memory, default_timeout, online, keys.drop_last(), now);
        if memory.contains_key(k) {
            let on = counts_as_online(memory[k], config[k], default_timeout, now);
            (
                o.insert(k, on),
                if !on && was_online(o, k) {
                    gone.push(k)
                } else {
                    gone
                },
            )
        } else {
            (o, gone)
        }
    }
}

/// Watches over sensors.
#[derive(Debug)]
pub struct AvailabilityMonitor {
    sensors_config: SensorsConfig,
    default_timeout: u64,
    online_sensors: Registry<bool>,
}

impl AvailabilityMonitor {
    pub closed spec fn wf(&self) -> bool {
        self.sensors_config.sensors.wf() && self.online_sensors.wf()
    }

    /// What the user says of the sensors.
    pub closed spec fn config(&self) -> Map<Seq<char>, MetadataView> {
        self.sensors_config.sensors@
    }

    /// The sensors that the user names.
    pub closed spec fn watched(&self) -> Seq<Seq<char>> {
        self.sensors_config.sensors.keys()
    }

    /// How long a sensor may be silent of which the user does not say it, in seconds.
    pub closed spec fn timeout(&self) -> u64 {
        self.default_timeout
    }

    /// Whether each sensor was online at the last look.
    pub closed spec fn online(&self) -> Online {
        self.online_sensors@
    }

    /// A monitor that has not looked at any sensor.
    pub fn new(sensors_config: SensorsConfig, default_timeout: u64) -> (r: Self)
        requires
            sensors_config.sensors.wf(),
        ensures
            r.wf(),
            r.config() == sensors_config.sensors@,
            r.watched() == sensors_config.sensors.keys(),
            r.timeout() == default_timeout,
            r.online() == Map::<Seq<char>, bool>::empty(),
    {
        AvailabilityMonitor { sensors_config, default_timeout, online_sensors: Registry::new() }
    }

    /// Looks at the sensors at a second, and tells which went offline since the last look.
    pub fn check_availabilities(&mut self, state: &SystemState, now: u64) -> (r: Vec<String>)
        requires
            old(self).wf(),
            state.sensors.wf(),
            forall|i: int|
                #![auto]
                0 <= i < old(self).watched().len() ==> seen_by(
                    state.sensors@,
                    old(self).watched()[i],
                    now,
                ),
        ensures
            final(self).wf(),
            final(self).config() == old(self).config(),
            final(self).watched() == old(self).watched(),
            final(self).timeout() == old(self).timeout(),
            (final(self).online(), text::views(r@)) == looked(
                old(self).config(),
                state.sensors@,
                old(self).timeout(),
                old(self).online(),
                old(self).watched(),
                now,
            ),
    {
        let ghost keys = self.watched();
        let mut gone: Vec<String> = Vec::new();
        proof {
            assert(text::views(gone@) =~= Seq::empty());
        }
        let mut i: usize = 0;
        while i < self.sensors_config.sensors.len()
            invariant
                self.wf(),
                state.sensors.wf(),
                self.config() == old(self).config(),
                self.watched() == old(self).watched(),
                self.timeout() == old(self).timeout(),
                keys == old(self).watched(),
                i <= keys.len(),
                forall|j: int|
                    #![auto]
                    0 <= j < keys.len() ==> seen_by(state.sensors@, keys[j], now),
                (self.online(), text::views(gone@)) == looked(
                    old(self).config(),
                    state.sensors@,
                    old(self).timeout(),
                    old(self).online(),
                    keys.subrange(0, i as int),
                    now,
                ),
            decreases keys.len() - i,
        {
            let mac = self.sensors_config.sensors.key(i).to_owned();
            proof {
                let w = keys.subrange(0, i + 1);
                assert(w.drop_last() =~= keys.subrange(0, i as int));
                assert(w.last() == mac@);
                assert(seen_by(state.sensors@, keys[i as int], now));
            }
            let timeout_sec: u64 = match self.sensors_config.sensors.value(i).timeout_sec {
                Some(t) => t,
                None => self.default_timeout,
            };
            match state.sensors.get(mac.as_str()) {
                Some(s) => {
                    let is_online = now - s.last_seen < timeout_sec;
                    let was_online: bool = match self.online_sensors.get(mac.as_str()) {
                        Some(b) => *b,
                        None => true,
                    };
                    if !is_online && was_online {
                        let ghost before = gone@;
                        gone.push(mac.clone());
                        proof {
                            assert(text::views(gone@) =~= text::views(before).push(mac@));
                        }
                    }
                    self.online_sensors.insert(mac, is_online);
                },
                None => {},
            }
            i += 1;
        }
        proof {
            assert(keys.subrange(0, keys.len() as int) =~= keys);
        }
        gone
    }
}

/// A sensor is told offline once: while it stays silent, a later look does not tell it
/// again.
pub proof fn law_offline_is_told_once(
    config: Map<Seq<char>, MetadataView>,
    memory: Map<Seq<char>, PersistedView>,
    default_timeout: u64,
    online: Online,
    k: Seq<char>,
    now: u64,
    later: u64,
)
    requires
        now <= later,
        memory.contains_key(k),
        !counts_as_online(memory[k], config[k], default_timeout, now),
    ensures
        ({
            let first = looked(config, memory, default_timeout, online, seq![k], now);
            let second = looked(config, memory, default_timeout, first.0, seq![k], later);
            &&& was_online(online, k) ==> first.1 == seq![k]
            &&& second.1 == Seq::<Seq<char>>::empty()
        }),
{
    let keys = seq![k];
    assert(keys.drop_last() =~= Seq::<Seq<char>>::empty());
    let first = looked(config, memory, default_timeout, online, keys, now);
    reveal_with_fuel(looked, 2);
    assert(Seq::<Seq<char>>::empty().push(k) =~= keys);
    assert(first.0[k] == false);
}

/// A look finds every sensor that the user names and that is remembered: it counts as online
/// exactly while it has been silent for fewer seconds than it may, by what the user says of
/// it or else by what holds for all. It is told as gone exactly where it was online at the
/// last look and no longer is; one that was never looked at counts as having been online.
pub proof fn law_look_finds_every_sensor(
    config: Map<Seq<char>, MetadataView>,
    memory: Map<Seq<char>, PersistedView>,
    default_timeout: u64,
    online: Online,
    keys: Seq<Seq<char>>,
    now: u64,
    k: Seq<char>,
)
    requires
        keys.no_duplicates(),
    ensures
        ({
            let (after, gone) = looked(config, memory, default_timeout, online, keys, now);
            let may: u64 = if config[k].timeout_sec is Some {
                config[k].timeout_sec->0
            } else {
                default_timeout
            };
            let seen = keys.contains(k) && memory.contains_key(k);
            let silent = now - memory[k].last_seen >= may;
            &&& seen ==> after.contains_key(k) && (after[k] <==> !silent)
            &&& !seen ==> after.contains_key(k) == online.contains_key(k) && (online.contains_key(k)
                ==> after[k] == online[k])
            &&& gone.contains(k) <==> seen && silent && (online.contains_key(k) ==> online[k])
        }),
    decreases keys.len(),
{
    if keys.len() > 0 {
        let d = keys.drop_last();
        let last = keys.last();
        assert(keys[keys.len() - 1] == last);
        assert(!d.contains(last)) by {
            if d.contains(last) {
                assert(keys[d.index_of(last)] == keys[keys.len() - 1]);
            }
        }
        assert(keys.contains(k) <==> d.contains(k) || k == last) by {
            if d.contains(k) {
                assert(keys[d.index_of(k)] == k);
            }
            if keys.contains(k) && k != last {
                assert(d[keys.index_of(k)] == k);
            }
        }
        law_look_finds_every_sensor(config, memory, default_timeout, online, d, now, k);
        let gone = looked(config, memory, default_timeout, online, d, now).1;
        assert(gone.push(last).contains(k) <==> gone.contains(k) || k == last) by {
            if gone.contains(k) {
                assert(gone.push(last)[gone.index_of(k)] == k);
            }
            assert(gone.push(last)[gone.len() as int] == last);
        }
    }
}

} // verus!
