//! What the bridge is configured with, and the table that routes a topic to
//! the device registered for it.

use vstd::prelude::*;
use crate::error::BridgeError;
use crate::hem::{DeviceId, SensorIds};

verus! {

/// How much the bridge logs.
#[derive(Debug, Clone, Copy, PartialEq, Eq, Structural)]
pub enum LogLevel {
    Trace,
    Debug,
    Info,
    Warn,
    Error,
}

/// The level that a word names. Only the five lower-case names count.
pub open spec fn level_named(word: Seq<char>) -> Option<LogLevel> {
    if word == "trace"@ {
        Some(LogLevel::Trace)
    } else if word == "debug"@ {
        Some(LogLevel::Debug)
    } else if word == "info"@ {
        Some(LogLevel::Info)
    } else if word == "warn"@ {
        Some(LogLevel::Warn)
    } else if word == "error"@ {
        Some(LogLevel::Error)
    } else {
        None
    }
}

impl std::str::FromStr for LogLevel {
    type Err = String;

    /// Reads a level from its name; any other word is refused with the
    /// message `unknown log level`.
    fn from_str(s: &str) -> (r: Result<Self, Self::Err>)
        ensures
            match level_named(s@) {
                Some(level) => r == Ok::<LogLevel, String>(level),
                None => r is Err && r->Err_0@ == "unknown log level"@,
            },
    {
        let word = s.to_owned();
        if word == "trace".to_owned() {
            Ok(LogLevel::Trace)
        } else if word == "debug".to_owned() {
            Ok(LogLevel::Debug)
        } else if word == "info".to_owned() {
            Ok(LogLevel::Info)
        } else if word == "warn".to_owned() {
            Ok(LogLevel::Warn)
        } else if word == "error".to_owned() {
            Ok(LogLevel::Error)
        } else {
            Err("unknown log level".to_owned())
        }
    }
}

/// One configured device: where it is, what it is called, and the topic on
/// which it publishes.
#[derive(Debug)]
pub struct TopicConfig {
    pub topic: String,
    pub device_name: String,
    pub device_location: String,
}

/// What a configured device says.
pub struct TopicConfigView {
    pub topic: Seq<char>,
    pub device_name: Seq<char>,
    pub device_location: Seq<char>,
}

impl View for TopicConfig {
    type V = TopicConfigView;

    open spec fn view(&self) -> TopicConfigView {
        TopicConfigView {
            topic: self.topic@,
            device_name: self.device_name@,
            device_location: self.device_location@,
        }
    }
}

/// What a list of resolved devices says: each entry with the identifier it
/// was resolved to.
pub open spec fn resolved_view(devices: Seq<(TopicConfig, DeviceId)>) -> Seq<(TopicConfigView, DeviceId)> {
    Seq::new(devices.len(), |i: int| (devices[i].0@, devices[i].1))
}

/// What a topic routes to: the device and the sensor identifiers to report
/// its readings under.
#[derive(Debug, Clone, Copy, PartialEq, Eq, Structural)]
pub struct DeviceContext {
    pub device_id: DeviceId,
    pub sensor_ids: SensorIds,
}

/// The settings that the bridge is started with.
#[derive(Debug)]
pub struct Opts {
    /// Host name or address of the broker.
    pub mqtt_host: String,
    /// Base URL of the remote store.
    pub hemrs_base_url: String,
    /// Path of the file that lists the devices.
    pub config_path: String,
    pub log_level: LogLevel,
}

impl Opts {
    /// The settings in one line, for the log. The log level is left out.
    pub fn to_string(&self) -> (r: String)
        ensures
            r@ == "mqtt_host: "@ + self.mqtt_host@ + ", hemrs_base_url: "@ + self.hemrs_base_url@
                + ", config_path: "@ + self.config_path@,
    {
        let mut line = "mqtt_host: ".to_owned();
        line.append(self.mqtt_host.as_str());
        line.append(", hemrs_base_url: ");
        line.append(self.hemrs_base_url.as_str());
        line.append(", config_path: ");
        line.append(self.config_path.as_str());
        line
    }
}

/// The routes that the first `n` entries make, a later entry replacing an
/// earlier one on the same topic.
spec fn routes(entries: Seq<(String, DeviceContext)>, n: int) -> Map<Seq<char>, DeviceContext>
    decreases n,
{
    if n <= 0 {
        Map::empty()
    } else {
        routes(entries, n - 1).insert(entries[n - 1].0@, entries[n - 1].1)
    }
}

/// The topic of the entry at `i`.
spec fn topic_at(entries: Seq<(String, DeviceContext)>, i: int) -> Seq<char> {
    entries[i].0@
}

/// No topic occurs twice.
spec fn distinct_topics(entries: Seq<(String, DeviceContext)>) -> bool {
    forall|i: int, j: int|
        0 <= i < j < entries.len() ==> #[trigger] topic_at(entries, i) != #[trigger] topic_at(entries, j)
}

proof fn lemma_routes_keys(entries: Seq<(String, DeviceContext)>, n: int, topic: Seq<char>)
    requires
        0 <= n <= entries.len(),
    ensures
        routes(entries, n).contains_key(topic) <==> exists|i: int|
            0 <= i < n && #[trigger] topic_at(entries, i) == topic,
    decreases n,
{
    if n > 0 {
        lemma_routes_keys(entries, n - 1, topic);
        if topic_at(entries, n - 1) == topic {
        } else if routes(entries, n).contains_key(topic) {
            let i = choose|i: int| 0 <= i < n - 1 && #[trigger] topic_at(entries, i) == topic;
            assert(0 <= i < n && topic_at(entries, i) == topic);
        }
    }
}

proof fn lemma_routes_value(entries: Seq<(String, DeviceContext)>, n: int, i: int)
    requires
        distinct_topics(entries),
        0 <= i < n <= entries.len(),
    ensures
        routes(entries, n).contains_key(entries[i].0@),
        routes(entries, n)[entries[i].0@] == entries[i].1,
    decreases n,
{
    if i < n - 1 {
        lemma_routes_value(entries, n - 1, i);
        assert(topic_at(entries, i) != topic_at(entries, n - 1));
    }
}

proof fn lemma_routes_agree(a: Seq<(String, DeviceContext)>, b: Seq<(String, DeviceContext)>, n: int)
    requires
        0 <= n <= a.len(),
        n <= b.len(),
        forall|i: int| 0 <= i < n ==> a[i] == b[i],
    ensures
        routes(a, n) == routes(b, n),
    decreases n,
{
    if n > 0 {
        lemma_routes_agree(a, b, n - 1);
    }
}

proof fn lemma_routes_len(entries: Seq<(String, DeviceContext)>, n: int)
    requires
        distinct_topics(entries),
        0 <= n <= entries.len(),
    ensures
        routes(entries, n).dom().finite(),
        routes(entries, n).len() == n,
    decreases n,
{
    if n > 0 {
        lemma_routes_len(entries, n - 1);
        lemma_routes_keys(entries, n - 1, entries[n - 1].0@);
        if routes(entries, n - 1).contains_key(entries[n - 1].0@) {
            let i = choose|i: int| 0 <= i < n - 1 && #[trigger] topic_at(entries, i) == entries[n - 1].0@;
            assert(topic_at(entries, i) != topic_at(entries, n - 1));
        }
    }
}

/// The routing table: from a topic, matched letter for letter, to what its
/// messages are reported under.
pub struct TopicDeviceMap {
    entries: Vec<(String, DeviceContext)>,
}

impl View for TopicDeviceMap {
    type V = Map<Seq<char>, DeviceContext>;

    closed spec fn view(&self) -> Map<Seq<char>, DeviceContext> {
        routes(self.entries@, self.entries@.len() as int)
    }
}

impl TopicDeviceMap {
    #[verifier::type_invariant]
    spec fn well_formed(&self) -> bool {
        distinct_topics(self.entries@)
    }

    /// A table without routes.
    pub fn new() -> (r: TopicDeviceMap)
        ensures
            r@ == Map::<Seq<char>, DeviceContext>::empty(),
    {
        TopicDeviceMap { entries: Vec::new() }
    }

    fn position(&self, topic: &String) -> (r: Option<usize>)
        ensures
            match r {
                Some(i) => i < self.entries@.len() && self.entries@[i as int].0@ == topic@,
                None => !self@.contains_key(topic@),
            },
    {
        let mut i: usize = 0;
        while i < self.entries.len()
            invariant
                i <= self.entries@.len(),
                forall|j: int| 0 <= j < i ==> #[trigger] topic_at(self.entries@, j) != topic@,
            decreases self.entries@.len() - i,
        {
            if self.entries[i].0 == *topic {
                return Some(i);
            }
            i += 1;
        }
        proof {
            lemma_routes_keys(self.entries@, self.entries@.len() as int, topic@);
        }
        None
    }

    /// The route of a topic, where it has one.
    pub fn get(&self, topic: &str) -> (r: Option<&DeviceContext>)
        ensures
            r == (if self@.contains_key(topic@) {
                Some(&self@[topic@])
            } else {
                None
            }),
    {
        let wanted = topic.to_owned();
        match self.position(&wanted) {
            Some(i) => {
                proof {
                    use_type_invariant(self);
                    lemma_routes_value(self.entries@, self.entries@.len() as int, i as int);
                }
                Some(&self.entries[i].1)
            },
            None => None,
        }
    }

    /// Whether the topic has a route.
    pub fn contains_key(&self, topic: &str) -> (r: bool)
        ensures
            r == self@.contains_key(topic@),
    {
        self.get(topic).is_some()
    }

    /// The number of topics that have a route.
    pub fn len(&self) -> (r: usize)
        ensures
            self@.dom().finite(),
            r == self@.len(),
    {
        proof {
            use_type_invariant(self);
            lemma_routes_len(self.entries@, self.entries@.len() as int);
        }
        self.entries.len()
    }

    /// Whether no topic has a route.
    pub fn is_empty(&self) -> (r: bool)
        ensures
            r == (self@ == Map::<Seq<char>, DeviceContext>::empty()),
    {
        proof {
            if self.entries@.len() == 0 {
            } else {
                assert(self@.contains_key(self.entries@[self.entries@.len() - 1].0@));
            }
        }
        self.entries.len() == 0
    }

    /// Routes a topic, replacing the route that it had. Returns that earlier
    /// route.
    pub fn insert(&mut self, topic: String, context: DeviceContext) -> (r: Option<DeviceContext>)
        ensures
            final(self)@ == old(self)@.insert(topic@, context),
            r == (if old(self)@.contains_key(topic@) {
                Some(old(self)@[topic@])
            } else {
                None
            }),
    {
        proof {
            use_type_invariant(&*self);
        }
        let found = self.position(&topic);
        let mut entries: Vec<(String, DeviceContext)> = Vec::new();
        std::mem::swap(&mut entries, &mut self.entries);
        let ghost before = entries@;
        let ghost key = topic@;
        let n = entries.len();
        let earlier = match found {
            Some(i) => {
                let earlier = entries[i].1;
                entries.set(i, (topic, context));
                proof {
                    let after = entries@;
                    lemma_routes_value(before, n as int, i as int);
                    assert forall|a: int, b: int| 0 <= a < b < after.len() implies #[trigger] topic_at(
                        after,
                        a,
                    ) != #[trigger] topic_at(after, b) by {
                        assert(topic_at(after, a) == topic_at(before, a));
                        assert(topic_at(after, b) == topic_at(before, b));
                    }
                    assert forall|k: Seq<char>|
                        routes(after, n as int).contains_key(k) <==> #[trigger] routes(
                            before,
                            n as int,
                        ).insert(key, context).contains_key(k) by {
                        lemma_routes_keys(after, n as int, k);
                        lemma_routes_keys(before, n as int, k);
                        if routes(after, n as int).contains_key(k) {
                            let j = choose|j: int| 0 <= j < n && #[trigger] topic_at(after, j) == k;
                            assert(topic_at(before, j) == k);
                        }
                        if routes(before, n as int).contains_key(k) {
                            let j = choose|j: int| 0 <= j < n && #[trigger] topic_at(before, j) == k;
                            assert(topic_at(after, j) == k);
                        }
                        assert(topic_at(after, i as int) == key);
                    }
                    assert forall|k: Seq<char>| #[trigger] routes(after, n as int).contains_key(k) implies routes(
                        after,
                        n as int,
                    )[k] == routes(before, n as int).insert(key, context)[k] by {
                        lemma_routes_keys(after, n as int, k);
                        let j = choose|j: int| 0 <= j < n && #[trigger] topic_at(after, j) == k;
                        lemma_routes_value(after, n as int, j);
                        if j != i {
                            assert(topic_at(after, j) != topic_at(after, i as int));
                            lemma_routes_value(before, n as int, j);
                        }
                    }
                    assert(routes(after, n as int) =~= routes(before, n as int).insert(key, context));
                }
                Some(earlier)
            },
            None => {
                entries.push((topic, context));
                proof {
                    let after = entries@;
                    lemma_routes_agree(before, after, n as int);
                    assert forall|a: int, b: int| 0 <= a < b < after.len() implies #[trigger] topic_at(
                        after,
                        a,
                    ) != #[trigger] topic_at(after, b) by {
                        assert(topic_at(after, a) == topic_at(before, a));
                        if b < n {
                            assert(topic_at(after, b) == topic_at(before, b));
                        } else {
                            lemma_routes_keys(before, n as int, key);
                        }
                    }
                }
                None
            },
        };
        self.entries = entries;
        earlier
    }
}

/// Whether an entry names its topic, its device and its location.
pub open spec fn complete(config: TopicConfigView) -> bool {
    config.topic.len() > 0 && config.device_name.len() > 0 && config.device_location.len() > 0
}

/// Whether a device list can be worked with: it holds an entry, and every
/// entry is complete.
pub open spec fn valid_topic_configs(configs: Seq<TopicConfig>) -> bool {
    configs.len() > 0 && forall|i: int| 0 <= i < configs.len() ==> complete((#[trigger] configs[i])@)
}

/// Checks a device list before anything is done with it. An empty list, or
/// an entry with an empty topic, name or location, is a configuration error.
pub fn validate_topic_configs(configs: &Vec<TopicConfig>) -> (r: Result<(), BridgeError>)
    ensures
        r == (if valid_topic_configs(configs@) {
            Ok::<(), BridgeError>(())
        } else {
            Err::<(), BridgeError>(BridgeError::ConfigurationError)
        }),
{
    if configs.len() == 0 {
        return Err(BridgeError::ConfigurationError);
    }
    let mut i: usize = 0;
    while i < configs.len()
        invariant
            i <= configs.len(),
            forall|k: int| 0 <= k < i ==> complete((#[trigger] configs@[k])@),
        decreases configs.len() - i,
    {
        let config = &configs[i];
        if config.topic.as_str().is_empty() || config.device_name.as_str().is_empty()
            || config.device_location.as_str().is_empty() {
            assert(!complete(configs@[i as int]@));
            return Err(BridgeError::ConfigurationError);
        }
        i += 1;
    }
    Ok(())
}

/// The routes that the first `n` devices make, each with the identifier it
/// was resolved to and all with the same sensor identifiers. A later device
/// replaces an earlier one on the same topic.
pub open spec fn device_routes(devices: Seq<(TopicConfigView, DeviceId)>, sensor_ids: SensorIds, n: int) -> Map<
    Seq<char>,
    DeviceContext,
>
    decreases n,
{
    if n <= 0 {
        Map::empty()
    } else {
        device_routes(devices, sensor_ids, n - 1).insert(
            devices[n - 1].0.topic,
            DeviceContext { device_id: devices[n - 1].1, sensor_ids },
        )
    }
}

impl TopicDeviceMap {
    /// Builds the routing table from the configured devices, each paired
    /// with the identifier that it was resolved to, and the sensor
    /// identifiers that all of them share. Without a device there is nothing
    /// to route: that is a configuration error.
    pub fn bootstrap(devices: &Vec<(TopicConfig, DeviceId)>, sensor_ids: SensorIds) -> (r: Result<
        TopicDeviceMap,
        BridgeError,
    >)
        ensures
            devices@.len() == 0 ==> r is Err && r->Err_0 == BridgeError::ConfigurationError,
            devices@.len() > 0 ==> r is Ok && r->Ok_0@ == device_routes(
                resolved_view(devices@),
                sensor_ids,
                devices@.len() as int,
            ),
    {
        if devices.len() == 0 {
            return Err(BridgeError::ConfigurationError);
        }
        let mut table = TopicDeviceMap::new();
        let mut i: usize = 0;
        while i < devices.len()
            invariant
                i <= devices.len(),
                table@ == device_routes(resolved_view(devices@), sensor_ids, i as int),
            decreases devices.len() - i,
        {
            let context = DeviceContext { device_id: devices[i].1, sensor_ids };
            table.insert(devices[i].0.topic.clone(), context);
            i += 1;
        }
        Ok(table)
    }
}

/// Every configured device has its topic routed once the table is built, and
/// the topic of a device that no later entry repeats is routed to the
/// identifier that this device was resolved to, with the shared sensor
/// identifiers.
pub proof fn lemma_bootstrap_routes_each_device(
    devices: Seq<(TopicConfigView, DeviceId)>,
    sensor_ids: SensorIds,
    i: int,
)
    requires
        0 <= i < devices.len(),
    ensures
        device_routes(devices, sensor_ids, devices.len() as int).contains_key(devices[i].0.topic),
        (forall|j: int| i < j < devices.len() ==> (#[trigger] devices[j]).0.topic != devices[i].0.topic)
            ==> device_routes(devices, sensor_ids, devices.len() as int)[devices[i].0.topic]
            == (DeviceContext { device_id: devices[i].1, sensor_ids }),
{
    lemma_device_routes_from(devices, sensor_ids, i, devices.len() as int);
}

proof fn lemma_device_routes_from(
    devices: Seq<(TopicConfigView, DeviceId)>,
    sensor_ids: SensorIds,
    i: int,
    n: int,
)
    requires
        0 <= i < n <= devices.len(),
    ensures
        device_routes(devices, sensor_ids, n).contains_key(devices[i].0.topic),
        (forall|j: int| i < j < n ==> (#[trigger] devices[j]).0.topic != devices[i].0.topic)
            ==> device_routes(devices, sensor_ids, n)[devices[i].0.topic] == (DeviceContext {
            device_id: devices[i].1,
            sensor_ids,
        }),
    decreases n,
{
    if i < n - 1 {
        lemma_device_routes_from(devices, sensor_ids, i, n - 1);
        if forall|j: int| i < j < n ==> (#[trigger] devices[j]).0.topic != devices[i].0.topic {
            assert(devices[n - 1].0.topic != devices[i].0.topic);
        }
    }
}

/// A table that was built routes nothing but the configured topics.
pub proof fn lemma_bootstrap_routes_only_devices(
    devices: Seq<(TopicConfigView, DeviceId)>,
    sensor_ids: SensorIds,
    n: int,
    topic: Seq<char>,
)
    requires
        0 <= n <= devices.len(),
        device_routes(devices, sensor_ids, n).contains_key(topic),
    ensures
        exists|i: int| 0 <= i < n && (#[trigger] devices[i]).0.topic == topic,
    decreases n,
{
    if n > 0 {
        if devices[n - 1].0.topic == topic {
        } else {
            lemma_bootstrap_routes_only_devices(devices, sensor_ids, n - 1, topic);
            let i = choose|i: int| 0 <= i < n - 1 && (#[trigger] devices[i]).0.topic == topic;
            assert(0 <= i < n && devices[i].0.topic == topic);
        }
    }
}

} // verus!
