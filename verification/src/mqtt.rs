//! From a message of the broker to the measurements that the remote store
//! is to receive: the sensor document of the device firmware, the writes
//! that one reading turns into, and the handling of one event.
//!
//! A reading is kept as the number that the document wrote, in decimal
//! notation; it is turned into a machine number where it is sent on.

use vstd::prelude::*;
use crate::config::{DeviceContext, TopicDeviceMap};
use crate::error::BridgeError;
use crate::hem::{DeviceId, SensorIds};
use crate::json::{lemma_object_view, member, number_member, parsed_document, text_member, Json, JsonView};

verus! {

/// What the single-probe temperature sensor reports.
#[derive(Debug)]
pub struct DS18B20 {
    /// The address of the probe; it plays no part in what is forwarded.
    pub id: String,
    /// Degrees, as written in the document.
    pub temperature: String,
}

/// What a probe reading says.
pub struct DS18B20View {
    pub id: Seq<char>,
    pub temperature: Seq<char>,
}

impl View for DS18B20 {
    type V = DS18B20View;

    open spec fn view(&self) -> DS18B20View {
        DS18B20View { id: self.id@, temperature: self.temperature@ }
    }
}

/// What the combined humidity and temperature probe reports.
#[derive(Debug)]
pub struct DHT11 {
    /// Degrees, as written in the document.
    pub temperature: String,
    /// Relative humidity in percent, as written in the document.
    pub humidity: String,
    /// Degrees, as written in the document.
    pub dew_point: String,
}

/// What a combined reading says.
pub struct DHT11View {
    pub temperature: Seq<char>,
    pub humidity: Seq<char>,
    pub dew_point: Seq<char>,
}

impl View for DHT11 {
    type V = DHT11View;

    open spec fn view(&self) -> DHT11View {
        DHT11View { temperature: self.temperature@, humidity: self.humidity@, dew_point: self.dew_point@ }
    }
}

/// One sensor document. Either reading may be missing, and so may both.
#[derive(Debug)]
pub struct SensorEntry {
    /// When the reading was taken; it plays no part in what is forwarded.
    pub time: String,
    pub ds18b20: Option<DS18B20>,
    pub dht11: Option<DHT11>,
    /// The unit label; it plays no part in what is forwarded.
    pub temp_unit: String,
}

/// What a sensor document says.
pub struct SensorEntryView {
    pub time: Seq<char>,
    pub ds18b20: Option<DS18B20View>,
    pub dht11: Option<DHT11View>,
    pub temp_unit: Seq<char>,
}

/// What an optional probe reading says.
pub open spec fn probe_view(reading: Option<DS18B20>) -> Option<DS18B20View> {
    match reading {
        Some(reading) => Some(reading@),
        None => None,
    }
}

/// What an optional combined reading says.
pub open spec fn combined_view(reading: Option<DHT11>) -> Option<DHT11View> {
    match reading {
        Some(reading) => Some(reading@),
        None => None,
    }
}

impl View for SensorEntry {
    type V = SensorEntryView;

    open spec fn view(&self) -> SensorEntryView {
        SensorEntryView {
            time: self.time@,
            ds18b20: probe_view(self.ds18b20),
            dht11: combined_view(self.dht11),
            temp_unit: self.temp_unit@,
        }
    }
}

/// What an optional sensor document says.
pub open spec fn entry_view(entry: Option<SensorEntry>) -> Option<SensorEntryView> {
    match entry {
        Some(entry) => Some(entry@),
        None => None,
    }
}

/// One value of one sensor of one device: what a single write to the remote
/// store carries.
#[derive(Debug)]
pub struct Measurement {
    pub device: i32,
    pub sensor: i32,
    /// The value, as written in the document it came from.
    pub measurement: String,
}

/// What a measurement says.
pub struct MeasurementView {
    pub device: i32,
    pub sensor: i32,
    pub measurement: Seq<char>,
}

impl View for Measurement {
    type V = MeasurementView;

    open spec fn view(&self) -> MeasurementView {
        MeasurementView { device: self.device, sensor: self.sensor, measurement: self.measurement@ }
    }
}

/// Whether the measurements say, one by one, what `said` holds.
pub open spec fn writes_say(writes: Seq<Measurement>, said: Seq<MeasurementView>) -> bool {
    writes.len() == said.len() && forall|i: int|
        0 <= i < writes.len() ==> (#[trigger] writes[i])@ == said[i]
}

/// A packet that the broker sent.
#[derive(Debug)]
pub enum Packet {
    /// A message on a topic.
    Publish { topic: String, payload: Vec<u8> },
    /// Anything else: acknowledgements, pings and the like.
    Other,
}

/// One item of the connection's event stream.
#[derive(Debug)]
pub enum Event {
    /// The broker sent a packet.
    Incoming(Packet),
    /// The client sent something.
    Outgoing,
}

/// Whether `chrono` reads `text` as a `NaiveDateTime`.
pub uninterp spec fn timestamp_accepted(text: Seq<char>) -> bool;

/// Calls the `FromStr` of `chrono::NaiveDateTime` and tells whether it
/// accepted the text. The contract only names that outcome.
#[verifier::external_body]
fn is_timestamp(text: &str) -> (r: bool)
    ensures
        r == timestamp_accepted(text@),
{
    text.parse::<chrono::NaiveDateTime>().is_ok()
}

/// The probe reading that a JSON object describes: the string `Id` and the
/// number `Temperature`. Other members are passed over.
pub open spec fn probe_from_json(doc: JsonView) -> Option<DS18B20View> {
    match doc {
        JsonView::Object(members) => match (
            text_member(members, "Id"@),
            number_member(members, "Temperature"@),
        ) {
            (Some(id), Some(temperature)) => Some(DS18B20View { id, temperature }),
            _ => None,
        },
        _ => None,
    }
}

/// The combined reading that a JSON object describes: the numbers
/// `Temperature`, `Humidity` and `DewPoint`. Other members are passed over.
pub open spec fn combined_from_json(doc: JsonView) -> Option<DHT11View> {
    match doc {
        JsonView::Object(members) => match (
            number_member(members, "Temperature"@),
            number_member(members, "Humidity"@),
            number_member(members, "DewPoint"@),
        ) {
            (Some(temperature), Some(humidity), Some(dew_point)) => Some(
                DHT11View { temperature, humidity, dew_point },
            ),
            _ => None,
        },
        _ => None,
    }
}

/// The probe reading of a sensor document: `Some(None)` where the document
/// has no member `DS18B20` or holds `null` there, else the reading that the
/// member describes, and `None` where it describes none.
pub open spec fn optional_probe(members: Seq<(Seq<char>, JsonView)>) -> Option<Option<DS18B20View>> {
    match member(members, "DS18B20"@) {
        None => Some(None),
        Some(JsonView::Null) => Some(None),
        Some(doc) => match probe_from_json(doc) {
            Some(reading) => Some(Some(reading)),
            None => None,
        },
    }
}

/// The combined reading of a sensor document: `Some(None)` where the
/// document has no member `DHT11` or holds `null` there, else the reading
/// that the member describes, and `None` where it describes none.
pub open spec fn optional_combined(members: Seq<(Seq<char>, JsonView)>) -> Option<Option<DHT11View>> {
    match member(members, "DHT11"@) {
        None => Some(None),
        Some(JsonView::Null) => Some(None),
        Some(doc) => match combined_from_json(doc) {
            Some(reading) => Some(Some(reading)),
            None => None,
        },
    }
}

/// The sensor document that a JSON object describes: the strings `Time` and
/// `TempUnit`, and the readings `DS18B20` and `DHT11`, each of which may be
/// missing or `null`. Other members are passed over. What `Time` holds is
/// not looked at here.
pub open spec fn entry_from_json(doc: JsonView) -> Option<SensorEntryView> {
    match doc {
        JsonView::Object(members) => match (
            text_member(members, "Time"@),
            optional_probe(members),
            optional_combined(members),
            text_member(members, "TempUnit"@),
        ) {
            (Some(time), Some(ds18b20), Some(dht11), Some(temp_unit)) => Some(
                SensorEntryView { time, ds18b20, dht11, temp_unit },
            ),
            _ => None,
        },
        _ => None,
    }
}

/// The sensor document that a message body holds: the body is JSON, the
/// JSON describes a sensor document, and its `Time` is a date and time.
/// Anything else is a malformed payload.
pub open spec fn decoded(payload: Seq<u8>) -> Result<SensorEntryView, BridgeError> {
    match parsed_document(payload) {
        Some(doc) => match entry_from_json(doc) {
            Some(entry) => if timestamp_accepted(entry.time) {
                Ok(entry)
            } else {
                Err(BridgeError::MalformedPayload)
            },
            None => Err(BridgeError::MalformedPayload),
        },
        None => Err(BridgeError::MalformedPayload),
    }
}

/// What decoding comes to, with the document as what it says.
pub open spec fn decode_outcome(r: Result<SensorEntry, BridgeError>) -> Result<SensorEntryView, BridgeError> {
    match r {
        Ok(entry) => Ok(entry@),
        Err(e) => Err(e),
    }
}

impl DS18B20 {
    /// Reads a probe reading out of a JSON document.
    pub fn from_json(doc: &Json) -> (r: Option<DS18B20>)
        ensures
            probe_view(r) == probe_from_json(doc@),
    {
        match doc {
            Json::Object(members) => {
                proof {
                    lemma_object_view(*members);
                }
                let id = Json::find_text(members, "Id");
                let temperature = Json::find_number(members, "Temperature");
                match (id, temperature) {
                    (Some(id), Some(temperature)) => Some(DS18B20 { id, temperature }),
                    _ => None,
                }
            },
            _ => None,
        }
    }
}

impl DHT11 {
    /// Reads a combined reading out of a JSON document.
    pub fn from_json(doc: &Json) -> (r: Option<DHT11>)
        ensures
            combined_view(r) == combined_from_json(doc@),
    {
        match doc {
            Json::Object(members) => {
                proof {
                    lemma_object_view(*members);
                }
                let temperature = Json::find_number(members, "Temperature");
                let humidity = Json::find_number(members, "Humidity");
                let dew_point = Json::find_number(members, "DewPoint");
                match (temperature, humidity, dew_point) {
                    (Some(temperature), Some(humidity), Some(dew_point)) => Some(
                        DHT11 { temperature, humidity, dew_point },
                    ),
                    _ => None,
                }
            },
            _ => None,
        }
    }
}

impl SensorEntry {
    /// Reads a sensor document out of a JSON document.
    pub fn from_json(doc: &Json) -> (r: Option<SensorEntry>)
        ensures
            entry_view(r) == entry_from_json(doc@),
    {
        match doc {
            Json::Object(members) => {
                proof {
                    lemma_object_view(*members);
                }
                let time = Json::find_text(members, "Time");
                let ds18b20 = match Json::find(members, "DS18B20") {
                    None => Some(None),
                    Some(Json::Null) => Some(None),
                    Some(doc) => match DS18B20::from_json(doc) {
                        Some(reading) => Some(Some(reading)),
                        None => None,
                    },
                };
                let dht11 = match Json::find(members, "DHT11") {
                    None => Some(None),
                    Some(Json::Null) => Some(None),
                    Some(doc) => match DHT11::from_json(doc) {
                        Some(reading) => Some(Some(reading)),
                        None => None,
                    },
                };
                let temp_unit = Json::find_text(members, "TempUnit");
                match (time, ds18b20, dht11, temp_unit) {
                    (Some(time), Some(ds18b20), Some(dht11), Some(temp_unit)) => Some(
                        SensorEntry { time, ds18b20, dht11, temp_unit },
                    ),
                    _ => None,
                }
            },
            _ => None,
        }
    }

    /// Decodes a message body. Anything that is not a sensor document is a
    /// malformed payload.
    pub fn decode(payload: &[u8]) -> (r: Result<SensorEntry, BridgeError>)
        ensures
            decode_outcome(r) == decoded(payload@),
    {
        match Json::parse(payload) {
            Some(doc) => match SensorEntry::from_json(&doc) {
                Some(entry) => if is_timestamp(entry.time.as_str()) {
                    Ok(entry)
                } else {
                    Err(BridgeError::MalformedPayload)
                },
                None => Err(BridgeError::MalformedPayload),
            },
            None => Err(BridgeError::MalformedPayload),
        }
    }
}

impl Measurement {
    /// A measurement of one sensor of one device.
    pub fn new(device: i32, sensor: i32, measurement: String) -> (r: Measurement)
        ensures
            r == (Measurement { device, sensor, measurement }),
    {
        Measurement { device, sensor, measurement }
    }
}

/// The writes that a combined reading turns into: temperature, humidity and
/// dew point, in this order, or none where the reading is missing.
pub open spec fn combined_writes(reading: Option<DHT11View>, device_id: DeviceId, sensor_ids: SensorIds) -> Seq<
    MeasurementView,
> {
    match reading {
        Some(dht11) => seq![
            MeasurementView {
                device: device_id,
                sensor: sensor_ids.dht11_temperature,
                measurement: dht11.temperature,
            },
            MeasurementView {
                device: device_id,
                sensor: sensor_ids.dht11_humidity,
                measurement: dht11.humidity,
            },
            MeasurementView {
                device: device_id,
                sensor: sensor_ids.dht11_dew_point,
                measurement: dht11.dew_point,
            },
        ],
        None => Seq::empty(),
    }
}

/// The write that a probe reading turns into, or none where the reading is
/// missing.
pub open spec fn probe_writes(reading: Option<DS18B20View>, device_id: DeviceId, sensor_ids: SensorIds) -> Seq<
    MeasurementView,
> {
    match reading {
        Some(ds18b20) => seq![
            MeasurementView {
                device: device_id,
                sensor: sensor_ids.ds18b20,
                measurement: ds18b20.temperature,
            },
        ],
        None => Seq::empty(),
    }
}

/// The writes that one sensor document turns into, in the order in which
/// they are made: those of the combined reading, then that of the probe.
pub open spec fn planned_writes(entry: SensorEntryView, device_id: DeviceId, sensor_ids: SensorIds) -> Seq<
    MeasurementView,
> {
    combined_writes(entry.dht11, device_id, sensor_ids) + probe_writes(entry.ds18b20, device_id, sensor_ids)
}

/// Turns one sensor document into the measurements to write for it, each
/// to be sent on its own and in this order; the first write that fails ends
/// the sending.
pub fn store_measurement(entry: SensorEntry, device_id: &DeviceId, sensor_ids: &SensorIds) -> (r: Vec<
    Measurement,
>)
    ensures
        writes_say(r@, planned_writes(entry@, *device_id, *sensor_ids)),
{
    let mut writes: Vec<Measurement> = Vec::new();
    match entry.dht11 {
        Some(dht11) => {
            writes.push(Measurement::new(*device_id, sensor_ids.dht11_temperature, dht11.temperature));
            writes.push(Measurement::new(*device_id, sensor_ids.dht11_humidity, dht11.humidity));
            writes.push(Measurement::new(*device_id, sensor_ids.dht11_dew_point, dht11.dew_point));
        },
        None => {},
    }
    assert(writes_say(writes@, combined_writes(entry@.dht11, *device_id, *sensor_ids)));
    match entry.ds18b20 {
        Some(ds18b20) => {
            writes.push(Measurement::new(*device_id, sensor_ids.ds18b20, ds18b20.temperature));
        },
        None => {},
    }
    writes
}

/// Whether handling came to `said`: the same failure, or measurements that
/// say, one by one, what `said` holds.
pub open spec fn outcome_is(
    r: Result<Vec<Measurement>, BridgeError>,
    said: Result<Seq<MeasurementView>, BridgeError>,
) -> bool {
    match (r, said) {
        (Ok(writes), Ok(views)) => writes_say(writes@, views),
        (Err(e), Err(f)) => e == f,
        _ => false,
    }
}

/// What forwarding a sensor document from a topic comes to: the writes for
/// the device that the topic is routed to, or an unrouted topic.
pub open spec fn forwarded(topic: Seq<char>, entry: SensorEntryView, routes: Map<Seq<char>, DeviceContext>) -> Result<
    Seq<MeasurementView>,
    BridgeError,
> {
    if routes.contains_key(topic) {
        Ok(planned_writes(entry, routes[topic].device_id, routes[topic].sensor_ids))
    } else {
        Err(BridgeError::UnroutedTopic)
    }
}

/// Forwards one sensor document that came in on `topic`: looks the topic up
/// and plans the writes for its device.
pub fn forward(topic: &str, entry: SensorEntry, topic_to_device: &TopicDeviceMap) -> (r: Result<
    Vec<Measurement>,
    BridgeError,
>)
    ensures
        outcome_is(r, forwarded(topic@, entry@, topic_to_device@)),
{
    match topic_to_device.get(topic) {
        Some(context) => Ok(store_measurement(entry, &context.device_id, &context.sensor_ids)),
        None => Err(BridgeError::UnroutedTopic),
    }
}

/// What handling a message comes to: its body is decoded, and what it holds
/// is forwarded from its topic.
pub open spec fn published(topic: Seq<char>, payload: Seq<u8>, routes: Map<Seq<char>, DeviceContext>) -> Result<
    Seq<MeasurementView>,
    BridgeError,
> {
    match decoded(payload) {
        Ok(entry) => forwarded(topic, entry, routes),
        Err(e) => Err(e),
    }
}

/// What handling a packet comes to. Only a message can ask for writes or
/// fail; any other packet asks for nothing.
pub open spec fn incoming_outcome(inc: Packet, routes: Map<Seq<char>, DeviceContext>) -> Result<
    Seq<MeasurementView>,
    BridgeError,
> {
    match inc {
        Packet::Publish { topic, payload } => published(topic@, payload@, routes),
        Packet::Other => Ok(Seq::empty()),
    }
}

/// Handles one packet of the broker and returns the writes to make for it.
pub fn handle_incomming(inc: Packet, topic_to_device: &TopicDeviceMap) -> (r: Result<
    Vec<Measurement>,
    BridgeError,
>)
    ensures
        outcome_is(r, incoming_outcome(inc, topic_to_device@)),
{
    match inc {
        Packet::Publish { topic, payload } => {
            match SensorEntry::decode(payload.as_slice()) {
                Ok(entry) => forward(topic.as_str(), entry, topic_to_device),
                Err(e) => Err(e),
            }
        },
        Packet::Other => Ok(Vec::new()),
    }
}

/// What handling one item of the event stream comes to. Only a packet of
/// the broker can ask for writes or fail; what the client sent, and a fault
/// of the connection, are passed over.
pub open spec fn connection_outcome(item: Result<Event, String>, routes: Map<Seq<char>, DeviceContext>) -> Result<
    Seq<MeasurementView>,
    BridgeError,
> {
    match item {
        Ok(Event::Incoming(inc)) => incoming_outcome(inc, routes),
        Ok(Event::Outgoing) => Ok(Seq::empty()),
        Err(_) => Ok(Seq::empty()),
    }
}

/// Handles one item of the connection's event stream and returns the
/// writes to make for it. The caller makes them, and stops at an error.
pub fn handle_connection(item: Result<Event, String>, topic_to_device: &TopicDeviceMap) -> (r: Result<
    Vec<Measurement>,
    BridgeError,
>)
    ensures
        outcome_is(r, connection_outcome(item, topic_to_device@)),
{
    match item {
        Ok(Event::Incoming(inc)) => handle_incomming(inc, topic_to_device),
        _ => Ok(Vec::new()),
    }
}

/// Either reading may be missing from a sensor document, and so may both:
/// what is missing is read as absent, and a reading that stands alone is
/// read as it is.
pub proof fn lemma_missing_readings_are_absent(members: Seq<(Seq<char>, JsonView)>)
    requires
        text_member(members, "Time"@) is Some,
        text_member(members, "TempUnit"@) is Some,
    ensures
        match (member(members, "DS18B20"@), member(members, "DHT11"@)) {
            (None, None) => {
                &&& entry_from_json(JsonView::Object(members)) matches Some(entry)
                &&& entry.ds18b20 is None
                &&& entry.dht11 is None
            },
            (Some(probe), None) => probe_from_json(probe) is Some ==> {
                &&& entry_from_json(JsonView::Object(members)) matches Some(entry)
                &&& entry.ds18b20 == probe_from_json(probe)
                &&& entry.dht11 is None
            },
            (None, Some(combined)) => combined_from_json(combined) is Some ==> {
                &&& entry_from_json(JsonView::Object(members)) matches Some(entry)
                &&& entry.ds18b20 is None
                &&& entry.dht11 == combined_from_json(combined)
            },
            (Some(_), Some(_)) => true,
        },
{
}

/// A sensor document with both readings turns into exactly four writes, all
/// for the device it came from: three for the channels of the combined
/// probe, each under its own sensor, and one for the single probe.
pub proof fn lemma_full_document_makes_four_writes(
    entry: SensorEntryView,
    device_id: DeviceId,
    sensor_ids: SensorIds,
)
    requires
        entry.ds18b20 is Some,
        entry.dht11 is Some,
    ensures
        planned_writes(entry, device_id, sensor_ids) == seq![
            MeasurementView {
                device: device_id,
                sensor: sensor_ids.dht11_temperature,
                measurement: entry.dht11->0.temperature,
            },
            MeasurementView {
                device: device_id,
                sensor: sensor_ids.dht11_humidity,
                measurement: entry.dht11->0.humidity,
            },
            MeasurementView {
                device: device_id,
                sensor: sensor_ids.dht11_dew_point,
                measurement: entry.dht11->0.dew_point,
            },
            MeasurementView {
                device: device_id,
                sensor: sensor_ids.ds18b20,
                measurement: entry.ds18b20->0.temperature,
            },
        ],
{
    assert(planned_writes(entry, device_id, sensor_ids) =~= seq![
        MeasurementView {
            device: device_id,
            sensor: sensor_ids.dht11_temperature,
            measurement: entry.dht11->0.temperature,
        },
        MeasurementView {
            device: device_id,
            sensor: sensor_ids.dht11_humidity,
            measurement: entry.dht11->0.humidity,
        },
        MeasurementView {
            device: device_id,
            sensor: sensor_ids.dht11_dew_point,
            measurement: entry.dht11->0.dew_point,
        },
        MeasurementView {
            device: device_id,
            sensor: sensor_ids.ds18b20,
            measurement: entry.ds18b20->0.temperature,
        },
    ]);
}

/// A sensor document turns into three writes for a combined reading and
/// one for a probe reading, and into none for a reading that is missing.
pub proof fn lemma_writes_are_counted(entry: SensorEntryView, device_id: DeviceId, sensor_ids: SensorIds)
    ensures
        planned_writes(entry, device_id, sensor_ids).len() == (if entry.dht11 is Some {
            3int
        } else {
            0int
        }) + (if entry.ds18b20 is Some {
            1int
        } else {
            0int
        }),
{
}

/// A message on a topic that has no route fails as unrouted, whatever
/// readings it holds, and asks for no write.
pub proof fn lemma_unrouted_topic_writes_nothing(
    topic: Seq<char>,
    payload: Seq<u8>,
    entry: SensorEntryView,
    routes: Map<Seq<char>, DeviceContext>,
)
    requires
        !routes.contains_key(topic),
    ensures
        forwarded(topic, entry, routes) == Err::<Seq<MeasurementView>, BridgeError>(
            BridgeError::UnroutedTopic,
        ),
        decoded(payload) is Ok ==> published(topic, payload, routes) == Err::<
            Seq<MeasurementView>,
            BridgeError,
        >(BridgeError::UnroutedTopic),
{
}

/// A message whose body is not a sensor document fails as malformed on
/// every topic, routed or not, and asks for no write.
pub proof fn lemma_malformed_payload_writes_nothing(
    topic: Seq<char>,
    payload: Seq<u8>,
    routes: Map<Seq<char>, DeviceContext>,
)
    requires
        decoded(payload) is Err,
    ensures
        published(topic, payload, routes) == Err::<Seq<MeasurementView>, BridgeError>(
            BridgeError::MalformedPayload,
        ),
{
}

} // verus!
