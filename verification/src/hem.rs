//! Identities in the remote store: devices and sensors, how a listing of
//! them is read, and how a name is resolved to its identifier.

use vstd::prelude::*;
use crate::error::BridgeError;
use crate::json::{
    integer_member, items_view, lemma_array_view, lemma_object_view, parsed_document, string_literal,
    text_member, write_string, Json, JsonView,
};

verus! {

/// The identifiers of the four sensor kinds that the bridge reports for.
#[derive(Debug, Clone, Copy, PartialEq, Eq, Structural)]
pub struct SensorIds {
    /// The single-probe temperature sensor.
    pub ds18b20: i32,
    /// The temperature channel of the combined probe.
    pub dht11_temperature: i32,
    /// The humidity channel of the combined probe.
    pub dht11_humidity: i32,
    /// The dew point channel of the combined probe.
    pub dht11_dew_point: i32,
}

/// A sensor kind as the remote store lists it. A sensor is known by its name.
#[derive(Debug)]
pub struct Sensor {
    /// The identifier that the store gave; it is left out of a create request.
    pub id: i32,
    pub name: String,
    /// The unit of its values.
    pub unit: String,
}

/// What a sensor record says.
pub struct SensorView {
    pub id: i32,
    pub name: Seq<char>,
    pub unit: Seq<char>,
}

impl View for Sensor {
    type V = SensorView;

    open spec fn view(&self) -> SensorView {
        SensorView { id: self.id, name: self.name@, unit: self.unit@ }
    }
}

/// The identifier that the remote store gives a device.
pub type DeviceId = i32;

/// A device as the remote store lists it. A device is known by its name and
/// location together.
#[derive(Debug)]
pub struct Device {
    /// The identifier that the store gave; it is left out of a create request.
    pub id: i32,
    pub name: String,
    pub location: String,
}

/// What a device record says.
pub struct DeviceView {
    pub id: i32,
    pub name: Seq<char>,
    pub location: Seq<char>,
}

impl View for Device {
    type V = DeviceView;

    open spec fn view(&self) -> DeviceView {
        DeviceView { id: self.id, name: self.name@, location: self.location@ }
    }
}

/// What resolving a device against a listing comes to.
#[derive(Debug)]
pub enum DeviceSetup {
    /// The listing holds the device under this identifier.
    Found(DeviceId),
    /// The listing does not hold it: this record is to be created, and the
    /// listing fetched and searched again.
    Create(Device),
}

/// What resolving a sensor against a listing comes to.
#[derive(Debug)]
pub enum SensorSetup {
    /// The listing holds the sensor under this identifier.
    Found(i32),
    /// The listing does not hold it: this record is to be created, and the
    /// listing fetched and searched again.
    Create(Sensor),
}

/// What resolving the whole sensor catalog against a listing comes to.
#[derive(Debug)]
pub enum SensorsSetup {
    /// The listing holds all four sensor kinds.
    Ready(SensorIds),
    /// This one is the first of the catalog that the listing lacks: it is to
    /// be created, and the listing fetched and searched again.
    Create(Sensor),
}

/// What a device listing says, record by record.
pub open spec fn devices_view(devices: Seq<Device>) -> Seq<DeviceView> {
    Seq::new(devices.len(), |i: int| devices[i]@)
}

/// What a sensor listing says, record by record.
pub open spec fn sensors_view(sensors: Seq<Sensor>) -> Seq<SensorView> {
    Seq::new(sensors.len(), |i: int| sensors[i]@)
}

/// What an optional device record says.
pub open spec fn device_view(device: Option<Device>) -> Option<DeviceView> {
    match device {
        Some(device) => Some(device@),
        None => None,
    }
}

/// What an optional sensor record says.
pub open spec fn sensor_view(sensor: Option<Sensor>) -> Option<SensorView> {
    match sensor {
        Some(sensor) => Some(sensor@),
        None => None,
    }
}

/// Whether reading a device listing came to `said`: the same failure, or
/// records that say, one by one, what `said` holds.
pub open spec fn devices_are(r: Result<Vec<Device>, BridgeError>, said: Result<Seq<DeviceView>, BridgeError>) -> bool {
    match (r, said) {
        (Ok(devices), Ok(views)) => devices@.len() == views.len() && forall|i: int|
            0 <= i < devices@.len() ==> (#[trigger] devices@[i])@ == views[i],
        (Err(e), Err(f)) => e == f,
        _ => false,
    }
}

/// Whether reading a sensor listing came to `said`: the same failure, or
/// records that say, one by one, what `said` holds.
pub open spec fn sensors_are(r: Result<Vec<Sensor>, BridgeError>, said: Result<Seq<SensorView>, BridgeError>) -> bool {
    match (r, said) {
        (Ok(sensors), Ok(views)) => sensors@.len() == views.len() && forall|i: int|
            0 <= i < sensors@.len() ==> (#[trigger] sensors@[i])@ == views[i],
        (Err(e), Err(f)) => e == f,
        _ => false,
    }
}

/// The device that a JSON object describes: an integer `id` and the strings
/// `name` and `location`. Other members are passed over.
pub open spec fn device_from_json(doc: JsonView) -> Option<DeviceView> {
    match doc {
        JsonView::Object(members) => match (
            integer_member(members, "id"@),
            text_member(members, "name"@),
            text_member(members, "location"@),
        ) {
            (Some(id), Some(name), Some(location)) => Some(DeviceView { id, name, location }),
            _ => None,
        },
        _ => None,
    }
}

/// The sensor that a JSON object describes: an integer `id` and the strings
/// `name` and `unit`. Other members are passed over.
pub open spec fn sensor_from_json(doc: JsonView) -> Option<SensorView> {
    match doc {
        JsonView::Object(members) => match (
            integer_member(members, "id"@),
            text_member(members, "name"@),
            text_member(members, "unit"@),
        ) {
            (Some(id), Some(name), Some(unit)) => Some(SensorView { id, name, unit }),
            _ => None,
        },
        _ => None,
    }
}

impl Device {
    /// The body of a request that creates this device: its name and its
    /// location. The identifier is left out, for the store to choose.
    pub fn to_json(&self) -> (r: String)
        ensures
            r@ == "{\"name\":"@ + string_literal(self.name@) + ",\"location\":"@ + string_literal(
                self.location@,
            ) + "}"@,
    {
        let mut body = "{\"name\":".to_owned();
        body.append(write_string(self.name.as_str()).as_str());
        body.append(",\"location\":");
        body.append(write_string(self.location.as_str()).as_str());
        body.append("}");
        body
    }

    /// Reads one device out of a JSON document.
    pub fn from_json(doc: &Json) -> (r: Option<Device>)
        ensures
            device_view(r) == device_from_json(doc@),
    {
        match doc {
            Json::Object(members) => {
                proof {
                    lemma_object_view(*members);
                }
                let id = Json::find_integer(members, "id");
                let name = Json::find_text(members, "name");
                let location = Json::find_text(members, "location");
                match (id, name, location) {
                    (Some(id), Some(name), Some(location)) => Some(Device { id, name, location }),
                    _ => None,
                }
            },
            _ => None,
        }
    }
}

impl Sensor {
    /// The body of a request that creates this sensor: its name and its
    /// unit. The identifier is left out, for the store to choose.
    pub fn to_json(&self) -> (r: String)
        ensures
            r@ == "{\"name\":"@ + string_literal(self.name@) + ",\"unit\":"@ + string_literal(self.unit@)
                + "}"@,
    {
        let mut body = "{\"name\":".to_owned();
        body.append(write_string(self.name.as_str()).as_str());
        body.append(",\"unit\":");
        body.append(write_string(self.unit.as_str()).as_str());
        body.append("}");
        body
    }

    /// Reads one sensor out of a JSON document.
    pub fn from_json(doc: &Json) -> (r: Option<Sensor>)
        ensures
            sensor_view(r) == sensor_from_json(doc@),
    {
        match doc {
            Json::Object(members) => {
                proof {
                    lemma_object_view(*members);
                }
                let id = Json::find_integer(members, "id");
                let name = Json::find_text(members, "name");
                let unit = Json::find_text(members, "unit");
                match (id, name, unit) {
                    (Some(id), Some(name), Some(unit)) => Some(Sensor { id, name, unit }),
                    _ => None,
                }
            },
            _ => None,
        }
    }
}

/// The device listing that a document holds: an array of which every item
/// describes a device. Anything else is a transport error.
pub open spec fn device_listing(doc: JsonView) -> Result<Seq<DeviceView>, BridgeError> {
    match doc {
        JsonView::Array(items) => if forall|i: int|
            0 <= i < items.len() ==> (#[trigger] device_from_json(items[i])) is Some {
            Ok(Seq::new(items.len(), |i: int| device_from_json(items[i])->0))
        } else {
            Err(BridgeError::TransportError)
        },
        _ => Err(BridgeError::TransportError),
    }
}

/// The sensor listing that a document holds: an array of which every item
/// describes a sensor. Anything else is a transport error.
pub open spec fn sensor_listing(doc: JsonView) -> Result<Seq<SensorView>, BridgeError> {
    match doc {
        JsonView::Array(items) => if forall|i: int|
            0 <= i < items.len() ==> (#[trigger] sensor_from_json(items[i])) is Some {
            Ok(Seq::new(items.len(), |i: int| sensor_from_json(items[i])->0))
        } else {
            Err(BridgeError::TransportError)
        },
        _ => Err(BridgeError::TransportError),
    }
}

/// Reads the devices out of a listing.
pub fn devices_from_json(doc: &Json) -> (r: Result<Vec<Device>, BridgeError>)
    ensures
        devices_are(r, device_listing(doc@)),
{
    match doc {
        Json::Array(items) => {
            proof {
                lemma_array_view(*items);
            }
            let mut devices: Vec<Device> = Vec::new();
            let mut i: usize = 0;
            while i < items.len()
                invariant
                    doc@ == JsonView::Array(items_view(items@)),
                    i <= items.len(),
                    devices@.len() == i,
                    forall|k: int|
                        0 <= k < i ==> (#[trigger] device_from_json(items@[k]@)) == Some(devices@[k]@),
                decreases items.len() - i,
            {
                match Device::from_json(&items[i]) {
                    Some(device) => devices.push(device),
                    None => {
                        assert(device_from_json(items_view(items@)[i as int]) is None);
                        return Err(BridgeError::TransportError);
                    },
                }
                i += 1;
            }
            proof {
                let views = items_view(items@);
                assert forall|k: int| 0 <= k < views.len() implies (#[trigger] device_from_json(
                    views[k],
                )) is Some by {
                    assert(device_from_json(items@[k]@) == Some(devices@[k]@));
                }
            }
            Ok(devices)
        },
        _ => Err(BridgeError::TransportError),
    }
}

/// Reads the sensors out of a listing.
pub fn sensors_from_json(doc: &Json) -> (r: Result<Vec<Sensor>, BridgeError>)
    ensures
        sensors_are(r, sensor_listing(doc@)),
{
    match doc {
        Json::Array(items) => {
            proof {
                lemma_array_view(*items);
            }
            let mut sensors: Vec<Sensor> = Vec::new();
            let mut i: usize = 0;
            while i < items.len()
                invariant
                    doc@ == JsonView::Array(items_view(items@)),
                    i <= items.len(),
                    sensors@.len() == i,
                    forall|k: int|
                        0 <= k < i ==> (#[trigger] sensor_from_json(items@[k]@)) == Some(sensors@[k]@),
                decreases items.len() - i,
            {
                match Sensor::from_json(&items[i]) {
                    Some(sensor) => sensors.push(sensor),
                    None => {
                        assert(sensor_from_json(items_view(items@)[i as int]) is None);
                        return Err(BridgeError::TransportError);
                    },
                }
                i += 1;
            }
            proof {
                let views = items_view(items@);
                assert forall|k: int| 0 <= k < views.len() implies (#[trigger] sensor_from_json(
                    views[k],
                )) is Some by {
                    assert(sensor_from_json(items@[k]@) == Some(sensors@[k]@));
                }
            }
            Ok(sensors)
        },
        _ => Err(BridgeError::TransportError),
    }
}

/// The device listing that the body of an answer holds: the body is JSON,
/// and the JSON is a device listing.
pub open spec fn fetched_devices(body: Seq<u8>) -> Result<Seq<DeviceView>, BridgeError> {
    match parsed_document(body) {
        Some(doc) => device_listing(doc),
        None => Err(BridgeError::TransportError),
    }
}

/// The sensor listing that the body of an answer holds: the body is JSON,
/// and the JSON is a sensor listing.
pub open spec fn fetched_sensors(body: Seq<u8>) -> Result<Seq<SensorView>, BridgeError> {
    match parsed_document(body) {
        Some(doc) => sensor_listing(doc),
        None => Err(BridgeError::TransportError),
    }
}

/// Reads the body of an answer to a device listing request. The body must
/// be a JSON array of device objects; anything else is a transport error.
pub fn fetch_devices(body: &[u8]) -> (r: Result<Vec<Device>, BridgeError>)
    ensures
        devices_are(r, fetched_devices(body@)),
{
    match Json::parse(body) {
        Some(doc) => devices_from_json(&doc),
        None => Err(BridgeError::TransportError),
    }
}

/// Reads the body of an answer to a sensor listing request. The body must
/// be a JSON array of sensor objects; anything else is a transport error.
pub fn fetch_sensors(body: &[u8]) -> (r: Result<Vec<Sensor>, BridgeError>)
    ensures
        sensors_are(r, fetched_sensors(body@)),
{
    match Json::parse(body) {
        Some(doc) => sensors_from_json(&doc),
        None => Err(BridgeError::TransportError),
    }
}

/// The identifier of the first device from position `from` on that carries
/// this name and this location.
pub open spec fn device_id_from(devices: Seq<DeviceView>, name: Seq<char>, location: Seq<char>, from: int) -> Option<
    DeviceId,
>
    decreases devices.len() - from,
{
    if from < 0 || from >= devices.len() {
        None
    } else if devices[from].name == name && devices[from].location == location {
        Some(devices[from].id)
    } else {
        device_id_from(devices, name, location, from + 1)
    }
}

/// The identifier under which a listing holds the device with this name and
/// this location: that of the first such record.
pub open spec fn device_id(devices: Seq<DeviceView>, name: Seq<char>, location: Seq<char>) -> Option<DeviceId> {
    device_id_from(devices, name, location, 0)
}

/// The identifier of the first sensor from position `from` on that carries
/// this name.
pub open spec fn sensor_id_from(sensors: Seq<SensorView>, name: Seq<char>, from: int) -> Option<i32>
    decreases sensors.len() - from,
{
    if from < 0 || from >= sensors.len() {
        None
    } else if sensors[from].name == name {
        Some(sensors[from].id)
    } else {
        sensor_id_from(sensors, name, from + 1)
    }
}

/// The identifier under which a listing holds the sensor with this name:
/// that of the first such record.
pub open spec fn sensor_id(sensors: Seq<SensorView>, name: Seq<char>) -> Option<i32> {
    sensor_id_from(sensors, name, 0)
}

/// Whether `name` is one of the four names of the sensor catalog.
pub open spec fn in_catalog(name: Seq<char>) -> bool {
    name == "DS18B20"@ || name == "DHT11 Temperature"@ || name == "DHT11 Humidity"@ || name
        == "DHT11 Dew Point"@
}

/// 1 where the listing lacks the sensor named `name`, else 0.
pub open spec fn lacking(sensors: Seq<SensorView>, name: Seq<char>) -> nat {
    if sensor_id(sensors, name) is None {
        1
    } else {
        0
    }
}

/// How many of the four catalog sensors a listing lacks.
pub open spec fn lacking_sensors(sensors: Seq<SensorView>) -> nat {
    lacking(sensors, "DS18B20"@) + lacking(sensors, "DHT11 Temperature"@) + lacking(
        sensors,
        "DHT11 Humidity"@,
    ) + lacking(sensors, "DHT11 Dew Point"@)
}

/// Whether `setup` asks for this sensor to be created, the store choosing
/// its identifier.
pub open spec fn creates_sensor(setup: SensorsSetup, name: Seq<char>, unit: Seq<char>) -> bool {
    setup matches SensorsSetup::Create(sensor) && sensor@ == (SensorView { id: 0, name, unit })
}

/// One step of resolving a device against the listing that was fetched
/// last. A device that is listed resolves to the identifier of its first
/// record. One that is not is to be created with its name and location, the
/// store choosing the identifier; the caller then fetches the listing again
/// and takes the next step.
pub fn setup_device(devices: &Vec<Device>, device_name: &str, device_location: &str) -> (r: DeviceSetup)
    ensures
        match device_id(devices_view(devices@), device_name@, device_location@) {
            Some(id) => r == DeviceSetup::Found(id),
            None => r matches DeviceSetup::Create(device) && device@ == (DeviceView {
                id: 0,
                name: device_name@,
                location: device_location@,
            }),
        },
{
    let name = device_name.to_owned();
    let location = device_location.to_owned();
    let mut i: usize = 0;
    while i < devices.len()
        invariant
            i <= devices.len(),
            name@ == device_name@,
            location@ == device_location@,
            device_id(devices_view(devices@), device_name@, device_location@) == device_id_from(
                devices_view(devices@),
                device_name@,
                device_location@,
                i as int,
            ),
        decreases devices.len() - i,
    {
        if devices[i].name == name && devices[i].location == location {
            return DeviceSetup::Found(devices[i].id);
        }
        i += 1;
    }
    DeviceSetup::Create(Device { id: 0, name, location })
}

/// One step of resolving a sensor against the listing that was fetched
/// last. A sensor that is listed resolves to the identifier of its first
/// record. One that is not is to be created with its name and unit, the
/// store choosing the identifier; the caller then fetches the listing again
/// and takes the next step.
pub fn setup_sensor(sensors: &Vec<Sensor>, sensor_name: &str, sensor_unit: &str) -> (r: SensorSetup)
    ensures
        match sensor_id(sensors_view(sensors@), sensor_name@) {
            Some(id) => r == SensorSetup::Found(id),
            None => r matches SensorSetup::Create(sensor) && sensor@ == (SensorView {
                id: 0,
                name: sensor_name@,
                unit: sensor_unit@,
            }),
        },
{
    let name = sensor_name.to_owned();
    let mut i: usize = 0;
    while i < sensors.len()
        invariant
            i <= sensors.len(),
            name@ == sensor_name@,
            sensor_id(sensors_view(sensors@), sensor_name@) == sensor_id_from(
                sensors_view(sensors@),
                sensor_name@,
                i as int,
            ),
        decreases sensors.len() - i,
    {
        if sensors[i].name == name {
            return SensorSetup::Found(sensors[i].id);
        }
        i += 1;
    }
    SensorSetup::Create(Sensor { id: 0, name, unit: sensor_unit.to_owned() })
}

/// One step of resolving the sensor catalog against the listing that was
/// fetched last. The catalog is fixed: the probe `DS18B20` and the three
/// channels `DHT11 Temperature`, `DHT11 Humidity` and `DHT11 Dew Point`,
/// humidity in percent and the others in degrees Celsius. Where the listing
/// holds all four, their identifiers are the answer; else the first one that
/// it lacks, in that order, is to be created.
pub fn setup_sensors(sensors: &Vec<Sensor>) -> (r: SensorsSetup)
    ensures
        match (
            sensor_id(sensors_view(sensors@), "DS18B20"@),
            sensor_id(sensors_view(sensors@), "DHT11 Temperature"@),
            sensor_id(sensors_view(sensors@), "DHT11 Humidity"@),
            sensor_id(sensors_view(sensors@), "DHT11 Dew Point"@),
        ) {
            (Some(ds18b20), Some(dht11_temperature), Some(dht11_humidity), Some(dht11_dew_point)) => r
                == SensorsSetup::Ready(
                (SensorIds { ds18b20, dht11_temperature, dht11_humidity, dht11_dew_point }),
            ),
            (None, _, _, _) => creates_sensor(r, "DS18B20"@, "°C"@),
            (Some(_), None, _, _) => creates_sensor(r, "DHT11 Temperature"@, "°C"@),
            (Some(_), Some(_), None, _) => creates_sensor(r, "DHT11 Humidity"@, "%"@),
            (Some(_), Some(_), Some(_), None) => creates_sensor(r, "DHT11 Dew Point"@, "°C"@),
        },
        r is Ready <==> lacking_sensors(sensors_view(sensors@)) == 0,
        r matches SensorsSetup::Create(sensor) ==> in_catalog(sensor.name@) && sensor_id(
            sensors_view(sensors@),
            sensor.name@,
        ) is None,
{
    let ds18b20 = match setup_sensor(sensors, "DS18B20", "°C") {
        SensorSetup::Found(id) => id,
        SensorSetup::Create(sensor) => return SensorsSetup::Create(sensor),
    };
    let dht11_temperature = match setup_sensor(sensors, "DHT11 Temperature", "°C") {
        SensorSetup::Found(id) => id,
        SensorSetup::Create(sensor) => return SensorsSetup::Create(sensor),
    };
    let dht11_humidity = match setup_sensor(sensors, "DHT11 Humidity", "%") {
        SensorSetup::Found(id) => id,
        SensorSetup::Create(sensor) => return SensorsSetup::Create(sensor),
    };
    let dht11_dew_point = match setup_sensor(sensors, "DHT11 Dew Point", "°C") {
        SensorSetup::Found(id) => id,
        SensorSetup::Create(sensor) => return SensorsSetup::Create(sensor),
    };
    SensorsSetup::Ready(SensorIds { ds18b20, dht11_temperature, dht11_humidity, dht11_dew_point })
}

/// Whether the listing `after` is `before` with records added behind it.
pub open spec fn devices_added(before: Seq<DeviceView>, after: Seq<DeviceView>) -> bool {
    before.len() <= after.len() && forall|i: int| 0 <= i < before.len() ==> #[trigger] after[i] == before[i]
}

/// Whether the listing `after` is `before` with records added behind it.
pub open spec fn sensors_added(before: Seq<SensorView>, after: Seq<SensorView>) -> bool {
    before.len() <= after.len() && forall|i: int| 0 <= i < before.len() ==> #[trigger] after[i] == before[i]
}

proof fn lemma_device_id_from_stable(
    before: Seq<DeviceView>,
    after: Seq<DeviceView>,
    name: Seq<char>,
    location: Seq<char>,
    from: int,
)
    requires
        0 <= from,
        device_id_from(before, name, location, from) is Some,
        devices_added(before, after),
    ensures
        device_id_from(after, name, location, from) == device_id_from(before, name, location, from),
    decreases before.len() - from,
{
    if from < before.len() {
        assert(after[from] == before[from]);
        if !(before[from].name == name && before[from].location == location) {
            lemma_device_id_from_stable(before, after, name, location, from + 1);
        }
    }
}

/// Resolving a device that the store already lists asks for no create and
/// gives the same identifier every time: that of its first record, also
/// after the store has added records behind those it had.
pub proof fn lemma_device_resolution_is_stable(
    before: Seq<DeviceView>,
    after: Seq<DeviceView>,
    name: Seq<char>,
    location: Seq<char>,
)
    requires
        device_id(before, name, location) is Some,
        devices_added(before, after),
    ensures
        device_id(after, name, location) == device_id(before, name, location),
{
    lemma_device_id_from_stable(before, after, name, location, 0);
}

proof fn lemma_device_id_from_listed(
    devices: Seq<DeviceView>,
    name: Seq<char>,
    location: Seq<char>,
    from: int,
    i: int,
)
    requires
        0 <= from <= i < devices.len(),
        devices[i].name == name,
        devices[i].location == location,
    ensures
        device_id_from(devices, name, location, from) is Some,
    decreases i - from,
{
    if from < i {
        lemma_device_id_from_listed(devices, name, location, from + 1, i);
    }
}

/// A device that the listing holds anywhere is resolved from it: once the
/// store shows a record that was created, no further create is asked for.
pub proof fn lemma_listed_device_is_found(
    devices: Seq<DeviceView>,
    name: Seq<char>,
    location: Seq<char>,
    i: int,
)
    requires
        0 <= i < devices.len(),
        devices[i].name == name,
        devices[i].location == location,
    ensures
        device_id(devices, name, location) is Some,
{
    lemma_device_id_from_listed(devices, name, location, 0, i);
}

proof fn lemma_sensor_id_from_push(before: Seq<SensorView>, created: SensorView, name: Seq<char>, from: int)
    requires
        0 <= from <= before.len(),
    ensures
        sensor_id_from(before.push(created), name, from) == (match sensor_id_from(before, name, from) {
            Some(id) => Some(id),
            None => if created.name == name {
                Some(created.id)
            } else {
                None
            },
        }),
    decreases before.len() - from,
{
    let after = before.push(created);
    if from < before.len() {
        assert(after[from] == before[from]);
        if before[from].name != name {
            lemma_sensor_id_from_push(before, created, name, from + 1);
        }
    } else {
        assert(after[from] == created);
        assert(sensor_id_from(after, name, from + 1) is None);
    }
}

/// What a listing resolves a name to once the store has added one record
/// behind those it had: what it resolved to before, or the new record where
/// it resolved to nothing and the new record carries the name.
pub proof fn lemma_sensor_id_after_create(before: Seq<SensorView>, created: SensorView, name: Seq<char>)
    ensures
        sensor_id(before.push(created), name) == (match sensor_id(before, name) {
            Some(id) => Some(id),
            None => if created.name == name {
                Some(created.id)
            } else {
                None
            },
        }),
{
    lemma_sensor_id_from_push(before, created, name, 0);
}

proof fn lemma_sensor_id_from_stable(before: Seq<SensorView>, after: Seq<SensorView>, name: Seq<char>, from: int)
    requires
        0 <= from,
        sensor_id_from(before, name, from) is Some,
        sensors_added(before, after),
    ensures
        sensor_id_from(after, name, from) == sensor_id_from(before, name, from),
    decreases before.len() - from,
{
    if from < before.len() {
        assert(after[from] == before[from]);
        if before[from].name != name {
            lemma_sensor_id_from_stable(before, after, name, from + 1);
        }
    }
}

/// Resolving a sensor that the store already lists asks for no create and
/// gives the same identifier every time: that of its first record, also
/// after the store has added records behind those it had.
pub proof fn lemma_sensor_resolution_is_stable(before: Seq<SensorView>, after: Seq<SensorView>, name: Seq<char>)
    requires
        sensor_id(before, name) is Some,
        sensors_added(before, after),
    ensures
        sensor_id(after, name) == sensor_id(before, name),
{
    lemma_sensor_id_from_stable(before, after, name, 0);
}

proof fn lemma_sensor_id_from_listed(sensors: Seq<SensorView>, name: Seq<char>, from: int, i: int)
    requires
        0 <= from <= i < sensors.len(),
        sensors[i].name == name,
    ensures
        sensor_id_from(sensors, name, from) is Some,
    decreases i - from,
{
    if from < i {
        lemma_sensor_id_from_listed(sensors, name, from + 1, i);
    }
}

/// A sensor that the listing holds anywhere is resolved from it: once the
/// store shows a record that was created, no further create is asked for.
pub proof fn lemma_listed_sensor_is_found(sensors: Seq<SensorView>, name: Seq<char>, i: int)
    requires
        0 <= i < sensors.len(),
        sensors[i].name == name,
    ensures
        sensor_id(sensors, name) is Some,
{
    lemma_sensor_id_from_listed(sensors, name, 0, i);
}

/// Creating a catalog sensor that the listing lacks settles exactly that
/// one: once the store lists the new record behind the others, the listing
/// lacks one catalog sensor fewer. A listing lacks four at most, so
/// resolving the catalog asks for at most four creates, and for fewer where
/// the store holds some of it.
pub proof fn lemma_create_settles_one_sensor(before: Seq<SensorView>, created: SensorView)
    requires
        in_catalog(created.name),
        sensor_id(before, created.name) is None,
    ensures
        lacking_sensors(before.push(created)) + 1 == lacking_sensors(before),
        lacking_sensors(before) <= 4,
{
    reveal_strlit("DS18B20");
    reveal_strlit("DHT11 Temperature");
    reveal_strlit("DHT11 Humidity");
    reveal_strlit("DHT11 Dew Point");
    assert("DS18B20"@.len() == 7);
    assert("DHT11 Temperature"@.len() == 17);
    assert("DHT11 Humidity"@.len() == 14);
    assert("DHT11 Dew Point"@.len() == 15);
    lemma_sensor_id_after_create(before, created, "DS18B20"@);
    lemma_sensor_id_after_create(before, created, "DHT11 Temperature"@);
    lemma_sensor_id_after_create(before, created, "DHT11 Humidity"@);
    lemma_sensor_id_after_create(before, created, "DHT11 Dew Point"@);
}

} // verus!
