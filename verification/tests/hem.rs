use sensor_monitor::config::{TopicConfig, TopicDeviceMap};
use sensor_monitor::error::BridgeError;
use sensor_monitor::hem::{
    fetch_devices, fetch_sensors, setup_device, setup_sensor, setup_sensors, Device, DeviceSetup, Sensor,
    SensorIds, SensorSetup, SensorsSetup,
};
use sensor_monitor::json::Json;

fn device(id: i32, name: &str, location: &str) -> Device {
    Device { id, name: name.to_string(), location: location.to_string() }
}

fn sensor(id: i32, name: &str, unit: &str) -> Sensor {
    Sensor { id, name: name.to_string(), unit: unit.to_string() }
}

#[test]
fn test_sensor_ids_creation() {
    let sensor_ids = SensorIds { ds18b20: 1, dht11_temperature: 2, dht11_humidity: 3, dht11_dew_point: 4 };
    assert_eq!(sensor_ids.ds18b20, 1);
    assert_eq!(sensor_ids.dht11_temperature, 2);
    assert_eq!(sensor_ids.dht11_humidity, 3);
    assert_eq!(sensor_ids.dht11_dew_point, 4);
}

#[test]
fn test_sensor_deserialization() {
    let json = r#"{"id": 1, "name": "Test Sensor", "unit": "°C"}"#;
    let sensor = Sensor::from_json(&Json::parse(json.as_bytes()).unwrap()).unwrap();
    assert_eq!(sensor.id, 1);
    assert_eq!(sensor.name, "Test Sensor");
    assert_eq!(sensor.unit, "°C");
}

#[test]
fn test_device_deserialization() {
    let json = r#"{"id": 1, "name": "Test Device", "location": "Test Location"}"#;
    let device = Device::from_json(&Json::parse(json.as_bytes()).unwrap()).unwrap();
    assert_eq!(device.id, 1);
    assert_eq!(device.name, "Test Device");
    assert_eq!(device.location, "Test Location");
}

#[test]
fn test_sensor_serialization() {
    let sensor = Sensor { id: 1, name: "Test Sensor".to_string(), unit: "°C".to_string() };
    let json = sensor.to_json();
    assert!(json.contains("Test Sensor"));
    assert!(json.contains("°C"));
    assert!(!json.contains("\"id\""));
}

#[test]
fn test_device_serialization() {
    let device = Device { id: 1, name: "Test Device".to_string(), location: "Test Location".to_string() };
    let json = device.to_json();
    assert!(json.contains("Test Device"));
    assert!(json.contains("Test Location"));
    assert!(!json.contains("\"id\""));
}

#[test]
fn creation_bodies_are_exact() {
    assert_eq!(device(7, "esp32_stue", "Stue").to_json(), r#"{"name":"esp32_stue","location":"Stue"}"#);
    assert_eq!(sensor(0, "DHT11 Humidity", "%").to_json(), r#"{"name":"DHT11 Humidity","unit":"%"}"#);
    assert_eq!(
        device(0, "a \"quoted\" name", "back\\slash\nline").to_json(),
        r#"{"name":"a \"quoted\" name","location":"back\\slash\nline"}"#
    );
    assert_eq!(sensor(0, "", "°C").to_json(), r#"{"name":"","unit":"°C"}"#);
}

#[test]
fn created_body_reads_back_as_written() {
    let body = device(0, "a \"quoted\" name", "Stue\t1").to_json();
    match Json::parse(body.as_bytes()).unwrap() {
        Json::Object(members) => {
            assert_eq!(Json::find_text(&members, "name"), Some("a \"quoted\" name".to_string()));
            assert_eq!(Json::find_text(&members, "location"), Some("Stue\t1".to_string()));
            assert!(Json::find(&members, "id").is_none());
        }
        other => panic!("{:?}", other),
    }
}

#[test]
fn device_needs_all_three_members() {
    let parse = |text: &str| Device::from_json(&Json::parse(text.as_bytes()).unwrap());
    assert!(parse(r#"{"name": "a", "location": "b"}"#).is_none());
    assert!(parse(r#"{"id": 1, "location": "b"}"#).is_none());
    assert!(parse(r#"{"id": 1, "name": "a"}"#).is_none());
    assert!(parse(r#"{"id": "1", "name": "a", "location": "b"}"#).is_none());
    assert!(parse(r#"{"id": 1.5, "name": "a", "location": "b"}"#).is_none());
    assert!(parse(r#"{"id": 1, "name": 2, "location": "b"}"#).is_none());
    assert!(parse(r#"[1, "a", "b"]"#).is_none());
    assert!(parse(r#"{"id": 1, "name": "a", "location": "b", "extra": [true, null]}"#).is_some());
}

#[test]
fn identifiers_are_32_bit() {
    let parse = |text: &str| Device::from_json(&Json::parse(text.as_bytes()).unwrap());
    assert_eq!(parse(r#"{"id": 2147483647, "name": "a", "location": "b"}"#).unwrap().id, i32::MAX);
    assert_eq!(parse(r#"{"id": -2147483648, "name": "a", "location": "b"}"#).unwrap().id, i32::MIN);
    assert!(parse(r#"{"id": 2147483648, "name": "a", "location": "b"}"#).is_none());
    assert!(parse(r#"{"id": -2147483649, "name": "a", "location": "b"}"#).is_none());
    assert!(parse(r#"{"id": 18446744073709551615, "name": "a", "location": "b"}"#).is_none());
}

#[test]
fn fetch_devices_reads_a_listing() {
    let body = r#"[{"id": 3, "name": "esp32_stue", "location": "Stue"},
                   {"id": 9, "name": "esp32_bad", "location": "Bad"}]"#;
    let devices = fetch_devices(body.as_bytes()).unwrap();
    assert_eq!(devices.len(), 2);
    assert_eq!((devices[0].id, devices[0].name.as_str(), devices[0].location.as_str()), (3, "esp32_stue", "Stue"));
    assert_eq!((devices[1].id, devices[1].name.as_str(), devices[1].location.as_str()), (9, "esp32_bad", "Bad"));
    assert!(fetch_devices(b"[]").unwrap().is_empty());
}

#[test]
fn fetch_devices_refuses_what_is_no_listing() {
    assert!(matches!(fetch_devices(b"not json"), Err(BridgeError::TransportError)));
    assert!(matches!(fetch_devices(b"{}"), Err(BridgeError::TransportError)));
    assert!(matches!(fetch_devices(b""), Err(BridgeError::TransportError)));
    assert!(matches!(
        fetch_devices(br#"[{"id": 3, "name": "a", "location": "b"}, {"id": 4, "name": "a"}]"#),
        Err(BridgeError::TransportError)
    ));
    assert!(matches!(fetch_devices(&[b'[', 0xff, b']']), Err(BridgeError::TransportError)));
}

#[test]
fn fetch_sensors_reads_a_listing() {
    let body = r#"[{"id": 1, "name": "DS18B20", "unit": "°C"}, {"id": 2, "name": "DHT11 Humidity", "unit": "%"}]"#;
    let sensors = fetch_sensors(body.as_bytes()).unwrap();
    assert_eq!(sensors.len(), 2);
    assert_eq!((sensors[0].id, sensors[0].name.as_str(), sensors[0].unit.as_str()), (1, "DS18B20", "°C"));
    assert_eq!((sensors[1].id, sensors[1].name.as_str(), sensors[1].unit.as_str()), (2, "DHT11 Humidity", "%"));
    assert!(matches!(fetch_sensors(br#"[{"id": 1, "name": "DS18B20"}]"#), Err(BridgeError::TransportError)));
    assert!(matches!(fetch_sensors(b"null"), Err(BridgeError::TransportError)));
}

#[test]
fn setup_device_finds_the_first_record_by_name_and_location() {
    let listing = vec![
        device(1, "esp32_stue", "Kjeller"),
        device(2, "esp32_bad", "Stue"),
        device(3, "esp32_stue", "Stue"),
        device(4, "esp32_stue", "Stue"),
    ];
    assert!(matches!(setup_device(&listing, "esp32_stue", "Stue"), DeviceSetup::Found(3)));
    assert!(matches!(setup_device(&listing, "esp32_stue", "Kjeller"), DeviceSetup::Found(1)));
    match setup_device(&listing, "esp32_stue", "stue") {
        DeviceSetup::Create(d) => {
            assert_eq!(d.id, 0);
            assert_eq!(d.name, "esp32_stue");
            assert_eq!(d.location, "stue");
        }
        DeviceSetup::Found(id) => panic!("found {}", id),
    }
}

#[test]
fn resolving_a_listed_device_twice_gives_the_same_identifier() {
    let mut listing = vec![device(7, "esp32_stue", "Stue")];
    let first = setup_device(&listing, "esp32_stue", "Stue");
    listing.push(device(8, "esp32_stue", "Stue"));
    listing.push(device(9, "other", "Stue"));
    let second = setup_device(&listing, "esp32_stue", "Stue");
    assert!(matches!(first, DeviceSetup::Found(7)));
    assert!(matches!(second, DeviceSetup::Found(7)));
}

#[test]
fn setup_sensor_finds_by_name_alone() {
    let listing = vec![sensor(5, "DHT11 Humidity", "percent"), sensor(6, "DS18B20", "°C")];
    assert!(matches!(setup_sensor(&listing, "DHT11 Humidity", "%"), SensorSetup::Found(5)));
    assert!(matches!(setup_sensor(&listing, "DS18B20", "°C"), SensorSetup::Found(6)));
    assert!(matches!(setup_sensor(&listing, "DS18B20", "°C"), SensorSetup::Found(6)));
    match setup_sensor(&listing, "DHT11 Dew Point", "°C") {
        SensorSetup::Create(s) => {
            assert_eq!((s.id, s.name.as_str(), s.unit.as_str()), (0, "DHT11 Dew Point", "°C"));
        }
        SensorSetup::Found(id) => panic!("found {}", id),
    }
}

#[test]
fn setup_sensors_asks_for_the_catalog_in_order() {
    let expected = [
        ("DS18B20", "°C"),
        ("DHT11 Temperature", "°C"),
        ("DHT11 Humidity", "%"),
        ("DHT11 Dew Point", "°C"),
    ];
    let mut store: Vec<Sensor> = Vec::new();
    let mut creates = 0;
    let ids = loop {
        match setup_sensors(&store) {
            SensorsSetup::Ready(ids) => break ids,
            SensorsSetup::Create(s) => {
                assert_eq!((s.id, s.name.as_str(), s.unit.as_str()), (0, expected[creates].0, expected[creates].1));
                creates += 1;
                store.push(sensor(100 + creates as i32, &s.name, &s.unit));
            }
        }
    };
    assert_eq!(creates, 4);
    assert_eq!(ids, SensorIds { ds18b20: 101, dht11_temperature: 102, dht11_humidity: 103, dht11_dew_point: 104 });
}

#[test]
fn setup_sensors_creates_only_what_is_missing() {
    let mut store = vec![sensor(3, "DHT11 Humidity", "%"), sensor(1, "DS18B20", "°C")];
    let mut created: Vec<String> = Vec::new();
    let ids = loop {
        match setup_sensors(&store) {
            SensorsSetup::Ready(ids) => break ids,
            SensorsSetup::Create(s) => {
                created.push(s.name.clone());
                store.push(sensor(10 + created.len() as i32, &s.name, &s.unit));
            }
        }
    };
    assert_eq!(created, vec!["DHT11 Temperature".to_string(), "DHT11 Dew Point".to_string()]);
    assert_eq!(ids, SensorIds { ds18b20: 1, dht11_temperature: 11, dht11_humidity: 3, dht11_dew_point: 12 });
}

#[test]
fn bootstrap_against_an_empty_store() {
    let configs = vec![TopicConfig {
        topic: "tele/stue/SENSOR".to_string(),
        device_name: "esp32_stue".to_string(),
        device_location: "Stue".to_string(),
    }];

    let mut sensors: Vec<Sensor> = Vec::new();
    let mut sensor_creates = 0;
    let sensor_ids = loop {
        match setup_sensors(&sensors) {
            SensorsSetup::Ready(ids) => break ids,
            SensorsSetup::Create(s) => {
                sensor_creates += 1;
                sensors.push(sensor(sensor_creates, &s.name, &s.unit));
            }
        }
    };
    assert!(sensor_creates <= 4);

    let mut devices: Vec<Device> = Vec::new();
    let mut device_creates = 0;
    let mut resolved = Vec::new();
    for config in configs {
        let id = loop {
            match setup_device(&devices, &config.device_name, &config.device_location) {
                DeviceSetup::Found(id) => break id,
                DeviceSetup::Create(d) => {
                    device_creates += 1;
                    devices.push(device(42, &d.name, &d.location));
                }
            }
        };
        resolved.push((config, id));
    }
    assert_eq!(device_creates, 1);

    let table = TopicDeviceMap::bootstrap(&resolved, sensor_ids).unwrap();
    assert_eq!(table.len(), 1);
    let context = table.get("tele/stue/SENSOR").unwrap();
    assert_eq!(context.device_id, 42);
    assert_eq!(context.sensor_ids, SensorIds { ds18b20: 1, dht11_temperature: 2, dht11_humidity: 3, dht11_dew_point: 4 });
}
