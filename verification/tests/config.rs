use std::str::FromStr;

use sensor_monitor::config::{validate_topic_configs, DeviceContext, LogLevel, Opts, TopicConfig, TopicDeviceMap};
use sensor_monitor::error::BridgeError;
use sensor_monitor::hem::{DeviceId, SensorIds};

fn create_test_sensor_ids() -> SensorIds {
    SensorIds { ds18b20: 1, dht11_temperature: 2, dht11_humidity: 3, dht11_dew_point: 4 }
}

fn create_test_device_context(_topic: &str, device_id: DeviceId) -> DeviceContext {
    DeviceContext { device_id, sensor_ids: create_test_sensor_ids() }
}

fn entry(topic: &str, name: &str, location: &str) -> TopicConfig {
    TopicConfig {
        topic: topic.to_string(),
        device_name: name.to_string(),
        device_location: location.to_string(),
    }
}

#[test]
fn test_multi_topic_routing() {
    let mut topic_device_map = TopicDeviceMap::new();

    topic_device_map
        .insert("kitchen/sensors".to_string(), create_test_device_context("kitchen/sensors", 1));
    topic_device_map
        .insert("bedroom/sensors".to_string(), create_test_device_context("bedroom/sensors", 2));
    topic_device_map
        .insert("garage/sensors".to_string(), create_test_device_context("garage/sensors", 3));

    assert_eq!(topic_device_map.get("kitchen/sensors").unwrap().device_id, 1);
    assert_eq!(topic_device_map.get("bedroom/sensors").unwrap().device_id, 2);
    assert_eq!(topic_device_map.get("garage/sensors").unwrap().device_id, 3);

    assert!(!topic_device_map.contains_key("unknown/topic"));
}

#[test]
fn test_device_context_properties() {
    let context = create_test_device_context("test/topic", 42);

    assert_eq!(context.device_id, 42);
    assert_eq!(context.sensor_ids.ds18b20, 1);
    assert_eq!(context.sensor_ids.dht11_temperature, 2);
    assert_eq!(context.sensor_ids.dht11_humidity, 3);
    assert_eq!(context.sensor_ids.dht11_dew_point, 4);
}

#[test]
fn test_log_level_from_str() {
    assert!(matches!(LogLevel::from_str("trace"), Ok(LogLevel::Trace)));
    assert!(matches!(LogLevel::from_str("debug"), Ok(LogLevel::Debug)));
    assert!(matches!(LogLevel::from_str("info"), Ok(LogLevel::Info)));
    assert!(matches!(LogLevel::from_str("warn"), Ok(LogLevel::Warn)));
    assert!(matches!(LogLevel::from_str("error"), Ok(LogLevel::Error)));
    assert!(LogLevel::from_str("invalid").is_err());
}

#[test]
fn log_level_names_are_case_sensitive() {
    assert_eq!(LogLevel::from_str("Info"), Err("unknown log level".to_string()));
    assert_eq!(LogLevel::from_str(""), Err("unknown log level".to_string()));
    assert_eq!(LogLevel::from_str(" warn"), Err("unknown log level".to_string()));
    assert_eq!(LogLevel::from_str("warn"), Ok(LogLevel::Warn));
    assert_eq!(LogLevel::from_str("TRACE"), Err("unknown log level".to_string()));
}

#[test]
fn test_opts_display() {
    let opts = Opts {
        mqtt_host: "test.host".to_string(),
        hemrs_base_url: "http://test.url".to_string(),
        config_path: "test.toml".to_string(),
        log_level: LogLevel::Info,
    };
    let display_str = opts.to_string();
    assert!(display_str.contains("test.host"));
    assert!(display_str.contains("http://test.url"));
    assert!(display_str.contains("test.toml"));
}

#[test]
fn opts_line_is_exact() {
    let opts = Opts {
        mqtt_host: "thor.lan".to_string(),
        hemrs_base_url: "http://desktop:65534".to_string(),
        config_path: "config.toml".to_string(),
        log_level: LogLevel::Debug,
    };
    assert_eq!(
        opts.to_string(),
        "mqtt_host: thor.lan, hemrs_base_url: http://desktop:65534, config_path: config.toml"
    );
}

#[test]
fn test_log_level_clone() {
    let level = LogLevel::Info;
    let cloned = level.clone();
    assert!(matches!(cloned, LogLevel::Info));
}

#[test]
fn empty_table_routes_nothing() {
    let table = TopicDeviceMap::new();
    assert!(table.is_empty());
    assert_eq!(table.len(), 0);
    assert!(table.get("tele/stue/SENSOR").is_none());
}

#[test]
fn later_route_replaces_earlier_on_same_topic() {
    let mut table = TopicDeviceMap::new();
    assert_eq!(table.insert("test/duplicate".to_string(), create_test_device_context("", 1)), None);
    assert_eq!(table.insert("other".to_string(), create_test_device_context("", 7)), None);
    let earlier = table.insert("test/duplicate".to_string(), create_test_device_context("", 2));
    assert_eq!(earlier, Some(create_test_device_context("", 1)));
    assert_eq!(table.len(), 2);
    assert!(!table.is_empty());
    assert_eq!(table.get("test/duplicate").unwrap().device_id, 2);
    assert_eq!(table.get("other").unwrap().device_id, 7);
}

#[test]
fn topics_match_letter_for_letter() {
    let mut table = TopicDeviceMap::new();
    table.insert("tele/stue/SENSOR".to_string(), create_test_device_context("", 5));
    assert!(table.contains_key("tele/stue/SENSOR"));
    assert!(!table.contains_key("tele/stue/sensor"));
    assert!(!table.contains_key("tele/stue"));
    assert!(!table.contains_key("tele/+/SENSOR"));
    assert!(!table.contains_key("tele/stue/SENSOR/"));
}

#[test]
fn bootstrap_without_devices_is_a_configuration_error() {
    let devices: Vec<(TopicConfig, DeviceId)> = Vec::new();
    let result = TopicDeviceMap::bootstrap(&devices, create_test_sensor_ids());
    assert!(matches!(result, Err(BridgeError::ConfigurationError)));
}

#[test]
fn bootstrap_routes_each_topic_to_its_device() {
    let devices = vec![
        (entry("house/room1/SENSOR", "esp32_room1", "Room 1"), 11),
        (entry("house/room2/SENSOR", "esp32_room2", "Room 2"), 12),
        (entry("house/room3/SENSOR", "esp32_room3", "Room 3"), 13),
    ];
    let table = TopicDeviceMap::bootstrap(&devices, create_test_sensor_ids()).unwrap();
    assert_eq!(table.len(), 3);
    for (config, device_id) in devices.iter() {
        let context = table.get(&config.topic).unwrap();
        assert_eq!(context.device_id, *device_id);
        assert_eq!(context.sensor_ids, create_test_sensor_ids());
    }
    assert!(table.get("house/room4/SENSOR").is_none());
}

#[test]
fn bootstrap_lets_the_last_device_on_a_topic_win() {
    let devices = vec![
        (entry("test/duplicate", "device1", "Location 1"), 1),
        (entry("test/other", "device3", "Location 3"), 3),
        (entry("test/duplicate", "device2", "Location 2"), 2),
    ];
    let table = TopicDeviceMap::bootstrap(&devices, create_test_sensor_ids()).unwrap();
    assert_eq!(table.len(), 2);
    assert_eq!(table.get("test/duplicate").unwrap().device_id, 2);
    assert_eq!(table.get("test/other").unwrap().device_id, 3);
}

#[test]
fn device_list_must_hold_an_entry() {
    let configs: Vec<TopicConfig> = Vec::new();
    assert_eq!(validate_topic_configs(&configs), Err(BridgeError::ConfigurationError));
}

#[test]
fn device_list_entries_must_be_complete() {
    let good = vec![entry("a/b", "esp32", "Stue"), entry("c/d", "esp32", "Kjeller")];
    assert_eq!(validate_topic_configs(&good), Ok(()));

    let no_topic = vec![entry("a/b", "esp32", "Stue"), entry("", "test_device", "Test Location")];
    assert_eq!(validate_topic_configs(&no_topic), Err(BridgeError::ConfigurationError));
    let no_name = vec![entry("a/b", "", "Stue")];
    assert_eq!(validate_topic_configs(&no_name), Err(BridgeError::ConfigurationError));
    let no_location = vec![entry("a/b", "esp32", "")];
    assert_eq!(validate_topic_configs(&no_location), Err(BridgeError::ConfigurationError));
}

#[test]
fn device_list_takes_any_text() {
    let long_string = "a".repeat(1000);
    let configs = vec![
        entry("test/émojis/🏠", "esp32_café", "Café ☕"),
        entry("test/path with spaces/and-dashes/and_underscores", "device-with-dashes", "Location & symbols!"),
        entry(&format!("test/{}", long_string), &long_string, &long_string),
    ];
    assert_eq!(validate_topic_configs(&configs), Ok(()));
    let devices: Vec<(TopicConfig, DeviceId)> =
        configs.into_iter().zip(vec![1, 2, 3]).collect();
    let table = TopicDeviceMap::bootstrap(&devices, create_test_sensor_ids()).unwrap();
    assert_eq!(table.get("test/émojis/🏠").unwrap().device_id, 1);
    assert_eq!(table.get(&format!("test/{}", long_string)).unwrap().device_id, 3);
}
