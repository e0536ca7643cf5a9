use sensor_node::config::{Config, ConfigError, Version};
use sensor_node::flash::Flash;

fn provisioned() -> Config {
    Config {
        version: Version::V1,
        net_id: 0x13,
        nwkskey: Some(0x000102030405060708090a0b0c0d0e0f),
        appskey: Some(0xf0e0d0c0b0a090807060504030201000),
        iccid: Some(923453256784434561),
        send_frequency_ms: 60_000,
        network_server_host: Some([192, 168, 1, 20]),
        network_server_port: 1700,
    }
}

#[test]
fn defaults_are_documented_values() {
    let c = Config::new();
    assert_eq!(c.version, Version::V1);
    assert_eq!(c.net_id, 0x13);
    assert_eq!(c.nwkskey, None);
    assert_eq!(c.appskey, None);
    assert_eq!(c.iccid, None);
    assert_eq!(c.send_frequency_ms, 60 * 60 * 1000);
    assert_eq!(c.network_server_host, None);
    assert_eq!(c.network_server_port, 1694);
    assert_eq!(Config::default(), c);
}

#[test]
fn is_complete_needs_all_four_fields() {
    let full = provisioned();
    assert!(full.is_complete());
    assert!(!Config::new().is_complete());

    let mut missing_nwk = full.clone();
    missing_nwk.nwkskey = None;
    assert!(!missing_nwk.is_complete());

    let mut missing_app = full.clone();
    missing_app.appskey = None;
    assert!(!missing_app.is_complete());

    let mut missing_iccid = full.clone();
    missing_iccid.iccid = None;
    assert!(!missing_iccid.is_complete());

    let mut missing_host = full.clone();
    missing_host.network_server_host = None;
    assert!(!missing_host.is_complete());

    // Completeness ignores every other field.
    let mut odd = full.clone();
    odd.net_id = 0;
    odd.send_frequency_ms = 0;
    odd.network_server_port = 0;
    assert!(odd.is_complete());
}

#[test]
fn save_load_round_trip() {
    let config = provisioned();
    let mut flash = Flash::new(4096);
    assert!(config.save(&mut flash).is_ok());
    let loaded = Config::load(&flash).unwrap();
    assert_eq!(loaded, config);
}

#[test]
fn save_load_round_trip_sparse_config() {
    // A record with every optional field absent round-trips too.
    let config = Config::new();
    let mut flash = Flash::new(4096);
    assert!(config.save(&mut flash).is_ok());
    assert_eq!(Config::load(&flash).unwrap(), config);
}

#[test]
fn load_from_erased_flash_defaults() {
    let flash = Flash::new(4096);
    let loaded = Config::load(&flash).unwrap();
    assert_eq!(loaded, Config::new());
    assert!(!loaded.is_complete());
}

#[test]
fn load_wrong_version_defaults() {
    // A record that deserializes but carries an unsupported version
    // code loads as the defaults, not as an error.
    let mut flash = Flash::new(4096);
    let mut record = [0u8; 64];
    record[0] = 7; // version code 7: well-formed varint, unsupported
    assert!(flash.try_write(0, &record).is_ok());
    assert_eq!(Config::load(&flash).unwrap(), Config::new());
}

#[test]
fn load_erased_sentinel_version_defaults() {
    // Saving a record tagged with the erased sentinel and loading it
    // back yields the defaults: the sentinel never denotes a record.
    let mut config = provisioned();
    config.version = Version::Invalid;
    let mut flash = Flash::new(4096);
    assert!(config.save(&mut flash).is_ok());
    assert_eq!(Config::load(&flash).unwrap(), Config::new());
}

#[test]
fn load_short_device_cannot_load() {
    let flash = Flash::new(32);
    match Config::load(&flash) {
        Err(ConfigError::CannotLoad) => {}
        _ => panic!("expected CannotLoad"),
    }
}

#[test]
fn save_oversized_record_cannot_save() {
    // Maximal field values push the varint encoding past the 64-byte
    // record, and the failure leaves storage untouched.
    let config = Config {
        version: Version::V1,
        net_id: u32::MAX,
        nwkskey: Some(u128::MAX),
        appskey: Some(u128::MAX),
        iccid: Some(u64::MAX),
        send_frequency_ms: u32::MAX,
        network_server_host: Some([255, 255, 255, 255]),
        network_server_port: u16::MAX,
    };
    let mut flash = Flash::new(4096);
    match config.save(&mut flash) {
        Err(ConfigError::CannotSave) => {}
        _ => panic!("expected CannotSave"),
    }
    // Storage still reads as fully erased.
    let bytes = flash.try_read(0, 4096).unwrap();
    assert!(bytes.iter().all(|b| *b == 0xff));
}

#[test]
fn save_undersized_device_cannot_save() {
    // A device smaller than one erase granule refuses the erase.
    let config = provisioned();
    let mut flash = Flash::new(1024);
    match config.save(&mut flash) {
        Err(ConfigError::CannotSave) => {}
        _ => panic!("expected CannotSave"),
    }
}

#[test]
fn save_erases_rest_of_granule() {
    let config = provisioned();
    let mut flash = Flash::new(4096);
    assert!(config.save(&mut flash).is_ok());
    let tail = flash.try_read(64, 4096 - 64).unwrap();
    assert!(tail.iter().all(|b| *b == 0xff));
}

#[test]
fn stored_bytes_are_stable_across_saves() {
    // The same configuration always serializes to the same record, so
    // the bytes can be provisioned in bulk or sent over a channel.
    let config = provisioned();
    let mut flash_a = Flash::new(4096);
    let mut flash_b = Flash::new(4096);
    assert!(config.save(&mut flash_a).is_ok());
    assert!(config.save(&mut flash_b).is_ok());
    assert_eq!(
        flash_a.try_read(0, 64).unwrap(),
        flash_b.try_read(0, 64).unwrap()
    );
}
