use sensor_node::config::Config;

#[test]
fn set_net_id_accepts_hex_with_and_without_prefix() {
    let mut c = Config::new();
    assert!(c.set_net_id("0x13"));
    assert_eq!(c.net_id, 0x13);
    assert!(c.set_net_id("2A"));
    assert_eq!(c.net_id, 0x2a);
    assert!(c.set_net_id("0xFFFFFFFF"));
    assert_eq!(c.net_id, 0xffff_ffff);
    // Repeated prefixes are stripped, as a trimmed prefix would be.
    assert!(c.set_net_id("0x0x13"));
    assert_eq!(c.net_id, 0x13);
}

#[test]
fn set_net_id_rejects_and_leaves_config_unchanged() {
    let mut c = Config::new();
    let before = c.clone();
    assert!(!c.set_net_id(""));
    assert!(!c.set_net_id("0x"));
    assert!(!c.set_net_id("wxyz"));
    assert!(!c.set_net_id("100000000")); // overflows 32 bits
    assert!(!c.set_net_id("-13"));
    assert_eq!(c, before);
}

#[test]
fn set_session_keys_need_exactly_32_hex_characters() {
    let mut c = Config::new();
    assert!(c.set_nwk_skey("000102030405060708090A0B0C0D0E0F"));
    assert_eq!(c.nwkskey, Some(0x000102030405060708090a0b0c0d0e0f));
    assert!(c.set_app_skey("f0e0d0c0b0a090807060504030201000"));
    assert_eq!(c.appskey, Some(0xf0e0d0c0b0a090807060504030201000));

    let before = c.clone();
    assert!(!c.set_nwk_skey("000102030405060708090A0B0C0D0E0")); // 31
    assert!(!c.set_nwk_skey("000102030405060708090A0B0C0D0E0F0")); // 33
    assert!(!c.set_nwk_skey("0x0102030405060708090A0B0C0D0E0F")); // prefix, not hex
    assert!(!c.set_nwk_skey("zz0102030405060708090A0B0C0D0E0F"));
    assert!(!c.set_app_skey(""));
    assert_eq!(c, before);
}

#[test]
fn set_iccid_parses_unsigned_decimal() {
    let mut c = Config::new();
    assert!(c.set_iccid("923453256784434561"));
    assert_eq!(c.iccid, Some(923453256784434561));
    assert!(c.set_iccid("+5"));
    assert_eq!(c.iccid, Some(5));
    assert!(c.set_iccid("18446744073709551615"));
    assert_eq!(c.iccid, Some(u64::MAX));

    let before = c.clone();
    assert!(!c.set_iccid("18446744073709551616")); // one past u64::MAX
    assert!(!c.set_iccid("12a"));
    assert!(!c.set_iccid("-1"));
    assert!(!c.set_iccid(""));
    assert_eq!(c, before);
}

#[test]
fn set_send_freq_parses_unsigned_decimal_ms() {
    let mut c = Config::new();
    assert!(c.set_send_freq_ms("60000"));
    assert_eq!(c.send_frequency_ms, 60_000);
    let before = c.clone();
    assert!(!c.set_send_freq_ms("4294967296")); // one past u32::MAX
    assert!(!c.set_send_freq_ms("1h"));
    assert_eq!(c, before);
}

#[test]
fn set_network_server_port_parses_unsigned_decimal() {
    let mut c = Config::new();
    assert!(c.set_network_server_port("1700"));
    assert_eq!(c.network_server_port, 1700);
    let before = c.clone();
    assert!(!c.set_network_server_port("65536"));
    assert!(!c.set_network_server_port("port"));
    assert_eq!(c, before);
}

#[test]
fn set_network_server_host_needs_four_octets() {
    let mut c = Config::new();
    assert!(c.set_network_server_host("192.168.1.20"));
    assert_eq!(c.network_server_host, Some([192, 168, 1, 20]));
    assert!(c.set_network_server_host("0.0.0.0"));
    assert_eq!(c.network_server_host, Some([0, 0, 0, 0]));
    assert!(c.set_network_server_host("255.255.255.255"));
    assert_eq!(c.network_server_host, Some([255, 255, 255, 255]));
    // Leading zeros are octet-value noise, not a different address.
    assert!(c.set_network_server_host("010.001.000.009"));
    assert_eq!(c.network_server_host, Some([10, 1, 0, 9]));

    let before = c.clone();
    assert!(!c.set_network_server_host("1.2.3"));
    assert!(!c.set_network_server_host("1.2.3.4.5"));
    assert!(!c.set_network_server_host("256.1.1.1"));
    assert!(!c.set_network_server_host("1..2.3"));
    assert!(!c.set_network_server_host("1.2.3."));
    assert!(!c.set_network_server_host("a.b.c.d"));
    assert!(!c.set_network_server_host(""));
    assert_eq!(c, before);
}
