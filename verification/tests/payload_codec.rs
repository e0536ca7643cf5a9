use sensor_node::payload::EnvironmentalPayload;

#[test]
fn encode_example_layout() {
    let payload = EnvironmentalPayload {
        temperature: -2,
        pressure: 0,
        humidity: 99,
        gas_resistance: 1,
    };
    assert_eq!(
        &payload.to_be_bytes(),
        &[0xff, 0xfe, 0x00, 0x00, 0x00, 0x00, 0x00, 0x00, 0x00, 0x63, 0x00, 0x00, 0x00, 0x01]
    );
}

#[test]
fn encode_is_big_endian_per_field() {
    let payload = EnvironmentalPayload {
        temperature: 0x1234,
        pressure: 0x0102_0304,
        humidity: 0x0a0b_0c0d,
        gas_resistance: 0xf1f2_f3f4,
    };
    assert_eq!(
        &payload.to_be_bytes(),
        &[0x12, 0x34, 0x01, 0x02, 0x03, 0x04, 0x0a, 0x0b, 0x0c, 0x0d, 0xf1, 0xf2, 0xf3, 0xf4]
    );
}

#[test]
fn decode_inverts_encode() {
    let samples = [
        EnvironmentalPayload { temperature: 0, pressure: 0, humidity: 0, gas_resistance: 0 },
        EnvironmentalPayload { temperature: -2, pressure: 0, humidity: 99, gas_resistance: 1 },
        EnvironmentalPayload {
            temperature: i16::MIN,
            pressure: u32::MAX,
            humidity: u32::MAX,
            gas_resistance: u32::MAX,
        },
        EnvironmentalPayload {
            temperature: i16::MAX,
            pressure: 123_456_789,
            humidity: 55_555,
            gas_resistance: 320,
        },
    ];
    for p in samples {
        assert_eq!(EnvironmentalPayload::from_be_bytes(&p.to_be_bytes()), p);
    }
}

#[test]
fn encode_inverts_decode() {
    let blobs: [[u8; 14]; 3] = [
        [0; 14],
        [0xff; 14],
        [0x80, 0x01, 0xde, 0xad, 0xbe, 0xef, 0x00, 0x01, 0x02, 0x03, 0x10, 0x20, 0x30, 0x40],
    ];
    for bytes in blobs {
        assert_eq!(EnvironmentalPayload::from_be_bytes(&bytes).to_be_bytes(), bytes);
    }
}
