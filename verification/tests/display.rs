use hibouair::reading::{HibouAir, HibouAirType, VocType};

fn reading_with(board_type: u8, id: [u8; 3], voc: u16, voc_type: u8) -> HibouAir {
    let mut data: [u8; 26] = [
        0x5B, 0x07, 0x05, 0x04, 0x22, 0x00, 0x5A, 0x00, 0x00, 0xBA, 0x27, 0xC6, 0x00, 0x17, 0x01,
        0x3E, 0x00, 0x00, 0x00, 0x00, 0x00, 0x00, 0x00, 0x01, 0xC0, 0x02,
    ];
    data[3] = board_type;
    data[4] = id[0];
    data[5] = id[1];
    data[6] = id[2];
    data[15] = (voc & 0xFF) as u8;
    data[16] = (voc >> 8) as u8;
    data[25] = voc_type;
    HibouAir::from_ble(&data).unwrap()
}

#[test]
fn board_id_string_has_six_upper_hex_digits() {
    let ids: [[u8; 3]; 6] = [
        [0x00, 0x00, 0x00],
        [0x22, 0x00, 0x5A],
        [0xFF, 0xFF, 0xFF],
        [0x00, 0x00, 0x0A],
        [0xAB, 0xCD, 0xEF],
        [0x10, 0x00, 0x00],
    ];
    for id in ids {
        let reading = reading_with(4, id, 0, 0);
        let text = reading.get_board_id_string();
        assert_eq!(text, format!("{:06X}", reading.get_id()));
        assert_eq!(text.len(), 6);
        assert!(text.chars().all(|c| c.is_ascii_digit() || ('A'..='F').contains(&c)));
    }
    assert_eq!(reading_with(4, [0x22, 0x00, 0x5A], 0, 0).get_board_id_string(), "22005A");
}

#[test]
fn board_id_string_matches_for_every_low_and_high_byte() {
    for hi in 0..=255u8 {
        for lo in 0..=255u8 {
            let reading = reading_with(4, [hi, 0x5A, lo], 0, 0);
            assert_eq!(
                reading.get_board_id_string(),
                format!("{:06X}", reading.get_id())
            );
        }
    }
}

#[test]
fn board_type_strings() {
    let expected: [(u8, HibouAirType, &str); 14] = [
        (0x00, HibouAirType::Unknown, "Unknown"),
        (0x01, HibouAirType::Unknown, "Unknown"),
        (0x02, HibouAirType::TempHumSensor, "Temp/Hum"),
        (0x03, HibouAirType::PmSensor, "PM"),
        (0x04, HibouAirType::Co2Sensor, "CO2"),
        (0x05, HibouAirType::No2OutdoorWifi, "NO2 Outdoor WiFi"),
        (0x06, HibouAirType::Co2Battery, "CO2 Battery"),
        (0x07, HibouAirType::No2OutdoorLtemNbiot, "NO2 Outdoor LTEM NBIOT"),
        (0x08, HibouAirType::PirSensor, "PIR"),
        (0x09, HibouAirType::Co2Noise, "CO2 Noise"),
        (0x0A, HibouAirType::DuoMaster, "Duo Master"),
        (0x0B, HibouAirType::DuoSlave, "Duo Slave"),
        (0x14, HibouAirType::Matrix, "Matrix"),
        (0xFF, HibouAirType::Unknown, "Unknown"),
    ];
    for (code, kind, name) in expected {
        let reading = reading_with(code, [0, 0, 1], 0, 0);
        assert_eq!(reading.get_board_type(), kind);
        assert_eq!(reading.get_board_type_string(), name);
    }
}

#[test]
fn board_type_codes_convert_both_ways() {
    for code in 0..=255u8 {
        match HibouAirType::try_from(code as i64) {
            Ok(kind) => assert_eq!(kind.code(), code),
            Err(message) => assert_eq!(message, "Unkown sensor type"),
        }
    }
    assert!(HibouAirType::try_from(0x0C).is_err());
    assert!(HibouAirType::try_from(-1).is_err());
    assert!(HibouAirType::try_from(0x114).is_err());
    assert_eq!(HibouAirType::try_from(0x14), Ok(HibouAirType::Matrix));
}

#[test]
fn voc_type_codes_convert_both_ways() {
    assert_eq!(VocType::from_code(0), Some(VocType::Old));
    assert_eq!(VocType::from_code(1), Some(VocType::Resistance));
    assert_eq!(VocType::from_code(2), Some(VocType::Ppm));
    assert_eq!(VocType::from_code(3), Some(VocType::Iaq));
    assert_eq!(VocType::from_code(4), None);
    assert_eq!(VocType::Iaq.code(), 3);
    assert_eq!(VocType::Old.code(), 0);
}

#[test]
fn voc_unit_by_kind() {
    assert_eq!(reading_with(4, [0, 0, 1], 62, 0).get_voc_unit(), "");
    assert_eq!(reading_with(4, [0, 0, 1], 62, 1).get_voc_unit(), "");
    assert_eq!(reading_with(4, [0, 0, 1], 62, 2).get_voc_unit(), "ppm");
    assert_eq!(reading_with(4, [0, 0, 1], 62, 3).get_voc_unit(), "IAQ");
    assert_eq!(reading_with(4, [0, 0, 1], 62, 4).get_voc_unit(), "");
}

#[test]
fn voc_view_examples() {
    assert_eq!(reading_with(4, [0, 0, 1], 62, 2).get_voc_view(), "0.6 ppm");
    assert_eq!(reading_with(4, [0, 0, 1], 0, 2).get_voc_view(), "0.0 ppm");
    assert_eq!(reading_with(4, [0, 0, 1], 25, 2).get_voc_view(), "0.2 ppm");
    assert_eq!(reading_with(4, [0, 0, 1], 75, 2).get_voc_view(), "0.8 ppm");
    assert_eq!(reading_with(4, [0, 0, 1], 65535, 2).get_voc_view(), "655.4 ppm");
    assert_eq!(reading_with(4, [0, 0, 1], 50, 3).get_voc_view(), "50.0 IAQ");
    assert_eq!(reading_with(4, [0, 0, 1], 0, 3).get_voc_view(), "0.0 IAQ");
    assert_eq!(reading_with(4, [0, 0, 1], 62, 0).get_voc_view(), "");
    assert_eq!(reading_with(4, [0, 0, 1], 62, 1).get_voc_view(), "");
    assert_eq!(reading_with(4, [0, 0, 1], 62, 9).get_voc_view(), "");
}

#[test]
fn voc_view_agrees_with_floating_point_for_every_value() {
    for voc in 0..=u16::MAX {
        let ppm = reading_with(4, [0, 0, 1], voc, 2);
        assert_eq!(
            ppm.get_voc_view(),
            format!("{:.1} {}", voc as f64 / 100.0, "ppm"),
            "voc {}",
            voc
        );
        let iaq = reading_with(4, [0, 0, 1], voc, 3);
        assert_eq!(
            iaq.get_voc_view(),
            format!("{:.1} {}", voc as f64, "IAQ"),
            "voc {}",
            voc
        );
    }
}

#[test]
fn voc_hundredths_by_kind() {
    assert_eq!(reading_with(4, [0, 0, 1], 62, 2).get_voc_hundredths(), 62);
    assert_eq!(reading_with(4, [0, 0, 1], 62, 3).get_voc_hundredths(), 6200);
    assert_eq!(reading_with(4, [0, 0, 1], 65535, 0).get_voc_hundredths(), 6553500);
    for voc in [0u16, 1, 62, 999, 65535] {
        for kind in 0..=4u8 {
            let reading = reading_with(4, [0, 0, 1], voc, kind);
            let mut expected: f64 = voc as f64;
            if kind == 2 {
                expected = expected / 100.0;
            }
            assert_eq!(reading.get_voc_hundredths() as f64 / 100.0, expected);
        }
    }
}

#[test]
fn to_string_names_every_field() {
    let reading = reading_with(4, [0x22, 0x00, 0x5A], 62, 2);
    assert_eq!(
        reading.to_string(),
        "HibouAir(mfid: 1883, beacon_nr: 5, board_type: 4, board_id: [22, 00, 5A], als: 0, \
         bar: 10170, temp: 198, hum: 279, voc: 62, pm1_0: 0, pm2_5: 0, pm10: 0, co2: 49153, \
         voc_type: 2)"
    );
    let id: [u8; 3] = [0x22, 0x00, 0x5A];
    assert_eq!(
        reading.to_string(),
        format!(
            "HibouAir(mfid: {}, beacon_nr: {}, board_type: {}, board_id: {:02X?}, als: {}, bar: {}, temp: {}, hum: {}, voc: {}, pm1_0: {}, pm2_5: {}, pm10: {}, co2: {}, voc_type: {})",
            0x075B, 5, 4, id, 0, 10170, 198, 279, 62, 0, 0, 0, 0xC001u16, 2
        )
    );
}

#[test]
fn to_string_shows_large_and_small_fields() {
    let data: [u8; 26] = [0xFF; 26];
    let reading = HibouAir::from_ble(&data).unwrap();
    let id: [u8; 3] = [0xFF, 0xFF, 0xFF];
    assert_eq!(
        reading.to_string(),
        format!(
            "HibouAir(mfid: {}, beacon_nr: {}, board_type: {}, board_id: {:02X?}, als: {}, bar: {}, temp: {}, hum: {}, voc: {}, pm1_0: {}, pm2_5: {}, pm10: {}, co2: {}, voc_type: {})",
            65535, 255, 255, id, 65535, 65535, 65535, 65535, 65535, 65535, 65535, 65535, 65535, 255
        )
    );
    let zero: [u8; 26] = [0; 26];
    let id0: [u8; 3] = [0, 0, 0x0A];
    let mut low = zero;
    low[6] = 0x0A;
    assert_eq!(
        HibouAir::from_ble(&low).unwrap().to_string(),
        format!(
            "HibouAir(mfid: {}, beacon_nr: {}, board_type: {}, board_id: {:02X?}, als: {}, bar: {}, temp: {}, hum: {}, voc: {}, pm1_0: {}, pm2_5: {}, pm10: {}, co2: {}, voc_type: {})",
            0, 0, 0, id0, 0, 0, 0, 0, 0, 0, 0, 0, 0, 0
        )
    );
}
