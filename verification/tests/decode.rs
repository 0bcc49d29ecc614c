use hibouair::codec::{decode_advertisement, DecodeError};
use hibouair::reading::{HibouAir, HibouAirType};

#[test]
fn test_hibouair_from_hex() {
    let hex_str = "0201061BFF5B07050422005A0000BA27C60017013E0000000000000001C002";
    match HibouAir::from_hex(hex_str) {
        Ok(hibouair) => {
            assert_eq!(hibouair.get_mfid(), 0x075B, "Checking MFID value");
            assert_eq!(hibouair.get_beacon_nr(), 0x05, "Checking beacon number");
            assert_eq!(
                hibouair.get_board_type(),
                HibouAirType::Co2Sensor,
                "Checking board type"
            );
            assert_eq!(hibouair.get_id(), 0x22005A, "Checking board ID value");
            assert_eq!(hibouair.get_als(), 0x0000);
            assert_eq!(
                hibouair.get_bar_tenths() as f64 / 10.0,
                1017.0,
                "Checking pressure value"
            );
            assert_eq!(
                hibouair.get_temp_tenths() as f64 / 10.0,
                19.8,
                "Checking temperature value"
            );
            assert_eq!(
                hibouair.get_hum_tenths() as f64 / 10.0,
                27.9,
                "Checking humidity value"
            );
            assert_eq!(
                hibouair.get_voc_hundredths() as f64 / 100.0,
                0.62,
                "Checking VOC value"
            );
            assert_eq!(
                hibouair.get_pm1_0_tenths() as f64 / 10.0,
                0.0,
                "Checking PM1.0 value"
            );
            assert_eq!(
                hibouair.get_pm2_5_tenths() as f64 / 10.0,
                0.0,
                "Checking PM2.5 value"
            );
            assert_eq!(
                hibouair.get_pm10_tenths() as f64 / 10.0,
                0.0,
                "Checking PM10 value"
            );
            assert_eq!(hibouair.get_co2(), 448, "Checking CO2 value");
            assert_eq!(hibouair.get_voc_type(), 2, "Checking VOC type");
        }
        Err(_) => panic!("Unexpected error parsing HibouAir from hex"),
    }
}

#[test]
fn test_hibouair_from_ble() {
    let data: [u8; 26] = [
        0x5B, 0x07, 0x05, 0x04, 0x22, 0x00, 0x5A, 0x00, 0x00, 0xBA, 0x27, 0xC6, 0x00, 0x17, 0x01,
        0x3E, 0x00, 0x00, 0x00, 0x00, 0x00, 0x00, 0x00, 0x01, 0xC0, 0x02,
    ];
    let reading = HibouAir::from_ble(&data).unwrap();
    assert_eq!(reading.get_mfid(), 0x075B);
    assert_eq!(reading.get_id(), 0x22005A);
    assert_eq!(reading.get_co2(), 448);
    assert_eq!(HibouAir::from_ble(&data[..25]), Err(DecodeError::TooShort));
    assert_eq!(decode_advertisement(&data), Err(DecodeError::NotFound));
}
