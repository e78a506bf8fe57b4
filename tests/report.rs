use usb_weather::report::{decode_report, temperature_tenths, wind_speed_hundredths, DecodeError, Report};

fn buffer(b3: u8, b4: u8, b5: u8, b6: u8, b7: u8) -> Vec<u8> {
    vec![0, 0, 0, b3, b4, b5, b6, b7]
}

#[test]
fn wind_rain_report_decodes() {
    let r = decode_report(&buffer(0x01, 0x1F, 0x70, 0x00, 0x7F)).unwrap().unwrap();
    assert_eq!(r, Report::WindRain { wind_speed: 248, wind_dir: 0, rain_count: 127 });
    assert_eq!(wind_speed_hundredths(r.wind_speed()), 15376);
    assert!((r.wind_speed() as f32 * 0.62 - 153.76).abs() < 1e-3);
}

#[test]
fn wind_climate_report_decodes() {
    let r = decode_report(&buffer(0x08, 0x1F, 0x70, 0x7F, 0x64)).unwrap().unwrap();
    assert_eq!(r, Report::WindClimate { wind_speed: 248, temperature: 127, humidity: 100 });
    assert_eq!(wind_speed_hundredths(248), 15376);
    assert_eq!(temperature_tenths(127), -273);
    assert!(((127u8 as f32 - 400.00) / 10.0 - (-27.3)).abs() < 1e-4);
}

#[test]
fn discriminant_uses_low_nibble_only() {
    let r = decode_report(&buffer(0xF1, 0x00, 0x0B, 0x00, 0xFF)).unwrap().unwrap();
    assert_eq!(r, Report::WindRain { wind_speed: 0, wind_dir: 11, rain_count: 127 });
    let r = decode_report(&buffer(0x28, 0xFF, 0xFF, 0xFF, 0xFF)).unwrap().unwrap();
    assert_eq!(r, Report::WindClimate { wind_speed: 248, temperature: 127, humidity: 127 });
}

#[test]
fn other_discriminants_give_no_report() {
    for d in 0u8..16 {
        if d == 1 || d == 8 {
            continue;
        }
        assert_eq!(decode_report(&buffer(d, 0x1F, 0x70, 0x7F, 0x64)), Ok(None));
        assert_eq!(decode_report(&buffer(0xA0 | d, 0xFF, 0xFF, 0xFF, 0xFF)), Ok(None));
    }
}

#[test]
fn short_buffer_is_a_decode_failure() {
    for len in 0..8usize {
        let b = vec![0x01u8; len];
        assert_eq!(decode_report(&b), Err(DecodeError::TooShort));
    }
    let mut long = buffer(0x01, 0x02, 0x03, 0x00, 0x05);
    long.extend_from_slice(&[9u8; 248]);
    assert_eq!(
        decode_report(&long),
        Ok(Some(Report::WindRain { wind_speed: 16, wind_dir: 3, rain_count: 5 }))
    );
}

#[test]
fn scaling_of_extremes() {
    assert_eq!(wind_speed_hundredths(0), 0);
    assert_eq!(wind_speed_hundredths(255), 15810);
    assert_eq!(temperature_tenths(0), -400);
    assert_eq!(temperature_tenths(255), -145);
    assert_eq!(temperature_tenths(127), -273);
}
