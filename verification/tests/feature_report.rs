use glorious_model_o::feature_report::{
    EffectBrightness, EffectSpeed, FeatureReport, LiftOffDistance, LightingDirection,
    LightingEffect, PollingRate, RGBColor,
};

fn color(red: u8, green: u8, blue: u8) -> RGBColor {
    RGBColor { red, green, blue }
}

#[test]
fn color_round_trip() {
    let samples = [
        color(0x00, 0x00, 0x00),
        color(0xFF, 0xFF, 0xFF),
        color(0x22, 0x23, 0x24),
        color(0x01, 0x80, 0xFE),
    ];
    for c in samples {
        let bytes = c.to_rbg_buffer();
        // Storage order is red, blue, green: a permutation, not identity.
        assert_eq!(bytes, [c.red, c.blue, c.green]);
        assert_eq!(RGBColor::from_rbg_buffer(&bytes), c);
    }
}

#[test]
fn color_short_buffer_defaults_to_zero() {
    assert_eq!(RGBColor::from_rbg_buffer(&[]), color(0, 0, 0));
    assert_eq!(RGBColor::from_rbg_buffer(&[7]), color(7, 0, 0));
    assert_eq!(RGBColor::from_rbg_buffer(&[7, 9]), color(7, 0, 9));
}

#[test]
fn masking_defaults() {
    assert_eq!(EffectSpeed::from_u8(0x00), EffectSpeed::High);
    assert_eq!(EffectSpeed::from_u8(0x07), EffectSpeed::High);
    assert_eq!(EffectSpeed::from_u8(0x01), EffectSpeed::Low);
    assert_eq!(EffectSpeed::from_u8(0xF2), EffectSpeed::Medium);
    assert_eq!(EffectBrightness::from_u8(0x00), EffectBrightness::Highest);
    assert_eq!(EffectBrightness::from_u8(0x50), EffectBrightness::Highest);
    assert_eq!(EffectBrightness::from_u8(0x10), EffectBrightness::Low);
    assert_eq!(EffectBrightness::from_u8(0x2F), EffectBrightness::Medium);
    assert_eq!(EffectBrightness::from_u8(0x30), EffectBrightness::High);
    assert_eq!(EffectBrightness::from_u8(0x40), EffectBrightness::Highest);
}

fn effect_variants() -> Vec<LightingEffect> {
    vec![
        LightingEffect::Unknown,
        LightingEffect::Off,
        LightingEffect::GloriousMode {
            speed: EffectSpeed::Low,
            direction: LightingDirection::Up,
        },
        LightingEffect::GloriousMode {
            speed: EffectSpeed::High,
            direction: LightingDirection::Down,
        },
        LightingEffect::Breathing {
            speed: EffectSpeed::Medium,
            colors: [
                color(1, 2, 3),
                color(4, 5, 6),
                color(7, 8, 9),
                color(10, 11, 12),
                color(13, 14, 15),
                color(16, 17, 18),
                color(0xFF, 0x00, 0x7F),
            ],
        },
        LightingEffect::SeamlessBreathingRGB { speed: EffectSpeed::Low },
        LightingEffect::SingleColor {
            color: color(0x22, 0x23, 0x24),
            brightness: EffectBrightness::High,
        },
        LightingEffect::BreathingSingleColor {
            color: color(0xAA, 0xBB, 0xCC),
            speed: EffectSpeed::High,
        },
        LightingEffect::Tail {
            brightness: EffectBrightness::Low,
            speed: EffectSpeed::High,
        },
        LightingEffect::Rave {
            colors: [color(9, 8, 7), color(6, 5, 4)],
            speed: EffectSpeed::Medium,
            brightness: EffectBrightness::Medium,
        },
        LightingEffect::Wave {
            speed: EffectSpeed::Low,
            brightness: EffectBrightness::Highest,
        },
    ]
}

#[test]
fn effect_round_trip_every_variant() {
    for effect in effect_variants() {
        let mut window = vec![0x5Au8; 78];
        assert!(effect.set_in_buffer(&mut window));
        let decoded = LightingEffect::from_buffer(&window);
        // Unknown is written back with tag 0x00, so it reads back as Off;
        // every other variant round-trips field for field.
        let expected = match effect {
            LightingEffect::Unknown => LightingEffect::Off,
            other => other,
        };
        assert_eq!(decoded, expected);
    }
}

#[test]
fn short_window_decodes_to_unknown() {
    assert_eq!(LightingEffect::from_buffer(&[0x02; 77]), LightingEffect::Unknown);
    assert_eq!(LightingEffect::from_buffer(&[]), LightingEffect::Unknown);
}

#[test]
fn short_window_encode_fails_without_mutation() {
    let mut window = vec![0x11u8; 77];
    let untouched = window.clone();
    let ok = LightingEffect::Off.set_in_buffer(&mut window);
    assert!(!ok);
    assert_eq!(window, untouched);
}

#[test]
fn sentinel_set_iff_off() {
    for effect in effect_variants() {
        let mut window = vec![0xEEu8; 78];
        assert!(effect.set_in_buffer(&mut window));
        if matches!(effect, LightingEffect::Off) {
            assert_eq!(window[77], 0x03);
        } else {
            assert_eq!(window[77], 0x00);
        }
    }
}

#[test]
fn glorious_mode_forces_highest_brightness() {
    let effect = LightingEffect::GloriousMode {
        speed: EffectSpeed::Medium,
        direction: LightingDirection::Up,
    };
    let mut window = vec![0u8; 78];
    assert!(effect.set_in_buffer(&mut window));
    assert_eq!(window[0], 0x01);
    assert_eq!(window[1], 0x42);
    assert_eq!(window[1] & 0x70, 0x40);
    assert_eq!(EffectBrightness::from_u8(window[1]), EffectBrightness::Highest);
    assert_eq!(window[2], 0x01);
    assert_eq!(LightingEffect::from_buffer(&window), effect);
}

#[test]
fn unused_window_bytes_stay_untouched() {
    let mut window = vec![0x77u8; 78];
    let effect = LightingEffect::Wave {
        speed: EffectSpeed::High,
        brightness: EffectBrightness::Low,
    };
    assert!(effect.set_in_buffer(&mut window));
    assert_eq!(window[0], 0x09);
    assert_eq!(window[71], 0x13);
    assert_eq!(window[77], 0x00);
    for i in 1..71 {
        assert_eq!(window[i], 0x77);
    }
    for i in 72..77 {
        assert_eq!(window[i], 0x77);
    }
}

#[test]
fn color_strip_decoding() {
    // 21 bytes: seven full red-blue-green chunks.
    let strip: Vec<u8> = (0..21).collect();
    let colors = LightingEffect::rgbcolor_buffer_to_sized_array::<7>(&strip);
    for i in 0..7u8 {
        assert_eq!(colors[i as usize], color(3 * i, 3 * i + 2, 3 * i + 1));
    }
    // An incomplete trailing chunk stays black, extra bytes are ignored.
    let short = [1u8, 2, 3, 4, 5];
    let colors = LightingEffect::rgbcolor_buffer_to_sized_array::<2>(&short);
    assert_eq!(colors[0], color(1, 3, 2));
    assert_eq!(colors[1], color(0, 0, 0));
    let long = [1u8, 2, 3, 4, 5, 6, 7];
    let colors = LightingEffect::rgbcolor_buffer_to_sized_array::<1>(&long);
    assert_eq!(colors[0], color(1, 3, 2));
}

#[test]
fn color_strip_encoding() {
    let colors = [color(1, 2, 3), color(4, 5, 6)];
    let bytes = LightingEffect::rgbcolor_sized_array_to_rbg_buffer(&colors);
    assert_eq!(bytes, vec![1, 3, 2, 4, 6, 5]);
    let none: [RGBColor; 0] = [];
    assert_eq!(LightingEffect::rgbcolor_sized_array_to_rbg_buffer(&none), Vec::<u8>::new());
}

#[test]
fn lift_off_distance_codec() {
    assert_eq!(LiftOffDistance::new_2mm(), LiftOffDistance::Low);
    assert_eq!(LiftOffDistance::new_3mm(), LiftOffDistance::High);
    let mut buffer = vec![0u8; 131];
    buffer[129] = 0x02;
    assert_eq!(LiftOffDistance::from_buffer(&buffer), LiftOffDistance::High);
    buffer[129] = 0x01;
    assert_eq!(LiftOffDistance::from_buffer(&buffer), LiftOffDistance::Low);
    buffer[129] = 0x7F;
    assert_eq!(LiftOffDistance::from_buffer(&buffer), LiftOffDistance::Low);
    LiftOffDistance::new_3mm().set_in_buffer(&mut buffer);
    assert_eq!(buffer[129], 0x02);
}

#[test]
fn polling_rate_codec() {
    assert_eq!(PollingRate::new_125_hz(), PollingRate::Low);
    assert_eq!(PollingRate::new_250_hz(), PollingRate::Medium);
    assert_eq!(PollingRate::new_500_hz(), PollingRate::High);
    assert_eq!(PollingRate::new_1000_hz(), PollingRate::Highest);
    let mut buffer = vec![0u8; 131];
    assert_eq!(PollingRate::from_buffer(&buffer), PollingRate::Low);
    buffer[10] = 0x02;
    assert_eq!(PollingRate::from_buffer(&buffer), PollingRate::Medium);
    buffer[10] = 0x03;
    assert_eq!(PollingRate::from_buffer(&buffer), PollingRate::High);
    buffer[10] = 0x04;
    assert_eq!(PollingRate::from_buffer(&buffer), PollingRate::Highest);
    buffer[10] = 0x09;
    assert_eq!(PollingRate::from_buffer(&buffer), PollingRate::Low);
    PollingRate::new_1000_hz().set_in_buffer(&mut buffer);
    assert_eq!(buffer[10], 0x04);
}

#[test]
fn report_rejects_short_buffer() {
    assert!(FeatureReport::from_buffer(&[0u8; 130]).is_none());
    assert!(FeatureReport::from_buffer(&[]).is_none());
    assert!(FeatureReport::from_buffer(&[0u8; 131]).is_some());
}

#[test]
fn report_padding() {
    let mut input = vec![0u8; 131];
    for (i, b) in input.iter_mut().enumerate() {
        *b = (i % 251) as u8;
    }
    let report = FeatureReport::from_buffer(&input).unwrap();
    let out = report.to_buffer();
    assert_eq!(out.len(), 520);
    assert_eq!(&out[..131], &input[..]);
    for i in 131..520 {
        assert_eq!(out[i], 0x00);
    }
}

#[test]
fn report_setters_update_buffer_and_cache() {
    let report_input = vec![0u8; 131];
    let mut report = FeatureReport::from_buffer(&report_input).unwrap();
    assert_eq!(report.lighting_effect(), LightingEffect::Off);
    assert_eq!(report.lift_off_distance(), LiftOffDistance::Low);
    assert_eq!(report.polling_rate(), PollingRate::Low);

    let wave = LightingEffect::Wave {
        speed: EffectSpeed::Medium,
        brightness: EffectBrightness::High,
    };
    report.set_lighting_effect(wave);
    report.set_lift_off_distance(LiftOffDistance::new_3mm());
    report.set_polling_rate(PollingRate::new_500_hz());

    assert_eq!(report.lighting_effect(), wave);
    assert_eq!(report.lift_off_distance(), LiftOffDistance::High);
    assert_eq!(report.polling_rate(), PollingRate::High);

    let out = report.to_buffer();
    assert_eq!(out[53], 0x09);
    assert_eq!(out[53 + 71], 0x32);
    assert_eq!(out[53 + 77], 0x00);
    assert_eq!(out[129], 0x02);
    assert_eq!(out[10], 0x03);
}

#[test]
fn end_to_end_scenario() {
    let mut buffer = vec![0u8; 131];
    buffer[0] = 0x04; // report id, carried through but not interpreted
    buffer[10] = 0x03; // 500 Hz
    buffer[53] = 0x02; // SingleColor tag
    // Window offsets 4..6 (absolute 57..59): red, blue, green.
    buffer[57] = 0x22;
    buffer[58] = 0x24;
    buffer[59] = 0x23;
    let report = FeatureReport::from_buffer(&buffer).unwrap();
    assert_eq!(report.polling_rate(), PollingRate::High);
    // The brightness byte (window offset 3) is zero, so brightness masks
    // to the Highest default.
    assert_eq!(
        report.lighting_effect(),
        LightingEffect::SingleColor {
            color: color(0x22, 0x23, 0x24),
            brightness: EffectBrightness::Highest,
        }
    );
    let out = report.to_buffer();
    assert_eq!(out[0], 0x04);
    assert_eq!(&out[..131], &buffer[..]);
}
