use dx7syx::{
    cartridge_message, make_brass1, make_init_cartridge, make_init_voice, make_message,
    make_random_cartridge, make_random_voice, pack_curves, parse_message, put,
    transpose_from_byte, transpose_to_byte, unpack_curves, voice_checksum, voice_message,
    Cartridge, CodecError, Coarse, Detune, Envelope, Format, KeyboardLevelScaling, Level, Levels,
    Lfo, LfoWaveform, Operator, OperatorMode, RandomValue, RangeKind, RangedValue, Rate, Rates,
    ScalingCurve, SystemExclusiveData, UnsignedLevel, Voice, CARTRIDGE_SIZE, VOICE_PACKED_SIZE,
};

fn brass1_op6() -> Operator {
    Operator {
        eg: Envelope {
            rate1: Rate::from(49),
            rate2: Rate::from(99),
            rate3: Rate::from(28),
            rate4: Rate::from(68),
            level1: Level::from(98),
            level2: Level::from(98),
            level3: Level::from(91),
            level4: Level::from(0),
        },
        kbd_level_scaling: KeyboardLevelScaling {
            breakpoint: 39,
            left_depth: 54,
            right_depth: 50,
            left_curve: ScalingCurve::exp_neg(),
            right_curve: ScalingCurve::exp_neg(),
        },
        kbd_rate_scaling: 4,
        amp_mod_sens: 0,
        key_vel_sens: 2,
        output_level: Level::from(82),
        mode: OperatorMode::Ratio,
        coarse: Coarse::from(1),
        fine: Level::from(0),
        detune: Detune::from(0),
    }
}

fn assert_same_voice(a: &Voice, b: &Voice) {
    assert_eq!(a.op1, b.op1);
    assert_eq!(a.op2, b.op2);
    assert_eq!(a.op3, b.op3);
    assert_eq!(a.op4, b.op4);
    assert_eq!(a.op5, b.op5);
    assert_eq!(a.op6, b.op6);
    assert_eq!(a.peg, b.peg);
    assert_eq!(a.alg, b.alg);
    assert_eq!(a.feedback, b.feedback);
    assert_eq!(a.osc_sync, b.osc_sync);
    assert_eq!(a.lfo, b.lfo);
    assert_eq!(a.transpose, b.transpose);
    assert_eq!(a.name, b.name);
}

#[test]
fn test_eg_to_bytes() {
    let eg = Envelope {
        rate1: Rate::from(64),
        rate2: Rate::from(64),
        rate3: Rate::from(64),
        rate4: Rate::from(64),
        level1: Level::from(32),
        level2: Level::from(32),
        level3: Level::from(32),
        level4: Level::from(32),
    };
    assert_eq!(eg.to_bytes(), vec![64u8, 64, 64, 64, 32, 32, 32, 32]);
}

#[test]
fn test_scaling_curve_exp_pos_to_bytes() {
    assert_eq!(ScalingCurve::exp_pos().to_bytes(), 2);
}

#[test]
fn test_scaling_curve_exp_neg_to_bytes() {
    assert_eq!(ScalingCurve::exp_neg().to_bytes(), 1);
}

#[test]
fn test_scaling_curve_lin_pos_to_bytes() {
    assert_eq!(ScalingCurve::lin_pos().to_bytes(), 3);
}

#[test]
fn test_scaling_curve_lin_neg_to_bytes() {
    assert_eq!(ScalingCurve::lin_neg().to_bytes(), 0);
}

#[test]
fn test_kbd_level_scaling_to_packed_bytes() {
    // BRASS 1, operator 6
    let ks = KeyboardLevelScaling {
        breakpoint: 60 - 21,
        left_depth: 54,
        right_depth: 50,
        left_curve: ScalingCurve::exp_neg(),
        right_curve: ScalingCurve::exp_neg(),
    };

    assert_eq!(ks.to_packed_bytes(), vec![39, 54, 50, 5]);
}

#[test]
fn test_op_to_packed_bytes() {
    let op = brass1_op6();
    let data = op.to_packed_bytes();
    assert_eq!(data.len(), 17);

    let expected_data = vec![
        0x31u8, 0x63, 0x1c, 0x44, 0x62, 0x62, 0x5b, 0x00, 0x27, 0x36, 0x32, 0x05, 0x3c, 0x08,
        0x52, 0x02, 0x00,
    ];
    assert_eq!(data, expected_data);
}

#[test]
fn test_lfo_to_packed_bytes() {
    let lfo = Lfo {
        speed: Level::from(37),
        delay: Level::from(0),
        pmd: Level::from(5),
        amd: Level::from(0),
        sync: false,
        wave: LfoWaveform::Sine,
        pitch_mod_sens: RangedValue::from_int(RangeKind::PitchModulationSensitivity, 3),
    };

    // sync in bit 0, the waveform (4) in bits 1-3, the sensitivity (3) in bits 4-6
    assert_eq!(lfo.to_packed_bytes(), vec![37, 0, 5, 0, 0b0011_1000]);
}

#[test]
fn test_voice_packed_length() {
    let brass1 = make_brass1();
    assert_eq!(brass1.to_packed_bytes().len(), 128);
}

#[test]
fn test_bulk_b111() {
    let sync = true;
    let feedback = 7u8;
    let expected = 0x0fu8;
    let actual = put(feedback, if sync { 1 } else { 0 }, 3);
    assert_eq!(actual, expected);
}

#[test]
fn test_ranged_value_from_byte() {
    let level = RangedValue::from_byte(RangeKind::OutputLevel, 16u8);
    assert_eq!(level.get(), 16);
}

#[test]
fn test_ranged_value_from_int() {
    let level = RangedValue::from_int(RangeKind::OutputLevel, 16);
    assert_eq!(level.get(), 16);
}

#[test]
fn test_ranged_value_from_int_clamped() {
    let level = RangedValue::from_int(RangeKind::OutputLevel, 100);
    assert_eq!(level.get(), 99);
}

#[test]
fn test_ranged_value_as_byte() {
    let level = RangedValue::from_int(RangeKind::OutputLevel, 16);
    assert_eq!(level.as_byte(), 16u8);
}

#[test]
fn test_ranged_value_set() {
    let mut level = RangedValue::from_int(RangeKind::OutputLevel, 16);
    level.set(17);
    assert_eq!(level.get(), 17);
}

#[test]
fn test_ranged_value_set_clamped() {
    let mut level = RangedValue::from_int(RangeKind::OutputLevel, 16);
    level.set(-100);
    assert_eq!(level.get(), 0);
}

#[test]
fn test_ranged_value_range() {
    let level = RangedValue::from_int(RangeKind::OutputLevel, 16);
    assert_eq!(level.range().start(), &0);
    assert_eq!(level.range().end(), &99);
}

#[test]
fn test_ranged_value_negative_range() {
    let neg_detune = RangedValue::from_int(RangeKind::Detune, -7);
    assert_eq!(neg_detune.as_byte(), 0u8);

    let pos_detune = RangedValue::from_int(RangeKind::Detune, 7);
    assert_eq!(pos_detune.as_byte(), 14u8);
}

#[test]
fn test_ranged_value_min() {
    let value = RangedValue::new_min(RangeKind::OutputLevel);
    assert_eq!(value.get(), 0);
}

#[test]
fn test_ranged_value_max() {
    let value = RangedValue::new_max(RangeKind::OutputLevel);
    assert_eq!(value.get(), 99);
}

#[test]
fn test_unsigned_level() {
    let level = UnsignedLevel::from(42);
    assert_eq!(level, UnsignedLevel::from(42));
}

#[test]
fn test_unsigned_level_clamped() {
    let level = UnsignedLevel::from(192);
    assert_eq!(level, UnsignedLevel::from(99));
}

#[test]
fn test_unsigned_level_default() {
    let level = UnsignedLevel::default();
    assert_eq!(level, UnsignedLevel::from(0));
}

#[test]
fn voice_packed_round_trip() {
    for voice in [make_brass1(), make_init_voice(), Voice::new(), make_random_voice()] {
        let data = voice.to_packed_bytes();
        let decoded = Voice::from_packed_bytes(&data).unwrap();
        assert_same_voice(&decoded, &voice);
        assert_eq!(decoded.to_packed_bytes(), data);
    }
}

#[test]
fn voice_unpacked_round_trip() {
    for voice in [make_brass1(), make_init_voice(), make_random_voice()] {
        let data = voice.to_bytes();
        assert_eq!(data.len(), 155);
        let decoded = Voice::from_bytes(&data).unwrap();
        assert_same_voice(&decoded, &voice);
    }
}

#[test]
fn brass1_name_read_back() {
    let data = make_brass1().to_packed_bytes();
    let decoded = Voice::from_packed_bytes(&data).unwrap();
    assert_eq!(decoded.name, "BRASS   1 ");
    assert_eq!(&data[118..128], b"BRASS   1 ");
    assert_eq!(decoded.to_packed_bytes(), data);
}

#[test]
fn brass1_packed_layout() {
    let data = make_brass1().to_packed_bytes();
    // algorithm 22 is sent zero-based
    assert_eq!(data[110], 21);
    // feedback 7 with oscillator sync
    assert_eq!(data[111], 0x0f);
    // LFO: speed 37, no delay, PMD 5, no AMD, sine, sensitivity 3
    assert_eq!(&data[112..117], &[37u8, 0, 5, 0, 0x38]);
    // no transpose
    assert_eq!(data[117], 24);
    // operator 1 comes last of the six
    assert_eq!(data[85 + 14], 98);
    assert_eq!(data[14], 82);
}

#[test]
fn short_name_is_padded() {
    let mut voice = Voice::new();
    voice.name = String::from("SHORT");
    let data = voice.to_packed_bytes();
    assert_eq!(&data[118..128], b"SHORT     ");
    voice.name = String::from("A NAME THAT IS TOO LONG");
    let data = voice.to_packed_bytes();
    assert_eq!(&data[118..128], b"A NAME THA");
}

#[test]
fn checksum_values() {
    assert_eq!(voice_checksum(&vec![]), 0x80);
    assert_eq!(voice_checksum(&vec![1, 2, 3]), 0x7a);
    assert_eq!(voice_checksum(&vec![0xff, 0x01]), 0x80);
    assert_eq!(voice_checksum(&vec![0x7f]), 0x01);
}

#[test]
fn output_level_clamping() {
    assert_eq!(RangedValue::from_int(RangeKind::OutputLevel, 192).get(), 99);
    assert_eq!(RangedValue::from_int(RangeKind::OutputLevel, -5).get(), 0);
    assert_eq!(RangedValue::from_byte(RangeKind::OutputLevel, 200).get(), 99);
}

#[test]
fn detune_from_byte() {
    assert_eq!(RangedValue::from_byte(RangeKind::Detune, 0).get(), -7);
    assert_eq!(RangedValue::from_byte(RangeKind::Detune, 7).get(), 0);
    assert_eq!(RangedValue::from_byte(RangeKind::Detune, 14).get(), 7);
    assert_eq!(Detune::from_byte(3).value(), -4);
    assert_eq!(Detune::from(-9).value(), -7);
}

#[test]
fn curve_pairs_round_trip() {
    let curves = [
        ScalingCurve::lin_neg(),
        ScalingCurve::exp_neg(),
        ScalingCurve::exp_pos(),
        ScalingCurve::lin_pos(),
    ];
    for left in curves {
        for right in curves {
            assert_eq!(unpack_curves(pack_curves(left, right)), (left, right));
        }
    }
    assert_eq!(pack_curves(ScalingCurve::exp_pos(), ScalingCurve::lin_pos()), 2 | (3 << 2));
}

#[test]
fn cartridge_sizes() {
    let cartridge = Cartridge { voices: make_init_cartridge() };
    let data = cartridge.to_packed_bytes();
    assert_eq!(data.len(), 4096);

    let short = &data[..4095];
    match Cartridge::from_packed_bytes(short) {
        Err(e) => assert_eq!(e, CodecError::Length { expected: CARTRIDGE_SIZE, actual: 4095 }),
        Ok(_) => panic!("a short cartridge was accepted"),
    }
    let decoded = Cartridge::from_packed_bytes(&data).unwrap();
    assert_eq!(decoded.voices.len(), 32);
    for voice in decoded.voices.iter() {
        assert_eq!(voice.name, "INIT VOICE");
    }
}

#[test]
fn cartridge_round_trip_random() {
    let cartridge = Cartridge { voices: make_random_cartridge() };
    let data = cartridge.to_packed_bytes();
    let decoded = Cartridge::from_packed_bytes(&data).unwrap();
    for (a, b) in decoded.voices.iter().zip(cartridge.voices.iter()) {
        assert_same_voice(a, b);
    }
    assert_eq!(decoded.to_packed_bytes(), data);
}

#[test]
fn operator_byte_counts() {
    let op = brass1_op6();
    assert_eq!(op.to_packed_bytes().len(), 17);
    assert_eq!(op.to_bytes().len(), 21);
    let op = Operator::from_packed_bytes(&op.to_packed_bytes());
    assert_eq!(op, brass1_op6());
}

#[test]
fn transpose_scaling() {
    assert_eq!(transpose_from_byte(24), 0);
    assert_eq!(transpose_from_byte(12), -1);
    assert_eq!(transpose_to_byte(1), 36);
    assert_eq!(transpose_from_byte(0), -2);
    assert_eq!(transpose_from_byte(48), 2);
    assert_eq!(transpose_from_byte(127), 2);
}

#[test]
fn voice_length_error() {
    let data = vec![0u8; 100];
    match Voice::from_packed_bytes(&data) {
        Err(e) => assert_eq!(e, CodecError::Length { expected: VOICE_PACKED_SIZE, actual: 100 }),
        Ok(_) => panic!("a short voice was accepted"),
    }
}

#[test]
fn voice_name_error() {
    let mut data = make_brass1().to_packed_bytes();
    data[120] = 0xc3;
    match Voice::from_packed_bytes(&data) {
        Err(e) => assert_eq!(e, CodecError::Name),
        Ok(_) => panic!("a name with a byte that is not ASCII was accepted"),
    }
}

#[test]
fn waveform_out_of_range_is_triangle() {
    let lfo = Lfo::from_packed_bytes(&[1, 2, 3, 4, 0b0010_1101]);
    assert_eq!(lfo.wave, LfoWaveform::Triangle);
    assert!(lfo.sync);
    assert_eq!(lfo.pitch_mod_sens.get(), 2);
    let lfo = Lfo::from_packed_bytes(&[1, 2, 3, 4, 0b0010_1011]);
    assert_eq!(lfo.wave, LfoWaveform::SampleAndHold);
}

#[test]
fn message_round_trip() {
    let cartridge = Cartridge { voices: make_init_cartridge() };
    let bytes = cartridge_message(&cartridge, 0);
    assert_eq!(&bytes[..6], &[0xf0, 0x43, 0x00, 0x09, 0x20, 0x00]);
    assert_eq!(bytes.len(), 4096 + 8);
    assert_eq!(*bytes.last().unwrap(), 0xf7);
    let message = parse_message(&bytes).unwrap();
    assert_eq!(message.format, Format::Cartridge);
    assert_eq!(message.channel, 0);
    assert!(message.checksum_ok());
    assert_eq!(message.data, cartridge.to_packed_bytes());

    let voice = make_brass1();
    let bytes = voice_message(&voice, 3);
    assert_eq!(&bytes[..6], &[0xf0, 0x43, 0x03, 0x00, 0x01, 0x1b]);
    let message = parse_message(&bytes).unwrap();
    assert_eq!(message.format, Format::Voice);
    assert_eq!(message.channel, 3);
    assert_eq!(message.data, voice.to_bytes());
}

#[test]
fn message_errors() {
    let data = vec![0u8; 155];
    let mut bytes = make_message(1, Format::Voice, &data);
    bytes[0] = 0xf1;
    assert!(matches!(parse_message(&bytes), Err(CodecError::Framing)));
    let mut bytes = make_message(1, Format::Voice, &data);
    bytes.pop();
    assert!(matches!(parse_message(&bytes), Err(CodecError::Framing)));
    let mut bytes = make_message(1, Format::Voice, &data);
    let n = bytes.len();
    bytes[n - 2] ^= 0x01;
    let message = parse_message(&bytes).unwrap();
    assert!(!message.checksum_ok());
}

#[test]
fn random_values_in_range() {
    for _ in 0..100 {
        let level = UnsignedLevel::random_value();
        assert!(level.value() <= 99);
        let detune = RangedValue::from_int(RangeKind::Detune, 0);
        let value = detune.random_value();
        assert!((-7..=7).contains(&value));
        let value = detune.random_value_restricted(-2..=2);
        assert!((-2..=2).contains(&value));
        let eg = Envelope::new_random();
        assert!(eg.rate1.value() <= 99 && eg.level4.value() <= 99);
    }
}

#[test]
fn envelope_constructors() {
    let eg = Envelope::adsr(10, 20, 30, 40);
    assert_eq!(eg.to_bytes(), vec![10, 99, 20, 40, 99, 99, 30, 0]);
    let eg = Envelope::new_rate_level(Rates(120, 1, 2, 3), Levels(4, 5, 6, 200));
    assert_eq!(eg.to_bytes(), vec![99, 1, 2, 3, 4, 5, 6, 99]);
    assert_eq!(Envelope::from_bytes(&[1, 2, 3, 4, 5, 6, 7, 100]).level4.value(), 99);
}

#[test]
fn new_voice_defaults() {
    let voice = Voice::new();
    assert_eq!(voice.name, "INIT VOICE");
    assert_eq!(voice.alg.value(), 1);
    assert_eq!(voice.op1, Operator::new());
    let init = make_init_voice();
    assert_eq!(init.op1.output_level.value(), 99);
    assert_eq!(init.op2.output_level.value(), 0);
    assert_eq!(init.lfo.pitch_mod_sens.get(), 3);
    assert_eq!(Lfo::new().speed.value(), 35);
}

#[test]
fn data_sizes() {
    assert_eq!(Envelope::new().data_size(), 8);
    assert_eq!(KeyboardLevelScaling::new().data_size(), 5);
    assert_eq!(Operator::new().data_size(), 21);
    assert_eq!(Lfo::new().data_size(), 7);
    assert_eq!(Voice::new().data_size(), 155);
    assert_eq!(Envelope::new().to_packed_bytes(), Envelope::new().to_bytes());
}
