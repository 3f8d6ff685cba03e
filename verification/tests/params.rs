use synthy::params::{
    clamp_unit, Parameter, Parameters, DEFAULT_FREQ_BITS, DEFAULT_MODULATION_BITS, INFINITY_BITS,
    UNIT_BITS,
};

#[test]
fn constants_are_the_encodings_they_name() {
    assert_eq!(UNIT_BITS, 1.0f32.to_bits());
    assert_eq!(INFINITY_BITS, f32::INFINITY.to_bits());
    assert_eq!(DEFAULT_FREQ_BITS, 0.44f32.to_bits());
    assert_eq!(DEFAULT_MODULATION_BITS, 1.0f32.to_bits());
}

#[test]
fn default_store_holds_initial_values() {
    let store = Parameters::default();
    assert_eq!(f32::from_bits(store.get_parameter(0)), 0.44f32);
    assert_eq!(f32::from_bits(store.get_parameter(1)), 1.0f32);
    assert_eq!(store, Parameters { freq: 0x3EE1_47AE, modulation: 0x3F80_0000 });
}

#[test]
fn write_then_read_returns_the_value() {
    let values = [0.0f32, 0.25, 0.44, 0.5, 0.999_999_9, 1.0, f32::MIN_POSITIVE, 1.0e-40];
    for index in 0..2 {
        for v in values {
            let mut store = Parameters::default();
            store.set_parameter(index, v.to_bits());
            assert_eq!(store.get_parameter(index), v.to_bits());
            assert_eq!(f32::from_bits(store.get_parameter(index)), v);
        }
    }
}

#[test]
fn write_touches_only_the_addressed_parameter() {
    let mut store = Parameters::default();
    store.set_parameter(1, 0.25f32.to_bits());
    assert_eq!(store.freq, DEFAULT_FREQ_BITS);
    assert_eq!(store.modulation, 0.25f32.to_bits());
    store.set_parameter(0, 0.75f32.to_bits());
    assert_eq!(store.freq, 0.75f32.to_bits());
    assert_eq!(store.modulation, 0.25f32.to_bits());
}

#[test]
fn out_of_range_values_are_clamped() {
    assert_eq!(f32::from_bits(clamp_unit(1.5f32.to_bits())), 1.0);
    assert_eq!(f32::from_bits(clamp_unit(1.0e30f32.to_bits())), 1.0);
    assert_eq!(f32::from_bits(clamp_unit(f32::INFINITY.to_bits())), 1.0);
    assert_eq!(clamp_unit((-0.5f32).to_bits()), 0);
    assert_eq!(clamp_unit((-0.0f32).to_bits()), 0);
    assert_eq!(clamp_unit(f32::NEG_INFINITY.to_bits()), 0);
    assert_eq!(clamp_unit(f32::NAN.to_bits()), 0);
    assert_eq!(clamp_unit(0x7F80_0001), 0);
    assert_eq!(clamp_unit(u32::MAX), 0);
    assert_eq!(clamp_unit(UNIT_BITS + 1), UNIT_BITS);
    assert_eq!(clamp_unit(UNIT_BITS), UNIT_BITS);
    assert_eq!(clamp_unit(UNIT_BITS - 1), UNIT_BITS - 1);
    assert_eq!(clamp_unit(0), 0);
}

#[test]
fn clamp_agrees_with_the_numbers() {
    let values = [-3.0f32, -1.0e-10, 0.0, 1.0e-10, 0.3, 0.7, 1.0, 1.000_000_1, 2.0, 1.0e10];
    for v in values {
        let clamped = f32::from_bits(clamp_unit(v.to_bits()));
        assert_eq!(clamped, v.clamp(0.0, 1.0));
    }
}

#[test]
fn set_clamps_what_it_stores() {
    let mut store = Parameters::default();
    store.set_parameter(1, 7.0f32.to_bits());
    assert_eq!(f32::from_bits(store.get_parameter(1)), 1.0);
    store.set_parameter(0, (-7.0f32).to_bits());
    assert_eq!(f32::from_bits(store.get_parameter(0)), 0.0);
}

#[test]
fn unknown_index_is_a_no_op() {
    for index in [-1, 2, 3, 100, i32::MAX, i32::MIN] {
        let mut store = Parameters::default();
        store.set_parameter(index, 0.5f32.to_bits());
        assert_eq!(store, Parameters::default());
        assert_eq!(store.get_parameter(index), 0);
        assert_eq!(store.get_parameter_name(index), "unknown");
    }
}

#[test]
fn names_by_index() {
    let store = Parameters::default();
    assert_eq!(store.get_parameter_name(0), "frequency");
    assert_eq!(store.get_parameter_name(1), "modulation");
    assert_eq!(Parameter::Freq.to_string(), "frequency");
    assert_eq!(Parameter::Modulation.to_string(), "modulation");
}

#[test]
fn parameter_index_round_trip() {
    assert_eq!(Parameter::Freq.index(), 0);
    assert_eq!(Parameter::Modulation.index(), 1);
    assert_eq!(Parameter::from_i32(0), Some(Parameter::Freq));
    assert_eq!(Parameter::from_i32(1), Some(Parameter::Modulation));
    assert_eq!(Parameter::from_i32(2), None);
    assert_eq!(Parameter::from_i32(-1), None);
}
