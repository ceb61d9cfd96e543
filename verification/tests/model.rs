use audiocloud::model::{
    get_audio_input_channel_count, get_audio_output_channel_count, get_values_type, toggle_off,
    toggle_value, ControlChannels, ModelElementScope, ModelInput, ModelOutput, ModelValueType,
    ModelValueUnit, SimpleModelValueType, Stereo, ToggleOr, ValueTypeError,
};

fn num(integer: bool, signed: bool) -> SimpleModelValueType {
    SimpleModelValueType::Number { integer, signed }
}

#[test]
fn widen_numbers() {
    assert_eq!(num(true, false).try_widen(num(false, false)), Ok(num(false, false)));
    assert_eq!(num(true, false).try_widen(num(true, true)), Ok(num(true, true)));
    assert_eq!(num(true, true).try_widen(num(true, true)), Ok(num(true, true)));
}

#[test]
fn widen_non_numbers_fails() {
    assert_eq!(
        SimpleModelValueType::String.try_widen(num(true, false)),
        Err(ValueTypeError::NotNumeric)
    );
    assert_eq!(
        num(true, false).try_widen(SimpleModelValueType::Bool),
        Err(ValueTypeError::NotNumeric)
    );
}

#[test]
fn values_type_empty_is_error() {
    assert_eq!(get_values_type(&vec![]), Err(ValueTypeError::NoTypes));
}

#[test]
fn values_type_numbers_are_widened() {
    let types = vec![num(true, false), num(false, false), num(true, true)];
    assert_eq!(get_values_type(&types), Ok(ModelValueType::Single(num(false, true))));
}

#[test]
fn values_type_number_and_other() {
    let types = vec![num(true, false), SimpleModelValueType::Bool, SimpleModelValueType::Bool];
    assert_eq!(
        get_values_type(&types),
        Ok(ModelValueType::Either(num(true, false), SimpleModelValueType::Bool))
    );
    let types = vec![SimpleModelValueType::String, num(true, true)];
    assert_eq!(
        get_values_type(&types),
        Ok(ModelValueType::Either(num(true, true), SimpleModelValueType::String))
    );
}

#[test]
fn values_type_without_numbers() {
    assert_eq!(
        get_values_type(&vec![SimpleModelValueType::String]),
        Ok(ModelValueType::Single(SimpleModelValueType::String))
    );
    assert_eq!(
        get_values_type(&vec![SimpleModelValueType::Bool, SimpleModelValueType::String]),
        Ok(ModelValueType::Either(SimpleModelValueType::Bool, SimpleModelValueType::String))
    );
    assert_eq!(
        get_values_type(&vec![SimpleModelValueType::String, SimpleModelValueType::Bool]),
        Ok(ModelValueType::Either(SimpleModelValueType::String, SimpleModelValueType::Bool))
    );
}

#[test]
fn values_type_all_three_is_any() {
    let types = vec![SimpleModelValueType::String, SimpleModelValueType::Bool, num(false, true)];
    assert_eq!(get_values_type(&types), Ok(ModelValueType::Any));
}

#[test]
fn audio_channel_counts() {
    let inputs = vec![
        ModelInput::Audio(ControlChannels::Left),
        ModelInput::Sidechain,
        ModelInput::Audio(ControlChannels::Right),
        ModelInput::Midi,
    ];
    assert_eq!(get_audio_input_channel_count(&inputs), 2);
    let outputs = vec![ModelOutput::Midi, ModelOutput::Audio(ControlChannels::Generic)];
    assert_eq!(get_audio_output_channel_count(&outputs), 1);
    assert_eq!(get_audio_input_channel_count(&vec![]), 0);
}

#[test]
fn element_scope_len() {
    assert_eq!(ModelElementScope::Global.len(4, 6), 1);
    assert_eq!(ModelElementScope::AllInputs.len(4, 6), 4);
    assert_eq!(ModelElementScope::AllOutputs.len(4, 6), 6);
    assert_eq!(ModelElementScope::Count(9).len(4, 6), 9);
}

#[test]
fn toggles_and_stereo() {
    assert_eq!(toggle_off::<i64>(), ToggleOr::Toggle(false));
    assert_eq!(toggle_value(5i64), ToggleOr::Value(5));
    assert_eq!(Stereo::both(3u8), Stereo { left: 3, right: 3 });
    assert_eq!(ModelValueUnit::default(), ModelValueUnit::Unitless);
}
