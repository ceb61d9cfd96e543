//! Models of processors: inputs, outputs, parameter and report roles, and the
//! types of parameter values.
use vstd::prelude::*;

use crate::ids::FilterId;

verus! {

#[derive(Clone, Copy, Debug, PartialEq, Eq, PartialOrd, Ord)]
pub enum ModelValueUnit {
    Unitless,
    Percent,
    Decibels,
    Hertz,
    Octaves,
    Toggle,
    Amperes,
    WattHours,
}

impl Default for ModelValueUnit {
    fn default() -> (u: Self)
        ensures
            u == ModelValueUnit::Unitless,
    {
        ModelValueUnit::Unitless
    }
}

/// The type of a single parameter value.
#[derive(Clone, Copy, Debug, PartialEq, Eq, Hash)]
pub enum SimpleModelValueType {
    String,
    Number { integer: bool, signed: bool },
    Bool,
}

/// The type of the values a parameter accepts.
#[derive(Clone, Copy, Debug, PartialEq, Eq)]
pub enum ModelValueType {
    Single(SimpleModelValueType),
    Either(SimpleModelValueType, SimpleModelValueType),
    Any,
}

/// Why value types could not be combined.
#[derive(Clone, Copy, Debug, PartialEq, Eq)]
pub enum ValueTypeError {
    /// Only numeric types may be widened.
    NotNumeric,
    /// A value without any type.
    NoTypes,
}

impl SimpleModelValueType {
    /// The numeric type that covers both numeric types: signed when either is,
    /// integer when both are.
    pub fn try_widen(self, other: SimpleModelValueType) -> (r: Result<
        SimpleModelValueType,
        ValueTypeError,
    >)
        ensures
            match (self, other) {
                (
                    SimpleModelValueType::Number { signed: s1, integer: i1 },
                    SimpleModelValueType::Number { signed: s2, integer: i2 },
                ) => r == Ok::<SimpleModelValueType, ValueTypeError>(
                    SimpleModelValueType::Number { signed: s1 || s2, integer: i1 && i2 },
                ),
                _ => r == Err::<SimpleModelValueType, ValueTypeError>(ValueTypeError::NotNumeric),
            },
    {
        match (self, other) {
            (
                SimpleModelValueType::Number { signed: s1, integer: i1 },
                SimpleModelValueType::Number { signed: s2, integer: i2 },
            ) => Ok(SimpleModelValueType::Number { signed: s1 || s2, integer: i1 && i2 }),
            _ => Err(ValueTypeError::NotNumeric),
        }
    }
}

/// Some entry of `s` is numeric.
pub open spec fn has_number(s: Seq<SimpleModelValueType>) -> bool {
    exists|i: int| 0 <= i < s.len() && #[trigger] s[i] is Number
}

/// Some numeric entry of `s` is signed.
pub open spec fn any_signed(s: Seq<SimpleModelValueType>) -> bool {
    exists|i: int| 0 <= i < s.len() && #[trigger] s[i] matches SimpleModelValueType::Number { signed: true, .. }
}

/// Every numeric entry of `s` is integer.
pub open spec fn all_integer(s: Seq<SimpleModelValueType>) -> bool {
    forall|i: int|
        0 <= i < s.len() && #[trigger] s[i] is Number ==> s[i] matches SimpleModelValueType::Number {
            integer: true,
            ..
        }
}

/// Some entry of `s` is `t`.
pub open spec fn has_type(s: Seq<SimpleModelValueType>, t: SimpleModelValueType) -> bool {
    exists|i: int| 0 <= i < s.len() && s[i] == t
}

/// A string type occurs in `s` before any bool type does.
pub open spec fn string_first(s: Seq<SimpleModelValueType>) -> bool {
    exists|i: int|
        0 <= i < s.len() && s[i] == SimpleModelValueType::String && forall|j: int|
            0 <= j < i ==> s[j] != SimpleModelValueType::Bool
}

/// The combined type of a parameter's value options, given the types of the
/// options: numeric types widen into one, the string and bool types stand
/// beside it, and more than two distinct types make `Any`.
pub open spec fn values_type(s: Seq<SimpleModelValueType>) -> Result<ModelValueType, ValueTypeError> {
    let numeric = SimpleModelValueType::Number { integer: all_integer(s), signed: any_signed(s) };
    let st = has_type(s, SimpleModelValueType::String);
    let bt = has_type(s, SimpleModelValueType::Bool);
    if has_number(s) {
        if st && bt {
            Ok(ModelValueType::Any)
        } else if st {
            Ok(ModelValueType::Either(numeric, SimpleModelValueType::String))
        } else if bt {
            Ok(ModelValueType::Either(numeric, SimpleModelValueType::Bool))
        } else {
            Ok(ModelValueType::Single(numeric))
        }
    } else {
        if st && bt {
            if string_first(s) {
                Ok(
                    ModelValueType::Either(
                        SimpleModelValueType::String,
                        SimpleModelValueType::Bool,
                    ),
                )
            } else {
                Ok(
                    ModelValueType::Either(
                        SimpleModelValueType::Bool,
                        SimpleModelValueType::String,
                    ),
                )
            }
        } else if st {
            Ok(ModelValueType::Single(SimpleModelValueType::String))
        } else if bt {
            Ok(ModelValueType::Single(SimpleModelValueType::Bool))
        } else {
            Err(ValueTypeError::NoTypes)
        }
    }
}

proof fn lemma_has_number_push(s: Seq<SimpleModelValueType>, t: SimpleModelValueType)
    ensures
        has_number(s.push(t)) == (has_number(s) || t is Number),
{
    let n = s.push(t);
    assert(forall|j: int| 0 <= j < s.len() ==> n[j] == s[j]);
    assert(n[s.len() as int] == t);
}

proof fn lemma_any_signed_push(s: Seq<SimpleModelValueType>, t: SimpleModelValueType)
    ensures
        any_signed(s.push(t)) == (any_signed(s) || t matches SimpleModelValueType::Number {
            signed: true,
            ..
        }),
{
    let n = s.push(t);
    assert(forall|j: int| 0 <= j < s.len() ==> n[j] == s[j]);
    assert(n[s.len() as int] == t);
}

proof fn lemma_all_integer_push(s: Seq<SimpleModelValueType>, t: SimpleModelValueType)
    ensures
        all_integer(s.push(t)) == (all_integer(s) && (t is Number ==> t matches SimpleModelValueType::Number {
            integer: true,
            ..
        })),
{
    let n = s.push(t);
    assert(forall|j: int| 0 <= j < s.len() ==> n[j] == s[j]);
    assert(n[s.len() as int] == t);
}

proof fn lemma_has_type_push(s: Seq<SimpleModelValueType>, t: SimpleModelValueType, x: SimpleModelValueType)
    ensures
        has_type(s.push(t), x) == (has_type(s, x) || t == x),
{
    let n = s.push(t);
    assert(forall|j: int| 0 <= j < s.len() ==> n[j] == s[j]);
    assert(n[s.len() as int] == t);
}

proof fn lemma_string_first_push(s: Seq<SimpleModelValueType>, t: SimpleModelValueType)
    ensures
        string_first(s.push(t)) == (string_first(s) || (t == SimpleModelValueType::String
            && !has_type(s, SimpleModelValueType::Bool))),
{
    let n = s.push(t);
    assert(forall|j: int| 0 <= j < s.len() ==> n[j] == s[j]);
    assert(n[s.len() as int] == t);
    if string_first(n) && !string_first(s) {
        let k = choose|k: int|
            0 <= k < n.len() && n[k] == SimpleModelValueType::String && forall|j: int|
                0 <= j < k ==> n[j] != SimpleModelValueType::Bool;
        if k < s.len() {
            assert(s[k] == SimpleModelValueType::String);
            assert(forall|j: int| 0 <= j < k ==> s[j] != SimpleModelValueType::Bool);
        }
        if has_type(s, SimpleModelValueType::Bool) {
            let b = choose|b: int| 0 <= b < s.len() && s[b] == SimpleModelValueType::Bool;
            assert(n[b] == SimpleModelValueType::Bool);
        }
    }
    if string_first(s) {
        let k = choose|k: int|
            0 <= k < s.len() && s[k] == SimpleModelValueType::String && forall|j: int|
                0 <= j < k ==> s[j] != SimpleModelValueType::Bool;
        assert(n[k] == SimpleModelValueType::String);
        assert(forall|j: int| 0 <= j < k ==> n[j] != SimpleModelValueType::Bool);
    }
    if t == SimpleModelValueType::String && !has_type(s, SimpleModelValueType::Bool) {
        assert(forall|j: int| 0 <= j < s.len() ==> n[j] != SimpleModelValueType::Bool);
        assert(n[s.len() as int] == SimpleModelValueType::String);
    }
}

proof fn lemma_type_facts_push(s: Seq<SimpleModelValueType>, t: SimpleModelValueType)
    ensures
        has_number(s.push(t)) == (has_number(s) || t is Number),
        any_signed(s.push(t)) == (any_signed(s) || t matches SimpleModelValueType::Number {
            signed: true,
            ..
        }),
        all_integer(s.push(t)) == (all_integer(s) && (t is Number ==> t matches SimpleModelValueType::Number {
            integer: true,
            ..
        })),
        has_type(s.push(t), SimpleModelValueType::String) == (has_type(
            s,
            SimpleModelValueType::String,
        ) || t == SimpleModelValueType::String),
        has_type(s.push(t), SimpleModelValueType::Bool) == (has_type(s, SimpleModelValueType::Bool)
            || t == SimpleModelValueType::Bool),
        string_first(s.push(t)) == (string_first(s) || (t == SimpleModelValueType::String
            && !has_type(s, SimpleModelValueType::Bool))),
{
    lemma_has_number_push(s, t);
    lemma_any_signed_push(s, t);
    lemma_all_integer_push(s, t);
    lemma_has_type_push(s, t, SimpleModelValueType::String);
    lemma_has_type_push(s, t, SimpleModelValueType::Bool);
    lemma_string_first_push(s, t);
}

/// The type of the values a parameter accepts, from the types of its value
/// options (those options whose type could be determined). When both string
/// and bool occur without numbers, they are given in the order in which they
/// first occur.
/// The value type of a parameter comes from its options: with no options it
/// is an error; when all options have one non-numeric type, that type; when
/// all are numbers, a number that is signed when any option is and integral
/// when all are; a non-numeric type in the result is one of the options'
/// types, and `Any` holds text, flags and numbers together.
pub proof fn law_values_type_from_options(s: Seq<SimpleModelValueType>, t: SimpleModelValueType)
    ensures
        s.len() == 0 ==> values_type(s) == Err::<ModelValueType, ValueTypeError>(ValueTypeError::NoTypes),
        (s.len() > 0 && !(t is Number) && forall|i: int| 0 <= i < s.len() ==> #[trigger] s[i] == t)
            ==> values_type(s) == Ok::<ModelValueType, ValueTypeError>(ModelValueType::Single(t)),
        (s.len() > 0 && forall|i: int| 0 <= i < s.len() ==> (#[trigger] s[i]) is Number)
            ==> values_type(s) == Ok::<ModelValueType, ValueTypeError>(
            ModelValueType::Single(
                SimpleModelValueType::Number {
                    integer: forall|i: int|
                        0 <= i < s.len() ==> (#[trigger] s[i]) matches SimpleModelValueType::Number {
                            integer: true,
                            ..
                        },
                    signed: exists|i: int|
                        0 <= i < s.len() && (#[trigger] s[i]) matches SimpleModelValueType::Number {
                            signed: true,
                            ..
                        },
                },
            ),
        ),
        s.len() > 0 ==> values_type(s) is Ok,
        values_type(s) matches Ok(ModelValueType::Single(x)) ==> (!(x is Number) ==> exists|i: int|
            0 <= i < s.len() && s[i] == x),
        values_type(s) matches Ok(ModelValueType::Either(x, y)) ==> (!(x is Number) ==> exists|i: int|
            0 <= i < s.len() && s[i] == x),
        values_type(s) matches Ok(ModelValueType::Either(x, y)) ==> (!(y is Number) ==> exists|i: int|
            0 <= i < s.len() && s[i] == y),
        values_type(s) matches Ok(ModelValueType::Either(x, y)) ==> x != y,
        values_type(s) == Ok::<ModelValueType, ValueTypeError>(ModelValueType::Any) ==> (exists|i: int|
            0 <= i < s.len() && s[i] == SimpleModelValueType::String) && (exists|i: int|
            0 <= i < s.len() && s[i] == SimpleModelValueType::Bool) && (exists|i: int|
            0 <= i < s.len() && (#[trigger] s[i]) is Number),
{
    if s.len() > 0 {
        assert(s[0] == s[0]);
        if s[0] is Number {
            assert(has_number(s));
        } else if s[0] == SimpleModelValueType::String {
            assert(has_type(s, SimpleModelValueType::String));
        } else {
            assert(has_type(s, SimpleModelValueType::Bool));
        }
    }
    if s.len() > 0 && !(t is Number) && forall|i: int| 0 <= i < s.len() ==> #[trigger] s[i] == t {
        assert(s[0] == t);
        assert(!has_number(s)) by {
            if has_number(s) {
                let i = choose|i: int| 0 <= i < s.len() && (#[trigger] s[i]) is Number;
                assert(s[i] == t);
            }
        }
        if t == SimpleModelValueType::String {
            assert(has_type(s, SimpleModelValueType::String));
            assert(!has_type(s, SimpleModelValueType::Bool)) by {
                if has_type(s, SimpleModelValueType::Bool) {
                    let i = choose|i: int| 0 <= i < s.len() && s[i] == SimpleModelValueType::Bool;
                    assert(s[i] == t);
                }
            }
        } else {
            assert(has_type(s, SimpleModelValueType::Bool));
            assert(!has_type(s, SimpleModelValueType::String)) by {
                if has_type(s, SimpleModelValueType::String) {
                    let i = choose|i: int| 0 <= i < s.len() && s[i] == SimpleModelValueType::String;
                    assert(s[i] == t);
                }
            }
        }
    }
    if s.len() > 0 && forall|i: int| 0 <= i < s.len() ==> (#[trigger] s[i]) is Number {
        assert(has_number(s));
        assert(!has_type(s, SimpleModelValueType::String)) by {
            if has_type(s, SimpleModelValueType::String) {
                let i = choose|i: int| 0 <= i < s.len() && s[i] == SimpleModelValueType::String;
                assert(s[i] is Number);
            }
        }
        assert(!has_type(s, SimpleModelValueType::Bool)) by {
            if has_type(s, SimpleModelValueType::Bool) {
                let i = choose|i: int| 0 <= i < s.len() && s[i] == SimpleModelValueType::Bool;
                assert(s[i] is Number);
            }
        }
    }
    if string_first(s) {
        let i = choose|i: int|
            0 <= i < s.len() && s[i] == SimpleModelValueType::String && forall|j: int|
                0 <= j < i ==> s[j] != SimpleModelValueType::Bool;
        assert(has_type(s, SimpleModelValueType::String));
    }
}

pub fn get_values_type(types: &Vec<SimpleModelValueType>) -> (r: Result<ModelValueType, ValueTypeError>)
    ensures
        r == values_type(types@),
{
    let mut number = false;
    let mut signed = false;
    let mut integer = true;
    let mut string = false;
    let mut boolean = false;
    let mut str_first = false;
    let mut i: usize = 0;
    while i < types.len()
        invariant
            0 <= i <= types.len(),
            number == has_number(types@.take(i as int)),
            signed == any_signed(types@.take(i as int)),
            integer == all_integer(types@.take(i as int)),
            string == has_type(types@.take(i as int), SimpleModelValueType::String),
            boolean == has_type(types@.take(i as int), SimpleModelValueType::Bool),
            str_first == string_first(types@.take(i as int)),
        decreases types.len() - i,
    {
        proof {
            assert(types@.take(i + 1) =~= types@.take(i as int).push(types@[i as int]));
            lemma_type_facts_push(types@.take(i as int), types@[i as int]);
        }
        match types[i] {
            SimpleModelValueType::Number { integer: int_i, signed: sig_i } => {
                number = true;
                signed = signed || sig_i;
                integer = integer && int_i;
            },
            SimpleModelValueType::String => {
                if !boolean {
                    str_first = true;
                }
                string = true;
            },
            SimpleModelValueType::Bool => {
                boolean = true;
            },
        }
        i += 1;
    }
    assert(types@.take(types.len() as int) =~= types@);
    let numeric = SimpleModelValueType::Number { integer, signed };
    if number {
        if string && boolean {
            Ok(ModelValueType::Any)
        } else if string {
            Ok(ModelValueType::Either(numeric, SimpleModelValueType::String))
        } else if boolean {
            Ok(ModelValueType::Either(numeric, SimpleModelValueType::Bool))
        } else {
            Ok(ModelValueType::Single(numeric))
        }
    } else {
        if string && boolean {
            if str_first {
                Ok(ModelValueType::Either(SimpleModelValueType::String, SimpleModelValueType::Bool))
            } else {
                Ok(ModelValueType::Either(SimpleModelValueType::Bool, SimpleModelValueType::String))
            }
        } else if string {
            Ok(ModelValueType::Single(SimpleModelValueType::String))
        } else if boolean {
            Ok(ModelValueType::Single(SimpleModelValueType::Bool))
        } else {
            Err(ValueTypeError::NoTypes)
        }
    }
}

#[derive(Clone, Copy, Debug, PartialEq, Eq, Hash)]
pub enum ControlChannels {
    Global,
    Left,
    Right,
    Generic,
}

#[derive(Clone, Copy, Debug, PartialEq, Eq)]
pub enum ModelInput {
    Audio(ControlChannels),
    Sidechain,
    Midi,
}

#[derive(Clone, Copy, Debug, PartialEq, Eq)]
pub enum ModelOutput {
    Audio(ControlChannels),
    Midi,
}

/// Number of audio entries among `inputs`.
pub open spec fn audio_input_count(inputs: Seq<ModelInput>) -> nat
    decreases inputs.len(),
{
    if inputs.len() == 0 {
        0
    } else {
        audio_input_count(inputs.drop_last()) + if inputs.last() is Audio {
            1nat
        } else {
            0nat
        }
    }
}

/// Number of audio entries among `outputs`.
pub open spec fn audio_output_count(outputs: Seq<ModelOutput>) -> nat
    decreases outputs.len(),
{
    if outputs.len() == 0 {
        0
    } else {
        audio_output_count(outputs.drop_last()) + if outputs.last() is Audio {
            1nat
        } else {
            0nat
        }
    }
}

proof fn lemma_audio_input_count_bound(inputs: Seq<ModelInput>)
    ensures
        audio_input_count(inputs) <= inputs.len(),
    decreases inputs.len(),
{
    if inputs.len() > 0 {
        lemma_audio_input_count_bound(inputs.drop_last());
    }
}

proof fn lemma_audio_output_count_bound(outputs: Seq<ModelOutput>)
    ensures
        audio_output_count(outputs) <= outputs.len(),
    decreases outputs.len(),
{
    if outputs.len() > 0 {
        lemma_audio_output_count_bound(outputs.drop_last());
    }
}

/// Every audio input counts one channel, whatever channel it carries;
/// sidechain and MIDI inputs count none; no inputs count none.
pub proof fn law_audio_input_channels(s: Seq<ModelInput>, c: ControlChannels)
    ensures
        audio_input_count(Seq::<ModelInput>::empty()) == 0,
        audio_input_count(s.push(ModelInput::Audio(c))) == audio_input_count(s) + 1,
        audio_input_count(s.push(ModelInput::Sidechain)) == audio_input_count(s),
        audio_input_count(s.push(ModelInput::Midi)) == audio_input_count(s),
{
    assert(s.push(ModelInput::Audio(c)).drop_last() =~= s);
    assert(s.push(ModelInput::Sidechain).drop_last() =~= s);
    assert(s.push(ModelInput::Midi).drop_last() =~= s);
}

/// Every audio output counts one channel, whatever channel it carries; MIDI
/// outputs count none; no outputs count none.
pub proof fn law_audio_output_channels(s: Seq<ModelOutput>, c: ControlChannels)
    ensures
        audio_output_count(Seq::<ModelOutput>::empty()) == 0,
        audio_output_count(s.push(ModelOutput::Audio(c))) == audio_output_count(s) + 1,
        audio_output_count(s.push(ModelOutput::Midi)) == audio_output_count(s),
{
    assert(s.push(ModelOutput::Audio(c)).drop_last() =~= s);
    assert(s.push(ModelOutput::Midi).drop_last() =~= s);
}

/// The number of audio channels among a model's inputs.
pub fn get_audio_input_channel_count(inputs: &Vec<ModelInput>) -> (n: usize)
    ensures
        n == audio_input_count(inputs@),
{
    let mut n: usize = 0;
    let mut i: usize = 0;
    while i < inputs.len()
        invariant
            0 <= i <= inputs.len(),
            n == audio_input_count(inputs@.take(i as int)),
            n <= i,
        decreases inputs.len() - i,
    {
        assert(inputs@.take(i + 1).drop_last() =~= inputs@.take(i as int));
        match inputs[i] {
            ModelInput::Audio(_) => {
                n = n + 1;
            },
            _ => {},
        }
        i += 1;
    }
    assert(inputs@.take(inputs.len() as int) =~= inputs@);
    n
}

/// The number of audio channels among a model's outputs.
pub fn get_audio_output_channel_count(outputs: &Vec<ModelOutput>) -> (n: usize)
    ensures
        n == audio_output_count(outputs@),
{
    let mut n: usize = 0;
    let mut i: usize = 0;
    while i < outputs.len()
        invariant
            0 <= i <= outputs.len(),
            n == audio_output_count(outputs@.take(i as int)),
            n <= i,
        decreases outputs.len() - i,
    {
        assert(outputs@.take(i + 1).drop_last() =~= outputs@.take(i as int));
        match outputs[i] {
            ModelOutput::Audio(_) => {
                n = n + 1;
            },
            _ => {},
        }
        i += 1;
    }
    assert(outputs@.take(outputs.len() as int) =~= outputs@);
    n
}

#[derive(Clone, Copy, Debug, PartialEq, Eq, Hash)]
pub enum ModelCapability {
    PowerDistributor,
    AudioRouter,
    AudioMixer,
    DigitalInputOutput,
}

#[derive(Clone, Debug, PartialEq, Eq, Hash)]
pub struct PowerDistributorReports {
    pub power: Option<Vec<bool>>,
}

#[derive(Clone, Copy, Debug, PartialEq, Eq, PartialOrd)]
pub enum ModelParameterRole {
    NoRole,
    Power,
    Global(GlobalParameterRole),
    Channel(ChannelParameterRole),
    Amplifier(AmplifierId, AmplifierParameterRole),
    Dynamics(DynamicsId, DynamicsParameterRole),
    Filter(FilterId, FilterParameterRole),
}

#[derive(Clone, Copy, Debug, PartialEq, Eq, PartialOrd)]
pub enum ChannelParameterRole {
    Pan,
}

#[derive(Clone, Copy, Debug, PartialEq, Eq, PartialOrd)]
pub enum GlobalParameterRole {
    Enable,
    Bypass,
}

#[derive(Clone, Copy, Debug, PartialEq, Eq, PartialOrd)]
pub enum AmplifierParameterRole {
    Enable,
    Gain,
    Distortion,
    SlewRate,
}

#[derive(Clone, Copy, Debug, PartialEq, Eq, PartialOrd)]
pub enum DynamicsParameterRole {
    Ratio,
    Threshold,
    Ceiling,
    Attack,
    Release,
    AutoRelease,
    AutoAttack,
    AutoRatio,
    Knee,
    DetectorInput,
    DetectorMaterial,
    DetectorFilter,
    MidEmphasis,
}

#[derive(Clone, Copy, Debug, PartialEq, Eq, PartialOrd)]
pub enum FilterParameterRole {
    Gain,
    GainDirection,
    Frequency,
    Bandwidth,
    Type,
}

#[derive(Clone, Copy, Debug, PartialEq, Eq, PartialOrd)]
pub enum ModelReportRole {
    NoRole,
    Power(PowerReportRole),
    Amplifier(AmplifierId, AmplifierReportRole),
    Dynamics(DynamicsId, DynamicsReportRole),
}

#[derive(Clone, Copy, Debug, PartialEq, Eq, PartialOrd)]
pub enum PowerReportRole {
    Powered,
    Current,
    PowerFactor,
    TotalEnergy,
}

#[derive(Clone, Copy, Debug, PartialEq, Eq, PartialOrd)]
pub enum AmplifierReportRole {
    PeakVolume,
    RmsVolume,
    LufsVolumeMomentary,
    LufsVolumeShortTerm,
    LufsVolumeIntegrated,
}

#[derive(Clone, Copy, Debug, PartialEq, Eq, PartialOrd)]
pub enum DynamicsReportRole {
    GainReduction,
    GainReductionLimitHit,
}

/// Which elements of a model a parameter or report applies to.
#[derive(Clone, Copy, Debug, PartialEq, Eq, PartialOrd)]
pub enum ModelElementScope {
    Global,
    AllInputs,
    AllOutputs,
    Count(usize),
}

impl ModelElementScope {
    /// How many values the scope holds in a model with `num_inputs` inputs and
    /// `num_outputs` outputs.
    pub fn len(self, num_inputs: usize, num_outputs: usize) -> (n: usize)
        ensures
            n == match self {
                ModelElementScope::Global => 1,
                ModelElementScope::AllInputs => num_inputs,
                ModelElementScope::AllOutputs => num_outputs,
                ModelElementScope::Count(c) => c,
            },
    {
        match self {
            ModelElementScope::Global => 1,
            ModelElementScope::AllInputs => num_inputs,
            ModelElementScope::AllOutputs => num_outputs,
            ModelElementScope::Count(num) => num,
        }
    }
}

#[derive(Clone, Copy, Debug, PartialEq, Eq, PartialOrd, Hash)]
pub enum ResourceId {
    /// in GiB
    Memory,
    /// in Ghz
    CPU,
    /// in cuda cores
    GPU,
    AntelopeDSP,
    UniversalAudioDSP,
}

#[derive(Clone, Copy, Debug, PartialEq, Eq, PartialOrd)]
pub enum AmplifierId {
    Input,
    Output,
    Global,
    InsertInput,
    InsertOutput,
}

#[derive(Clone, Copy, Debug, PartialEq, Eq, PartialOrd)]
pub enum DynamicsId {
    Total,
    Compressor,
    Gate,
    Limiter,
    DeEsser,
}

/// Either an on/off toggle or a value.
#[derive(Clone, Copy, Debug, PartialEq)]
pub enum ToggleOr<T> {
    Toggle(bool),
    Value(T),
}

/// A value for each of the two channels of a stereo pair.
#[derive(Clone, Copy, Debug, PartialEq)]
pub struct Stereo<T> {
    pub left: T,
    pub right: T,
}

impl<T: Clone> Stereo<T> {
    /// The same value on both channels: a clone on the left, the value itself
    /// on the right.
    pub fn both(value: T) -> (s: Self)
        ensures
            cloned(value, s.left),
            s.right == value,
    {
        Self { left: value.clone(), right: value }
    }
}

/// The toggle in its off position.
pub fn toggle_off<T>() -> (t: ToggleOr<T>)
    ensures
        t == ToggleOr::<T>::Toggle(false),
{
    ToggleOr::Toggle(false)
}

/// The given value, not a toggle.
pub fn toggle_value<T>(value: T) -> (t: ToggleOr<T>)
    ensures
        t == ToggleOr::<T>::Value(value),
{
    ToggleOr::Value(value)
}

} // verus!
