//! Ready-made voices and cartridges: the factory "BRASS 1" voice, the
//! initial voice, and random ones.

use vstd::prelude::*;
use vstd::string::StringExecFns;
use crate::envelope::{Envelope, Levels, Rates};
use crate::lfo::{Lfo, LfoWaveform};
use crate::name::name_ok;
use crate::operator::{Operator, OperatorMode};
use crate::ranged::{
    group_ranged_lemmas, Algorithm, Coarse, Detune, Level, RandomValue, RangeKind, RangedValue,
};
use crate::scaling::{KeyboardLevelScaling, ScalingCurve};
use crate::cartridge::VOICE_COUNT;
use crate::voice::Voice;

verus! {

broadcast use group_ranged_lemmas;

/// Makes the "BRASS 1" voice as the DX7 manual gives its settings.
pub fn make_brass1() -> (r: Voice)
    ensures
        r.wf(),
        name_ok(r.name@),
        r.name@ == "BRASS   1 "@,
        r.alg@ == 22,
        r.feedback == 7,
        r.osc_sync,
        r.transpose == 0,
        r.lfo.speed@ == 37,
        r.lfo.pmd@ == 5,
        r.lfo.wave == LfoWaveform::Sine,
        r.lfo.pitch_mod_sens.spec_get() == 3,
        r.op6.output_level@ == 82,
        r.op6.kbd_rate_scaling == 4,
        r.op1.output_level@ == 98,
        r.op2.output_level@ == 86,
        r.op3.output_level@ == 99,
        r.op4.output_level@ == 99,
        r.op5.output_level@ == 98,
{
    let kbd_level_scaling = KeyboardLevelScaling {
        breakpoint: 60 - 21,
        left_depth: 0,
        right_depth: 0,
        left_curve: ScalingCurve::lin_pos(),
        right_curve: ScalingCurve::lin_pos(),
    };

    // One operator, and the others as changes to it.
    let op = Operator { key_vel_sens: 2, ..Operator::new() };

    let op6 = Operator {
        eg: Envelope::new_rate_level(Rates(77, 99, 28, 68), Levels(98, 98, 91, 0)),
        kbd_level_scaling: KeyboardLevelScaling {
            left_depth: 54,
            right_depth: 50,
            left_curve: ScalingCurve::exp_neg(),
            right_curve: ScalingCurve::exp_neg(),
            ..kbd_level_scaling
        },
        kbd_rate_scaling: 4,
        output_level: Level::new(82),
        ..op
    };

    let op5 = Operator {
        eg: Envelope::new_rate_level(Rates(77, 36, 41, 71), Levels(99, 98, 98, 0)),
        kbd_level_scaling,
        output_level: Level::new(98),
        detune: Detune::new(1),
        ..op
    };

    let op4 = Operator { eg: op5.eg, kbd_level_scaling, output_level: Level::new(99), ..op };

    let op3 = Operator {
        eg: Envelope::new_rate_level(Rates(77, 76, 82, 71), Levels(99, 98, 98, 0)),
        kbd_level_scaling,
        output_level: Level::new(99),
        detune: Detune::new(-2),
        ..op
    };

    let op2 = Operator {
        eg: Envelope::new_rate_level(Rates(62, 51, 29, 71), Levels(82, 95, 96, 0)),
        kbd_level_scaling: KeyboardLevelScaling {
            breakpoint: 48 - 21,
            left_depth: 0,
            right_depth: 7,
            left_curve: ScalingCurve::lin_pos(),
            right_curve: ScalingCurve::exp_neg(),
        },
        key_vel_sens: 0,
        output_level: Level::new(86),
        coarse: Coarse::new(0),
        detune: Detune::new(7),
        ..op
    };

    let op1 = Operator {
        eg: Envelope::new_rate_level(Rates(72, 76, 99, 71), Levels(99, 88, 96, 0)),
        kbd_level_scaling: KeyboardLevelScaling { right_depth: 14, ..kbd_level_scaling },
        key_vel_sens: 0,
        output_level: Level::new(98),
        coarse: Coarse::new(0),
        detune: Detune::new(7),
        ..op
    };

    let name = String::from_str("BRASS   1 ");
    proof {
        reveal_strlit("BRASS   1 ");
    }
    Voice {
        op1,
        op2,
        op3,
        op4,
        op5,
        op6,
        peg: Envelope::new_rate_level(Rates(84, 95, 95, 60), Levels(50, 50, 50, 50)),
        alg: Algorithm::new(22),
        feedback: 7,
        osc_sync: true,
        lfo: Lfo {
            speed: Level::new(37),
            delay: Level::new(0),
            pmd: Level::new(5),
            amd: Level::new(0),
            sync: false,
            wave: LfoWaveform::Sine,
            pitch_mod_sens: RangedValue::from_int(RangeKind::PitchModulationSensitivity, 3),
        },
        transpose: 0,
        name,
    }
}

/// Makes the initial voice as "The Complete DX7" (Appendix B) gives it:
/// operator 1 at full output, the others silent.
pub fn make_init_voice() -> (r: Voice)
    ensures
        r.wf(),
        name_ok(r.name@),
        r.name@ == "INIT VOICE"@,
        r.op1 == (Operator { output_level: Level::spec_new(99), ..Operator::spec_new() }),
        r.op2 == Operator::spec_new(),
        r.op3 == Operator::spec_new(),
        r.op4 == Operator::spec_new(),
        r.op5 == Operator::spec_new(),
        r.op6 == Operator::spec_new(),
        r.peg == Envelope::spec_rate_level((99, 99, 99, 99), (50, 50, 50, 50)),
        r.alg@ == 1,
        r.feedback == 0,
        r.osc_sync,
        r.transpose == 0,
        r.lfo.speed@ == 35,
        r.lfo.sync,
        r.lfo.wave == LfoWaveform::Triangle,
        r.lfo.pitch_mod_sens.spec_get() == 3,
{
    let init_op1 = Operator {
        eg: Envelope::new(),
        kbd_level_scaling: KeyboardLevelScaling::new(),
        kbd_rate_scaling: 0,
        amp_mod_sens: 0,
        key_vel_sens: 0,
        output_level: Level::new(99),
        mode: OperatorMode::Ratio,
        coarse: Coarse::new(1),
        fine: Level::new(0),
        detune: Detune::new(0),
    };

    // Operators 2...6 are operator 1 with no output.
    let init_op_rest = Operator { output_level: Level::new(0), ..init_op1 };

    let name = String::from_str("INIT VOICE");
    proof {
        reveal_strlit("INIT VOICE");
    }
    Voice {
        op1: init_op1,
        op2: init_op_rest,
        op3: init_op_rest,
        op4: init_op_rest,
        op5: init_op_rest,
        op6: init_op_rest,
        peg: Envelope::new_rate_level(Rates(99, 99, 99, 99), Levels(50, 50, 50, 50)),
        alg: Algorithm::new(1),
        feedback: 0,
        osc_sync: true,
        lfo: Lfo {
            speed: Level::new(35),
            delay: Level::new(0),
            pmd: Level::new(0),
            amd: Level::new(0),
            sync: true,
            wave: LfoWaveform::Triangle,
            pitch_mod_sens: RangedValue::from_int(RangeKind::PitchModulationSensitivity, 3),
        },
        transpose: 0,
        name,
    }
}

/// Makes an envelope with random rates and levels.
pub fn make_random_eg() -> (r: Envelope)
    ensures
        r.wf(),
{
    Envelope::new_random()
}

/// Makes an operator with a random envelope and output level, the other
/// settings as in a new voice.
pub fn make_random_operator() -> (r: Operator)
    ensures
        r.wf(),
        r.kbd_level_scaling == KeyboardLevelScaling::spec_new(),
        r.mode == OperatorMode::Ratio,
        r.coarse@ == 1,
{
    Operator {
        eg: make_random_eg(),
        kbd_level_scaling: KeyboardLevelScaling::new(),
        kbd_rate_scaling: 0,
        amp_mod_sens: 0,
        key_vel_sens: 0,
        output_level: Level::random_value(),
        mode: OperatorMode::Ratio,
        coarse: Coarse::new(1),
        fine: Level::new(0),
        detune: Detune::new(0),
    }
}

/// Makes a voice of random operators and a random LFO, named "RNDM VOICE".
pub fn make_random_voice() -> (r: Voice)
    ensures
        r.wf(),
        name_ok(r.name@),
        r.name@ == "RNDM VOICE"@,
        r.alg@ == 1,
        r.transpose == 0,
{
    let name = String::from_str("RNDM VOICE");
    proof {
        reveal_strlit("RNDM VOICE");
    }
    Voice {
        op1: make_random_operator(),
        op2: make_random_operator(),
        op3: make_random_operator(),
        op4: make_random_operator(),
        op5: make_random_operator(),
        op6: make_random_operator(),
        peg: Envelope::new_rate_level(Rates(99, 99, 99, 99), Levels(50, 50, 50, 50)),
        alg: Algorithm::new(1),
        feedback: 0,
        osc_sync: true,
        lfo: Lfo::new_random(),
        transpose: 0,
        name,
    }
}

/// Makes 32 initial voices.
pub fn make_init_cartridge() -> (r: Vec<Voice>)
    ensures
        r@.len() == VOICE_COUNT,
        forall|i: int|
            0 <= i < r@.len() ==> (#[trigger] r@[i]).wf() && name_ok(r@[i].name@) && r@[i].name@
                == "INIT VOICE"@,
{
    let voice = make_init_voice();
    let mut voices: Vec<Voice> = Vec::new();
    let mut i: usize = 0;
    while i < VOICE_COUNT
        invariant
            i <= VOICE_COUNT,
            voices@.len() == i,
            voice.wf(),
            name_ok(voice.name@),
            voice.name@ == "INIT VOICE"@,
            forall|j: int| 0 <= j < i ==> #[trigger] voices@[j] == voice,
        decreases VOICE_COUNT - i,
    {
        voices.push(voice.clone());
        i += 1;
    }
    voices
}

/// Makes 32 random voices.
pub fn make_random_cartridge() -> (r: Vec<Voice>)
    ensures
        r@.len() == VOICE_COUNT,
        forall|i: int| 0 <= i < r@.len() ==> (#[trigger] r@[i]).wf() && name_ok(r@[i].name@),
{
    let mut voices: Vec<Voice> = Vec::new();
    let mut i: usize = 0;
    while i < VOICE_COUNT
        invariant
            i <= VOICE_COUNT,
            voices@.len() == i,
            forall|j: int| 0 <= j < i ==> (#[trigger] voices@[j]).wf() && name_ok(voices@[j].name@),
        decreases VOICE_COUNT - i,
    {
        voices.push(make_random_voice());
        i += 1;
    }
    voices
}

} // verus!
