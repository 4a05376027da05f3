//! The low-frequency oscillator of a voice.

use vstd::prelude::*;
use crate::layout::SystemExclusiveData;
use crate::bits::{field, put, spec_field, spec_put};
use crate::ranged::{
    group_ranged_lemmas, value_of_byte, byte_of_value, Level, RandomValue, RangeKind, RangedValue,
    UnsignedLevel,
};

verus! {

broadcast use group_ranged_lemmas;

/// LFO waveform.
#[derive(Debug, Copy, Clone, PartialEq, Eq, Structural)]
pub enum LfoWaveform {
    Triangle,
    SawDown,
    SawUp,
    Square,
    Sine,
    SampleAndHold,
}

/// The data value of a waveform (0...5).
pub open spec fn wave_code(w: LfoWaveform) -> u8 {
    match w {
        LfoWaveform::Triangle => 0,
        LfoWaveform::SawDown => 1,
        LfoWaveform::SawUp => 2,
        LfoWaveform::Square => 3,
        LfoWaveform::Sine => 4,
        LfoWaveform::SampleAndHold => 5,
    }
}

/// The waveform of a data value; values out of range are read as a triangle.
pub open spec fn wave_of_code(b: u8) -> LfoWaveform {
    if b == 1 {
        LfoWaveform::SawDown
    } else if b == 2 {
        LfoWaveform::SawUp
    } else if b == 3 {
        LfoWaveform::Square
    } else if b == 4 {
        LfoWaveform::Sine
    } else if b == 5 {
        LfoWaveform::SampleAndHold
    } else {
        LfoWaveform::Triangle
    }
}

impl LfoWaveform {
    /// Gets the data value of the waveform.
    pub fn to_byte(&self) -> (r: u8)
        ensures
            r == wave_code(*self),
            r <= 5,
    {
        match self {
            LfoWaveform::Triangle => 0,
            LfoWaveform::SawDown => 1,
            LfoWaveform::SawUp => 2,
            LfoWaveform::Square => 3,
            LfoWaveform::Sine => 4,
            LfoWaveform::SampleAndHold => 5,
        }
    }

    /// Makes a waveform from its data value; one out of range gives a triangle.
    pub fn from_byte(b: u8) -> (r: LfoWaveform)
        ensures
            r == wave_of_code(b),
    {
        match b {
            1 => LfoWaveform::SawDown,
            2 => LfoWaveform::SawUp,
            3 => LfoWaveform::Square,
            4 => LfoWaveform::Sine,
            5 => LfoWaveform::SampleAndHold,
            _ => LfoWaveform::Triangle,
        }
    }
}

/// The data value of a flag.
pub open spec fn flag_code(b: bool) -> u8 {
    if b {
        1
    } else {
        0
    }
}

/// LFO.
#[derive(Debug, Copy, Clone, PartialEq, Eq, Structural)]
pub struct Lfo {
    pub speed: Level,
    pub delay: Level,
    pub pmd: Level,
    pub amd: Level,
    pub sync: bool,
    pub wave: LfoWaveform,
    /// 0 ~ 7
    pub pitch_mod_sens: RangedValue,
}

/// The size of an LFO in the unpacked layout.
pub const LFO_SIZE: usize = 7;

/// The size of an LFO in the packed layout.
pub const LFO_PACKED_SIZE: usize = 5;

/// The pitch modulation sensitivity that a value gives, clamped into 0...7.
pub open spec fn spec_sensitivity(value: int) -> RangedValue {
    RangedValue::spec_from_int(RangeKind::PitchModulationSensitivity, value)
}

/// Sync, waveform and pitch modulation sensitivity are each read back from
/// the byte that holds them.
proof fn lemma_last_byte(sync: u8, wave: u8, pms: u8)
    by (bit_vector)
    requires
        sync <= 1,
        wave <= 7,
        pms <= 7,
    ensures
        spec_field(spec_put(spec_put(sync, wave, 1), pms, 4), 0, 1) == sync,
        spec_field(spec_put(spec_put(sync, wave, 1), pms, 4), 1, 7) == wave,
        spec_field(spec_put(spec_put(sync, wave, 1), pms, 4), 4, 7) == pms,
{
}

impl Lfo {
    pub open spec fn wf(&self) -> bool {
        &&& self.speed.wf()
        &&& self.delay.wf()
        &&& self.pmd.wf()
        &&& self.amd.wf()
        &&& self.pitch_mod_sens.wf()
        &&& self.pitch_mod_sens.spec_kind() == RangeKind::PitchModulationSensitivity
    }

    /// The data byte of the pitch modulation sensitivity.
    pub open spec fn sens_byte(&self) -> u8 {
        byte_of_value(RangeKind::PitchModulationSensitivity, self.pitch_mod_sens.spec_get()) as u8
    }

    /// The unpacked data bytes: one byte per field.
    pub open spec fn spec_bytes(&self) -> Seq<u8> {
        seq![
            self.speed@,
            self.delay@,
            self.pmd@,
            self.amd@,
            flag_code(self.sync),
            wave_code(self.wave),
            self.sens_byte(),
        ]
    }

    /// The packed data bytes: sync in bit 0, the waveform in bits 1-3 and the
    /// pitch modulation sensitivity in bits 4-6 of the last byte.
    pub open spec fn spec_packed_bytes(&self) -> Seq<u8> {
        seq![
            self.speed@,
            self.delay@,
            self.pmd@,
            self.amd@,
            spec_put(spec_put(flag_code(self.sync), wave_code(self.wave), 1), self.sens_byte(), 4),
        ]
    }

    /// The LFO that seven unpacked data bytes describe.
    pub open spec fn spec_from_bytes(s: Seq<u8>) -> Lfo {
        Lfo {
            speed: UnsignedLevel::spec_new(s[0]),
            delay: UnsignedLevel::spec_new(s[1]),
            pmd: UnsignedLevel::spec_new(s[2]),
            amd: UnsignedLevel::spec_new(s[3]),
            sync: s[4] == 1,
            wave: wave_of_code(s[5]),
            pitch_mod_sens: spec_sensitivity(
                value_of_byte(RangeKind::PitchModulationSensitivity, s[6]),
            ),
        }
    }

    /// The LFO that five packed data bytes describe.
    pub open spec fn spec_from_packed_bytes(s: Seq<u8>) -> Lfo {
        Lfo {
            speed: UnsignedLevel::spec_new(s[0]),
            delay: UnsignedLevel::spec_new(s[1]),
            pmd: UnsignedLevel::spec_new(s[2]),
            amd: UnsignedLevel::spec_new(s[3]),
            sync: spec_field(s[4], 0, 1) == 1,
            wave: wave_of_code(spec_field(s[4], 1, 7)),
            pitch_mod_sens: spec_sensitivity(
                value_of_byte(RangeKind::PitchModulationSensitivity, spec_field(s[4], 4, 7)),
            ),
        }
    }

    /// Decoding either layout of a well-formed LFO gives it back.
    pub proof fn lemma_round_trip(&self)
        requires
            self.wf(),
        ensures
            Lfo::spec_from_bytes(self.spec_bytes()) == *self,
            Lfo::spec_from_packed_bytes(self.spec_packed_bytes()) == *self,
    {
        lemma_last_byte(flag_code(self.sync), wave_code(self.wave), self.sens_byte());
    }

    /// The defaults of a new voice: speed 35, no depth, key sync, triangle.
    pub open spec fn spec_new() -> Lfo {
        Lfo {
            speed: UnsignedLevel::spec_new(35),
            delay: UnsignedLevel::spec_new(0),
            pmd: UnsignedLevel::spec_new(0),
            amd: UnsignedLevel::spec_new(0),
            sync: true,
            wave: LfoWaveform::Triangle,
            pitch_mod_sens: spec_sensitivity(0),
        }
    }

    /// Makes an LFO with the defaults of a new voice.
    pub fn new() -> (r: Lfo)
        ensures
            r == Lfo::spec_new(),
            r.wf(),
    {
        Lfo {
            speed: Level::new(35),
            delay: Level::new(0),
            pmd: Level::new(0),
            amd: Level::new(0),
            sync: true,
            wave: LfoWaveform::Triangle,
            pitch_mod_sens: RangedValue::from_int(RangeKind::PitchModulationSensitivity, 0),
        }
    }

    /// Makes an LFO with random speed, delay and depths.
    pub fn new_random() -> (r: Lfo)
        ensures
            r.wf(),
            r.sync,
            r.wave == LfoWaveform::Triangle,
    {
        let level = RangedValue::new_min(RangeKind::Level);
        Lfo {
            speed: Level::random_value(),
            delay: Level::random_value(),
            pmd: Level::random_value(),
            amd: Level::random_value(),
            sync: true,
            wave: LfoWaveform::Triangle,
            pitch_mod_sens: RangedValue::from_int(
                RangeKind::PitchModulationSensitivity,
                level.random_value(),
            ),
        }
    }

    /// Makes an LFO from its seven unpacked data bytes.
    pub fn from_bytes(data: &[u8]) -> (r: Lfo)
        requires
            data@.len() == LFO_SIZE,
        ensures
            r == Lfo::spec_from_bytes(data@),
            r.wf(),
    {
        Lfo {
            speed: Level::new(data[0]),
            delay: Level::new(data[1]),
            pmd: Level::new(data[2]),
            amd: Level::new(data[3]),
            sync: data[4] == 1,
            wave: LfoWaveform::from_byte(data[5]),
            pitch_mod_sens: RangedValue::from_byte(RangeKind::PitchModulationSensitivity, data[6]),
        }
    }

    /// Makes an LFO from its five packed data bytes.
    pub fn from_packed_bytes(data: &[u8]) -> (r: Lfo)
        requires
            data@.len() == LFO_PACKED_SIZE,
        ensures
            r == Lfo::spec_from_packed_bytes(data@),
            r.wf(),
    {
        Lfo {
            speed: Level::new(data[0]),
            delay: Level::new(data[1]),
            pmd: Level::new(data[2]),
            amd: Level::new(data[3]),
            sync: field(data[4], 0, 1) == 1,
            wave: LfoWaveform::from_byte(field(data[4], 1, 7)),
            pitch_mod_sens: RangedValue::from_byte(
                RangeKind::PitchModulationSensitivity,
                field(data[4], 4, 7),
            ),
        }
    }

    /// Appends the unpacked data bytes of the LFO to `data`.
    pub fn append_bytes(&self, data: &mut Vec<u8>)
        requires
            self.wf(),
        ensures
            final(data)@ == old(data)@ + self.spec_bytes(),
    {
        data.push(self.speed.as_byte());
        data.push(self.delay.as_byte());
        data.push(self.pmd.as_byte());
        data.push(self.amd.as_byte());
        data.push(if self.sync { 1 } else { 0 });
        data.push(self.wave.to_byte());
        data.push(self.pitch_mod_sens.as_byte());
        assert(data@ =~= old(data)@ + self.spec_bytes());
    }

    /// Appends the packed data bytes of the LFO to `data`.
    pub fn append_packed_bytes(&self, data: &mut Vec<u8>)
        requires
            self.wf(),
        ensures
            final(data)@ == old(data)@ + self.spec_packed_bytes(),
    {
        data.push(self.speed.as_byte());
        data.push(self.delay.as_byte());
        data.push(self.pmd.as_byte());
        data.push(self.amd.as_byte());
        let sync_wave = put(if self.sync { 1 } else { 0 }, self.wave.to_byte(), 1);
        data.push(put(sync_wave, self.pitch_mod_sens.as_byte(), 4));
        assert(data@ =~= old(data)@ + self.spec_packed_bytes());
    }
}

impl SystemExclusiveData for Lfo {
    open spec fn data_wf(&self) -> bool {
        self.wf()
    }

    open spec fn data_bytes(&self) -> Seq<u8> {
        self.spec_bytes()
    }

    open spec fn packed_data_bytes(&self) -> Seq<u8> {
        self.spec_packed_bytes()
    }

    /// Gets the seven unpacked data bytes of the LFO.
    fn to_bytes(&self) -> (r: Vec<u8>)
        ensures
            r@ == self.spec_bytes(),
    {
        let mut data: Vec<u8> = Vec::new();
        self.append_bytes(&mut data);
        assert(data@ =~= self.spec_bytes());
        data
    }

    /// Gets the five packed data bytes of the LFO.
    fn to_packed_bytes(&self) -> (r: Vec<u8>)
        ensures
            r@ == self.spec_packed_bytes(),
    {
        let mut data: Vec<u8> = Vec::new();
        self.append_packed_bytes(&mut data);
        assert(data@ =~= self.spec_packed_bytes());
        data
    }

    fn data_size(&self) -> (r: usize) {
        LFO_SIZE
    }
}

} // verus!
