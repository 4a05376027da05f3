//! Operators: one oscillator with its envelope and scaling each.

use vstd::prelude::*;
use crate::layout::SystemExclusiveData;
use crate::bits::{field, lemma_two_fields, put, spec_field, spec_put};
use crate::envelope::Envelope;
use crate::ranged::{
    clamp, detune_of_byte, group_ranged_lemmas, Coarse, Detune, Level, RangeKind, RangedValue,
    UnsignedLevel,
};
use crate::scaling::KeyboardLevelScaling;

verus! {

broadcast use group_ranged_lemmas;

/// Operator mode.
#[derive(Debug, Copy, Clone, PartialEq, Eq, Structural)]
pub enum OperatorMode {
    Ratio,
    Fixed,
}

/// The data value of a mode: 0 for ratio, 1 for fixed.
pub open spec fn mode_code(m: OperatorMode) -> u8 {
    match m {
        OperatorMode::Ratio => 0,
        OperatorMode::Fixed => 1,
    }
}

/// The mode of a data value; any value but 1 is ratio.
pub open spec fn mode_of_code(b: u8) -> OperatorMode {
    if b == 1 {
        OperatorMode::Fixed
    } else {
        OperatorMode::Ratio
    }
}

impl OperatorMode {
    /// Gets the data value of the mode.
    pub fn to_byte(&self) -> (r: u8)
        ensures
            r == mode_code(*self),
            r <= 1,
    {
        match self {
            OperatorMode::Ratio => 0,
            OperatorMode::Fixed => 1,
        }
    }

    /// Makes a mode from its data value.
    pub fn from_byte(b: u8) -> (r: OperatorMode)
        ensures
            r == mode_of_code(b),
    {
        if b == 1 {
            OperatorMode::Fixed
        } else {
            OperatorMode::Ratio
        }
    }
}

/// Operator.
#[derive(Debug, Copy, Clone, PartialEq, Eq, Structural)]
pub struct Operator {
    pub eg: Envelope,
    pub kbd_level_scaling: KeyboardLevelScaling,
    /// 0 ~ 7
    pub kbd_rate_scaling: u8,
    /// 0 ~ 3
    pub amp_mod_sens: u8,
    /// 0 ~ 7
    pub key_vel_sens: u8,
    pub output_level: Level,
    pub mode: OperatorMode,
    pub coarse: Coarse,
    pub fine: Level,
    pub detune: Detune,
}

/// The size of an operator in the unpacked layout.
pub const OPERATOR_SIZE: usize = 21;

/// The size of an operator in the packed layout.
pub const OPERATOR_PACKED_SIZE: usize = 17;

impl Operator {
    pub open spec fn wf(&self) -> bool {
        &&& self.eg.wf()
        &&& self.kbd_rate_scaling <= 7
        &&& self.amp_mod_sens <= 3
        &&& self.key_vel_sens <= 7
        &&& self.output_level.wf()
        &&& self.coarse.wf()
        &&& self.fine.wf()
        &&& self.detune.wf()
    }

    /// The unpacked data bytes: envelope, scaling, then one byte per field.
    pub open spec fn spec_bytes(&self) -> Seq<u8> {
        self.eg.spec_bytes() + self.kbd_level_scaling.spec_bytes() + seq![
            self.kbd_rate_scaling,
            self.amp_mod_sens,
            self.key_vel_sens,
            self.output_level@,
            mode_code(self.mode),
            self.coarse@,
            self.fine@,
            (self.detune@ + 7) as u8,
        ]
    }

    /// The packed data bytes. The envelope keeps its layout; rate scaling
    /// shares a byte with detune, amplitude modulation sensitivity with key
    /// velocity sensitivity, and the mode with the coarse frequency.
    pub open spec fn spec_packed_bytes(&self) -> Seq<u8> {
        self.eg.spec_bytes() + self.kbd_level_scaling.spec_packed_bytes() + seq![
            spec_put(self.kbd_rate_scaling, (self.detune@ + 7) as u8, 3),
            spec_put(self.amp_mod_sens, self.key_vel_sens, 2),
            self.output_level@,
            spec_put(mode_code(self.mode), self.coarse@, 1),
            self.fine@,
        ]
    }

    /// The operator that 21 unpacked data bytes describe, each field clamped
    /// into its range.
    pub open spec fn spec_from_bytes(s: Seq<u8>) -> Operator {
        Operator {
            eg: Envelope::spec_from_bytes(s.subrange(0, 8)),
            kbd_level_scaling: KeyboardLevelScaling::spec_from_bytes(s.subrange(8, 13)),
            kbd_rate_scaling: clamp(s[13] as int, 0, 7) as u8,
            amp_mod_sens: clamp(s[14] as int, 0, 3) as u8,
            key_vel_sens: clamp(s[15] as int, 0, 7) as u8,
            output_level: UnsignedLevel::spec_new(s[16]),
            mode: mode_of_code(s[17]),
            coarse: Coarse::spec_new(s[18]),
            fine: UnsignedLevel::spec_new(s[19]),
            detune: Detune::spec_new(detune_of_byte(s[20])),
        }
    }

    /// The operator that 17 packed data bytes describe.
    pub open spec fn spec_from_packed_bytes(s: Seq<u8>) -> Operator {
        Operator {
            eg: Envelope::spec_from_bytes(s.subrange(0, 8)),
            kbd_level_scaling: KeyboardLevelScaling::spec_from_packed_bytes(s.subrange(8, 12)),
            kbd_rate_scaling: spec_field(s[12], 0, 7),
            amp_mod_sens: spec_field(s[13], 0, 3),
            key_vel_sens: spec_field(s[13], 2, 7),
            output_level: UnsignedLevel::spec_new(s[14]),
            mode: mode_of_code(spec_field(s[15], 0, 1)),
            coarse: Coarse::spec_new(spec_field(s[15], 1, 31)),
            fine: UnsignedLevel::spec_new(s[16]),
            detune: Detune::spec_new(detune_of_byte(spec_field(s[12], 3, 15))),
        }
    }

    /// The sizes of the two layouts.
    pub proof fn lemma_sizes(&self)
        ensures
            self.spec_bytes().len() == OPERATOR_SIZE,
            self.spec_packed_bytes().len() == OPERATOR_PACKED_SIZE,
    {
    }

    /// Decoding either layout of a well-formed operator gives it back.
    pub proof fn lemma_round_trip(&self)
        requires
            self.wf(),
        ensures
            self.spec_bytes().len() == OPERATOR_SIZE,
            self.spec_packed_bytes().len() == OPERATOR_PACKED_SIZE,
            Operator::spec_from_bytes(self.spec_bytes()) == *self,
            Operator::spec_from_packed_bytes(self.spec_packed_bytes()) == *self,
    {
        let s = self.spec_bytes();
        let p = self.spec_packed_bytes();
        assert(s.subrange(0, 8) =~= self.eg.spec_bytes());
        assert(s.subrange(8, 13) =~= self.kbd_level_scaling.spec_bytes());
        assert(p.subrange(0, 8) =~= self.eg.spec_bytes());
        assert(p.subrange(8, 12) =~= self.kbd_level_scaling.spec_packed_bytes());
        self.eg.lemma_round_trip();
        self.kbd_level_scaling.lemma_round_trip();
        lemma_two_fields(self.kbd_rate_scaling, (self.detune@ + 7) as u8, 3, 15);
        lemma_two_fields(self.amp_mod_sens, self.key_vel_sens, 2, 7);
        lemma_two_fields(mode_code(self.mode), self.coarse@, 1, 31);
    }

    /// The defaults of a new voice: a full envelope, no output, coarse 1.
    pub open spec fn spec_new() -> Operator {
        Operator {
            eg: Envelope::spec_rate_level((99, 99, 99, 99), (99, 99, 99, 0)),
            kbd_level_scaling: KeyboardLevelScaling::spec_new(),
            kbd_rate_scaling: 0,
            amp_mod_sens: 0,
            key_vel_sens: 0,
            output_level: UnsignedLevel::spec_new(0),
            mode: OperatorMode::Ratio,
            coarse: Coarse::spec_new(1),
            fine: UnsignedLevel::spec_new(0),
            detune: Detune::spec_new(0),
        }
    }

    /// Makes an operator with the defaults of a new voice.
    pub fn new() -> (r: Operator)
        ensures
            r == Operator::spec_new(),
            r.wf(),
    {
        Operator {
            eg: Envelope::new(),
            kbd_level_scaling: KeyboardLevelScaling::new(),
            kbd_rate_scaling: 0,
            amp_mod_sens: 0,
            key_vel_sens: 0,
            output_level: Level::new(0),
            mode: OperatorMode::Ratio,
            coarse: Coarse::new(1),
            fine: Level::new(0),
            detune: Detune::new(0),
        }
    }

    /// Makes a random output level.
    pub fn new_random_output_level() -> (r: RangedValue)
        ensures
            r.wf(),
            r.spec_kind() == RangeKind::OutputLevel,
    {
        let output_level = RangedValue::new_min(RangeKind::OutputLevel);
        RangedValue::from_int(RangeKind::OutputLevel, output_level.random_value())
    }

    /// Makes an operator from its 21 unpacked data bytes.
    pub fn from_bytes(data: &[u8]) -> (r: Operator)
        requires
            data@.len() == OPERATOR_SIZE,
        ensures
            r == Operator::spec_from_bytes(data@),
            r.wf(),
    {
        Operator {
            eg: Envelope::from_bytes(&data[0..8]),
            kbd_level_scaling: KeyboardLevelScaling::from_bytes(&data[8..13]),
            kbd_rate_scaling: if data[13] > 7 { 7 } else { data[13] },
            amp_mod_sens: if data[14] > 3 { 3 } else { data[14] },
            key_vel_sens: if data[15] > 7 { 7 } else { data[15] },
            output_level: Level::new(data[16]),
            mode: OperatorMode::from_byte(data[17]),
            coarse: Coarse::new(data[18]),
            fine: Level::new(data[19]),
            detune: Detune::from_byte(data[20]),
        }
    }

    /// Makes an operator from its 17 packed data bytes.
    pub fn from_packed_bytes(data: &[u8]) -> (r: Operator)
        requires
            data@.len() == OPERATOR_PACKED_SIZE,
        ensures
            r == Operator::spec_from_packed_bytes(data@),
            r.wf(),
    {
        Operator {
            eg: Envelope::from_bytes(&data[0..8]),
            kbd_level_scaling: KeyboardLevelScaling::from_packed_bytes(&data[8..12]),
            kbd_rate_scaling: field(data[12], 0, 7),
            amp_mod_sens: field(data[13], 0, 3),
            key_vel_sens: field(data[13], 2, 7),
            output_level: Level::new(data[14]),
            mode: OperatorMode::from_byte(field(data[15], 0, 1)),
            coarse: Coarse::new(field(data[15], 1, 31)),
            fine: Level::new(data[16]),
            detune: Detune::from_byte(field(data[12], 3, 15)),
        }
    }

    /// Appends the unpacked data bytes of the operator to `data`.
    pub fn append_bytes(&self, data: &mut Vec<u8>)
        requires
            self.wf(),
        ensures
            final(data)@ == old(data)@ + self.spec_bytes(),
    {
        self.eg.append_bytes(data);
        self.kbd_level_scaling.append_bytes(data);
        data.push(self.kbd_rate_scaling);
        data.push(self.amp_mod_sens);
        data.push(self.key_vel_sens);
        data.push(self.output_level.as_byte());
        data.push(self.mode.to_byte());
        data.push(self.coarse.as_byte());
        data.push(self.fine.as_byte());
        data.push(self.detune.as_byte());
        assert(data@ =~= old(data)@ + self.spec_bytes());
    }

    /// Appends the packed data bytes of the operator to `data`.
    pub fn append_packed_bytes(&self, data: &mut Vec<u8>)
        requires
            self.wf(),
        ensures
            final(data)@ == old(data)@ + self.spec_packed_bytes(),
    {
        self.eg.append_bytes(data);
        self.kbd_level_scaling.append_packed_bytes(data);
        data.push(put(self.kbd_rate_scaling, self.detune.as_byte(), 3));
        data.push(put(self.amp_mod_sens, self.key_vel_sens, 2));
        data.push(self.output_level.as_byte());
        data.push(put(self.mode.to_byte(), self.coarse.as_byte(), 1));
        data.push(self.fine.as_byte());
        assert(data@ =~= old(data)@ + self.spec_packed_bytes());
    }
}

impl SystemExclusiveData for Operator {
    open spec fn data_wf(&self) -> bool {
        self.wf()
    }

    open spec fn data_bytes(&self) -> Seq<u8> {
        self.spec_bytes()
    }

    open spec fn packed_data_bytes(&self) -> Seq<u8> {
        self.spec_packed_bytes()
    }

    /// Gets the 21 unpacked data bytes of the operator.
    fn to_bytes(&self) -> (r: Vec<u8>)
        ensures
            r@ == self.spec_bytes(),
            r@.len() == OPERATOR_SIZE,
    {
        let mut data: Vec<u8> = Vec::new();
        self.append_bytes(&mut data);
        assert(data@ =~= self.spec_bytes());
        data
    }

    /// Gets the 17 packed data bytes of the operator.
    fn to_packed_bytes(&self) -> (r: Vec<u8>)
        ensures
            r@ == self.spec_packed_bytes(),
            r@.len() == OPERATOR_PACKED_SIZE,
    {
        let mut data: Vec<u8> = Vec::new();
        self.append_packed_bytes(&mut data);
        assert(data@ =~= self.spec_packed_bytes());
        data
    }

    fn data_size(&self) -> (r: usize) {
        OPERATOR_SIZE
    }
}

} // verus!
