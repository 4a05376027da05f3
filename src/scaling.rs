//! Keyboard level scaling: a breakpoint, a depth and a curve on each side of it.

use vstd::prelude::*;
use crate::layout::SystemExclusiveData;
use crate::bits::{field, lemma_two_fields, put, spec_field, spec_put};

verus! {

/// Scaling curve style.
#[derive(Debug, Copy, Clone, PartialEq, Eq, Structural)]
pub enum CurveStyle {
    Linear,
    Exponential,
}

/// Scaling curve settings.
#[derive(Debug, Copy, Clone, PartialEq, Eq, Structural)]
pub struct ScalingCurve {
    pub curve: CurveStyle,
    /// True if positive, false if negative.
    pub positive: bool,
}

/// The data value of a curve: -LIN 0, -EXP 1, +EXP 2, +LIN 3.
pub open spec fn curve_code(c: ScalingCurve) -> u8 {
    match c.curve {
        CurveStyle::Linear => if c.positive { 3 } else { 0 },
        CurveStyle::Exponential => if c.positive { 2 } else { 1 },
    }
}

/// The curve of a data value; values above 3 are read as +LIN.
pub open spec fn curve_of_code(b: u8) -> ScalingCurve {
    if b == 0 {
        ScalingCurve { curve: CurveStyle::Linear, positive: false }
    } else if b == 1 {
        ScalingCurve { curve: CurveStyle::Exponential, positive: false }
    } else if b == 2 {
        ScalingCurve { curve: CurveStyle::Exponential, positive: true }
    } else {
        ScalingCurve { curve: CurveStyle::Linear, positive: true }
    }
}

/// The byte that holds both curves of the packed layout: the left curve in
/// bits 0-1, the right curve in bits 2-3.
pub open spec fn spec_pack_curves(left: ScalingCurve, right: ScalingCurve) -> u8 {
    spec_put(curve_code(left), curve_code(right), 2)
}

/// The two curves that a packed curve byte holds.
pub open spec fn spec_unpack_curves(b: u8) -> (ScalingCurve, ScalingCurve) {
    (curve_of_code(spec_field(b, 0, 3)), curve_of_code(spec_field(b, 2, 3)))
}

/// Each curve is read back from its own data value.
pub proof fn lemma_curve_code(c: ScalingCurve)
    ensures
        curve_code(c) <= 3,
        curve_of_code(curve_code(c)) == c,
{
}

/// Every pair of curves is read back from the packed byte that holds it.
pub proof fn lemma_curve_pair_round_trip(left: ScalingCurve, right: ScalingCurve)
    ensures
        spec_unpack_curves(spec_pack_curves(left, right)) == (left, right),
{
    lemma_two_fields(curve_code(left), curve_code(right), 2, 3);
}

/// Packs two curves into one byte, the left curve in the low bits.
pub fn pack_curves(left: ScalingCurve, right: ScalingCurve) -> (r: u8)
    ensures
        r == spec_pack_curves(left, right),
{
    put(left.to_bytes(), right.to_bytes(), 2)
}

/// Reads the left and right curve of a packed curve byte.
pub fn unpack_curves(b: u8) -> (r: (ScalingCurve, ScalingCurve))
    ensures
        r == spec_unpack_curves(b),
{
    (ScalingCurve::from_byte(field(b, 0, 3)), ScalingCurve::from_byte(field(b, 2, 3)))
}

impl ScalingCurve {
    /// Makes a linear positive scaling curve.
    pub fn lin_pos() -> (r: ScalingCurve)
        ensures
            r == (ScalingCurve { curve: CurveStyle::Linear, positive: true }),
    {
        ScalingCurve { curve: CurveStyle::Linear, positive: true }
    }

    /// Makes a linear negative scaling curve.
    pub fn lin_neg() -> (r: ScalingCurve)
        ensures
            r == (ScalingCurve { curve: CurveStyle::Linear, positive: false }),
    {
        ScalingCurve { curve: CurveStyle::Linear, positive: false }
    }

    /// Makes an exponential positive scaling curve.
    pub fn exp_pos() -> (r: ScalingCurve)
        ensures
            r == (ScalingCurve { curve: CurveStyle::Exponential, positive: true }),
    {
        ScalingCurve { curve: CurveStyle::Exponential, positive: true }
    }

    /// Makes an exponential negative scaling curve.
    pub fn exp_neg() -> (r: ScalingCurve)
        ensures
            r == (ScalingCurve { curve: CurveStyle::Exponential, positive: false }),
    {
        ScalingCurve { curve: CurveStyle::Exponential, positive: false }
    }

    /// Gets the data value of this scaling curve.
    pub fn to_bytes(&self) -> (r: u8)
        ensures
            r == curve_code(*self),
            r <= 3,
    {
        match (self.curve, self.positive) {
            (CurveStyle::Linear, true) => 3,
            (CurveStyle::Linear, false) => 0,
            (CurveStyle::Exponential, true) => 2,
            (CurveStyle::Exponential, false) => 1,
        }
    }

    /// Makes a scaling curve from its data value.
    pub fn from_byte(b: u8) -> (r: ScalingCurve)
        ensures
            r == curve_of_code(b),
    {
        match b {
            0 => ScalingCurve::lin_neg(),
            1 => ScalingCurve::exp_neg(),
            2 => ScalingCurve::exp_pos(),
            _ => ScalingCurve::lin_pos(),
        }
    }
}

/// Keyboard level scaling.
#[derive(Debug, Copy, Clone, PartialEq, Eq, Structural)]
pub struct KeyboardLevelScaling {
    /// 0 ~ 99 (A-1 ~ C8); MIDI note 21 is 0, so middle C (60) is 39.
    pub breakpoint: u8,
    pub left_depth: u8,
    pub right_depth: u8,
    pub left_curve: ScalingCurve,
    pub right_curve: ScalingCurve,
}

/// The size of keyboard level scaling in the unpacked layout.
pub const SCALING_SIZE: usize = 5;

/// The size of keyboard level scaling in the packed layout.
pub const SCALING_PACKED_SIZE: usize = 4;

impl KeyboardLevelScaling {
    /// The unpacked data bytes: breakpoint, depths, then one byte per curve.
    pub open spec fn spec_bytes(&self) -> Seq<u8> {
        seq![
            self.breakpoint,
            self.left_depth,
            self.right_depth,
            curve_code(self.left_curve),
            curve_code(self.right_curve),
        ]
    }

    /// The packed data bytes: breakpoint, depths, then both curves in one byte.
    pub open spec fn spec_packed_bytes(&self) -> Seq<u8> {
        seq![
            self.breakpoint,
            self.left_depth,
            self.right_depth,
            spec_pack_curves(self.left_curve, self.right_curve),
        ]
    }

    /// The scaling that five unpacked data bytes describe.
    pub open spec fn spec_from_bytes(s: Seq<u8>) -> KeyboardLevelScaling {
        KeyboardLevelScaling {
            breakpoint: s[0],
            left_depth: s[1],
            right_depth: s[2],
            left_curve: curve_of_code(s[3]),
            right_curve: curve_of_code(s[4]),
        }
    }

    /// The scaling that four packed data bytes describe.
    pub open spec fn spec_from_packed_bytes(s: Seq<u8>) -> KeyboardLevelScaling {
        KeyboardLevelScaling {
            breakpoint: s[0],
            left_depth: s[1],
            right_depth: s[2],
            left_curve: spec_unpack_curves(s[3]).0,
            right_curve: spec_unpack_curves(s[3]).1,
        }
    }

    /// Decoding either layout of a scaling gives it back.
    pub proof fn lemma_round_trip(&self)
        ensures
            KeyboardLevelScaling::spec_from_bytes(self.spec_bytes()) == *self,
            KeyboardLevelScaling::spec_from_packed_bytes(self.spec_packed_bytes()) == *self,
    {
        lemma_curve_code(self.left_curve);
        lemma_curve_code(self.right_curve);
        lemma_curve_pair_round_trip(self.left_curve, self.right_curve);
    }

    /// The defaults of a new voice: breakpoint at middle C, no depth, -LIN curves.
    pub open spec fn spec_new() -> KeyboardLevelScaling {
        KeyboardLevelScaling {
            breakpoint: 39,
            left_depth: 0,
            right_depth: 0,
            left_curve: ScalingCurve { curve: CurveStyle::Linear, positive: false },
            right_curve: ScalingCurve { curve: CurveStyle::Linear, positive: false },
        }
    }

    /// Makes keyboard level scaling with the defaults of a new voice.
    pub fn new() -> (r: KeyboardLevelScaling)
        ensures
            r == KeyboardLevelScaling::spec_new(),
    {
        KeyboardLevelScaling {
            breakpoint: 60 - 21,
            left_depth: 0,
            right_depth: 0,
            left_curve: ScalingCurve::lin_neg(),
            right_curve: ScalingCurve::lin_neg(),
        }
    }

    /// Makes keyboard level scaling from its five unpacked data bytes.
    pub fn from_bytes(data: &[u8]) -> (r: KeyboardLevelScaling)
        requires
            data@.len() == SCALING_SIZE,
        ensures
            r == KeyboardLevelScaling::spec_from_bytes(data@),
    {
        KeyboardLevelScaling {
            breakpoint: data[0],
            left_depth: data[1],
            right_depth: data[2],
            left_curve: ScalingCurve::from_byte(data[3]),
            right_curve: ScalingCurve::from_byte(data[4]),
        }
    }

    /// Makes keyboard level scaling from its four packed data bytes.
    pub fn from_packed_bytes(data: &[u8]) -> (r: KeyboardLevelScaling)
        requires
            data@.len() == SCALING_PACKED_SIZE,
        ensures
            r == KeyboardLevelScaling::spec_from_packed_bytes(data@),
    {
        let (left_curve, right_curve) = unpack_curves(data[3]);
        KeyboardLevelScaling {
            breakpoint: data[0],
            left_depth: data[1],
            right_depth: data[2],
            left_curve,
            right_curve,
        }
    }

    /// Appends the unpacked data bytes to `data`.
    pub fn append_bytes(&self, data: &mut Vec<u8>)
        ensures
            final(data)@ == old(data)@ + self.spec_bytes(),
    {
        data.push(self.breakpoint);
        data.push(self.left_depth);
        data.push(self.right_depth);
        data.push(self.left_curve.to_bytes());
        data.push(self.right_curve.to_bytes());
        assert(data@ =~= old(data)@ + self.spec_bytes());
    }

    /// Appends the packed data bytes to `data`.
    pub fn append_packed_bytes(&self, data: &mut Vec<u8>)
        ensures
            final(data)@ == old(data)@ + self.spec_packed_bytes(),
    {
        data.push(self.breakpoint);
        data.push(self.left_depth);
        data.push(self.right_depth);
        data.push(pack_curves(self.left_curve, self.right_curve));
        assert(data@ =~= old(data)@ + self.spec_packed_bytes());
    }
}

impl SystemExclusiveData for KeyboardLevelScaling {
    open spec fn data_wf(&self) -> bool {
        true
    }

    open spec fn data_bytes(&self) -> Seq<u8> {
        self.spec_bytes()
    }

    open spec fn packed_data_bytes(&self) -> Seq<u8> {
        self.spec_packed_bytes()
    }

    /// Gets the unpacked data bytes.
    fn to_bytes(&self) -> (r: Vec<u8>)
        ensures
            r@ == self.spec_bytes(),
    {
        let mut data: Vec<u8> = Vec::new();
        self.append_bytes(&mut data);
        assert(data@ =~= self.spec_bytes());
        data
    }

    /// Gets the packed data bytes.
    fn to_packed_bytes(&self) -> (r: Vec<u8>)
        ensures
            r@ == self.spec_packed_bytes(),
    {
        let mut data: Vec<u8> = Vec::new();
        self.append_packed_bytes(&mut data);
        assert(data@ =~= self.spec_packed_bytes());
        data
    }

    fn data_size(&self) -> (r: usize) {
        SCALING_SIZE
    }
}

} // verus!
