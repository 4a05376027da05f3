//! Bounded integer values for synth parameters.

use vstd::prelude::*;
use rand::Rng;
use std::ops::RangeInclusive;

verus! {

/// `v` forced into `lo..=hi`.
pub open spec fn clamp(v: int, lo: int, hi: int) -> int {
    if v < lo {
        lo
    } else if v > hi {
        hi
    } else {
        v
    }
}

/// Relies on rand's `thread_rng` and `Rng::gen_range`: a value drawn from the
/// inclusive range, which `gen_range` requires to be non-empty.
#[verifier::external_body]
pub(crate) fn random_in(range: RangeInclusive<i16>) -> (r: i16)
    requires
        range@.start <= range@.end,
        !range@.exhausted,
    ensures
        range@.start <= r <= range@.end,
{
    rand::thread_rng().gen_range(range)
}

/// Draws a value from `lo..=hi`.
pub(crate) fn random_between(lo: i16, hi: i16) -> (r: i16)
    requires
        lo <= hi,
    ensures
        lo <= r <= hi,
{
    random_in(lo..=hi)
}

/// Types whose values can be drawn at random from their range.
pub trait RandomValue {
    /// The type of the drawn value.
    type B;

    /// The primitive type behind it.
    type T;

    fn random_value() -> Self::B;
}

/// Base type for normal levels and rates (0...99).
#[derive(Debug, Clone, Copy, PartialEq, Eq, Structural)]
pub struct UnsignedLevel(u8);

/// An envelope level or an operator output level.
pub type Level = UnsignedLevel;

/// An envelope rate.
pub type Rate = UnsignedLevel;

impl View for UnsignedLevel {
    type V = u8;

    closed spec fn view(&self) -> u8 {
        self.0
    }
}

impl UnsignedLevel {
    /// The level that `new(value)` makes.
    pub closed spec fn spec_new(value: u8) -> UnsignedLevel {
        UnsignedLevel(clamp(value as int, 0, 99) as u8)
    }

    pub open spec fn wf(&self) -> bool {
        self@ <= 99
    }

    pub broadcast proof fn lemma_spec_new(value: u8)
        ensures
            (#[trigger] UnsignedLevel::spec_new(value))@ == clamp(value as int, 0, 99),
    {
    }

    /// A level is rebuilt from its own value.
    pub broadcast proof fn lemma_new_of_view(l: UnsignedLevel)
        requires
            l.wf(),
        ensures
            #[trigger] UnsignedLevel::spec_new(l@) == l,
    {
    }

    /// Makes a level, clamping the value into 0...99.
    pub fn new(value: u8) -> (r: UnsignedLevel)
        ensures
            r == UnsignedLevel::spec_new(value),
            r@ == clamp(value as int, 0, 99),
            r.wf(),
    {
        UnsignedLevel(if value > 99 { 99 } else { value })
    }

    /// Gets the level as a data byte.
    pub fn as_byte(&self) -> (r: u8)
        ensures
            r == self@,
    {
        self.0
    }

    /// Gets the level.
    pub fn value(&self) -> (r: u8)
        ensures
            r == self@,
    {
        self.0
    }
}

impl From<u8> for UnsignedLevel {
    fn from(value: u8) -> (r: UnsignedLevel) {
        UnsignedLevel::new(value)
    }
}

impl vstd::std_specs::convert::FromSpecImpl<u8> for UnsignedLevel {
    open spec fn obeys_from_spec() -> bool {
        true
    }

    open spec fn from_spec(value: u8) -> UnsignedLevel {
        UnsignedLevel::spec_new(value)
    }
}

impl Default for UnsignedLevel {
    fn default() -> (r: UnsignedLevel)
        ensures
            r@ == 0,
    {
        UnsignedLevel(0)
    }
}

impl RandomValue for UnsignedLevel {
    type B = UnsignedLevel;

    type T = u8;

    fn random_value() -> (r: UnsignedLevel)
        ensures
            r.wf(),
    {
        UnsignedLevel::new(random_between(0, 99) as u8)
    }
}

/// Algorithm number (1...32).
#[derive(Debug, Clone, Copy, PartialEq, Eq, Structural)]
pub struct Algorithm(u8);

impl View for Algorithm {
    type V = u8;

    closed spec fn view(&self) -> u8 {
        self.0
    }
}

impl Algorithm {
    /// The algorithm that `new(value)` makes.
    pub closed spec fn spec_new(value: u8) -> Algorithm {
        Algorithm(clamp(value as int, 1, 32) as u8)
    }

    pub open spec fn wf(&self) -> bool {
        1 <= self@ <= 32
    }

    pub broadcast proof fn lemma_spec_new(value: u8)
        ensures
            (#[trigger] Algorithm::spec_new(value))@ == clamp(value as int, 1, 32),
    {
    }

    /// An algorithm is rebuilt from its own number.
    pub broadcast proof fn lemma_new_of_view(a: Algorithm)
        requires
            a.wf(),
        ensures
            #[trigger] Algorithm::spec_new(a@) == a,
    {
    }

    /// The algorithm of a zero-based data byte, clamped into 1...32.
    pub closed spec fn spec_from_byte(b: u8) -> Algorithm {
        Algorithm(clamp(b + 1, 1, 32) as u8)
    }

    pub broadcast proof fn lemma_spec_from_byte(b: u8)
        ensures
            (#[trigger] Algorithm::spec_from_byte(b))@ == clamp(b + 1, 1, 32),
    {
    }

    /// An algorithm is rebuilt from its own data byte.
    pub broadcast proof fn lemma_from_byte_of_view(a: Algorithm)
        requires
            a.wf(),
        ensures
            #[trigger] Algorithm::spec_from_byte((a@ - 1) as u8) == a,
    {
    }

    /// Makes an algorithm from its zero-based data byte, clamping it.
    pub fn from_byte(b: u8) -> (r: Algorithm)
        ensures
            r == Algorithm::spec_from_byte(b),
            r.wf(),
    {
        Algorithm(if b > 31 { 32 } else { b + 1 })
    }

    /// Makes an algorithm number, clamping it into 1...32.
    pub fn new(value: u8) -> (r: Algorithm)
        ensures
            r == Algorithm::spec_new(value),
            r@ == clamp(value as int, 1, 32),
            r.wf(),
    {
        Algorithm(if value < 1 { 1 } else if value > 32 { 32 } else { value })
    }

    /// Gets the zero-based algorithm number that the data byte holds.
    pub fn as_byte(&self) -> (r: u8)
        requires
            self.wf(),
        ensures
            r == self@ - 1,
    {
        self.0 - 1
    }

    /// Gets the algorithm number.
    pub fn value(&self) -> (r: u8)
        ensures
            r == self@,
    {
        self.0
    }
}

impl From<u8> for Algorithm {
    fn from(value: u8) -> (r: Algorithm) {
        Algorithm::new(value)
    }
}

impl vstd::std_specs::convert::FromSpecImpl<u8> for Algorithm {
    open spec fn obeys_from_spec() -> bool {
        true
    }

    open spec fn from_spec(value: u8) -> Algorithm {
        Algorithm::spec_new(value)
    }
}

impl RandomValue for Algorithm {
    type B = Algorithm;

    type T = u8;

    fn random_value() -> (r: Algorithm)
        ensures
            r.wf(),
    {
        Algorithm::new(random_between(1, 32) as u8)
    }
}

/// Operator detune (-7...+7), sent as 0...14.
#[derive(Debug, Clone, Copy, PartialEq, Eq, Structural)]
pub struct Detune(i8);

impl View for Detune {
    type V = i8;

    closed spec fn view(&self) -> i8 {
        self.0
    }
}

/// The detune value that a data byte stands for: the byte 0 is -7.
pub open spec fn detune_of_byte(b: u8) -> int {
    clamp(b - 7, -7, 7)
}

impl Detune {
    /// The detune that clamps `value` into -7...7.
    pub closed spec fn spec_new(value: int) -> Detune {
        Detune(clamp(value, -7, 7) as i8)
    }

    pub open spec fn wf(&self) -> bool {
        -7 <= self@ <= 7
    }

    pub broadcast proof fn lemma_spec_new(value: int)
        ensures
            (#[trigger] Detune::spec_new(value))@ == clamp(value, -7, 7),
    {
    }

    /// A detune is rebuilt from its own value.
    pub broadcast proof fn lemma_new_of_view(d: Detune)
        requires
            d.wf(),
        ensures
            #[trigger] Detune::spec_new(d@ as int) == d,
    {
    }

    /// Makes a detune, clamping the value into -7...7.
    pub fn new(value: i8) -> (r: Detune)
        ensures
            r == Detune::spec_new(value as int),
            r.wf(),
    {
        Detune(if value < -7 { -7 } else if value > 7 { 7 } else { value })
    }

    /// Makes a detune from its data byte (0...14), clamping it.
    pub fn from_byte(b: u8) -> (r: Detune)
        ensures
            r == Detune::spec_new(detune_of_byte(b)),
            r.wf(),
    {
        Detune(if b > 14 { 7 } else { b as i8 - 7 })
    }

    /// Gets the data byte of the detune (0...14).
    pub fn as_byte(&self) -> (r: u8)
        requires
            self.wf(),
        ensures
            r == self@ + 7,
    {
        (self.0 + 7) as u8
    }

    /// Gets the detune value.
    pub fn value(&self) -> (r: i8)
        ensures
            r == self@,
    {
        self.0
    }
}

impl From<i8> for Detune {
    fn from(value: i8) -> (r: Detune) {
        Detune::new(value)
    }
}

impl vstd::std_specs::convert::FromSpecImpl<i8> for Detune {
    open spec fn obeys_from_spec() -> bool {
        true
    }

    open spec fn from_spec(value: i8) -> Detune {
        Detune::spec_new(value as int)
    }
}

impl From<i32> for Detune {
    fn from(value: i32) -> (r: Detune) {
        Detune::new(if value < -7 { -7 } else if value > 7 { 7 } else { value as i8 })
    }
}

impl vstd::std_specs::convert::FromSpecImpl<i32> for Detune {
    open spec fn obeys_from_spec() -> bool {
        true
    }

    open spec fn from_spec(value: i32) -> Detune {
        Detune::spec_new(value as int)
    }
}

impl RandomValue for Detune {
    type B = Detune;

    type T = i32;

    fn random_value() -> (r: Detune)
        ensures
            r.wf(),
    {
        Detune::new(random_between(-7, 7) as i8)
    }
}

/// Operator coarse frequency (0...31).
#[derive(Debug, Clone, Copy, PartialEq, Eq, Structural)]
pub struct Coarse(u8);

impl View for Coarse {
    type V = u8;

    closed spec fn view(&self) -> u8 {
        self.0
    }
}

impl Coarse {
    /// The coarse value that `new(value)` makes.
    pub closed spec fn spec_new(value: u8) -> Coarse {
        Coarse(clamp(value as int, 0, 31) as u8)
    }

    pub open spec fn wf(&self) -> bool {
        self@ <= 31
    }

    pub broadcast proof fn lemma_spec_new(value: u8)
        ensures
            (#[trigger] Coarse::spec_new(value))@ == clamp(value as int, 0, 31),
    {
    }

    /// A coarse value is rebuilt from itself.
    pub broadcast proof fn lemma_new_of_view(c: Coarse)
        requires
            c.wf(),
        ensures
            #[trigger] Coarse::spec_new(c@) == c,
    {
    }

    /// Makes a coarse value, clamping it into 0...31.
    pub fn new(value: u8) -> (r: Coarse)
        ensures
            r == Coarse::spec_new(value),
            r@ == clamp(value as int, 0, 31),
            r.wf(),
    {
        Coarse(if value > 31 { 31 } else { value })
    }

    /// Gets the data byte of the coarse value.
    pub fn as_byte(&self) -> (r: u8)
        ensures
            r == self@,
    {
        self.0
    }

    /// Gets the coarse value.
    pub fn value(&self) -> (r: u8)
        ensures
            r == self@,
    {
        self.0
    }
}

impl From<u8> for Coarse {
    fn from(value: u8) -> (r: Coarse) {
        Coarse::new(value)
    }
}

impl vstd::std_specs::convert::FromSpecImpl<u8> for Coarse {
    open spec fn obeys_from_spec() -> bool {
        true
    }

    open spec fn from_spec(value: u8) -> Coarse {
        Coarse::spec_new(value)
    }
}

/// The kind of range that a ranged value has.
#[derive(Debug, Copy, Clone, PartialEq, Eq, Structural)]
pub enum RangeKind {
    OutputLevel,
    Rate,
    Level,
    Coarse,
    Fine,
    Algorithm,
    Detune,
    PitchModulationSensitivity,
}

/// The least value of a kind.
pub open spec fn kind_min(kind: RangeKind) -> i16 {
    match kind {
        RangeKind::Algorithm => 1,
        RangeKind::Detune => -7i16,
        _ => 0,
    }
}

/// The greatest value of a kind.
pub open spec fn kind_max(kind: RangeKind) -> i16 {
    match kind {
        RangeKind::Coarse => 31,
        RangeKind::Algorithm => 32,
        RangeKind::Detune => 7,
        RangeKind::PitchModulationSensitivity => 7,
        _ => 99,
    }
}

/// The value that a data byte stands for: kinds that reach below zero send
/// `value - min`, so that the byte 0 is the least value.
pub open spec fn value_of_byte(kind: RangeKind, b: u8) -> int {
    if kind_min(kind) < 0 {
        b + kind_min(kind)
    } else {
        b as int
    }
}

/// The data byte of a value; the inverse of `value_of_byte`.
pub open spec fn byte_of_value(kind: RangeKind, v: i16) -> int {
    if kind_min(kind) < 0 {
        v - kind_min(kind)
    } else {
        v as int
    }
}

/// An inclusive range of parameter values.
pub type IntRange = RangeInclusive<i16>;

#[derive(Copy, Clone, Debug, PartialEq, Eq, Structural)]
struct RangeInclusiveWrapper {
    start: i16,
    end: i16,
}

/// A value in the range of its kind of synth parameter.
#[derive(Debug, Copy, Clone, PartialEq, Eq, Structural)]
pub struct RangedValue {
    kind: RangeKind,
    value: i16,
    range: RangeInclusiveWrapper,
}

impl RangedValue {
    pub closed spec fn spec_kind(&self) -> RangeKind {
        self.kind
    }

    pub closed spec fn spec_get(&self) -> i16 {
        self.value
    }

    /// The stored bounds are those of the kind.
    pub closed spec fn bounds_of_kind(&self) -> bool {
        self.range.start == kind_min(self.kind) && self.range.end == kind_max(self.kind)
    }

    pub open spec fn wf(&self) -> bool {
        &&& self.bounds_of_kind()
        &&& kind_min(self.spec_kind()) <= self.spec_get() <= kind_max(self.spec_kind())
    }

    /// The value of `kind` that clamps `value` into its range.
    pub closed spec fn spec_from_int(kind: RangeKind, value: int) -> RangedValue {
        RangedValue {
            kind,
            value: clamp(value, kind_min(kind) as int, kind_max(kind) as int) as i16,
            range: RangeInclusiveWrapper { start: kind_min(kind), end: kind_max(kind) },
        }
    }

    pub broadcast proof fn lemma_spec_from_int(kind: RangeKind, value: int)
        ensures
            #![trigger RangedValue::spec_from_int(kind, value)]
            RangedValue::spec_from_int(kind, value).wf(),
            RangedValue::spec_from_int(kind, value).spec_kind() == kind,
            RangedValue::spec_from_int(kind, value).spec_get() == clamp(
                value,
                kind_min(kind) as int,
                kind_max(kind) as int,
            ),
    {
    }

    /// A ranged value is rebuilt from its kind and value.
    pub broadcast proof fn lemma_from_int_of_get(v: RangedValue)
        requires
            v.wf(),
        ensures
            #[trigger] RangedValue::spec_from_int(v.spec_kind(), v.spec_get() as int) == v,
    {
    }

    fn make_range(kind: RangeKind) -> (r: RangeInclusiveWrapper)
        ensures
            r.start == kind_min(kind),
            r.end == kind_max(kind),
    {
        match kind {
            RangeKind::OutputLevel => RangeInclusiveWrapper { start: 0, end: 99 },
            RangeKind::Rate => RangeInclusiveWrapper { start: 0, end: 99 },
            RangeKind::Level => RangeInclusiveWrapper { start: 0, end: 99 },
            RangeKind::Coarse => RangeInclusiveWrapper { start: 0, end: 31 },
            RangeKind::Fine => RangeInclusiveWrapper { start: 0, end: 99 },
            RangeKind::Algorithm => RangeInclusiveWrapper { start: 1, end: 32 },
            RangeKind::Detune => RangeInclusiveWrapper { start: -7, end: 7 },
            RangeKind::PitchModulationSensitivity => RangeInclusiveWrapper { start: 0, end: 7 },
        }
    }

    /// Makes a value of `kind` from its data byte, clamping it into the range.
    pub fn from_byte(kind: RangeKind, initial_value: u8) -> (r: RangedValue)
        ensures
            r == RangedValue::spec_from_int(kind, value_of_byte(kind, initial_value)),
            r.wf(),
    {
        let range = RangedValue::make_range(kind);
        let raw: i16 = if range.start < 0 {
            initial_value as i16 + range.start
        } else {
            initial_value as i16
        };
        let value: i16 = if raw < range.start {
            range.start
        } else if raw > range.end {
            range.end
        } else {
            raw
        };
        RangedValue { kind, value, range }
    }

    /// Makes a value of `kind`, clamping `initial_value` into the range.
    pub fn from_int(kind: RangeKind, initial_value: i16) -> (r: RangedValue)
        ensures
            r == RangedValue::spec_from_int(kind, initial_value as int),
            r.wf(),
    {
        let range = RangedValue::make_range(kind);
        let value: i16 = if initial_value < range.start {
            range.start
        } else if initial_value > range.end {
            range.end
        } else {
            initial_value
        };
        RangedValue { kind, value, range }
    }

    /// Makes a value at the start of the range of `kind`.
    pub fn new_min(kind: RangeKind) -> (r: RangedValue)
        ensures
            r.wf(),
            r.spec_kind() == kind,
            r.spec_get() == kind_min(kind),
    {
        let range = RangedValue::make_range(kind);
        RangedValue { kind, range, value: range.start }
    }

    /// Makes a value at the end of the range of `kind`.
    pub fn new_max(kind: RangeKind) -> (r: RangedValue)
        ensures
            r.wf(),
            r.spec_kind() == kind,
            r.spec_get() == kind_max(kind),
    {
        let range = RangedValue::make_range(kind);
        RangedValue { kind, range, value: range.end }
    }

    /// Gets the range of this value.
    pub fn range(&self) -> (r: IntRange)
        requires
            self.wf(),
        ensures
            r@.start == kind_min(self.spec_kind()),
            r@.end == kind_max(self.spec_kind()),
            !r@.exhausted,
    {
        self.range.start..=self.range.end
    }

    /// Gets the kind of this value.
    pub fn kind(&self) -> (r: RangeKind)
        ensures
            r == self.spec_kind(),
    {
        self.kind
    }

    /// Gets the current value.
    pub fn get(&self) -> (r: i16)
        ensures
            r == self.spec_get(),
    {
        self.value
    }

    /// Sets the current value, clamping it into the range.
    pub fn set(&mut self, new_value: i16)
        requires
            old(self).wf(),
        ensures
            *final(self) == RangedValue::spec_from_int(old(self).spec_kind(), new_value as int),
    {
        self.value =
            if new_value < self.range.start {
                self.range.start
            } else if new_value > self.range.end {
                self.range.end
            } else {
                new_value
            };
    }

    /// Gets the data byte of the value.
    pub fn as_byte(&self) -> (r: u8)
        requires
            self.wf(),
        ensures
            r == byte_of_value(self.spec_kind(), self.spec_get()),
    {
        if self.range.start < 0 {
            (self.value - self.range.start) as u8
        } else {
            self.value as u8
        }
    }

    /// Draws a value from the range of this value.
    pub fn random_value(&self) -> (r: i16)
        requires
            self.wf(),
        ensures
            kind_min(self.spec_kind()) <= r <= kind_max(self.spec_kind()),
    {
        random_between(self.range.start, self.range.end)
    }

    /// Draws a value from `subrange`, which lies within the range of this value.
    pub fn random_value_restricted(&self, subrange: IntRange) -> (r: i16)
        requires
            self.wf(),
            kind_min(self.spec_kind()) <= subrange@.start,
            subrange@.start <= subrange@.end,
            subrange@.end <= kind_max(self.spec_kind()),
            !subrange@.exhausted,
        ensures
            subrange@.start <= r <= subrange@.end,
    {
        random_in(subrange)
    }
}

impl Default for RangedValue {
    fn default() -> (r: RangedValue)
        ensures
            r.wf(),
            r.spec_kind() == RangeKind::OutputLevel,
            r.spec_get() == 0,
    {
        RangedValue {
            kind: RangeKind::OutputLevel,
            value: 0,
            range: RangedValue::make_range(RangeKind::OutputLevel),
        }
    }
}

pub broadcast group group_ranged_lemmas {
    RangedValue::lemma_spec_from_int,
    RangedValue::lemma_from_int_of_get,
    UnsignedLevel::lemma_spec_new,
    UnsignedLevel::lemma_new_of_view,
    Algorithm::lemma_spec_new,
    Algorithm::lemma_new_of_view,
    Algorithm::lemma_spec_from_byte,
    Algorithm::lemma_from_byte_of_view,
    Detune::lemma_spec_new,
    Detune::lemma_new_of_view,
    Coarse::lemma_spec_new,
    Coarse::lemma_new_of_view,
}

} // verus!
