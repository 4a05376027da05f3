//! Envelope generators: four rates and four levels.

use vstd::prelude::*;
use crate::layout::SystemExclusiveData;
use crate::ranged::{group_ranged_lemmas, Level, RandomValue, Rate, UnsignedLevel};

verus! {

broadcast use group_ranged_lemmas;

/// Four envelope rates, for building an envelope.
pub struct Rates(pub u8, pub u8, pub u8, pub u8);

/// Four envelope levels, for building an envelope.
pub struct Levels(pub u8, pub u8, pub u8, pub u8);

/// Envelope generator.
#[derive(Debug, Clone, Copy, PartialEq, Eq, Structural)]
pub struct Envelope {
    pub rate1: Rate,
    pub rate2: Rate,
    pub rate3: Rate,
    pub rate4: Rate,
    pub level1: Level,
    pub level2: Level,
    pub level3: Level,
    pub level4: Level,
}

/// The data size of an envelope, the same in both layouts.
pub const ENVELOPE_SIZE: usize = 8;

impl Envelope {
    pub open spec fn wf(&self) -> bool {
        &&& self.rate1.wf()
        &&& self.rate2.wf()
        &&& self.rate3.wf()
        &&& self.rate4.wf()
        &&& self.level1.wf()
        &&& self.level2.wf()
        &&& self.level3.wf()
        &&& self.level4.wf()
    }

    /// The envelope that `new_rate_level` makes of these values.
    pub open spec fn spec_rate_level(r: (u8, u8, u8, u8), l: (u8, u8, u8, u8)) -> Envelope {
        Envelope {
            rate1: UnsignedLevel::spec_new(r.0),
            rate2: UnsignedLevel::spec_new(r.1),
            rate3: UnsignedLevel::spec_new(r.2),
            rate4: UnsignedLevel::spec_new(r.3),
            level1: UnsignedLevel::spec_new(l.0),
            level2: UnsignedLevel::spec_new(l.1),
            level3: UnsignedLevel::spec_new(l.2),
            level4: UnsignedLevel::spec_new(l.3),
        }
    }

    /// The data bytes: rates 1 to 4, then levels 1 to 4.
    pub open spec fn spec_bytes(&self) -> Seq<u8> {
        seq![
            self.rate1@,
            self.rate2@,
            self.rate3@,
            self.rate4@,
            self.level1@,
            self.level2@,
            self.level3@,
            self.level4@,
        ]
    }

    /// The envelope that eight data bytes describe, each clamped into 0...99.
    pub open spec fn spec_from_bytes(s: Seq<u8>) -> Envelope {
        Envelope::spec_rate_level((s[0], s[1], s[2], s[3]), (s[4], s[5], s[6], s[7]))
    }

    /// Decoding the bytes of a well-formed envelope gives it back.
    pub proof fn lemma_round_trip(&self)
        requires
            self.wf(),
        ensures
            Envelope::spec_from_bytes(self.spec_bytes()) == *self,
    {
    }

    /// Makes an envelope with the default rates and levels of a new voice.
    pub fn new() -> (r: Envelope)
        ensures
            r == Envelope::spec_rate_level((99, 99, 99, 99), (99, 99, 99, 0)),
            r.wf(),
    {
        Envelope::new_rate_level(Rates(99, 99, 99, 99), Levels(99, 99, 99, 0))
    }

    /// Makes an envelope from rates and levels, each clamped into 0...99.
    pub fn new_rate_level(rates: Rates, levels: Levels) -> (r: Envelope)
        ensures
            r == Envelope::spec_rate_level(
                (rates.0, rates.1, rates.2, rates.3),
                (levels.0, levels.1, levels.2, levels.3),
            ),
            r.wf(),
    {
        Envelope {
            rate1: Rate::new(rates.0),
            rate2: Rate::new(rates.1),
            rate3: Rate::new(rates.2),
            rate4: Rate::new(rates.3),
            level1: Level::new(levels.0),
            level2: Level::new(levels.1),
            level3: Level::new(levels.2),
            level4: Level::new(levels.3),
        }
    }

    /// Makes an envelope that acts as an ADSR envelope: rate 2 and levels 1
    /// and 2 at 99, level 4 at 0; rate 1 is the attack, rate 3 the decay,
    /// level 3 the sustain and rate 4 the release.
    pub fn adsr(attack: u8, decay: u8, sustain: u8, release: u8) -> (r: Envelope)
        ensures
            r == Envelope::spec_rate_level((attack, 99, decay, release), (99, 99, sustain, 0)),
            r.wf(),
    {
        Envelope::new_rate_level(Rates(attack, 99, decay, release), Levels(99, 99, sustain, 0))
    }

    /// Makes an envelope with random rates and levels.
    pub fn new_random() -> (r: Envelope)
        ensures
            r.wf(),
    {
        Envelope {
            rate1: Rate::random_value(),
            rate2: Rate::random_value(),
            rate3: Rate::random_value(),
            rate4: Rate::random_value(),
            level1: Level::random_value(),
            level2: Level::random_value(),
            level3: Level::random_value(),
            level4: Level::random_value(),
        }
    }

    /// Makes an envelope from its eight data bytes.
    pub fn from_bytes(data: &[u8]) -> (r: Envelope)
        requires
            data@.len() == ENVELOPE_SIZE,
        ensures
            r == Envelope::spec_from_bytes(data@),
            r.wf(),
    {
        Envelope::new_rate_level(
            Rates(data[0], data[1], data[2], data[3]),
            Levels(data[4], data[5], data[6], data[7]),
        )
    }

    /// Appends the data bytes of the envelope to `data`.
    pub fn append_bytes(&self, data: &mut Vec<u8>)
        ensures
            final(data)@ == old(data)@ + self.spec_bytes(),
    {
        data.push(self.rate1.as_byte());
        data.push(self.rate2.as_byte());
        data.push(self.rate3.as_byte());
        data.push(self.rate4.as_byte());
        data.push(self.level1.as_byte());
        data.push(self.level2.as_byte());
        data.push(self.level3.as_byte());
        data.push(self.level4.as_byte());
        assert(data@ =~= old(data)@ + self.spec_bytes());
    }
}

impl SystemExclusiveData for Envelope {
    open spec fn data_wf(&self) -> bool {
        self.wf()
    }

    open spec fn data_bytes(&self) -> Seq<u8> {
        self.spec_bytes()
    }

    open spec fn packed_data_bytes(&self) -> Seq<u8> {
        self.spec_bytes()
    }

    /// Gets the data bytes of the envelope.
    fn to_bytes(&self) -> (r: Vec<u8>)
        ensures
            r@ == self.spec_bytes(),
    {
        let mut data: Vec<u8> = Vec::new();
        self.append_bytes(&mut data);
        assert(data@ =~= self.spec_bytes());
        data
    }

    /// The envelope keeps its layout in packed data.
    fn to_packed_bytes(&self) -> (r: Vec<u8>) {
        let mut data: Vec<u8> = Vec::new();
        self.append_bytes(&mut data);
        assert(data@ =~= self.spec_bytes());
        data
    }

    fn data_size(&self) -> (r: usize) {
        ENVELOPE_SIZE
    }
}

} // verus!
