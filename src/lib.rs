//! Patch data of a six-operator FM synthesizer: bounded parameter values,
//! the packed and unpacked byte layouts of voices and cartridges, and the
//! System Exclusive message framing that carries them.

mod bits;
mod cartridge;
mod envelope;
mod error;
mod layout;
mod lfo;
mod name;
mod operator;
mod patches;
mod ranged;
mod scaling;
mod sysex;
mod tx802;
mod voice;

pub use bits::{field, put};
pub use cartridge::{lemma_cartridge_round_trip, Cartridge, CARTRIDGE_SIZE, VOICE_COUNT};
pub use envelope::{Envelope, Levels, Rates, ENVELOPE_SIZE};
pub use error::CodecError;
pub use layout::SystemExclusiveData;
pub use lfo::{Lfo, LfoWaveform, LFO_PACKED_SIZE, LFO_SIZE};
pub use name::{decode_name, NAME_SIZE};
pub use operator::{Operator, OperatorMode, OPERATOR_PACKED_SIZE, OPERATOR_SIZE};
pub use patches::{
    make_brass1, make_init_cartridge, make_init_voice, make_random_cartridge, make_random_eg,
    make_random_operator, make_random_voice,
};
pub use ranged::{
    Algorithm, Coarse, Detune, IntRange, Level, RandomValue, RangeKind, RangedValue, Rate,
    UnsignedLevel,
};
pub use scaling::{
    lemma_curve_pair_round_trip, pack_curves, unpack_curves, CurveStyle, KeyboardLevelScaling,
    ScalingCurve, SCALING_PACKED_SIZE, SCALING_SIZE,
};
pub use sysex::{
    cartridge_message, decode_message, lemma_message_round_trip, make_message, parse_message,
    voice_checksum, voice_message, voice_messages, Format, Message, Patch, HEADER_SIZE, SYSEX_END,
    SYSEX_START, YAMAHA_ID,
};
pub use tx802::{Performance, PerformanceMemory};
pub use voice::{
    lemma_packed_round_trip, lemma_unpacked_round_trip, transpose_from_byte, transpose_to_byte,
    Voice, VOICE_PACKED_SIZE, VOICE_SIZE,
};
