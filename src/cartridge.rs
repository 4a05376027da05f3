//! Cartridges: banks of 32 voices in the packed layout.

use vstd::prelude::*;
use crate::error::CodecError;
use crate::name::{all_ascii, name_ok};
use crate::voice::{lemma_packed_layout, lemma_packed_round_trip, Voice, VOICE_PACKED_SIZE};

verus! {

/// The number of voices in a cartridge.
pub const VOICE_COUNT: usize = 32;

/// The size of a cartridge: 32 packed voices.
pub const CARTRIDGE_SIZE: usize = 4096;

/// The packed data bytes of voices, one after another.
pub open spec fn packed_voices(vs: Seq<Voice>) -> Seq<u8>
    decreases vs.len(),
{
    if vs.len() == 0 {
        Seq::empty()
    } else {
        packed_voices(vs.drop_last()) + vs.last().spec_packed_bytes()
    }
}

/// The packed bytes of the voice at `i` in data of packed voices.
pub open spec fn voice_chunk(s: Seq<u8>, i: int) -> Seq<u8> {
    s.subrange(128 * i, 128 * i + 128)
}

/// Each voice of well-formed voices has its 128 bytes in their packed data,
/// in the same order.
pub proof fn lemma_packed_voices(vs: Seq<Voice>)
    requires
        forall|i: int| 0 <= i < vs.len() ==> (#[trigger] vs[i]).wf(),
    ensures
        packed_voices(vs).len() == 128 * vs.len(),
        forall|i: int|
            0 <= i < vs.len() ==> #[trigger] voice_chunk(packed_voices(vs), i)
                == vs[i].spec_packed_bytes(),
    decreases vs.len(),
{
    if vs.len() > 0 {
        let front = vs.drop_last();
        lemma_packed_voices(front);
        lemma_packed_layout(&vs.last());
        let s = packed_voices(vs);
        assert forall|i: int| 0 <= i < vs.len() implies #[trigger] voice_chunk(s, i)
            == vs[i].spec_packed_bytes() by {
            if i < vs.len() - 1 {
                assert(front[i] == vs[i]);
                assert(voice_chunk(s, i) =~= voice_chunk(packed_voices(front), i));
            } else {
                assert(voice_chunk(s, i) =~= vs.last().spec_packed_bytes());
            }
        }
    }
}

/// A bank of 32 voices.
pub struct Cartridge {
    pub voices: Vec<Voice>,
}

impl Cartridge {
    /// The cartridge holds 32 voices, each with its fields in range.
    pub open spec fn wf(&self) -> bool {
        &&& self.voices@.len() == VOICE_COUNT
        &&& forall|i: int| 0 <= i < self.voices@.len() ==> (#[trigger] self.voices@[i]).wf()
    }

    /// The 4096 packed data bytes.
    pub open spec fn spec_packed_bytes(&self) -> Seq<u8> {
        packed_voices(self.voices@)
    }

    /// This cartridge is the one that 4096 packed data bytes describe.
    pub open spec fn decodes_from_packed(&self, s: Seq<u8>) -> bool {
        &&& self.voices@.len() == VOICE_COUNT
        &&& forall|i: int|
            0 <= i < VOICE_COUNT ==> (#[trigger] self.voices@[i]).decodes_from_packed(
                voice_chunk(s, i),
            )
    }

    /// Every voice of the packed data has a name of ASCII bytes.
    pub open spec fn names_ascii(s: Seq<u8>) -> bool {
        forall|i: int|
            0 <= i < VOICE_COUNT ==> all_ascii(#[trigger] Voice::name_part(voice_chunk(s, i), 128))
    }

    /// Gets the 4096 packed data bytes of the cartridge.
    pub fn to_packed_bytes(&self) -> (r: Vec<u8>)
        requires
            self.wf(),
        ensures
            r@ == self.spec_packed_bytes(),
            r@.len() == CARTRIDGE_SIZE,
    {
        let mut data: Vec<u8> = Vec::new();
        let mut i: usize = 0;
        while i < self.voices.len()
            invariant
                self.wf(),
                i <= self.voices@.len(),
                data@ == packed_voices(self.voices@.take(i as int)),
            decreases self.voices@.len() - i,
        {
            self.voices[i].append_packed_bytes(&mut data);
            proof {
                let t = self.voices@.take(i + 1);
                assert(t.drop_last() =~= self.voices@.take(i as int));
            }
            i += 1;
        }
        proof {
            assert(self.voices@.take(i as int) =~= self.voices@);
            lemma_packed_voices(self.voices@);
        }
        data
    }

    /// Makes a cartridge from its 4096 packed data bytes.
    pub fn from_packed_bytes(data: &[u8]) -> (r: Result<Cartridge, CodecError>)
        ensures
            data@.len() != CARTRIDGE_SIZE ==> r == Err::<Cartridge, CodecError>(
                CodecError::Length { expected: CARTRIDGE_SIZE, actual: data@.len() as usize },
            ),
            data@.len() == CARTRIDGE_SIZE ==> (r is Ok <==> Cartridge::names_ascii(data@)),
            data@.len() == CARTRIDGE_SIZE && r is Err ==> r == Err::<Cartridge, CodecError>(
                CodecError::Name,
            ),
            r is Ok ==> r->Ok_0.decodes_from_packed(data@) && r->Ok_0.wf(),
    {
        if data.len() != CARTRIDGE_SIZE {
            return Err(CodecError::Length { expected: CARTRIDGE_SIZE, actual: data.len() });
        }
        let mut voices: Vec<Voice> = Vec::new();
        let mut i: usize = 0;
        while i < VOICE_COUNT
            invariant
                data@.len() == CARTRIDGE_SIZE,
                i <= VOICE_COUNT,
                voices@.len() == i,
                forall|j: int|
                    0 <= j < i ==> (#[trigger] voices@[j]).decodes_from_packed(
                        voice_chunk(data@, j),
                    ) && voices@[j].wf() && all_ascii(
                        Voice::name_part(voice_chunk(data@, j), 128),
                    ),
            decreases VOICE_COUNT - i,
        {
            let start: usize = i * VOICE_PACKED_SIZE;
            let chunk = &data[start..start + VOICE_PACKED_SIZE];
            assert(chunk@ =~= voice_chunk(data@, i as int));
            match Voice::from_packed_bytes(chunk) {
                Ok(voice) => {
                    let ghost before = voices@;
                    voices.push(voice);
                    assert forall|j: int| 0 <= j < i implies #[trigger] voices@[j] == before[j] by {}
                    assert(voices@[i as int].decodes_from_packed(voice_chunk(data@, i as int)));
                    assert(all_ascii(Voice::name_part(voice_chunk(data@, i as int), 128)));
                    assert(voices@[i as int].wf());
                    assert forall|j: int| 0 <= j <= i implies (#[trigger] voices@[j]).decodes_from_packed(
                        voice_chunk(data@, j),
                    ) && voices@[j].wf() && all_ascii(
                        Voice::name_part(voice_chunk(data@, j), 128),
                    ) by {
                        if j < i {
                            assert(voices@[j] == before[j]);
                        }
                    }
                },
                Err(e) => {
                    assert(!all_ascii(Voice::name_part(voice_chunk(data@, i as int), 128)));
                    return Err(e);
                },
            }
            i += 1;
        }
        assert forall|j: int| 0 <= j < VOICE_COUNT implies all_ascii(
            #[trigger] Voice::name_part(voice_chunk(data@, j), 128),
        ) by {
            assert(voices@[j].wf());
        }
        Ok(Cartridge { voices })
    }
}

/// One voice of a cartridge is read back from its chunk of the packed data.
proof fn lemma_chunk_round_trip(v: &Voice, w: &Voice, chunk: Seq<u8>)
    requires
        v.wf(),
        name_ok(v.name@),
        chunk == v.spec_packed_bytes(),
        w.decodes_from_packed(chunk),
    ensures
        w.same_as(v),
        all_ascii(Voice::name_part(chunk, 128)),
{
    lemma_packed_layout(v);
    lemma_packed_round_trip(v, w);
    crate::name::lemma_name_round_trip(v.name@);
}

/// Encoding a cartridge and decoding its bytes gives the same voices, field
/// by field, when each name is ten ASCII characters.
pub proof fn lemma_cartridge_round_trip(c: &Cartridge, d: &Cartridge)
    requires
        c.wf(),
        forall|i: int| 0 <= i < VOICE_COUNT ==> name_ok((#[trigger] c.voices@[i]).name@),
        d.decodes_from_packed(c.spec_packed_bytes()),
    ensures
        c.spec_packed_bytes().len() == CARTRIDGE_SIZE,
        Cartridge::names_ascii(c.spec_packed_bytes()),
        forall|i: int| 0 <= i < VOICE_COUNT ==> (#[trigger] d.voices@[i]).same_as(&c.voices@[i]),
{
    lemma_packed_voices(c.voices@);
    let s = c.spec_packed_bytes();
    assert forall|i: int| 0 <= i < VOICE_COUNT implies (#[trigger] d.voices@[i]).same_as(
        &c.voices@[i],
    ) by {
        lemma_chunk_round_trip(&c.voices@[i], &d.voices@[i], voice_chunk(s, i));
    }
    assert forall|i: int| 0 <= i < VOICE_COUNT implies all_ascii(
        #[trigger] Voice::name_part(voice_chunk(s, i), 128),
    ) by {
        lemma_chunk_round_trip(&c.voices@[i], &d.voices@[i], voice_chunk(s, i));
    }
}

} // verus!
