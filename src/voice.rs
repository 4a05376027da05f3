//! Voices: six operators, a pitch envelope, an LFO and global settings.

use vstd::prelude::*;
use crate::layout::SystemExclusiveData;
use vstd::string::StringExecFns;
use crate::bits::{field, lemma_two_fields, put, spec_field, spec_put};
use crate::envelope::{Envelope, Levels, Rates};
use crate::error::CodecError;
use crate::lfo::{flag_code, Lfo};
use crate::name::{
    all_ascii, append_name, ascii_chars, decode_name, lemma_ascii_name, lemma_name_round_trip,
    name_bytes, name_ok,
};
use crate::operator::Operator;
use crate::ranged::{clamp, group_ranged_lemmas, Algorithm};

verus! {

broadcast use group_ranged_lemmas;

/// The size of a voice in the packed layout.
pub const VOICE_PACKED_SIZE: usize = 128;

/// The size of a voice in the unpacked layout.
pub const VOICE_SIZE: usize = 155;

/// The transpose in octaves that a data byte stands for: the byte counts
/// semitones up from two octaves down, so 24 is no transpose.
pub open spec fn transpose_of_byte(b: u8) -> int {
    clamp(b / 12 - 2, -2, 2)
}

/// The data byte of a transpose in octaves.
pub open spec fn byte_of_transpose(t: i8) -> u8 {
    ((t + 2) * 12) as u8
}

/// Reads a transpose in octaves (-2...2) from its data byte.
pub fn transpose_from_byte(b: u8) -> (r: i8)
    ensures
        r == transpose_of_byte(b),
{
    let octaves: u8 = b / 12;
    if octaves > 4 {
        2
    } else {
        octaves as i8 - 2
    }
}

/// Gets the data byte of a transpose in octaves.
pub fn transpose_to_byte(t: i8) -> (r: u8)
    requires
        -2 <= t <= 2,
    ensures
        r == byte_of_transpose(t),
{
    ((t + 2) * 12) as u8
}

/// Voice.
#[derive(Debug)]
pub struct Voice {
    pub op1: Operator,
    pub op2: Operator,
    pub op3: Operator,
    pub op4: Operator,
    pub op5: Operator,
    pub op6: Operator,
    /// The pitch envelope.
    pub peg: Envelope,
    pub alg: Algorithm,
    /// 0 ~ 7
    pub feedback: u8,
    pub osc_sync: bool,
    pub lfo: Lfo,
    /// In octaves, -2 ~ 2.
    pub transpose: i8,
    /// Ten ASCII characters.
    pub name: String,
}

impl Voice {
    /// Every field is in its range.
    pub open spec fn wf(&self) -> bool {
        &&& self.op1.wf()
        &&& self.op2.wf()
        &&& self.op3.wf()
        &&& self.op4.wf()
        &&& self.op5.wf()
        &&& self.op6.wf()
        &&& self.peg.wf()
        &&& self.alg.wf()
        &&& self.feedback <= 7
        &&& self.lfo.wf()
        &&& -2 <= self.transpose <= 2
    }

    /// The fields of the two voices are equal, the name by its characters.
    #[verifier::opaque]
    pub open spec fn same_as(&self, other: &Voice) -> bool {
        &&& self.op1 == other.op1
        &&& self.op2 == other.op2
        &&& self.op3 == other.op3
        &&& self.op4 == other.op4
        &&& self.op5 == other.op5
        &&& self.op6 == other.op6
        &&& self.peg == other.peg
        &&& self.alg == other.alg
        &&& self.feedback == other.feedback
        &&& self.osc_sync == other.osc_sync
        &&& self.lfo == other.lfo
        &&& self.transpose == other.transpose
        &&& self.name@ == other.name@
    }

    /// The data bytes after the operators and the pitch envelope, in the
    /// packed layout: algorithm, feedback with oscillator sync, the LFO,
    /// transpose and name.
    pub open spec fn spec_packed_globals(&self) -> Seq<u8> {
        seq![(self.alg@ - 1) as u8, spec_put(self.feedback, flag_code(self.osc_sync), 3)]
            + self.lfo.spec_packed_bytes() + seq![byte_of_transpose(self.transpose)] + name_bytes(
            self.name@,
        )
    }

    /// The packed data bytes. The operators come in reverse order, operator 6 first.
    #[verifier::opaque]
    pub open spec fn spec_packed_bytes(&self) -> Seq<u8> {
        self.op6.spec_packed_bytes() + self.op5.spec_packed_bytes() + self.op4.spec_packed_bytes()
            + self.op3.spec_packed_bytes() + self.op2.spec_packed_bytes()
            + self.op1.spec_packed_bytes() + self.peg.spec_bytes() + self.spec_packed_globals()
    }

    /// The data bytes after the operators and the pitch envelope, in the
    /// unpacked layout.
    pub open spec fn spec_globals(&self) -> Seq<u8> {
        seq![(self.alg@ - 1) as u8, self.feedback, flag_code(self.osc_sync)]
            + self.lfo.spec_bytes() + seq![byte_of_transpose(self.transpose)] + name_bytes(
            self.name@,
        )
    }

    /// The unpacked data bytes, operator 6 first.
    #[verifier::opaque]
    pub open spec fn spec_bytes(&self) -> Seq<u8> {
        self.op6.spec_bytes() + self.op5.spec_bytes() + self.op4.spec_bytes()
            + self.op3.spec_bytes() + self.op2.spec_bytes() + self.op1.spec_bytes()
            + self.peg.spec_bytes() + self.spec_globals()
    }

    /// The name bytes of a data layout of the given size.
    pub open spec fn name_part(s: Seq<u8>, size: int) -> Seq<u8> {
        s.subrange(size - 10, size)
    }

    /// This voice is the one that 128 packed data bytes describe.
    #[verifier::opaque]
    pub open spec fn decodes_from_packed(&self, s: Seq<u8>) -> bool {
        &&& self.op6 == Operator::spec_from_packed_bytes(s.subrange(0, 17))
        &&& self.op5 == Operator::spec_from_packed_bytes(s.subrange(17, 34))
        &&& self.op4 == Operator::spec_from_packed_bytes(s.subrange(34, 51))
        &&& self.op3 == Operator::spec_from_packed_bytes(s.subrange(51, 68))
        &&& self.op2 == Operator::spec_from_packed_bytes(s.subrange(68, 85))
        &&& self.op1 == Operator::spec_from_packed_bytes(s.subrange(85, 102))
        &&& self.peg == Envelope::spec_from_bytes(s.subrange(102, 110))
        &&& self.alg == Algorithm::spec_from_byte(s[110])
        &&& self.feedback == spec_field(s[111], 0, 7)
        &&& self.osc_sync == (spec_field(s[111], 3, 1) == 1)
        &&& self.lfo == Lfo::spec_from_packed_bytes(s.subrange(112, 117))
        &&& self.transpose == transpose_of_byte(s[117])
        &&& self.name@ == ascii_chars(Voice::name_part(s, 128))
    }

    /// This voice is the one that 155 unpacked data bytes describe.
    #[verifier::opaque]
    pub open spec fn decodes_from(&self, s: Seq<u8>) -> bool {
        &&& self.op6 == Operator::spec_from_bytes(s.subrange(0, 21))
        &&& self.op5 == Operator::spec_from_bytes(s.subrange(21, 42))
        &&& self.op4 == Operator::spec_from_bytes(s.subrange(42, 63))
        &&& self.op3 == Operator::spec_from_bytes(s.subrange(63, 84))
        &&& self.op2 == Operator::spec_from_bytes(s.subrange(84, 105))
        &&& self.op1 == Operator::spec_from_bytes(s.subrange(105, 126))
        &&& self.peg == Envelope::spec_from_bytes(s.subrange(126, 134))
        &&& self.alg == Algorithm::spec_from_byte(s[134])
        &&& self.feedback == clamp(s[135] as int, 0, 7)
        &&& self.osc_sync == (s[136] == 1)
        &&& self.lfo == Lfo::spec_from_bytes(s.subrange(137, 144))
        &&& self.transpose == transpose_of_byte(s[144])
        &&& self.name@ == ascii_chars(Voice::name_part(s, 155))
    }
}

impl Clone for Voice {
    fn clone(&self) -> (r: Voice)
        ensures
            r == *self,
    {
        Voice {
            op1: self.op1,
            op2: self.op2,
            op3: self.op3,
            op4: self.op4,
            op5: self.op5,
            op6: self.op6,
            peg: self.peg,
            alg: self.alg,
            feedback: self.feedback,
            osc_sync: self.osc_sync,
            lfo: self.lfo,
            transpose: self.transpose,
            name: self.name.clone(),
        }
    }
}

impl Voice {
    /// Makes a voice with the defaults of a new voice, named "INIT VOICE".
    pub fn new() -> (r: Voice)
        ensures
            r.wf(),
            r.op1 == Operator::spec_new(),
            r.op2 == Operator::spec_new(),
            r.op3 == Operator::spec_new(),
            r.op4 == Operator::spec_new(),
            r.op5 == Operator::spec_new(),
            r.op6 == Operator::spec_new(),
            r.peg == Envelope::spec_rate_level((99, 99, 99, 99), (50, 50, 50, 50)),
            r.alg@ == 1,
            r.feedback == 0,
            r.osc_sync,
            r.lfo == Lfo::spec_new(),
            r.transpose == 0,
            r.name@ == "INIT VOICE"@,
    {
        Voice {
            op1: Operator::new(),
            op2: Operator::new(),
            op3: Operator::new(),
            op4: Operator::new(),
            op5: Operator::new(),
            op6: Operator::new(),
            peg: Envelope::new_rate_level(Rates(99, 99, 99, 99), Levels(50, 50, 50, 50)),
            alg: Algorithm::new(1),
            feedback: 0,
            osc_sync: true,
            lfo: Lfo::new(),
            transpose: 0,
            name: String::from_str("INIT VOICE"),
        }
    }

    /// Appends the 128 packed data bytes of the voice to `data`.
    #[verifier::rlimit(40)]
    pub fn append_packed_bytes(&self, data: &mut Vec<u8>)
        requires
            self.wf(),
        ensures
            final(data)@ == old(data)@ + self.spec_packed_bytes(),
    {
        let ghost start = data@;
        self.op6.append_packed_bytes(data);
        self.op5.append_packed_bytes(data);
        self.op4.append_packed_bytes(data);
        self.op3.append_packed_bytes(data);
        self.op2.append_packed_bytes(data);
        self.op1.append_packed_bytes(data);
        self.peg.append_bytes(data);
        let ghost mid = data@;
        data.push(self.alg.as_byte());
        data.push(put(self.feedback, if self.osc_sync { 1 } else { 0 }, 3));
        self.lfo.append_packed_bytes(data);
        data.push(transpose_to_byte(self.transpose));
        append_name(&self.name, data);
        assert(data@ =~= mid + self.spec_packed_globals());
        proof {
            reveal(Voice::spec_packed_bytes);
            lemma_append_parts(
                start,
                self.op6.spec_packed_bytes(),
                self.op5.spec_packed_bytes(),
                self.op4.spec_packed_bytes(),
                self.op3.spec_packed_bytes(),
                self.op2.spec_packed_bytes(),
                self.op1.spec_packed_bytes(),
                self.peg.spec_bytes(),
                self.spec_packed_globals(),
            );
        }
    }

    /// Makes a voice from its 128 packed data bytes.
    pub fn from_packed_bytes(data: &[u8]) -> (r: Result<Voice, CodecError>)
        ensures
            data@.len() != VOICE_PACKED_SIZE ==> r == Err::<Voice, CodecError>(
                CodecError::Length { expected: VOICE_PACKED_SIZE, actual: data@.len() as usize },
            ),
            data@.len() == VOICE_PACKED_SIZE ==> (r is Ok <==> all_ascii(
                Voice::name_part(data@, 128),
            )),
            data@.len() == VOICE_PACKED_SIZE && r is Err ==> r == Err::<Voice, CodecError>(
                CodecError::Name,
            ),
            r is Ok ==> r->Ok_0.decodes_from_packed(data@) && r->Ok_0.wf() && name_ok(
                r->Ok_0.name@,
            ),
    {
        if data.len() != VOICE_PACKED_SIZE {
            return Err(CodecError::Length { expected: VOICE_PACKED_SIZE, actual: data.len() });
        }
        let name = match decode_name(&data[118..128]) {
            Some(name) => name,
            None => {
                return Err(CodecError::Name);
            },
        };
        proof {
            lemma_ascii_name(data@.subrange(118, 128));
            reveal(Voice::decodes_from_packed);
        }
        Ok(
            Voice {
                op6: Operator::from_packed_bytes(&data[0..17]),
                op5: Operator::from_packed_bytes(&data[17..34]),
                op4: Operator::from_packed_bytes(&data[34..51]),
                op3: Operator::from_packed_bytes(&data[51..68]),
                op2: Operator::from_packed_bytes(&data[68..85]),
                op1: Operator::from_packed_bytes(&data[85..102]),
                peg: Envelope::from_bytes(&data[102..110]),
                alg: Algorithm::from_byte(data[110]),
                feedback: field(data[111], 0, 7),
                osc_sync: field(data[111], 3, 1) == 1,
                lfo: Lfo::from_packed_bytes(&data[112..117]),
                transpose: transpose_from_byte(data[117]),
                name,
            },
        )
    }

    /// Makes a voice from its 155 unpacked data bytes.
    pub fn from_bytes(data: &[u8]) -> (r: Result<Voice, CodecError>)
        ensures
            data@.len() != VOICE_SIZE ==> r == Err::<Voice, CodecError>(
                CodecError::Length { expected: VOICE_SIZE, actual: data@.len() as usize },
            ),
            data@.len() == VOICE_SIZE ==> (r is Ok <==> all_ascii(Voice::name_part(data@, 155))),
            data@.len() == VOICE_SIZE && r is Err ==> r == Err::<Voice, CodecError>(
                CodecError::Name,
            ),
            r is Ok ==> r->Ok_0.decodes_from(data@) && r->Ok_0.wf() && name_ok(r->Ok_0.name@),
    {
        if data.len() != VOICE_SIZE {
            return Err(CodecError::Length { expected: VOICE_SIZE, actual: data.len() });
        }
        let name = match decode_name(&data[145..155]) {
            Some(name) => name,
            None => {
                return Err(CodecError::Name);
            },
        };
        proof {
            lemma_ascii_name(data@.subrange(145, 155));
            reveal(Voice::decodes_from);
        }
        Ok(
            Voice {
                op6: Operator::from_bytes(&data[0..21]),
                op5: Operator::from_bytes(&data[21..42]),
                op4: Operator::from_bytes(&data[42..63]),
                op3: Operator::from_bytes(&data[63..84]),
                op2: Operator::from_bytes(&data[84..105]),
                op1: Operator::from_bytes(&data[105..126]),
                peg: Envelope::from_bytes(&data[126..134]),
                alg: Algorithm::from_byte(data[134]),
                feedback: if data[135] > 7 { 7 } else { data[135] },
                osc_sync: data[136] == 1,
                lfo: Lfo::from_bytes(&data[137..144]),
                transpose: transpose_from_byte(data[144]),
                name,
            },
        )
    }
}

/// Encoding a voice in the packed layout and decoding the bytes gives the
/// same voice, field by field.
pub proof fn lemma_packed_round_trip(v: &Voice, w: &Voice)
    requires
        v.wf(),
        name_ok(v.name@),
        w.decodes_from_packed(v.spec_packed_bytes()),
    ensures
        w.same_as(v),
{
    reveal(Voice::same_as);
    reveal(Voice::decodes_from_packed);
    lemma_packed_layout(v);
    v.op1.lemma_round_trip();
    v.op2.lemma_round_trip();
    v.op3.lemma_round_trip();
    v.op4.lemma_round_trip();
    v.op5.lemma_round_trip();
    v.op6.lemma_round_trip();
    v.peg.lemma_round_trip();
    v.lfo.lemma_round_trip();
    lemma_name_round_trip(v.name@);
    lemma_two_fields(v.feedback, flag_code(v.osc_sync), 3, 1);
}

/// Where each part stands in six operators of `n` bytes, an envelope and the rest.
proof fn lemma_parts(
    s: Seq<u8>,
    n: int,
    a: Seq<u8>,
    b: Seq<u8>,
    c: Seq<u8>,
    d: Seq<u8>,
    e: Seq<u8>,
    f: Seq<u8>,
    env: Seq<u8>,
    rest: Seq<u8>,
)
    requires
        s == a + b + c + d + e + f + env + rest,
        a.len() == n,
        b.len() == n,
        c.len() == n,
        d.len() == n,
        e.len() == n,
        f.len() == n,
        env.len() == 8,
    ensures
        s.len() == 6 * n + 8 + rest.len(),
        s.subrange(0, n) == a,
        s.subrange(n, 2 * n) == b,
        s.subrange(2 * n, 3 * n) == c,
        s.subrange(3 * n, 4 * n) == d,
        s.subrange(4 * n, 5 * n) == e,
        s.subrange(5 * n, 6 * n) == f,
        s.subrange(6 * n, 6 * n + 8) == env,
        s.subrange(6 * n + 8, s.len() as int) == rest,
{
    assert(s.subrange(0, n) =~= a);
    assert(s.subrange(n, 2 * n) =~= b);
    assert(s.subrange(2 * n, 3 * n) =~= c);
    assert(s.subrange(3 * n, 4 * n) =~= d);
    assert(s.subrange(4 * n, 5 * n) =~= e);
    assert(s.subrange(5 * n, 6 * n) =~= f);
    assert(s.subrange(6 * n, 6 * n + 8) =~= env);
    assert(s.subrange(6 * n + 8, s.len() as int) =~= rest);
}

/// Appending the parts one by one appends their concatenation.
proof fn lemma_append_parts(
    start: Seq<u8>,
    a: Seq<u8>,
    b: Seq<u8>,
    c: Seq<u8>,
    d: Seq<u8>,
    e: Seq<u8>,
    f: Seq<u8>,
    env: Seq<u8>,
    rest: Seq<u8>,
)
    ensures
        start + a + b + c + d + e + f + env + rest == start + (a + b + c + d + e + f + env + rest),
{
    assert(start + a + b + c + d + e + f + env + rest =~= start + (a + b + c + d + e + f + env
        + rest));
}

/// Where each part of a voice stands in its packed data bytes.
#[verifier::rlimit(40)]
pub proof fn lemma_packed_layout(v: &Voice)
    ensures
        v.spec_packed_bytes().len() == VOICE_PACKED_SIZE,
        v.spec_packed_bytes().subrange(0, 17) == v.op6.spec_packed_bytes(),
        v.spec_packed_bytes().subrange(17, 34) == v.op5.spec_packed_bytes(),
        v.spec_packed_bytes().subrange(34, 51) == v.op4.spec_packed_bytes(),
        v.spec_packed_bytes().subrange(51, 68) == v.op3.spec_packed_bytes(),
        v.spec_packed_bytes().subrange(68, 85) == v.op2.spec_packed_bytes(),
        v.spec_packed_bytes().subrange(85, 102) == v.op1.spec_packed_bytes(),
        v.spec_packed_bytes().subrange(102, 110) == v.peg.spec_bytes(),
        v.spec_packed_bytes()[110] == (v.alg@ - 1) as u8,
        v.spec_packed_bytes()[111] == spec_put(v.feedback, flag_code(v.osc_sync), 3),
        v.spec_packed_bytes().subrange(112, 117) == v.lfo.spec_packed_bytes(),
        v.spec_packed_bytes()[117] == byte_of_transpose(v.transpose),
        Voice::name_part(v.spec_packed_bytes(), 128) == name_bytes(v.name@),
{
    v.op1.lemma_sizes();
    v.op2.lemma_sizes();
    v.op3.lemma_sizes();
    v.op4.lemma_sizes();
    v.op5.lemma_sizes();
    v.op6.lemma_sizes();
    reveal(Voice::spec_packed_bytes);
    let p = v.spec_packed_bytes();
    let g = v.spec_packed_globals();
    lemma_parts(
        p,
        17,
        v.op6.spec_packed_bytes(),
        v.op5.spec_packed_bytes(),
        v.op4.spec_packed_bytes(),
        v.op3.spec_packed_bytes(),
        v.op2.spec_packed_bytes(),
        v.op1.spec_packed_bytes(),
        v.peg.spec_bytes(),
        g,
    );
    assert(g.subrange(2, 7) =~= v.lfo.spec_packed_bytes());
    assert(g.subrange(8, 18) =~= name_bytes(v.name@));
    assert(p[110] == g[0]);
    assert(p[111] == g[1]);
    assert(p[117] == g[7]);
    assert(p.subrange(112, 117) =~= g.subrange(2, 7));
    assert(Voice::name_part(p, 128) =~= g.subrange(8, 18));
}

/// Where each part of a voice stands in its unpacked data bytes.
#[verifier::rlimit(40)]
pub proof fn lemma_layout(v: &Voice)
    ensures
        v.spec_bytes().len() == VOICE_SIZE,
        v.spec_bytes().subrange(0, 21) == v.op6.spec_bytes(),
        v.spec_bytes().subrange(21, 42) == v.op5.spec_bytes(),
        v.spec_bytes().subrange(42, 63) == v.op4.spec_bytes(),
        v.spec_bytes().subrange(63, 84) == v.op3.spec_bytes(),
        v.spec_bytes().subrange(84, 105) == v.op2.spec_bytes(),
        v.spec_bytes().subrange(105, 126) == v.op1.spec_bytes(),
        v.spec_bytes().subrange(126, 134) == v.peg.spec_bytes(),
        v.spec_bytes()[134] == (v.alg@ - 1) as u8,
        v.spec_bytes()[135] == v.feedback,
        v.spec_bytes()[136] == flag_code(v.osc_sync),
        v.spec_bytes().subrange(137, 144) == v.lfo.spec_bytes(),
        v.spec_bytes()[144] == byte_of_transpose(v.transpose),
        Voice::name_part(v.spec_bytes(), 155) == name_bytes(v.name@),
{
    v.op1.lemma_sizes();
    v.op2.lemma_sizes();
    v.op3.lemma_sizes();
    v.op4.lemma_sizes();
    v.op5.lemma_sizes();
    v.op6.lemma_sizes();
    reveal(Voice::spec_bytes);
    let p = v.spec_bytes();
    let g = v.spec_globals();
    lemma_parts(
        p,
        21,
        v.op6.spec_bytes(),
        v.op5.spec_bytes(),
        v.op4.spec_bytes(),
        v.op3.spec_bytes(),
        v.op2.spec_bytes(),
        v.op1.spec_bytes(),
        v.peg.spec_bytes(),
        g,
    );
    assert(g.subrange(3, 10) =~= v.lfo.spec_bytes());
    assert(g.subrange(11, 21) =~= name_bytes(v.name@));
    assert(p[134] == g[0]);
    assert(p[135] == g[1]);
    assert(p[136] == g[2]);
    assert(p[144] == g[10]);
    assert(p.subrange(137, 144) =~= g.subrange(3, 10));
    assert(Voice::name_part(p, 155) =~= g.subrange(11, 21));
}

/// Encoding a voice in the unpacked layout and decoding the bytes gives the
/// same voice, field by field.
pub proof fn lemma_unpacked_round_trip(v: &Voice, w: &Voice)
    requires
        v.wf(),
        name_ok(v.name@),
        w.decodes_from(v.spec_bytes()),
    ensures
        w.same_as(v),
{
    reveal(Voice::same_as);
    reveal(Voice::decodes_from);
    lemma_layout(v);
    v.op1.lemma_round_trip();
    v.op2.lemma_round_trip();
    v.op3.lemma_round_trip();
    v.op4.lemma_round_trip();
    v.op5.lemma_round_trip();
    v.op6.lemma_round_trip();
    v.peg.lemma_round_trip();
    v.lfo.lemma_round_trip();
    lemma_name_round_trip(v.name@);
}

impl SystemExclusiveData for Voice {
    open spec fn data_wf(&self) -> bool {
        self.wf()
    }

    open spec fn data_bytes(&self) -> Seq<u8> {
        self.spec_bytes()
    }

    open spec fn packed_data_bytes(&self) -> Seq<u8> {
        self.spec_packed_bytes()
    }

    /// Gets the 155 unpacked data bytes of the voice.
    #[verifier::rlimit(40)]
    fn to_bytes(&self) -> (r: Vec<u8>)
        ensures
            r@ == self.spec_bytes(),
            r@.len() == VOICE_SIZE,
    {
        let mut data: Vec<u8> = Vec::new();
        let ghost start = data@;
        self.op6.append_bytes(&mut data);
        self.op5.append_bytes(&mut data);
        self.op4.append_bytes(&mut data);
        self.op3.append_bytes(&mut data);
        self.op2.append_bytes(&mut data);
        self.op1.append_bytes(&mut data);
        self.peg.append_bytes(&mut data);
        let ghost mid = data@;
        data.push(self.alg.as_byte());
        data.push(self.feedback);
        data.push(if self.osc_sync { 1 } else { 0 });
        self.lfo.append_bytes(&mut data);
        data.push(transpose_to_byte(self.transpose));
        append_name(&self.name, &mut data);
        assert(data@ =~= mid + self.spec_globals());
        proof {
            reveal(Voice::spec_bytes);
            lemma_append_parts(
                start,
                self.op6.spec_bytes(),
                self.op5.spec_bytes(),
                self.op4.spec_bytes(),
                self.op3.spec_bytes(),
                self.op2.spec_bytes(),
                self.op1.spec_bytes(),
                self.peg.spec_bytes(),
                self.spec_globals(),
            );
            lemma_layout(self);
        }
        data
    }

    /// Gets the 128 packed data bytes of the voice.
    fn to_packed_bytes(&self) -> (r: Vec<u8>)
        ensures
            r@ == self.spec_packed_bytes(),
            r@.len() == VOICE_PACKED_SIZE,
    {
        let mut data: Vec<u8> = Vec::new();
        self.append_packed_bytes(&mut data);
        assert(data@ =~= self.spec_packed_bytes());
        proof {
            lemma_packed_layout(self);
        }
        data
    }

    fn data_size(&self) -> (r: usize) {
        proof {
            lemma_layout(self);
        }
        VOICE_SIZE
    }
}

} // verus!
