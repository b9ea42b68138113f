//! The compiled, linear form of a graph: a stream of opcodes and the flat
//! pool of constants they consume, in emission order.

use vstd::prelude::*;
use vstd::std_specs::hash::DefaultHasherAdditionalSpecFns;

use std::collections::hash_map::DefaultHasher;
use std::hash::Hasher;

use crate::compiler::Error;
use crate::graph::{Vec3Bits, Vec4Bits};
use crate::opcode::{opcode_code, Opcode};

verus! {

/// The little-endian bytes of one 32-bit word.
pub open spec fn le_bytes(v: u32) -> Seq<u8> {
    seq![
        (v & 0xFF) as u8,
        ((v / 0x100) & 0xFF) as u8,
        ((v / 0x1_0000) & 0xFF) as u8,
        ((v / 0x100_0000) & 0xFF) as u8,
    ]
}

/// The little-endian bytes of one 32-bit word.
fn u32_le_bytes(v: u32) -> (r: [u8; 4])
    ensures
        r@ == le_bytes(v),
{
    let r: [u8; 4] = [
        (v & 0xFF) as u8,
        ((v / 0x100) & 0xFF) as u8,
        ((v / 0x1_0000) & 0xFF) as u8,
        ((v / 0x100_0000) & 0xFF) as u8,
    ];
    proof {
        assert(r@ =~= le_bytes(v));
    }
    r
}

/// Whether some opcode has this numeric code.
pub open spec fn is_opcode_code(c: u32) -> bool {
    exists|op: Opcode| opcode_code(op) == c
}

/// The stream of byte chunks that hashing a word sequence feeds the hasher.
pub open spec fn word_chunks(words: Seq<u32>) -> Seq<Seq<u8>> {
    words.map_values(|w: u32| le_bytes(w))
}

/// A 64-bit digest of the constant pool: the standard hasher over each
/// word's little-endian bytes, in order.
pub fn constants_hash(constants: &[u32]) -> (r: u64)
    ensures
        r == DefaultHasher::spec_finish(word_chunks(constants@)),
{
    let mut state = DefaultHasher::new();
    let mut i: usize = 0;
    while i < constants.len()
        invariant
            i <= constants@.len(),
            state@ == word_chunks(constants@).take(i as int),
        decreases constants@.len() - i,
    {
        let bytes = u32_le_bytes(constants[i]);
        state.write(bytes.as_slice());
        i = i + 1;
        proof {
            assert(state@ =~= word_chunks(constants@).take(i as int));
        }
    }
    proof {
        assert(word_chunks(constants@).take(constants@.len() as int) =~= word_chunks(constants@));
    }
    state.finish()
}

/// A 64-bit digest of the opcode stream: the standard hasher over each
/// opcode's numeric code in little-endian bytes, in order.
pub fn opcodes_hash(opcodes: &[Opcode]) -> (r: u64)
    ensures
        r == DefaultHasher::spec_finish(
            word_chunks(opcodes@.map_values(|op: Opcode| opcode_code(op))),
        ),
{
    let ghost codes = opcodes@.map_values(|op: Opcode| opcode_code(op));
    let mut state = DefaultHasher::new();
    let mut i: usize = 0;
    while i < opcodes.len()
        invariant
            i <= opcodes@.len(),
            codes == opcodes@.map_values(|op: Opcode| opcode_code(op)),
            state@ == word_chunks(codes).take(i as int),
        decreases opcodes@.len() - i,
    {
        let bytes = u32_le_bytes(opcodes[i].to_u32());
        state.write(bytes.as_slice());
        i = i + 1;
        proof {
            assert(state@ =~= word_chunks(codes).take(i as int));
        }
    }
    proof {
        assert(word_chunks(codes).take(opcodes@.len() as int) =~= word_chunks(codes));
    }
    state.finish()
}

/// The little-endian bytes of one 64-bit word.
pub open spec fn le_bytes64(v: u64) -> Seq<u8> {
    seq![
        (v & 0xFF) as u8,
        ((v / 0x100) & 0xFF) as u8,
        ((v / 0x1_0000) & 0xFF) as u8,
        ((v / 0x100_0000) & 0xFF) as u8,
        ((v / 0x1_0000_0000) & 0xFF) as u8,
        ((v / 0x100_0000_0000) & 0xFF) as u8,
        ((v / 0x1_0000_0000_0000) & 0xFF) as u8,
        ((v / 0x100_0000_0000_0000) & 0xFF) as u8,
    ]
}

/// The little-endian bytes of the first `n` words, concatenated.
pub open spec fn words_le_bytes(ws: Seq<u32>, n: int) -> Seq<u8>
    decreases n,
{
    if n <= 0 {
        Seq::empty()
    } else {
        words_le_bytes(ws, n - 1) + le_bytes(ws[n - 1])
    }
}

/// The serialized form of a program: the constant pool, then the numeric
/// opcodes, each vector as a little-endian 64-bit length followed by its
/// words in little-endian bytes.
pub open spec fn spec_program_bytes(constants: Seq<u32>, opcodes: Seq<Opcode>) -> Seq<u8> {
    le_bytes64(constants.len() as u64) + words_le_bytes(constants, constants.len() as int)
        + le_bytes64(opcodes.len() as u64) + words_le_bytes(
        opcodes.map_values(|op: Opcode| opcode_code(op)),
        opcodes.len() as int,
    )
}

/// The first `n` words serialize to exactly `4 * n` bytes.
proof fn lemma_words_le_bytes_len(ws: Seq<u32>, n: int)
    requires
        0 <= n,
    ensures
        words_le_bytes(ws, n).len() == 4 * n,
    decreases n,
{
    if n > 0 {
        lemma_words_le_bytes_len(ws, n - 1);
    }
}

/// A word is recoverable from its little-endian bytes, so the encoding is
/// injective.
proof fn lemma_le_bytes_inj(v: u32, w: u32)
    requires
        le_bytes(v) == le_bytes(w),
    ensures
        v == w,
{
    assert((v & 0xFF) + ((v / 0x100) & 0xFF) * 0x100 + ((v / 0x1_0000) & 0xFF) * 0x1_0000 + ((v
        / 0x100_0000) & 0xFF) * 0x100_0000 == v) by (bit_vector);
    assert((w & 0xFF) + ((w / 0x100) & 0xFF) * 0x100 + ((w / 0x1_0000) & 0xFF) * 0x1_0000 + ((w
        / 0x100_0000) & 0xFF) * 0x100_0000 == w) by (bit_vector);
    assert(v & 0xFF < 0x100 && (v / 0x100) & 0xFF < 0x100 && (v / 0x1_0000) & 0xFF < 0x100 && (v
        / 0x100_0000) & 0xFF < 0x100) by (bit_vector);
    assert(w & 0xFF < 0x100 && (w / 0x100) & 0xFF < 0x100 && (w / 0x1_0000) & 0xFF < 0x100 && (w
        / 0x100_0000) & 0xFF < 0x100) by (bit_vector);
    assert(le_bytes(v)[0] == le_bytes(w)[0]);
    assert(le_bytes(v)[1] == le_bytes(w)[1]);
    assert(le_bytes(v)[2] == le_bytes(w)[2]);
    assert(le_bytes(v)[3] == le_bytes(w)[3]);
    assert(v & 0xFF == w & 0xFF);
    assert((v / 0x100) & 0xFF == (w / 0x100) & 0xFF);
    assert((v / 0x1_0000) & 0xFF == (w / 0x1_0000) & 0xFF);
    assert((v / 0x100_0000) & 0xFF == (w / 0x100_0000) & 0xFF);
}

/// A 64-bit word is recoverable from its little-endian bytes.
proof fn lemma_le_bytes64_inj(v: u64, w: u64)
    requires
        le_bytes64(v) == le_bytes64(w),
    ensures
        v == w,
{
    assert((v & 0xFF) + ((v / 0x100) & 0xFF) * 0x100 + ((v / 0x1_0000) & 0xFF) * 0x1_0000 + ((v
        / 0x100_0000) & 0xFF) * 0x100_0000 + ((v / 0x1_0000_0000) & 0xFF) * 0x1_0000_0000 + ((v
        / 0x100_0000_0000) & 0xFF) * 0x100_0000_0000 + ((v / 0x1_0000_0000_0000) & 0xFF)
        * 0x1_0000_0000_0000 + ((v / 0x100_0000_0000_0000) & 0xFF) * 0x100_0000_0000_0000 == v)
        by (bit_vector);
    assert((w & 0xFF) + ((w / 0x100) & 0xFF) * 0x100 + ((w / 0x1_0000) & 0xFF) * 0x1_0000 + ((w
        / 0x100_0000) & 0xFF) * 0x100_0000 + ((w / 0x1_0000_0000) & 0xFF) * 0x1_0000_0000 + ((w
        / 0x100_0000_0000) & 0xFF) * 0x100_0000_0000 + ((w / 0x1_0000_0000_0000) & 0xFF)
        * 0x1_0000_0000_0000 + ((w / 0x100_0000_0000_0000) & 0xFF) * 0x100_0000_0000_0000 == w)
        by (bit_vector);
    assert(v & 0xFF < 0x100 && (v / 0x100) & 0xFF < 0x100 && (v / 0x1_0000) & 0xFF < 0x100 && (v
        / 0x100_0000) & 0xFF < 0x100 && (v / 0x1_0000_0000) & 0xFF < 0x100 && (v
        / 0x100_0000_0000) & 0xFF < 0x100 && (v / 0x1_0000_0000_0000) & 0xFF < 0x100 && (v
        / 0x100_0000_0000_0000) & 0xFF < 0x100) by (bit_vector);
    assert(w & 0xFF < 0x100 && (w / 0x100) & 0xFF < 0x100 && (w / 0x1_0000) & 0xFF < 0x100 && (w
        / 0x100_0000) & 0xFF < 0x100 && (w / 0x1_0000_0000) & 0xFF < 0x100 && (w
        / 0x100_0000_0000) & 0xFF < 0x100 && (w / 0x1_0000_0000_0000) & 0xFF < 0x100 && (w
        / 0x100_0000_0000_0000) & 0xFF < 0x100) by (bit_vector);
    assert(le_bytes64(v)[0] == le_bytes64(w)[0]);
    assert(le_bytes64(v)[1] == le_bytes64(w)[1]);
    assert(le_bytes64(v)[2] == le_bytes64(w)[2]);
    assert(le_bytes64(v)[3] == le_bytes64(w)[3]);
    assert(le_bytes64(v)[4] == le_bytes64(w)[4]);
    assert(le_bytes64(v)[5] == le_bytes64(w)[5]);
    assert(le_bytes64(v)[6] == le_bytes64(w)[6]);
    assert(le_bytes64(v)[7] == le_bytes64(w)[7]);
    assert(v & 0xFF == w & 0xFF);
    assert((v / 0x100) & 0xFF == (w / 0x100) & 0xFF);
    assert((v / 0x1_0000) & 0xFF == (w / 0x1_0000) & 0xFF);
    assert((v / 0x100_0000) & 0xFF == (w / 0x100_0000) & 0xFF);
    assert((v / 0x1_0000_0000) & 0xFF == (w / 0x1_0000_0000) & 0xFF);
    assert((v / 0x100_0000_0000) & 0xFF == (w / 0x100_0000_0000) & 0xFF);
    assert((v / 0x1_0000_0000_0000) & 0xFF == (w / 0x1_0000_0000_0000) & 0xFF);
    assert((v / 0x100_0000_0000_0000) & 0xFF == (w / 0x100_0000_0000_0000) & 0xFF);
}

/// The bytes of word `j` sit at offset `4 * j` of the concatenation.
proof fn lemma_words_le_bytes_chunk(ws: Seq<u32>, n: int, j: int)
    requires
        0 <= j < n <= ws.len(),
    ensures
        words_le_bytes(ws, n).subrange(4 * j, 4 * j + 4) == le_bytes(ws[j]),
    decreases n,
{
    lemma_words_le_bytes_len(ws, n - 1);
    if j == n - 1 {
        assert(words_le_bytes(ws, n).subrange(4 * j, 4 * j + 4) =~= le_bytes(ws[j]));
    } else {
        lemma_words_le_bytes_chunk(ws, n - 1, j);
        assert(words_le_bytes(ws, n).subrange(4 * j, 4 * j + 4) =~= words_le_bytes(
            ws,
            n - 1,
        ).subrange(4 * j, 4 * j + 4));
    }
}

/// What the serialized form of any program looks like from the outside: its
/// exact length, where the two length headers sit, and where each opcode
/// word sits.
proof fn lemma_serialized_shape(bytes: Seq<u8>, cs: Seq<u32>, ops: Seq<Opcode>)
    requires
        bytes == spec_program_bytes(cs, ops),
    ensures
        bytes.len() == 16 + 4 * cs.len() + 4 * ops.len(),
        bytes.subrange(0, 8) == le_bytes64(cs.len() as u64),
        bytes.subrange(8 + 4 * cs.len() as int, 16 + 4 * cs.len() as int) == le_bytes64(ops.len() as u64),
        forall|j: int|
            0 <= j < ops.len() ==> #[trigger] bytes.subrange(
                16 + 4 * cs.len() as int + 4 * j,
                16 + 4 * cs.len() as int + 4 * j + 4,
            ) == le_bytes(opcode_code(ops[j])),
{
    let codes = ops.map_values(|op: Opcode| opcode_code(op));
    let c = cs.len() as int;
    let o = ops.len() as int;
    lemma_words_le_bytes_len(cs, c);
    lemma_words_le_bytes_len(codes, o);
    assert(bytes.subrange(0, 8) =~= le_bytes64(cs.len() as u64));
    assert(bytes.subrange(8 + 4 * c, 16 + 4 * c) =~= le_bytes64(ops.len() as u64));
    assert(bytes.subrange(16 + 4 * c, 16 + 4 * c + 4 * o) =~= words_le_bytes(codes, o));
    assert forall|j: int| 0 <= j < o implies #[trigger] bytes.subrange(
        16 + 4 * c + 4 * j,
        16 + 4 * c + 4 * j + 4,
    ) == le_bytes(opcode_code(ops[j])) by {
        lemma_words_le_bytes_chunk(codes, o, j);
        assert(bytes.subrange(16 + 4 * c + 4 * j, 16 + 4 * c + 4 * j + 4) =~= bytes.subrange(
            16 + 4 * c,
            16 + 4 * c + 4 * o,
        ).subrange(4 * j, 4 * j + 4));
    }
}

/// Appending a word does not change the bytes of an existing prefix.
proof fn lemma_words_le_bytes_push(ws: Seq<u32>, w: u32, n: int)
    requires
        0 <= n <= ws.len(),
    ensures
        words_le_bytes(ws.push(w), n) == words_le_bytes(ws, n),
    decreases n,
{
    if n > 0 {
        lemma_words_le_bytes_push(ws, w, n - 1);
        assert(ws.push(w)[n - 1] == ws[n - 1]);
    }
}

/// Appends the little-endian bytes of a 32-bit word.
fn push_u32_le(buf: &mut Vec<u8>, v: u32)
    ensures
        final(buf)@ == old(buf)@ + le_bytes(v),
{
    buf.push((v & 0xFF) as u8);
    buf.push(((v / 0x100) & 0xFF) as u8);
    buf.push(((v / 0x1_0000) & 0xFF) as u8);
    buf.push(((v / 0x100_0000) & 0xFF) as u8);
    proof {
        assert(buf@ =~= old(buf)@ + le_bytes(v));
    }
}

/// Appends the little-endian bytes of a 64-bit word.
fn push_u64_le(buf: &mut Vec<u8>, v: u64)
    ensures
        final(buf)@ == old(buf)@ + le_bytes64(v),
{
    buf.push((v & 0xFF) as u8);
    buf.push(((v / 0x100) & 0xFF) as u8);
    buf.push(((v / 0x1_0000) & 0xFF) as u8);
    buf.push(((v / 0x100_0000) & 0xFF) as u8);
    buf.push(((v / 0x1_0000_0000) & 0xFF) as u8);
    buf.push(((v / 0x100_0000_0000) & 0xFF) as u8);
    buf.push(((v / 0x1_0000_0000_0000) & 0xFF) as u8);
    buf.push(((v / 0x100_0000_0000_0000) & 0xFF) as u8);
    proof {
        assert(buf@ =~= old(buf)@ + le_bytes64(v));
    }
}

/// Reads a little-endian 32-bit word.
fn read_u32_le(bytes: &[u8], pos: usize) -> (r: u32)
    requires
        pos + 4 <= bytes@.len(),
    ensures
        le_bytes(r) == bytes@.subrange(pos as int, pos as int + 4),
{
    let b0: u32 = bytes[pos] as u32;
    let b1: u32 = bytes[pos + 1] as u32;
    let b2: u32 = bytes[pos + 2] as u32;
    let b3: u32 = bytes[pos + 3] as u32;
    let v: u32 = b0 + b1 * 0x100 + b2 * 0x1_0000 + b3 * 0x100_0000;
    proof {
        assert(v & 0xFF == b0 && (v / 0x100) & 0xFF == b1 && (v / 0x1_0000) & 0xFF == b2 && (v
            / 0x100_0000) & 0xFF == b3) by (bit_vector)
            requires
                v == b0 + b1 * 0x100 + b2 * 0x1_0000 + b3 * 0x100_0000,
                b0 < 0x100 && b1 < 0x100 && b2 < 0x100 && b3 < 0x100,
        ;
        assert(le_bytes(v) =~= bytes@.subrange(pos as int, pos as int + 4));
    }
    v
}

/// Reads a little-endian 64-bit word.
fn read_u64_le(bytes: &[u8], pos: usize) -> (r: u64)
    requires
        pos + 8 <= bytes@.len(),
    ensures
        le_bytes64(r) == bytes@.subrange(pos as int, pos as int + 8),
{
    let b0: u64 = bytes[pos] as u64;
    let b1: u64 = bytes[pos + 1] as u64;
    let b2: u64 = bytes[pos + 2] as u64;
    let b3: u64 = bytes[pos + 3] as u64;
    let b4: u64 = bytes[pos + 4] as u64;
    let b5: u64 = bytes[pos + 5] as u64;
    let b6: u64 = bytes[pos + 6] as u64;
    let b7: u64 = bytes[pos + 7] as u64;
    let v: u64 = b0 + b1 * 0x100 + b2 * 0x1_0000 + b3 * 0x100_0000 + b4 * 0x1_0000_0000 + b5
        * 0x100_0000_0000 + b6 * 0x1_0000_0000_0000 + b7 * 0x100_0000_0000_0000;
    proof {
        assert(v & 0xFF == b0 && (v / 0x100) & 0xFF == b1 && (v / 0x1_0000) & 0xFF == b2 && (v
            / 0x100_0000) & 0xFF == b3 && (v / 0x1_0000_0000) & 0xFF == b4 && (v
            / 0x100_0000_0000) & 0xFF == b5 && (v / 0x1_0000_0000_0000) & 0xFF == b6 && (v
            / 0x100_0000_0000_0000) & 0xFF == b7) by (bit_vector)
            requires
                v == b0 + b1 * 0x100 + b2 * 0x1_0000 + b3 * 0x100_0000 + b4 * 0x1_0000_0000 + b5
                    * 0x100_0000_0000 + b6 * 0x1_0000_0000_0000 + b7 * 0x100_0000_0000_0000,
                b0 < 0x100 && b1 < 0x100 && b2 < 0x100 && b3 < 0x100,
                b4 < 0x100 && b5 < 0x100 && b6 < 0x100 && b7 < 0x100,
        ;
        assert(le_bytes64(v) =~= bytes@.subrange(pos as int, pos as int + 8));
    }
    v
}

/// A signed distance field as a stack-machine program: opcodes plus a
/// constant pool. Each constant is the bit pattern of the IEEE-754
/// single-precision value it denotes; opcodes consume constants left to
/// right, in the order they were emitted.
#[derive(Debug, Clone, PartialEq)]
pub struct Program {
    pub constants: Vec<u32>,
    pub opcodes: Vec<Opcode>,
}

impl Default for Program {
    /// The empty program.
    fn default() -> (r: Program)
        ensures
            r.constants@ == Seq::<u32>::empty(),
            r.opcodes@ == Seq::<Opcode>::empty(),
    {
        Program { constants: Vec::new(), opcodes: Vec::new() }
    }
}

impl Program {
    /// This program's opcodes over another constant pool.
    pub fn with_constants(&self, constants: Vec<u32>) -> (r: Program)
        ensures
            r.constants@ == constants@,
            r.opcodes@ == self.opcodes@,
    {
        Program { constants, opcodes: self.opcodes.clone() }
    }

    /// A 64-bit digest of this program's constant pool.
    pub fn constant_hash(&self) -> (r: u64)
        ensures
            r == DefaultHasher::spec_finish(word_chunks(self.constants@)),
    {
        constants_hash(self.constants.as_slice())
    }

    /// A 64-bit digest of this program's opcodes.
    pub fn program_hash(&self) -> (r: u64)
        ensures
            r == DefaultHasher::spec_finish(
                word_chunks(self.opcodes@.map_values(|op: Opcode| opcode_code(op))),
            ),
    {
        opcodes_hash(self.opcodes.as_slice())
    }

    /// A 64-bit digest of the whole program: the opcode digest and the
    /// constant digest combined by exclusive or.
    pub fn full_hash(&self) -> (r: u64)
        ensures
            r == DefaultHasher::spec_finish(
                word_chunks(self.opcodes@.map_values(|op: Opcode| opcode_code(op))),
            ) ^ DefaultHasher::spec_finish(word_chunks(self.constants@)),
    {
        self.program_hash() ^ self.constant_hash()
    }

    /// A program from numeric opcodes and a constant pool; fails exactly
    /// when some code names no opcode.
    pub fn from_raw(opcodes: &[u32], constants: &[u32]) -> (r: Result<Program, Error>)
        ensures
            match r {
                Ok(p) => {
                    &&& p.opcodes@.len() == opcodes@.len()
                    &&& forall|i: int|
                        0 <= i < opcodes@.len() ==> opcode_code(#[trigger] p.opcodes@[i])
                            == opcodes@[i]
                    &&& p.constants@ == constants@
                },
                Err(e) => {
                    &&& e == Error::BadProgram(crate::compiler::BadProgramReason::UnknownOpcode)
                    &&& exists|i: int|
                        0 <= i < opcodes@.len() && !is_opcode_code(#[trigger] opcodes@[i])
                },
            },
    {
        let mut decoded: Vec<Opcode> = Vec::new();
        let mut i: usize = 0;
        while i < opcodes.len()
            invariant
                i <= opcodes@.len(),
                decoded@.len() == i,
                forall|j: int|
                    0 <= j < i ==> opcode_code(#[trigger] decoded@[j]) == opcodes@[j],
            decreases opcodes@.len() - i,
        {
            match Opcode::from_u32(opcodes[i]) {
                Some(op) => {
                    decoded.push(op);
                },
                None => {
                    proof {
                        assert(!is_opcode_code(opcodes@[i as int]));
                    }
                    return Err(Error::BadProgram(crate::compiler::BadProgramReason::UnknownOpcode));
                },
            }
            i = i + 1;
        }
        let mut pool: Vec<u32> = Vec::new();
        let mut j: usize = 0;
        while j < constants.len()
            invariant
                j <= constants@.len(),
                pool@ == constants@.take(j as int),
            decreases constants@.len() - j,
        {
            pool.push(constants[j]);
            j = j + 1;
            proof {
                assert(pool@ =~= constants@.take(j as int));
            }
        }
        proof {
            assert(constants@.take(constants@.len() as int) =~= constants@);
        }
        Ok(Program { opcodes: decoded, constants: pool })
    }

    /// This program as numeric opcodes and the constant pool.
    pub fn as_raw(&self) -> (r: (Vec<u32>, Vec<u32>))
        ensures
            r.0@ == self.opcodes@.map_values(|op: Opcode| opcode_code(op)),
            r.1@ == self.constants@,
    {
        let ghost codes = self.opcodes@.map_values(|op: Opcode| opcode_code(op));
        let mut raw: Vec<u32> = Vec::new();
        let mut i: usize = 0;
        while i < self.opcodes.len()
            invariant
                i <= self.opcodes@.len(),
                codes == self.opcodes@.map_values(|op: Opcode| opcode_code(op)),
                raw@ == codes.take(i as int),
            decreases self.opcodes@.len() - i,
        {
            raw.push(self.opcodes[i].to_u32());
            i = i + 1;
            proof {
                assert(raw@ =~= codes.take(i as int));
            }
        }
        proof {
            assert(codes.take(self.opcodes@.len() as int) =~= codes);
        }
        (raw, self.constants.clone())
    }

    /// The serialized form of this program, as [`spec_program_bytes`]
    /// describes it: a stable format for storing or sending compiled fields.
    pub fn as_bytes(&self) -> (r: Vec<u8>)
        ensures
            r@ == spec_program_bytes(self.constants@, self.opcodes@),
    {
        let ghost codes = self.opcodes@.map_values(|op: Opcode| opcode_code(op));
        let mut buf: Vec<u8> = Vec::new();
        push_u64_le(&mut buf, self.constants.len() as u64);
        let ghost header = le_bytes64(self.constants@.len() as u64);
        proof {
            assert(Seq::<u8>::empty() + header =~= header);
        }
        let mut i: usize = 0;
        while i < self.constants.len()
            invariant
                i <= self.constants@.len(),
                header == le_bytes64(self.constants@.len() as u64),
                buf@ == header + words_le_bytes(self.constants@, i as int),
            decreases self.constants@.len() - i,
        {
            push_u32_le(&mut buf, self.constants[i]);
            i = i + 1;
            proof {
                assert(buf@ =~= header + words_le_bytes(self.constants@, i as int));
            }
        }
        let ghost mid = header + words_le_bytes(self.constants@, self.constants@.len() as int)
            + le_bytes64(self.opcodes@.len() as u64);
        push_u64_le(&mut buf, self.opcodes.len() as u64);
        proof {
            assert(buf@ =~= mid);
        }
        let mut j: usize = 0;
        while j < self.opcodes.len()
            invariant
                j <= self.opcodes@.len(),
                codes == self.opcodes@.map_values(|op: Opcode| opcode_code(op)),
                mid == header + words_le_bytes(self.constants@, self.constants@.len() as int)
                    + le_bytes64(self.opcodes@.len() as u64),
                header == le_bytes64(self.constants@.len() as u64),
                buf@ == mid + words_le_bytes(codes, j as int),
            decreases self.opcodes@.len() - j,
        {
            push_u32_le(&mut buf, self.opcodes[j].to_u32());
            j = j + 1;
            proof {
                assert(buf@ =~= mid + words_le_bytes(codes, j as int));
            }
        }
        proof {
            assert(buf@ =~= spec_program_bytes(self.constants@, self.opcodes@));
        }
        buf
    }

    /// Parses the serialized form back into a program. On success the input
    /// is exactly the serialization of the result; anything shorter, longer,
    /// or with an unknown opcode is rejected.
    /// Parses the serialized form back into a program. Succeeds exactly on
    /// serialized programs: on success the input is the serialization of the
    /// result, and on failure no program at all serializes to the input
    /// (anything shorter, longer, or with an unknown opcode).
    #[verifier::rlimit(100)]
    pub fn from_bytes(bytes: &[u8]) -> (r: Result<Program, Error>)
        ensures
            match r {
                Ok(p) => bytes@ == spec_program_bytes(p.constants@, p.opcodes@),
                Err(e) => {
                    &&& (e == Error::BadProgram(crate::compiler::BadProgramReason::MalformedBytes)
                        || e == Error::BadProgram(
                        crate::compiler::BadProgramReason::UnknownOpcode,
                    ))
                    &&& forall|cs: Seq<u32>, ops: Seq<Opcode>|
                        bytes@ != #[trigger] spec_program_bytes(cs, ops)
                },
            },
    {
        let total: usize = bytes.len();
        if total < 8 {
            proof {
                assert forall|cs: Seq<u32>, ops2: Seq<Opcode>|
                    bytes@ != #[trigger] spec_program_bytes(cs, ops2) by {
                    if bytes@ == spec_program_bytes(cs, ops2) {
                        lemma_serialized_shape(bytes@, cs, ops2);
                    }
                }
            }
            return Err(Error::BadProgram(crate::compiler::BadProgramReason::MalformedBytes));
        }
        let clen64: u64 = read_u64_le(bytes, 0);
        if clen64 > ((total - 8) / 4) as u64 {
            proof {
                assert forall|cs: Seq<u32>, ops2: Seq<Opcode>|
                    bytes@ != #[trigger] spec_program_bytes(cs, ops2) by {
                    if bytes@ == spec_program_bytes(cs, ops2) {
                        lemma_serialized_shape(bytes@, cs, ops2);
                        lemma_le_bytes64_inj(clen64, cs.len() as u64);
                        assert(clen64 as int <= ((total - 8) as int) / 4) by (nonlinear_arith)
                            requires
                                4 * (clen64 as int) <= (total - 8) as int,
                        ;
                    }
                }
            }
            return Err(Error::BadProgram(crate::compiler::BadProgramReason::MalformedBytes));
        }
        let clen: usize = clen64 as usize;
        proof {
            assert(4 * (((total - 8) as int) / 4) <= (total - 8) as int) by (nonlinear_arith);
            assert(4 * clen <= 4 * (((total - 8) as int) / 4)) by (nonlinear_arith)
                requires
                    clen as int <= ((total - 8) as int) / 4,
            ;
        }
        let mut pool: Vec<u32> = Vec::new();
        let mut i: usize = 0;
        while i < clen
            invariant
                i <= clen,
                8 + 4 * clen <= total,
                total == bytes@.len(),
                pool@.len() == i,
                words_le_bytes(pool@, i as int) == bytes@.subrange(8, 8 + 4 * i),
            decreases clen - i,
        {
            let w = read_u32_le(bytes, 8 + 4 * i);
            let ghost prior = pool@;
            pool.push(w);
            i = i + 1;
            proof {
                lemma_words_le_bytes_push(prior, w, i as int - 1);
                assert(words_le_bytes(pool@, i as int) =~= bytes@.subrange(8, 8 + 4 * i as int));
            }
        }
        let opos: usize = 8 + 4 * clen;
        if total - opos < 8 {
            proof {
                assert forall|cs: Seq<u32>, ops2: Seq<Opcode>|
                    bytes@ != #[trigger] spec_program_bytes(cs, ops2) by {
                    if bytes@ == spec_program_bytes(cs, ops2) {
                        lemma_serialized_shape(bytes@, cs, ops2);
                        lemma_le_bytes64_inj(clen64, cs.len() as u64);
                    }
                }
            }
            return Err(Error::BadProgram(crate::compiler::BadProgramReason::MalformedBytes));
        }
        let olen64: u64 = read_u64_le(bytes, opos);
        if olen64 > ((total - opos - 8) / 4) as u64 {
            proof {
                assert forall|cs: Seq<u32>, ops2: Seq<Opcode>|
                    bytes@ != #[trigger] spec_program_bytes(cs, ops2) by {
                    if bytes@ == spec_program_bytes(cs, ops2) {
                        lemma_serialized_shape(bytes@, cs, ops2);
                        lemma_le_bytes64_inj(clen64, cs.len() as u64);
                        lemma_le_bytes64_inj(olen64, ops2.len() as u64);
                        assert(((total - opos - 8) as int) / 4 == ops2.len()) by (nonlinear_arith)
                            requires
                                (total - opos - 8) as int == 4 * ops2.len(),
                        ;
                    }
                }
            }
            return Err(Error::BadProgram(crate::compiler::BadProgramReason::MalformedBytes));
        }
        let olen: usize = olen64 as usize;
        proof {
            assert(4 * (((total - opos - 8) as int) / 4) <= (total - opos - 8) as int)
                by (nonlinear_arith);
            assert(4 * olen <= 4 * (((total - opos - 8) as int) / 4)) by (nonlinear_arith)
                requires
                    olen as int <= ((total - opos - 8) as int) / 4,
            ;
        }
        if total - opos - 8 != 4 * olen {
            proof {
                assert forall|cs: Seq<u32>, ops2: Seq<Opcode>|
                    bytes@ != #[trigger] spec_program_bytes(cs, ops2) by {
                    if bytes@ == spec_program_bytes(cs, ops2) {
                        lemma_serialized_shape(bytes@, cs, ops2);
                        lemma_le_bytes64_inj(clen64, cs.len() as u64);
                        lemma_le_bytes64_inj(olen64, ops2.len() as u64);
                    }
                }
            }
            return Err(Error::BadProgram(crate::compiler::BadProgramReason::MalformedBytes));
        }
        let wpos: usize = opos + 8;
        let mut decoded: Vec<Opcode> = Vec::new();
        let mut j: usize = 0;
        while j < olen
            invariant
                j <= olen,
                wpos == 8 + 4 * clen + 8,
                wpos + 4 * olen == total,
                total == bytes@.len(),
                le_bytes64(clen as u64) == bytes@.subrange(0, 8),
                le_bytes64(olen as u64) == bytes@.subrange(wpos as int - 8, wpos as int),
                decoded@.len() == j,
                words_le_bytes(
                    decoded@.map_values(|op: Opcode| opcode_code(op)),
                    j as int,
                ) == bytes@.subrange(wpos as int, wpos + 4 * j),
            decreases olen - j,
        {
            let w = read_u32_le(bytes, wpos + 4 * j);
            let op = match Opcode::from_u32(w) {
                Some(op) => op,
                None => {
                    proof {
                        assert forall|cs: Seq<u32>, ops2: Seq<Opcode>|
                            bytes@ != #[trigger] spec_program_bytes(cs, ops2) by {
                            if bytes@ == spec_program_bytes(cs, ops2) {
                                lemma_serialized_shape(bytes@, cs, ops2);
                                lemma_le_bytes64_inj(clen as u64, cs.len() as u64);
                                lemma_le_bytes64_inj(olen as u64, ops2.len() as u64);
                                assert(bytes@.subrange(
                                    16 + 4 * cs.len() as int + 4 * j,
                                    16 + 4 * cs.len() as int + 4 * j + 4,
                                ) == le_bytes(opcode_code(ops2[j as int])));
                                lemma_le_bytes_inj(w, opcode_code(ops2[j as int]));
                            }
                        }
                    }
                    return Err(
                        Error::BadProgram(crate::compiler::BadProgramReason::UnknownOpcode),
                    );
                },
            };
            let ghost prior_codes = decoded@.map_values(|op: Opcode| opcode_code(op));
            decoded.push(op);
            j = j + 1;
            proof {
                let codes = decoded@.map_values(|op: Opcode| opcode_code(op));
                assert(codes =~= prior_codes.push(w));
                lemma_words_le_bytes_push(prior_codes, w, j as int - 1);
                assert(words_le_bytes(codes, j as int) =~= bytes@.subrange(
                    wpos as int,
                    wpos + 4 * j as int,
                ));
            }
        }
        let program = Program { constants: pool, opcodes: decoded };
        proof {
            assert(bytes@ =~= spec_program_bytes(program.constants@, program.opcodes@));
        }
        Ok(program)
    }

    /// Appends the three components of a vector to the constant pool.
    pub(crate) fn constant_push_vec3(&mut self, v: Vec3Bits)
        ensures
            final(self).constants@ == old(self).constants@ + seq![v.x, v.y, v.z],
            final(self).opcodes@ == old(self).opcodes@,
    {
        self.constants.push(v.x);
        self.constants.push(v.y);
        self.constants.push(v.z);
        proof {
            assert(self.constants@ =~= old(self).constants@ + seq![v.x, v.y, v.z]);
        }
    }

    /// Appends the four components of a vector to the constant pool.
    pub(crate) fn constant_push_vec4(&mut self, v: Vec4Bits)
        ensures
            final(self).constants@ == old(self).constants@ + seq![v.x, v.y, v.z, v.w],
            final(self).opcodes@ == old(self).opcodes@,
    {
        self.constants.push(v.x);
        self.constants.push(v.y);
        self.constants.push(v.z);
        self.constants.push(v.w);
        proof {
            assert(self.constants@ =~= old(self).constants@ + seq![v.x, v.y, v.z, v.w]);
        }
    }
}

} // verus!
