use vstd::prelude::*;

use crate::instruction::{DecodeError, Instruction, InstructionView};

verus! {

/// The bytes an instruction is decoded from, and how far decoding has read.
#[derive(Debug)]
pub struct ByteStream {
    pub data: Vec<u8>,
    pub pos: usize,
}

impl ByteStream {
    /// The bytes not yet read.
    pub open spec fn remaining(&self) -> Seq<u8> {
        if self.pos <= self.data.len() {
            self.data@.subrange(self.pos as int, self.data.len() as int)
        } else {
            Seq::empty()
        }
    }

    /// A stream positioned at the first of `data`.
    pub fn new(data: Vec<u8>) -> (r: ByteStream)
        ensures
            r.data@ == data@,
            r.pos == 0,
            r.remaining() == data@,
    {
        let r = ByteStream { data, pos: 0 };
        assert(r.remaining() =~= r.data@);
        r
    }

    /// Reads the next byte, or `None` at the end of the input.
    pub fn next(&mut self) -> (r: Option<u8>)
        ensures
            r == (if old(self).remaining().len() > 0 {
                Some(old(self).remaining()[0])
            } else {
                None::<u8>
            }),
            advanced(*old(self), *final(self), if r is Some { 1 } else { 0 }),
    {
        if self.pos < self.data.len() {
            let b = self.data[self.pos];
            let ghost before = self.remaining();
            self.pos = self.pos + 1;
            assert(self.remaining() =~= before.skip(1));
            Some(b)
        } else {
            assert(old(self).remaining().skip(0) =~= old(self).remaining());
            None
        }
    }
}

/// `n` read `used` bytes from where `o` stood, and nothing else changed.
pub open spec fn advanced(o: ByteStream, n: ByteStream, used: int) -> bool {
    &&& n.data@ == o.data@
    &&& 0 <= used <= o.remaining().len()
    &&& n.pos == o.pos + used
    &&& n.remaining() == o.remaining().skip(used)
}

/// Reading `u1` then `u2` bytes reads `u1 + u2` bytes.
pub broadcast proof fn lemma_advanced_trans(a: ByteStream, b: ByteStream, c: ByteStream, u1: int, u2: int)
    requires
        #[trigger] advanced(a, b, u1),
        #[trigger] advanced(b, c, u2),
    ensures
        advanced(a, c, u1 + u2),
{
    assert(a.remaining().skip(u1).skip(u2) =~= a.remaining().skip(u1 + u2));
}

/// What a decoding step produced: its result, the instruction it left behind,
/// and how many input bytes it read.
pub struct Step<T> {
    pub res: Result<T, DecodeError>,
    pub instr: InstructionView,
    pub used: int,
}

/// An executable step from `(ob, oi, ol)` to `(nb, ni, nl)` returning `r` did what `out` says:
/// the same result and instruction, `out.used` bytes read, and the running length
/// grown by exactly the bytes read.
pub open spec fn follows<T>(
    out: Step<T>,
    r: Result<T, DecodeError>,
    ob: ByteStream,
    nb: ByteStream,
    ni: Instruction,
    ol: u8,
    nl: u8,
) -> bool {
    &&& r == out.res
    &&& ni@ == out.instr
    &&& advanced(ob, nb, out.used)
    &&& nl == ol + out.used
}

/// `256` to the power `n`.
pub open spec fn pow256(n: nat) -> nat
    decreases n,
{
    if n == 0 {
        1
    } else {
        256 * pow256((n - 1) as nat)
    }
}

/// The value of bytes read as a little-endian unsigned number.
pub open spec fn le_value(b: Seq<u8>) -> nat
    decreases b.len(),
{
    if b.len() == 0 {
        0
    } else {
        le_value(b.drop_last()) + (b.last() as nat) * pow256((b.len() - 1) as nat)
    }
}

/// What reading plain bytes produced: a result and how many bytes were read.
pub struct Read<T> {
    pub res: Result<T, DecodeError>,
    pub used: int,
}

/// An executable read from `ob` to `nb` returning `r` did what `out` says, and the
/// running length grew by exactly the bytes read.
pub open spec fn reads<T>(out: Read<T>, r: Result<T, DecodeError>, ob: ByteStream, nb: ByteStream, ol: u8, nl: u8) -> bool {
    &&& r == out.res
    &&& advanced(ob, nb, out.used)
    &&& nl == ol + out.used
}

/// Reading a single byte: the byte and one byte used, or `ExhaustedInput` and none.
pub open spec fn spec_read_byte(inp: Seq<u8>) -> Read<u8> {
    if inp.len() > 0 {
        Read { res: Ok(inp[0]), used: 1 }
    } else {
        Read { res: Err(DecodeError::ExhaustedInput), used: 0 }
    }
}

/// Reading a `width`-byte little-endian number: its value, or `ExhaustedInput`
/// after reading every byte that was left.
pub open spec fn spec_read_num(inp: Seq<u8>, width: int) -> Read<u64> {
    if width <= inp.len() {
        Read { res: Ok(le_value(inp.take(width)) as u64), used: width }
    } else {
        Read { res: Err(DecodeError::ExhaustedInput), used: inp.len() as int }
    }
}

/// Reads the ModRM byte.
pub fn read_modrm(bytes: &mut ByteStream, length: &mut u8) -> (r: Result<u8, DecodeError>)
    requires
        *old(length) < 255,
    ensures
        reads(spec_read_byte(old(bytes).remaining()), r, *old(bytes), *final(bytes), *old(length), *final(length)),
{
    match bytes.next() {
        Some(b) => {
            *length = *length + 1;
            Ok(b)
        },
        None => Err(DecodeError::ExhaustedInput),
    }
}

proof fn lemma_le_value_step(inp: Seq<u8>, idx: int)
    requires
        0 <= idx < inp.len(),
    ensures
        le_value(inp.take(idx + 1)) == le_value(inp.take(idx)) + inp[idx] * pow256(idx as nat),
{
    assert(inp.take(idx + 1).drop_last() =~= inp.take(idx));
}

/// Reads a `width`-byte little-endian number, counting each byte read into `length`.
pub fn read_num(bytes: &mut ByteStream, width: u8, length: &mut u8) -> (r: Result<u64, DecodeError>)
    requires
        width <= 4,
        *old(length) + width <= 255,
    ensures
        reads(spec_read_num(old(bytes).remaining(), width as int), r, *old(bytes), *final(bytes), *old(length), *final(length)),
{
    let ghost start = *old(bytes);
    let ghost inp = start.remaining();
    let mut result: u64 = 0;
    let mut mult: u64 = 1;
    let mut idx: u8 = 0;
    assert(inp.take(0) =~= Seq::<u8>::empty());
    assert(inp.skip(0) =~= inp);
    while idx < width
        invariant
            width <= 4,
            idx <= width,
            idx <= inp.len(),
            *old(length) + width <= 255,
            inp == start.remaining(),
            start == *old(bytes),
            advanced(start, *bytes, idx as int),
            *length == *old(length) + idx,
            result == le_value(inp.take(idx as int)),
            mult == pow256(idx as nat),
            result < mult,
        decreases width - idx,
    {
        let ghost before = *bytes;
        match bytes.next() {
            Some(byte) => {
                proof {
                    lemma_advanced_trans(start, before, *bytes, idx as int, 1);
                    lemma_le_value_step(inp, idx as int);
                    assert(inp.skip(idx as int)[0] == inp[idx as int]);
                    assert(result + byte * mult < 256 * mult) by (nonlinear_arith)
                        requires
                            result < mult,
                            byte <= 255,
                    ;
                    assert(mult <= 0x100_0000) by {
                        reveal_with_fuel(pow256, 4);
                        if idx == 0 {
                        } else if idx == 1 {
                        } else if idx == 2 {
                        } else {
                            assert(idx == 3);
                        }
                    }
                }
                result = result + (byte as u64) * mult;
                mult = mult * 256;
                idx = idx + 1;
                *length = *length + 1;
            },
            None => {
                proof {
                    lemma_advanced_trans(start, before, *bytes, idx as int, 0);
                }
                assert(inp.len() == idx);
                return Err(DecodeError::ExhaustedInput);
            },
        }
    }
    Ok(result)
}

/// Reads an unsigned immediate of `width` bytes.
pub fn read_imm_unsigned(bytes: &mut ByteStream, width: u8, length: &mut u8) -> (r: Result<u64, DecodeError>)
    requires
        width <= 4,
        *old(length) + width <= 255,
    ensures
        reads(spec_read_num(old(bytes).remaining(), width as int), r, *old(bytes), *final(bytes), *old(length), *final(length)),
{
    read_num(bytes, width, length)
}

/// Reading a displacement of one or four bytes, sign-extended to 32 bits.
pub open spec fn spec_read_disp(inp: Seq<u8>, width: int) -> Read<i32> {
    let r = spec_read_num(inp, width);
    Read {
        res: match r.res {
            Ok(v) => Ok(if width == 1 { v as u8 as i8 as i32 } else { v as u32 as i32 }),
            Err(e) => Err(e),
        },
        used: r.used,
    }
}

/// Reads a displacement of one or four bytes, sign-extended to 32 bits.
pub fn read_disp(bytes: &mut ByteStream, width: u8, length: &mut u8) -> (r: Result<i32, DecodeError>)
    requires
        width == 1 || width == 4,
        *old(length) + width <= 255,
    ensures
        reads(spec_read_disp(old(bytes).remaining(), width as int), r, *old(bytes), *final(bytes), *old(length), *final(length)),
{
    let v = read_num(bytes, width, length)?;
    if width == 1 {
        Ok(v as u8 as i8 as i32)
    } else {
        Ok(v as u32 as i32)
    }
}

} // verus!
