//! The bytecode file: 4096 little-endian code words followed by up to 512
//! field records (a type word and a signed value each).
use vstd::prelude::*;
use crate::text::{push_decimal_u64, decimal_digits};
use crate::units::{le_u16, le_u32};

verus! {

/// Number of code words in a script.
pub const MAX_CODES: usize = 4096;
/// Maximum number of field records.
pub const MAX_FIELDS: usize = 512;

/// Field holding a literal constant.
pub const FIELD_CONSTANT: u32 = 0;
/// Field naming a user variable.
pub const FIELD_USER: u32 = 1;
/// Field naming an internal value.
pub const FIELD_INTERNAL: u32 = 2;

/// A field record: what kind of operand it is and its value.
#[derive(Debug, Clone, Copy, PartialEq, Eq, Structural)]
pub struct Field {
    pub field_type: u32,
    pub value: i32,
}

/// A bytecode script: code words and field records.
#[derive(Debug, Clone)]
pub struct Script {
    pub codes: Vec<u16>,
    pub fields: Vec<Field>,
}

/// The code words a file holds.
pub open spec fn codes_of(data: Seq<u8>) -> Seq<u16> {
    Seq::new(MAX_CODES as nat, |i: int| le_u16(data[2 * i], data[2 * i + 1]))
}

/// How many field records follow the code words: as many whole eight-byte
/// records as fit, at most 512.
pub open spec fn field_count(len: int) -> int {
    let n = (len - 2 * MAX_CODES) / 8;
    if n < MAX_FIELDS { n } else { MAX_FIELDS as int }
}

/// Field record `i` of a file.
pub open spec fn field_of(data: Seq<u8>, i: int) -> Field {
    let o = 2 * MAX_CODES + 8 * i;
    Field {
        field_type: le_u32(data[o], data[o + 1], data[o + 2], data[o + 3]),
        value: le_u32(data[o + 4], data[o + 5], data[o + 6], data[o + 7]) as i32,
    }
}

/// The field records of a file.
pub open spec fn fields_of(data: Seq<u8>) -> Seq<Field> {
    Seq::new(field_count(data.len() as int) as nat, |i: int| field_of(data, i))
}

/// The message for a file too small to hold the code words.
pub open spec fn too_small_message(len: nat) -> Seq<char> {
    "File too small for codes: "@ + decimal_digits(len) + " bytes"@
}

fn read_u16(lo: u8, hi: u8) -> (r: u16)
    ensures
        r == le_u16(lo, hi),
{
    (lo as u16) | ((hi as u16) << 8u16)
}

fn read_u32(b0: u8, b1: u8, b2: u8, b3: u8) -> (r: u32)
    ensures
        r == le_u32(b0, b1, b2, b3),
{
    (b0 as u32) | ((b1 as u32) << 8u32) | ((b2 as u32) << 16u32) | ((b3 as u32) << 24u32)
}

impl Script {
    /// Read a script file: the 4096 code words, then as many whole field
    /// records as fit (at most 512); a file shorter than the code words is refused.
    pub fn read(data: &[u8]) -> (r: Result<Self, String>)
        ensures
            data@.len() < 2 * MAX_CODES ==> (r matches Err(m) && m@ == too_small_message(data@.len())),
            data@.len() >= 2 * MAX_CODES ==> (r matches Ok(s) && s.codes@ == codes_of(data@)
                && s.fields@ == fields_of(data@)),
    {
        let code_bytes = MAX_CODES * 2;
        if data.len() < code_bytes {
            let mut m = String::from_str("File too small for codes: ");
            push_decimal_u64(&mut m, data.len() as u64);
            m.append(" bytes");
            return Err(m);
        }
        let mut codes: Vec<u16> = Vec::new();
        let mut i: usize = 0;
        while i < MAX_CODES
            invariant
                data@.len() >= 2 * MAX_CODES,
                0 <= i <= MAX_CODES,
                codes@.len() == i,
                forall|j: int| 0 <= j < i ==> codes@[j] == le_u16(data@[2 * j], data@[2 * j + 1]),
            decreases MAX_CODES - i,
        {
            let off = i * 2;
            codes.push(read_u16(data[off], data[off + 1]));
            i = i + 1;
        }
        assert(codes@ =~= codes_of(data@));
        let remaining = data.len() - code_bytes;
        let count = if remaining / 8 < MAX_FIELDS { remaining / 8 } else { MAX_FIELDS };
        assert((remaining / 8) * 8 <= remaining) by (nonlinear_arith);
        assert(count * 8 <= remaining) by (nonlinear_arith)
            requires
                count <= remaining / 8,
                (remaining / 8) * 8 <= remaining,
        ;
        let mut fields: Vec<Field> = Vec::new();
        let mut k: usize = 0;
        while k < count
            invariant
                data@.len() >= 2 * MAX_CODES,
                count == field_count(data@.len() as int),
                code_bytes == 2 * MAX_CODES,
                count * 8 <= data@.len() - 2 * MAX_CODES,
                0 <= k <= count,
                fields@.len() == k,
                forall|j: int| 0 <= j < k ==> fields@[j] == field_of(data@, j),
            decreases count - k,
        {
            assert(k * 8 + 8 <= count * 8) by (nonlinear_arith)
                requires
                    k < count,
            ;
            let off = code_bytes + k * 8;
            let ft = read_u32(data[off], data[off + 1], data[off + 2], data[off + 3]);
            let val = read_u32(data[off + 4], data[off + 5], data[off + 6], data[off + 7]) as i32;
            fields.push(Field { field_type: ft, value: val });
            k = k + 1;
        }
        assert(fields@ =~= fields_of(data@));
        Ok(Script { codes, fields })
    }
}

} // verus!
