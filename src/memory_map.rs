//! Records of the firmware memory map as the loader writes them out: one
//! line per region, four fields of sixteen lower-case hex digits.
use vstd::prelude::*;

verus! {

/// One region of the memory map, with the firmware's raw codes.
#[derive(Clone, Copy, PartialEq, Eq, Debug, Structural)]
pub struct MemoryDescriptor {
    pub memory_type: u32,
    pub physical_start: u64,
    pub page_count: u64,
    pub attribute: u64,
}

/// Highest memory type code that the UEFI specification defines
/// (persistent memory).
pub const LAST_MEMORY_TYPE: u32 = 14;

/// Code written for a memory type outside the defined ones.
pub const UNKNOWN_MEMORY_TYPE: u32 = 0xffff_ffff;

pub open spec fn memory_type_code_of(raw: u32) -> u32 {
    if raw <= LAST_MEMORY_TYPE {
        raw
    } else {
        UNKNOWN_MEMORY_TYPE
    }
}

/// The attribute values that the dump names: each single attribute bit.
pub open spec fn is_named_attribute(raw: u64) -> bool {
    raw == 0x1 || raw == 0x2 || raw == 0x4 || raw == 0x8 || raw == 0x10 || raw == 0x1000 || raw
        == 0x2000 || raw == 0x4000 || raw == 0x8000 || raw == 0x1_0000 || raw == 0x2_0000 || raw
        == 0x8000_0000_0000_0000
}

pub open spec fn attribute_code_of(raw: u64) -> u64 {
    if is_named_attribute(raw) {
        raw
    } else {
        0
    }
}

/// Lower-case ASCII hex digit of `d`.
pub open spec fn hex_char(d: int) -> u8 {
    if d < 10 {
        (0x30 + d) as u8
    } else {
        (0x61 + d - 10) as u8
    }
}

/// The last `n` hex digits of `v`, most significant first.
pub open spec fn hex_digits(v: nat, n: nat) -> Seq<u8>
    decreases n,
{
    if n == 0 {
        Seq::empty()
    } else {
        hex_digits(v / 16, (n - 1) as nat).push(hex_char((v % 16) as int))
    }
}

/// The line written for region `d`.
pub open spec fn record_line(d: MemoryDescriptor) -> Seq<u8> {
    hex_digits(memory_type_code_of(d.memory_type) as nat, 16) + seq![0x2cu8] + hex_digits(
        d.physical_start as nat,
        16,
    ) + seq![0x2cu8] + hex_digits(d.page_count as nat, 16) + seq![0x2cu8] + hex_digits(
        attribute_code_of(d.attribute) as nat,
        16,
    ) + seq![0x0au8]
}

pub fn memory_type_code(raw: u32) -> (r: u32)
    ensures
        r == memory_type_code_of(raw),
{
    if raw <= LAST_MEMORY_TYPE {
        raw
    } else {
        UNKNOWN_MEMORY_TYPE
    }
}

pub fn attribute_code(raw: u64) -> (r: u64)
    ensures
        r == attribute_code_of(raw),
{
    if raw == 0x1 || raw == 0x2 || raw == 0x4 || raw == 0x8 || raw == 0x10 || raw == 0x1000 || raw
        == 0x2000 || raw == 0x4000 || raw == 0x8000 || raw == 0x1_0000 || raw == 0x2_0000 || raw
        == 0x8000_0000_0000_0000 {
        raw
    } else {
        0
    }
}

/// Appends the sixteen hex digits of `v` to `out`.
fn push_hex16(out: &mut Vec<u8>, v: u64)
    ensures
        final(out)@ == old(out)@ + hex_digits(v as nat, 16),
{
    let mut digits: Vec<u8> = vec![0x30u8; 16];
    let mut x: u64 = v;
    let mut k: usize = 0;
    let ghost mut tail: Seq<u8> = Seq::empty();
    while k < 16
        invariant
            k <= 16,
            digits@.len() == 16,
            tail.len() == k,
            digits@.subrange(16 - k as int, 16) == tail,
            hex_digits(v as nat, 16) == hex_digits(x as nat, (16 - k) as nat) + tail,
        decreases 16 - k,
    {
        let d = x % 16;
        let c: u8 = if d < 10 {
            0x30 + d as u8
        } else {
            0x61 + (d - 10) as u8
        };
        digits.set(15 - k, c);
        proof {
            let n = (16 - k) as nat;
            assert(hex_digits(x as nat, n) == hex_digits((x / 16) as nat, (n - 1) as nat).push(
                hex_char((x % 16) as int),
            ));
            assert(hex_digits(x as nat, n) + tail =~= hex_digits((x / 16) as nat, (n - 1) as nat)
                + seq![c].add(tail));
            tail = seq![c].add(tail);
            assert(digits@.subrange(15 - k as int, 16) =~= tail);
        }
        x = x / 16;
        k = k + 1;
    }
    assert(hex_digits(x as nat, 0) =~= Seq::<u8>::empty());
    assert(digits@ =~= tail);
    let mut i: usize = 0;
    let ghost start = out@;
    while i < 16
        invariant
            i <= 16,
            digits@.len() == 16,
            digits@ == hex_digits(v as nat, 16),
            out@ == start + digits@.take(i as int),
        decreases 16 - i,
    {
        out.push(digits[i]);
        assert(out@ =~= start + digits@.take(i + 1));
        i = i + 1;
    }
    assert(digits@.take(16) =~= digits@);
}

/// The line written for region `d`, newline included.
pub fn format_record(d: &MemoryDescriptor) -> (r: Vec<u8>)
    ensures
        r@ == record_line(*d),
{
    let mut out: Vec<u8> = Vec::new();
    push_hex16(&mut out, memory_type_code(d.memory_type) as u64);
    out.push(0x2c);
    push_hex16(&mut out, d.physical_start);
    out.push(0x2c);
    push_hex16(&mut out, d.page_count);
    out.push(0x2c);
    push_hex16(&mut out, attribute_code(d.attribute));
    out.push(0x0a);
    assert(out@ =~= record_line(*d));
    out
}

} // verus!
