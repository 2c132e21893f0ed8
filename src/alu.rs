use vstd::prelude::*;

verus! {

/// The result byte of an 8-bit operation and the four flags it produces.
#[derive(Clone, Copy, Debug, PartialEq, Eq, Structural)]
pub struct AluOut {
    pub value: u8,
    pub z: bool,
    pub n: bool,
    pub h: bool,
    pub c: bool,
}

pub open spec fn bit(b: bool) -> int {
    if b {
        1
    } else {
        0
    }
}

/// `v` reduced to a byte.
pub open spec fn wrap8(v: int) -> u8 {
    (v % 256) as u8
}

/// `v` reduced to a word.
pub open spec fn wrap16(v: int) -> u16 {
    (v % 65536) as u16
}

pub open spec fn out(value: u8, n: bool, h: bool, c: bool) -> AluOut {
    AluOut { value, z: value == 0, n, h, c }
}

/// ADD A,x and ADC A,x: carry in only for ADC.
pub open spec fn spec_add(a: u8, x: u8, cin: bool) -> AluOut {
    out(
        wrap8(a + x + bit(cin)),
        false,
        (a & 0x0F) + (x & 0x0F) + bit(cin) > 0x0F,
        a + x + bit(cin) > 0xFF,
    )
}

/// SUB A,x, CP A,x and SBC A,x: borrow in only for SBC.
pub open spec fn spec_sub(a: u8, x: u8, cin: bool) -> AluOut {
    out(wrap8(a - x - bit(cin)), true, (a & 0x0F) < (x & 0x0F) + bit(cin), a < x + bit(cin))
}

pub open spec fn spec_and(a: u8, x: u8) -> AluOut {
    out(a & x, false, true, false)
}

pub open spec fn spec_or(a: u8, x: u8) -> AluOut {
    out(a | x, false, false, false)
}

pub open spec fn spec_xor(a: u8, x: u8) -> AluOut {
    out(a ^ x, false, false, false)
}

pub open spec fn rlc_byte(x: u8) -> u8 {
    wrap8(2 * x + x / 128)
}

pub open spec fn rrc_byte(x: u8) -> u8 {
    (x / 2 + (x % 2) * 128) as u8
}

pub open spec fn rl_byte(x: u8, cin: bool) -> u8 {
    wrap8(2 * x + bit(cin))
}

pub open spec fn rr_byte(x: u8, cin: bool) -> u8 {
    (x / 2 + bit(cin) * 128) as u8
}

pub open spec fn sla_byte(x: u8) -> u8 {
    wrap8(2 * x)
}

pub open spec fn sra_byte(x: u8) -> u8 {
    (x / 2 + (if x >= 128 {
        128int
    } else {
        0
    })) as u8
}

pub open spec fn srl_byte(x: u8) -> u8 {
    (x / 2) as u8
}

/// Rotate left; bit 7 goes to bit 0 and to the carry.
pub open spec fn spec_rlc(x: u8) -> AluOut {
    out(rlc_byte(x), false, false, x >= 128)
}

/// Rotate right; bit 0 goes to bit 7 and to the carry.
pub open spec fn spec_rrc(x: u8) -> AluOut {
    out(rrc_byte(x), false, false, x % 2 == 1)
}

/// Rotate left through the carry.
pub open spec fn spec_rl(x: u8, cin: bool) -> AluOut {
    out(rl_byte(x, cin), false, false, x >= 128)
}

/// Rotate right through the carry.
pub open spec fn spec_rr(x: u8, cin: bool) -> AluOut {
    out(rr_byte(x, cin), false, false, x % 2 == 1)
}

/// Shift left; bit 0 becomes 0.
pub open spec fn spec_sla(x: u8) -> AluOut {
    out(sla_byte(x), false, false, x >= 128)
}

/// Arithmetic shift right; bit 7 is kept.
pub open spec fn spec_sra(x: u8) -> AluOut {
    out(sra_byte(x), false, false, x % 2 == 1)
}

/// Logical shift right; bit 7 becomes 0.
pub open spec fn spec_srl(x: u8) -> AluOut {
    out(srl_byte(x), false, false, x % 2 == 1)
}

/// Exchange the two nibbles.
pub open spec fn spec_swap(x: u8) -> AluOut {
    out(((x % 16) * 16 + x / 16) as u8, false, false, false)
}

/// The BCD correction applied to A after an addition (`n` clear) or a subtraction.
pub open spec fn daa_offset(a: u8, n: bool, h: bool, c: bool) -> int {
    (if c || (!n && a > 0x99) {
        0x60int
    } else {
        0
    }) + (if h || (!n && (a & 0x0F) > 9) {
        0x06int
    } else {
        0
    })
}

/// DAA: A adjusted for BCD; Z from the result, H cleared, C set when a high correction was
/// applied.
pub open spec fn spec_daa(a: u8, n: bool, h: bool, c: bool) -> AluOut {
    out(
        if n {
            wrap8(a - daa_offset(a, n, h, c))
        } else {
            wrap8(a + daa_offset(a, n, h, c))
        },
        n,
        false,
        c || (!n && a > 0x99),
    )
}

/// `a + b` modulo 2^16.
pub fn add16(a: u16, b: u16) -> (r: u16)
    ensures
        r == wrap16(a + b),
{
    ((a as u32 + b as u32) % 65536) as u16
}

/// `a - b` modulo 2^16.
pub fn sub16(a: u16, b: u16) -> (r: u16)
    ensures
        r == wrap16(a - b),
{
    proof {
        vstd::arithmetic::div_mod::lemma_mod_add_multiples_vanish(a - b, 65536);
    }
    ((a as u32 + 65536 - b as u32) % 65536) as u16
}

/// `x + 1` modulo 2^8.
pub fn inc8(x: u8) -> (r: u8)
    ensures
        r == wrap8(x + 1),
{
    ((x as u16 + 1) % 256) as u8
}

/// `x - 1` modulo 2^8.
pub fn dec8(x: u8) -> (r: u8)
    ensures
        r == wrap8(x - 1),
{
    proof {
        vstd::arithmetic::div_mod::lemma_mod_add_multiples_vanish(x - 1, 256);
    }
    ((x as u16 + 255) % 256) as u8
}

pub fn add_carry(a: u8, x: u8, cin: bool) -> (r: AluOut)
    ensures
        r == spec_add(a, x, cin),
{
    let ci: u16 = if cin {
        1
    } else {
        0
    };
    let sum: u16 = a as u16 + x as u16 + ci;
    let half: u16 = (a & 0x0F) as u16 + (x & 0x0F) as u16 + ci;
    let value = (sum % 256) as u8;
    AluOut { value, z: value == 0, n: false, h: half > 0x0F, c: sum > 0xFF }
}

pub fn sub_borrow(a: u8, x: u8, cin: bool) -> (r: AluOut)
    ensures
        r == spec_sub(a, x, cin),
{
    let ci: u16 = if cin {
        1
    } else {
        0
    };
    let diff: u16 = (a as u16 + 512 - x as u16 - ci) % 256;
    let value = diff as u8;
    AluOut {
        value,
        z: value == 0,
        n: true,
        h: ((a & 0x0F) as u16) < (x & 0x0F) as u16 + ci,
        c: (a as u16) < x as u16 + ci,
    }
}

pub fn and(a: u8, x: u8) -> (r: AluOut)
    ensures
        r == spec_and(a, x),
{
    let value = a & x;
    AluOut { value, z: value == 0, n: false, h: true, c: false }
}

pub fn or(a: u8, x: u8) -> (r: AluOut)
    ensures
        r == spec_or(a, x),
{
    let value = a | x;
    AluOut { value, z: value == 0, n: false, h: false, c: false }
}

pub fn xor(a: u8, x: u8) -> (r: AluOut)
    ensures
        r == spec_xor(a, x),
{
    let value = a ^ x;
    AluOut { value, z: value == 0, n: false, h: false, c: false }
}

pub fn rlc(x: u8) -> (r: AluOut)
    ensures
        r == spec_rlc(x),
{
    let value = ((2 * x as u16 + x as u16 / 128) % 256) as u8;
    AluOut { value, z: value == 0, n: false, h: false, c: x >= 128 }
}

pub fn rrc(x: u8) -> (r: AluOut)
    ensures
        r == spec_rrc(x),
{
    let value = x / 2 + (x % 2) * 128;
    AluOut { value, z: value == 0, n: false, h: false, c: x % 2 == 1 }
}

pub fn rl(x: u8, cin: bool) -> (r: AluOut)
    ensures
        r == spec_rl(x, cin),
{
    let ci: u16 = if cin {
        1
    } else {
        0
    };
    let value = ((2 * x as u16 + ci) % 256) as u8;
    AluOut { value, z: value == 0, n: false, h: false, c: x >= 128 }
}

pub fn rr(x: u8, cin: bool) -> (r: AluOut)
    ensures
        r == spec_rr(x, cin),
{
    let top: u8 = if cin {
        128
    } else {
        0
    };
    let value = x / 2 + top;
    AluOut { value, z: value == 0, n: false, h: false, c: x % 2 == 1 }
}

pub fn sla(x: u8) -> (r: AluOut)
    ensures
        r == spec_sla(x),
{
    let value = ((2 * x as u16) % 256) as u8;
    AluOut { value, z: value == 0, n: false, h: false, c: x >= 128 }
}

pub fn sra(x: u8) -> (r: AluOut)
    ensures
        r == spec_sra(x),
{
    let top: u8 = if x >= 128 {
        128
    } else {
        0
    };
    let value = x / 2 + top;
    AluOut { value, z: value == 0, n: false, h: false, c: x % 2 == 1 }
}

pub fn srl(x: u8) -> (r: AluOut)
    ensures
        r == spec_srl(x),
{
    let value = x / 2;
    AluOut { value, z: value == 0, n: false, h: false, c: x % 2 == 1 }
}

pub fn swap(x: u8) -> (r: AluOut)
    ensures
        r == spec_swap(x),
{
    let value = (x % 16) * 16 + x / 16;
    AluOut { value, z: value == 0, n: false, h: false, c: false }
}

pub fn daa(a: u8, n: bool, h: bool, c: bool) -> (r: AluOut)
    ensures
        r == spec_daa(a, n, h, c),
{
    let high = c || (!n && a > 0x99);
    let low = h || (!n && (a & 0x0F) > 9);
    let offset: u16 = (if high {
        0x60u16
    } else {
        0
    }) + (if low {
        0x06u16
    } else {
        0
    });
    let value = if n {
        ((a as u16 + 256 - offset) % 256) as u8
    } else {
        ((a as u16 + offset) % 256) as u8
    };
    AluOut { value, z: value == 0, n, h: false, c: high }
}

/// RLC applied `n` times.
pub open spec fn rlc_times(x: u8, n: nat) -> AluOut
    decreases n,
{
    if n <= 1 {
        spec_rlc(x)
    } else {
        spec_rlc(rlc_times(x, (n - 1) as nat).value)
    }
}

/// RRC applied `n` times.
pub open spec fn rrc_times(x: u8, n: nat) -> AluOut
    decreases n,
{
    if n <= 1 {
        spec_rrc(x)
    } else {
        spec_rrc(rrc_times(x, (n - 1) as nat).value)
    }
}

/// RL applied `n` times, each taking the carry that the one before left.
pub open spec fn rl_times(x: u8, cin: bool, n: nat) -> AluOut
    decreases n,
{
    if n <= 1 {
        spec_rl(x, cin)
    } else {
        let o = rl_times(x, cin, (n - 1) as nat);
        spec_rl(o.value, o.c)
    }
}

/// RR applied `n` times, each taking the carry that the one before left.
pub open spec fn rr_times(x: u8, cin: bool, n: nat) -> AluOut
    decreases n,
{
    if n <= 1 {
        spec_rr(x, cin)
    } else {
        let o = rr_times(x, cin, (n - 1) as nat);
        spec_rr(o.value, o.c)
    }
}

/// SLA, SRL and SRA applied `n` times.
pub open spec fn sla_times(x: u8, n: nat) -> AluOut
    decreases n,
{
    if n <= 1 {
        spec_sla(x)
    } else {
        spec_sla(sla_times(x, (n - 1) as nat).value)
    }
}

pub open spec fn srl_times(x: u8, n: nat) -> AluOut
    decreases n,
{
    if n <= 1 {
        spec_srl(x)
    } else {
        spec_srl(srl_times(x, (n - 1) as nat).value)
    }
}

pub open spec fn sra_times(x: u8, n: nat) -> AluOut
    decreases n,
{
    if n <= 1 {
        spec_sra(x)
    } else {
        spec_sra(sra_times(x, (n - 1) as nat).value)
    }
}

/// Rotations come back: eight RLC or RRC give the byte back, with the carry holding the bit
/// last moved (bit 0 of the byte for RLC, bit 7 for RRC) and Z telling whether the byte is
/// 0; nine RL or RR through the carry give back both byte and carry. Shifts empty the byte:
/// eight SLA or SRL leave 0 with Z set, the carry holding the last bit shifted out; seven SRA
/// leave 0 or 0xFF by the sign.
pub proof fn lemma_rotations_return(x: u8, cin: bool)
    ensures
        rlc_times(x, 8).value == x,
        rlc_times(x, 8).c == (x % 2 == 1),
        rlc_times(x, 8).z == (x == 0),
        rrc_times(x, 8).value == x,
        rrc_times(x, 8).c == (x >= 128),
        rrc_times(x, 8).z == (x == 0),
        rl_times(x, cin, 9).value == x,
        rl_times(x, cin, 9).c == cin,
        rr_times(x, cin, 9).value == x,
        rr_times(x, cin, 9).c == cin,
        sla_times(x, 8).value == 0,
        sla_times(x, 8).z,
        sla_times(x, 8).c == (x % 2 == 1),
        srl_times(x, 8).value == 0,
        srl_times(x, 8).z,
        srl_times(x, 8).c == (x >= 128),
        sra_times(x, 7).value == (if x >= 128 {
            0xFFu8
        } else {
            0
        }),
{
    lemma_rlc_cycle(x);
    lemma_rrc_cycle(x);
    lemma_rl_cycle(x, cin);
    lemma_rr_cycle(x, cin);
    lemma_shifts_empty(x);
}

proof fn lemma_rlc_cycle(x: u8)
    ensures
        rlc_times(x, 8).value == x,
        rlc_times(x, 8).c == (x % 2 == 1),
        rlc_times(x, 8).z == (x == 0),
{
    reveal_with_fuel(rlc_times, 8);
    assert(rlc_byte(rlc_byte(rlc_byte(rlc_byte(rlc_byte(rlc_byte(rlc_byte(rlc_byte(x))))))))
        == x) by (bit_vector);
    assert(rlc_byte(rlc_byte(rlc_byte(rlc_byte(rlc_byte(rlc_byte(rlc_byte(x))))))) >= 128
        <==> x % 2 == 1) by (bit_vector);
}

proof fn lemma_rrc_cycle(x: u8)
    ensures
        rrc_times(x, 8).value == x,
        rrc_times(x, 8).c == (x >= 128),
        rrc_times(x, 8).z == (x == 0),
{
    reveal_with_fuel(rrc_times, 8);
    assert(rrc_byte(rrc_byte(rrc_byte(rrc_byte(rrc_byte(rrc_byte(rrc_byte(rrc_byte(x))))))))
        == x) by (bit_vector);
    assert(rrc_byte(rrc_byte(rrc_byte(rrc_byte(rrc_byte(rrc_byte(rrc_byte(x))))))) % 2 == 1
        <==> x >= 128) by (bit_vector);
}

/// Nine steps of a 9-bit rotation left through the carry.
proof fn lemma_rl_bits(x: u8, c: bool)
    by (bit_vector)
    ensures
        ({
            let v1 = rl_byte(x, c);
            let c1 = x >= 128;
            let v2 = rl_byte(v1, c1);
            let c2 = v1 >= 128;
            let v3 = rl_byte(v2, c2);
            let c3 = v2 >= 128;
            let v4 = rl_byte(v3, c3);
            let c4 = v3 >= 128;
            let v5 = rl_byte(v4, c4);
            let c5 = v4 >= 128;
            let v6 = rl_byte(v5, c5);
            let c6 = v5 >= 128;
            let v7 = rl_byte(v6, c6);
            let c7 = v6 >= 128;
            let v8 = rl_byte(v7, c7);
            let c8 = v7 >= 128;
            rl_byte(v8, c8) == x && (v8 >= 128) == c
        }),
{
}

/// Nine steps of a 9-bit rotation right through the carry.
proof fn lemma_rr_bits(x: u8, c: bool)
    by (bit_vector)
    ensures
        ({
            let v1 = rr_byte(x, c);
            let c1 = x % 2 == 1;
            let v2 = rr_byte(v1, c1);
            let c2 = v1 % 2 == 1;
            let v3 = rr_byte(v2, c2);
            let c3 = v2 % 2 == 1;
            let v4 = rr_byte(v3, c3);
            let c4 = v3 % 2 == 1;
            let v5 = rr_byte(v4, c4);
            let c5 = v4 % 2 == 1;
            let v6 = rr_byte(v5, c5);
            let c6 = v5 % 2 == 1;
            let v7 = rr_byte(v6, c6);
            let c7 = v6 % 2 == 1;
            let v8 = rr_byte(v7, c7);
            let c8 = v7 % 2 == 1;
            rr_byte(v8, c8) == x && (v8 % 2 == 1) == c
        }),
{
}

proof fn lemma_rl_cycle(x: u8, cin: bool)
    ensures
        rl_times(x, cin, 9).value == x,
        rl_times(x, cin, 9).c == cin,
{
    reveal_with_fuel(rl_times, 9);
    lemma_rl_bits(x, cin);
}

proof fn lemma_rr_cycle(x: u8, cin: bool)
    ensures
        rr_times(x, cin, 9).value == x,
        rr_times(x, cin, 9).c == cin,
{
    reveal_with_fuel(rr_times, 9);
    lemma_rr_bits(x, cin);
}

proof fn lemma_shifts_empty(x: u8)
    ensures
        sla_times(x, 8).value == 0,
        sla_times(x, 8).z,
        sla_times(x, 8).c == (x % 2 == 1),
        srl_times(x, 8).value == 0,
        srl_times(x, 8).z,
        srl_times(x, 8).c == (x >= 128),
        sra_times(x, 7).value == (if x >= 128 {
            0xFFu8
        } else {
            0
        }),
{
    reveal_with_fuel(sla_times, 8);
    reveal_with_fuel(srl_times, 8);
    reveal_with_fuel(sra_times, 7);
    assert(sla_byte(sla_byte(sla_byte(sla_byte(sla_byte(sla_byte(sla_byte(sla_byte(x))))))))
        == 0) by (bit_vector);
    assert(sla_byte(sla_byte(sla_byte(sla_byte(sla_byte(sla_byte(sla_byte(x))))))) >= 128
        <==> x % 2 == 1) by (bit_vector);
    assert(srl_byte(srl_byte(srl_byte(srl_byte(srl_byte(srl_byte(srl_byte(srl_byte(x))))))))
        == 0) by (bit_vector);
    assert(srl_byte(srl_byte(srl_byte(srl_byte(srl_byte(srl_byte(srl_byte(x))))))) % 2 == 1
        <==> x >= 128) by (bit_vector);
    assert(sra_byte(sra_byte(sra_byte(sra_byte(sra_byte(sra_byte(sra_byte(x))))))) == (if x
        >= 128 {
        0xFFu8
    } else {
        0
    })) by (bit_vector);
}

} // verus!
