//! Variable-length integers: seven bits per byte, least significant first, the high bit
//! set on every byte but the last, in the shortest form.
use vstd::prelude::*;

verus! {

/// The most bytes a length may take: enough for any `u64`.
pub const MAX_VARINT_BYTES: usize = 10;

pub open spec fn pow128(n: nat) -> nat
    decreases n,
{
    if n == 0 {
        1
    } else {
        128 * pow128((n - 1) as nat)
    }
}

/// The bytes that stand for `v`.
pub open spec fn varint(v: nat) -> Seq<u8>
    decreases v,
{
    if v < 128 {
        seq![v as u8]
    } else {
        seq![(v % 128 + 128) as u8] + varint(v / 128)
    }
}

/// Reads an integer of at most `n` bytes from the front of `b`: its value and how many
/// bytes it took. A zero byte after the first is refused, as it is not the shortest form.
pub open spec fn parse_varint(b: Seq<u8>, n: nat) -> Option<(nat, nat)>
    decreases n,
{
    if n == 0 || b.len() == 0 {
        None
    } else if b[0] < 128 {
        Some((b[0] as nat, 1))
    } else {
        match parse_varint(b.drop_first(), (n - 1) as nat) {
            Some((v, k)) => if v == 0 {
                None
            } else {
                Some((((b[0] - 128) + 128 * v) as nat, k + 1))
            },
            None => None,
        }
    }
}

proof fn lemma_div_mod_128(a: nat, w: nat)
    requires
        a < 128,
    ensures
        (a + 128 * w) % 128 == a,
        (a + 128 * w) / 128 == w,
{
    assert((a + 128 * w) % 128 == a && (a + 128 * w) / 128 == w) by (nonlinear_arith)
        requires
            a < 128,
    ;
}

proof fn lemma_split_128(v: nat)
    ensures
        v == v % 128 + 128 * (v / 128),
        v % 128 < 128,
{
    assert(v == v % 128 + 128 * (v / 128) && v % 128 < 128) by (nonlinear_arith);
}

/// What was read is below `128^n` and took between one and `n` bytes.
pub proof fn lemma_parse_varint_bound(b: Seq<u8>, n: nat)
    ensures
        parse_varint(b, n) matches Some((v, k)) ==> v < pow128(n) && 1 <= k <= n && k <= b.len(),
    decreases n,
{
    if n > 0 {
        lemma_pow128_pos((n - 1) as nat);
    }
    if n > 0 && b.len() > 0 && b[0] >= 128 {
        lemma_parse_varint_bound(b.drop_first(), (n - 1) as nat);
        if let Some((v, k)) = parse_varint(b.drop_first(), (n - 1) as nat) {
            let p = pow128((n - 1) as nat);
            assert((b[0] - 128) + 128 * v < 128 * p) by (nonlinear_arith)
                requires
                    v < p,
                    b[0] - 128 < 128,
                    b[0] >= 128,
            ;
        }
    }
}

/// The bytes of `v` are read back as `v`, whatever follows them.
pub proof fn lemma_varint_parses(v: nat, rest: Seq<u8>, n: nat)
    requires
        v < pow128(n),
        n >= 1,
    ensures
        parse_varint(varint(v) + rest, n) == Some((v, varint(v).len())),
        1 <= varint(v).len() <= n,
    decreases v,
{
    let b = varint(v) + rest;
    if v < 128 {
        assert(b[0] == v as u8);
    } else {
        lemma_split_128(v);
        let w = v / 128;
        let p = pow128((n - 1) as nat);
        assert(w < p) by (nonlinear_arith)
            requires
                v < 128 * p,
                w == v / 128,
        ;
        assert(w >= 1);
        assert(n >= 2);
        lemma_varint_parses(w, rest, (n - 1) as nat);
        assert(b.drop_first() =~= varint(w) + rest);
        assert(w != 0);
    }
}

/// Whatever is read was written in the shortest form: the bytes taken are those of the value.
pub proof fn lemma_varint_canonical(b: Seq<u8>, n: nat)
    ensures
        parse_varint(b, n) matches Some((v, k)) ==> b.subrange(0, k as int) == varint(v),
    decreases n,
{
    if n > 0 && b.len() > 0 {
        if b[0] < 128 {
            assert(b.subrange(0, 1) =~= seq![b[0]]);
        } else {
            lemma_varint_canonical(b.drop_first(), (n - 1) as nat);
            lemma_parse_varint_bound(b.drop_first(), (n - 1) as nat);
            if let Some((w, k)) = parse_varint(b.drop_first(), (n - 1) as nat) {
                if w != 0 {
                let a = (b[0] - 128) as nat;
                let v = a + 128 * w;
                lemma_div_mod_128(a, w);
                assert(v >= 128) by (nonlinear_arith)
                    requires
                        v == a + 128 * w,
                        w != 0,
                ;
                assert(varint(v) == seq![(v % 128 + 128) as u8] + varint(v / 128));
                assert(b.subrange(0, (k + 1) as int) =~= seq![b[0]] + b.drop_first().subrange(0, k as int));
                }
            }
        }
    }
}

/// Appends the bytes of `v`.
pub fn write_varint(out: &mut Vec<u8>, v: u64)
    ensures
        final(out)@ == old(out)@ + varint(v as nat),
{
    let mut x: u64 = v;
    while x >= 128
        invariant
            out@ + varint(x as nat) == old(out)@ + varint(v as nat),
        decreases x,
    {
        let byte: u8 = (x % 128 + 128) as u8;
        let ghost before = out@;
        out.push(byte);
        assert(varint(x as nat) == seq![byte] + varint((x / 128) as nat));
        assert(out@ + varint((x / 128) as nat) =~= before + varint(x as nat));
        x = x / 128;
    }
    let ghost before = out@;
    out.push(x as u8);
    assert(out@ =~= before + varint(x as nat));
}

/// Reads an integer of at most `n` bytes starting at `pos`.
pub fn read_varint(b: &[u8], pos: usize, n: usize) -> (r: Option<(u128, usize)>)
    requires
        pos <= b@.len(),
        n <= MAX_VARINT_BYTES,
    ensures
        r matches Some((v, k)) ==> parse_varint(b@.skip(pos as int), n as nat) == Some((v as nat, k as nat)),
        r is None ==> parse_varint(b@.skip(pos as int), n as nat) is None,
    decreases n,
{
    proof {
        lemma_parse_varint_bound(b@.skip(pos as int), n as nat);
    }
    if n == 0 || pos == b.len() {
        return None;
    }
    let first: u8 = b[pos];
    if first < 128 {
        return Some((first as u128, 1));
    }
    assert(b@.skip(pos as int).drop_first() =~= b@.skip(pos + 1));
    match read_varint(b, pos + 1, n - 1) {
        Some((w, k)) => {
            if w == 0 {
                None
            } else {
                proof {
                    lemma_parse_varint_bound(b@.skip(pos + 1), (n - 1) as nat);
                    lemma_pow128_le_2_63((n - 1) as nat);
                }
                Some(((first - 128) as u128 + 128 * w, k + 1))
            }
        },
        None => None,
    }
}

proof fn lemma_pow128_le_2_63(n: nat)
    requires
        n <= 9,
    ensures
        pow128(n) <= 0x8000_0000_0000_0000,
{
    reveal_with_fuel(pow128, 10);
    assert(pow128(9) == 0x8000_0000_0000_0000);
    lemma_pow128_mono(n, 9);
}

proof fn lemma_pow128_pos(n: nat)
    ensures
        pow128(n) >= 1,
        pow128(n + 1) == 128 * pow128(n),
    decreases n,
{
    if n > 0 {
        lemma_pow128_pos((n - 1) as nat);
    }
}

proof fn lemma_pow128_mono(a: nat, b: nat)
    requires
        a <= b,
    ensures
        pow128(a) <= pow128(b),
    decreases b,
{
    if a < b {
        lemma_pow128_mono(a, (b - 1) as nat);
    }
}

/// Every `u64` fits in ten bytes.
pub proof fn lemma_u64_fits(v: u64)
    ensures
        (v as nat) < pow128(MAX_VARINT_BYTES as nat),
{
    reveal_with_fuel(pow128, 11);
    assert(pow128(10) == 0x40_0000_0000_0000_0000);
}

} // verus!
