use vstd::prelude::*;

verus! {

/// `256` raised to `n`: the weight of the byte at position `n` of a little-endian
/// number.
pub open spec fn byte_weight(n: nat) -> nat
    decreases n,
{
    if n == 0 {
        1
    } else {
        256 * byte_weight((n - 1) as nat)
    }
}

/// The number that a little-endian byte string denotes: its first byte is the
/// least significant.
pub open spec fn le_value(bytes: Seq<u8>) -> nat
    decreases bytes.len(),
{
    if bytes.len() == 0 {
        0
    } else {
        bytes[0] as nat + 256 * le_value(bytes.drop_first())
    }
}

/// The `n` little-endian bytes of `value`, cut to its `n` low bytes.
pub open spec fn le_bytes(value: nat, n: nat) -> Seq<u8>
    decreases n,
{
    if n == 0 {
        Seq::empty()
    } else {
        seq![(value % 256) as u8] + le_bytes(value / 256, (n - 1) as nat)
    }
}

/// The bytes `le_bytes` gives for a number below `256^n` denote that number.
pub proof fn lemma_le_bytes_value(value: nat, n: nat)
    requires
        value < byte_weight(n),
    ensures
        le_bytes(value, n).len() == n,
        le_value(le_bytes(value, n)) == value,
    decreases n,
{
    if n > 0 {
        lemma_le_bytes_value(value / 256, (n - 1) as nat);
        let s = le_bytes(value, n);
        assert(s.drop_first() =~= le_bytes(value / 256, (n - 1) as nat));
    }
}

/// A byte string of length `n` denotes a number below `256^n`.
pub proof fn lemma_le_value_bound(bytes: Seq<u8>)
    ensures
        le_value(bytes) < byte_weight(bytes.len()),
    decreases bytes.len(),
{
    if bytes.len() > 0 {
        lemma_le_value_bound(bytes.drop_first());
    }
}

/// Writing back the number that a byte string denotes gives the string back.
pub proof fn lemma_le_bytes_of_value(bytes: Seq<u8>)
    ensures
        le_bytes(le_value(bytes), bytes.len()) == bytes,
{
    lemma_le_value_bound(bytes);
    lemma_le_bytes_value(le_value(bytes), bytes.len());
    lemma_le_value_injective(le_bytes(le_value(bytes), bytes.len()), bytes);
}

/// Reads an amount stored as eight little-endian bytes, as `u64::from_le_bytes`
/// does.
pub fn u64_from_le(bytes: [u8; 8]) -> (value: u64)
    ensures
        value == le_value(bytes@),
{
    let v: u64 = bytes[0] as u64 + 256 * (
        bytes[1] as u64 + 256 * (
            bytes[2] as u64 + 256 * (
                bytes[3] as u64 + 256 * (
                    bytes[4] as u64 + 256 * (
                        bytes[5] as u64 + 256 * (bytes[6] as u64 + 256 * (bytes[7] as u64))
                    )
                )
            )
        )
    );
    proof {
        reveal_with_fuel(le_value, 9);
        let s = bytes@;
        assert(s.drop_first().drop_first().drop_first().drop_first().drop_first().drop_first()
            .drop_first().drop_first().len() == 0);
    }
    v
}

/// Writes an amount as eight little-endian bytes, as `u64::to_le_bytes` does.
pub fn u64_to_le(value: u64) -> (bytes: [u8; 8])
    ensures
        le_value(bytes@) == value,
        bytes@ == le_bytes(value as nat, 8),
{
    let q1: u64 = value / 256;
    let q2: u64 = q1 / 256;
    let q3: u64 = q2 / 256;
    let q4: u64 = q3 / 256;
    let q5: u64 = q4 / 256;
    let q6: u64 = q5 / 256;
    let q7: u64 = q6 / 256;
    let bytes: [u8; 8] = [
        (value % 256) as u8,
        (q1 % 256) as u8,
        (q2 % 256) as u8,
        (q3 % 256) as u8,
        (q4 % 256) as u8,
        (q5 % 256) as u8,
        (q6 % 256) as u8,
        (q7 % 256) as u8,
    ];
    proof {
        let s0 = bytes@;
        let s1 = s0.drop_first();
        let s2 = s1.drop_first();
        let s3 = s2.drop_first();
        let s4 = s3.drop_first();
        let s5 = s4.drop_first();
        let s6 = s5.drop_first();
        let s7 = s6.drop_first();
        let s8 = s7.drop_first();
        assert(q7 < 256);
        assert(s8.len() == 0);
        assert(le_value(s8) == 0);
        assert(le_value(s7) == q7);
        assert(le_value(s6) == q6);
        assert(le_value(s5) == q5);
        assert(le_value(s4) == q4);
        assert(le_value(s3) == q3);
        assert(le_value(s2) == q2);
        assert(le_value(s1) == q1);
        assert(le_value(s0) == value);
        assert(byte_weight(8) == 0x1_0000_0000_0000_0000) by {
            reveal_with_fuel(byte_weight, 9);
        }
        lemma_le_bytes_value(value as nat, 8);
        lemma_le_value_injective(bytes@, le_bytes(value as nat, 8));
    }
    bytes
}

/// Two little-endian byte strings of one length that denote the same number are
/// the same string: the encoding of an amount is unique.
pub proof fn lemma_le_value_injective(a: Seq<u8>, b: Seq<u8>)
    requires
        a.len() == b.len(),
        le_value(a) == le_value(b),
    ensures
        a == b,
    decreases a.len(),
{
    if a.len() > 0 {
        lemma_le_value_injective(a.drop_first(), b.drop_first());
        assert(a =~= seq![a[0]] + a.drop_first());
        assert(b =~= seq![b[0]] + b.drop_first());
    }
}

/// Reading an amount back from the bytes that `u64_to_le` wrote gives the
/// amount, and writing the amount that `u64_from_le` read gives the bytes back.
pub proof fn lemma_le_round_trip(bytes: [u8; 8], read: u64, written: [u8; 8])
    requires
        read == le_value(bytes@),
        le_value(written@) == read,
    ensures
        written == bytes,
{
    lemma_le_value_injective(written@, bytes@);
    assert(written =~= bytes);
}

/// Adds two amounts stored as little-endian bytes and stores the sum the same
/// way. The sum must fit in a `u64`: the overflow check of the addition is the
/// caller's to make.
pub fn add_le_bytes(a: [u8; 8], b: [u8; 8]) -> (sum: [u8; 8])
    requires
        le_value(a@) + le_value(b@) <= u64::MAX,
    ensures
        le_value(sum@) == le_value(a@) + le_value(b@),
{
    let val_a = u64_from_le(a);
    let val_b = u64_from_le(b);
    u64_to_le(val_a + val_b)
}

/// Subtracts the amount in `b` from the amount in `a`, both stored as
/// little-endian bytes, and stores the difference the same way. `b` must not
/// exceed `a`.
pub fn sub_le_bytes(a: [u8; 8], b: [u8; 8]) -> (difference: [u8; 8])
    requires
        le_value(b@) <= le_value(a@),
    ensures
        le_value(difference@) == le_value(a@) - le_value(b@),
{
    let val_a = u64_from_le(a);
    let val_b = u64_from_le(b);
    u64_to_le(val_a - val_b)
}

/// Subtracting what was added restores the amount: `sub_le_bytes(add_le_bytes(a, b), b)`
/// is `a`.
pub proof fn lemma_sub_undoes_add(a: [u8; 8], b: [u8; 8], sum: [u8; 8], difference: [u8; 8])
    requires
        le_value(sum@) == le_value(a@) + le_value(b@),
        le_value(difference@) == le_value(sum@) - le_value(b@),
    ensures
        difference == a,
{
    lemma_le_value_injective(difference@, a@);
    assert(difference =~= a);
}

/// `a < b` in the lexicographic order of byte strings, the order that Rust's
/// comparison operators give byte arrays: the first byte where they differ
/// decides, and a proper prefix comes first.
pub open spec fn lex_less(a: Seq<u8>, b: Seq<u8>) -> bool
    decreases a.len(),
{
    if a.len() == 0 {
        b.len() > 0
    } else if b.len() == 0 {
        false
    } else if a[0] != b[0] {
        a[0] < b[0]
    } else {
        lex_less(a.drop_first(), b.drop_first())
    }
}

/// No byte string comes before itself.
pub proof fn lemma_lex_less_irreflexive(a: Seq<u8>)
    ensures
        !lex_less(a, a),
    decreases a.len(),
{
    if a.len() > 0 {
        lemma_lex_less_irreflexive(a.drop_first());
    }
}

/// Compares two 8-byte arrays as `a < b` does in Rust: lexicographically, byte
/// by byte from the first.
pub fn bytes_less(a: &[u8; 8], b: &[u8; 8]) -> (less: bool)
    ensures
        less == lex_less(a@, b@),
{
    let mut i: usize = 0;
    assert(a@.skip(0) =~= a@);
    assert(b@.skip(0) =~= b@);
    while i < 8
        invariant
            i <= 8,
            lex_less(a@, b@) == lex_less(a@.skip(i as int), b@.skip(i as int)),
        decreases 8 - i,
    {
        if a[i] != b[i] {
            return a[i] < b[i];
        }
        assert(a@.skip(i as int).drop_first() =~= a@.skip(i + 1));
        assert(b@.skip(i as int).drop_first() =~= b@.skip(i + 1));
        i = i + 1;
    }
    false
}

/// Copies the `N` bytes of `data` that start at `offset` into an array.
pub fn copy_bytes<const N: usize>(data: &[u8], offset: usize) -> (out: [u8; N])
    requires
        offset + N <= data@.len(),
    ensures
        out@ == data@.subrange(offset as int, offset + N),
{
    let mut out = [0u8; N];
    let mut i: usize = 0;
    while i < N
        invariant
            i <= N,
            offset + N <= data.len(),
            out@.len() == N,
            forall|j: int| 0 <= j < i ==> out@[j] == data@[offset + j],
        decreases N - i,
    {
        out[i] = data[offset + i];
        i = i + 1;
    }
    assert(out@ =~= data@.subrange(offset as int, offset + N));
    out
}

/// Appends the bytes of an array to a vector.
pub fn push_bytes<const N: usize>(out: &mut Vec<u8>, bytes: &[u8; N])
    ensures
        final(out)@ == old(out)@ + bytes@,
{
    let mut i: usize = 0;
    while i < N
        invariant
            i <= N,
            bytes@.len() == N,
            out@ == old(out)@ + bytes@.subrange(0, i as int),
        decreases N - i,
    {
        out.push(bytes[i]);
        assert(bytes@.subrange(0, i + 1) =~= bytes@.subrange(0, i as int).push(bytes@[i as int]));
        i = i + 1;
    }
    assert(bytes@.subrange(0, N as int) =~= bytes@);
}

/// `base` raised to `exp`.
pub open spec fn power(base: nat, exp: nat) -> nat
    decreases exp,
{
    if exp == 0 {
        1
    } else {
        base * power(base, (exp - 1) as nat)
    }
}

/// For a base of at least one, a larger exponent gives at least as large a power.
pub proof fn lemma_power_monotone(base: nat, e1: nat, e2: nat)
    requires
        base >= 1,
        e1 <= e2,
    ensures
        power(base, e1) <= power(base, e2),
    decreases e2,
{
    if e1 < e2 {
        lemma_power_monotone(base, e1, (e2 - 1) as nat);
        let p = power(base, (e2 - 1) as nat);
        assert(p <= base * p) by (nonlinear_arith)
            requires
                base >= 1,
        ;
    }
}

/// Raises `base` to `exp` as `u64::pow` does, reporting `None` where the power
/// does not fit in a `u64` (where `u64::pow` overflows).
pub fn checked_pow(base: u64, exp: u8) -> (res: Option<u64>)
    ensures
        res is None <==> power(base as nat, exp as nat) > u64::MAX,
        res matches Some(v) ==> v == power(base as nat, exp as nat),
{
    let mut acc: u64 = 1;
    let mut i: u8 = 0;
    while i < exp
        invariant
            i <= exp,
            acc == power(base as nat, i as nat),
        decreases exp - i,
    {
        match acc.checked_mul(base) {
            Some(v) => {
                acc = v;
            },
            None => {
                proof {
                    assert(power(base as nat, (i + 1) as nat) == base * acc);
                    assert(base >= 1) by (nonlinear_arith)
                        requires
                            acc * base > u64::MAX,
                    ;
                    lemma_power_monotone(base as nat, (i + 1) as nat, exp as nat);
                }
                return None;
            },
        }
        i = i + 1;
    }
    Some(acc)
}

/// Whether two byte arrays are equal, as `a == b` is for arrays in Rust.
pub fn bytes_equal<const N: usize>(a: &[u8; N], b: &[u8; N]) -> (equal: bool)
    ensures
        equal == (a@ == b@),
{
    let mut i: usize = 0;
    while i < N
        invariant
            i <= N,
            a@.len() == N,
            b@.len() == N,
            forall|j: int| 0 <= j < i ==> a@[j] == b@[j],
        decreases N - i,
    {
        if a[i] != b[i] {
            return false;
        }
        i = i + 1;
    }
    assert(a@ =~= b@);
    true
}

} // verus!
