use vstd::prelude::*;

verus! {

/// Width in bytes of one slot of a log body or a topic.
pub const WORD: usize = 32;

/// `256^n`.
pub open spec fn pow256(n: nat) -> nat
    decreases n,
{
    if n == 0 {
        1
    } else {
        256 * pow256((n - 1) as nat)
    }
}

/// The unsigned number that the bytes of `s` spell, most significant first.
pub open spec fn be_value(s: Seq<u8>) -> nat
    decreases s.len(),
{
    if s.len() == 0 {
        0
    } else {
        be_value(s.drop_last()) * 256 + s.last() as nat
    }
}

/// The `n` bytes that spell `v`, most significant first (`v` reduced modulo `256^n`).
pub open spec fn be_bytes(v: nat, n: nat) -> Seq<u8>
    decreases n,
{
    if n == 0 {
        Seq::empty()
    } else {
        be_bytes(v / 256, (n - 1) as nat).push((v % 256) as u8)
    }
}

/// Slot `i` of `data`.
pub open spec fn word(data: Seq<u8>, i: int) -> Seq<u8> {
    data.subrange(32 * i, 32 * i + 32)
}

/// The first `n` bytes of `w` are zero.
pub open spec fn zero_prefix(w: Seq<u8>, n: int) -> bool {
    forall|j: int| 0 <= j < n ==> w[j] == 0
}

/// A slot read as an unsigned integer of `width` bytes: defined when the bytes
/// above that width are zero.
pub open spec fn uint_of(w: Seq<u8>, width: int) -> Option<nat> {
    if zero_prefix(w, 32 - width) {
        Some(be_value(w.subrange(32 - width, 32)))
    } else {
        None
    }
}

/// A slot read as a 20-byte account address, right-aligned.
pub open spec fn address_of(w: Seq<u8>) -> Option<Seq<u8>> {
    if zero_prefix(w, 12) {
        Some(w.subrange(12, 32))
    } else {
        None
    }
}

/// The slot that holds the unsigned integer `v`.
pub open spec fn uint_word(v: nat) -> Seq<u8> {
    be_bytes(v, 32)
}

/// The slot that holds the 20-byte address `a`.
pub open spec fn address_word(a: Seq<u8>) -> Seq<u8> {
    Seq::new(12, |j: int| 0u8) + a
}

pub proof fn lemma_be_value_bound(s: Seq<u8>)
    ensures
        be_value(s) < pow256(s.len()),
    decreases s.len(),
{
    if s.len() > 0 {
        lemma_be_value_bound(s.drop_last());
        let p = pow256((s.len() - 1) as nat);
        let v = be_value(s.drop_last());
        assert(v * 256 + s.last() as nat <= (p - 1) * 256 + 255) by (nonlinear_arith)
            requires v < p, s.last() < 256;
    }
}

pub proof fn lemma_be_round_trip(v: nat, n: nat)
    requires
        v < pow256(n),
    ensures
        be_value(be_bytes(v, n)) == v,
        be_bytes(v, n).len() == n,
    decreases n,
{
    if n > 0 {
        let p = pow256((n - 1) as nat);
        assert(v / 256 < p) by (nonlinear_arith)
            requires v < 256 * p;
        lemma_be_round_trip(v / 256, (n - 1) as nat);
        let s = be_bytes(v, n);
        assert(s.drop_last() =~= be_bytes(v / 256, (n - 1) as nat));
        assert(v == (v / 256) * 256 + v % 256) by (nonlinear_arith);
    }
}

/// The bytes of `be_bytes(v, n)` above the low `m` bytes are zero when `v` fits in `m` bytes.
pub proof fn lemma_be_bytes_split(v: nat, n: nat, m: nat)
    requires
        m <= n,
        v < pow256(m),
    ensures
        zero_prefix(be_bytes(v, n), n - m),
        be_bytes(v, n).subrange(n - m, n as int) == be_bytes(v, m),
        be_bytes(v, n).len() == n,
    decreases n,
{
    lemma_be_len(v, n);
    lemma_be_len(v, m);
    if n > 0 {
        if m == n {
            assert(be_bytes(v, n).subrange(0, n as int) =~= be_bytes(v, n));
        } else {
            if m > 0 {
                let p = pow256((m - 1) as nat);
                assert(v / 256 < p) by (nonlinear_arith)
                    requires v < 256 * p;
            } else {
                assert(v == 0);
            }
            let vm = if m > 0 { (m - 1) as nat } else { 0 };
            if m > 0 {
                lemma_be_bytes_split(v / 256, (n - 1) as nat, vm);
                lemma_be_len(v / 256, vm);
                assert(be_bytes(v, n).subrange(n - m, n as int) =~= be_bytes(v, m));
            } else {
                lemma_be_zero_bytes(n);
                assert(be_bytes(v, n).subrange(n - m, n as int) =~= be_bytes(v, m));
            }
        }
    }
}

pub proof fn lemma_be_len(v: nat, n: nat)
    ensures
        be_bytes(v, n).len() == n,
    decreases n,
{
    if n > 0 {
        lemma_be_len(v / 256, (n - 1) as nat);
    }
}

pub proof fn lemma_be_zero_bytes(n: nat)
    ensures
        zero_prefix(be_bytes(0, n), n as int),
        be_bytes(0, n).len() == n,
    decreases n,
{
    if n > 0 {
        lemma_be_zero_bytes((n - 1) as nat);
    }
}

/// Reading back a slot written from a value that fits in `width` bytes gives that value.
pub proof fn lemma_uint_word_round_trip(v: nat, width: nat)
    requires
        1 <= width <= 32,
        v < pow256(width),
    ensures
        uint_of(uint_word(v), width as int) == Some(v),
        uint_word(v).len() == 32,
{
    lemma_be_bytes_split(v, 32, width);
    lemma_be_round_trip(v, width);
}

/// Reading back an address slot gives the address.
pub proof fn lemma_address_word_round_trip(a: Seq<u8>)
    requires
        a.len() == 20,
    ensures
        address_of(address_word(a)) == Some(a),
        address_word(a).len() == 32,
{
    assert(address_word(a).subrange(12, 32) =~= a);
}

/// Reads slot `i` of `data` as an unsigned integer of `width` bytes.
pub fn read_uint(data: &Vec<u8>, i: usize, width: usize) -> (r: Option<u128>)
    requires
        1 <= width <= 16,
        32 * i + 32 <= data@.len(),
    ensures
        uint_of(word(data@, i as int), width as int) == match r {
            Some(x) => Some(x as nat),
            None => None::<nat>,
        },
{
    let n: usize = data.len();
    let start: usize = 32 * i;
    let ghost w = word(data@, i as int);
    let lead: usize = WORD - width;
    let mut j: usize = 0;
    while j < lead
        invariant
            start == 32 * i,
            start + 32 <= data@.len(),
            lead == 32 - width,
            j <= lead,
            w == word(data@, i as int),
            zero_prefix(w, j as int),
        decreases lead - j,
    {
        if data[start + j] != 0 {
            assert(w[j as int] == data@[start + j]);
            return None;
        }
        j = j + 1;
    }
    let mut acc: u128 = 0;
    let mut k: usize = lead;
    while k < WORD
        invariant
            start == 32 * i,
            start + 32 <= data@.len(),
            lead == 32 - width,
            1 <= width <= 16,
            lead <= k <= 32,
            w == word(data@, i as int),
            acc as nat == be_value(w.subrange(lead as int, k as int)),
        decreases 32 - k,
    {
        let ghost prev = w.subrange(lead as int, k as int);
        proof {
            lemma_be_value_bound(prev);
            lemma_pow256_16();
            lemma_pow256_mono(prev.len(), 15);
            assert(w.subrange(lead as int, k + 1).drop_last() =~= prev);
            let pv = pow256(prev.len());
            assert(acc * 256 + 255 < pow256(16)) by (nonlinear_arith)
                requires acc < pv, pv <= pow256(15), pow256(16) == 256 * pow256(15);
        }
        acc = acc * 256 + data[start + k] as u128;
        k = k + 1;
    }
    Some(acc)
}

pub proof fn lemma_pow256_16()
    ensures
        pow256(16) == 0x1_0000_0000_0000_0000_0000_0000_0000_0000,
        pow256(16) == 256 * pow256(15),
{
    reveal_with_fuel(pow256, 17);
}

pub proof fn lemma_pow256_mono(a: nat, b: nat)
    requires
        a <= b,
    ensures
        pow256(a) <= pow256(b),
    decreases b,
{
    if a < b {
        lemma_pow256_mono(a, (b - 1) as nat);
    }
}

/// Reads slot `i` of `data` as a right-aligned 20-byte address.
pub fn read_address(data: &Vec<u8>, i: usize) -> (r: Option<Vec<u8>>)
    requires
        32 * i + 32 <= data@.len(),
    ensures
        address_of(word(data@, i as int)) == match r {
            Some(a) => Some(a@),
            None => None::<Seq<u8>>,
        },
{
    let n: usize = data.len();
    let start: usize = 32 * i;
    let ghost w = word(data@, i as int);
    let mut j: usize = 0;
    while j < 12
        invariant
            start == 32 * i,
            start + 32 <= data@.len(),
            j <= 12,
            w == word(data@, i as int),
            zero_prefix(w, j as int),
        decreases 12 - j,
    {
        if data[start + j] != 0 {
            assert(w[j as int] == data@[start + j]);
            return None;
        }
        j = j + 1;
    }
    Some(copy_range(data, start + 12, start + 32))
}

/// The bytes of `data` in `[a, b)`.
pub fn copy_range(data: &Vec<u8>, a: usize, b: usize) -> (r: Vec<u8>)
    requires
        a <= b <= data@.len(),
    ensures
        r@ == data@.subrange(a as int, b as int),
{
    let mut r: Vec<u8> = Vec::new();
    let mut k: usize = a;
    while k < b
        invariant
            a <= k <= b,
            b <= data@.len(),
            r@ == data@.subrange(a as int, k as int),
        decreases b - k,
    {
        r.push(data[k]);
        k = k + 1;
    }
    assert(r@ =~= data@.subrange(a as int, b as int));
    r
}

} // verus!
