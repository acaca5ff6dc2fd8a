use vstd::prelude::*;

verus! {

/// Big-endian value of a byte sequence.
pub open spec fn be_nat(s: Seq<u8>) -> nat
    decreases s.len(),
{
    if s.len() == 0 {
        0
    } else {
        be_nat(s.drop_last()) * 256 + s.last() as nat
    }
}

/// `256` raised to the power `k`.
pub open spec fn pow256(k: nat) -> nat
    decreases k,
{
    if k == 0 {
        1
    } else {
        256 * pow256((k - 1) as nat)
    }
}

/// The `k` low-order bytes of `v`, most significant first.
pub open spec fn be_bytes(v: nat, k: nat) -> Seq<u8>
    decreases k,
{
    if k == 0 {
        Seq::empty()
    } else {
        be_bytes(v / 256, (k - 1) as nat).push((v % 256) as u8)
    }
}

/// A sequence of `k` bytes has a big-endian value below `256^k`.
pub proof fn lemma_be_nat_bound(s: Seq<u8>)
    ensures
        be_nat(s) < pow256(s.len()),
    decreases s.len(),
{
    if s.len() > 0 {
        lemma_be_nat_bound(s.drop_last());
        let a = be_nat(s.drop_last());
        let p = pow256(s.drop_last().len());
        let b = s.last() as nat;
        assert(a * 256 + b < 256 * p) by (nonlinear_arith)
            requires
                a < p,
                b < 256,
        ;
    }
}

/// Writing a value below `256^k` on `k` bytes and reading it back gives the value.
pub proof fn lemma_be_nat_of_bytes(v: nat, k: nat)
    requires
        v < pow256(k),
    ensures
        be_bytes(v, k).len() == k,
        be_nat(be_bytes(v, k)) == v,
    decreases k,
{
    if k > 0 {
        let q = v / 256;
        let r = v % 256;
        assert(v == q * 256 + r) by (nonlinear_arith)
            requires
                q == v / 256,
                r == v % 256,
        ;
        assert(q < pow256((k - 1) as nat)) by (nonlinear_arith)
            requires
                v < 256 * pow256((k - 1) as nat),
                q == v / 256,
        ;
        lemma_be_nat_of_bytes(q, (k - 1) as nat);
        let s = be_bytes(v, k);
        assert(s.drop_last() =~= be_bytes(q, (k - 1) as nat));
    }
}

/// Reading `k` bytes and writing the value back on `k` bytes gives the bytes.
pub proof fn lemma_bytes_of_be_nat(s: Seq<u8>)
    ensures
        be_bytes(be_nat(s), s.len()) == s,
    decreases s.len(),
{
    if s.len() > 0 {
        let a = be_nat(s.drop_last());
        let b = s.last() as nat;
        assert((a * 256 + b) / 256 == a && (a * 256 + b) % 256 == b) by (nonlinear_arith)
            requires
                b < 256,
        ;
        lemma_bytes_of_be_nat(s.drop_last());
        assert(be_bytes(be_nat(s), s.len()) =~= s.drop_last().push(s.last()));
        assert(s.drop_last().push(s.last()) =~= s);
    }
}

/// The bytes of `a` followed by the bytes of `b`.
pub fn concat_bytes(a: &Vec<u8>, b: &Vec<u8>) -> (r: Vec<u8>)
    requires
        a@.len() + b@.len() <= usize::MAX,
    ensures
        r@ == a@ + b@,
{
    let mut r: Vec<u8> = Vec::with_capacity(a.len() + b.len());
    let mut i: usize = 0;
    while i < a.len()
        invariant
            i <= a@.len(),
            r@ == a@.subrange(0, i as int),
        decreases a@.len() - i,
    {
        r.push(a[i]);
        i = i + 1;
        assert(r@ =~= a@.subrange(0, i as int));
    }
    assert(a@.subrange(0, a@.len() as int) =~= a@);
    let mut j: usize = 0;
    while j < b.len()
        invariant
            j <= b@.len(),
            r@ == a@ + b@.subrange(0, j as int),
        decreases b@.len() - j,
    {
        r.push(b[j]);
        j = j + 1;
        assert(r@ =~= a@ + b@.subrange(0, j as int));
    }
    assert(b@.subrange(0, b@.len() as int) =~= b@);
    r
}

/// The bytes of a 32-byte array, as a vector.
pub fn bytes32_to_vec(a: &[u8; 32]) -> (r: Vec<u8>)
    ensures
        r@ == a@,
{
    let mut r: Vec<u8> = Vec::with_capacity(32);
    let mut i: usize = 0;
    while i < 32
        invariant
            i <= 32,
            r@ == a@.subrange(0, i as int),
        decreases 32 - i,
    {
        r.push(a[i]);
        i = i + 1;
        assert(r@ =~= a@.subrange(0, i as int));
    }
    assert(a@.subrange(0, 32) =~= a@);
    r
}

/// The bytes of a 20-byte array, as a vector.
pub fn bytes20_to_vec(a: &[u8; 20]) -> (r: Vec<u8>)
    ensures
        r@ == a@,
{
    let mut r: Vec<u8> = Vec::with_capacity(20);
    let mut i: usize = 0;
    while i < 20
        invariant
            i <= 20,
            r@ == a@.subrange(0, i as int),
        decreases 20 - i,
    {
        r.push(a[i]);
        i = i + 1;
        assert(r@ =~= a@.subrange(0, i as int));
    }
    assert(a@.subrange(0, 20) =~= a@);
    r
}

/// The 32 bytes of `v` starting at `start`, as an array.
pub fn bytes32_at(v: &Vec<u8>, start: usize) -> (r: [u8; 32])
    requires
        start + 32 <= v@.len(),
    ensures
        r@ == v@.subrange(start as int, start + 32),
{
    let len = v.len();
    let mut r: [u8; 32] = [0u8; 32];
    let mut i: usize = 0;
    while i < 32
        invariant
            i <= 32,
            len == v@.len(),
            start + 32 <= v@.len(),
            forall|k: int| 0 <= k < i ==> r@[k] == v@[start + k],
        decreases 32 - i,
    {
        r[i] = v[start + i];
        i = i + 1;
    }
    assert(r@ =~= v@.subrange(start as int, start + 32));
    r
}

/// The value of the 8 bytes of `v` starting at `start`, read big-endian.
pub fn u64_be_at(v: &Vec<u8>, start: usize) -> (r: u64)
    requires
        start + 8 <= v@.len(),
    ensures
        r as nat == be_nat(v@.subrange(start as int, start + 8)),
{
    let len = v.len();
    let mut n: u64 = 0;
    let mut i: usize = 0;
    while i < 8
        invariant
            i <= 8,
            len == v@.len(),
            start + 8 <= v@.len(),
            n as nat == be_nat(v@.subrange(start as int, start + i)),
            n < pow256(i as nat),
        decreases 8 - i,
    {
        proof {
            let s = v@.subrange(start as int, start + i + 1);
            assert(s.drop_last() =~= v@.subrange(start as int, start + i));
            lemma_be_nat_bound(s);
            lemma_pow256_8();
            lemma_pow256_mono(s.len(), 8);
        }
        n = n * 256 + v[start + i] as u64;
        i = i + 1;
    }
    n
}

/// `256^8` is `2^64`.
pub proof fn lemma_pow256_8()
    ensures
        pow256(8) == 0x1_0000_0000_0000_0000,
{
    reveal_with_fuel(pow256, 9);
}

/// `256^j <= 256^k` when `j <= k`.
pub proof fn lemma_pow256_mono(j: nat, k: nat)
    requires
        j <= k,
    ensures
        pow256(j) <= pow256(k),
    decreases k - j,
{
    if j < k {
        lemma_pow256_mono(j, (k - 1) as nat);
    }
}

/// The 8 big-endian bytes of `x`.
pub fn u64_to_be(x: u64) -> (r: Vec<u8>)
    ensures
        r@ == be_bytes(x as nat, 8),
{
    let mut r: Vec<u8> = Vec::new();
    let mut y: u64 = x;
    let mut k: usize = 8;
    while k > 0
        invariant
            k <= 8,
            be_bytes(x as nat, 8) == be_bytes(y as nat, k as nat) + r@,
        decreases k,
    {
        let b = (y % 256) as u8;
        proof {
            let head = be_bytes((y / 256) as nat, (k - 1) as nat);
            assert(be_bytes(y as nat, k as nat) == head.push(b));
            assert(head.push(b) + r@ =~= head + seq![b].add(r@));
        }
        r.insert(0, b);
        y = y / 256;
        k = k - 1;
    }
    assert(be_bytes(y as nat, 0) + r@ =~= r@);
    r
}

} // verus!
