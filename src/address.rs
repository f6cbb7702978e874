//! Contract addresses under the CREATE rule: the low twenty bytes of the
//! Keccak-256 digest of the RLP list `[sender, nonce]`.

use vstd::prelude::*;

verus! {

/// Keccak-256 digest of a byte string, as the chain computes it.
pub uninterp spec fn keccak_of(data: Seq<u8>) -> Seq<u8>;

/// Relies on web3::signing::keccak256: the 32-byte Keccak-256 digest of the input.
#[verifier::external_body]
fn keccak256(data: &Vec<u8>) -> (r: [u8; 32])
    ensures
        r@ == keccak_of(data@),
{
    web3::signing::keccak256(data)
}

/// A 20-byte account or contract identifier.
#[derive(Clone, Copy, Debug)]
pub struct Address {
    pub bytes: [u8; 20],
}

impl View for Address {
    type V = Seq<u8>;

    open spec fn view(&self) -> Seq<u8> {
        self.bytes@
    }
}

impl PartialEq for Address {
    fn eq(&self, o: &Address) -> (r: bool) {
        self.same(o)
    }
}

impl vstd::std_specs::cmp::PartialEqSpecImpl for Address {
    open spec fn obeys_eq_spec() -> bool {
        true
    }

    open spec fn eq_spec(&self, o: &Address) -> bool {
        self.bytes@ == o.bytes@
    }
}

impl Eq for Address {}

impl Address {
    /// The address whose twenty bytes are all zero.
    pub fn zero() -> (r: Address)
        ensures
            r.bytes@ == Seq::new(20, |i: int| 0u8),
    {
        let r = Address { bytes: [0u8; 20] };
        assert(r.bytes@ =~= Seq::new(20, |i: int| 0u8));
        r
    }

    /// Exact byte comparison.
    pub fn same(&self, o: &Address) -> (r: bool)
        ensures
            r == (self.bytes@ == o.bytes@),
    {
        let mut i: usize = 0;
        while i < 20
            invariant
                0 <= i <= 20,
                self.bytes@.len() == 20,
                o.bytes@.len() == 20,
                forall|j: int| 0 <= j < i ==> self.bytes@[j] == o.bytes@[j],
            decreases 20 - i,
        {
            if self.bytes[i] != o.bytes[i] {
                return false;
            }
            i = i + 1;
        }
        assert(self.bytes@ =~= o.bytes@);
        true
    }
}

/// The minimal big-endian bytes of `n`: zero has none.
pub open spec fn minimal_be(n: nat) -> Seq<u8>
    decreases n,
{
    if n == 0 {
        Seq::empty()
    } else {
        minimal_be(n / 256).push((n % 256) as u8)
    }
}

/// The RLP encoding of an integer: a single byte below 0x80 stands for
/// itself; any other value (zero included) is a string with a length prefix.
pub open spec fn rlp_uint(n: nat) -> Seq<u8> {
    if 0 < n < 0x80 {
        seq![n as u8]
    } else {
        seq![(0x80 + minimal_be(n).len()) as u8] + minimal_be(n)
    }
}

/// The RLP encoding of the list `[sender, nonce]` that the CREATE rule hashes.
pub open spec fn create_preimage(sender: Seq<u8>, nonce: nat) -> Seq<u8> {
    seq![(0xc0 + 21 + rlp_uint(nonce).len()) as u8, 0x94u8] + sender + rlp_uint(nonce)
}

/// The address that `sender` gives the contract it creates with `nonce`.
pub open spec fn predicted(sender: Seq<u8>, nonce: nat) -> Seq<u8> {
    keccak_of(create_preimage(sender, nonce)).subrange(12, 32)
}

proof fn lemma_minimal_be_len(n: nat, k: nat)
    requires
        n < pow256(k),
    ensures
        minimal_be(n).len() <= k,
    decreases n,
{
    if n > 0 {
        assert(k > 0) by {
            if k == 0 {
                assert(pow256(0) == 1);
            }
        }
        assert(n / 256 < pow256((k - 1) as nat)) by {
            assert(pow256(k) == 256 * pow256((k - 1) as nat));
        }
        lemma_minimal_be_len(n / 256, (k - 1) as nat);
    }
}

pub open spec fn pow256(k: nat) -> nat
    decreases k,
{
    if k == 0 {
        1
    } else {
        256 * pow256((k - 1) as nat)
    }
}

proof fn lemma_u64_bound()
    ensures
        pow256(8) == 0x1_0000_0000_0000_0000,
{
    reveal_with_fuel(pow256, 9);
}

/// Minimal big-endian bytes of a nonce.
pub fn nonce_be_bytes(nonce: u64) -> (r: Vec<u8>)
    ensures
        r@ == minimal_be(nonce as nat),
        r@.len() <= 8,
{
    let mut rev: Vec<u8> = Vec::new();
    let mut n: u64 = nonce;
    while n > 0
        invariant
            minimal_be(nonce as nat) == minimal_be(n as nat) + rev@.reverse(),
        decreases n,
    {
        let b: u8 = (n % 256) as u8;
        proof {
            assert(rev@.push(b).reverse() =~= seq![b] + rev@.reverse());
            assert(minimal_be(n as nat) == minimal_be((n / 256) as nat).push(b));
            assert(minimal_be((n / 256) as nat).push(b) + rev@.reverse()
                =~= minimal_be((n / 256) as nat) + (seq![b] + rev@.reverse()));
        }
        rev.push(b);
        n = n / 256;
    }
    let mut r: Vec<u8> = Vec::new();
    let mut i: usize = rev.len();
    while i > 0
        invariant
            i <= rev@.len(),
            r@ + rev@.subrange(0, i as int).reverse() == rev@.reverse(),
        decreases i,
    {
        proof {
            let s = rev@.subrange(0, i as int);
            assert(s.reverse() =~= seq![rev@[i - 1]] + rev@.subrange(0, i - 1).reverse());
            assert(r@.push(rev@[i - 1]) + rev@.subrange(0, i - 1).reverse()
                =~= r@ + s.reverse());
        }
        r.push(rev[i - 1]);
        i = i - 1;
    }
    proof {
        assert(rev@.subrange(0, 0).reverse() =~= Seq::<u8>::empty());
        assert(r@ =~= rev@.reverse());
        assert(minimal_be(0) == Seq::<u8>::empty());
        assert(minimal_be(nonce as nat) =~= r@);
        lemma_u64_bound();
        lemma_minimal_be_len(nonce as nat, 8);
    }
    r
}

/// The RLP encoding of the pair `[sender, nonce]`.
pub fn create_preimage_bytes(sender: &Address, nonce: u64) -> (r: Vec<u8>)
    ensures
        r@ == create_preimage(sender.bytes@, nonce as nat),
{
    let be = nonce_be_bytes(nonce);
    let mut enc: Vec<u8> = Vec::new();
    if 0 < nonce && nonce < 0x80 {
        enc.push(nonce as u8);
    } else {
        enc.push((0x80 + be.len()) as u8);
        let mut i: usize = 0;
        while i < be.len()
            invariant
                i <= be@.len(),
                be@.len() <= 8,
                enc@ == seq![(0x80 + be@.len()) as u8] + be@.subrange(0, i as int),
            decreases be@.len() - i,
        {
            proof {
                assert(be@.subrange(0, i + 1) =~= be@.subrange(0, i as int).push(be@[i as int]));
            }
            enc.push(be[i]);
            i = i + 1;
        }
        assert(be@.subrange(0, be@.len() as int) =~= be@);
    }
    assert(enc@ =~= rlp_uint(nonce as nat));
    let mut r: Vec<u8> = Vec::new();
    r.push((0xc0 + 21 + enc.len()) as u8);
    r.push(0x94u8);
    let mut j: usize = 0;
    while j < 20
        invariant
            j <= 20,
            sender.bytes@.len() == 20,
            r@ == seq![(0xc0 + 21 + enc@.len()) as u8, 0x94u8] + sender.bytes@.subrange(0, j as int),
        decreases 20 - j,
    {
        proof {
            assert(sender.bytes@.subrange(0, j + 1)
                =~= sender.bytes@.subrange(0, j as int).push(sender.bytes@[j as int]));
        }
        r.push(sender.bytes[j]);
        j = j + 1;
    }
    assert(sender.bytes@.subrange(0, 20) =~= sender.bytes@);
    let mut k: usize = 0;
    while k < enc.len()
        invariant
            k <= enc@.len(),
            enc@.len() <= 9,
            r@ == seq![(0xc0 + 21 + enc@.len()) as u8, 0x94u8] + sender.bytes@ + enc@.subrange(
                0,
                k as int,
            ),
        decreases enc@.len() - k,
    {
        proof {
            assert(enc@.subrange(0, k + 1) =~= enc@.subrange(0, k as int).push(enc@[k as int]));
        }
        r.push(enc[k]);
        k = k + 1;
    }
    assert(enc@.subrange(0, enc@.len() as int) =~= enc@);
    r
}

/// The address held in the low twenty bytes of a 32-byte digest.
pub fn address_from_digest(digest: &[u8; 32]) -> (r: Address)
    ensures
        r.bytes@ == digest@.subrange(12, 32),
{
    let mut a = Address::zero();
    let mut i: usize = 0;
    while i < 20
        invariant
            i <= 20,
            a.bytes@.len() == 20,
            digest@.len() == 32,
            forall|j: int| 0 <= j < i ==> a.bytes@[j] == digest@[j + 12],
        decreases 20 - i,
    {
        a.bytes[i] = digest[i + 12];
        i = i + 1;
    }
    assert(a.bytes@ =~= digest@.subrange(12, 32));
    a
}

/// The address of the contract that `sender` creates with `nonce`.
pub fn predict(sender: &Address, nonce: u64) -> (r: Address)
    ensures
        r@ == predicted(sender@, nonce as nat),
{
    let pre = create_preimage_bytes(sender, nonce);
    let digest = keccak256(&pre);
    address_from_digest(&digest)
}

/// The `i`-th four-bit digit of `b`, high digit of each byte first.
pub open spec fn nibble(b: Seq<u8>, i: int) -> u8 {
    if i % 2 == 0 {
        b[i / 2] / 16
    } else {
        b[i / 2] % 16
    }
}

/// The ASCII code of a lower-case hexadecimal digit.
pub open spec fn lower_hex_digit(n: u8) -> u8 {
    if n < 10 {
        (48 + n) as u8
    } else {
        (87 + n) as u8
    }
}

/// The lower-case hexadecimal text of `b`, as ASCII codes.
pub open spec fn lower_hex(b: Seq<u8>) -> Seq<u8> {
    Seq::new(2 * b.len(), |i: int| lower_hex_digit(nibble(b, i)))
}

/// The mixed-case checksum text of `b`: each letter of the lower-case text
/// is upper-cased where the matching digit of the text's digest is 8 or
/// more.
pub open spec fn checksum_hex(b: Seq<u8>) -> Seq<u8> {
    let l = lower_hex(b);
    let h = keccak_of(l);
    Seq::new(l.len(), |i: int| if l[i] >= 97 && nibble(h, i) >= 8 { (l[i] - 32) as u8 } else { l[i] })
}

/// The characters of ASCII codes.
pub open spec fn ascii_chars(b: Seq<u8>) -> Seq<char> {
    b.map_values(|x: u8| x as char)
}

/// Relies on String::from_utf8: ASCII bytes are valid UTF-8, one character
/// per byte.
#[verifier::external_body]
fn ascii_string(b: Vec<u8>) -> (r: String)
    requires
        forall|i: int| 0 <= i < b@.len() ==> b@[i] < 128,
    ensures
        r@ == ascii_chars(b@),
{
    String::from_utf8(b).unwrap_or_default()
}

fn lower_hex_digit_exec(n: u8) -> (r: u8)
    requires
        n < 16,
    ensures
        r == lower_hex_digit(n),
{
    if n < 10 {
        48 + n
    } else {
        87 + n
    }
}

fn lower_hex_bytes(b: &[u8; 20]) -> (r: Vec<u8>)
    ensures
        r@ == lower_hex(b@),
{
    let mut r: Vec<u8> = Vec::new();
    let mut i: usize = 0;
    while i < 20
        invariant
            i <= 20,
            b@.len() == 20,
            r@.len() == 2 * i,
            forall|j: int| 0 <= j < 2 * i ==> r@[j] == lower_hex_digit(#[trigger] nibble(b@, j)),
        decreases 20 - i,
    {
        assert(nibble(b@, 2 * i as int) == b@[i as int] / 16);
        assert(nibble(b@, 2 * i + 1) == b@[i as int] % 16);
        r.push(lower_hex_digit_exec(b[i] / 16));
        r.push(lower_hex_digit_exec(b[i] % 16));
        i = i + 1;
    }
    assert(r@ =~= lower_hex(b@));
    r
}

impl Address {
    /// `0x` followed by the mixed-case checksum text of the address.
    pub fn to_checksum_text(&self) -> (r: String)
        ensures
            r@ == "0x"@ + ascii_chars(checksum_hex(self@)),
    {
        let l = lower_hex_bytes(&self.bytes);
        let h = keccak256(&l);
        let mut c: Vec<u8> = Vec::new();
        let mut i: usize = 0;
        while i < 40
            invariant
                i <= 40,
                l@ == lower_hex(self@),
                l@.len() == 40,
                h@ == keccak_of(l@),
                h@.len() == 32,
                c@.len() == i,
                forall|j: int| 0 <= j < i ==> c@[j] == checksum_hex(self@)[j],
                forall|j: int| 0 <= j < i ==> c@[j] < 128,
            decreases 40 - i,
        {
            let d = if i % 2 == 0 {
                h[i / 2] / 16
            } else {
                h[i / 2] % 16
            };
            assert(d == nibble(h@, i as int));
            assert(l@[i as int] == lower_hex_digit(nibble(self@, i as int)));
            let x = if l[i] >= 97 && d >= 8 {
                l[i] - 32
            } else {
                l[i]
            };
            c.push(x);
            i = i + 1;
        }
        assert(c@ =~= checksum_hex(self@));
        let mut r = String::new();
        proof {
            reveal_strlit("0x");
        }
        r.append("0x");
        let t = ascii_string(c);
        r.append(t.as_str());
        r
    }
}

/// Prediction is a function of the sender and the nonce alone: equal inputs
/// give equal addresses, in every run.
pub proof fn prediction_is_deterministic(s1: Seq<u8>, n1: nat, s2: Seq<u8>, n2: nat)
    requires
        s1 == s2,
        n1 == n2,
    ensures
        predicted(s1, n1) == predicted(s2, n2),
        create_preimage(s1, n1) == create_preimage(s2, n2),
{
}

/// The nonce zero is encoded as the empty byte string (0x80), never as a
/// zero byte, so the preimage for a 20-byte sender at nonce zero is
/// `0xd6 0x94 <sender> 0x80`.
pub proof fn zero_nonce_is_empty_string(sender: Seq<u8>)
    requires
        sender.len() == 20,
    ensures
        minimal_be(0) == Seq::<u8>::empty(),
        rlp_uint(0) == seq![0x80u8],
        create_preimage(sender, 0) == seq![0xd6u8, 0x94u8] + sender + seq![0x80u8],
{
    assert(rlp_uint(0) =~= seq![0x80u8]);
}

/// Distinct nonces of one sender give distinct preimages: every slot hashes
/// its own input.
pub proof fn distinct_nonces_distinct_preimages(sender: Seq<u8>, n1: nat, n2: nat)
    requires
        sender.len() == 20,
        n1 != n2,
        n1 < 0x1_0000_0000_0000_0000,
        n2 < 0x1_0000_0000_0000_0000,
    ensures
        create_preimage(sender, n1) != create_preimage(sender, n2),
{
    lemma_u64_bound();
    lemma_minimal_be_len(n1, 8);
    lemma_minimal_be_len(n2, 8);
    let p1 = create_preimage(sender, n1);
    let p2 = create_preimage(sender, n2);
    if p1 == p2 {
        assert(rlp_uint(n1) =~= p1.subrange(22, p1.len() as int));
        assert(rlp_uint(n2) =~= p2.subrange(22, p2.len() as int));
        lemma_rlp_uint_injective(n1, n2);
    }
}

proof fn lemma_minimal_be_injective(a: nat, b: nat)
    requires
        minimal_be(a) == minimal_be(b),
    ensures
        a == b,
    decreases a + b,
{
    if a != 0 && b != 0 {
        let sa = minimal_be(a);
        let sb = minimal_be(b);
        assert(sa.drop_last() == minimal_be(a / 256));
        assert(sb.drop_last() == minimal_be(b / 256));
        lemma_minimal_be_injective(a / 256, b / 256);
        assert(sa.last() == (a % 256) as u8);
        assert(sb.last() == (b % 256) as u8);
    } else if a == 0 && b != 0 {
        assert(minimal_be(b).len() > 0);
    } else if a != 0 && b == 0 {
        assert(minimal_be(a).len() > 0);
    }
}

proof fn lemma_rlp_uint_injective(a: nat, b: nat)
    requires
        rlp_uint(a) == rlp_uint(b),
        minimal_be(a).len() <= 8,
        minimal_be(b).len() <= 8,
    ensures
        a == b,
{
    let ra = rlp_uint(a);
    let rb = rlp_uint(b);
    let ma = minimal_be(a);
    let mb = minimal_be(b);
    if 0 < a < 0x80 {
        assert(ra =~= seq![a as u8]);
        if 0 < b < 0x80 {
            assert(rb =~= seq![b as u8]);
            assert(ra[0] == a as u8);
            assert(rb[0] == b as u8);
            assert(ra[0] == rb[0]);
            assert((a as u8) as nat == a);
            assert((b as u8) as nat == b);
        } else {
            assert(rb =~= seq![(0x80 + mb.len()) as u8] + mb);
            if b == 0 {
                assert(rb[0] == 0x80u8);
                assert(ra[0] == rb[0]);
            } else {
                assert(mb.len() > 0);
                assert(rb.len() > 1);
            }
        }
    } else if 0 < b < 0x80 {
        assert(rb =~= seq![b as u8]);
        assert(ra =~= seq![(0x80 + ma.len()) as u8] + ma);
        if a == 0 {
            assert(ra[0] == 0x80u8);
            assert(ra[0] == rb[0]);
        } else {
            assert(ma.len() > 0);
            assert(ra.len() > 1);
        }
    } else {
        assert(ra =~= seq![(0x80 + ma.len()) as u8] + ma);
        assert(rb =~= seq![(0x80 + mb.len()) as u8] + mb);
        assert(ma =~= ra.subrange(1, ra.len() as int));
        assert(mb =~= rb.subrange(1, rb.len() as int));
        lemma_minimal_be_injective(a, b);
    }
}

} // verus!
