use vstd::prelude::*;

verus! {

/// The genetic code of a kitty: sixteen bytes, fixed at creation.
#[derive(Clone, Copy, Debug, PartialEq, Eq)]
pub struct Kitty(pub [u8; 16]);

/// The one trait derived from a genetic code.
#[derive(Clone, Copy, Debug, PartialEq, Eq, Structural)]
pub enum KittyGender {
    Male,
    Female,
}

/// Male when the lowest bit of the first byte is clear, Female when it is set.
pub open spec fn gender_of(code: Seq<u8>) -> KittyGender {
    if code[0] % 2 == 0 {
        KittyGender::Male
    } else {
        KittyGender::Female
    }
}

impl Kitty {
    /// The sixteen bytes of the code.
    pub open spec fn code(&self) -> Seq<u8> {
        self.0@
    }

    /// The gender this code gives.
    pub fn gender(&self) -> (r: KittyGender)
        ensures
            r == gender_of(self.code()),
    {
        if self.0[0] % 2 == 0 {
            KittyGender::Male
        } else {
            KittyGender::Female
        }
    }
}

/// One byte of a child: each bit comes from `a` where `sel` has it set,
/// and from `b` where `sel` has it clear.
pub open spec fn mix_byte(sel: u8, a: u8, b: u8) -> u8 {
    (sel & a) | (!sel & b)
}

/// Bit `i` (counted from the least significant) of `x`.
pub open spec fn bit(x: u8, i: u8) -> bool {
    (x >> i) & 1u8 == 1u8
}

/// Each bit of `mix_byte(sel, a, b)` is the bit of `a` where `sel` has it
/// set, and the bit of `b` where `sel` has it clear.
pub proof fn lemma_mix_byte_bits(sel: u8, a: u8, b: u8)
    ensures
        forall|i: u8| i < 8 ==> #[trigger] bit(mix_byte(sel, a, b), i) == if bit(sel, i) {
            bit(a, i)
        } else {
            bit(b, i)
        },
{
    let r = mix_byte(sel, a, b);
    assert forall|i: u8| i < 8 implies #[trigger] bit(r, i) == if bit(sel, i) {
        bit(a, i)
    } else {
        bit(b, i)
    } by {
        assert((((r >> i) & 1u8) == 1u8) == if ((sel >> i) & 1u8) == 1u8 {
            ((a >> i) & 1u8) == 1u8
        } else {
            ((b >> i) & 1u8) == 1u8
        }) by (bit_vector)
            requires
                r == (sel & a) | (!sel & b),
                i < 8,
        ;
    }
}

/// Combines one byte of each parent under one byte of the selection mask.
pub fn combine_dna(a: u8, b: u8, sel: u8) -> (r: u8)
    ensures
        r == mix_byte(sel, a, b),
        forall|i: u8| i < 8 ==> #[trigger] bit(r, i) == if bit(sel, i) {
            bit(a, i)
        } else {
            bit(b, i)
        },
{
    let r = (sel & a) | (!sel & b);
    proof {
        lemma_mix_byte_bits(sel, a, b);
        assert(r == mix_byte(sel, a, b));
    }
    r
}

/// The child code of two parents under a sixteen-byte selection mask:
/// byte `i` of the child is `mix_byte(mask[i], a[i], b[i])`.
pub open spec fn combined(a: Seq<u8>, b: Seq<u8>, mask: Seq<u8>) -> Seq<u8> {
    Seq::new(16, |i: int| mix_byte(mask[i], a[i], b[i]))
}

/// Builds a child's code from both parents' codes and a selection mask.
pub fn combine(a: &Kitty, b: &Kitty, mask: &[u8; 16]) -> (r: Kitty)
    ensures
        r.code() == combined(a.code(), b.code(), mask@),
{
    let mut child: [u8; 16] = [0u8; 16];
    let mut i: usize = 0;
    while i < 16
        invariant
            i <= 16,
            child@.len() == 16,
            forall|j: int| 0 <= j < i ==> child@[j] == mix_byte(mask@[j], a.0@[j], b.0@[j]),
        decreases 16 - i,
    {
        child[i] = combine_dna(a.0[i], b.0[i], mask[i]);
        i += 1;
    }
    let r = Kitty(child);
    assert(r.code() =~= combined(a.code(), b.code(), mask@));
    r
}

/// Every bit of a combined code is the matching bit of the first parent
/// where the mask bit is set, and of the second parent where it is clear.
pub proof fn lemma_combined_bits(a: Seq<u8>, b: Seq<u8>, mask: Seq<u8>)
    requires
        a.len() == 16,
        b.len() == 16,
        mask.len() == 16,
    ensures
        combined(a, b, mask).len() == 16,
        forall|i: int, j: u8|
            0 <= i < 16 && j < 8 ==> #[trigger] bit(combined(a, b, mask)[i], j) == if bit(
                mask[i],
                j,
            ) {
                bit(a[i], j)
            } else {
                bit(b[i], j)
            },
{
    assert forall|i: int, j: u8| 0 <= i < 16 && j < 8 implies #[trigger] bit(
        combined(a, b, mask)[i],
        j,
    ) == if bit(mask[i], j) {
        bit(a[i], j)
    } else {
        bit(b[i], j)
    } by {
        lemma_mix_byte_bits(mask[i], a[i], b[i]);
    }
}

/// Gender depends on nothing but the parity of the first byte: two codes
/// whose first bytes have the same parity have the same gender.
pub proof fn lemma_gender_first_byte_parity(x: Seq<u8>, y: Seq<u8>)
    requires
        x.len() == 16,
        y.len() == 16,
        x[0] % 2 == y[0] % 2,
    ensures
        gender_of(x) == gender_of(y),
{
}

/// The 128-bit BLAKE2b digest of some bytes.
pub uninterp spec fn blake2_128_of(data: Seq<u8>) -> Seq<u8>;

/// Relies on sp_io::hashing::blake2_128: the 16-byte BLAKE2b digest of
/// `data`, which depends on those bytes alone.
#[verifier::external_body]
fn blake2_128(data: &[u8]) -> (r: [u8; 16])
    ensures
        r@ == blake2_128_of(data@),
{
    sp_io::hashing::blake2_128(data)
}

/// The `n` bytes of `x`, least significant first.
pub open spec fn le_bytes(x: u64, n: nat) -> Seq<u8> {
    Seq::new(n, |i: int| ((x >> (8 * i) as u64) & 0xffu64) as u8)
}

/// Appends the `n` low bytes of `x`, least significant first.
pub fn push_le_bytes(out: &mut Vec<u8>, x: u64, n: u64)
    requires
        n <= 8,
    ensures
        final(out)@ == old(out)@ + le_bytes(x, n as nat),
{
    let mut k: u64 = 0;
    while k < n
        invariant
            k <= n <= 8,
            out@ == old(out)@ + le_bytes(x, k as nat),
        decreases n - k,
    {
        out.push(((x >> (8 * k)) & 0xff) as u8);
        proof {
            assert(le_bytes(x, (k + 1) as nat) =~= le_bytes(x, k as nat).push(
                ((x >> (8 * k) as u64) & 0xffu64) as u8,
            ));
        }
        k += 1;
    }
}

/// The bytes of an optional index: `[0]` for none, else `1` followed by
/// the index's four bytes, least significant first.
pub open spec fn option_bytes(index: Option<u32>) -> Seq<u8> {
    match index {
        None => seq![0u8],
        Some(v) => seq![1u8] + le_bytes(v as u64, 4),
    }
}

/// What is hashed to give fresh bytes: the random draw, then the account
/// (eight bytes, least significant first), then the optional position of
/// the current operation within its block.
pub open spec fn random_payload(draw: Seq<u8>, who: u64, index: Option<u32>) -> Seq<u8> {
    draw + le_bytes(who, 8) + option_bytes(index)
}

/// Derives sixteen fresh bytes for `who` from a 32-byte random draw and the
/// position of the current operation: the BLAKE2b-128 digest of
/// `random_payload(draw, who, index)`.
pub fn random_value(draw: &[u8; 32], who: u64, index: Option<u32>) -> (r: [u8; 16])
    ensures
        r@ == blake2_128_of(random_payload(draw@, who, index)),
{
    let mut payload: Vec<u8> = Vec::new();
    let mut i: usize = 0;
    while i < 32
        invariant
            i <= 32,
            payload@ == draw@.take(i as int),
        decreases 32 - i,
    {
        payload.push(draw[i]);
        proof {
            assert(draw@.take(i + 1) =~= draw@.take(i as int).push(draw@[i as int]));
        }
        i += 1;
    }
    assert(draw@.take(32) =~= draw@);
    push_le_bytes(&mut payload, who, 8);
    match index {
        None => payload.push(0u8),
        Some(v) => {
            payload.push(1u8);
            push_le_bytes(&mut payload, v as u64, 4);
        },
    }
    assert(payload@ =~= random_payload(draw@, who, index));
    blake2_128(payload.as_slice())
}

/// Every byte of `s` with all its bits flipped.
pub open spec fn complemented(s: Seq<u8>) -> Seq<u8> {
    Seq::new(s.len(), |i: int| !s[i])
}

/// Flips every bit of a sixteen-byte value.
pub fn complement(x: &[u8; 16]) -> (r: [u8; 16])
    ensures
        r@ == complemented(x@),
{
    let mut r: [u8; 16] = [0u8; 16];
    let mut i: usize = 0;
    while i < 16
        invariant
            i <= 16,
            r@.len() == 16,
            forall|j: int| 0 <= j < i ==> r@[j] == !x@[j],
        decreases 16 - i,
    {
        r[i] = !x[i];
        i += 1;
    }
    assert(r@ =~= complemented(x@));
    r
}

} // verus!
