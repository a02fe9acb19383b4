use vstd::prelude::*;

use crate::account::AccountId;
use bit_vec::BitVec;

verus! {

#[verifier::external_type_specification]
#[verifier::external_body]
#[verifier::reject_recursive_types(B)]
pub struct ExBitVec<B>(BitVec<B>);

/// The bits that a `BitVec` holds, in index order.
pub uninterp spec fn bitvec_bits(v: BitVec<u32>) -> Seq<bool>;

/// Bit `j` of byte `b`, counting from the most significant bit (`j < 8`).
pub open spec fn msb_bit(b: u8, j: u8) -> bool {
    (b >> ((7 - j) as u8)) & 1u8 == 1u8
}

/// `bit_vec::BitVec::from_bytes`: each byte becomes eight bits, the most
/// significant bit of each byte first. The crate documents exactly this; the
/// call panics only when the bit count overflows `usize`, which `requires` excludes.
#[verifier::external_body]
fn bitvec_from_bytes(bytes: &[u8]) -> (v: BitVec<u32>)
    requires
        bytes@.len() * 8 <= usize::MAX,
    ensures
        bitvec_bits(v).len() == bytes@.len() * 8,
        forall|i: int|
            0 <= i < bytes@.len() * 8 ==> #[trigger] bitvec_bits(v)[i] == msb_bit(
                bytes@[i / 8],
                (i % 8) as u8,
            ),
{
    BitVec::from_bytes(bytes)
}

/// `bit_vec::BitVec::get`: the bit at `i`, or `None` past the end.
#[verifier::external_body]
fn bitvec_get(v: &BitVec<u32>, i: usize) -> (r: Option<bool>)
    ensures
        r == (if i < bitvec_bits(*v).len() {
            Some(bitvec_bits(*v)[i as int])
        } else {
            None
        }),
{
    v.get(i)
}


/// Flag `i` of an update word: the flags are read from the most significant bit
/// down, so flag 0 is bit 63.
pub open spec fn word_flag(word: u64, i: int) -> bool {
    (word >> ((63 - i) as u64)) & 1u64 == 1u64
}

/// The number whose binary digits, most significant first, are the first `n` flags.
pub open spec fn packed(flags: Seq<bool>, n: nat) -> nat
    decreases n,
{
    if n == 0 {
        0
    } else {
        2 * packed(flags, (n - 1) as nat) + (if flags[n - 1] { 1nat } else { 0nat })
    }
}

/// Two to the power `n`.
pub open spec fn two_pow(n: nat) -> nat
    decreases n,
{
    if n == 0 {
        1
    } else {
        2 * two_pow((n - 1) as nat)
    }
}

proof fn lemma_byte_bit(word: u64, k: u64, j: u64)
    by (bit_vector)
    requires
        k < 8,
        j < 8,
    ensures
        ((((word >> (56 - 8 * k) as u64) as u8) >> ((7 - j) as u8)) & 1u8 == 1u8) == ((word >> (63
            - (8 * k + j)) as u64) & 1u64 == 1u64),
{
}

proof fn lemma_shift_step(word: u64, s: u64)
    by (bit_vector)
    requires
        s < 63,
    ensures
        2 * (word >> (s + 1) as u64) + ((word >> s) & 1u64) == word >> s,
{
}

proof fn lemma_top_bit(word: u64)
    by (bit_vector)
    ensures
        (word >> 63u64) & 1u64 == word >> 63u64,
        word >> 63u64 <= 1,
{
}

proof fn lemma_packed_bound(flags: Seq<bool>, n: nat)
    ensures
        packed(flags, n) < two_pow(n),
    decreases n,
{
    if n > 0 {
        lemma_packed_bound(flags, (n - 1) as nat);
    }
}

proof fn lemma_two_pow_mono(a: nat, b: nat)
    requires
        a <= b,
    ensures
        two_pow(a) <= two_pow(b),
    decreases b,
{
    if a < b {
        lemma_two_pow_mono(a, (b - 1) as nat);
    }
}

proof fn lemma_two_pow_64()
    ensures
        two_pow(64) == 0x1_0000_0000_0000_0000,
{
    reveal_with_fuel(two_pow, 65);
}

/// Packing the flags of a word, read most significant bit first, gives back the
/// word's top `n` bits.
proof fn lemma_packed_prefix(word: u64, flags: Seq<bool>, n: nat)
    requires
        1 <= n <= 64,
        flags.len() >= n,
        forall|i: int| 0 <= i < n ==> flags[i] == word_flag(word, i),
    ensures
        packed(flags, n) == word >> ((64 - n) as u64),
    decreases n,
{
    if n == 1 {
        lemma_top_bit(word);
        assert(packed(flags, 0) == 0);
        assert(flags[0] == word_flag(word, 0));
    } else {
        lemma_packed_prefix(word, flags, (n - 1) as nat);
        let s: u64 = (64 - n) as u64;
        lemma_shift_step(word, s);
        assert(flags[n - 1] == word_flag(word, n - 1));
        assert(((word >> s) & 1u64) <= 1) by (bit_vector);
    }
}

/// Splits an update word into its flags, flag 0 being the most significant bit.
pub fn unpack_flags(word: u64) -> (flags: BitVec<u32>)
    ensures
        bitvec_bits(flags).len() == 64,
        forall|i: int| 0 <= i < 64 ==> #[trigger] bitvec_bits(flags)[i] == word_flag(word, i),
{
    let mut bytes: Vec<u8> = Vec::new();
    let mut k: u64 = 0;
    while k < 8
        invariant
            k <= 8,
            bytes@.len() == k,
            forall|j: int| 0 <= j < k ==> bytes@[j] == (word >> (56 - 8 * j) as u64) as u8,
        decreases 8 - k,
    {
        bytes.push((word >> (56 - 8 * k)) as u8);
        k = k + 1;
    }
    let v = bitvec_from_bytes(bytes.as_slice());
    proof {
        assert forall|i: int| 0 <= i < 64 implies #[trigger] bitvec_bits(v)[i] == word_flag(
            word,
            i,
        ) by {
            let kk: u64 = (i / 8) as u64;
            let jj: u64 = (i % 8) as u64;
            lemma_byte_bit(word, kk, jj);
            assert(bytes@[i / 8] == (word >> (56 - 8 * kk) as u64) as u8);
            assert(8 * kk + jj == i);
        }
    }
    v
}

/// Packs flags back into a word, flag 0 becoming the most significant bit; a
/// flag past the end of `flags` counts as unset.
pub fn pack_flags(flags: &BitVec<u32>) -> (word: u64)
    ensures
        word == packed(Seq::new(64, |i: int| i < bitvec_bits(*flags).len() && bitvec_bits(*flags)[i]), 64),
{
    let ghost bits = Seq::new(
        64,
        |i: int| i < bitvec_bits(*flags).len() && bitvec_bits(*flags)[i],
    );
    let mut acc: u64 = 0;
    let mut i: usize = 0;
    while i < 64
        invariant
            i <= 64,
            acc == packed(bits, i as nat),
            bits == Seq::new(
                64,
                |i: int| i < bitvec_bits(*flags).len() && bitvec_bits(*flags)[i],
            ),
        decreases 64 - i,
    {
        let bit = match bitvec_get(flags, i) {
            Some(b) => b,
            None => false,
        };
        proof {
            lemma_packed_bound(bits, i as nat);
            lemma_two_pow_mono(i as nat + 1, 64);
            lemma_two_pow_64();
            assert(bit == bits[i as int]);
        }
        acc = acc * 2 + if bit { 1 } else { 0 };
        i = i + 1;
    }
    acc
}

/// Packing the flags of a word gives back the word.
pub proof fn law_pack_unpack(word: u64, flags: BitVec<u32>)
    requires
        bitvec_bits(flags).len() == 64,
        forall|i: int| 0 <= i < 64 ==> #[trigger] bitvec_bits(flags)[i] == word_flag(word, i),
    ensures
        packed(Seq::new(64, |i: int| i < bitvec_bits(flags).len() && bitvec_bits(flags)[i]), 64)
            == word,
{
    let bits = Seq::new(64, |i: int| i < bitvec_bits(flags).len() && bitvec_bits(flags)[i]);
    assert forall|i: int| 0 <= i < 64 implies bits[i] == word_flag(word, i) by {
        assert(bitvec_bits(flags)[i] == word_flag(word, i));
    }
    lemma_packed_prefix(word, bits, 64);
    assert(word >> 0u64 == word) by (bit_vector);
}


/// A 32-byte public key.
pub type Pubkey = AccountId;

/// The state kept in the program's global account.
#[derive(Clone, Copy, Debug, PartialEq, Eq)]
pub struct GlobalState {
    /// The key allowed to change this state.
    pub owner: Pubkey,
    /// The flags of the last value update.
    pub flags: u64,
    /// The global values.
    pub values: [u64; 64],
}

/// An account handed to an instruction, as far as the instruction reads it.
#[derive(Clone, Copy, Debug, PartialEq, Eq)]
pub struct AccountRef {
    pub key: Pubkey,
    pub is_signer: bool,
}

/// Why an update of the global state was refused.
#[derive(Clone, Copy, Debug, PartialEq, Eq)]
pub enum UpdateGlobalError {
    /// Fewer than the three expected accounts were handed in.
    NotEnoughAccountKeys,
    /// The owner account did not sign.
    MissingRequiredSignature,
    /// The signer is not the owner of the global state.
    OwnerImposterError,
}

/// The instruction processor of the program.
pub struct Processor;

/// The outcome of an update-global instruction: `None` when it changes nothing
/// and fails with `update_global_error`, else the state after it.
pub open spec fn update_global_error(
    g: GlobalState,
    accounts: Seq<AccountRef>,
) -> Option<UpdateGlobalError> {
    if accounts.len() < 3 {
        Some(UpdateGlobalError::NotEnoughAccountKeys)
    } else if !accounts[0].is_signer {
        Some(UpdateGlobalError::MissingRequiredSignature)
    } else if g.owner != accounts[0].key {
        Some(UpdateGlobalError::OwnerImposterError)
    } else {
        None
    }
}

/// The value at `i` after an update: the new value where the flag is set,
/// the old one elsewhere.
pub open spec fn updated_value(old_values: Seq<u64>, update_flags: u64, values: Seq<u64>, i: int) -> u64 {
    if word_flag(update_flags, i) {
        values[i]
    } else {
        old_values[i]
    }
}

impl Processor {
    /// Updates the global state. The accounts are, in order: the owner, who
    /// must sign; the global account; and the owner again, or the new owner
    /// when ownership changes hands. A change of owner changes nothing else;
    /// otherwise each value whose flag is set in `updateFlags` (flag 0 being
    /// the most significant bit) is replaced, and the flags are recorded.
    /// A refused update leaves the state unchanged.
    #[allow(non_snake_case)]
    pub fn process_update_global(
        program_id: &Pubkey,
        accounts: &[AccountRef],
        global: &mut GlobalState,
        updateFlags: u64,
        values: [u64; 64],
    ) -> (r: Result<(), UpdateGlobalError>)
        ensures
            match update_global_error(*old(global), accounts@) {
                Some(e) => r == Err::<(), UpdateGlobalError>(e) && *final(global) == *old(global),
                None => r is Ok && if accounts@[0].key != accounts@[2].key {
                    *final(global) == GlobalState { owner: accounts@[2].key, ..*old(global) }
                } else {
                    &&& final(global).owner == accounts@[0].key
                    &&& final(global).flags == updateFlags
                    &&& forall|i: int|
                        0 <= i < 64 ==> #[trigger] final(global).values[i] == updated_value(
                            old(global).values@,
                            updateFlags,
                            values@,
                            i,
                        )
                },
            },
    {
        if accounts.len() < 3 {
            return Err(UpdateGlobalError::NotEnoughAccountKeys);
        }
        let owner = accounts[0];
        let new_owner = accounts[2];
        if !owner.is_signer {
            return Err(UpdateGlobalError::MissingRequiredSignature);
        }
        if !global.owner.same(&owner.key) {
            return Err(UpdateGlobalError::OwnerImposterError);
        }
        if !owner.key.same(&new_owner.key) {
            global.owner = new_owner.key;
            return Ok(());
        }
        let flags = unpack_flags(updateFlags);
        let ghost before = *global;
        let mut i: usize = 0;
        while i < 64
            invariant
                i <= 64,
                bitvec_bits(flags).len() == 64,
                forall|j: int| 0 <= j < 64 ==> #[trigger] bitvec_bits(flags)[j] == word_flag(updateFlags, j),
                global.owner == before.owner,
                global.flags == before.flags,
                forall|j: int|
                    0 <= j < i ==> #[trigger] global.values[j] == updated_value(
                        before.values@,
                        updateFlags,
                        values@,
                        j,
                    ),
                forall|j: int| i <= j < 64 ==> #[trigger] global.values[j] == before.values[j],
            decreases 64 - i,
        {
            let flag = bitvec_get(&flags, i);
            if let Some(true) = flag {
                global.values[i] = values[i];
            }
            proof {
                assert(bitvec_bits(flags)[i as int] == word_flag(updateFlags, i as int));
            }
            i = i + 1;
        }
        global.flags = pack_flags(&flags);
        proof {
            law_pack_unpack(updateFlags, flags);
        }
        global.owner = owner.key;
        Ok(())
    }
}

} // verus!
