//! The vendor transform on 8-byte frames: a fixed byte permutation, an XOR
//! with the session secret, a rotate-and-merge step that couples each byte
//! to its predecessor, and a modular subtraction of a nibble-swapped
//! hardcoded constant. All tables and constants are protocol constants
//! reverse-engineered from real hardware; there is no algorithmic shortcut
//! to regenerate them.

use vstd::prelude::*;

verus! {

/// The fixed byte permutation on positions 0..8. It is an involution:
/// applying it twice gives the identity, so gathering from position
/// `spec_shuffle(i)` reorders the bytes exactly as scattering to position
/// `spec_shuffle(n)` would.
pub open spec fn spec_shuffle(i: int) -> int {
    if i == 0 {
        2
    } else if i == 1 {
        4
    } else if i == 2 {
        0
    } else if i == 3 {
        7
    } else if i == 4 {
        1
    } else if i == 5 {
        6
    } else if i == 6 {
        5
    } else {
        3
    }
}

/// The hardcoded 8-byte constant whose nibble-swapped bytes are subtracted
/// in the final combine step.
pub open spec fn spec_cipher_state(i: int) -> u8 {
    if i == 0 {
        0x48
    } else if i == 1 {
        0x74
    } else if i == 2 {
        0x65
    } else if i == 3 {
        0x6d
    } else if i == 4 {
        0x70
    } else if i == 5 {
        0x39
    } else if i == 6 {
        0x39
    } else {
        0x65
    }
}

/// Swap the high and low nibble of a byte (not a rotation by a different
/// amount: exactly four bits each way).
pub open spec fn nibble_swap(b: u8) -> u8 {
    (b >> 4) | (b << 4)
}

/// Byte `i` after the permutation step.
pub open spec fn spec_permuted(data: Seq<u8>, i: int) -> u8 {
    data[spec_shuffle(i)]
}

/// Byte `i` after XOR with the session secret, position for position.
pub open spec fn spec_mixed(key: Seq<u8>, data: Seq<u8>, i: int) -> u8 {
    spec_permuted(data, i) ^ key[i]
}

/// Byte `i` after the rotate-and-merge step: a 3-bit right shift of byte
/// `i` merged with a 5-bit left-shifted contribution from byte
/// `(i - 1) mod 8` of the mixed buffer.
pub open spec fn spec_rotated(key: Seq<u8>, data: Seq<u8>, i: int) -> u8 {
    (spec_mixed(key, data, i) >> 3) | (spec_mixed(key, data, (i + 7) % 8) << 5)
}

/// Output byte `i`: the rotated byte minus the nibble-swapped constant,
/// as modular subtraction in the 0..256 ring.
pub open spec fn spec_output(key: Seq<u8>, data: Seq<u8>, i: int) -> u8 {
    ((256 + spec_rotated(key, data, i) - nibble_swap(spec_cipher_state(i))) % 256) as u8
}

/// The whole transform: what [`decrypt`] returns for a given secret and
/// raw frame. A total function of its two arguments, which is what makes
/// deobfuscation deterministic.
pub open spec fn spec_decrypt(key: Seq<u8>, data: Seq<u8>) -> Seq<u8> {
    Seq::new(8, |i: int| spec_output(key, data, i))
}

/// The permutation table as executable code.
fn shuffle_slot(i: usize) -> (v: usize)
    requires
        i < 8,
    ensures
        v == spec_shuffle(i as int),
        v < 8,
{
    if i == 0 {
        2
    } else if i == 1 {
        4
    } else if i == 2 {
        0
    } else if i == 3 {
        7
    } else if i == 4 {
        1
    } else if i == 5 {
        6
    } else if i == 6 {
        5
    } else {
        3
    }
}

/// The hardcoded constant as executable code.
fn cipher_state_byte(i: usize) -> (b: u8)
    requires
        i < 8,
    ensures
        b == spec_cipher_state(i as int),
{
    if i == 0 {
        0x48
    } else if i == 1 {
        0x74
    } else if i == 2 {
        0x65
    } else if i == 3 {
        0x6d
    } else if i == 4 {
        0x70
    } else if i == 5 {
        0x39
    } else if i == 6 {
        0x39
    } else {
        0x65
    }
}

/// Reverses the vendor transform on a raw frame given the 8-byte session
/// secret. Total: every input produces an output; whether that output is
/// meaningful is judged downstream by the validator.
pub fn decrypt(key: &[u8; 8], data: [u8; 8]) -> (r: [u8; 8])
    ensures
        r@ == spec_decrypt(key@, data@),
{
    // Permute. The table is an involution, so reading from position
    // `shuffle_slot(i)` applies the same bijection as writing to it.
    let mut phase1: [u8; 8] = [0; 8];
    let mut i: usize = 0;
    while i < 8
        invariant
            i <= 8,
            forall|j: int| 0 <= j < i ==> phase1@[j] == spec_permuted(data@, j),
        decreases 8 - i,
    {
        let s = shuffle_slot(i);
        phase1.set(i, data[s]);
        i += 1;
    }

    // Mix with the secret.
    let mut phase2: [u8; 8] = [0; 8];
    let mut i: usize = 0;
    while i < 8
        invariant
            i <= 8,
            forall|j: int| 0 <= j < 8 ==> phase1@[j] == spec_permuted(data@, j),
            forall|j: int| 0 <= j < i ==> phase2@[j] == spec_mixed(key@, data@, j),
        decreases 8 - i,
    {
        phase2.set(i, phase1[i] ^ key[i]);
        i += 1;
    }

    // Rotate and merge with the predecessor byte.
    let mut phase3: [u8; 8] = [0; 8];
    let mut i: usize = 0;
    while i < 8
        invariant
            i <= 8,
            forall|j: int| 0 <= j < 8 ==> phase2@[j] == spec_mixed(key@, data@, j),
            forall|j: int| 0 <= j < i ==> phase3@[j] == spec_rotated(key@, data@, j),
        decreases 8 - i,
    {
        let prev = phase2[(i + 7) % 8];
        phase3.set(i, (phase2[i] >> 3) | (prev << 5));
        i += 1;
    }

    // Derive the fixed keystream by nibble-swapping the constant.
    let mut ctmp: [u8; 8] = [0; 8];
    let mut i: usize = 0;
    while i < 8
        invariant
            i <= 8,
            forall|j: int| 0 <= j < i ==> ctmp@[j] == nibble_swap(spec_cipher_state(j)),
        decreases 8 - i,
    {
        let c = cipher_state_byte(i);
        ctmp.set(i, (c >> 4) | (c << 4));
        i += 1;
    }

    // Final combine: modular subtraction in a wide enough intermediate type.
    let mut out: [u8; 8] = [0; 8];
    let mut i: usize = 0;
    while i < 8
        invariant
            i <= 8,
            forall|j: int| 0 <= j < 8 ==> phase3@[j] == spec_rotated(key@, data@, j),
            forall|j: int| 0 <= j < 8 ==> ctmp@[j] == nibble_swap(spec_cipher_state(j)),
            forall|j: int| 0 <= j < i ==> out@[j] == spec_output(key@, data@, j),
        decreases 8 - i,
    {
        let x: u16 = 0x100 + phase3[i] as u16 - ctmp[i] as u16;
        let b: u8 = (x & 0xff) as u8;
        proof {
            assert(b == x % 256) by (bit_vector)
                requires
                    b == (x & 0xff) as u8,
            ;
        }
        out.set(i, b);
        i += 1;
    }

    proof {
        assert(out@ =~= spec_decrypt(key@, data@));
    }
    out
}

/// Deobfuscation is deterministic: it has no hidden state, so two results
/// obtained from the same secret and the same raw frame are equal. The two
/// results here are constrained exactly as the contract of [`decrypt`]
/// constrains its return value.
pub proof fn lemma_decrypt_deterministic(
    key: [u8; 8],
    data: [u8; 8],
    r1: [u8; 8],
    r2: [u8; 8],
)
    requires
        r1@ == spec_decrypt(key@, data@),
        r2@ == spec_decrypt(key@, data@),
    ensures
        r1 == r2,
{
    assert(r1@ =~= r2@);
}

} // verus!
