//! Frame validity: the checksum over the first three bytes and the
//! marker-byte heuristic for spotting frames that still look obfuscated.

use vstd::prelude::*;

verus! {

/// The single rejection this layer knows. A frame is discarded when its
/// checksum does not match or when it still looks obfuscated; both causes
/// collapse into this one error.
#[derive(Clone, Copy, Debug, PartialEq, Eq, Structural)]
pub enum Errors {
    ChecksumError,
}

impl Errors {
    /// Human-readable description of the rejection.
    pub fn message(&self) -> (s: String)
        ensures
            s@ == "Checksum Failed!"@,
    {
        String::from_str("Checksum Failed!")
    }
}

/// A frame still looks obfuscated unless its marker byte (index 4) holds
/// 0x0d. Some device firmware revisions send plaintext frames; the marker
/// byte is the only signal that tells them apart, so a collision can
/// misclassify a frame. Callers treat a `true` result as a hint to attempt
/// deobfuscation, not as ground truth.
pub open spec fn spec_is_encrypted(frame: Seq<u8>) -> bool {
    frame[4] != 0x0d
}

/// Reports whether a frame still appears obfuscated: true exactly when the
/// marker byte (index 4) differs from 0x0d, independent of all other bytes.
pub fn is_encrypted(arr: [u8; 8]) -> (r: bool)
    ensures
        r == spec_is_encrypted(arr@),
{
    arr[4] != 0x0d
}

/// The checksum window: bytes 0 through 2 summed, reduced modulo 256.
pub open spec fn spec_checksum(frame: Seq<u8>) -> int {
    (frame[0] + frame[1] + frame[2]) % 256
}

/// A deobfuscated frame is valid when byte 3 matches the checksum of the
/// window and the frame no longer looks obfuscated. Both conditions are
/// required; dropping either one would accept frames the rest of the
/// system was designed to reject.
pub open spec fn spec_frame_valid(frame: Seq<u8>) -> bool {
    frame[3] == spec_checksum(frame) && !spec_is_encrypted(frame)
}

/// Validates a deobfuscated frame: returns it unchanged when byte 3 equals
/// the sum of bytes 0..3 modulo 256 and the marker byte holds 0x0d, and
/// rejects it otherwise.
pub fn checksum(arr: [u8; 8]) -> (r: Result<[u8; 8], Errors>)
    ensures
        r matches Ok(out) ==> spec_frame_valid(arr@) && out == arr,
        r matches Err(e) ==> !spec_frame_valid(arr@) && e == Errors::ChecksumError,
{
    let sum: u16 = arr[0] as u16 + arr[1] as u16 + arr[2] as u16;
    let cs: u16 = sum & 0xff;
    proof {
        assert(cs == sum % 256) by (bit_vector)
            requires
                cs == sum & 0xff,
        ;
    }
    if arr[3] as u16 != cs || is_encrypted(arr) {
        Err(Errors::ChecksumError)
    } else {
        Ok(arr)
    }
}

/// A single bit flip anywhere in the checksum window (bytes 0 through 2)
/// of a valid frame, with byte 3 left as it was, always makes validation
/// fail: flipping one bit moves the sum of the window by a nonzero power
/// of two, which is nonzero modulo 256.
pub proof fn lemma_checksum_detects_bit_flip(frame: Seq<u8>, i: int, mask: u8)
    requires
        frame.len() == 8,
        spec_frame_valid(frame),
        0 <= i < 3,
        mask == 1 || mask == 2 || mask == 4 || mask == 8 || mask == 16 || mask == 32
            || mask == 64 || mask == 128,
    ensures
        !spec_frame_valid(frame.update(i, frame[i] ^ mask)),
{
    let g: Seq<u8> = frame.update(i, frame[i] ^ mask);
    let a: u8 = frame[0];
    let b: u8 = frame[1];
    let c: u8 = frame[2];
    if i == 0 {
        let a2: u8 = a ^ mask;
        assert((a2 + b + c) % 256 != (a + b + c) % 256) by (bit_vector)
            requires
                a2 == a ^ mask,
                mask == 1 || mask == 2 || mask == 4 || mask == 8 || mask == 16 || mask == 32
                    || mask == 64 || mask == 128,
        ;
    } else if i == 1 {
        let b2: u8 = b ^ mask;
        assert((a + b2 + c) % 256 != (a + b + c) % 256) by (bit_vector)
            requires
                b2 == b ^ mask,
                mask == 1 || mask == 2 || mask == 4 || mask == 8 || mask == 16 || mask == 32
                    || mask == 64 || mask == 128,
        ;
    } else {
        let c2: u8 = c ^ mask;
        assert((a + b + c2) % 256 != (a + b + c) % 256) by (bit_vector)
            requires
                c2 == c ^ mask,
                mask == 1 || mask == 2 || mask == 4 || mask == 8 || mask == 16 || mask == 32
                    || mask == 64 || mask == 128,
        ;
    }
}

/// Setting the marker byte of a frame to anything but 0x0d always makes
/// validation fail, whatever the checksum says.
pub proof fn lemma_marker_required(frame: Seq<u8>)
    requires
        frame.len() == 8,
        frame[4] != 0x0d,
    ensures
        !spec_frame_valid(frame),
{
}

/// Validation has no hidden state: the verdict is a function of the frame
/// alone, so validating the same frame twice always gives the same result.
/// The two results here are constrained exactly as the contract of
/// [`checksum`] constrains its return value.
pub proof fn lemma_validate_stateless(
    arr: [u8; 8],
    r1: Result<[u8; 8], Errors>,
    r2: Result<[u8; 8], Errors>,
)
    requires
        r1 matches Ok(out) ==> spec_frame_valid(arr@) && out == arr,
        r1 matches Err(e) ==> !spec_frame_valid(arr@) && e == Errors::ChecksumError,
        r2 matches Ok(out) ==> spec_frame_valid(arr@) && out == arr,
        r2 matches Err(e) ==> !spec_frame_valid(arr@) && e == Errors::ChecksumError,
    ensures
        r1 == r2,
{
}

} // verus!
