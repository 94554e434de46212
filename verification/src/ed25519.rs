//! The Ed25519 precompile instruction that carries a signed approval.
//!
//! The program parses the layout itself and requires every part to live in the instruction's own
//! data, so all three instruction indices are the maximum of a `u16`, and the account list is
//! empty. The layout is a header of 16 bytes, then the parts at fixed places:
//!
//! ```text
//! 0       number of signatures = 1
//! 1       padding
//! 2..4    signature offset        4..6    signature instruction index
//! 6..8    public key offset       8..10   public key instruction index
//! 10..12  message offset          12..14  message size
//! 14..16  message instruction index
//! ```

use vstd::bytes::{
    lemma_auto_spec_u16_to_from_le_bytes, spec_u16_to_le_bytes, spec_u64_to_le_bytes,
    u16_to_le_bytes, u64_to_le_bytes,
};
use vstd::prelude::*;

use crate::bytes::le_u16;
use crate::keys::{Pubkey, ED25519_PROGRAM_ID};

verus! {

/// An instruction that names no accounts.
#[derive(Debug, PartialEq, Eq)]
pub struct Instruction {
    pub program_id: Pubkey,
    pub data: Vec<u8>,
}

/// What an approver signs: that a user may take offers of the program until a time.
#[derive(Clone, Copy, Debug, PartialEq, Eq)]
pub struct ApprovalMessage {
    pub program_id: Pubkey,
    pub user_pubkey: Pubkey,
    pub expiry_unix: u64,
}

impl ApprovalMessage {
    /// The bytes that are signed.
    pub open spec fn bytes(self) -> Seq<u8> {
        self.program_id@ + self.user_pubkey@ + spec_u64_to_le_bytes(self.expiry_unix)
    }

    /// The bytes that are signed.
    pub fn to_bytes(&self) -> (r: Vec<u8>)
        ensures
            r@ == self.bytes(),
    {
        let mut out: Vec<u8> = Vec::new();
        append(&mut out, &self.program_id);
        append(&mut out, &self.user_pubkey);
        append(&mut out, &u64_to_le_bytes(self.expiry_unix));
        out
    }
}

/// The data of the precompile instruction for one signature.
pub open spec fn ed25519_data(pubkey: Seq<u8>, signature: Seq<u8>, message: Seq<u8>) -> Seq<u8> {
    seq![1u8, 0u8] + spec_u16_to_le_bytes(48) + spec_u16_to_le_bytes(u16::MAX)
        + spec_u16_to_le_bytes(16) + spec_u16_to_le_bytes(u16::MAX) + spec_u16_to_le_bytes(112)
        + spec_u16_to_le_bytes((message.len() % 65_536) as u16) + spec_u16_to_le_bytes(u16::MAX)
        + pubkey + signature + message
}

/// Appends `tail` to `out`.
fn append(out: &mut Vec<u8>, tail: &[u8])
    ensures
        final(out)@ == old(out)@ + tail@,
{
    let mut i: usize = 0;
    while i < tail.len()
        invariant
            i <= tail@.len(),
            out@ == old(out)@ + tail@.subrange(0, i as int),
        decreases tail@.len() - i,
    {
        out.push(tail[i]);
        i = i + 1;
        assert(out@ =~= old(out)@ + tail@.subrange(0, i as int));
    }
    assert(tail@.subrange(0, i as int) =~= tail@);
}

/// The precompile instruction for one signature of `message`.
pub fn scout_ed25519_instruction(pubkey: &Pubkey, signature: &[u8; 64], message: &[u8]) -> (r:
    Instruction)
    ensures
        r.program_id == ED25519_PROGRAM_ID,
        r.data@ == ed25519_data(pubkey@, signature@, message@),
{
    let len: usize = message.len();
    let size: u16 = #[verifier::truncate]
    (len as u16);
    assert(size == len % 65_536) by (bit_vector)
        requires
            size == len as u16,
    ;
    let mut data: Vec<u8> = Vec::new();
    data.push(1);
    data.push(0);
    assert(data@ =~= seq![1u8, 0u8]);
    append(&mut data, &u16_to_le_bytes(48));
    append(&mut data, &u16_to_le_bytes(u16::MAX));
    append(&mut data, &u16_to_le_bytes(16));
    append(&mut data, &u16_to_le_bytes(u16::MAX));
    append(&mut data, &u16_to_le_bytes(112));
    append(&mut data, &u16_to_le_bytes(size));
    append(&mut data, &u16_to_le_bytes(u16::MAX));
    append(&mut data, pubkey);
    append(&mut data, signature);
    append(&mut data, message);
    Instruction { program_id: ED25519_PROGRAM_ID, data }
}

/// The header of the precompile instruction points at the parts it carries: one signature, its key
/// and its message each lie in the instruction's own data, at the offsets that the header gives.
pub proof fn law_header_points_at_the_parts(
    pubkey: Pubkey,
    signature: [u8; 64],
    message: Seq<u8>,
)
    ensures
        ({
            let data = ed25519_data(pubkey@, signature@, message);
            &&& data.len() == 112 + message.len()
            &&& data[0] == 1
            &&& data[1] == 0
            &&& le_u16(data, 4) == u16::MAX
            &&& le_u16(data, 8) == u16::MAX
            &&& le_u16(data, 14) == u16::MAX
            &&& le_u16(data, 12) == message.len() % 65_536
            &&& data.subrange(le_u16(data, 2) as int, le_u16(data, 2) + 64) == signature@
            &&& data.subrange(le_u16(data, 6) as int, le_u16(data, 6) + 32) == pubkey@
            &&& data.subrange(le_u16(data, 10) as int, data.len() as int) == message
        }),
{
    lemma_auto_spec_u16_to_from_le_bytes();
    let data = ed25519_data(pubkey@, signature@, message);
    let size = (message.len() % 65_536) as u16;
    assert(data.subrange(2, 4) =~= spec_u16_to_le_bytes(48));
    assert(data.subrange(4, 6) =~= spec_u16_to_le_bytes(u16::MAX));
    assert(data.subrange(6, 8) =~= spec_u16_to_le_bytes(16));
    assert(data.subrange(8, 10) =~= spec_u16_to_le_bytes(u16::MAX));
    assert(data.subrange(10, 12) =~= spec_u16_to_le_bytes(112));
    assert(data.subrange(12, 14) =~= spec_u16_to_le_bytes(size));
    assert(data.subrange(14, 16) =~= spec_u16_to_le_bytes(u16::MAX));
    assert(data.subrange(48, 112) =~= signature@);
    assert(data.subrange(16, 48) =~= pubkey@);
    assert(data.subrange(112, data.len() as int) =~= message);
}

} // verus!
