use crate::address::{Address, ED25519_PROGRAM_ID};
use crate::errors::ErrorCode;
use crate::math::{le_bytes, push_le_bytes};
use vstd::prelude::*;
use vstd::string::StringSliceAdditionalSpecFns;

verus! {

/// Length of the fixed part of a signature instruction: a count of two
/// bytes, two bytes of padding, the signature and the signer's key.
pub const SIGNATURE_HEADER_LEN: usize = 100;

/// Position of the signer's key in a signature instruction.
pub const SIGNER_OFFSET: usize = 68;

/// The message an agent signs to authorise an action: its key, the nonce in
/// eight little-endian bytes, the name of the action and, for an action on a
/// proposal, the proposal's id in eight little-endian bytes.
pub open spec fn agent_message(
    agent_pubkey: Address,
    nonce: u64,
    action: Seq<u8>,
    proposal_id: Option<u64>,
) -> Seq<u8> {
    agent_pubkey.bytes@ + le_bytes(nonce as nat, 8) + action + match proposal_id {
        Some(id) => le_bytes(id as nat, 8),
        None => Seq::<u8>::empty(),
    }
}

/// Builds the message an agent signs to authorise an action. The nonce
/// makes each message different, so that none can be replayed.
pub fn create_agent_message(
    agent_pubkey: &Address,
    nonce: u64,
    action: &str,
    proposal_id: Option<u64>,
) -> (message: Vec<u8>)
    ensures
        message@ == agent_message(*agent_pubkey, nonce, action.spec_bytes(), proposal_id),
{
    let mut message: Vec<u8> = agent_pubkey.to_vec();
    push_le_bytes(&mut message, nonce as u128, 8);
    let ghost head = message@;
    let name = action.as_bytes();
    message.extend_from_slice(name);
    assert(message@ =~= head + name@);
    match proposal_id {
        Some(id) => {
            push_le_bytes(&mut message, id as u128, 8);
        },
        None => {
            assert(message@ + Seq::<u8>::empty() =~= message@);
        },
    }
    message
}

/// The position of the instruction that precedes the current one.
///
/// Fails with `MissingSignatureVerification` exactly when the current
/// instruction is the first.
pub fn previous_instruction_index(current_index: u16) -> (r: Result<u16, ErrorCode>)
    ensures
        current_index == 0 ==> r == Err::<u16, ErrorCode>(ErrorCode::MissingSignatureVerification),
        current_index > 0 ==> r == Ok::<u16, ErrorCode>((current_index - 1) as u16),
{
    if current_index == 0 {
        return Err(ErrorCode::MissingSignatureVerification);
    }
    Ok(current_index - 1)
}

/// Why an instruction is not accepted as the verification of an agent's
/// signature, if it is not. The checks come in this order.
pub open spec fn signature_error(
    program_id: Address,
    data: Seq<u8>,
    expected_pubkey: Address,
    expected_message: Seq<u8>,
) -> Option<ErrorCode> {
    if program_id.bytes@ != ED25519_PROGRAM_ID@ {
        Some(ErrorCode::InvalidSignatureProgram)
    } else if data.len() < SIGNATURE_HEADER_LEN {
        Some(ErrorCode::SignatureVerificationFailed)
    } else if !(data[0] == 1 && data[1] == 0) {
        Some(ErrorCode::SignatureVerificationFailed)
    } else if data.subrange(SIGNER_OFFSET as int, SIGNATURE_HEADER_LEN as int)
        != expected_pubkey.bytes@ {
        Some(ErrorCode::AgentMismatch)
    } else if data.subrange(SIGNATURE_HEADER_LEN as int, data.len() as int) != expected_message {
        Some(ErrorCode::SignatureVerificationFailed)
    } else {
        None
    }
}

/// Checks that the instruction before the current one had the chain verify
/// the expected agent's signature of the expected message.
///
/// `program_id` and `data` are those of that instruction. Succeeds exactly
/// when it is addressed to the signature verifier, carries one signature,
/// names the expected signer at bytes 68 to 99 and ends, from byte 100 on,
/// with the expected message; fails as `signature_error` says otherwise.
pub fn validate_ed25519_signature(
    program_id: &Address,
    data: &[u8],
    expected_pubkey: &Address,
    expected_message: &[u8],
) -> (r: Result<(), ErrorCode>)
    ensures
        match signature_error(*program_id, data@, *expected_pubkey, expected_message@) {
            Some(e) => r == Err::<(), ErrorCode>(e),
            None => r == Ok::<(), ErrorCode>(()),
        },
{
    let verifier = Address::new(ED25519_PROGRAM_ID);
    if *program_id != verifier {
        assert(program_id.bytes@ != ED25519_PROGRAM_ID@) by {
            if program_id.bytes@ == ED25519_PROGRAM_ID@ {
                assert(program_id.bytes =~= ED25519_PROGRAM_ID);
            }
        }
        return Err(ErrorCode::InvalidSignatureProgram);
    }
    if data.len() < SIGNATURE_HEADER_LEN {
        return Err(ErrorCode::SignatureVerificationFailed);
    }
    if !(data[0] == 1 && data[1] == 0) {
        return Err(ErrorCode::SignatureVerificationFailed);
    }
    if !expected_pubkey.matches_bytes(data, SIGNER_OFFSET) {
        return Err(ErrorCode::AgentMismatch);
    }
    let ghost signed = data@.subrange(SIGNATURE_HEADER_LEN as int, data@.len() as int);
    if data.len() - SIGNATURE_HEADER_LEN != expected_message.len() {
        return Err(ErrorCode::SignatureVerificationFailed);
    }
    let mut i: usize = 0;
    while i < expected_message.len()
        invariant
            i <= expected_message.len(),
            data.len() == SIGNATURE_HEADER_LEN + expected_message.len(),
            signed == data@.subrange(SIGNATURE_HEADER_LEN as int, data@.len() as int),
            forall|k: int| 0 <= k < i ==> signed[k] == expected_message@[k],
            signature_error(*program_id, data@, *expected_pubkey, expected_message@) is None
                || signature_error(*program_id, data@, *expected_pubkey, expected_message@)
                == Some(ErrorCode::SignatureVerificationFailed),
            signature_error(*program_id, data@, *expected_pubkey, expected_message@) is None
                <==> signed == expected_message@,
        decreases expected_message.len() - i,
    {
        if data[SIGNATURE_HEADER_LEN + i] != expected_message[i] {
            assert(signed[i as int] != expected_message@[i as int]);
            return Err(ErrorCode::SignatureVerificationFailed);
        }
        i = i + 1;
    }
    assert(signed =~= expected_message@);
    Ok(())
}

} // verus!
