use claim_token::state::received::CustomError;
use claim_token::state::received::Received;
use claim_token::state::received::UserState;
use claim_token::state::received::ENTITLEMENT_LENGTH;
use claim_token::state::received::MESSAGE_MAX_LENGTH;
use std::mem::size_of;

#[test]
fn test_received() {
    assert_eq!(
        Received::MAXIMUM_SIZE,
        size_of::<u64>()
            + size_of::<u32>()
            + size_of::<[u8; 32]>()
            + size_of::<u32>()
            + MESSAGE_MAX_LENGTH
    );
}

fn entitlement_payload(user: [u8; 32], amount: u64) -> Vec<u8> {
    let mut payload = Vec::with_capacity(ENTITLEMENT_LENGTH);
    payload.extend_from_slice(&user);
    payload.extend_from_slice(&amount.to_le_bytes());
    payload
}

#[test]
fn entitlement_decodes_exact_pair() {
    let user = [0xABu8; 32];
    let payload = entitlement_payload(user, 1_000_000_007);
    let decoded = UserState::decode(payload).unwrap();
    assert_eq!(decoded.user, user);
    assert_eq!(decoded.amount, 1_000_000_007);
}

#[test]
fn entitlement_amount_is_little_endian() {
    let mut payload = vec![0u8; ENTITLEMENT_LENGTH];
    payload[32] = 1;
    payload[33] = 2;
    let decoded = UserState::decode(payload).unwrap();
    assert_eq!(decoded.amount, 1 + 2 * 256);

    let mut payload_top = vec![0u8; ENTITLEMENT_LENGTH];
    payload_top[39] = 0xFF;
    let decoded_top = UserState::decode(payload_top).unwrap();
    assert_eq!(decoded_top.amount, 0xFF00_0000_0000_0000);
}

#[test]
fn entitlement_of_thirty_nine_bytes_fails() {
    let payload = vec![5u8; ENTITLEMENT_LENGTH - 1];
    assert!(matches!(
        UserState::decode(payload),
        Err(CustomError::MalformedEntitlement)
    ));
}

#[test]
fn entitlement_of_forty_one_bytes_fails() {
    let payload = vec![5u8; ENTITLEMENT_LENGTH + 1];
    assert!(matches!(
        UserState::decode(payload),
        Err(CustomError::MalformedEntitlement)
    ));
}

#[test]
fn empty_entitlement_fails() {
    assert!(matches!(
        UserState::decode(Vec::new()),
        Err(CustomError::MalformedEntitlement)
    ));
}
