use near_token_factory::codec::{account_id_from_token_address, address_from_token_account_id, Address};
use near_token_factory::contract::{Contract, DepositAction, TokenDeployment, WithdrawCall};
use near_token_factory::encoding::{abi_encode_withdraw, withdraw_selector};
use near_token_factory::errors::Error;
use near_token_factory::registry::Registry;

fn locker() -> Address {
    Address(vec![0xab; 20])
}

fn new_factory() -> Contract {
    Contract::new(b"factory".to_vec(), b"aurora".to_vec(), locker()).unwrap()
}

fn locker_caller(c: &Contract) -> Vec<u8> {
    c.locker_account_id()
}

/// Check withdraw selector is properly computed. Function signature is:
/// "withdraw(address,address,uint256)"
#[test]
fn test_withdraw_select() {
    assert_eq!(
        ethabi::short_signature(
            "withdraw",
            &[
                ethabi::ParamType::Address,
                ethabi::ParamType::Address,
                ethabi::ParamType::Uint(256)
            ],
        )
        .to_vec(),
        withdraw_selector()
    );
}

#[test]
fn test_abi_encode_withdraw() {
    let token_id = [
        12u8, 34, 56, 78, 90, 12, 34, 56, 78, 90, 12, 34, 56, 78, 90, 12, 34, 56, 78, 90,
    ];
    let receiver_id = [
        12u8, 12, 12, 12, 34, 34, 34, 34, 56, 56, 56, 56, 78, 78, 78, 78, 90, 90, 90, 90,
    ];
    let amount = 0x998877665544332211u128;

    assert_eq!(
        abi_encode_withdraw(
            &Address(token_id.to_vec()),
            &Address(receiver_id.to_vec()),
            amount,
        )[4..]
            .to_vec(),
        ethabi::encode(&[
            ethabi::Token::Address(ethabi::Address::from_slice(&token_id)),
            ethabi::Token::Address(ethabi::Address::from_slice(&receiver_id)),
            ethabi::Token::Uint(ethabi::Uint::from(amount)),
        ])
    );
}

#[test]
fn account_identity_example() {
    let address = Address((1u8..=20).collect());
    let acct = account_id_from_token_address(&address, &b"factory".to_vec());
    assert_eq!(acct, b"0102030405060708090a0b0c0d0e0f1011121314.factory".to_vec());
}

#[test]
fn address_round_trip() {
    let address = Address(vec![
        0x00, 0xff, 0x10, 0x2a, 0x3b, 0x4c, 0x5d, 0x6e, 0x7f, 0x80, 0x91, 0xa2, 0xb3, 0xc4,
        0xd5, 0xe6, 0xf7, 0x08, 0x19, 0x2a,
    ]);
    let acct = account_id_from_token_address(&address, &b"factory".to_vec());
    let decoded = address_from_token_account_id(&acct).unwrap();
    assert_eq!(decoded.0, address.0);
}

#[test]
fn decode_accepts_upper_case_hex() {
    let acct = b"0102030405060708090A0B0C0D0E0F1011121314.factory".to_vec();
    let decoded = address_from_token_account_id(&acct).unwrap();
    assert_eq!(decoded.0, (1u8..=20).collect::<Vec<u8>>());
}

#[test]
fn decode_rejects_non_hex_prefix() {
    let acct = b"zz02030405060708090a0b0c0d0e0f1011121314.factory".to_vec();
    match address_from_token_account_id(&acct) {
        Err(Error::MalformedCallerIdentity) => {}
        _ => panic!("expected MalformedCallerIdentity"),
    }
}

#[test]
fn decode_rejects_short_identity() {
    let acct = b"0102".to_vec();
    match address_from_token_account_id(&acct) {
        Err(Error::MalformedCallerIdentity) => {}
        _ => panic!("expected MalformedCallerIdentity"),
    }
}

#[test]
fn new_accepts_identity_at_limit() {
    // 22 + 1 + 40 == 63, exactly the limit.
    let factory_id = vec![b'a'; 22];
    assert!(Contract::new(factory_id, b"aurora".to_vec(), locker()).is_ok());
}

#[test]
fn new_rejects_identity_over_limit() {
    // 23 + 1 + 40 == 64, one over the limit.
    let factory_id = vec![b'a'; 23];
    match Contract::new(factory_id, b"aurora".to_vec(), locker()) {
        Err(Error::IdentityTooLong) => {}
        _ => panic!("expected IdentityTooLong"),
    }
}

#[test]
fn locker_account_id_is_hex_of_locker_under_aurora() {
    let c = new_factory();
    let mut expected = Vec::new();
    for _ in 0..20 {
        expected.extend_from_slice(b"ab");
    }
    expected.extend_from_slice(b".aurora");
    assert_eq!(c.locker_account_id(), expected);
}

#[test]
fn set_token_binary_bumps_version() {
    let mut c = new_factory();
    assert_eq!(c.token_binary_version, 0);
    c.set_token_binary(&b"factory".to_vec(), vec![1, 2, 3]);
    assert_eq!(c.token_binary_version, 1);
    assert_eq!(c.token_binary, Some(vec![1, 2, 3]));
    c.set_token_binary(&b"factory".to_vec(), vec![4, 5]);
    assert_eq!(c.token_binary_version, 2);
    assert_eq!(c.token_binary, Some(vec![4, 5]));
}

#[test]
fn deposit_example_deploys_then_credits() {
    let mut c = new_factory();
    c.set_token_binary(&b"factory".to_vec(), vec![9, 9, 9]);
    let caller = locker_caller(&c);
    let token = Address((1u8..=20).collect());
    let expected_acct = b"0102030405060708090a0b0c0d0e0f1011121314.factory".to_vec();

    match c.on_deposit(&caller, &token, b"alice".to_vec(), 500).unwrap() {
        DepositAction::DeployAndCredit {
            token_account_id,
            binary,
            receiver_id,
            amount,
        } => {
            assert_eq!(token_account_id, expected_acct);
            assert_eq!(binary, vec![9, 9, 9]);
            assert_eq!(receiver_id, b"alice".to_vec());
            assert_eq!(amount, 500);
        }
        _ => panic!("expected a deploy sequence for the first deposit"),
    }
    assert_eq!(c.tokens.len(), 1);
    assert_eq!(c.tokens.entries[0].account_id, expected_acct);
    assert_eq!(c.tokens.entries[0].version, 1);

    match c.on_deposit(&caller, &token, b"alice".to_vec(), 250).unwrap() {
        DepositAction::Credit {
            token_account_id,
            receiver_id,
            amount,
        } => {
            assert_eq!(token_account_id, expected_acct);
            assert_eq!(receiver_id, b"alice".to_vec());
            assert_eq!(amount, 250);
        }
        _ => panic!("expected a direct credit for the second deposit"),
    }
    assert_eq!(c.tokens.len(), 1);
}

#[test]
fn deposit_unauthorized_leaves_registry_unchanged() {
    let mut c = new_factory();
    c.set_token_binary(&b"factory".to_vec(), vec![1]);
    let token = Address((1u8..=20).collect());
    let r = c.on_deposit(&b"mallory".to_vec(), &token, b"alice".to_vec(), 500);
    match r {
        Err(Error::Unauthorized) => {}
        _ => panic!("expected Unauthorized"),
    }
    assert_eq!(c.tokens.len(), 0);
}

#[test]
fn deposit_without_binary_fails() {
    let mut c = new_factory();
    let caller = locker_caller(&c);
    let token = Address((1u8..=20).collect());
    let r = c.on_deposit(&caller, &token, b"alice".to_vec(), 500);
    match r {
        Err(Error::ArtifactUnavailable) => {}
        _ => panic!("expected ArtifactUnavailable"),
    }
    assert_eq!(c.tokens.len(), 0);
}

#[test]
fn deposit_records_version_at_deploy_time() {
    let mut c = new_factory();
    c.set_token_binary(&b"factory".to_vec(), vec![1]);
    let caller = locker_caller(&c);
    let token_a = Address(vec![0x0a; 20]);
    c.on_deposit(&caller, &token_a, b"alice".to_vec(), 1).unwrap();
    c.set_token_binary(&b"factory".to_vec(), vec![2]);
    let token_b = Address(vec![0x0b; 20]);
    c.on_deposit(&caller, &token_b, b"alice".to_vec(), 1).unwrap();
    assert_eq!(c.tokens.entries[0].version, 1);
    assert_eq!(c.tokens.entries[1].version, 2);
}

#[test]
fn create_token_decides_deployment() {
    let mut c = new_factory();
    c.set_token_binary(&b"factory".to_vec(), vec![7, 7]);
    let caller = locker_caller(&c);
    let token = Address((1u8..=20).collect());
    let TokenDeployment {
        token_account_id,
        binary,
    } = c.create_token(&caller, &token).unwrap();
    assert_eq!(
        token_account_id,
        b"0102030405060708090a0b0c0d0e0f1011121314.factory".to_vec()
    );
    assert_eq!(binary, vec![7, 7]);
    // create_token does not register the token.
    assert_eq!(c.tokens.len(), 0);
}

#[test]
fn create_token_unauthorized() {
    let mut c = new_factory();
    c.set_token_binary(&b"factory".to_vec(), vec![7]);
    let token = Address((1u8..=20).collect());
    match c.create_token(&b"mallory".to_vec(), &token) {
        Err(Error::Unauthorized) => {}
        _ => panic!("expected Unauthorized"),
    }
}

#[test]
fn create_token_without_binary() {
    let mut c = new_factory();
    let caller = locker_caller(&c);
    let token = Address((1u8..=20).collect());
    match c.create_token(&caller, &token) {
        Err(Error::ArtifactUnavailable) => {}
        _ => panic!("expected ArtifactUnavailable"),
    }
}

#[test]
fn withdraw_builds_exact_message() {
    let c = new_factory();
    let token: Vec<u8> = (1u8..=20).collect();
    let caller = account_id_from_token_address(&Address(token.clone()), &b"factory".to_vec());
    let receiver = Address((21u8..=40).collect());
    let WithdrawCall {
        aurora,
        locker: locker_address,
        input,
    } = c.on_withdraw(&caller, &receiver, 500).unwrap();
    assert_eq!(aurora, b"aurora".to_vec());
    assert_eq!(locker_address.0, vec![0xab; 20]);

    assert_eq!(input.len(), 100);
    assert_eq!(&input[0..4], &[0xd9, 0xca, 0xed, 0x12]);
    assert_eq!(&input[4..16], &[0u8; 12]);
    assert_eq!(&input[16..36], token.as_slice());
    assert_eq!(&input[36..48], &[0u8; 12]);
    assert_eq!(&input[48..68], receiver.0.as_slice());
    assert_eq!(&input[68..84], &[0u8; 16]);
    // 500 == 0x01f4, big-endian in the low 16 bytes of the last word.
    assert_eq!(&input[84..98], &[0u8; 14]);
    assert_eq!(input[98], 0x01);
    assert_eq!(input[99], 0xf4);
}

#[test]
fn withdraw_rejects_malformed_caller() {
    let c = new_factory();
    let receiver = Address((21u8..=40).collect());
    let caller = b"not-an-address-shaped-identity.factory.near.long".to_vec();
    match c.on_withdraw(&caller, &receiver, 500) {
        Err(Error::MalformedCallerIdentity) => {}
        _ => panic!("expected MalformedCallerIdentity"),
    }
}

#[test]
fn withdraw_rejects_short_caller() {
    let c = new_factory();
    let receiver = Address((21u8..=40).collect());
    match c.on_withdraw(&b"alice.near".to_vec(), &receiver, 500) {
        Err(Error::MalformedCallerIdentity) => {}
        _ => panic!("expected MalformedCallerIdentity"),
    }
}

#[test]
fn registry_registers_once() {
    let mut r = Registry::new();
    assert!(!r.contains(&b"a.factory".to_vec()));
    r.register(b"a.factory".to_vec(), 3);
    assert!(r.contains(&b"a.factory".to_vec()));
    assert!(!r.contains(&b"b.factory".to_vec()));
    assert_eq!(r.len(), 1);
    assert_eq!(r.entries[0].version, 3);
}

#[test]
fn encode_amount_big_endian_max() {
    let token = Address(vec![0; 20]);
    let receiver = Address(vec![0; 20]);
    let out = abi_encode_withdraw(&token, &receiver, u128::MAX);
    assert_eq!(&out[84..100], &[0xffu8; 16]);
    assert_eq!(&out[68..84], &[0u8; 16]);
}
