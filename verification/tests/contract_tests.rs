use edu_chain::contract::ContractError;
use edu_chain::contract::EduChain;
use edu_chain::contract::Holder;
use edu_chain::contract::IssueOutcome;
use edu_chain::contract::LocalRole;
use edu_chain::contract::NftAttributes;
use edu_chain::contract::ReturnedPayment;
use edu_chain::rewards::RewardBalance;
use edu_chain::token::is_valid_esdt_identifier;

const OWNER: u64 = 11;
const STRANGER: u64 = 22;

fn issued_contract() -> EduChain {
    let mut c = EduChain::init(OWNER);
    let refund = c.issue_callback(IssueOutcome::Success(b"EDU-abcdef".to_vec()));
    assert!(refund.is_none());
    c
}

fn configured_contract() -> EduChain {
    let mut c = issued_contract();
    let r = c.set_rewards_token_identifier(OWNER, b"RWD-123456".to_vec());
    assert_eq!(r, Ok(()));
    c
}

#[test]
fn deposits_accumulate() {
    let mut c = configured_contract();
    assert_eq!(c.deposit_rewards(OWNER, b"RWD-123456".to_vec(), 700), Ok(()));
    assert_eq!(c.deposit_rewards(OWNER, b"RWD-123456".to_vec(), 42), Ok(()));
    assert_eq!(c.available_rewards().try_to_u128(), Some(742));
}

#[test]
fn deposit_of_wrong_token_is_rejected() {
    let mut c = configured_contract();
    assert_eq!(c.deposit_rewards(OWNER, b"RWD-123456".to_vec(), 700), Ok(()));
    assert_eq!(
        c.deposit_rewards(OWNER, b"OTH-123456".to_vec(), 9),
        Err(ContractError::WrongToken)
    );
    assert_eq!(c.available_rewards().try_to_u128(), Some(700));
}

#[test]
fn deposit_by_stranger_is_rejected() {
    let mut c = configured_contract();
    assert_eq!(
        c.deposit_rewards(STRANGER, b"RWD-123456".to_vec(), 5),
        Err(ContractError::Unauthorized)
    );
    assert_eq!(c.available_rewards().try_to_u128(), Some(0));
}

#[test]
fn reward_balance_outgrows_u128() {
    let mut c = configured_contract();
    assert_eq!(c.deposit_rewards(OWNER, b"RWD-123456".to_vec(), u128::MAX), Ok(()));
    assert_eq!(c.available_rewards().try_to_u128(), Some(u128::MAX));
    assert_eq!(c.deposit_rewards(OWNER, b"RWD-123456".to_vec(), u128::MAX), Ok(()));
    assert_eq!(c.available_rewards().try_to_u128(), None);
}

#[test]
fn fresh_balance_is_zero() {
    let b = RewardBalance::zero();
    assert_eq!(b.try_to_u128(), Some(0));
}

#[test]
fn mint_before_issuance_fails() {
    let mut c = EduChain::init(OWNER);
    let r = c.issue_certificate(
        OWNER,
        b"EDU".to_vec(),
        b"John Doe".to_vec(),
        b"Blockchain 101".to_vec(),
        10,
        5,
        1000,
        77,
    );
    assert_eq!(r, Err(ContractError::TokenNotIssued));
    let r = c.register_user(OWNER, b"EDU".to_vec(), 9, 77, true);
    assert_eq!(r, Err(ContractError::TokenNotIssued));
    assert_eq!(c.minted_count(), 0);
}

#[test]
fn mint_by_stranger_fails() {
    let mut c = issued_contract();
    let r = c.issue_certificate(
        STRANGER,
        b"EDU".to_vec(),
        b"John Doe".to_vec(),
        b"Blockchain 101".to_vec(),
        10,
        5,
        1000,
        77,
    );
    assert_eq!(r, Err(ContractError::Unauthorized));
    assert_eq!(c.minted_count(), 0);
}

#[test]
fn sequential_mints_return_increasing_nonces() {
    let mut c = issued_contract();
    let n1 = c
        .issue_certificate(
            OWNER,
            b"EDU".to_vec(),
            b"John Doe".to_vec(),
            b"Blockchain 101".to_vec(),
            10,
            5,
            1000,
            77,
        )
        .unwrap();
    let n2 = c
        .register_user(OWNER, b"EDU".to_vec(), 9, 78, true)
        .unwrap();
    assert!(n1 < n2);
    assert_eq!(n1, 1);
    assert_eq!(n2, 2);
}

#[test]
fn certificate_record_is_kept() {
    let mut c = issued_contract();
    let n = c
        .issue_certificate(
            OWNER,
            b"EDU".to_vec(),
            b"John Doe".to_vec(),
            b"Blockchain 101".to_vec(),
            10,
            5,
            1000,
            77,
        )
        .unwrap();
    assert_eq!(n, 1);
    assert_eq!(c.minted_count(), 1);
    let record = c.minted(0);
    assert_eq!(record.nonce, 1);
    assert_eq!(record.display_name, b"EDU".to_vec());
    assert_eq!(record.amount, 1);
    assert_eq!(record.holder, Holder::Contract);
    match &record.attributes {
        NftAttributes::Certificate(a) => {
            assert_eq!(a.name, b"John Doe".to_vec());
            assert_eq!(a.program_name, b"Blockchain 101".to_vec());
            assert_eq!(a.grade, 10);
            assert_eq!(a.credit_points, 5);
            assert_eq!(a.creation_timestamp, 77);
            assert_eq!(a.expiration_timestamp, 1000);
        }
        NftAttributes::User(_) => panic!("expected certificate attributes"),
    }
}

#[test]
fn attribute_digest_is_the_empty_buffer_digest() {
    // SHA-256 of the empty byte string; the digest is stored as the
    // record's content hash, so it must differ from the empty input.
    let expected: Vec<u8> = vec![
        0xe3, 0xb0, 0xc4, 0x42, 0x98, 0xfc, 0x1c, 0x14, 0x9a, 0xfb, 0xf4, 0xc8, 0x99, 0x6f,
        0xb9, 0x24, 0x27, 0xae, 0x41, 0xe4, 0x64, 0x9b, 0x93, 0x4c, 0xa4, 0x95, 0x99, 0x1b,
        0x78, 0x52, 0xb8, 0x55,
    ];
    let mut c = issued_contract();
    c.issue_certificate(
        OWNER,
        b"EDU".to_vec(),
        b"John Doe".to_vec(),
        b"Blockchain 101".to_vec(),
        10,
        5,
        1000,
        77,
    )
    .unwrap();
    assert_eq!(c.minted(0).attributes_hash, expected);
}

#[test]
fn registered_user_record_ends_at_user() {
    let mut c = issued_contract();
    let n = c.register_user(OWNER, b"EDU".to_vec(), 9, 78, true).unwrap();
    assert_eq!(n, 1);
    let record = c.minted(0);
    assert_eq!(record.holder, Holder::Account(9));
    match &record.attributes {
        NftAttributes::User(a) => assert_eq!(a.creation_timestamp, 78),
        NftAttributes::Certificate(_) => panic!("expected user attributes"),
    }
}

#[test]
fn refused_transfer_rolls_the_mint_back() {
    let mut c = issued_contract();
    let r = c.register_user(OWNER, b"EDU".to_vec(), 9, 78, false);
    assert_eq!(r, Err(ContractError::TransferFailed));
    assert_eq!(c.minted_count(), 0);
}

#[test]
fn issue_token_requires_positive_payment() {
    let c = EduChain::init(OWNER);
    let r = c.issue_token(b"EduToken".to_vec(), b"EDU".to_vec(), 0);
    assert!(matches!(r, Err(ContractError::InvalidPayment)));
}

#[test]
fn issue_token_builds_the_fixed_request() {
    let c = EduChain::init(OWNER);
    let req = c
        .issue_token(b"EduToken".to_vec(), b"EDU".to_vec(), 50_000_000_000_000_000)
        .unwrap_or_else(|_| panic!("issuance request refused"));
    assert_eq!(req.token_name, b"EduToken".to_vec());
    assert_eq!(req.token_ticker, b"EDU".to_vec());
    assert_eq!(req.payment, 50_000_000_000_000_000);
    assert!(req.properties.can_freeze);
    assert!(req.properties.can_wipe);
    assert!(req.properties.can_pause);
    assert!(req.properties.can_transfer_create_role);
    assert!(!req.properties.can_change_owner);
    assert!(!req.properties.can_upgrade);
    assert!(req.properties.can_add_special_roles);
}

#[test]
fn reissue_after_success_fails() {
    let c = issued_contract();
    let r = c.issue_token(b"EduToken".to_vec(), b"EDU".to_vec(), 5);
    assert!(matches!(r, Err(ContractError::AlreadyIssued)));
}

#[test]
fn failed_issuance_refunds_the_native_amount() {
    let mut c = EduChain::init(OWNER);
    let refund = c.issue_callback(IssueOutcome::Failure(ReturnedPayment {
        native: true,
        amount: 5_000_000,
    }));
    assert_eq!(refund, Some(5_000_000));
    assert!(c.nft_token_id().is_empty());
}

#[test]
fn failed_issuance_without_native_return_refunds_nothing() {
    let mut c = EduChain::init(OWNER);
    let refund = c.issue_callback(IssueOutcome::Failure(ReturnedPayment {
        native: false,
        amount: 5_000_000,
    }));
    assert_eq!(refund, None);
    let refund = c.issue_callback(IssueOutcome::Failure(ReturnedPayment {
        native: true,
        amount: 0,
    }));
    assert_eq!(refund, None);
    assert!(c.nft_token_id().is_empty());
}

#[test]
fn invalid_reward_identifier_is_rejected() {
    let mut c = configured_contract();
    let r = c.set_rewards_token_identifier(OWNER, Vec::new());
    assert_eq!(r, Err(ContractError::InvalidTokenIdentifier));
    assert_eq!(c.edu_token(), &b"RWD-123456".to_vec());
}

#[test]
fn identifier_format_is_enforced() {
    assert!(is_valid_esdt_identifier(&b"EDU-abcdef".to_vec()));
    assert!(is_valid_esdt_identifier(&b"ABCDEFGHIJ-123abc".to_vec()));
    assert!(is_valid_esdt_identifier(&b"A2Z-z9z9z9".to_vec()));
    assert!(!is_valid_esdt_identifier(&b"".to_vec()));
    assert!(!is_valid_esdt_identifier(&b"ED-abcdef".to_vec()));
    assert!(!is_valid_esdt_identifier(&b"EDUabcdefg".to_vec()));
    assert!(!is_valid_esdt_identifier(&b"EDU-ABCDEF".to_vec()));
    assert!(!is_valid_esdt_identifier(&b"edu-abcdef".to_vec()));
    assert!(!is_valid_esdt_identifier(&b"EDU-abcde".to_vec()));
    assert!(!is_valid_esdt_identifier(&b"ABCDEFGHIJK-abcdef".to_vec()));
}

#[test]
fn roles_request_names_the_collection() {
    let c = issued_contract();
    let req = c
        .set_local_roles(OWNER)
        .unwrap_or_else(|_| panic!("role request refused"));
    assert_eq!(req.token_id, b"EDU-abcdef".to_vec());
    assert_eq!(req.role, LocalRole::NftCreate);
}

#[test]
fn roles_request_needs_an_issued_token_and_the_owner() {
    let c = EduChain::init(OWNER);
    assert!(matches!(c.set_local_roles(OWNER), Err(ContractError::TokenNotIssued)));
    let c = issued_contract();
    assert!(matches!(c.set_local_roles(STRANGER), Err(ContractError::Unauthorized)));
}

#[test]
fn token_issuance_guard_tracks_the_identifier() {
    let c = EduChain::init(OWNER);
    assert_eq!(c.require_token_issued(), Err(ContractError::TokenNotIssued));
    let c = issued_contract();
    assert_eq!(c.require_token_issued(), Ok(()));
    assert_eq!(c.nft_token_id(), &b"EDU-abcdef".to_vec());
}

#[test]
fn upgrade_keeps_the_state() {
    let mut c = configured_contract();
    assert_eq!(c.deposit_rewards(OWNER, b"RWD-123456".to_vec(), 3), Ok(()));
    c.upgrade();
    assert_eq!(c.available_rewards().try_to_u128(), Some(3));
    assert_eq!(c.edu_token(), &b"RWD-123456".to_vec());
    assert_eq!(c.nft_token_id(), &b"EDU-abcdef".to_vec());
}

#[test]
fn deploy_issue_and_mint_scenario() {
    let mut c = EduChain::init(OWNER);
    let req = c
        .issue_token(b"EduToken".to_vec(), b"EDU".to_vec(), 5_000_000_000_000_000)
        .unwrap_or_else(|_| panic!("issuance request refused"));
    assert_eq!(req.payment, 5_000_000_000_000_000);
    let refund = c.issue_callback(IssueOutcome::Success(b"EDU-abcdef".to_vec()));
    assert!(refund.is_none());
    assert_eq!(c.nft_token_id(), &b"EDU-abcdef".to_vec());
    let n1 = c
        .issue_certificate(
            OWNER,
            b"EDU".to_vec(),
            b"John Doe".to_vec(),
            b"Blockchain 101".to_vec(),
            10,
            5,
            1000,
            77,
        )
        .unwrap();
    assert_eq!(n1, 1);
    let n2 = c
        .issue_certificate(
            OWNER,
            b"EDU".to_vec(),
            b"Jane Roe".to_vec(),
            b"Blockchain 102".to_vec(),
            9,
            6,
            2000,
            88,
        )
        .unwrap();
    assert_eq!(n2, 2);
}
