use koshpay_vault::keys::Pubkey;
use koshpay_vault::record::from_record_bytes;
use koshpay_vault::record::to_record_bytes;
use koshpay_vault::vault::deposit;
use koshpay_vault::vault::initialize;
use koshpay_vault::vault::withdraw;
use koshpay_vault::vault::Deposit;
use koshpay_vault::vault::Initialize;
use koshpay_vault::vault::VaultError;
use koshpay_vault::vault::VaultState;
use koshpay_vault::vault::Withdraw;

fn key(b: u8) -> Pubkey {
    match Pubkey::from_bytes(vec![b; 32]) {
        Some(k) => k,
        None => panic!("32 bytes must make a key"),
    }
}

#[test]
fn key_from_bytes_rejects_wrong_length() {
    assert!(Pubkey::from_bytes(vec![1u8; 31]).is_none());
    assert!(Pubkey::from_bytes(vec![1u8; 33]).is_none());
    assert!(Pubkey::from_bytes(Vec::new()).is_none());
    assert!(Pubkey::from_bytes(vec![1u8; 32]).is_some());
}

#[test]
fn key_equality_is_byte_for_byte() {
    let a = key(7);
    let b = key(7);
    let c = key(9);
    assert!(a.eq_key(&b));
    assert!(!a.eq_key(&c));
    let mut bytes = vec![7u8; 32];
    bytes[31] = 8;
    let d = Pubkey::from_bytes(bytes).unwrap();
    assert!(!a.eq_key(&d));
}

#[test]
fn initialize_binds_authority_and_charges_cost() {
    let ctx = Initialize { existing: None, authority: key(1), authority_balance: 10_000 };
    let (state, balance_after) = initialize(&ctx, 2_500).unwrap();
    assert!(state.authority.eq_key(&key(1)));
    assert_eq!(balance_after, 7_500);
}

#[test]
fn initialize_rejects_short_balance() {
    let ctx = Initialize { existing: None, authority: key(1), authority_balance: 100 };
    match initialize(&ctx, 2_500) {
        Err(e) => assert_eq!(e, VaultError::InsufficientFunds),
        Ok(_) => panic!("a short funding balance must be rejected"),
    }
}

#[test]
fn initialize_succeeds_only_once() {
    let ctx = Initialize { existing: None, authority: key(1), authority_balance: 10_000 };
    let (state, _) = initialize(&ctx, 2_500).unwrap();
    let again = Initialize { existing: Some(state), authority: key(2), authority_balance: 10_000 };
    match initialize(&again, 2_500) {
        Err(e) => assert_eq!(e, VaultError::AlreadyInitialized),
        Ok(_) => panic!("a second initialization must be rejected"),
    }
}

#[test]
fn deposit_conserves_the_sum() {
    let ctx = Deposit { depositor: key(5), depositor_balance: 5_000, vault_balance: 300 };
    let (depositor_after, vault_after, event) = deposit(ctx, 1_200, 42).unwrap();
    assert_eq!(depositor_after, 3_800);
    assert_eq!(vault_after, 1_500);
    assert_eq!(depositor_after + vault_after, 5_000 + 300);
    assert!(event.user.eq_key(&key(5)));
    assert_eq!(event.amount, 1_200);
    assert_eq!(event.timestamp, 42);
}

#[test]
fn deposit_rejects_short_depositor_balance() {
    let ctx = Deposit { depositor: key(5), depositor_balance: 999, vault_balance: 300 };
    match deposit(ctx, 1_000, 42) {
        Err(e) => assert_eq!(e, VaultError::InsufficientFunds),
        Ok(_) => panic!("a short depositor balance must be rejected"),
    }
}

#[test]
fn withdraw_moves_amount_to_recipient() {
    let ctx = Withdraw {
        vault_state: VaultState { authority: key(1) },
        authority: key(1),
        vault_balance: 1_000,
        recipient: key(3),
        recipient_balance: 50,
    };
    assert_eq!(withdraw(&ctx, 400), Ok((600, 450)));
}

#[test]
fn withdraw_rejects_wrong_cosigner() {
    let ctx = Withdraw {
        vault_state: VaultState { authority: key(1) },
        authority: key(2),
        vault_balance: 1_000,
        recipient: key(3),
        recipient_balance: 50,
    };
    assert_eq!(withdraw(&ctx, 400), Err(VaultError::Unauthorized));
}

#[test]
fn withdraw_rejects_short_vault_balance() {
    let ctx = Withdraw {
        vault_state: VaultState { authority: key(1) },
        authority: key(1),
        vault_balance: 600,
        recipient: key(3),
        recipient_balance: 50,
    };
    assert_eq!(withdraw(&ctx, 10_000), Err(VaultError::InsufficientFunds));
}

#[test]
fn withdraw_undoes_deposit_on_the_vault_balance() {
    let vault_before: u64 = 777;
    let ctx = Deposit { depositor: key(5), depositor_balance: 5_000, vault_balance: vault_before };
    let (_, vault_after_deposit, _) = deposit(ctx, 1_200, 42).unwrap();
    let wd = Withdraw {
        vault_state: VaultState { authority: key(1) },
        authority: key(1),
        vault_balance: vault_after_deposit,
        recipient: key(3),
        recipient_balance: 0,
    };
    let (vault_after_withdraw, recipient_after) = withdraw(&wd, 1_200).unwrap();
    assert_eq!(vault_after_withdraw, vault_before);
    assert_eq!(recipient_after, 1_200);
}

#[test]
fn full_vault_lifecycle() {
    // A funds the vault's state record and becomes the authority.
    let init = Initialize { existing: None, authority: key(1), authority_balance: 1_000_000 };
    let (state, _) = initialize(&init, 2_500).unwrap();

    // U deposits 1,000 units: the vault goes from 0 to 1,000 and the event
    // names U and the amount.
    let dep = Deposit { depositor: key(20), depositor_balance: 50_000, vault_balance: 0 };
    let (_, vault_balance, event) = deposit(dep, 1_000, 99).unwrap();
    assert_eq!(vault_balance, 1_000);
    assert!(event.user.eq_key(&key(20)));
    assert_eq!(event.amount, 1_000);

    // A withdraws 400 to R: the vault drops to 600 and R gains 400.
    let wd = Withdraw {
        vault_state: VaultState { authority: state.authority.clone() },
        authority: key(1),
        vault_balance,
        recipient: key(30),
        recipient_balance: 0,
    };
    let (vault_balance, recipient_balance) = withdraw(&wd, 400).unwrap();
    assert_eq!(vault_balance, 600);
    assert_eq!(recipient_balance, 400);

    // B, who is not the authority, is turned away; the vault keeps 600.
    let wd_b = Withdraw {
        vault_state: VaultState { authority: state.authority.clone() },
        authority: key(2),
        vault_balance,
        recipient: key(30),
        recipient_balance,
    };
    assert_eq!(withdraw(&wd_b, 400), Err(VaultError::Unauthorized));

    // A asks for more than the vault holds and is turned away too.
    let wd_big = Withdraw {
        vault_state: VaultState { authority: state.authority },
        authority: key(1),
        vault_balance,
        recipient: key(30),
        recipient_balance,
    };
    assert_eq!(withdraw(&wd_big, 10_000), Err(VaultError::InsufficientFunds));
}

#[test]
fn record_round_trips() {
    let state = VaultState { authority: key(11) };
    let bytes = to_record_bytes(&state);
    assert_eq!(bytes.len(), 40);
    assert_eq!(&bytes[8..], &vec![11u8; 32][..]);
    let back = from_record_bytes(&bytes).unwrap();
    assert!(back.authority.eq_key(&key(11)));
}

#[test]
fn record_parse_rejects_bad_input() {
    let state = VaultState { authority: key(11) };
    let mut bytes = to_record_bytes(&state);

    // Wrong length.
    assert!(from_record_bytes(&vec![0u8; 39]).is_none());
    assert!(from_record_bytes(&Vec::new()).is_none());

    // Wrong record-kind tag.
    bytes[0] = 0;
    assert!(from_record_bytes(&bytes).is_none());
}
