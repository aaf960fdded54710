use anchor_vault::{deposit, withdraw, Account, Authority, Transfer, VaultAction, VaultError};

const RENT_MINIMUM: u64 = 890_880;

const SIGNER: [u8; 32] = [7u8; 32];

const VAULT: [u8; 32] = [
    177, 57, 195, 208, 130, 23, 78, 205, 12, 60, 55, 138, 82, 199, 45, 209, 164, 140, 27, 185, 64,
    220, 63, 117, 98, 218, 28, 88, 29, 151, 178, 238,
];

fn accounts(signer_lamports: u64, vault_lamports: u64) -> VaultAction {
    VaultAction {
        signer: Account { key: SIGNER, lamports: signer_lamports },
        vault: Account { key: VAULT, lamports: vault_lamports },
        bump: 255,
    }
}

#[test]
fn deposit_then_withdraw_scenario() {
    let mut ctx = accounts(5_000_000, 0);

    let paid = deposit(&ctx, 1_000_000, RENT_MINIMUM).unwrap();
    assert_eq!(
        paid,
        Transfer { from: SIGNER, to: VAULT, lamports: 1_000_000, authority: Authority::Holder }
    );
    assert!(ctx.settle(&paid));
    assert_eq!(ctx.vault.lamports, 1_000_000);
    assert_eq!(ctx.signer.lamports, 4_000_000);

    let back = withdraw(&ctx).unwrap();
    assert_eq!(
        back,
        Transfer {
            from: VAULT,
            to: SIGNER,
            lamports: 1_000_000,
            authority: Authority::Derived { owner: SIGNER, bump: 255 },
        }
    );
    assert!(ctx.settle(&back));
    assert_eq!(ctx.vault.lamports, 0);
    assert_eq!(ctx.signer.lamports, 5_000_000);
}

#[test]
fn deposit_below_minimum_scenario() {
    let ctx = accounts(5_000_000, 0);
    assert_eq!(deposit(&ctx, 500_000, RENT_MINIMUM), Err(VaultError::InvalidAmount));
    assert_eq!(ctx, accounts(5_000_000, 0));
}

#[test]
fn deposit_at_minimum_is_refused() {
    let ctx = accounts(5_000_000, 0);
    assert_eq!(deposit(&ctx, RENT_MINIMUM, RENT_MINIMUM), Err(VaultError::InvalidAmount));
    assert_eq!(deposit(&ctx, 0, RENT_MINIMUM), Err(VaultError::InvalidAmount));
    assert_eq!(deposit(&ctx, 0, 0), Err(VaultError::InvalidAmount));
}

#[test]
fn deposit_just_above_minimum_is_accepted() {
    let mut ctx = accounts(5_000_000, 0);
    let paid = deposit(&ctx, RENT_MINIMUM + 1, RENT_MINIMUM).unwrap();
    assert_eq!(paid.lamports, 890_881);
    assert!(ctx.settle(&paid));
    assert_eq!(ctx.vault.lamports, 890_881);
    assert_eq!(ctx.signer.lamports, 4_109_119);
}

#[test]
fn deposit_with_zero_minimum_takes_one_unit() {
    let ctx = accounts(10, 0);
    let paid = deposit(&ctx, 1, 0).unwrap();
    assert_eq!(paid.lamports, 1);
}

#[test]
fn deposit_of_the_largest_amount_is_decided() {
    let ctx = accounts(u64::MAX, 0);
    let paid = deposit(&ctx, u64::MAX, RENT_MINIMUM).unwrap();
    assert_eq!(paid.lamports, u64::MAX);
    assert_eq!(deposit(&ctx, u64::MAX, u64::MAX), Err(VaultError::InvalidAmount));
}

#[test]
fn second_deposit_is_refused() {
    let mut ctx = accounts(5_000_000, 0);
    let paid = deposit(&ctx, 1_000_000, RENT_MINIMUM).unwrap();
    assert!(ctx.settle(&paid));
    assert_eq!(deposit(&ctx, 1_000_000, RENT_MINIMUM), Err(VaultError::VaultAlreadyExists));
    assert_eq!(deposit(&ctx, 2_000_000, RENT_MINIMUM), Err(VaultError::VaultAlreadyExists));
}

#[test]
fn funded_vault_is_asked_before_the_amount() {
    let ctx = accounts(5_000_000, 1);
    assert_eq!(deposit(&ctx, 500_000, RENT_MINIMUM), Err(VaultError::VaultAlreadyExists));
    assert_eq!(deposit(&ctx, 0, RENT_MINIMUM), Err(VaultError::VaultAlreadyExists));
}

#[test]
fn withdraw_from_empty_vault_is_refused() {
    let ctx = accounts(5_000_000, 0);
    assert_eq!(withdraw(&ctx), Err(VaultError::InvalidAmount));
    assert_eq!(ctx, accounts(5_000_000, 0));
}

#[test]
fn withdraw_takes_the_whole_balance() {
    let mut ctx = accounts(10, 3_000_000);
    let back = withdraw(&ctx).unwrap();
    assert_eq!(back.lamports, 3_000_000);
    assert_eq!(back.from, VAULT);
    assert_eq!(back.to, SIGNER);
    assert!(ctx.settle(&back));
    assert_eq!(ctx, accounts(3_000_010, 0));
}

#[test]
fn round_trip_restores_the_accounts() {
    let before = accounts(2_500_000, 0);
    let mut ctx = before;
    for _ in 0..3 {
        let paid = deposit(&ctx, 1_234_567, RENT_MINIMUM).unwrap();
        assert!(ctx.settle(&paid));
        assert_eq!(ctx.signer.lamports + ctx.vault.lamports, 2_500_000);
        let back = withdraw(&ctx).unwrap();
        assert!(ctx.settle(&back));
        assert_eq!(ctx, before);
    }
}

#[test]
fn withdrawal_seeds_are_tag_owner_bump() {
    let ctx = accounts(0, 2_000_000);
    let back = withdraw(&ctx).unwrap();
    assert_eq!(
        back.authority.signer_seeds(),
        vec![b"vault".to_vec(), SIGNER.to_vec(), vec![255u8]]
    );
}

#[test]
fn deposit_needs_no_seeds() {
    let ctx = accounts(2_000_000, 0);
    let paid = deposit(&ctx, 1_000_000, RENT_MINIMUM).unwrap();
    assert_eq!(paid.authority.signer_seeds(), Vec::<Vec<u8>>::new());
}

#[test]
fn settle_refuses_more_than_the_signer_holds() {
    let mut ctx = accounts(999_999, 0);
    let paid = deposit(&ctx, 1_000_000, RENT_MINIMUM).unwrap();
    assert!(!ctx.settle(&paid));
    assert_eq!(ctx, accounts(999_999, 0));
}

#[test]
fn settle_takes_the_signers_last_unit() {
    let mut ctx = accounts(1_000_000, 0);
    let paid = deposit(&ctx, 1_000_000, RENT_MINIMUM).unwrap();
    assert!(ctx.settle(&paid));
    assert_eq!(ctx, accounts(0, 1_000_000));
}

#[test]
fn settle_refuses_a_balance_that_would_not_fit() {
    let mut ctx = accounts(u64::MAX, 1);
    let back = withdraw(&ctx).unwrap();
    assert!(!ctx.settle(&back));
    assert_eq!(ctx, accounts(u64::MAX, 1));

    let mut ctx = accounts(5, u64::MAX);
    let into_full = Transfer { from: SIGNER, to: VAULT, lamports: 1, authority: Authority::Holder };
    assert!(!ctx.settle(&into_full));
    assert_eq!(ctx, accounts(5, u64::MAX));
}

#[test]
fn settle_refuses_accounts_it_was_not_given() {
    let mut ctx = accounts(5_000_000, 0);
    let stranger = [9u8; 32];
    let from_stranger =
        Transfer { from: stranger, to: VAULT, lamports: 1, authority: Authority::Holder };
    let to_stranger =
        Transfer { from: SIGNER, to: stranger, lamports: 1, authority: Authority::Holder };
    assert!(!ctx.settle(&from_stranger));
    assert!(!ctx.settle(&to_stranger));
    assert_eq!(ctx, accounts(5_000_000, 0));
}

#[test]
fn settle_refuses_a_vault_transfer_without_derived_authority() {
    let mut ctx = accounts(0, 2_000_000);
    let unsigned =
        Transfer { from: VAULT, to: SIGNER, lamports: 2_000_000, authority: Authority::Holder };
    let wrong_bump = Transfer {
        from: VAULT,
        to: SIGNER,
        lamports: 2_000_000,
        authority: Authority::Derived { owner: SIGNER, bump: 254 },
    };
    let wrong_owner = Transfer {
        from: VAULT,
        to: SIGNER,
        lamports: 2_000_000,
        authority: Authority::Derived { owner: [9u8; 32], bump: 255 },
    };
    assert!(!ctx.settle(&unsigned));
    assert!(!ctx.settle(&wrong_bump));
    assert!(!ctx.settle(&wrong_owner));
    assert_eq!(ctx, accounts(0, 2_000_000));
}

#[test]
fn settle_moves_part_of_a_vault_on_derived_authority() {
    let mut ctx = accounts(1, 2_000_000);
    let part = Transfer {
        from: VAULT,
        to: SIGNER,
        lamports: 500_000,
        authority: Authority::Derived { owner: SIGNER, bump: 255 },
    };
    assert!(ctx.settle(&part));
    assert_eq!(ctx, accounts(500_001, 1_500_000));
}

#[test]
fn error_messages() {
    assert_eq!(VaultError::VaultAlreadyExists.message(), "Vault already exists");
    assert_eq!(VaultError::InvalidAmount.message(), "Invalid amount");
}
