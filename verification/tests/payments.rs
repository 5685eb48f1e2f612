use std::str::FromStr;

use anchor_lang::prelude::Pubkey;
use merchant_vault::address::Address;
use merchant_vault::context::{Account, Context, Signer, SystemTransfer, TokenAccount, TokenTransfer};
use merchant_vault::errors::{ErrorCode, InstructionError, VaultError};
use merchant_vault::instructions::initialize_config::{Initialize, InitializeBumps};
use merchant_vault::instructions::initialize_treasury::{InitializeTreasury, InitializeTreasuryBumps};
use merchant_vault::instructions::pay_with_sol::{self, PayWithSol, PayWithSolBumps};
use merchant_vault::instructions::pay_with_token::{PayWithToken, PayWithTokenBumps};
use merchant_vault::instructions::register_merchant::{RegisterMerchant, RegisterMerchantBumps};
use merchant_vault::instructions::withdraw_sol::{WithdrawSol, WithdrawSolBumps};
use merchant_vault::instructions::withdraw_token::{WithdrawToken, WithdrawTokenBumps};
use merchant_vault::merchant_vault as program;
use merchant_vault::seeds::le_bytes_of;
use merchant_vault::state::config::Config;
use merchant_vault::state::merchant::Merchant;
use merchant_vault::state::payment::Payment;
use merchant_vault::state::treasury::Treasury;
use merchant_vault::state::vault::Vault;

const LAMPORTS_PER_SOL: u64 = 1_000_000_000;

fn program_key() -> Pubkey {
    Pubkey::from_str("57iN23Yr2fMV8bLcmtCXXWsnayE7LidWsHDYGRsn7bPZ").unwrap()
}

fn addr(k: &Pubkey) -> Address {
    Address { bytes: k.to_bytes() }
}

fn wallet(byte: u8) -> Pubkey {
    Pubkey::new_from_array([byte; 32])
}

fn pda(seeds: &[&[u8]]) -> (Pubkey, u8) {
    Pubkey::find_program_address(seeds, &program_key())
}

fn blank_payment() -> Payment {
    Payment {
        payer: Address::zero(),
        mint: Address::zero(),
        amount: 0,
        fee_amount: 0,
        timestamp: 0,
        bump: 0,
    }
}

/// A registered merchant of `authority`, its vault, the configuration with
/// `fee_bps`, and the treasury, all at their derived addresses.
struct Platform {
    config: Account<Config>,
    treasury: Account<Treasury>,
    merchant: Account<Merchant>,
    vault: Account<Vault>,
}

fn platform(authority: &Pubkey, fee_bps: u16, payment_count: u64, vault_lamports: u64) -> Platform {
    let (config_key, config_bump) = pda(&[b"config"]);
    let (treasury_key, treasury_bump) = pda(&[b"treasury"]);
    let (merchant_key, merchant_bump) = pda(&[b"merchant", authority.as_ref()]);
    let (vault_key, vault_bump) = pda(&[b"vault", merchant_key.as_ref()]);
    Platform {
        config: Account {
            key: addr(&config_key),
            lamports: 1_000_000,
            data: Config { platform_fee_bps: fee_bps, bump: config_bump },
        },
        treasury: Account {
            key: addr(&treasury_key),
            lamports: 1_000_000,
            data: Treasury { bump: treasury_bump },
        },
        merchant: Account {
            key: addr(&merchant_key),
            lamports: 1_000_000,
            data: Merchant { authority: addr(authority), bump: merchant_bump, payment_count },
        },
        vault: Account {
            key: addr(&vault_key),
            lamports: vault_lamports,
            data: Vault { merchant: addr(&merchant_key), bump: vault_bump },
        },
    }
}

fn sol_payment_accounts(p: &Platform, payer: &Pubkey) -> PayWithSol {
    let count = p.merchant.data.payment_count.to_le_bytes();
    let merchant_key = Pubkey::new_from_array(p.merchant.key.bytes);
    let (payment_key, _) = pda(&[b"payment", merchant_key.as_ref(), &count]);
    PayWithSol {
        payer: Signer { key: addr(payer), lamports: 100 * LAMPORTS_PER_SOL },
        config: p.config,
        merchant: p.merchant,
        vault: p.vault,
        treasury: p.treasury,
        payment: Account { key: addr(&payment_key), lamports: 0, data: blank_payment() },
    }
}

fn sol_payment_context(p: &Platform, payer: &Pubkey) -> Context<PayWithSol, PayWithSolBumps> {
    PayWithSol::try_accounts(&addr(&program_key()), sol_payment_accounts(p, payer)).unwrap()
}

#[test]
fn readme_ten_sol_payment_splits_into_fee_and_merchant_part() {
    let alice = wallet(1);
    let bob = wallet(2);
    let p = platform(&alice, 150, 0, 0);
    let mut ctx = sol_payment_context(&p, &bob);
    let transfers = program::pay_with_sol(&mut ctx, 10 * LAMPORTS_PER_SOL, 1_700_000_000).unwrap();
    assert_eq!(
        transfers.to_vault,
        SystemTransfer { from: addr(&bob), to: p.vault.key, amount: 9_850_000_000 }
    );
    assert_eq!(
        transfers.to_treasury,
        SystemTransfer { from: addr(&bob), to: p.treasury.key, amount: 150_000_000 }
    );
    assert_eq!(ctx.accounts.payment.data.payer, addr(&bob));
    assert_eq!(ctx.accounts.payment.data.mint, Address { bytes: [0u8; 32] });
    assert_eq!(ctx.accounts.payment.data.amount, 10 * LAMPORTS_PER_SOL);
    assert_eq!(ctx.accounts.payment.data.fee_amount, 150_000_000);
    assert_eq!(ctx.accounts.payment.data.timestamp, 1_700_000_000);
    assert_eq!(ctx.accounts.merchant.data.payment_count, 1);
}

#[test]
fn sol_payment_record_bump_is_the_canonical_one() {
    let alice = wallet(1);
    let p = platform(&alice, 150, 7, 0);
    let ctx = sol_payment_context(&p, &wallet(2));
    let merchant_key = Pubkey::new_from_array(p.merchant.key.bytes);
    let (payment_key, bump) = pda(&[b"payment", merchant_key.as_ref(), &7u64.to_le_bytes()]);
    assert_eq!(ctx.bumps, PayWithSolBumps { payment: bump });
    assert_eq!(ctx.accounts.payment.key, addr(&payment_key));
}

#[test]
fn fee_rounds_down() {
    let p = platform(&wallet(1), 150, 0, 0);
    let mut ctx = sol_payment_context(&p, &wallet(2));
    let transfers = program::pay_with_sol(&mut ctx, 99, 0).unwrap();
    // 99 * 150 / 10000 = 1.485, rounded down to 1
    assert_eq!(transfers.to_treasury.amount, 1);
    assert_eq!(transfers.to_vault.amount, 98);
}

#[test]
fn zero_fee_sends_everything_to_the_vault() {
    let p = platform(&wallet(1), 0, 0, 0);
    let mut ctx = sol_payment_context(&p, &wallet(2));
    let transfers = program::pay_with_sol(&mut ctx, 5_000, 0).unwrap();
    assert_eq!(transfers.to_treasury.amount, 0);
    assert_eq!(transfers.to_vault.amount, 5_000);
}

#[test]
fn zero_sol_payment_is_refused_and_changes_nothing() {
    let p = platform(&wallet(1), 150, 3, 0);
    let mut ctx = sol_payment_context(&p, &wallet(2));
    let before = ctx;
    let r = program::pay_with_sol(&mut ctx, 0, 0);
    assert_eq!(r, Err(InstructionError::Vault(VaultError::InvalidPaymentAmount)));
    assert_eq!(ctx, before);
}

#[test]
fn overflowing_fee_product_is_refused() {
    let p = platform(&wallet(1), 2, 0, 0);
    let mut ctx = sol_payment_context(&p, &wallet(2));
    let before = ctx;
    let r = program::pay_with_sol(&mut ctx, u64::MAX, 0);
    assert_eq!(r, Err(InstructionError::Vault(VaultError::MathOverflow)));
    assert_eq!(ctx, before);
}

#[test]
fn fee_above_the_amount_is_refused() {
    // A configuration written by other means than initialize_config may hold
    // more than 10_000 basis points.
    let p = platform(&wallet(1), 20_000, 0, 0);
    let mut ctx = sol_payment_context(&p, &wallet(2));
    let r = program::pay_with_sol(&mut ctx, 100, 0);
    assert_eq!(r, Err(InstructionError::Vault(VaultError::MathUnderflow)));
}

#[test]
fn payment_count_at_its_end_is_refused() {
    let p = platform(&wallet(1), 150, u64::MAX, 0);
    let mut ctx = sol_payment_context(&p, &wallet(2));
    let before = ctx;
    let r = program::pay_with_sol(&mut ctx, 100, 0);
    assert_eq!(r, Err(InstructionError::Vault(VaultError::MathOverflow)));
    assert_eq!(ctx, before);
}

#[test]
fn payment_count_at_its_end_is_refused_after_the_transfers() {
    let p = platform(&wallet(1), 150, u64::MAX, 0);
    let mut ctx = sol_payment_context(&p, &wallet(2));
    let before = ctx;
    // The transfers are asked for first ...
    let transfers = pay_with_sol::prepare_transfers(&ctx, 100).unwrap();
    assert_eq!(transfers.to_vault.amount, 99);
    assert_eq!(transfers.to_treasury.amount, 1);
    // ... and the count is checked once they are made.
    let r = pay_with_sol::record_payment(&mut ctx, 100, 0);
    assert_eq!(r, Err(InstructionError::Vault(VaultError::MathOverflow)));
    assert_eq!(ctx, before);
}

#[test]
fn zero_payment_is_refused_before_any_transfer() {
    let p = platform(&wallet(1), 150, 0, 0);
    let ctx = sol_payment_context(&p, &wallet(2));
    assert_eq!(
        pay_with_sol::prepare_transfers(&ctx, 0),
        Err(InstructionError::Vault(VaultError::InvalidPaymentAmount))
    );
}

#[test]
fn successive_sol_payments_get_distinct_records() {
    let p = platform(&wallet(1), 150, 0, 0);
    let mut first = sol_payment_context(&p, &wallet(2));
    program::pay_with_sol(&mut first, 1_000, 0).unwrap();
    let mut next = p;
    next.merchant = first.accounts.merchant;
    let second = sol_payment_context(&next, &wallet(2));
    assert_eq!(second.accounts.merchant.data.payment_count, 1);
    assert_ne!(first.accounts.payment.key, second.accounts.payment.key);
}

#[test]
fn payment_record_at_a_stale_count_is_refused() {
    let p = platform(&wallet(1), 150, 0, 0);
    let mut accounts = sol_payment_accounts(&p, &wallet(2));
    accounts.merchant.data.payment_count = 1;
    let r = PayWithSol::try_accounts(&addr(&program_key()), accounts);
    assert_eq!(r, Err(InstructionError::ConstraintSeeds));
}

#[test]
fn config_with_wrong_bump_is_refused() {
    let p = platform(&wallet(1), 150, 0, 0);
    let mut accounts = sol_payment_accounts(&p, &wallet(2));
    accounts.config.data.bump = accounts.config.data.bump.wrapping_sub(1);
    let r = PayWithSol::try_accounts(&addr(&program_key()), accounts);
    assert_eq!(r, Err(InstructionError::ConstraintSeeds));
}

#[test]
fn vault_of_another_merchant_is_refused() {
    let p = platform(&wallet(1), 150, 0, 0);
    let other = platform(&wallet(9), 150, 0, 0);
    let mut accounts = sol_payment_accounts(&p, &wallet(2));
    accounts.vault = other.vault;
    let r = PayWithSol::try_accounts(&addr(&program_key()), accounts);
    assert_eq!(r, Err(InstructionError::ConstraintSeeds));
}

#[test]
fn token_payment_splits_and_records_the_mint() {
    let alice = wallet(1);
    let bob = wallet(2);
    let p = platform(&alice, 150, 4, 0);
    let mint = wallet(50);
    let merchant_key = Pubkey::new_from_array(p.merchant.key.bytes);
    let (payment_key, bump) = pda(&[b"payment", merchant_key.as_ref(), bob.as_ref()]);
    let token = |owner: u8, amount: u64| Account {
        key: addr(&wallet(owner + 100)),
        lamports: 0,
        data: TokenAccount { mint: addr(&mint), owner: addr(&wallet(owner)), amount },
    };
    let accounts = PayWithToken {
        payer: Signer { key: addr(&bob), lamports: LAMPORTS_PER_SOL },
        config: p.config,
        merchant: p.merchant,
        vault: p.vault,
        treasury: p.treasury,
        payer_token_account: token(2, 1_000_000),
        vault_token_account: token(3, 0),
        treasury_token_account: token(4, 0),
        payment: Account { key: addr(&payment_key), lamports: 0, data: blank_payment() },
    };
    let mut ctx = PayWithToken::try_accounts(&addr(&program_key()), accounts).unwrap();
    assert_eq!(ctx.bumps, PayWithTokenBumps { payment: bump });
    let transfers = program::pay_with_token(&mut ctx, 200_000, 42).unwrap();
    assert_eq!(
        transfers.to_vault,
        TokenTransfer {
            from: accounts.payer_token_account.key,
            to: accounts.vault_token_account.key,
            authority: addr(&bob),
            amount: 197_000,
        }
    );
    assert_eq!(transfers.to_treasury.amount, 3_000);
    assert_eq!(transfers.to_treasury.to, accounts.treasury_token_account.key);
    assert_eq!(ctx.accounts.payment.data.mint, addr(&mint));
    assert_eq!(ctx.accounts.payment.data.fee_amount, 3_000);
    assert_eq!(ctx.accounts.payment.data.timestamp, 42);
    // A token payment does not move the merchant's SOL payment count.
    assert_eq!(ctx.accounts.merchant.data.payment_count, 4);

    let mut again = ctx;
    let r = program::pay_with_token(&mut again, 0, 42);
    assert_eq!(r, Err(InstructionError::Vault(VaultError::InvalidPaymentAmount)));
    assert_eq!(again, ctx);
}

#[test]
fn config_fee_is_capped_at_a_thousand_basis_points() {
    let (config_key, config_bump) = pda(&[b"config"]);
    let accounts = Initialize {
        config: Account {
            key: addr(&config_key),
            lamports: 0,
            data: Config { platform_fee_bps: 0, bump: 0 },
        },
        payer: Signer { key: addr(&wallet(7)), lamports: LAMPORTS_PER_SOL },
    };
    let mut ctx = Initialize::try_accounts(&addr(&program_key()), accounts).unwrap();
    assert_eq!(ctx.bumps, InitializeBumps { config: config_bump });
    let before = ctx;
    assert_eq!(
        program::initialize_config(&mut ctx, 1001),
        Err(InstructionError::Config(ErrorCode::InvalidFee))
    );
    assert_eq!(ctx, before);
    assert_eq!(program::initialize_config(&mut ctx, 1000), Ok(()));
    assert_eq!(ctx.accounts.config.data, Config { platform_fee_bps: 1000, bump: config_bump });
}

#[test]
fn config_at_a_foreign_address_is_refused() {
    let accounts = Initialize {
        config: Account {
            key: addr(&wallet(3)),
            lamports: 0,
            data: Config { platform_fee_bps: 0, bump: 0 },
        },
        payer: Signer { key: addr(&wallet(7)), lamports: LAMPORTS_PER_SOL },
    };
    assert_eq!(
        Initialize::try_accounts(&addr(&program_key()), accounts),
        Err(InstructionError::ConstraintSeeds)
    );
}

#[test]
fn treasury_records_its_bump() {
    let (treasury_key, bump) = pda(&[b"treasury"]);
    let accounts = InitializeTreasury {
        treasury: Account { key: addr(&treasury_key), lamports: 0, data: Treasury { bump: 0 } },
        payer: Signer { key: addr(&wallet(7)), lamports: LAMPORTS_PER_SOL },
    };
    let mut ctx = InitializeTreasury::try_accounts(&addr(&program_key()), accounts).unwrap();
    assert_eq!(ctx.bumps, InitializeTreasuryBumps { treasury: bump });
    assert_eq!(program::initialize_treasury(&mut ctx), Ok(()));
    assert_eq!(ctx.accounts.treasury.data, Treasury { bump });
}

#[test]
fn registration_records_authority_and_vault() {
    let alice = wallet(1);
    let p = platform(&alice, 150, 0, 0);
    let accounts = RegisterMerchant {
        authority: Signer { key: addr(&alice), lamports: LAMPORTS_PER_SOL },
        config: p.config,
        merchant: Account {
            key: p.merchant.key,
            lamports: 0,
            data: Merchant { authority: Address::zero(), bump: 0, payment_count: 0 },
        },
        vault: Account {
            key: p.vault.key,
            lamports: 0,
            data: Vault { merchant: Address::zero(), bump: 0 },
        },
    };
    let mut ctx = RegisterMerchant::try_accounts(&addr(&program_key()), accounts).unwrap();
    assert_eq!(
        ctx.bumps,
        RegisterMerchantBumps { merchant: p.merchant.data.bump, vault: p.vault.data.bump }
    );
    assert_eq!(program::initialize_merchant(&mut ctx), Ok(()));
    assert_eq!(ctx.accounts.merchant.data, p.merchant.data);
    assert_eq!(ctx.accounts.vault.data, p.vault.data);

    // The registered accounts pass the checks of the merchant's withdrawals.
    let w = WithdrawSol {
        authority: Signer { key: addr(&alice), lamports: 0 },
        merchant: ctx.accounts.merchant,
        vault: ctx.accounts.vault,
    };
    assert!(WithdrawSol::try_accounts(&addr(&program_key()), w).is_ok());
}

#[test]
fn registration_starts_the_payment_count_at_zero() {
    let alice = wallet(1);
    let p = platform(&alice, 150, 0, 0);
    let accounts = RegisterMerchant {
        authority: Signer { key: addr(&alice), lamports: LAMPORTS_PER_SOL },
        config: p.config,
        merchant: Account {
            key: p.merchant.key,
            lamports: 0,
            data: Merchant { authority: Address::zero(), bump: 0, payment_count: 5 },
        },
        vault: Account { key: p.vault.key, lamports: 0, data: Vault { merchant: Address::zero(), bump: 0 } },
    };
    let mut ctx = RegisterMerchant::try_accounts(&addr(&program_key()), accounts).unwrap();
    assert_eq!(program::initialize_merchant(&mut ctx), Ok(()));
    assert_eq!(ctx.accounts.merchant.data.payment_count, 0);
}

#[test]
fn registration_for_another_wallet_is_refused() {
    let p = platform(&wallet(1), 150, 0, 0);
    let accounts = RegisterMerchant {
        authority: Signer { key: addr(&wallet(2)), lamports: LAMPORTS_PER_SOL },
        config: p.config,
        merchant: p.merchant,
        vault: p.vault,
    };
    assert_eq!(
        RegisterMerchant::try_accounts(&addr(&program_key()), accounts),
        Err(InstructionError::ConstraintSeeds)
    );
}

fn withdrawal(p: &Platform, signer: &Pubkey, authority_lamports: u64) -> WithdrawSol {
    WithdrawSol {
        authority: Signer { key: addr(signer), lamports: authority_lamports },
        merchant: p.merchant,
        vault: p.vault,
    }
}

#[test]
fn readme_merchant_withdraws_its_part() {
    let alice = wallet(1);
    let p = platform(&alice, 150, 1, 9_850_000_000 + 2_000_000);
    let mut ctx = WithdrawSol::try_accounts(&addr(&program_key()), withdrawal(&p, &alice, 5)).unwrap();
    assert_eq!(ctx.bumps, WithdrawSolBumps {});
    assert_eq!(program::withdraw_sol(&mut ctx, 9_850_000_000), Ok(()));
    assert_eq!(ctx.accounts.vault.lamports, 2_000_000);
    assert_eq!(ctx.accounts.authority.lamports, 9_850_000_005);
    assert_eq!(
        ctx.accounts.vault.lamports + ctx.accounts.authority.lamports,
        9_850_000_000 + 2_000_000 + 5
    );
}

#[test]
fn withdrawal_beyond_the_vault_is_refused() {
    let alice = wallet(1);
    let p = platform(&alice, 150, 0, 1_000);
    let mut ctx = WithdrawSol::try_accounts(&addr(&program_key()), withdrawal(&p, &alice, 0)).unwrap();
    let before = ctx;
    assert_eq!(
        program::withdraw_sol(&mut ctx, 1_001),
        Err(InstructionError::Vault(VaultError::InsufficientFunds))
    );
    assert_eq!(ctx, before);
    assert_eq!(
        program::withdraw_sol(&mut ctx, 0),
        Err(InstructionError::Vault(VaultError::InvalidPaymentAmount))
    );
    assert_eq!(program::withdraw_sol(&mut ctx, 1_000), Ok(()));
    assert_eq!(ctx.accounts.vault.lamports, 0);
}

#[test]
fn withdrawal_by_another_signer_is_refused() {
    let alice = wallet(1);
    let mallory = wallet(6);
    let p = platform(&alice, 150, 0, 1_000);
    // Mallory's own merchant address, holding Alice as its authority.
    let (mallory_merchant, bump) = pda(&[b"merchant", mallory.as_ref()]);
    let mut w = withdrawal(&p, &mallory, 0);
    w.merchant.key = addr(&mallory_merchant);
    w.merchant.data.bump = bump;
    assert_eq!(
        WithdrawSol::try_accounts(&addr(&program_key()), w),
        Err(InstructionError::Vault(VaultError::Unauthorized))
    );
    // Alice's merchant account, signed by Mallory, fails its address check.
    assert_eq!(
        WithdrawSol::try_accounts(&addr(&program_key()), withdrawal(&p, &mallory, 0)),
        Err(InstructionError::ConstraintSeeds)
    );
}

#[test]
fn token_withdrawal_is_signed_by_the_vault() {
    let alice = wallet(1);
    let p = platform(&alice, 150, 0, 0);
    let token = |owner: &Address, key: u8, amount: u64| Account {
        key: addr(&wallet(key)),
        lamports: 0,
        data: TokenAccount { mint: addr(&wallet(50)), owner: *owner, amount },
    };
    let accounts = WithdrawToken {
        authority: Signer { key: addr(&alice), lamports: 0 },
        merchant: p.merchant,
        vault: p.vault,
        vault_token_account: token(&p.vault.key, 60, 500),
        authority_token_account: token(&addr(&alice), 61, 0),
    };
    let ctx = WithdrawToken::try_accounts(&addr(&program_key()), accounts).unwrap();
    assert_eq!(ctx.bumps, WithdrawTokenBumps {});
    let t = program::withdraw_token(&ctx, 500).unwrap();
    assert_eq!(
        t.transfer,
        TokenTransfer {
            from: addr(&wallet(60)),
            to: addr(&wallet(61)),
            authority: p.vault.key,
            amount: 500,
        }
    );
    let merchant_key = Pubkey::new_from_array(p.merchant.key.bytes);
    let expected_seeds: Vec<Vec<u8>> =
        vec![b"vault".to_vec(), merchant_key.to_bytes().to_vec(), vec![p.vault.data.bump]];
    assert_eq!(t.signer_seeds, expected_seeds);
    let refs: Vec<&[u8]> = t.signer_seeds.iter().map(|s| s.as_slice()).collect();
    assert_eq!(
        Pubkey::create_program_address(&refs, &program_key()).unwrap(),
        Pubkey::new_from_array(p.vault.key.bytes)
    );
    assert_eq!(
        program::withdraw_token(&ctx, 501),
        Err(InstructionError::Vault(VaultError::InsufficientFunds))
    );
    assert_eq!(
        program::withdraw_token(&ctx, 0),
        Err(InstructionError::Vault(VaultError::InvalidPaymentAmount))
    );
}

#[test]
fn le_bytes_are_little_endian() {
    assert_eq!(le_bytes_of(0x0102), vec![2, 1, 0, 0, 0, 0, 0, 0]);
    assert_eq!(le_bytes_of(u64::MAX), vec![255; 8]);
    assert_eq!(le_bytes_of(123_456_789), 123_456_789u64.to_le_bytes().to_vec());
}

#[test]
fn error_messages() {
    assert_eq!(VaultError::Unauthorized.message(), "Unauthorized: Only the merchant can perform this action.");
    assert_eq!(VaultError::InsufficientFunds.message(), "Insufficient funds in the vault.");
    assert_eq!(VaultError::InvalidPaymentAmount.message(), "Payment amount must be greater than zero");
    assert_eq!(ErrorCode::InvalidFee.message(), "Invalid fee percentage");
}

#[test]
fn merchant_withdraws_exactly_what_a_payment_put_in() {
    let alice = wallet(1);
    let p = platform(&alice, 250, 0, 3_000_000);
    let mut pay = sol_payment_context(&p, &wallet(2));
    let transfers = program::pay_with_sol(&mut pay, 1_000_000, 0).unwrap();
    assert_eq!(transfers.to_vault.amount + transfers.to_treasury.amount, 1_000_000);
    let mut credited = p;
    credited.vault.lamports += transfers.to_vault.amount;
    let mut w =
        WithdrawSol::try_accounts(&addr(&program_key()), withdrawal(&credited, &alice, 0)).unwrap();
    program::withdraw_sol(&mut w, transfers.to_vault.amount).unwrap();
    assert_eq!(w.accounts.vault.lamports, 3_000_000);
    assert_eq!(w.accounts.authority.lamports, 975_000);
}

#[test]
fn highest_allowed_fee_takes_a_tenth() {
    let p = platform(&wallet(1), 1000, 0, 0);
    let mut ctx = sol_payment_context(&p, &wallet(2));
    let transfers = program::pay_with_sol(&mut ctx, 12_345, 0).unwrap();
    assert_eq!(transfers.to_treasury.amount, 1_234);
    assert!(transfers.to_treasury.amount * 10 <= 12_345);
    assert_eq!(ctx.accounts.payment.data.fee_amount, transfers.to_treasury.amount);
}

#[test]
fn each_sol_payment_record_holds_its_own_payment() {
    let p = platform(&wallet(1), 150, 0, 0);
    let merchant_key = Pubkey::new_from_array(p.merchant.key.bytes);
    let mut first = sol_payment_context(&p, &wallet(2));
    program::pay_with_sol(&mut first, 10_000, 11).unwrap();
    let mut next = p;
    next.merchant = first.accounts.merchant;
    let mut second = sol_payment_context(&next, &wallet(3));
    program::pay_with_sol(&mut second, 20_000, 22).unwrap();
    let (at_zero, _) = pda(&[b"payment", merchant_key.as_ref(), &0u64.to_le_bytes()]);
    let (at_one, _) = pda(&[b"payment", merchant_key.as_ref(), &1u64.to_le_bytes()]);
    assert_eq!(first.accounts.payment.key, addr(&at_zero));
    assert_eq!(first.accounts.payment.data.amount, 10_000);
    assert_eq!(first.accounts.payment.data.payer, addr(&wallet(2)));
    assert_eq!(first.accounts.payment.data.timestamp, 11);
    assert_eq!(second.accounts.payment.key, addr(&at_one));
    assert_eq!(second.accounts.payment.data.amount, 20_000);
    assert_eq!(second.accounts.payment.data.payer, addr(&wallet(3)));
    assert_eq!(second.accounts.payment.data.timestamp, 22);
    assert_eq!(second.accounts.merchant.data.payment_count, 2);
}
