use burn_mint_spl::constants::{
    DECIMALS, MAX_NAME_LENGTH, MAX_SOURCE_CHAIN_LENGTH, MAX_SYMBOL_LENGTH, MILESTONE_THRESHOLD,
};
use burn_mint_spl::error::BurnMintError;
use burn_mint_spl::events::{
    BurnerRoleGranted, CrossChainMint, MintMilestone, TokenInitialized, TokensBurned,
    TokensMinted, TransferAndCallEvent,
};
use burn_mint_spl::identity::Identity;
use burn_mint_spl::instructions::burn_tokens::{self, BurnTokens};
use burn_mint_spl::instructions::grant_burn_role::{self, GrantBurnRole};
use burn_mint_spl::instructions::grant_mint_role::{self, GrantMintRole};
use burn_mint_spl::instructions::initialize::{self, Initialize};
use burn_mint_spl::instructions::mint_tokens::{self, MintTokens};
use burn_mint_spl::instructions::mint_tokens_with_ccip::{self, MintTokensWithCcip};
use burn_mint_spl::instructions::revoke_burn_role::{self, RevokeBurnRole};
use burn_mint_spl::instructions::revoke_mint_role::{self, RevokeMintRole};
use burn_mint_spl::instructions::set_max_supply::{self, SetMaxSupply};
use burn_mint_spl::instructions::transfer_and_call::{self, TransferAndCall};
use burn_mint_spl::ledger::LedgerCall;
use burn_mint_spl::state::role_config::{BurnerRole, MinterRole};
use burn_mint_spl::state::token_config::TokenConfig;
use burn_mint_spl::state::user_stats::UserStats;

fn key(byte: u8) -> Identity {
    Identity::new([byte; 32])
}

fn config(max_supply: u64) -> TokenConfig {
    TokenConfig {
        owner: key(1),
        mint: key(2),
        name: String::from("Token"),
        symbol: String::from("TKN"),
        decimals: DECIMALS,
        max_supply,
        total_mint_events: 0,
        initialized_at: 100,
    }
}

fn minter_role(minter: Identity, mint_count: u64, total_minted: u64) -> MinterRole {
    MinterRole {
        token_config: key(3),
        minter,
        granted_at: 100,
        granted_by: key(1),
        mint_count,
        total_minted,
    }
}

fn burner_role(burner: Identity, burn_count: u64, total_burned: u64) -> BurnerRole {
    BurnerRole {
        token_config: key(3),
        burner,
        granted_at: 100,
        granted_by: key(1),
        burn_count,
        total_burned,
    }
}

fn empty_setup() -> Initialize {
    Initialize {
        token_config: None,
        token_config_key: key(3),
        mint: key(2),
        owner_stats: None,
        owner_minter_role: None,
        owner_burner_role: None,
        owner: key(1),
    }
}

fn mint_context(supply: u64, max_supply: u64) -> MintTokens {
    MintTokens {
        token_config: config(max_supply),
        supply,
        recipient: key(20),
        recipient_stats: None,
        minter_role: Some(minter_role(key(5), 0, 0)),
        minter: key(5),
    }
}

#[test]
fn initialize_seeds_every_record_from_the_initial_supply() {
    let mut ctx = empty_setup();
    let initial = 2 * MILESTONE_THRESHOLD + 5;
    let receipt = initialize::handler(
        &mut ctx,
        DECIMALS,
        initial,
        3 * MILESTONE_THRESHOLD,
        String::from("Token"),
        String::from("TKN"),
        777,
    )
    .unwrap();
    assert_eq!(
        ctx.token_config,
        Some(TokenConfig {
            owner: key(1),
            mint: key(2),
            name: String::from("Token"),
            symbol: String::from("TKN"),
            decimals: 9,
            max_supply: 3 * MILESTONE_THRESHOLD,
            total_mint_events: 1,
            initialized_at: 777,
        })
    );
    assert_eq!(
        ctx.owner_stats,
        Some(UserStats {
            user: key(1),
            total_minted: initial,
            mint_count: 1,
            last_milestone: 2,
            milestones_achieved: 2,
            created_at: 777,
            last_mint_at: 777,
        })
    );
    assert_eq!(
        ctx.owner_minter_role,
        Some(MinterRole {
            token_config: key(3),
            minter: key(1),
            granted_at: 777,
            granted_by: key(1),
            mint_count: 1,
            total_minted: initial,
        })
    );
    assert_eq!(
        ctx.owner_burner_role,
        Some(BurnerRole {
            token_config: key(3),
            burner: key(1),
            granted_at: 777,
            granted_by: key(1),
            burn_count: 0,
            total_burned: 0,
        })
    );
    assert_eq!(
        receipt.ledger,
        Some(LedgerCall::MintTo { recipient: key(1), amount: initial })
    );
    assert_eq!(
        receipt.initialized,
        TokenInitialized {
            mint: key(2),
            owner: key(1),
            initial_supply: initial,
            max_supply: 3 * MILESTONE_THRESHOLD,
            name: String::from("Token"),
            symbol: String::from("TKN"),
            timestamp: 777,
        }
    );
    assert_eq!(
        receipt.minted,
        Some(TokensMinted {
            minter: key(1),
            recipient: key(1),
            amount: initial,
            total_supply: initial,
            timestamp: 777,
        })
    );
    assert_eq!(
        receipt.milestone,
        Some(MintMilestone {
            recipient: key(1),
            total_minted: initial,
            milestone_reached: 2 * MILESTONE_THRESHOLD,
        })
    );
}

#[test]
fn initialize_without_supply_mints_nothing() {
    let mut ctx = empty_setup();
    let receipt = initialize::handler(
        &mut ctx,
        DECIMALS,
        0,
        1_000,
        String::new(),
        String::new(),
        5,
    )
    .unwrap();
    assert_eq!(receipt.ledger, None);
    assert_eq!(receipt.minted, None);
    assert_eq!(receipt.milestone, None);
    assert_eq!(receipt.initialized.initial_supply, 0);
    let stored = ctx.token_config.unwrap();
    assert_eq!(stored.total_mint_events, 0);
    let stats = ctx.owner_stats.unwrap();
    assert_eq!(stats.total_minted, 0);
    assert_eq!(stats.mint_count, 1);
    assert_eq!(stats.last_milestone, 0);
    assert_eq!(stats.milestones_achieved, 0);
    let role = ctx.owner_minter_role.unwrap();
    assert_eq!(role.mint_count, 1);
    assert_eq!(role.total_minted, 0);
}

#[test]
fn initialize_just_below_the_threshold_reaches_no_milestone() {
    let mut ctx = empty_setup();
    let receipt = initialize::handler(
        &mut ctx,
        DECIMALS,
        MILESTONE_THRESHOLD - 1,
        MILESTONE_THRESHOLD,
        String::from("T"),
        String::from("T"),
        5,
    )
    .unwrap();
    assert_eq!(receipt.milestone, None);
    assert_eq!(ctx.owner_stats.unwrap().milestones_achieved, 0);
}

#[test]
fn initialize_rejects_bad_input_in_order_and_changes_nothing() {
    let long_name = "n".repeat(MAX_NAME_LENGTH + 1);
    let long_symbol = "s".repeat(MAX_SYMBOL_LENGTH + 1);
    let mut ctx = empty_setup();
    let run = |ctx: &mut Initialize, decimals: u8, initial: u64, max: u64, name: &str, symbol: &str| {
        let (name, symbol) = (String::from(name), String::from(symbol));
        initialize::handler(ctx, decimals, initial, max, name, symbol, 1).map(|_| ())
    };
    assert_eq!(
        run(&mut ctx, 8, 11, 10, &long_name, &long_symbol),
        Err(BurnMintError::InvalidAmount)
    );
    assert_eq!(
        run(&mut ctx, 9, 11, 10, &long_name, &long_symbol),
        Err(BurnMintError::MaxSupplyExceeded)
    );
    assert_eq!(
        run(&mut ctx, 9, 10, 10, &long_name, &long_symbol),
        Err(BurnMintError::NameTooLong)
    );
    assert_eq!(run(&mut ctx, 9, 10, 10, "ok", &long_symbol), Err(BurnMintError::SymbolTooLong));
    assert_eq!(ctx, empty_setup());
    let longest_name = "n".repeat(MAX_NAME_LENGTH);
    let longest_symbol = "s".repeat(MAX_SYMBOL_LENGTH);
    assert_eq!(run(&mut ctx, 9, 10, 10, &longest_name, &longest_symbol), Ok(()));
    let filled = ctx.clone();
    assert_eq!(
        run(&mut ctx, 9, 10, 10, "ok", "ok"),
        Err(BurnMintError::AccountAlreadyInitialized)
    );
    assert_eq!(ctx, filled);
}

#[test]
fn name_length_is_counted_in_bytes() {
    let mut ctx = empty_setup();
    let name = "é".repeat(33);
    assert_eq!(name.chars().count(), 33);
    assert_eq!(name.len(), 66);
    let refused = initialize::handler(&mut ctx, 9, 0, 10, name, String::from("S"), 1);
    assert_eq!(refused.err(), Some(BurnMintError::NameTooLong));
    let symbol = "é".repeat(9);
    let refused = initialize::handler(&mut ctx, 9, 0, 10, String::from("N"), symbol, 1);
    assert_eq!(refused.err(), Some(BurnMintError::SymbolTooLong));
    let accepted = initialize::handler(&mut ctx, 9, 0, 10, "é".repeat(32), "é".repeat(8), 1);
    assert!(accepted.is_ok());
}

#[test]
fn grant_checks_owner_then_target_then_slot() {
    let fresh = GrantMintRole {
        token_config: config(10),
        token_config_key: key(3),
        minter_role: None,
        owner: key(1),
    };
    let mut ctx = GrantMintRole { owner: key(9), ..fresh.clone() };
    let stranger = ctx.clone();
    assert_eq!(
        grant_mint_role::handler(&mut ctx, Identity::new([0; 32]), 5),
        Err(BurnMintError::UnauthorizedOwner)
    );
    assert_eq!(ctx, stranger);

    let mut ctx = GrantMintRole { minter_role: Some(minter_role(key(7), 3, 4)), ..fresh.clone() };
    let occupied = ctx.clone();
    assert_eq!(
        grant_mint_role::handler(&mut ctx, Identity::new([0; 32]), 5),
        Err(BurnMintError::InvalidMinter)
    );
    assert_eq!(
        grant_mint_role::handler(&mut ctx, key(7), 5),
        Err(BurnMintError::RoleAlreadyExists)
    );
    assert_eq!(ctx, occupied);

    let mut ctx = fresh.clone();
    let mut almost_zero = [0u8; 32];
    almost_zero[31] = 1;
    let minter = Identity::new(almost_zero);
    let event = grant_mint_role::handler(&mut ctx, minter, 5).unwrap();
    assert_eq!(event.minter, minter);
    assert_eq!(event.granted_by, key(1));
    assert_eq!(event.timestamp, 5);
    assert_eq!(
        ctx.minter_role,
        Some(MinterRole {
            token_config: key(3),
            minter,
            granted_at: 5,
            granted_by: key(1),
            mint_count: 0,
            total_minted: 0,
        })
    );
    assert_eq!(ctx.token_config, fresh.token_config);
}

#[test]
fn grant_burn_role_checks_owner_then_target_then_slot() {
    let fresh = GrantBurnRole {
        token_config: config(10),
        token_config_key: key(3),
        burner_role: None,
        owner: key(1),
    };
    let mut ctx = GrantBurnRole { owner: key(9), ..fresh.clone() };
    assert_eq!(
        grant_burn_role::handler(&mut ctx, key(7), 5),
        Err(BurnMintError::UnauthorizedOwner)
    );
    let mut ctx = fresh.clone();
    assert_eq!(
        grant_burn_role::handler(&mut ctx, Identity::new([0; 32]), 5),
        Err(BurnMintError::InvalidBurner)
    );
    assert_eq!(ctx, fresh);
    assert_eq!(
        grant_burn_role::handler(&mut ctx, key(7), 5),
        Ok(BurnerRoleGranted { burner: key(7), granted_by: key(1), timestamp: 5 })
    );
    assert_eq!(ctx.burner_role, Some(BurnerRole { granted_at: 5, ..burner_role(key(7), 0, 0) }));
    assert_eq!(
        grant_burn_role::handler(&mut ctx, key(7), 6),
        Err(BurnMintError::RoleAlreadyExists)
    );
}

#[test]
fn revoke_needs_the_owner_and_an_existing_role() {
    let held = RevokeMintRole {
        token_config: config(10),
        minter_role: Some(minter_role(key(7), 3, 4)),
        owner: key(1),
    };
    let mut ctx = RevokeMintRole { owner: key(9), ..held.clone() };
    assert_eq!(
        revoke_mint_role::handler(&mut ctx, key(7), 5),
        Err(BurnMintError::UnauthorizedOwner)
    );
    let mut ctx = RevokeMintRole { minter_role: None, ..held.clone() };
    assert_eq!(
        revoke_mint_role::handler(&mut ctx, key(7), 5),
        Err(BurnMintError::RoleDoesNotExist)
    );
    let mut ctx = held.clone();
    assert_eq!(
        revoke_mint_role::handler(&mut ctx, key(8), 5),
        Err(BurnMintError::RoleDoesNotExist)
    );
    assert_eq!(ctx, held);
    let event = revoke_mint_role::handler(&mut ctx, key(7), 5).unwrap();
    assert_eq!(event.minter, key(7));
    assert_eq!(event.revoked_by, key(1));
    assert_eq!(event.timestamp, 5);
    assert_eq!(ctx.minter_role, None);
    assert_eq!(
        revoke_mint_role::handler(&mut ctx, key(7), 6),
        Err(BurnMintError::RoleDoesNotExist)
    );
}

#[test]
fn revoke_burn_role_needs_the_owner_and_an_existing_role() {
    let held = RevokeBurnRole {
        token_config: config(10),
        burner_role: Some(burner_role(key(7), 3, 4)),
        owner: key(1),
    };
    let mut ctx = RevokeBurnRole { owner: key(9), ..held.clone() };
    assert_eq!(
        revoke_burn_role::handler(&mut ctx, key(7), 5),
        Err(BurnMintError::UnauthorizedOwner)
    );
    let mut ctx = held.clone();
    assert_eq!(
        revoke_burn_role::handler(&mut ctx, key(8), 5),
        Err(BurnMintError::RoleDoesNotExist)
    );
    let event = revoke_burn_role::handler(&mut ctx, key(7), 5).unwrap();
    assert_eq!(event.burner, key(7));
    assert_eq!(event.revoked_by, key(1));
    assert_eq!(ctx.burner_role, None);
}

#[test]
fn mint_rejections_come_in_order() {
    let mut ctx = MintTokens { minter_role: None, ..mint_context(u64::MAX, 10) };
    assert_eq!(mint_tokens::handler(&mut ctx, 0, 1), Err(BurnMintError::UnauthorizedMinter));
    let mut ctx =
        MintTokens { minter_role: Some(minter_role(key(6), 0, 0)), ..mint_context(0, 10) };
    assert_eq!(mint_tokens::handler(&mut ctx, 1, 1), Err(BurnMintError::UnauthorizedMinter));
    let mut ctx = mint_context(u64::MAX, 10);
    assert_eq!(mint_tokens::handler(&mut ctx, 0, 1), Err(BurnMintError::InvalidAmount));
    assert_eq!(mint_tokens::handler(&mut ctx, 1, 1), Err(BurnMintError::ArithmeticOverflow));
    let mut ctx = mint_context(10, 10);
    assert_eq!(mint_tokens::handler(&mut ctx, 1, 1), Err(BurnMintError::MaxSupplyExceeded));
    assert_eq!(ctx, mint_context(10, 10));
}

#[test]
fn mint_counter_overflow_is_reported_and_changes_nothing() {
    let mut ctx = mint_context(0, u64::MAX);
    ctx.token_config.total_mint_events = u64::MAX;
    let before = ctx.clone();
    assert_eq!(mint_tokens::handler(&mut ctx, 1, 1), Err(BurnMintError::ArithmeticOverflow));
    assert_eq!(ctx, before);

    let mut ctx = mint_context(0, u64::MAX);
    ctx.minter_role = Some(minter_role(key(5), 1, u64::MAX));
    let before = ctx.clone();
    assert_eq!(mint_tokens::handler(&mut ctx, 1, 1), Err(BurnMintError::ArithmeticOverflow));
    assert_eq!(ctx, before);

    let mut ctx = mint_context(0, u64::MAX);
    ctx.minter_role = Some(minter_role(key(5), u64::MAX, 0));
    assert_eq!(mint_tokens::handler(&mut ctx, 1, 1), Err(BurnMintError::ArithmeticOverflow));

    let history = UserStats {
        user: key(20),
        total_minted: u64::MAX - 1,
        mint_count: 1,
        last_milestone: 0,
        milestones_achieved: 0,
        created_at: 0,
        last_mint_at: 0,
    };
    let mut ctx = mint_context(0, u64::MAX);
    ctx.recipient_stats = Some(history);
    let before = ctx.clone();
    assert_eq!(mint_tokens::handler(&mut ctx, 2, 1), Err(BurnMintError::ArithmeticOverflow));
    assert_eq!(ctx, before);

    let mut ctx = mint_context(0, u64::MAX);
    ctx.recipient_stats = Some(UserStats { total_minted: 0, mint_count: u64::MAX, ..history });
    assert_eq!(mint_tokens::handler(&mut ctx, 2, 1), Err(BurnMintError::ArithmeticOverflow));

    let mut ctx = mint_context(0, u64::MAX);
    ctx.recipient_stats =
        Some(UserStats { total_minted: 0, milestones_achieved: u64::MAX, ..history });
    let before = ctx.clone();
    assert_eq!(
        mint_tokens::handler(&mut ctx, MILESTONE_THRESHOLD, 1),
        Err(BurnMintError::ArithmeticOverflow)
    );
    assert_eq!(ctx, before);
    assert!(mint_tokens::handler(&mut ctx, MILESTONE_THRESHOLD - 1, 1).is_ok());
}

#[test]
fn mint_updates_an_existing_history() {
    let mut ctx = mint_context(50, 10 * MILESTONE_THRESHOLD);
    ctx.token_config.total_mint_events = 8;
    ctx.minter_role = Some(minter_role(key(5), 2, 30));
    ctx.recipient_stats = Some(UserStats {
        user: key(20),
        total_minted: MILESTONE_THRESHOLD - 10,
        mint_count: 4,
        last_milestone: 0,
        milestones_achieved: 0,
        created_at: 11,
        last_mint_at: 12,
    });
    let receipt = mint_tokens::handler(&mut ctx, 10, 99).unwrap();
    assert_eq!(ctx.token_config.total_mint_events, 9);
    assert_eq!(ctx.supply, 50);
    assert_eq!(ctx.minter_role, Some(minter_role(key(5), 3, 40)));
    assert_eq!(
        ctx.recipient_stats,
        Some(UserStats {
            user: key(20),
            total_minted: MILESTONE_THRESHOLD,
            mint_count: 5,
            last_milestone: 1,
            milestones_achieved: 1,
            created_at: 11,
            last_mint_at: 99,
        })
    );
    assert_eq!(receipt.ledger, LedgerCall::MintTo { recipient: key(20), amount: 10 });
    assert_eq!(
        receipt.milestone,
        Some(MintMilestone {
            recipient: key(20),
            total_minted: MILESTONE_THRESHOLD,
            milestone_reached: MILESTONE_THRESHOLD,
        })
    );
    assert_eq!(
        receipt.minted,
        TokensMinted {
            minter: key(5),
            recipient: key(20),
            amount: 10,
            total_supply: 60,
            timestamp: 99,
        }
    );
    let receipt = mint_tokens::handler(&mut ctx, 10, 100).unwrap();
    assert_eq!(receipt.milestone, None);
    assert_eq!(ctx.recipient_stats.unwrap().milestones_achieved, 1);
}

#[test]
fn cross_chain_mint_reports_where_the_tokens_came_from() {
    let mut ctx: MintTokensWithCcip = mint_context(5, 1_000);
    let message_id = [0xabu8; 32];
    let receipt = mint_tokens_with_ccip::handler(
        &mut ctx,
        20,
        String::from("ethereum-mainnet"),
        message_id,
        42,
    )
    .unwrap();
    assert_eq!(
        receipt.cross_chain,
        CrossChainMint {
            recipient: key(20),
            amount: 20,
            source_chain: String::from("ethereum-mainnet"),
            ccip_message_id: message_id,
            minter: key(5),
            timestamp: 42,
        }
    );
    assert_eq!(
        receipt.mint.minted,
        TokensMinted {
            minter: key(5),
            recipient: key(20),
            amount: 20,
            total_supply: 25,
            timestamp: 42,
        }
    );
    assert_eq!(receipt.mint.ledger, LedgerCall::MintTo { recipient: key(20), amount: 20 });
    assert_eq!(receipt.mint.milestone, None);
    let mut plain = mint_context(5, 1_000);
    mint_tokens::handler(&mut plain, 20, 42).unwrap();
    assert_eq!(ctx, plain);
}

#[test]
fn cross_chain_mint_checks_the_label_after_the_amount() {
    let label = "c".repeat(MAX_SOURCE_CHAIN_LENGTH + 1);
    let mut ctx = MintTokens { minter_role: None, ..mint_context(5, 10) };
    let run = |ctx: &mut MintTokens, amount: u64, label: &str| {
        mint_tokens_with_ccip::handler(ctx, amount, String::from(label), [0; 32], 1).map(|_| ())
    };
    assert_eq!(run(&mut ctx, 0, &label), Err(BurnMintError::UnauthorizedMinter));
    let mut ctx = mint_context(5, 10);
    assert_eq!(run(&mut ctx, 0, &label), Err(BurnMintError::InvalidAmount));
    assert_eq!(run(&mut ctx, 6, &label), Err(BurnMintError::SourceChainTooLong));
    assert_eq!(run(&mut ctx, 6, &label[1..]), Err(BurnMintError::MaxSupplyExceeded));
    assert_eq!(ctx, mint_context(5, 10));
    assert_eq!(run(&mut ctx, 5, &label[1..]), Ok(()));
}

#[test]
fn burn_counts_in_the_role_and_asks_the_ledger() {
    let mut ctx =
        BurnTokens { balance: 70, burner_role: Some(burner_role(key(7), 2, 9)), burner: key(7) };
    let receipt = burn_tokens::handler(&mut ctx, 70, 33).unwrap();
    assert_eq!(receipt.ledger, LedgerCall::Burn { holder: key(7), amount: 70 });
    assert_eq!(receipt.burned, TokensBurned { burner: key(7), amount: 70, timestamp: 33 });
    assert_eq!(ctx.burner_role, Some(burner_role(key(7), 3, 79)));
    assert_eq!(ctx.balance, 70);
}

#[test]
fn burn_rejections_come_in_order() {
    let held =
        BurnTokens { balance: 70, burner_role: Some(burner_role(key(7), 2, 9)), burner: key(7) };
    let mut ctx = BurnTokens { burner_role: None, ..held };
    assert_eq!(burn_tokens::handler(&mut ctx, 0, 1), Err(BurnMintError::UnauthorizedBurner));
    let mut ctx = BurnTokens { burner: key(8), ..held };
    assert_eq!(burn_tokens::handler(&mut ctx, 1, 1), Err(BurnMintError::UnauthorizedBurner));
    let mut ctx = BurnTokens { balance: 0, ..held };
    assert_eq!(burn_tokens::handler(&mut ctx, 0, 1), Err(BurnMintError::InvalidAmount));
    assert_eq!(burn_tokens::handler(&mut ctx, 1, 1), Err(BurnMintError::InsufficientBalance));
    let mut ctx = BurnTokens { burner_role: Some(burner_role(key(7), 2, u64::MAX)), ..held };
    let before = ctx;
    assert_eq!(burn_tokens::handler(&mut ctx, 1, 1), Err(BurnMintError::ArithmeticOverflow));
    assert_eq!(ctx, before);
    let mut ctx = BurnTokens { burner_role: Some(burner_role(key(7), u64::MAX, 0)), ..held };
    assert_eq!(burn_tokens::handler(&mut ctx, 1, 1), Err(BurnMintError::ArithmeticOverflow));
}

#[test]
fn set_max_supply_needs_the_owner_and_a_cap_above_zero() {
    let mut ctx = SetMaxSupply { token_config: config(10), owner: key(9) };
    assert_eq!(
        set_max_supply::handler(&mut ctx, 0, 1),
        Err(BurnMintError::UnauthorizedOwner)
    );
    let mut ctx = SetMaxSupply { token_config: config(10), owner: key(1) };
    assert_eq!(
        set_max_supply::handler(&mut ctx, 0, 1),
        Err(BurnMintError::InvalidNewMaxSupply)
    );
    assert_eq!(ctx.token_config, config(10));
    let event = set_max_supply::handler(&mut ctx, 1, 8).unwrap();
    assert_eq!(event.old_max_supply, 10);
    assert_eq!(event.new_max_supply, 1);
    assert_eq!(event.updated_by, key(1));
    assert_eq!(event.timestamp, 8);
    assert_eq!(ctx.token_config, config(1));
}

#[test]
fn transfer_reports_the_payload_and_the_receiver() {
    let ctx = TransferAndCall {
        balance: 9,
        sender: key(30),
        recipient: key(31),
        receiver_program: key(32),
    };
    assert_eq!(
        transfer_and_call::handler(&ctx, 0, vec![1], 1).err(),
        Some(BurnMintError::InvalidAmount)
    );
    assert_eq!(
        transfer_and_call::handler(&ctx, 10, vec![1], 1).err(),
        Some(BurnMintError::InsufficientBalance)
    );
    let receipt = transfer_and_call::handler(&ctx, 9, vec![1, 2, 3], 55).unwrap();
    assert_eq!(
        receipt.ledger,
        LedgerCall::Transfer { from: key(30), to: key(31), amount: 9 }
    );
    assert_eq!(
        receipt.event,
        TransferAndCallEvent {
            sender: key(30),
            recipient: key(31),
            amount: 9,
            data: vec![1, 2, 3],
            receiver_program: key(32),
            timestamp: 55,
        }
    );
}
