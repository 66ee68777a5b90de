use token_deployer::account::Address;
use token_deployer::authority::SigningAuthority;
use token_deployer::ledger::{
    close_ephemeral_account, create_ephemeral_account, issue_supply, revoke_mint_authority,
    EphemeralAccount, MintModel,
};
use token_deployer::workflow::{
    add_to_raydium, check_liquidity_invariant, create_token, harvest_fees, min_liquidity_spend,
    AddToRaydiumAccounts, AddToRaydiumParams, DeployConfig, HarvestAccounts, IssuanceStep,
    WorkflowStep,
};
use token_deployer::{DeployError, FEE_LAMPORTS, TOKEN_ACCOUNT_SPACE, TOKEN_DECIMALS};

fn addr(n: u128) -> Address {
    Address { lo: n, hi: 5000 + n }
}

fn config() -> DeployConfig {
    DeployConfig {
        program_id: addr(900),
        clmm_program: addr(901),
        harvester: addr(902),
        fee_receiver: addr(902),
    }
}

fn provision_accounts() -> AddToRaydiumAccounts {
    AddToRaydiumAccounts {
        payer: addr(1),
        token_mint: addr(2),
        token_account: addr(3),
        amm_config_id: addr(4),
        pool_id: addr(5),
        wsol_mint: addr(6),
        token_vault: addr(7),
        wsol_vault: addr(8),
        observation_id: addr(9),
        ex_tick_array_bitmap: addr(10),
        position_nft_mint: addr(11),
        position_nft_owner_pda: addr(12),
        position_nft_account: addr(13),
        metadata_account: addr(14),
        protocol_position: addr(15),
        tick_array_lower: addr(16),
        tick_array_upper: addr(17),
        personal_position: addr(18),
        wsol_account: addr(19),
        system_program: addr(20),
        token_program: addr(21),
        associated_token_program: addr(22),
        token_2022_program: addr(23),
        metadata_program: addr(24),
        rent_program: addr(25),
    }
}

fn params() -> AddToRaydiumParams {
    AddToRaydiumParams {
        sqrt_price_x64: 1 << 64,
        tick_lower_index: -443_636,
        tick_upper_index: 443_636,
        tick_array_lower_start_index: -443_640,
        tick_array_upper_start_index: 443_580,
        liquidity: 10_000_000_000u128,
        token_amount_max: 950_000,
        wsol_amount_max: 2_000_000_000,
    }
}

fn harvest_accounts(payer: Address) -> HarvestAccounts {
    HarvestAccounts {
        position_nft_owner_pda: addr(31),
        position_nft_account: addr(32),
        personal_position: addr(33),
        pool_id: addr(34),
        protocol_position: addr(35),
        token_vault: addr(36),
        wsol_vault: addr(37),
        tick_array_lower: addr(38),
        tick_array_upper: addr(39),
        token_recipient_account: addr(40),
        wsol_recipient_account: addr(41),
        token_mint: addr(42),
        wsol_mint: addr(43),
        payer,
        token_program: addr(44),
        token_2022_program: addr(45),
        memo_program: addr(46),
    }
}

#[test]
fn issuance_plan_mints_then_revokes() {
    let steps = create_token(
        1_000_000_000_000,
        String::from("Example"),
        String::from("EXM"),
        String::from("https://example.invalid/meta.json"),
    );
    assert_eq!(steps.len(), 3);
    assert!(matches!(steps[0], IssuanceStep::MintSupply { amount: 1_000_000_000_000 }));
    match &steps[1] {
        IssuanceStep::AttachMetadata { name, symbol, uri } => {
            assert_eq!(name, "Example");
            assert_eq!(symbol, "EXM");
            assert_eq!(uri, "https://example.invalid/meta.json");
        },
        _ => panic!("second step must attach metadata"),
    }
    assert!(matches!(steps[2], IssuanceStep::RevokeMintAuthority));
}

#[test]
fn supply_is_fixed_after_revocation() {
    let mut mint = MintModel { supply: 0, decimals: 6, mint_authority_revoked: false };
    issue_supply(&mut mint, 1_000_000).unwrap();
    assert_eq!(mint.supply, 1_000_000);
    revoke_mint_authority(&mut mint);
    let r = issue_supply(&mut mint, 1);
    assert_eq!(r.unwrap_err(), DeployError::MintAuthorityRevoked);
    assert_eq!(mint.supply, 1_000_000);
}

#[test]
fn ephemeral_account_rejects_duplicate_creation() {
    let mut acct = EphemeralAccount { addr: addr(50), exists: false, lamports: 0 };
    create_ephemeral_account(&mut acct, 2_003_000_000).unwrap();
    assert!(acct.exists);
    let r = create_ephemeral_account(&mut acct, 1);
    assert_eq!(r.unwrap_err(), DeployError::EphemeralAccountAlreadyExists);
    assert_eq!(acct.lamports, 2_003_000_000);
}

#[test]
fn ephemeral_account_rejects_closing_when_absent() {
    let mut acct = EphemeralAccount { addr: addr(51), exists: false, lamports: 0 };
    let r = close_ephemeral_account(&mut acct);
    assert_eq!(r.unwrap_err(), DeployError::EphemeralAccountMissing);
    create_ephemeral_account(&mut acct, 777).unwrap();
    assert_eq!(close_ephemeral_account(&mut acct).unwrap(), 777);
    let r = close_ephemeral_account(&mut acct);
    assert_eq!(r.unwrap_err(), DeployError::EphemeralAccountMissing);
}

#[test]
fn provisioning_plan_has_the_seven_steps_in_order() {
    let cfg = config();
    let accounts = provision_accounts();
    let p = params();
    let rent_minimum: u64 = 2_039_280;
    let steps = add_to_raydium(&cfg, &accounts, &p, 1_000_000_000_000, 1_000_000_000_000,
        rent_minimum);
    assert_eq!(steps.len(), 7);
    match &steps[0] {
        WorkflowStep::CreateEphemeralAccount { lamports, space } => {
            assert_eq!(*lamports, rent_minimum + p.wsol_amount_max);
            assert_eq!(*space, TOKEN_ACCOUNT_SPACE);
        },
        _ => panic!("step 0 must create the ephemeral account"),
    }
    match &steps[1] {
        WorkflowStep::InitializeEphemeralAccount { mint, owner } => {
            assert_eq!(*mint, accounts.wsol_mint);
            assert_eq!(*owner, accounts.payer);
        },
        _ => panic!("step 1 must initialize the ephemeral account"),
    }
    match &steps[2] {
        WorkflowStep::Invoke { instruction } => {
            assert_eq!(instruction.program, cfg.clmm_program);
            assert_eq!(instruction.accounts.len(), 13);
            assert_eq!(instruction.data.len(), 32);
            assert_eq!(&instruction.data[0..8], &[233, 146, 209, 142, 207, 104, 64, 188]);
            // Pool creator is the payer and signs.
            assert_eq!(instruction.accounts[0].addr, accounts.payer);
            assert!(instruction.accounts[0].is_signer);
            // The issued asset is side A, the wrapped asset side B.
            assert_eq!(instruction.accounts[3].addr, accounts.token_mint);
            assert_eq!(instruction.accounts[4].addr, accounts.wsol_mint);
        },
        _ => panic!("step 2 must invoke pool creation"),
    }
    match &steps[3] {
        WorkflowStep::Invoke { instruction } => {
            assert_eq!(instruction.program, cfg.clmm_program);
            assert_eq!(instruction.accounts.len(), 22);
            assert_eq!(instruction.data.len(), 59);
            assert_eq!(&instruction.data[0..8], &[77, 184, 74, 214, 112, 86, 241, 199]);
            // The ownership token goes to the derived authority.
            assert_eq!(instruction.accounts[1].addr, accounts.position_nft_owner_pda);
            // Metadata flag on, base flag option zeroed.
            assert_eq!(instruction.data[56], 1);
            assert_eq!(instruction.data[57], 0);
            assert_eq!(instruction.data[58], 0);
        },
        _ => panic!("step 3 must invoke position opening"),
    }
    match &steps[4] {
        WorkflowStep::CloseEphemeralAccount { destination } => {
            assert_eq!(*destination, accounts.payer);
        },
        _ => panic!("step 4 must close the ephemeral account"),
    }
    match &steps[5] {
        WorkflowStep::PayFee { receiver, lamports } => {
            assert_eq!(*receiver, cfg.fee_receiver);
            assert_eq!(*lamports, FEE_LAMPORTS);
        },
        _ => panic!("step 5 must pay the operator fee"),
    }
    match &steps[6] {
        WorkflowStep::VerifyLiquidity { total_supply, balance_before } => {
            assert_eq!(*total_supply, 1_000_000_000_000);
            assert_eq!(*balance_before, 1_000_000_000_000);
        },
        _ => panic!("step 6 must verify the liquidity share"),
    }
}

#[test]
fn liquidity_invariant_boundary_at_95_percent() {
    // Supply 1,000,000 in base units: the minimum is exactly 950,000.
    assert_eq!(min_liquidity_spend(1_000_000), 950_000);
    // Spending exactly the minimum passes ...
    assert_eq!(check_liquidity_invariant(1_000_000, 1_000_000, 50_000).unwrap(), 950_000);
    // ... one unit below fails, and nothing of the workflow persists.
    assert_eq!(
        check_liquidity_invariant(1_000_000, 1_000_000, 50_001).unwrap_err(),
        DeployError::InsufficientLiquidityProvided
    );
}

#[test]
fn liquidity_invariant_uses_the_integer_floor_formula() {
    // floor(199 / 100) * 95 = 95: the floor is taken before scaling.
    assert_eq!(min_liquidity_spend(199), 95);
    assert!(check_liquidity_invariant(199, 199, 104).is_ok());
    assert!(check_liquidity_invariant(199, 199, 105).is_err());
    // A supply below one whole percent unit requires nothing.
    assert_eq!(min_liquidity_spend(99), 0);
    assert!(check_liquidity_invariant(99, 99, 99).is_ok());
    // The formula does not overflow at the largest supply.
    assert_eq!(min_liquidity_spend(u64::MAX), u64::MAX / 100 * 95);
}

#[test]
fn harvest_plan_rejects_other_callers() {
    let cfg = config();
    let authority = SigningAuthority { address: addr(60), bump: 254 };
    let r = harvest_fees(&cfg, &harvest_accounts(addr(1)), &Vec::new(), &authority, 2_039_280);
    assert_eq!(r.unwrap_err(), DeployError::UnauthorizedHarvester);
}

#[test]
fn harvest_plan_rejects_unreadable_remaining_accounts() {
    let cfg = config();
    let authority = SigningAuthority { address: addr(60), bump: 254 };
    let remaining = vec![addr(70), addr(71)];
    let r = harvest_fees(&cfg, &harvest_accounts(cfg.harvester), &remaining, &authority,
        2_039_280);
    assert_eq!(r.unwrap_err(), DeployError::MalformedRemainingAccounts);
}

#[test]
fn harvest_plan_signs_as_the_derived_authority() {
    let cfg = config();
    let authority = SigningAuthority { address: addr(60), bump: 254 };
    // One leading bitmap entry plus one reward triple.
    let remaining = vec![addr(70), addr(71), addr(72), addr(73)];
    let accounts = harvest_accounts(cfg.harvester);
    let rent_minimum: u64 = 2_039_280;
    let steps = harvest_fees(&cfg, &accounts, &remaining, &authority, rent_minimum).unwrap();
    assert_eq!(steps.len(), 4);
    match &steps[0] {
        WorkflowStep::CreateEphemeralAccount { lamports, space } => {
            // Rent only: a harvest never deposits principal.
            assert_eq!(*lamports, rent_minimum);
            assert_eq!(*space, TOKEN_ACCOUNT_SPACE);
        },
        _ => panic!("step 0 must create the ephemeral account"),
    }
    match &steps[1] {
        WorkflowStep::InitializeEphemeralAccount { mint, owner } => {
            assert_eq!(*mint, accounts.wsol_mint);
            assert_eq!(*owner, accounts.payer);
        },
        _ => panic!("step 1 must initialize the ephemeral account"),
    }
    match &steps[2] {
        WorkflowStep::InvokeSigned { instruction, authority: auth } => {
            assert_eq!(*auth, authority);
            assert_eq!(instruction.program, cfg.clmm_program);
            assert_eq!(instruction.accounts.len(), 20);
            // The derived authority signs the call, read-only.
            assert_eq!(instruction.accounts[0].addr, accounts.position_nft_owner_pda);
            assert!(instruction.accounts[0].is_signer);
            assert!(!instruction.accounts[0].is_writable);
            // One writable non-signer bitmap entry, then writable, writable,
            // read-only.
            assert!(instruction.accounts[16].is_writable && !instruction.accounts[16].is_signer);
            assert!(instruction.accounts[17].is_writable && !instruction.accounts[17].is_signer);
            assert!(instruction.accounts[18].is_writable && !instruction.accounts[18].is_signer);
            assert!(!instruction.accounts[19].is_writable && !instruction.accounts[19].is_signer);
            // The payload moves no principal.
            assert_eq!(instruction.data.len(), 40);
            assert!(instruction.data[8..40].iter().all(|&b| b == 0));
        },
        _ => panic!("step 2 must dispatch the signed harvest"),
    }
    match &steps[3] {
        WorkflowStep::CloseEphemeralAccount { destination } => {
            assert_eq!(*destination, accounts.payer);
        },
        _ => panic!("step 3 must close the ephemeral account"),
    }
}

#[test]
fn end_to_end_provision_then_settle() {
    // Supply 1,000,000 units (six decimals); the deposit consumes 950,000.
    assert_eq!(TOKEN_DECIMALS, 6);
    let cfg = config();
    let accounts = provision_accounts();
    let p = AddToRaydiumParams { token_amount_max: 950_000, ..params() };
    let steps = add_to_raydium(&cfg, &accounts, &p, 1_000_000, 1_000_000, 2_039_280);
    assert_eq!(steps.len(), 7);
    // The deposit consumed 950,000 of the supply: the invariant holds and
    // the workflow commits.
    assert_eq!(check_liquidity_invariant(1_000_000, 1_000_000, 50_000).unwrap(), 950_000);
    // Had it consumed 949,999 the final step would fail, and with it the
    // whole atomic unit: no pool, position or fee payment persists.
    assert!(check_liquidity_invariant(1_000_000, 1_000_000, 50_001).is_err());
}
