//! Workflow plans and the cross-step financial invariant.
//!
//! Each workflow entry point is a single atomic unit: the dispatching shell
//! executes the planned steps in order against the ledger, and any failure —
//! a rejected external call, a malformed input, or the final invariant —
//! aborts the whole unit, so either every effect persists or none does.  The
//! planning itself is pure: it fixes the exact step order, the instruction
//! bytes, and the account wiring, and the contracts below pin all of it.

use vstd::prelude::*;
use vstd::arithmetic::div_mod::lemma_div_is_ordered;
use crate::account::{Address, Instruction};
use crate::authority::SigningAuthority;
use crate::clmm::{
    create_pool, create_pool_account_list, harvest, harvest_account_list, open_position,
    open_position_account_list, remaining_accounts_well_shaped, CreatePool, DecreaseLiquidityV2,
    OpenPosition,
};
use crate::encode::{create_pool_data, harvest_data, open_position_data, OpenPositionArgs};
use crate::{DeployError, FEE_LAMPORTS, MIN_LIQUIDITY_PCT_OF_SUPPLY, TOKEN_ACCOUNT_SPACE};

verus! {

/// The fixed per-deployment configuration, injected once at startup rather
/// than scattered through the logic: the deploying program's own address,
/// the external exchange program, the operator allowed to harvest, and the
/// address the flat fee is paid to.
#[derive(Clone, Copy, PartialEq, Eq, Structural, Debug)]
pub struct DeployConfig {
    pub program_id: Address,
    pub clmm_program: Address,
    pub harvester: Address,
    pub fee_receiver: Address,
}

/// One step of a workflow plan, in the order the shell must perform them.
#[derive(Debug)]
pub enum WorkflowStep {
    /// Create the ephemeral wrapped-asset account with this funding and size.
    CreateEphemeralAccount { lamports: u64, space: u64 },
    /// Initialize the ephemeral account as a holder of `mint` owned by `owner`.
    InitializeEphemeralAccount { mint: Address, owner: Address },
    /// Dispatch a built instruction to its program.
    Invoke { instruction: Instruction },
    /// Dispatch a built instruction signed as the derived authority, proven
    /// by re-supplying the fixed seed and this salt.
    InvokeSigned { instruction: Instruction, authority: SigningAuthority },
    /// Close the ephemeral account, refunding its balance to `destination`.
    CloseEphemeralAccount { destination: Address },
    /// Transfer the flat operator fee.
    PayFee { receiver: Address, lamports: u64 },
    /// Re-read the payer's issued-asset balance and enforce the minimum
    /// liquidity share against this starting point.
    VerifyLiquidity { total_supply: u64, balance_before: u64 },
}

/// One step of the asset-issuance plan.
#[derive(Debug)]
pub enum IssuanceStep {
    /// Mint this many units of supply to the payer.
    MintSupply { amount: u64 },
    /// Attach the token's metadata record.
    AttachMetadata { name: String, symbol: String, uri: String },
    /// Revoke the mint authority, fixing the supply forever.
    RevokeMintAuthority,
}

/// The accounts the provisioning workflow touches, as plain addresses.
#[derive(Clone, Copy, PartialEq, Eq, Structural, Debug)]
pub struct AddToRaydiumAccounts {
    pub payer: Address,
    pub token_mint: Address,
    pub token_account: Address,
    pub amm_config_id: Address,
    pub pool_id: Address,
    pub wsol_mint: Address,
    pub token_vault: Address,
    pub wsol_vault: Address,
    pub observation_id: Address,
    pub ex_tick_array_bitmap: Address,
    pub position_nft_mint: Address,
    pub position_nft_owner_pda: Address,
    pub position_nft_account: Address,
    pub metadata_account: Address,
    pub protocol_position: Address,
    pub tick_array_lower: Address,
    pub tick_array_upper: Address,
    pub personal_position: Address,
    pub wsol_account: Address,
    pub system_program: Address,
    pub token_program: Address,
    pub associated_token_program: Address,
    pub token_2022_program: Address,
    pub metadata_program: Address,
    pub rent_program: Address,
}

/// Numeric parameters of the provisioning workflow.
#[derive(Clone, Copy, PartialEq, Eq, Structural, Debug)]
pub struct AddToRaydiumParams {
    pub sqrt_price_x64: u128,
    pub tick_lower_index: i32,
    pub tick_upper_index: i32,
    pub tick_array_lower_start_index: i32,
    pub tick_array_upper_start_index: i32,
    pub liquidity: u128,
    pub token_amount_max: u64,
    pub wsol_amount_max: u64,
}

/// The accounts the harvest workflow touches, as plain addresses.
#[derive(Clone, Copy, PartialEq, Eq, Structural, Debug)]
pub struct HarvestAccounts {
    pub position_nft_owner_pda: Address,
    pub position_nft_account: Address,
    pub personal_position: Address,
    pub pool_id: Address,
    pub protocol_position: Address,
    pub token_vault: Address,
    pub wsol_vault: Address,
    pub tick_array_lower: Address,
    pub tick_array_upper: Address,
    pub token_recipient_account: Address,
    pub wsol_recipient_account: Address,
    pub token_mint: Address,
    pub wsol_mint: Address,
    pub payer: Address,
    pub token_program: Address,
    pub token_2022_program: Address,
    pub memo_program: Address,
}

/// How the provisioning workflow's accounts fill the pool-creation slots:
/// the issued asset is side A, the wrapped asset side B, and both sides use
/// the same asset program.
pub open spec fn create_pool_wiring(a: AddToRaydiumAccounts) -> CreatePool {
    CreatePool {
        pool_creator: a.payer,
        amm_config_id: a.amm_config_id,
        pool_id: a.pool_id,
        mint_a: a.token_mint,
        mint_b: a.wsol_mint,
        mint_vault_a: a.token_vault,
        mint_vault_b: a.wsol_vault,
        observation_id: a.observation_id,
        ex_tick_array_bitmap: a.ex_tick_array_bitmap,
        mint_program_id_a: a.token_program,
        mint_program_id_b: a.token_program,
        system_program: a.system_program,
        rent_program: a.rent_program,
    }
}

/// How the provisioning workflow's accounts fill the position-opening
/// slots.  The position's ownership token goes to the derived signing
/// authority, not to the payer, so only this system can later harvest.
pub open spec fn open_position_wiring(a: AddToRaydiumAccounts) -> OpenPosition {
    OpenPosition {
        payer: a.payer,
        position_nft_owner: a.position_nft_owner_pda,
        position_nft_mint: a.position_nft_mint,
        position_nft_account: a.position_nft_account,
        metadata_account: a.metadata_account,
        pool_id: a.pool_id,
        protocol_position: a.protocol_position,
        tick_array_lower: a.tick_array_lower,
        tick_array_upper: a.tick_array_upper,
        personal_position: a.personal_position,
        owner_token_account_a: a.token_account,
        owner_token_account_b: a.wsol_account,
        token_vault_a: a.token_vault,
        token_vault_b: a.wsol_vault,
        rent_program: a.rent_program,
        system_program: a.system_program,
        token_program: a.token_program,
        associated_token_program: a.associated_token_program,
        metadata_program: a.metadata_program,
        token_2022_program: a.token_2022_program,
        token_mint_a: a.token_mint,
        token_mint_b: a.wsol_mint,
    }
}

/// The position-opening arguments the provisioning workflow always uses:
/// metadata on, the base-flag option absent.
pub open spec fn open_position_wiring_args(p: AddToRaydiumParams) -> OpenPositionArgs {
    OpenPositionArgs {
        tick_lower_index: p.tick_lower_index,
        tick_upper_index: p.tick_upper_index,
        tick_array_lower_start_index: p.tick_array_lower_start_index,
        tick_array_upper_start_index: p.tick_array_upper_start_index,
        liquidity: p.liquidity,
        amount_max_a: p.token_amount_max,
        amount_max_b: p.wsol_amount_max,
        with_metadata: true,
        option_base_flag: 0,
        base_flag: false,
    }
}

/// How the harvest workflow's accounts fill the liquidity-decrease slots.
pub open spec fn decrease_liquidity_wiring(a: HarvestAccounts) -> DecreaseLiquidityV2 {
    DecreaseLiquidityV2 {
        position_nft_owner: a.position_nft_owner_pda,
        position_nft_account: a.position_nft_account,
        personal_position: a.personal_position,
        pool_state: a.pool_id,
        protocol_position: a.protocol_position,
        token_vault_0: a.token_vault,
        token_vault_1: a.wsol_vault,
        tick_array_lower: a.tick_array_lower,
        tick_array_upper: a.tick_array_upper,
        recipient_token_account_0: a.token_recipient_account,
        recipient_token_account_1: a.wsol_recipient_account,
        token_program: a.token_program,
        token_2022_program: a.token_2022_program,
        memo_program: a.memo_program,
        vault_0_mint: a.token_mint,
        vault_1_mint: a.wsol_mint,
    }
}

/// The least number of issued-asset units the provisioning workflow must
/// move into the pool: the whole-percent floor formula over the supply.
pub open spec fn liquidity_minimum(total_supply: u64) -> int {
    (total_supply as int) / 100 * (MIN_LIQUIDITY_PCT_OF_SUPPLY as int)
}

/// The cross-step invariant: the spent amount reaches the minimum share.
pub open spec fn liquidity_invariant_holds(total_supply: u64, spent: int) -> bool {
    spent >= liquidity_minimum(total_supply)
}

/// Computes the minimum spend for a supply.
pub fn min_liquidity_spend(total_supply: u64) -> (m: u64)
    ensures
        m == liquidity_minimum(total_supply),
{
    proof {
        lemma_div_is_ordered(total_supply as int, u64::MAX as int, 100);
    }
    total_supply / 100 * MIN_LIQUIDITY_PCT_OF_SUPPLY
}

/// Enforces the liquidity invariant at the end of the provisioning
/// workflow: succeeds with the spent amount exactly when the spend reaches
/// the minimum share, and otherwise reports the violation, upon which the
/// shell's enclosing transaction rolls back every earlier step — pool,
/// position and fee payment alike.
pub fn check_liquidity_invariant(total_supply: u64, balance_before: u64, balance_after: u64) -> (r:
    Result<u64, DeployError>)
    requires
        balance_after <= balance_before,
    ensures
        liquidity_invariant_holds(total_supply, balance_before - balance_after) ==> r == Ok::<
            u64,
            DeployError,
        >((balance_before - balance_after) as u64),
        !liquidity_invariant_holds(total_supply, balance_before - balance_after) ==> r == Err::<
            u64,
            DeployError,
        >(DeployError::InsufficientLiquidityProvided),
{
    let spent = balance_before - balance_after;
    let minimum = min_liquidity_spend(total_supply);
    if spent >= minimum {
        Ok(spent)
    } else {
        Err(DeployError::InsufficientLiquidityProvided)
    }
}

/// Plans the asset-issuance workflow: mint the whole supply to the payer,
/// attach the metadata record, then revoke the mint authority.  Revocation
/// comes last and unconditionally, so the supply is fixed from the moment
/// the plan completes.
pub fn create_token(amount: u64, name: String, symbol: String, uri: String) -> (steps: Vec<
    IssuanceStep,
>)
    ensures
        steps@.len() == 3,
        (steps@[0] matches IssuanceStep::MintSupply { amount: a } && a == amount),
        (steps@[1] matches IssuanceStep::AttachMetadata { name: n, symbol: s, uri: u } && n@
            == name@ && s@ == symbol@ && u@ == uri@),
        steps@[2] is RevokeMintAuthority,
{
    let mut steps: Vec<IssuanceStep> = Vec::new();
    steps.push(IssuanceStep::MintSupply { amount });
    steps.push(IssuanceStep::AttachMetadata { name, symbol, uri });
    steps.push(IssuanceStep::RevokeMintAuthority);
    steps
}

/// Plans the liquidity-provisioning workflow: create and fund the ephemeral
/// wrapped-asset account, initialize it, create the pool, open the position,
/// close the ephemeral account back to the payer, pay the flat operator fee,
/// and finally enforce the minimum-liquidity invariant.  Planning cannot
/// fail: every payload has fixed width and both account lists are fixed.
pub fn add_to_raydium(
    cfg: &DeployConfig,
    accounts: &AddToRaydiumAccounts,
    params: &AddToRaydiumParams,
    total_supply: u64,
    token_balance_before: u64,
    rent_minimum: u64,
) -> (steps: Vec<WorkflowStep>)
    requires
        rent_minimum + params.wsol_amount_max <= u64::MAX,
    ensures
        steps@.len() == 7,
        (steps@[0] matches WorkflowStep::CreateEphemeralAccount { lamports, space } && lamports
            == rent_minimum + params.wsol_amount_max && space == TOKEN_ACCOUNT_SPACE),
        (steps@[1] matches WorkflowStep::InitializeEphemeralAccount { mint, owner } && mint
            == accounts.wsol_mint && owner == accounts.payer),
        (steps@[2] matches WorkflowStep::Invoke { instruction } && instruction.program
            == cfg.clmm_program && instruction.accounts@ == create_pool_account_list(
            create_pool_wiring(*accounts),
        ) && instruction.data@ == create_pool_data(params.sqrt_price_x64)),
        (steps@[3] matches WorkflowStep::Invoke { instruction } && instruction.program
            == cfg.clmm_program && instruction.accounts@ == open_position_account_list(
            open_position_wiring(*accounts),
        ) && instruction.data@ == open_position_data(open_position_wiring_args(*params))),
        (steps@[4] matches WorkflowStep::CloseEphemeralAccount { destination } && destination
            == accounts.payer),
        (steps@[5] matches WorkflowStep::PayFee { receiver, lamports } && receiver
            == cfg.fee_receiver && lamports == FEE_LAMPORTS),
        (steps@[6] matches WorkflowStep::VerifyLiquidity { total_supply: ts, balance_before: bb }
            && ts == total_supply && bb == token_balance_before),
{
    let mut steps: Vec<WorkflowStep> = Vec::new();
    steps.push(
        WorkflowStep::CreateEphemeralAccount {
            lamports: rent_minimum + params.wsol_amount_max,
            space: TOKEN_ACCOUNT_SPACE,
        },
    );
    steps.push(
        WorkflowStep::InitializeEphemeralAccount {
            mint: accounts.wsol_mint,
            owner: accounts.payer,
        },
    );
    let pool_accounts = CreatePool {
        pool_creator: accounts.payer,
        amm_config_id: accounts.amm_config_id,
        pool_id: accounts.pool_id,
        mint_a: accounts.token_mint,
        mint_b: accounts.wsol_mint,
        mint_vault_a: accounts.token_vault,
        mint_vault_b: accounts.wsol_vault,
        observation_id: accounts.observation_id,
        ex_tick_array_bitmap: accounts.ex_tick_array_bitmap,
        mint_program_id_a: accounts.token_program,
        mint_program_id_b: accounts.token_program,
        system_program: accounts.system_program,
        rent_program: accounts.rent_program,
    };
    let create_pool_ix = create_pool(cfg.clmm_program, &pool_accounts, params.sqrt_price_x64);
    steps.push(WorkflowStep::Invoke { instruction: create_pool_ix });
    let position_accounts = OpenPosition {
        payer: accounts.payer,
        position_nft_owner: accounts.position_nft_owner_pda,
        position_nft_mint: accounts.position_nft_mint,
        position_nft_account: accounts.position_nft_account,
        metadata_account: accounts.metadata_account,
        pool_id: accounts.pool_id,
        protocol_position: accounts.protocol_position,
        tick_array_lower: accounts.tick_array_lower,
        tick_array_upper: accounts.tick_array_upper,
        personal_position: accounts.personal_position,
        owner_token_account_a: accounts.token_account,
        owner_token_account_b: accounts.wsol_account,
        token_vault_a: accounts.token_vault,
        token_vault_b: accounts.wsol_vault,
        rent_program: accounts.rent_program,
        system_program: accounts.system_program,
        token_program: accounts.token_program,
        associated_token_program: accounts.associated_token_program,
        metadata_program: accounts.metadata_program,
        token_2022_program: accounts.token_2022_program,
        token_mint_a: accounts.token_mint,
        token_mint_b: accounts.wsol_mint,
    };
    let args = OpenPositionArgs {
        tick_lower_index: params.tick_lower_index,
        tick_upper_index: params.tick_upper_index,
        tick_array_lower_start_index: params.tick_array_lower_start_index,
        tick_array_upper_start_index: params.tick_array_upper_start_index,
        liquidity: params.liquidity,
        amount_max_a: params.token_amount_max,
        amount_max_b: params.wsol_amount_max,
        with_metadata: true,
        option_base_flag: 0,
        base_flag: false,
    };
    let open_position_ix = open_position(cfg.clmm_program, &position_accounts, &args);
    steps.push(WorkflowStep::Invoke { instruction: open_position_ix });
    steps.push(WorkflowStep::CloseEphemeralAccount { destination: accounts.payer });
    steps.push(WorkflowStep::PayFee { receiver: cfg.fee_receiver, lamports: FEE_LAMPORTS });
    steps.push(
        WorkflowStep::VerifyLiquidity { total_supply, balance_before: token_balance_before },
    );
    steps
}

/// Plans the fee-harvest workflow.  Only the fixed operator may harvest;
/// the caller-supplied remaining accounts are decoded into the instruction's
/// variable tail, and a tail of unreadable shape is rejected.  The accepted
/// plan creates the rent-only ephemeral account, initializes it, dispatches
/// the zero-quantity liquidity-decrease signed as the derived authority, and
/// closes the ephemeral account back to the operator.
pub fn harvest_fees(
    cfg: &DeployConfig,
    accounts: &HarvestAccounts,
    remaining: &Vec<Address>,
    authority: &SigningAuthority,
    rent_minimum: u64,
) -> (r: Result<Vec<WorkflowStep>, DeployError>)
    ensures
        accounts.payer != cfg.harvester ==> r == Err::<Vec<WorkflowStep>, DeployError>(
            DeployError::UnauthorizedHarvester,
        ),
        accounts.payer == cfg.harvester && !remaining_accounts_well_shaped(remaining@) ==> r
            == Err::<Vec<WorkflowStep>, DeployError>(DeployError::MalformedRemainingAccounts),
        accounts.payer == cfg.harvester && remaining_accounts_well_shaped(remaining@) ==> (
        r matches Ok(steps) && steps@.len() == 4 && (
        steps@[0] matches WorkflowStep::CreateEphemeralAccount { lamports, space } && lamports
            == rent_minimum && space == TOKEN_ACCOUNT_SPACE) && (
        steps@[1] matches WorkflowStep::InitializeEphemeralAccount { mint, owner } && mint
            == accounts.wsol_mint && owner == accounts.payer) && (
        steps@[2] matches WorkflowStep::InvokeSigned { instruction, authority: auth } && auth
            == *authority && instruction.program == cfg.clmm_program && instruction.accounts@
            == harvest_account_list(decrease_liquidity_wiring(*accounts), remaining@)
            && instruction.data@ == harvest_data()) && (
        steps@[3] matches WorkflowStep::CloseEphemeralAccount { destination } && destination
            == accounts.payer)),
{
    if accounts.payer != cfg.harvester {
        return Err(DeployError::UnauthorizedHarvester);
    }
    let wiring = DecreaseLiquidityV2 {
        position_nft_owner: accounts.position_nft_owner_pda,
        position_nft_account: accounts.position_nft_account,
        personal_position: accounts.personal_position,
        pool_state: accounts.pool_id,
        protocol_position: accounts.protocol_position,
        token_vault_0: accounts.token_vault,
        token_vault_1: accounts.wsol_vault,
        tick_array_lower: accounts.tick_array_lower,
        tick_array_upper: accounts.tick_array_upper,
        recipient_token_account_0: accounts.token_recipient_account,
        recipient_token_account_1: accounts.wsol_recipient_account,
        token_program: accounts.token_program,
        token_2022_program: accounts.token_2022_program,
        memo_program: accounts.memo_program,
        vault_0_mint: accounts.token_mint,
        vault_1_mint: accounts.wsol_mint,
    };
    let instruction = match harvest(cfg.clmm_program, &wiring, remaining) {
        Ok(ix) => ix,
        Err(e) => {
            return Err(e);
        },
    };
    let mut steps: Vec<WorkflowStep> = Vec::new();
    steps.push(
        WorkflowStep::CreateEphemeralAccount {
            lamports: rent_minimum,
            space: TOKEN_ACCOUNT_SPACE,
        },
    );
    steps.push(
        WorkflowStep::InitializeEphemeralAccount {
            mint: accounts.wsol_mint,
            owner: accounts.payer,
        },
    );
    steps.push(WorkflowStep::InvokeSigned { instruction, authority: *authority });
    steps.push(WorkflowStep::CloseEphemeralAccount { destination: accounts.payer });
    Ok(steps)
}

} // verus!
