//! Account-list composer and instruction builders for the external
//! concentrated-liquidity program.
//!
//! The external program reads its accounts positionally: the order of the
//! list and the signer/writable flag of every entry carry the meaning, so a
//! single swapped or misflagged entry makes the program reject the call or,
//! worse, misread it.  The composers below produce those lists exactly, and
//! the builders pair each list with its encoded payload.

use vstd::prelude::*;
use crate::account::{readonly, readonly_signer, writable, writable_signer};
use crate::account::{AccountRef, Address, Instruction};
use crate::encode::{
    create_pool_data, encode_create_pool, encode_harvest, encode_open_position, harvest_data,
    open_position_data, OpenPositionArgs,
};
use crate::DeployError;

verus! {

/// Accounts of the pool-creation instruction, in positional order.
#[derive(Clone, Copy, PartialEq, Eq, Structural, Debug)]
pub struct CreatePool {
    pub pool_creator: Address,
    pub amm_config_id: Address,
    pub pool_id: Address,
    pub mint_a: Address,
    pub mint_b: Address,
    pub mint_vault_a: Address,
    pub mint_vault_b: Address,
    pub observation_id: Address,
    pub ex_tick_array_bitmap: Address,
    pub mint_program_id_a: Address,
    pub mint_program_id_b: Address,
    pub system_program: Address,
    pub rent_program: Address,
}

/// Accounts of the position-opening instruction, in positional order.
#[derive(Clone, Copy, PartialEq, Eq, Structural, Debug)]
pub struct OpenPosition {
    pub payer: Address,
    pub position_nft_owner: Address,
    pub position_nft_mint: Address,
    pub position_nft_account: Address,
    pub metadata_account: Address,
    pub pool_id: Address,
    pub protocol_position: Address,
    pub tick_array_lower: Address,
    pub tick_array_upper: Address,
    pub personal_position: Address,
    pub owner_token_account_a: Address,
    pub owner_token_account_b: Address,
    pub token_vault_a: Address,
    pub token_vault_b: Address,
    pub rent_program: Address,
    pub system_program: Address,
    pub token_program: Address,
    pub associated_token_program: Address,
    pub metadata_program: Address,
    pub token_2022_program: Address,
    pub token_mint_a: Address,
    pub token_mint_b: Address,
}

/// The 16 fixed accounts of the liquidity-decrease instruction the harvest
/// narrows, in positional order.  A variable tail follows them.
#[derive(Clone, Copy, PartialEq, Eq, Structural, Debug)]
pub struct DecreaseLiquidityV2 {
    pub position_nft_owner: Address,
    pub position_nft_account: Address,
    pub personal_position: Address,
    pub pool_state: Address,
    pub protocol_position: Address,
    pub token_vault_0: Address,
    pub token_vault_1: Address,
    pub tick_array_lower: Address,
    pub tick_array_upper: Address,
    pub recipient_token_account_0: Address,
    pub recipient_token_account_1: Address,
    pub token_program: Address,
    pub token_2022_program: Address,
    pub memo_program: Address,
    pub vault_0_mint: Address,
    pub vault_1_mint: Address,
}

/// The 13-entry account list of the pool-creation instruction.
pub open spec fn create_pool_account_list(a: CreatePool) -> Seq<AccountRef> {
    seq![
        writable_signer(a.pool_creator),
        readonly(a.amm_config_id),
        writable(a.pool_id),
        readonly(a.mint_a),
        readonly(a.mint_b),
        writable(a.mint_vault_a),
        writable(a.mint_vault_b),
        writable(a.observation_id),
        writable(a.ex_tick_array_bitmap),
        readonly(a.mint_program_id_a),
        readonly(a.mint_program_id_b),
        readonly(a.system_program),
        readonly(a.rent_program),
    ]
}

/// The 22-entry account list of the position-opening instruction.
pub open spec fn open_position_account_list(a: OpenPosition) -> Seq<AccountRef> {
    seq![
        writable_signer(a.payer),
        readonly(a.position_nft_owner),
        writable_signer(a.position_nft_mint),
        writable(a.position_nft_account),
        writable(a.metadata_account),
        writable(a.pool_id),
        writable(a.protocol_position),
        writable(a.tick_array_lower),
        writable(a.tick_array_upper),
        writable(a.personal_position),
        writable(a.owner_token_account_a),
        writable(a.owner_token_account_b),
        writable(a.token_vault_a),
        writable(a.token_vault_b),
        readonly(a.rent_program),
        readonly(a.system_program),
        readonly(a.token_program),
        readonly(a.associated_token_program),
        readonly(a.metadata_program),
        readonly(a.token_2022_program),
        readonly(a.token_mint_a),
        readonly(a.token_mint_b),
    ]
}

/// The 16 fixed entries that open the harvest account list.
pub open spec fn decrease_liquidity_fixed_list(a: DecreaseLiquidityV2) -> Seq<AccountRef> {
    seq![
        readonly_signer(a.position_nft_owner),
        readonly(a.position_nft_account),
        writable(a.personal_position),
        writable(a.pool_state),
        writable(a.protocol_position),
        writable(a.token_vault_0),
        writable(a.token_vault_1),
        writable(a.tick_array_lower),
        writable(a.tick_array_upper),
        writable(a.recipient_token_account_0),
        writable(a.recipient_token_account_1),
        readonly(a.token_program),
        readonly(a.token_2022_program),
        readonly(a.memo_program),
        readonly(a.vault_0_mint),
        readonly(a.vault_1_mint),
    ]
}

/// A caller-supplied remaining-accounts sequence is readable when, after the
/// optional single leading entry, only whole triples are left.  A length of
/// 2 mod 3 fits neither reading and is rejected rather than misencoded.
pub open spec fn remaining_accounts_well_shaped(remaining: Seq<Address>) -> bool {
    remaining.len() % 3 != 2
}

/// Number of leading extended-bitmap entries the tail starts with: one when
/// the length is 1 mod 3, none otherwise.
pub open spec fn harvest_lead_len(remaining: Seq<Address>) -> int {
    if remaining.len() % 3 == 1 {
        1
    } else {
        0
    }
}

/// Flags a consecutive run of reward triples: within each triple the first
/// two entries are writable, the third is read-only, and none of them signs.
pub open spec fn reward_triples(group: Seq<Address>) -> Seq<AccountRef> {
    Seq::new(
        group.len(),
        |i: int|
            if i % 3 == 2 {
                readonly(group[i])
            } else {
                writable(group[i])
            },
    )
}

/// The decoded variable tail of the harvest account list: an optional single
/// writable extended-bitmap entry, then the reward triples.
pub open spec fn harvest_tail(remaining: Seq<Address>) -> Seq<AccountRef> {
    if remaining.len() % 3 == 1 {
        seq![writable(remaining[0])] + reward_triples(
            remaining.subrange(1, remaining.len() as int),
        )
    } else {
        reward_triples(remaining)
    }
}

/// The whole harvest account list: 16 fixed entries, then the decoded tail.
pub open spec fn harvest_account_list(a: DecreaseLiquidityV2, remaining: Seq<Address>) -> Seq<
    AccountRef,
> {
    decrease_liquidity_fixed_list(a) + harvest_tail(remaining)
}

/// Composes the pool-creation account list.
pub fn compose_create_pool(a: &CreatePool) -> (metas: Vec<AccountRef>)
    ensures
        metas@ == create_pool_account_list(*a),
        metas@.len() == 13,
{
    let mut metas: Vec<AccountRef> = Vec::new();
    metas.push(AccountRef { addr: a.pool_creator, is_signer: true, is_writable: true });
    metas.push(AccountRef { addr: a.amm_config_id, is_signer: false, is_writable: false });
    metas.push(AccountRef { addr: a.pool_id, is_signer: false, is_writable: true });
    metas.push(AccountRef { addr: a.mint_a, is_signer: false, is_writable: false });
    metas.push(AccountRef { addr: a.mint_b, is_signer: false, is_writable: false });
    metas.push(AccountRef { addr: a.mint_vault_a, is_signer: false, is_writable: true });
    metas.push(AccountRef { addr: a.mint_vault_b, is_signer: false, is_writable: true });
    metas.push(AccountRef { addr: a.observation_id, is_signer: false, is_writable: true });
    metas.push(AccountRef { addr: a.ex_tick_array_bitmap, is_signer: false, is_writable: true });
    metas.push(AccountRef { addr: a.mint_program_id_a, is_signer: false, is_writable: false });
    metas.push(AccountRef { addr: a.mint_program_id_b, is_signer: false, is_writable: false });
    metas.push(AccountRef { addr: a.system_program, is_signer: false, is_writable: false });
    metas.push(AccountRef { addr: a.rent_program, is_signer: false, is_writable: false });
    proof {
        assert(metas@ =~= create_pool_account_list(*a));
    }
    metas
}

/// Composes the position-opening account list.
pub fn compose_open_position(a: &OpenPosition) -> (metas: Vec<AccountRef>)
    ensures
        metas@ == open_position_account_list(*a),
        metas@.len() == 22,
{
    let mut metas: Vec<AccountRef> = Vec::new();
    metas.push(AccountRef { addr: a.payer, is_signer: true, is_writable: true });
    metas.push(AccountRef { addr: a.position_nft_owner, is_signer: false, is_writable: false });
    metas.push(AccountRef { addr: a.position_nft_mint, is_signer: true, is_writable: true });
    metas.push(AccountRef { addr: a.position_nft_account, is_signer: false, is_writable: true });
    metas.push(AccountRef { addr: a.metadata_account, is_signer: false, is_writable: true });
    metas.push(AccountRef { addr: a.pool_id, is_signer: false, is_writable: true });
    metas.push(AccountRef { addr: a.protocol_position, is_signer: false, is_writable: true });
    metas.push(AccountRef { addr: a.tick_array_lower, is_signer: false, is_writable: true });
    metas.push(AccountRef { addr: a.tick_array_upper, is_signer: false, is_writable: true });
    metas.push(AccountRef { addr: a.personal_position, is_signer: false, is_writable: true });
    metas.push(AccountRef { addr: a.owner_token_account_a, is_signer: false, is_writable: true });
    metas.push(AccountRef { addr: a.owner_token_account_b, is_signer: false, is_writable: true });
    metas.push(AccountRef { addr: a.token_vault_a, is_signer: false, is_writable: true });
    metas.push(AccountRef { addr: a.token_vault_b, is_signer: false, is_writable: true });
    metas.push(AccountRef { addr: a.rent_program, is_signer: false, is_writable: false });
    metas.push(AccountRef { addr: a.system_program, is_signer: false, is_writable: false });
    metas.push(AccountRef { addr: a.token_program, is_signer: false, is_writable: false });
    metas.push(
        AccountRef { addr: a.associated_token_program, is_signer: false, is_writable: false },
    );
    metas.push(AccountRef { addr: a.metadata_program, is_signer: false, is_writable: false });
    metas.push(AccountRef { addr: a.token_2022_program, is_signer: false, is_writable: false });
    metas.push(AccountRef { addr: a.token_mint_a, is_signer: false, is_writable: false });
    metas.push(AccountRef { addr: a.token_mint_b, is_signer: false, is_writable: false });
    proof {
        assert(metas@ =~= open_position_account_list(*a));
    }
    metas
}

/// Composes the harvest account list: the 16 fixed entries, then the decoded
/// variable tail.  A remaining-accounts sequence that fits neither documented
/// reading is rejected rather than silently misencoded.
pub fn compose_harvest(a: &DecreaseLiquidityV2, remaining: &Vec<Address>) -> (r: Result<
    Vec<AccountRef>,
    DeployError,
>)
    ensures
        remaining_accounts_well_shaped(remaining@) ==> (r matches Ok(metas)
            && metas@ == harvest_account_list(*a, remaining@) && metas@.len() == 16
            + remaining@.len()),
        !remaining_accounts_well_shaped(remaining@) ==> r == Err::<Vec<AccountRef>, DeployError>(
            DeployError::MalformedRemainingAccounts,
        ),
{
    if remaining.len() % 3 == 2 {
        return Err(DeployError::MalformedRemainingAccounts);
    }
    let mut metas: Vec<AccountRef> = Vec::new();
    metas.push(AccountRef { addr: a.position_nft_owner, is_signer: true, is_writable: false });
    metas.push(AccountRef { addr: a.position_nft_account, is_signer: false, is_writable: false });
    metas.push(AccountRef { addr: a.personal_position, is_signer: false, is_writable: true });
    metas.push(AccountRef { addr: a.pool_state, is_signer: false, is_writable: true });
    metas.push(AccountRef { addr: a.protocol_position, is_signer: false, is_writable: true });
    metas.push(AccountRef { addr: a.token_vault_0, is_signer: false, is_writable: true });
    metas.push(AccountRef { addr: a.token_vault_1, is_signer: false, is_writable: true });
    metas.push(AccountRef { addr: a.tick_array_lower, is_signer: false, is_writable: true });
    metas.push(AccountRef { addr: a.tick_array_upper, is_signer: false, is_writable: true });
    metas.push(
        AccountRef { addr: a.recipient_token_account_0, is_signer: false, is_writable: true },
    );
    metas.push(
        AccountRef { addr: a.recipient_token_account_1, is_signer: false, is_writable: true },
    );
    metas.push(AccountRef { addr: a.token_program, is_signer: false, is_writable: false });
    metas.push(AccountRef { addr: a.token_2022_program, is_signer: false, is_writable: false });
    metas.push(AccountRef { addr: a.memo_program, is_signer: false, is_writable: false });
    metas.push(AccountRef { addr: a.vault_0_mint, is_signer: false, is_writable: false });
    metas.push(AccountRef { addr: a.vault_1_mint, is_signer: false, is_writable: false });
    proof {
        assert(metas@ =~= decrease_liquidity_fixed_list(*a));
    }
    let start: usize = if remaining.len() % 3 == 1 {
        let lead = remaining[0];
        metas.push(AccountRef { addr: lead, is_signer: false, is_writable: true });
        1
    } else {
        0
    };
    proof {
        assert(metas@ =~= decrease_liquidity_fixed_list(*a) + harvest_tail(remaining@).subrange(
            0,
            harvest_lead_len(remaining@),
        ));
    }
    let mut i: usize = start;
    while i < remaining.len()
        invariant
            start <= i <= remaining@.len(),
            start as int == harvest_lead_len(remaining@),
            remaining_accounts_well_shaped(remaining@),
            metas@ =~= decrease_liquidity_fixed_list(*a) + harvest_tail(remaining@).subrange(
                0,
                harvest_lead_len(remaining@) + (i - start),
            ),
        decreases remaining@.len() - i,
    {
        let entry = remaining[i];
        if (i - start) % 3 == 2 {
            metas.push(AccountRef { addr: entry, is_signer: false, is_writable: false });
        } else {
            metas.push(AccountRef { addr: entry, is_signer: false, is_writable: true });
        }
        i = i + 1;
        proof {
            lemma_harvest_tail_index(remaining@, (i - 1) as int);
            assert(metas@ =~= decrease_liquidity_fixed_list(*a) + harvest_tail(
                remaining@,
            ).subrange(0, harvest_lead_len(remaining@) + (i - start)));
        }
    }
    proof {
        assert(harvest_tail(remaining@).subrange(
            0,
            harvest_lead_len(remaining@) + (remaining@.len() - start),
        ) =~= harvest_tail(remaining@));
        assert(metas@ =~= harvest_account_list(*a, remaining@));
    }
    Ok(metas)
}

/// Relates an entry of the decoded tail to the remaining-accounts entry it
/// came from: past the optional leading element, entry `k` of the sequence
/// becomes read-only exactly when its offset within its triple is 2.
pub proof fn lemma_harvest_tail_index(remaining: Seq<Address>, k: int)
    requires
        remaining_accounts_well_shaped(remaining),
        harvest_lead_len(remaining) <= k < remaining.len(),
    ensures
        harvest_tail(remaining).len() == remaining.len(),
        harvest_tail(remaining)[k] == (if (k - harvest_lead_len(remaining)) % 3 == 2 {
            readonly(remaining[k])
        } else {
            writable(remaining[k])
        }),
{
    if remaining.len() % 3 == 1 {
        let rest = remaining.subrange(1, remaining.len() as int);
        assert(harvest_tail(remaining)[k] == reward_triples(rest)[k - 1]);
        assert(reward_triples(rest)[k - 1] == (if (k - 1) % 3 == 2 {
            readonly(rest[k - 1])
        } else {
            writable(rest[k - 1])
        }));
        assert(rest[k - 1] == remaining[k]);
    } else {
        assert(harvest_tail(remaining)[k] == reward_triples(remaining)[k]);
    }
}

/// Law: for any remaining-accounts sequence the composer accepts, the list
/// is the 16 fixed entries plus one entry per remaining account; when the
/// length is 1 mod 3 the first tail entry is the writable, non-signing
/// extended-bitmap account; and past the optional leading element every
/// third entry of the tail is read-only while the other two of each triple
/// are writable, none of them signing.
pub proof fn lemma_harvest_list_shape(a: DecreaseLiquidityV2, remaining: Seq<Address>)
    requires
        remaining_accounts_well_shaped(remaining),
    ensures
        harvest_account_list(a, remaining).len() == 16 + remaining.len(),
        remaining.len() % 3 == 1 ==> harvest_account_list(a, remaining)[16] == writable(
            remaining[0],
        ),
        forall|k: int|
            harvest_lead_len(remaining) <= k < remaining.len()
                ==> #[trigger] harvest_account_list(a, remaining)[16 + k] == (if (k
                - harvest_lead_len(remaining)) % 3 == 2 {
                readonly(remaining[k])
            } else {
                writable(remaining[k])
            }),
{
    assert(harvest_tail(remaining).len() == remaining.len());
    assert forall|k: int| harvest_lead_len(remaining) <= k < remaining.len() implies #[trigger]
    harvest_account_list(a, remaining)[16 + k] == (if (k - harvest_lead_len(remaining)) % 3 == 2 {
        readonly(remaining[k])
    } else {
        writable(remaining[k])
    }) by {
        lemma_harvest_tail_index(remaining, k);
        assert(harvest_account_list(a, remaining)[16 + k] == harvest_tail(remaining)[k]);
    }
}

/// Law: the pool-creation list reproduces the external program's documented
/// positional table entry by entry — creator writable and signing, the two
/// asset mints and both programs read-only, the pool, vaults, observation
/// and extended-bitmap accounts writable, and so on through all 13 places.
pub proof fn lemma_create_pool_positions(a: CreatePool)
    ensures
        create_pool_account_list(a).len() == 13,
        create_pool_account_list(a)[0] == writable_signer(a.pool_creator),
        create_pool_account_list(a)[1] == readonly(a.amm_config_id),
        create_pool_account_list(a)[2] == writable(a.pool_id),
        create_pool_account_list(a)[3] == readonly(a.mint_a),
        create_pool_account_list(a)[4] == readonly(a.mint_b),
        create_pool_account_list(a)[5] == writable(a.mint_vault_a),
        create_pool_account_list(a)[6] == writable(a.mint_vault_b),
        create_pool_account_list(a)[7] == writable(a.observation_id),
        create_pool_account_list(a)[8] == writable(a.ex_tick_array_bitmap),
        create_pool_account_list(a)[9] == readonly(a.mint_program_id_a),
        create_pool_account_list(a)[10] == readonly(a.mint_program_id_b),
        create_pool_account_list(a)[11] == readonly(a.system_program),
        create_pool_account_list(a)[12] == readonly(a.rent_program),
{
}

/// Law: the position-opening list reproduces the external program's
/// documented positional table entry by entry — payer and position mint
/// writable and signing, the owning authority read-only, the pool, position
/// and vault accounts writable, the six programs and two mints read-only.
pub proof fn lemma_open_position_positions(a: OpenPosition)
    ensures
        open_position_account_list(a).len() == 22,
        open_position_account_list(a)[0] == writable_signer(a.payer),
        open_position_account_list(a)[1] == readonly(a.position_nft_owner),
        open_position_account_list(a)[2] == writable_signer(a.position_nft_mint),
        open_position_account_list(a)[3] == writable(a.position_nft_account),
        open_position_account_list(a)[4] == writable(a.metadata_account),
        open_position_account_list(a)[5] == writable(a.pool_id),
        open_position_account_list(a)[6] == writable(a.protocol_position),
        open_position_account_list(a)[7] == writable(a.tick_array_lower),
        open_position_account_list(a)[8] == writable(a.tick_array_upper),
        open_position_account_list(a)[9] == writable(a.personal_position),
        open_position_account_list(a)[10] == writable(a.owner_token_account_a),
        open_position_account_list(a)[11] == writable(a.owner_token_account_b),
        open_position_account_list(a)[12] == writable(a.token_vault_a),
        open_position_account_list(a)[13] == writable(a.token_vault_b),
        open_position_account_list(a)[14] == readonly(a.rent_program),
        open_position_account_list(a)[15] == readonly(a.system_program),
        open_position_account_list(a)[16] == readonly(a.token_program),
        open_position_account_list(a)[17] == readonly(a.associated_token_program),
        open_position_account_list(a)[18] == readonly(a.metadata_program),
        open_position_account_list(a)[19] == readonly(a.token_2022_program),
        open_position_account_list(a)[20] == readonly(a.token_mint_a),
        open_position_account_list(a)[21] == readonly(a.token_mint_b),
{
}

/// Builds the pool-creation instruction for the external program.
pub fn create_pool(clmm_program: Address, accounts: &CreatePool, sqrt_price_x64: u128) -> (ix:
    Instruction)
    ensures
        ix.program == clmm_program,
        ix.accounts@ == create_pool_account_list(*accounts),
        ix.data@ == create_pool_data(sqrt_price_x64),
{
    Instruction {
        program: clmm_program,
        accounts: compose_create_pool(accounts),
        data: encode_create_pool(sqrt_price_x64),
    }
}

/// Builds the position-opening instruction for the external program.
pub fn open_position(clmm_program: Address, accounts: &OpenPosition, args: &OpenPositionArgs) -> (ix:
    Instruction)
    ensures
        ix.program == clmm_program,
        ix.accounts@ == open_position_account_list(*accounts),
        ix.data@ == open_position_data(*args),
{
    Instruction {
        program: clmm_program,
        accounts: compose_open_position(accounts),
        data: encode_open_position(args),
    }
}

/// Builds the harvest instruction: the liquidity-decrease operation with its
/// quantities pinned to zero and the caller-supplied tail decoded into
/// flagged entries.  Rejects a tail that fits neither documented shape.
pub fn harvest(clmm_program: Address, accounts: &DecreaseLiquidityV2, remaining: &Vec<Address>) -> (r:
    Result<Instruction, DeployError>)
    ensures
        remaining_accounts_well_shaped(remaining@) ==> (r matches Ok(ix) && ix.program
            == clmm_program && ix.accounts@ == harvest_account_list(*accounts, remaining@)
            && ix.data@ == harvest_data()),
        !remaining_accounts_well_shaped(remaining@) ==> r == Err::<Instruction, DeployError>(
            DeployError::MalformedRemainingAccounts,
        ),
{
    let metas = match compose_harvest(accounts, remaining) {
        Ok(metas) => metas,
        Err(e) => {
            return Err(e);
        },
    };
    Ok(Instruction { program: clmm_program, accounts: metas, data: encode_harvest() })
}

} // verus!
