//! The instruction state machine: validation and planned effects.
//!
//! Each handler is a pure decision function. It authenticates every handle it
//! intends to trust (address re-derivation, signature presence, owner), then
//! returns a plan: the allocation and token requests to issue and the record
//! bytes to persist, in order. The runtime shell applies a plan only when the
//! handler returns `Ok`, and the environment applies an instruction's effects
//! atomically or not at all, so an error leaves every record unchanged.

use vstd::prelude::*;

use crate::accounts::{AccountHandle, AccountHandleV};
use crate::cpi::{
    derive_address, pda_bump, pda_key, pda_of, spl_token_program_key, sys_create_account_instruction,
    token_initialize_account_instruction, token_program_key_seq, token_transfer_instruction,
    token_approve_instruction, swap_instruction,
};
use crate::error::StepError;
use crate::instruction::{StepInstruction, StepInstructionV};
use crate::keys::{copy_key, is_key, is_null_key, key_is_null, keys_equal, null_key, null_key_seq, PubkeyData};
use crate::state::{
    spec_decode_pool, spec_decode_program_state, spec_decode_stream, spec_decode_user_account,
    spec_encode_pool, spec_encode_program_state, spec_encode_user_account, Pool, PoolV,
    StepProgramState, StepProgramStateV, Stream, StreamV, UserAccount, UserAccountV, POOL_LEN,
    PROGRAM_STATE_LEN, STREAM_LEN,
};
use solana_program::instruction::Instruction;

verus! {

/// Seed of the singleton program-state slot (ASCII of a fixed 32-byte tag).
pub const PROGRAM_STATE_SEED: [u8; 32] = [
    115, 116, 101, 112, 95, 112, 114, 111, 103, 114, 97, 109, 95, 115, 116, 97, 116, 101, 45, 49,
    50, 51, 52, 53, 54, 55, 56, 57, 97, 98, 99, 98,
];

/// Seed of the pool custody token account (ASCII of a fixed 5-byte tag).
pub const TOKEN_ACCOUNT_SEED: [u8; 5] = [115, 101, 101, 100, 121];

/// Packed length of the token service's account record.
pub const TOKEN_ACCOUNT_RECORD_LEN: u64 = 165;

/// Fixed amount pulled from custody per trade execution.
pub const TRADE_AMOUNT: u64 = 2_000_000_000;

/// Floor on the output of a trade; the venue aborts below it.
pub const TRADE_MINIMUM_OUT: u64 = 1_000_000_000;

/// The seed of the singleton program-state slot, as a sequence.
pub open spec fn spec_program_state_seed() -> Seq<u8> {
    PROGRAM_STATE_SEED@
}

/// The seed of the pool custody token account, as a sequence.
pub open spec fn spec_token_account_seed() -> Seq<u8> {
    TOKEN_ACCOUNT_SEED@
}

/// Builds the program-state seed.
pub fn program_state_seed() -> (r: Vec<u8>)
    ensures
        r@ == spec_program_state_seed(),
{
    vstd::slice::slice_to_vec(PROGRAM_STATE_SEED.as_slice())
}

/// Builds the custody token-account seed.
pub fn token_account_seed() -> (r: Vec<u8>)
    ensures
        r@ == spec_token_account_seed(),
{
    vstd::slice::slice_to_vec(TOKEN_ACCOUNT_SEED.as_slice())
}

/// Rent-exemption minima that the environment quotes for the slots an
/// instruction may allocate; the shell reads them from the rent oracle.
#[derive(Clone, Copy)]
pub struct RentParams {
    pub state_account_lamports: u64,
    pub token_account_lamports: u64,
    pub pool_account_lamports: u64,
}

/// An order to persist `record` into the slot at `target`.
#[derive(Debug)]
pub struct WriteCmd {
    pub target: PubkeyData,
    pub record: Vec<u8>,
}

/// Mathematical value of a [`WriteCmd`].
#[verifier::ext_equal]
pub struct WriteCmdV {
    pub target: Seq<u8>,
    pub record: Seq<u8>,
}

impl View for WriteCmd {
    type V = WriteCmdV;

    open spec fn view(&self) -> WriteCmdV {
        WriteCmdV { target: self.target@, record: self.record@ }
    }
}

// ---------------------------------------------------------------------------
// Planned cross-program requests, as plain values.
//
// A plan describes each request it wants issued by its parameters, so the
// contracts pin whom a transfer pays or to whom an approval is addressed.
// The opaque request value that the environment takes is built from exactly
// these fields, through the trusted builders.
// ---------------------------------------------------------------------------

/// A planned allocation of a fresh storage slot.
#[derive(Debug)]
pub struct AllocationRequest {
    /// Account that funds the new slot.
    pub funder: PubkeyData,
    /// Address of the slot to allocate.
    pub new_account: PubkeyData,
    /// Lamports funded into it.
    pub lamports: u64,
    /// Its size in bytes.
    pub space: u64,
    /// The program that will own it.
    pub owner: PubkeyData,
}

/// Mathematical value of an [`AllocationRequest`].
#[verifier::ext_equal]
pub struct AllocationRequestV {
    pub funder: Seq<u8>,
    pub new_account: Seq<u8>,
    pub lamports: u64,
    pub space: u64,
    pub owner: Seq<u8>,
}

impl View for AllocationRequest {
    type V = AllocationRequestV;

    open spec fn view(&self) -> AllocationRequestV {
        AllocationRequestV {
            funder: self.funder@,
            new_account: self.new_account@,
            lamports: self.lamports,
            space: self.space,
            owner: self.owner@,
        }
    }
}

impl AllocationRequest {
    /// Identifier fields hold exactly 32 bytes.
    pub open spec fn wf(&self) -> bool {
        is_key(self.funder@) && is_key(self.new_account@) && is_key(self.owner@)
    }

    /// The allocation request as the environment takes it, built from this
    /// plan's fields.
    pub fn instruction(&self) -> Instruction
        requires
            self.wf(),
    {
        sys_create_account_instruction(
            &self.funder,
            &self.new_account,
            self.lamports,
            self.space,
            &self.owner,
        )
    }
}

/// A planned token-account initialization.
#[derive(Debug)]
pub struct InitializeAccountRequest {
    /// The slot to turn into a token account.
    pub account: PubkeyData,
    /// The asset it will hold.
    pub mint: PubkeyData,
    /// Its owner.
    pub owner: PubkeyData,
}

/// Mathematical value of an [`InitializeAccountRequest`].
#[verifier::ext_equal]
pub struct InitializeAccountRequestV {
    pub account: Seq<u8>,
    pub mint: Seq<u8>,
    pub owner: Seq<u8>,
}

impl View for InitializeAccountRequest {
    type V = InitializeAccountRequestV;

    open spec fn view(&self) -> InitializeAccountRequestV {
        InitializeAccountRequestV { account: self.account@, mint: self.mint@, owner: self.owner@ }
    }
}

impl InitializeAccountRequest {
    /// Identifier fields hold exactly 32 bytes.
    pub open spec fn wf(&self) -> bool {
        is_key(self.account@) && is_key(self.mint@) && is_key(self.owner@)
    }

    /// The token-service request as the environment takes it, built from this
    /// plan's fields.
    pub fn instruction(&self) -> Instruction
        requires
            self.wf(),
    {
        token_initialize_account_instruction(&self.account, &self.mint, &self.owner)
    }
}

/// A planned token transfer.
#[derive(Debug)]
pub struct TransferRequest {
    /// Account the amount leaves.
    pub source: PubkeyData,
    /// Account the amount enters.
    pub destination: PubkeyData,
    /// The party whose signature authorizes the movement.
    pub authority: PubkeyData,
    /// The amount moved.
    pub amount: u64,
}

/// Mathematical value of a [`TransferRequest`].
#[verifier::ext_equal]
pub struct TransferRequestV {
    pub source: Seq<u8>,
    pub destination: Seq<u8>,
    pub authority: Seq<u8>,
    pub amount: u64,
}

impl View for TransferRequest {
    type V = TransferRequestV;

    open spec fn view(&self) -> TransferRequestV {
        TransferRequestV {
            source: self.source@,
            destination: self.destination@,
            authority: self.authority@,
            amount: self.amount,
        }
    }
}

impl TransferRequest {
    /// Identifier fields hold exactly 32 bytes.
    pub open spec fn wf(&self) -> bool {
        is_key(self.source@) && is_key(self.destination@) && is_key(self.authority@)
    }

    /// The token-service request as the environment takes it, built from this
    /// plan's fields.
    pub fn instruction(&self) -> Instruction
        requires
            self.wf(),
    {
        token_transfer_instruction(&self.source, &self.destination, &self.authority, self.amount)
    }
}

/// A planned delegated approval.
#[derive(Debug)]
pub struct ApproveRequest {
    /// Account the delegate may draw from.
    pub source: PubkeyData,
    /// The party allowed to draw.
    pub delegate: PubkeyData,
    /// The authority over the source account.
    pub owner: PubkeyData,
    /// The ceiling on what may be drawn.
    pub amount: u64,
}

/// Mathematical value of an [`ApproveRequest`].
#[verifier::ext_equal]
pub struct ApproveRequestV {
    pub source: Seq<u8>,
    pub delegate: Seq<u8>,
    pub owner: Seq<u8>,
    pub amount: u64,
}

impl View for ApproveRequest {
    type V = ApproveRequestV;

    open spec fn view(&self) -> ApproveRequestV {
        ApproveRequestV {
            source: self.source@,
            delegate: self.delegate@,
            owner: self.owner@,
            amount: self.amount,
        }
    }
}

impl ApproveRequest {
    /// Identifier fields hold exactly 32 bytes.
    pub open spec fn wf(&self) -> bool {
        is_key(self.source@) && is_key(self.delegate@) && is_key(self.owner@)
    }

    /// The token-service request as the environment takes it, built from this
    /// plan's fields.
    pub fn instruction(&self) -> Instruction
        requires
            self.wf(),
    {
        token_approve_instruction(&self.source, &self.delegate, &self.owner, self.amount)
    }
}

/// A planned swap at the external venue.
#[derive(Debug)]
pub struct SwapRequest {
    /// The venue's program.
    pub swap_program: PubkeyData,
    /// The token service.
    pub token_program: PubkeyData,
    /// The venue's market account.
    pub swap_venue: PubkeyData,
    /// The venue's own authority.
    pub venue_authority: PubkeyData,
    /// The authority that releases the funds source.
    pub user_transfer_authority: PubkeyData,
    /// Account the input amount is drawn from.
    pub source: PubkeyData,
    /// The venue's account for the input asset.
    pub swap_source: PubkeyData,
    /// The venue's account for the output asset.
    pub swap_destination: PubkeyData,
    /// Account the output is paid into.
    pub destination: PubkeyData,
    /// The venue's liquidity mint.
    pub pool_mint: PubkeyData,
    /// The venue's fee account.
    pub pool_fee: PubkeyData,
    /// The amount traded in.
    pub amount_in: u64,
    /// Floor on the output; the venue aborts below it.
    pub minimum_amount_out: u64,
}

/// Mathematical value of a [`SwapRequest`].
#[verifier::ext_equal]
pub struct SwapRequestV {
    pub swap_program: Seq<u8>,
    pub token_program: Seq<u8>,
    pub swap_venue: Seq<u8>,
    pub venue_authority: Seq<u8>,
    pub user_transfer_authority: Seq<u8>,
    pub source: Seq<u8>,
    pub swap_source: Seq<u8>,
    pub swap_destination: Seq<u8>,
    pub destination: Seq<u8>,
    pub pool_mint: Seq<u8>,
    pub pool_fee: Seq<u8>,
    pub amount_in: u64,
    pub minimum_amount_out: u64,
}

impl View for SwapRequest {
    type V = SwapRequestV;

    open spec fn view(&self) -> SwapRequestV {
        SwapRequestV {
            swap_program: self.swap_program@,
            token_program: self.token_program@,
            swap_venue: self.swap_venue@,
            venue_authority: self.venue_authority@,
            user_transfer_authority: self.user_transfer_authority@,
            source: self.source@,
            swap_source: self.swap_source@,
            swap_destination: self.swap_destination@,
            destination: self.destination@,
            pool_mint: self.pool_mint@,
            pool_fee: self.pool_fee@,
            amount_in: self.amount_in,
            minimum_amount_out: self.minimum_amount_out,
        }
    }
}

impl SwapRequest {
    /// Identifier fields hold exactly 32 bytes.
    pub open spec fn wf(&self) -> bool {
        is_key(self.swap_program@) && is_key(self.token_program@) && is_key(self.swap_venue@)
            && is_key(self.venue_authority@) && is_key(self.user_transfer_authority@) && is_key(
            self.source@,
        ) && is_key(self.swap_source@) && is_key(self.swap_destination@) && is_key(
            self.destination@,
        ) && is_key(self.pool_mint@) && is_key(self.pool_fee@)
    }

    /// The swap request as the environment takes it, built from this plan's
    /// fields.
    pub fn instruction(&self) -> Instruction
        requires
            self.wf(),
    {
        swap_instruction(
            &self.swap_program,
            &self.token_program,
            &self.swap_venue,
            &self.venue_authority,
            &self.user_transfer_authority,
            &self.source,
            &self.swap_source,
            &self.swap_destination,
            &self.destination,
            &self.pool_mint,
            &self.pool_fee,
            self.amount_in,
            self.minimum_amount_out,
        )
    }
}

/// The lamports actually funded into a fresh slot: at least one.
pub fn rent_floor(minimum_balance: u64) -> (r: u64)
    ensures
        r == if minimum_balance > 1 { minimum_balance } else { 1u64 },
{
    if minimum_balance > 1 {
        minimum_balance
    } else {
        1
    }
}

// ---------------------------------------------------------------------------
// Slot vacancy: a slot may be claimed only while it is fresh.
// ---------------------------------------------------------------------------

/// Why the program-state slot cannot be claimed, if it cannot: an occupied
/// slot is `AlreadyInitialized`, undecodable bytes are `CorruptRecord`; a
/// short (never-allocated) or zero-filled slot is free.
pub open spec fn spec_check_vacant_program_state(data: Seq<u8>) -> Option<StepError> {
    if data.len() < PROGRAM_STATE_LEN {
        None
    } else {
        match spec_decode_program_state(data) {
            None => Some(StepError::CorruptRecord),
            Some(m) => if m.is_initialized {
                Some(StepError::AlreadyInitialized)
            } else {
                None
            },
        }
    }
}

/// Checks that the program-state slot is still free.
pub fn check_vacant_program_state(data: &[u8]) -> (r: Option<StepError>)
    ensures
        r == spec_check_vacant_program_state(data@),
{
    let n = data.len();
    if n < PROGRAM_STATE_LEN {
        return None;
    }
    match StepProgramState::unpack_from_slice(data) {
        Err(e) => Some(e),
        Ok(m) => if m.is_initialized {
            Some(StepError::AlreadyInitialized)
        } else {
            None
        },
    }
}

/// Why the pool slot cannot be claimed, if it cannot; as for the program
/// state.
pub open spec fn spec_check_vacant_pool(data: Seq<u8>) -> Option<StepError> {
    if data.len() < POOL_LEN {
        None
    } else {
        match spec_decode_pool(data) {
            None => Some(StepError::CorruptRecord),
            Some(m) => if m.is_initialized {
                Some(StepError::AlreadyInitialized)
            } else {
                None
            },
        }
    }
}

/// Checks that a pool slot is still free.
pub fn check_vacant_pool(data: &[u8]) -> (r: Option<StepError>)
    ensures
        r == spec_check_vacant_pool(data@),
{
    let n = data.len();
    if n < POOL_LEN {
        return None;
    }
    match Pool::unpack_from_slice(data) {
        Err(e) => Some(e),
        Ok(m) => if m.is_initialized {
            Some(StepError::AlreadyInitialized)
        } else {
            None
        },
    }
}

// ---------------------------------------------------------------------------
// InitializeProgram
// ---------------------------------------------------------------------------

/// Plan of a successful `InitProgram`: allocate the singleton slot (signed
/// with its seed and bump), then persist the program-state record.
#[derive(Debug)]
pub struct InitProgramPlan {
    /// Allocation of the program-state slot.
    pub create_state_account: AllocationRequest,
    /// Seed the shell signs the allocation with.
    pub state_seed: Vec<u8>,
    /// Bump value that completes the seed.
    pub state_bump: u8,
    /// The program-state record to persist.
    pub state_write: WriteCmd,
}

/// Mathematical value of an [`InitProgramPlan`].
#[verifier::ext_equal]
pub struct InitProgramPlanV {
    pub create_state_account: AllocationRequestV,
    pub state_seed: Seq<u8>,
    pub state_bump: u8,
    pub state_write: WriteCmdV,
}

impl View for InitProgramPlan {
    type V = InitProgramPlanV;

    open spec fn view(&self) -> InitProgramPlanV {
        InitProgramPlanV {
            create_state_account: self.create_state_account@,
            state_seed: self.state_seed@,
            state_bump: self.state_bump,
            state_write: self.state_write@,
        }
    }
}

/// Outcome of `InitProgram`: the deployer must sign; the supplied slot must
/// sit at the address derived from the fixed program-state seed; the slot
/// must still be free. On success the deployer funds the allocation of the
/// program-state slot, owned by the program, and the persisted record marks
/// the deployer as the program's authority.
pub open spec fn spec_init_program(
    deployer: AccountHandleV,
    state_account: AccountHandleV,
    program_id: Seq<u8>,
    state_rent_lamports: u64,
) -> Result<InitProgramPlanV, StepError> {
    let seed = spec_program_state_seed();
    if !deployer.is_signer {
        Err(StepError::MissingAuthority)
    } else if pda_of(seed, program_id) is None || state_account.key != pda_key(seed, program_id) {
        Err(StepError::AddressMismatch)
    } else if spec_check_vacant_program_state(state_account.data) is Some {
        Err(spec_check_vacant_program_state(state_account.data).unwrap())
    } else {
        Ok(
            InitProgramPlanV {
                create_state_account: AllocationRequestV {
                    funder: deployer.key,
                    new_account: state_account.key,
                    lamports: if state_rent_lamports > 1 {
                        state_rent_lamports
                    } else {
                        1u64
                    },
                    space: PROGRAM_STATE_LEN as u64,
                    owner: program_id,
                },
                state_seed: seed,
                state_bump: pda_bump(seed, program_id),
                state_write: WriteCmdV {
                    target: state_account.key,
                    record: spec_encode_program_state(
                        StepProgramStateV { is_initialized: true, deployer_pubkey: deployer.key },
                    ),
                },
            },
        )
    }
}

/// Stateless dispatcher of the instruction set.
pub struct Processor;

impl Processor {
    /// Validates and plans a one-time program initialization.
    pub fn process_init_program(
        deployer: &AccountHandle,
        state_account: &AccountHandle,
        program_id: &PubkeyData,
        state_rent_lamports: u64,
    ) -> (r: Result<InitProgramPlan, StepError>)
        requires
            deployer.wf(),
            state_account.wf(),
            is_key(program_id@),
        ensures
            match r {
                Ok(p) => spec_init_program(
                    deployer@,
                    state_account@,
                    program_id@,
                    state_rent_lamports,
                ) == Ok::<InitProgramPlanV, StepError>(p@),
                Err(e) => spec_init_program(
                    deployer@,
                    state_account@,
                    program_id@,
                    state_rent_lamports,
                ) == Err::<InitProgramPlanV, StepError>(e),
            },
    {
        if !deployer.is_signer {
            return Err(StepError::MissingAuthority);
        }
        let seed = program_state_seed();
        let derived = derive_address(&seed, program_id);
        match derived {
            None => Err(StepError::AddressMismatch),
            Some((pda, bump)) => {
                if !keys_equal(&pda, &state_account.key) {
                    return Err(StepError::AddressMismatch);
                }
                match check_vacant_program_state(state_account.data.as_slice()) {
                    Some(e) => Err(e),
                    None => {
                        let record = StepProgramState {
                            is_initialized: true,
                            deployer_pubkey: copy_key(&deployer.key),
                        };
                        let create_state_account = AllocationRequest {
                            funder: copy_key(&deployer.key),
                            new_account: copy_key(&state_account.key),
                            lamports: rent_floor(state_rent_lamports),
                            space: PROGRAM_STATE_LEN as u64,
                            owner: copy_key(program_id),
                        };
                        let rec_bytes = record.encode();
                        let plan = InitProgramPlan {
                            create_state_account,
                            state_seed: seed,
                            state_bump: bump,
                            state_write: WriteCmd {
                                target: copy_key(&state_account.key),
                                record: rec_bytes,
                            },
                        };
                        proof {
                            assert(spec_init_program(
                                deployer@,
                                state_account@,
                                program_id@,
                                state_rent_lamports,
                            ) =~= Ok::<InitProgramPlanV, StepError>(plan@));
                        }
                        Ok(plan)
                    },
                }
            },
        }
    }
}

// ---------------------------------------------------------------------------
// InitializePool
// ---------------------------------------------------------------------------

/// Plan of a successful `InitPool`: allocate and initialize the custody token
/// account, allocate the pool slot, then persist the pool record.
#[derive(Debug)]
pub struct InitPoolPlan {
    /// Allocation of the custody token account.
    pub create_token_account: AllocationRequest,
    /// Initialization of the custody account for the pool's asset.
    pub initialize_token_account: InitializeAccountRequest,
    /// Allocation of the pool slot.
    pub create_pool_account: AllocationRequest,
    /// Seed the shell signs the custody allocation with.
    pub token_seed: Vec<u8>,
    /// Bump value that completes the custody seed.
    pub token_bump: u8,
    /// Address of the custody token account.
    pub token_account: PubkeyData,
    /// Bump value that completes the pool's seed.
    pub pool_bump: u8,
    /// The pool record to persist.
    pub pool_write: WriteCmd,
}

/// Mathematical value of an [`InitPoolPlan`].
#[verifier::ext_equal]
pub struct InitPoolPlanV {
    pub create_token_account: AllocationRequestV,
    pub initialize_token_account: InitializeAccountRequestV,
    pub create_pool_account: AllocationRequestV,
    pub token_seed: Seq<u8>,
    pub token_bump: u8,
    pub token_account: Seq<u8>,
    pub pool_bump: u8,
    pub pool_write: WriteCmdV,
}

impl View for InitPoolPlan {
    type V = InitPoolPlanV;

    open spec fn view(&self) -> InitPoolPlanV {
        InitPoolPlanV {
            create_token_account: self.create_token_account@,
            initialize_token_account: self.initialize_token_account@,
            create_pool_account: self.create_pool_account@,
            token_seed: self.token_seed@,
            token_bump: self.token_bump,
            token_account: self.token_account@,
            pool_bump: self.pool_bump,
            pool_write: self.pool_write@,
        }
    }
}

/// Outcome of `InitPool`: the program-state handle must sit at its derived
/// address and decode; the deployer recorded there must sign; the custody and
/// pool handles must sit at their derived addresses; the mint must belong to
/// the token service; the pool slot must still be free. On success the
/// deployer funds two allocations — the custody token account, owned by the
/// token service and initialized for the pool's asset, and the pool slot,
/// owned by the program — and the persisted pool starts with a null user
/// list.
pub open spec fn spec_init_pool(
    deployer: AccountHandleV,
    state_account: AccountHandleV,
    pool_account: AccountHandleV,
    token_account: AccountHandleV,
    mint: AccountHandleV,
    program_id: Seq<u8>,
    pool_pda_seed: Seq<u8>,
    token_rent_lamports: u64,
    pool_rent_lamports: u64,
) -> Result<InitPoolPlanV, StepError> {
    let state_seed = spec_program_state_seed();
    let token_seed = spec_token_account_seed();
    if pda_of(state_seed, program_id) is None || state_account.key != pda_key(
        state_seed,
        program_id,
    ) {
        Err(StepError::AddressMismatch)
    } else {
        match spec_decode_program_state(state_account.data) {
            None => Err(StepError::CorruptRecord),
            Some(st) => {
                if !deployer.is_signer || deployer.key != st.deployer_pubkey {
                    Err(StepError::MissingAuthority)
                } else if pda_of(token_seed, program_id) is None || token_account.key != pda_key(
                    token_seed,
                    program_id,
                ) {
                    Err(StepError::AddressMismatch)
                } else if pda_of(pool_pda_seed, program_id) is None || pool_account.key != pda_key(
                    pool_pda_seed,
                    program_id,
                ) {
                    Err(StepError::AddressMismatch)
                } else if mint.owner != token_program_key_seq() {
                    Err(StepError::AddressMismatch)
                } else if spec_check_vacant_pool(pool_account.data) is Some {
                    Err(spec_check_vacant_pool(pool_account.data).unwrap())
                } else {
                    Ok(
                        InitPoolPlanV {
                            create_token_account: AllocationRequestV {
                                funder: deployer.key,
                                new_account: token_account.key,
                                lamports: if token_rent_lamports > 1 {
                                    token_rent_lamports
                                } else {
                                    1u64
                                },
                                space: TOKEN_ACCOUNT_RECORD_LEN,
                                owner: token_program_key_seq(),
                            },
                            initialize_token_account: InitializeAccountRequestV {
                                account: token_account.key,
                                mint: mint.key,
                                owner: token_account.key,
                            },
                            create_pool_account: AllocationRequestV {
                                funder: deployer.key,
                                new_account: pool_account.key,
                                lamports: if pool_rent_lamports > 1 {
                                    pool_rent_lamports
                                } else {
                                    1u64
                                },
                                space: POOL_LEN as u64,
                                owner: program_id,
                            },
                            token_seed,
                            token_bump: pda_bump(token_seed, program_id),
                            token_account: token_account.key,
                            pool_bump: pda_bump(pool_pda_seed, program_id),
                            pool_write: WriteCmdV {
                                target: pool_account.key,
                                record: spec_encode_pool(
                                    PoolV {
                                        is_initialized: true,
                                        mint_pubkey: mint.key,
                                        pda_seed: pool_pda_seed,
                                        head_user: null_key_seq(),
                                    },
                                ),
                            },
                        },
                    )
                }
            },
        }
    }
}

impl Processor {
    /// Validates and plans a one-time pool initialization.
    pub fn process_init_pool(
        deployer: &AccountHandle,
        state_account: &AccountHandle,
        pool_account: &AccountHandle,
        token_account: &AccountHandle,
        mint: &AccountHandle,
        program_id: &PubkeyData,
        pool_pda_seed: &PubkeyData,
        token_rent_lamports: u64,
        pool_rent_lamports: u64,
    ) -> (r: Result<InitPoolPlan, StepError>)
        requires
            deployer.wf(),
            state_account.wf(),
            pool_account.wf(),
            token_account.wf(),
            mint.wf(),
            is_key(program_id@),
            is_key(pool_pda_seed@),
        ensures
            match r {
                Ok(p) => spec_init_pool(
                    deployer@,
                    state_account@,
                    pool_account@,
                    token_account@,
                    mint@,
                    program_id@,
                    pool_pda_seed@,
                    token_rent_lamports,
                    pool_rent_lamports,
                ) == Ok::<InitPoolPlanV, StepError>(p@),
                Err(e) => spec_init_pool(
                    deployer@,
                    state_account@,
                    pool_account@,
                    token_account@,
                    mint@,
                    program_id@,
                    pool_pda_seed@,
                    token_rent_lamports,
                    pool_rent_lamports,
                ) == Err::<InitPoolPlanV, StepError>(e),
            },
    {
        let state_seed = program_state_seed();
        let state_derived = derive_address(&state_seed, program_id);
        let state_ok = match &state_derived {
            None => false,
            Some((pda, _)) => keys_equal(pda, &state_account.key),
        };
        if !state_ok {
            return Err(StepError::AddressMismatch);
        }
        let st = match StepProgramState::unpack_from_slice(state_account.data.as_slice()) {
            Err(e) => {
                return Err(e);
            },
            Ok(st) => st,
        };
        if !deployer.is_signer || !keys_equal(&deployer.key, &st.deployer_pubkey) {
            return Err(StepError::MissingAuthority);
        }
        let token_seed = token_account_seed();
        let (token_pda, token_bump) = match derive_address(&token_seed, program_id) {
            None => {
                return Err(StepError::AddressMismatch);
            },
            Some(p) => p,
        };
        if !keys_equal(&token_pda, &token_account.key) {
            return Err(StepError::AddressMismatch);
        }
        let (pool_pda, pool_bump) = match derive_address(pool_pda_seed, program_id) {
            None => {
                return Err(StepError::AddressMismatch);
            },
            Some(p) => p,
        };
        if !keys_equal(&pool_pda, &pool_account.key) {
            return Err(StepError::AddressMismatch);
        }
        let token_program_id = spl_token_program_key();
        if !keys_equal(&mint.owner, &token_program_id) {
            return Err(StepError::AddressMismatch);
        }
        match check_vacant_pool(pool_account.data.as_slice()) {
            Some(e) => Err(e),
            None => {
                let create_token_account = AllocationRequest {
                    funder: copy_key(&deployer.key),
                    new_account: copy_key(&token_account.key),
                    lamports: rent_floor(token_rent_lamports),
                    space: TOKEN_ACCOUNT_RECORD_LEN,
                    owner: token_program_id,
                };
                let initialize_token_account = InitializeAccountRequest {
                    account: copy_key(&token_account.key),
                    mint: copy_key(&mint.key),
                    owner: copy_key(&token_account.key),
                };
                let create_pool_account = AllocationRequest {
                    funder: copy_key(&deployer.key),
                    new_account: copy_key(&pool_account.key),
                    lamports: rent_floor(pool_rent_lamports),
                    space: POOL_LEN as u64,
                    owner: copy_key(program_id),
                };
                let record = Pool {
                    is_initialized: true,
                    mint_pubkey: copy_key(&mint.key),
                    pda_seed: copy_key(pool_pda_seed),
                    head_user: null_key(),
                };
                let rec_bytes = record.encode();
                let plan = InitPoolPlan {
                    create_token_account,
                    initialize_token_account,
                    create_pool_account,
                    token_seed,
                    token_bump,
                    token_account: copy_key(&token_account.key),
                    pool_bump,
                    pool_write: WriteCmd { target: copy_key(&pool_account.key), record: rec_bytes },
                };
                proof {
                    assert(spec_init_pool(
                        deployer@,
                        state_account@,
                        pool_account@,
                        token_account@,
                        mint@,
                        program_id@,
                        pool_pda_seed@,
                        token_rent_lamports,
                        pool_rent_lamports,
                    ) =~= Ok::<InitPoolPlanV, StepError>(plan@));
                }
                Ok(plan)
            },
        }
    }
}

// ---------------------------------------------------------------------------
// Deposit
// ---------------------------------------------------------------------------

/// The current content of a user slot: an empty (never-allocated) slot stands
/// for a fresh user record; anything else must decode.
pub open spec fn spec_user_slot(data: Seq<u8>) -> Result<UserAccountV, StepError> {
    if data.len() == 0 {
        Ok(UserAccountV { balance: 0, next_user: null_key_seq(), head_stream: null_key_seq() })
    } else {
        match spec_decode_user_account(data) {
            None => Err(StepError::CorruptRecord),
            Some(u) => Ok(u),
        }
    }
}

/// Reads a user slot, treating an empty slot as a fresh record.
pub fn user_slot(data: &[u8]) -> (r: Result<UserAccount, StepError>)
    ensures
        match r {
            Ok(u) => spec_user_slot(data@) == Ok::<UserAccountV, StepError>(u@) && u.wf(),
            Err(e) => spec_user_slot(data@) == Err::<UserAccountV, StepError>(e),
        },
{
    let n = data.len();
    if n == 0 {
        let u = UserAccount::new();
        proof {
            assert(spec_user_slot(data@) =~= Ok::<UserAccountV, StepError>(u@));
        }
        Ok(u)
    } else {
        UserAccount::unpack_from_slice(data)
    }
}

/// Plan of a successful `Deposit`: issue the transfer into custody, then
/// persist the changed records. The shell applies the writes only after the
/// transfer succeeded; a rejected transfer aborts the instruction with no
/// record changed.
#[derive(Debug)]
pub struct DepositPlan {
    /// Transfer moving the amount from the depositor's source account into
    /// custody, authorized by the depositor.
    pub transfer: TransferRequest,
    /// New pool record, when this deposit sets the head of the user list.
    pub pool_write: Option<WriteCmd>,
    /// New tail-user record, when this deposit appends a new user to a
    /// non-empty list.
    pub tail_user_write: Option<WriteCmd>,
    /// The depositor's updated user record.
    pub user_write: WriteCmd,
}

/// Mathematical value of a [`DepositPlan`].
#[verifier::ext_equal]
pub struct DepositPlanV {
    pub transfer: TransferRequestV,
    pub pool_write: Option<WriteCmdV>,
    pub tail_user_write: Option<WriteCmdV>,
    pub user_write: WriteCmdV,
}

impl View for DepositPlan {
    type V = DepositPlanV;

    open spec fn view(&self) -> DepositPlanV {
        DepositPlanV {
            transfer: self.transfer@,
            pool_write: match &self.pool_write {
                Some(w) => Some(w@),
                None => None,
            },
            tail_user_write: match &self.tail_user_write {
                Some(w) => Some(w@),
                None => None,
            },
            user_write: self.user_write@,
        }
    }
}

/// View of an optional handle argument.
pub open spec fn spec_opt_handle(o: Option<&AccountHandle>) -> Option<AccountHandleV> {
    match o {
        Some(t) => Some(t@),
        None => None,
    }
}

/// Outcome of `Deposit`: the depositor must sign and the amount must be
/// positive; the token-program handle must be the token service; the pool
/// handle must sit at the address derived from its own stored seed and the
/// custody handle at the address derived from the fixed custody seed. The
/// depositor's balance grows by exactly the amount. A first-ever deposit sets
/// the pool's head pointer; a new user joining a non-empty pool is appended
/// behind the supplied tail user, whose forward link must still be null.
pub open spec fn spec_deposit(
    depositor: AccountHandleV,
    depositor_token_account: AccountHandleV,
    user_account: AccountHandleV,
    pool_account: AccountHandleV,
    program_token_account: AccountHandleV,
    token_program: AccountHandleV,
    tail_user: Option<AccountHandleV>,
    program_id: Seq<u8>,
    amount: u64,
) -> Result<DepositPlanV, StepError> {
    if !depositor.is_signer {
        Err(StepError::MissingAuthority)
    } else if amount == 0 {
        Err(StepError::InvalidAmount)
    } else if token_program.key != token_program_key_seq() {
        Err(StepError::AddressMismatch)
    } else {
        match spec_decode_pool(pool_account.data) {
            None => Err(StepError::CorruptRecord),
            Some(pool) => {
                if pda_of(pool.pda_seed, program_id) is None || pool_account.key != pda_key(
                    pool.pda_seed,
                    program_id,
                ) {
                    Err(StepError::AddressMismatch)
                } else if pda_of(spec_token_account_seed(), program_id) is None
                    || program_token_account.key != pda_key(
                    spec_token_account_seed(),
                    program_id,
                ) {
                    Err(StepError::AddressMismatch)
                } else {
                    match spec_user_slot(user_account.data) {
                        Err(e) => Err(e),
                        Ok(user) => {
                            if user.balance + amount > u64::MAX {
                                Err(StepError::InvalidAmount)
                            } else {
                                let transfer = TransferRequestV {
                                    source: depositor_token_account.key,
                                    destination: program_token_account.key,
                                    authority: depositor.key,
                                    amount,
                                };
                                let user_write = WriteCmdV {
                                    target: user_account.key,
                                    record: spec_encode_user_account(
                                        UserAccountV {
                                            balance: (user.balance + amount) as u64,
                                            next_user: user.next_user,
                                            head_stream: user.head_stream,
                                        },
                                    ),
                                };
                                if !user.is_fresh() {
                                    Ok(
                                        DepositPlanV {
                                            transfer,
                                            pool_write: None,
                                            tail_user_write: None,
                                            user_write,
                                        },
                                    )
                                } else if is_null_key(pool.head_user) {
                                    Ok(
                                        DepositPlanV {
                                            transfer,
                                            pool_write: Some(
                                                WriteCmdV {
                                                    target: pool_account.key,
                                                    record: spec_encode_pool(
                                                        PoolV {
                                                            is_initialized: pool.is_initialized,
                                                            mint_pubkey: pool.mint_pubkey,
                                                            pda_seed: pool.pda_seed,
                                                            head_user: user_account.key,
                                                        },
                                                    ),
                                                },
                                            ),
                                            tail_user_write: None,
                                            user_write,
                                        },
                                    )
                                } else {
                                    match tail_user {
                                        None => Err(StepError::MalformedInstruction),
                                        Some(t) => match spec_decode_user_account(t.data) {
                                            None => Err(StepError::CorruptRecord),
                                            Some(tu) => {
                                                if !is_null_key(tu.next_user) || t.key
                                                    == user_account.key {
                                                    Err(StepError::AddressMismatch)
                                                } else {
                                                    Ok(
                                                        DepositPlanV {
                                                            transfer,
                                                            pool_write: None,
                                                            tail_user_write: Some(
                                                                WriteCmdV {
                                                                    target: t.key,
                                                                    record: spec_encode_user_account(
                                                                        crate::state::spec_relink_user(
                                                                            tu,
                                                                            user_account.key,
                                                                        ),
                                                                    ),
                                                                },
                                                            ),
                                                            user_write,
                                                        },
                                                    )
                                                }
                                            },
                                        },
                                    }
                                }
                            }
                        },
                    }
                }
            },
        }
    }
}

impl Processor {
    /// Validates and plans a deposit.
    pub fn process_deposit(
        depositor: &AccountHandle,
        depositor_token_account: &AccountHandle,
        user_account: &AccountHandle,
        pool_account: &AccountHandle,
        program_token_account: &AccountHandle,
        token_program: &AccountHandle,
        tail_user: Option<&AccountHandle>,
        program_id: &PubkeyData,
        amount: u64,
    ) -> (r: Result<DepositPlan, StepError>)
        requires
            depositor.wf(),
            depositor_token_account.wf(),
            user_account.wf(),
            pool_account.wf(),
            program_token_account.wf(),
            token_program.wf(),
            tail_user matches Some(t) ==> t.wf(),
            is_key(program_id@),
        ensures
            match r {
                Ok(p) => spec_deposit(
                    depositor@,
                    depositor_token_account@,
                    user_account@,
                    pool_account@,
                    program_token_account@,
                    token_program@,
                    spec_opt_handle(tail_user),
                    program_id@,
                    amount,
                ) == Ok::<DepositPlanV, StepError>(p@),
                Err(e) => spec_deposit(
                    depositor@,
                    depositor_token_account@,
                    user_account@,
                    pool_account@,
                    program_token_account@,
                    token_program@,
                    spec_opt_handle(tail_user),
                    program_id@,
                    amount,
                ) == Err::<DepositPlanV, StepError>(e),
            },
    {
        if !depositor.is_signer {
            return Err(StepError::MissingAuthority);
        }
        if amount == 0 {
            return Err(StepError::InvalidAmount);
        }
        let token_program_id = spl_token_program_key();
        if !keys_equal(&token_program.key, &token_program_id) {
            return Err(StepError::AddressMismatch);
        }
        let pool = match Pool::unpack_from_slice(pool_account.data.as_slice()) {
            Err(e) => {
                return Err(e);
            },
            Ok(p) => p,
        };
        let pool_ok = match derive_address(&pool.pda_seed, program_id) {
            None => false,
            Some((pda, _)) => keys_equal(&pda, &pool_account.key),
        };
        if !pool_ok {
            return Err(StepError::AddressMismatch);
        }
        let token_seed = token_account_seed();
        let custody_ok = match derive_address(&token_seed, program_id) {
            None => false,
            Some((pda, _)) => keys_equal(&pda, &program_token_account.key),
        };
        if !custody_ok {
            return Err(StepError::AddressMismatch);
        }
        let user = match user_slot(user_account.data.as_slice()) {
            Err(e) => {
                return Err(e);
            },
            Ok(u) => u,
        };
        if amount > u64::MAX - user.balance {
            return Err(StepError::InvalidAmount);
        }
        let is_new = user.balance == 0 && key_is_null(&user.next_user) && key_is_null(
            &user.head_stream,
        );
        let mut updated = user;
        updated.balance = updated.balance + amount;
        let user_write = WriteCmd { target: copy_key(&user_account.key), record: updated.encode() };
        let transfer = TransferRequest {
            source: copy_key(&depositor_token_account.key),
            destination: copy_key(&program_token_account.key),
            authority: copy_key(&depositor.key),
            amount,
        };
        if !is_new {
            let plan = DepositPlan { transfer, pool_write: None, tail_user_write: None, user_write };
            proof {
                assert(spec_deposit(
                    depositor@,
                    depositor_token_account@,
                    user_account@,
                    pool_account@,
                    program_token_account@,
                    token_program@,
                    spec_opt_handle(tail_user),
                    program_id@,
                    amount,
                ) =~= Ok::<DepositPlanV, StepError>(plan@));
            }
            Ok(plan)
        } else if key_is_null(&pool.head_user) {
            let mut new_pool = pool;
            new_pool.head_user = copy_key(&user_account.key);
            let rec = new_pool.encode();
            let plan = DepositPlan {
                transfer,
                pool_write: Some(WriteCmd { target: copy_key(&pool_account.key), record: rec }),
                tail_user_write: None,
                user_write,
            };
            proof {
                assert(spec_deposit(
                    depositor@,
                    depositor_token_account@,
                    user_account@,
                    pool_account@,
                    program_token_account@,
                    token_program@,
                    spec_opt_handle(tail_user),
                    program_id@,
                    amount,
                ) =~= Ok::<DepositPlanV, StepError>(plan@));
            }
            Ok(plan)
        } else {
            match tail_user {
                None => Err(StepError::MalformedInstruction),
                Some(t) => {
                    let tu = match UserAccount::unpack_from_slice(t.data.as_slice()) {
                        Err(e) => {
                            return Err(e);
                        },
                        Ok(x) => x,
                    };
                    if !key_is_null(&tu.next_user) || keys_equal(&t.key, &user_account.key) {
                        return Err(StepError::AddressMismatch);
                    }
                    let mut new_tail = tu;
                    new_tail.next_user = copy_key(&user_account.key);
                    let rec = new_tail.encode();
                    let plan = DepositPlan {
                        transfer,
                        pool_write: None,
                        tail_user_write: Some(
                            WriteCmd { target: copy_key(&t.key), record: rec },
                        ),
                        user_write,
                    };
                    proof {
                        assert(spec_deposit(
                            depositor@,
                            depositor_token_account@,
                            user_account@,
                            pool_account@,
                            program_token_account@,
                            token_program@,
                            spec_opt_handle(tail_user),
                            program_id@,
                            amount,
                        ) =~= Ok::<DepositPlanV, StepError>(plan@));
                    }
                    Ok(plan)
                },
            }
        }
    }
}

// ---------------------------------------------------------------------------
// CreateStream
// ---------------------------------------------------------------------------

/// Why a stream slot cannot be claimed, if it cannot: a short
/// (never-allocated) or all-zero slot is free; anything else already holds a
/// stream.
pub open spec fn spec_check_vacant_stream(data: Seq<u8>) -> Option<StepError> {
    if data.len() < STREAM_LEN {
        None
    } else if spec_decode_stream(data).unwrap().is_blank() {
        None
    } else {
        Some(StepError::AlreadyInitialized)
    }
}

/// Checks that a stream slot is still free.
pub fn check_vacant_stream(data: &[u8]) -> (r: Option<StepError>)
    ensures
        r == spec_check_vacant_stream(data@),
{
    let n = data.len();
    if n < STREAM_LEN {
        return None;
    }
    match Stream::unpack_from_slice(data) {
        Err(_) => None,
        Ok(m) => {
            let blank = key_is_null(&m.input_token_pubkey) && key_is_null(&m.output_token_pubkey)
                && key_is_null(&m.next_stream) && m.interval_days == 0 && m.amount == 0;
            if blank {
                None
            } else {
                Some(StepError::AlreadyInitialized)
            }
        },
    }
}

/// Plan of a successful `CreateStream`: persist the changed link record, then
/// the new stream.
#[derive(Debug)]
pub struct CreateStreamPlan {
    /// New user record, when this stream becomes the head of the list.
    pub user_write: Option<WriteCmd>,
    /// New tail-stream record, when this stream is appended to a non-empty
    /// list.
    pub tail_stream_write: Option<WriteCmd>,
    /// The new stream record.
    pub stream_write: WriteCmd,
}

/// Mathematical value of a [`CreateStreamPlan`].
#[verifier::ext_equal]
pub struct CreateStreamPlanV {
    pub user_write: Option<WriteCmdV>,
    pub tail_stream_write: Option<WriteCmdV>,
    pub stream_write: WriteCmdV,
}

impl View for CreateStreamPlan {
    type V = CreateStreamPlanV;

    open spec fn view(&self) -> CreateStreamPlanV {
        CreateStreamPlanV {
            user_write: match &self.user_write {
                Some(w) => Some(w@),
                None => None,
            },
            tail_stream_write: match &self.tail_stream_write {
                Some(w) => Some(w@),
                None => None,
            },
            stream_write: self.stream_write@,
        }
    }
}

/// Outcome of `CreateStream`: the acting user must sign; the interval and the
/// amount must be positive; the new slot must be fresh, must not sit at the
/// null sentinel, and must differ from the user record's slot. The new stream
/// is persisted with a null forward link. A user's first stream becomes the
/// head of the list; a later one is appended behind the supplied tail stream,
/// whose forward link must still be null.
pub open spec fn spec_create_stream(
    user: AccountHandleV,
    user_account: AccountHandleV,
    new_stream_account: AccountHandleV,
    tail_stream: Option<AccountHandleV>,
    input_token_pubkey: Seq<u8>,
    output_token_pubkey: Seq<u8>,
    interval_days: i64,
    amount: u64,
) -> Result<CreateStreamPlanV, StepError> {
    if !user.is_signer {
        Err(StepError::MissingAuthority)
    } else if interval_days <= 0 || amount == 0 {
        Err(StepError::InvalidAmount)
    } else {
        match spec_user_slot(user_account.data) {
            Err(e) => Err(e),
            Ok(u) => {
                if is_null_key(new_stream_account.key) || new_stream_account.key
                    == user_account.key {
                    Err(StepError::AddressMismatch)
                } else if spec_check_vacant_stream(new_stream_account.data) is Some {
                    Err(spec_check_vacant_stream(new_stream_account.data).unwrap())
                } else {
                    let stream_write = WriteCmdV {
                        target: new_stream_account.key,
                        record: crate::state::spec_encode_stream(
                            StreamV {
                                input_token_pubkey,
                                output_token_pubkey,
                                next_stream: null_key_seq(),
                                interval_days,
                                amount,
                            },
                        ),
                    };
                    if is_null_key(u.head_stream) {
                        Ok(
                            CreateStreamPlanV {
                                user_write: Some(
                                    WriteCmdV {
                                        target: user_account.key,
                                        record: spec_encode_user_account(
                                            UserAccountV {
                                                balance: u.balance,
                                                next_user: u.next_user,
                                                head_stream: new_stream_account.key,
                                            },
                                        ),
                                    },
                                ),
                                tail_stream_write: None,
                                stream_write,
                            },
                        )
                    } else {
                        match tail_stream {
                            None => Err(StepError::MalformedInstruction),
                            Some(t) => match spec_decode_stream(t.data) {
                                None => Err(StepError::CorruptRecord),
                                Some(ts) => {
                                    if !is_null_key(ts.next_stream) || t.key
                                        == new_stream_account.key {
                                        Err(StepError::AddressMismatch)
                                    } else {
                                        Ok(
                                            CreateStreamPlanV {
                                                user_write: None,
                                                tail_stream_write: Some(
                                                    WriteCmdV {
                                                        target: t.key,
                                                        record: crate::state::spec_encode_stream(
                                                            crate::state::spec_relink_stream(
                                                                ts,
                                                                new_stream_account.key,
                                                            ),
                                                        ),
                                                    },
                                                ),
                                                stream_write,
                                            },
                                        )
                                    }
                                },
                            },
                        }
                    }
                }
            },
        }
    }
}

impl Processor {
    /// Validates and plans a stream registration.
    pub fn process_create_stream(
        user: &AccountHandle,
        user_account: &AccountHandle,
        new_stream_account: &AccountHandle,
        tail_stream: Option<&AccountHandle>,
        input_token_pubkey: &PubkeyData,
        output_token_pubkey: &PubkeyData,
        interval_days: i64,
        amount: u64,
    ) -> (r: Result<CreateStreamPlan, StepError>)
        requires
            user.wf(),
            user_account.wf(),
            new_stream_account.wf(),
            tail_stream matches Some(t) ==> t.wf(),
            is_key(input_token_pubkey@),
            is_key(output_token_pubkey@),
        ensures
            match r {
                Ok(p) => spec_create_stream(
                    user@,
                    user_account@,
                    new_stream_account@,
                    spec_opt_handle(tail_stream),
                    input_token_pubkey@,
                    output_token_pubkey@,
                    interval_days,
                    amount,
                ) == Ok::<CreateStreamPlanV, StepError>(p@),
                Err(e) => spec_create_stream(
                    user@,
                    user_account@,
                    new_stream_account@,
                    spec_opt_handle(tail_stream),
                    input_token_pubkey@,
                    output_token_pubkey@,
                    interval_days,
                    amount,
                ) == Err::<CreateStreamPlanV, StepError>(e),
            },
    {
        if !user.is_signer {
            return Err(StepError::MissingAuthority);
        }
        if interval_days <= 0 || amount == 0 {
            return Err(StepError::InvalidAmount);
        }
        let u = match user_slot(user_account.data.as_slice()) {
            Err(e) => {
                return Err(e);
            },
            Ok(u) => u,
        };
        if key_is_null(&new_stream_account.key) || keys_equal(
            &new_stream_account.key,
            &user_account.key,
        ) {
            return Err(StepError::AddressMismatch);
        }
        match check_vacant_stream(new_stream_account.data.as_slice()) {
            Some(e) => {
                return Err(e);
            },
            None => {},
        }
        let new_stream = Stream::new(
            copy_key(input_token_pubkey),
            copy_key(output_token_pubkey),
            null_key(),
            interval_days,
            amount,
        );
        let stream_write = WriteCmd {
            target: copy_key(&new_stream_account.key),
            record: new_stream.encode(),
        };
        if key_is_null(&u.head_stream) {
            let mut linked = u;
            linked.head_stream = copy_key(&new_stream_account.key);
            let rec = linked.encode();
            let plan = CreateStreamPlan {
                user_write: Some(WriteCmd { target: copy_key(&user_account.key), record: rec }),
                tail_stream_write: None,
                stream_write,
            };
            proof {
                assert(spec_create_stream(
                    user@,
                    user_account@,
                    new_stream_account@,
                    spec_opt_handle(tail_stream),
                    input_token_pubkey@,
                    output_token_pubkey@,
                    interval_days,
                    amount,
                ) =~= Ok::<CreateStreamPlanV, StepError>(plan@));
            }
            Ok(plan)
        } else {
            match tail_stream {
                None => Err(StepError::MalformedInstruction),
                Some(t) => {
                    let ts = match Stream::unpack_from_slice(t.data.as_slice()) {
                        Err(e) => {
                            return Err(e);
                        },
                        Ok(x) => x,
                    };
                    if !key_is_null(&ts.next_stream) || keys_equal(&t.key, &new_stream_account.key)
                    {
                        return Err(StepError::AddressMismatch);
                    }
                    let mut new_tail = ts;
                    new_tail.next_stream = copy_key(&new_stream_account.key);
                    let rec = new_tail.encode();
                    let plan = CreateStreamPlan {
                        user_write: None,
                        tail_stream_write: Some(
                            WriteCmd { target: copy_key(&t.key), record: rec },
                        ),
                        stream_write,
                    };
                    proof {
                        assert(spec_create_stream(
                            user@,
                            user_account@,
                            new_stream_account@,
                            spec_opt_handle(tail_stream),
                            input_token_pubkey@,
                            output_token_pubkey@,
                            interval_days,
                            amount,
                        ) =~= Ok::<CreateStreamPlanV, StepError>(plan@));
                    }
                    Ok(plan)
                },
            }
        }
    }
}

// ---------------------------------------------------------------------------
// ExecuteTrade
// ---------------------------------------------------------------------------

/// Plan of a successful `Execute`: approve the venue to pull the trade amount
/// from custody, then issue the swap, both signed by the custody authority.
/// Either both legs commit or neither does; the venue aborts below the output
/// floor.
#[derive(Debug)]
pub struct TradePlan {
    /// Delegated approval letting the venue pull the trade amount from
    /// custody, authorized by the derived custody authority.
    pub approve: ApproveRequest,
    /// The swap, drawing the trade amount from custody under the output
    /// floor.
    pub swap: SwapRequest,
    /// Seed the shell signs both requests with.
    pub authority_seed: Vec<u8>,
    /// Bump value that completes the seed.
    pub authority_bump: u8,
}

/// Mathematical value of a [`TradePlan`].
#[verifier::ext_equal]
pub struct TradePlanV {
    pub approve: ApproveRequestV,
    pub swap: SwapRequestV,
    pub authority_seed: Seq<u8>,
    pub authority_bump: u8,
}

impl View for TradePlan {
    type V = TradePlanV;

    open spec fn view(&self) -> TradePlanV {
        TradePlanV {
            approve: self.approve@,
            swap: self.swap@,
            authority_seed: self.authority_seed@,
            authority_bump: self.authority_bump,
        }
    }
}

/// Outcome of `Execute`: the executor must sign; the token-program handle
/// must be the token service; the custody handle must sit at the address
/// derived from the fixed custody seed. The plan approves exactly the venue's
/// program to pull the fixed trade amount from the custody account under the
/// derived custody authority, and swaps that amount out of the custody
/// account at the venue, with the custody account as both funds source and
/// output destination and the fixed output floor.
pub open spec fn spec_execute_trade(
    deployer: AccountHandleV,
    program_token_account: AccountHandleV,
    token_swap_program: AccountHandleV,
    token_program: AccountHandleV,
    swap_info: AccountHandleV,
    authority_info: AccountHandleV,
    swap_source: AccountHandleV,
    swap_destination: AccountHandleV,
    destination: AccountHandleV,
    pool_mint: AccountHandleV,
    pool_fee: AccountHandleV,
    program_id: Seq<u8>,
) -> Result<TradePlanV, StepError> {
    let token_seed = spec_token_account_seed();
    if !deployer.is_signer {
        Err(StepError::MissingAuthority)
    } else if token_program.key != token_program_key_seq() {
        Err(StepError::AddressMismatch)
    } else if pda_of(token_seed, program_id) is None || program_token_account.key != pda_key(
        token_seed,
        program_id,
    ) {
        Err(StepError::AddressMismatch)
    } else {
        Ok(
            TradePlanV {
                approve: ApproveRequestV {
                    source: program_token_account.key,
                    delegate: token_swap_program.key,
                    owner: pda_key(token_seed, program_id),
                    amount: TRADE_AMOUNT,
                },
                swap: SwapRequestV {
                    swap_program: token_swap_program.key,
                    token_program: token_program.key,
                    swap_venue: swap_info.key,
                    venue_authority: authority_info.key,
                    user_transfer_authority: pda_key(token_seed, program_id),
                    source: program_token_account.key,
                    swap_source: swap_source.key,
                    swap_destination: swap_destination.key,
                    destination: destination.key,
                    pool_mint: pool_mint.key,
                    pool_fee: pool_fee.key,
                    amount_in: TRADE_AMOUNT,
                    minimum_amount_out: TRADE_MINIMUM_OUT,
                },
                authority_seed: token_seed,
                authority_bump: pda_bump(token_seed, program_id),
            },
        )
    }
}

impl Processor {
    /// Validates and plans a trade execution.
    pub fn process_trade(
        deployer: &AccountHandle,
        program_token_account: &AccountHandle,
        token_swap_program: &AccountHandle,
        token_program: &AccountHandle,
        swap_info: &AccountHandle,
        authority_info: &AccountHandle,
        swap_source: &AccountHandle,
        swap_destination: &AccountHandle,
        destination: &AccountHandle,
        pool_mint: &AccountHandle,
        pool_fee: &AccountHandle,
        program_id: &PubkeyData,
    ) -> (r: Result<TradePlan, StepError>)
        requires
            deployer.wf(),
            program_token_account.wf(),
            token_swap_program.wf(),
            token_program.wf(),
            swap_info.wf(),
            authority_info.wf(),
            swap_source.wf(),
            swap_destination.wf(),
            destination.wf(),
            pool_mint.wf(),
            pool_fee.wf(),
            is_key(program_id@),
        ensures
            match r {
                Ok(p) => spec_execute_trade(
                    deployer@,
                    program_token_account@,
                    token_swap_program@,
                    token_program@,
                    swap_info@,
                    authority_info@,
                    swap_source@,
                    swap_destination@,
                    destination@,
                    pool_mint@,
                    pool_fee@,
                    program_id@,
                ) == Ok::<TradePlanV, StepError>(p@),
                Err(e) => spec_execute_trade(
                    deployer@,
                    program_token_account@,
                    token_swap_program@,
                    token_program@,
                    swap_info@,
                    authority_info@,
                    swap_source@,
                    swap_destination@,
                    destination@,
                    pool_mint@,
                    pool_fee@,
                    program_id@,
                ) == Err::<TradePlanV, StepError>(e),
            },
    {
        if !deployer.is_signer {
            return Err(StepError::MissingAuthority);
        }
        let token_program_id = spl_token_program_key();
        if !keys_equal(&token_program.key, &token_program_id) {
            return Err(StepError::AddressMismatch);
        }
        let token_seed = token_account_seed();
        let (custody_pda, custody_bump) = match derive_address(&token_seed, program_id) {
            None => {
                return Err(StepError::AddressMismatch);
            },
            Some(p) => p,
        };
        if !keys_equal(&custody_pda, &program_token_account.key) {
            return Err(StepError::AddressMismatch);
        }
        let approve = ApproveRequest {
            source: copy_key(&program_token_account.key),
            delegate: copy_key(&token_swap_program.key),
            owner: copy_key(&custody_pda),
            amount: TRADE_AMOUNT,
        };
        let swap = SwapRequest {
            swap_program: copy_key(&token_swap_program.key),
            token_program: copy_key(&token_program.key),
            swap_venue: copy_key(&swap_info.key),
            venue_authority: copy_key(&authority_info.key),
            user_transfer_authority: custody_pda,
            source: copy_key(&program_token_account.key),
            swap_source: copy_key(&swap_source.key),
            swap_destination: copy_key(&swap_destination.key),
            destination: copy_key(&destination.key),
            pool_mint: copy_key(&pool_mint.key),
            pool_fee: copy_key(&pool_fee.key),
            amount_in: TRADE_AMOUNT,
            minimum_amount_out: TRADE_MINIMUM_OUT,
        };
        let plan = TradePlan {
            approve,
            swap,
            authority_seed: token_seed,
            authority_bump: custody_bump,
        };
        proof {
            assert(spec_execute_trade(
                deployer@,
                program_token_account@,
                token_swap_program@,
                token_program@,
                swap_info@,
                authority_info@,
                swap_source@,
                swap_destination@,
                destination@,
                pool_mint@,
                pool_fee@,
                program_id@,
            ) =~= Ok::<TradePlanV, StepError>(plan@));
        }
        Ok(plan)
    }
}

// ---------------------------------------------------------------------------
// Dispatch
// ---------------------------------------------------------------------------

/// The planned effects of one instruction, by operation.
#[derive(Debug)]
pub enum Effects {
    InitProgram(InitProgramPlan),
    InitPool(InitPoolPlan),
    Deposit(DepositPlan),
    CreateStream(CreateStreamPlan),
    Execute(TradePlan),
}

/// Mathematical value of [`Effects`].
#[verifier::ext_equal]
pub enum EffectsV {
    InitProgram(InitProgramPlanV),
    InitPool(InitPoolPlanV),
    Deposit(DepositPlanV),
    CreateStream(CreateStreamPlanV),
    Execute(TradePlanV),
}

impl View for Effects {
    type V = EffectsV;

    open spec fn view(&self) -> EffectsV {
        match self {
            Effects::InitProgram(p) => EffectsV::InitProgram(p@),
            Effects::InitPool(p) => EffectsV::InitPool(p@),
            Effects::Deposit(p) => EffectsV::Deposit(p@),
            Effects::CreateStream(p) => EffectsV::CreateStream(p@),
            Effects::Execute(p) => EffectsV::Execute(p@),
        }
    }
}

/// Outcome of one instruction: decode the opcode, bind the handles by
/// position, and hand off to the operation. A handle list shorter than the
/// operation's positional contract is a caller error.
pub open spec fn spec_process(
    program_id: Seq<u8>,
    accounts: Seq<AccountHandle>,
    data: Seq<u8>,
    rent: RentParams,
) -> Result<EffectsV, StepError> {
    match crate::instruction::spec_unpack(data) {
        Err(e) => Err(e),
        Ok(instr) => match instr {
            StepInstructionV::InitProgram => if accounts.len() < 4 {
                Err(StepError::MalformedInstruction)
            } else {
                match spec_init_program(
                    accounts[0]@,
                    accounts[1]@,
                    program_id,
                    rent.state_account_lamports,
                ) {
                    Ok(p) => Ok(EffectsV::InitProgram(p)),
                    Err(e) => Err(e),
                }
            },
            StepInstructionV::InitPool { pda_seed } => if accounts.len() < 8 {
                Err(StepError::MalformedInstruction)
            } else {
                match spec_init_pool(
                    accounts[0]@,
                    accounts[1]@,
                    accounts[2]@,
                    accounts[3]@,
                    accounts[4]@,
                    program_id,
                    pda_seed,
                    rent.token_account_lamports,
                    rent.pool_account_lamports,
                ) {
                    Ok(p) => Ok(EffectsV::InitPool(p)),
                    Err(e) => Err(e),
                }
            },
            StepInstructionV::Deposit { amount } => if accounts.len() < 6 {
                Err(StepError::MalformedInstruction)
            } else {
                let tail = if accounts.len() >= 7 {
                    Some(accounts[6]@)
                } else {
                    None
                };
                match spec_deposit(
                    accounts[0]@,
                    accounts[1]@,
                    accounts[2]@,
                    accounts[3]@,
                    accounts[4]@,
                    accounts[5]@,
                    tail,
                    program_id,
                    amount,
                ) {
                    Ok(p) => Ok(EffectsV::Deposit(p)),
                    Err(e) => Err(e),
                }
            },
            StepInstructionV::CreateStream {
                input_token_pubkey,
                output_token_pubkey,
                interval_days,
                amount,
            } => if accounts.len() < 4 {
                Err(StepError::MalformedInstruction)
            } else {
                let tail = if accounts.len() >= 5 {
                    Some(accounts[4]@)
                } else {
                    None
                };
                match spec_create_stream(
                    accounts[0]@,
                    accounts[1]@,
                    accounts[3]@,
                    tail,
                    input_token_pubkey,
                    output_token_pubkey,
                    interval_days,
                    amount,
                ) {
                    Ok(p) => Ok(EffectsV::CreateStream(p)),
                    Err(e) => Err(e),
                }
            },
            StepInstructionV::Execute { pda_seed } => if accounts.len() < 12 {
                Err(StepError::MalformedInstruction)
            } else {
                match spec_execute_trade(
                    accounts[0]@,
                    accounts[1]@,
                    accounts[2]@,
                    accounts[3]@,
                    accounts[5]@,
                    accounts[6]@,
                    accounts[7]@,
                    accounts[8]@,
                    accounts[9]@,
                    accounts[10]@,
                    accounts[11]@,
                    program_id,
                ) {
                    Ok(p) => Ok(EffectsV::Execute(p)),
                    Err(e) => Err(e),
                }
            },
        },
    }
}

impl Processor {
    /// Decodes one instruction, authenticates its handles, and returns the
    /// planned effects; any failure returns the error with no effect.
    pub fn process(
        program_id: &PubkeyData,
        accounts: &Vec<AccountHandle>,
        instruction_data: &[u8],
        rent: &RentParams,
    ) -> (r: Result<Effects, StepError>)
        requires
            is_key(program_id@),
            forall|i: int| 0 <= i < accounts@.len() ==> (#[trigger] accounts@[i]).wf(),
        ensures
            match r {
                Ok(eff) => spec_process(program_id@, accounts@, instruction_data@, *rent) == Ok::<
                    EffectsV,
                    StepError,
                >(eff@),
                Err(e) => spec_process(program_id@, accounts@, instruction_data@, *rent) == Err::<
                    EffectsV,
                    StepError,
                >(e),
            },
    {
        let instr = match StepInstruction::unpack(instruction_data) {
            Err(e) => {
                return Err(e);
            },
            Ok(i) => i,
        };
        match instr {
            StepInstruction::InitProgram {  } => {
                if accounts.len() < 4 {
                    return Err(StepError::MalformedInstruction);
                }
                match Self::process_init_program(
                    &accounts[0],
                    &accounts[1],
                    program_id,
                    rent.state_account_lamports,
                ) {
                    Ok(p) => Ok(Effects::InitProgram(p)),
                    Err(e) => Err(e),
                }
            },
            StepInstruction::InitPool { pda_seed } => {
                if accounts.len() < 8 {
                    return Err(StepError::MalformedInstruction);
                }
                match Self::process_init_pool(
                    &accounts[0],
                    &accounts[1],
                    &accounts[2],
                    &accounts[3],
                    &accounts[4],
                    program_id,
                    &pda_seed,
                    rent.token_account_lamports,
                    rent.pool_account_lamports,
                ) {
                    Ok(p) => Ok(Effects::InitPool(p)),
                    Err(e) => Err(e),
                }
            },
            StepInstruction::Deposit { amount } => {
                if accounts.len() < 6 {
                    return Err(StepError::MalformedInstruction);
                }
                let tail = if accounts.len() >= 7 {
                    Some(&accounts[6])
                } else {
                    None
                };
                match Self::process_deposit(
                    &accounts[0],
                    &accounts[1],
                    &accounts[2],
                    &accounts[3],
                    &accounts[4],
                    &accounts[5],
                    tail,
                    program_id,
                    amount,
                ) {
                    Ok(p) => Ok(Effects::Deposit(p)),
                    Err(e) => Err(e),
                }
            },
            StepInstruction::CreateStream {
                input_token_pubkey,
                output_token_pubkey,
                interval_days,
                amount,
            } => {
                if accounts.len() < 4 {
                    return Err(StepError::MalformedInstruction);
                }
                let tail = if accounts.len() >= 5 {
                    Some(&accounts[4])
                } else {
                    None
                };
                match Self::process_create_stream(
                    &accounts[0],
                    &accounts[1],
                    &accounts[3],
                    tail,
                    &input_token_pubkey,
                    &output_token_pubkey,
                    interval_days,
                    amount,
                ) {
                    Ok(p) => Ok(Effects::CreateStream(p)),
                    Err(e) => Err(e),
                }
            },
            StepInstruction::Execute { pda_seed: _ } => {
                if accounts.len() < 12 {
                    return Err(StepError::MalformedInstruction);
                }
                match Self::process_trade(
                    &accounts[0],
                    &accounts[1],
                    &accounts[2],
                    &accounts[3],
                    &accounts[5],
                    &accounts[6],
                    &accounts[7],
                    &accounts[8],
                    &accounts[9],
                    &accounts[10],
                    &accounts[11],
                    program_id,
                ) {
                    Ok(p) => Ok(Effects::Execute(p)),
                    Err(e) => Err(e),
                }
            },
        }
    }
}

} // verus!
