use solana_program::pubkey::Pubkey;
use solana_program::system_instruction;
use step_dca::accounts::AccountHandle;
use step_dca::error::StepError;
use step_dca::processor::{
    Processor, PROGRAM_STATE_SEED, TOKEN_ACCOUNT_SEED, TRADE_AMOUNT, TRADE_MINIMUM_OUT,
};
use step_dca::state::{Pool, StepProgramState, Stream, UserAccount, POOL_LEN};

fn key(b: u8) -> Vec<u8> {
    vec![b; 32]
}

fn pk(v: &[u8]) -> Pubkey {
    Pubkey::try_from(v).unwrap()
}

fn pda(seed: &[u8], program_id: &[u8]) -> (Vec<u8>, u8) {
    let (addr, bump) = Pubkey::find_program_address(&[seed], &pk(program_id));
    (addr.to_bytes().to_vec(), bump)
}

fn handle(key: Vec<u8>, is_signer: bool, owner: Vec<u8>, data: Vec<u8>) -> AccountHandle {
    AccountHandle { key, is_signer, owner, data }
}

fn spl_id_bytes() -> Vec<u8> {
    spl_token::id().to_bytes().to_vec()
}

#[test]
fn derive_address_matches_runtime_derivation() {
    let program_id = key(31);
    let seed = TOKEN_ACCOUNT_SEED.to_vec();
    let (expected, expected_bump) = pda(&seed, &program_id);
    let (got, bump) = step_dca::cpi::derive_address(&seed, &program_id).unwrap();
    assert_eq!(got, expected);
    assert_eq!(bump, expected_bump);
    assert_ne!(got, seed);
    assert_ne!(got, program_id);
}

#[test]
fn token_program_key_is_the_token_service() {
    assert_eq!(step_dca::cpi::spl_token_program_key(), spl_id_bytes());
}

#[test]
fn init_program_creates_singleton() {
    let program_id = key(31);
    let (state_addr, bump) = pda(&PROGRAM_STATE_SEED, &program_id);
    let deployer = handle(key(1), true, key(0), vec![]);
    let state = handle(state_addr.clone(), false, key(0), vec![]);
    let plan = Processor::process_init_program(&deployer, &state, &program_id, 890880).unwrap();
    assert_eq!(plan.state_seed, PROGRAM_STATE_SEED.to_vec());
    assert_eq!(plan.state_bump, bump);
    assert_eq!(plan.state_write.target, state_addr);
    let rec = StepProgramState::unpack_from_slice(plan.state_write.record.as_slice()).unwrap();
    assert!(rec.is_initialized);
    assert_eq!(rec.deployer_pubkey, key(1));
    assert_eq!(plan.create_state_account.funder, key(1));
    assert_eq!(plan.create_state_account.new_account, state_addr);
    assert_eq!(plan.create_state_account.lamports, 890880);
    assert_eq!(plan.create_state_account.space, 33);
    assert_eq!(plan.create_state_account.owner, program_id);
    let expected_create = system_instruction::create_account(
        &pk(&key(1)),
        &pk(&state_addr),
        890880,
        33,
        &pk(&program_id),
    );
    assert_eq!(plan.create_state_account.instruction(), expected_create);
}

#[test]
fn init_program_wrong_address_fails() {
    let program_id = key(31);
    let deployer = handle(key(1), true, key(0), vec![]);
    let state = handle(key(2), false, key(0), vec![]);
    assert_eq!(
        Processor::process_init_program(&deployer, &state, &program_id, 1).unwrap_err(),
        StepError::AddressMismatch
    );
}

#[test]
fn init_program_unsigned_fails() {
    let program_id = key(31);
    let (state_addr, _) = pda(&PROGRAM_STATE_SEED, &program_id);
    let deployer = handle(key(1), false, key(0), vec![]);
    let state = handle(state_addr, false, key(0), vec![]);
    assert_eq!(
        Processor::process_init_program(&deployer, &state, &program_id, 1).unwrap_err(),
        StepError::MissingAuthority
    );
}

#[test]
fn init_program_twice_fails() {
    let program_id = key(31);
    let (state_addr, _) = pda(&PROGRAM_STATE_SEED, &program_id);
    let deployer = handle(key(1), true, key(0), vec![]);
    let state = handle(state_addr.clone(), false, key(0), vec![]);
    let plan = Processor::process_init_program(&deployer, &state, &program_id, 1).unwrap();
    let state2 = handle(state_addr, false, key(0), plan.state_write.record);
    assert_eq!(
        Processor::process_init_program(&deployer, &state2, &program_id, 1).unwrap_err(),
        StepError::AlreadyInitialized
    );
}

fn state_record_data(deployer: u8) -> Vec<u8> {
    StepProgramState { is_initialized: true, deployer_pubkey: key(deployer) }.encode()
}

fn init_pool_fixture(
    program_id: &[u8],
    seed: &[u8],
) -> (AccountHandle, AccountHandle, AccountHandle, AccountHandle, AccountHandle) {
    let (state_addr, _) = pda(&PROGRAM_STATE_SEED, program_id);
    let (pool_addr, _) = pda(seed, program_id);
    let (token_addr, _) = pda(&TOKEN_ACCOUNT_SEED, program_id);
    let deployer = handle(key(1), true, key(0), vec![]);
    let state = handle(state_addr, false, key(0), state_record_data(1));
    let pool = handle(pool_addr, false, key(0), vec![]);
    let token = handle(token_addr, false, key(0), vec![]);
    let mint = handle(key(11), false, spl_id_bytes(), vec![]);
    (deployer, state, pool, token, mint)
}

#[test]
fn init_pool_creates_pool_and_custody() {
    let program_id = key(31);
    let seed = key(42);
    let (deployer, state, pool, token, mint) = init_pool_fixture(&program_id, &seed);
    let plan = Processor::process_init_pool(
        &deployer, &state, &pool, &token, &mint, &program_id, &seed, 2039280, 1566000,
    )
    .unwrap();
    let rec = Pool::unpack_from_slice(plan.pool_write.record.as_slice()).unwrap();
    assert!(rec.is_initialized);
    assert_eq!(rec.mint_pubkey, key(11));
    assert_eq!(rec.pda_seed, seed);
    assert_eq!(rec.head_user, key(0));
    assert_eq!(plan.pool_write.target, pool.key);
    assert_eq!(plan.token_account, token.key);
    assert_eq!(plan.create_token_account.funder, deployer.key);
    assert_eq!(plan.create_token_account.new_account, token.key);
    assert_eq!(plan.create_token_account.lamports, 2039280);
    assert_eq!(plan.create_token_account.space, 165);
    assert_eq!(plan.create_token_account.owner, spl_id_bytes());
    let expected_create_token = system_instruction::create_account(
        &pk(&deployer.key),
        &pk(&token.key),
        2039280,
        165,
        &spl_token::id(),
    );
    assert_eq!(plan.create_token_account.instruction(), expected_create_token);
    assert_eq!(plan.initialize_token_account.account, token.key);
    assert_eq!(plan.initialize_token_account.mint, mint.key);
    assert_eq!(plan.initialize_token_account.owner, token.key);
    let expected_init_token = spl_token::instruction::initialize_account(
        &spl_token::id(),
        &pk(&token.key),
        &pk(&mint.key),
        &pk(&token.key),
    )
    .unwrap();
    assert_eq!(plan.initialize_token_account.instruction(), expected_init_token);
    assert_eq!(plan.create_pool_account.funder, deployer.key);
    assert_eq!(plan.create_pool_account.new_account, pool.key);
    assert_eq!(plan.create_pool_account.lamports, 1566000);
    assert_eq!(plan.create_pool_account.space, POOL_LEN as u64);
    assert_eq!(plan.create_pool_account.owner, program_id);
    let expected_create_pool = system_instruction::create_account(
        &pk(&deployer.key),
        &pk(&pool.key),
        1566000,
        POOL_LEN as u64,
        &pk(&program_id),
    );
    assert_eq!(plan.create_pool_account.instruction(), expected_create_pool);
}

#[test]
fn init_pool_wrong_pool_address_fails() {
    let program_id = key(31);
    let seed = key(42);
    let (deployer, state, _, token, mint) = init_pool_fixture(&program_id, &seed);
    let bogus_pool = handle(key(13), false, key(0), vec![]);
    assert_eq!(
        Processor::process_init_pool(
            &deployer, &state, &bogus_pool, &token, &mint, &program_id, &seed, 1, 1,
        )
        .unwrap_err(),
        StepError::AddressMismatch
    );
}

#[test]
fn init_pool_wrong_deployer_fails() {
    let program_id = key(31);
    let seed = key(42);
    let (_, state, pool, token, mint) = init_pool_fixture(&program_id, &seed);
    let imposter = handle(key(2), true, key(0), vec![]);
    assert_eq!(
        Processor::process_init_pool(
            &imposter, &state, &pool, &token, &mint, &program_id, &seed, 1, 1,
        )
        .unwrap_err(),
        StepError::MissingAuthority
    );
}

#[test]
fn init_pool_twice_fails() {
    let program_id = key(31);
    let seed = key(42);
    let (deployer, state, pool, token, mint) = init_pool_fixture(&program_id, &seed);
    let plan = Processor::process_init_pool(
        &deployer, &state, &pool, &token, &mint, &program_id, &seed, 1, 1,
    )
    .unwrap();
    let pool2 = handle(pool.key.clone(), false, key(0), plan.pool_write.record);
    assert_eq!(
        Processor::process_init_pool(
            &deployer, &state, &pool2, &token, &mint, &program_id, &seed, 1, 1,
        )
        .unwrap_err(),
        StepError::AlreadyInitialized
    );
}

fn pool_record_data(seed: &[u8], head_user: Vec<u8>) -> Vec<u8> {
    Pool {
        is_initialized: true,
        mint_pubkey: key(11),
        pda_seed: seed.to_vec(),
        head_user,
    }
    .encode()
}

fn deposit_fixture(
    program_id: &[u8],
    seed: &[u8],
    head_user: Vec<u8>,
    user_data: Vec<u8>,
) -> (AccountHandle, AccountHandle, AccountHandle, AccountHandle, AccountHandle, AccountHandle) {
    let (pool_addr, _) = pda(seed, program_id);
    let (custody_addr, _) = pda(&TOKEN_ACCOUNT_SEED, program_id);
    let depositor = handle(key(21), true, key(0), vec![]);
    let depositor_token = handle(key(22), false, spl_id_bytes(), vec![]);
    let user_account = handle(key(23), false, key(0), user_data);
    let pool = handle(pool_addr, false, key(0), pool_record_data(seed, head_user));
    let custody = handle(custody_addr, false, spl_id_bytes(), vec![]);
    let token_program = handle(spl_id_bytes(), false, key(0), vec![]);
    (depositor, depositor_token, user_account, pool, custody, token_program)
}

#[test]
fn deposit_unsigned_fails_and_changes_nothing() {
    let program_id = key(31);
    let seed = key(42);
    let (mut depositor, dt, ua, pool, custody, tp) =
        deposit_fixture(&program_id, &seed, key(0), vec![]);
    depositor.is_signer = false;
    let r = Processor::process_deposit(
        &depositor, &dt, &ua, &pool, &custody, &tp, None, &program_id, 100,
    );
    assert_eq!(r.unwrap_err(), StepError::MissingAuthority);
}

#[test]
fn deposit_zero_amount_fails() {
    let program_id = key(31);
    let seed = key(42);
    let (depositor, dt, ua, pool, custody, tp) =
        deposit_fixture(&program_id, &seed, key(0), vec![]);
    let r = Processor::process_deposit(
        &depositor, &dt, &ua, &pool, &custody, &tp, None, &program_id, 0,
    );
    assert_eq!(r.unwrap_err(), StepError::InvalidAmount);
}

#[test]
fn first_deposit_sets_pool_head() {
    let program_id = key(31);
    let seed = key(42);
    let (depositor, dt, ua, pool, custody, tp) =
        deposit_fixture(&program_id, &seed, key(0), vec![]);
    let plan = Processor::process_deposit(
        &depositor, &dt, &ua, &pool, &custody, &tp, None, &program_id, 100,
    )
    .unwrap();
    let new_pool =
        Pool::unpack_from_slice(plan.pool_write.as_ref().unwrap().record.as_slice()).unwrap();
    assert_eq!(new_pool.head_user, ua.key);
    assert!(plan.tail_user_write.is_none());
    let user = UserAccount::unpack_from_slice(plan.user_write.record.as_slice()).unwrap();
    assert_eq!(user.balance, 100);
    assert_eq!(user.next_user, key(0));
    assert_eq!(plan.transfer.source, dt.key);
    assert_eq!(plan.transfer.destination, custody.key);
    assert_eq!(plan.transfer.authority, depositor.key);
    assert_eq!(plan.transfer.amount, 100);
    let expected_transfer = spl_token::instruction::transfer(
        &spl_token::id(),
        &pk(&dt.key),
        &pk(&custody.key),
        &pk(&depositor.key),
        &[&pk(&depositor.key)],
        100,
    )
    .unwrap();
    assert_eq!(plan.transfer.instruction(), expected_transfer);
}

#[test]
fn repeat_deposit_accumulates_balance() {
    let program_id = key(31);
    let seed = key(42);
    let existing = UserAccount { balance: 100, next_user: key(0), head_stream: key(0) };
    // A linked user: the pool's head already points at this user record.
    let (depositor, dt, ua, pool, custody, tp) =
        deposit_fixture(&program_id, &seed, key(23), existing.encode());
    let plan = Processor::process_deposit(
        &depositor, &dt, &ua, &pool, &custody, &tp, None, &program_id, 50,
    )
    .unwrap();
    assert!(plan.pool_write.is_none());
    assert!(plan.tail_user_write.is_none());
    let user = UserAccount::unpack_from_slice(plan.user_write.record.as_slice()).unwrap();
    assert_eq!(user.balance, 150);
}

#[test]
fn new_user_is_appended_behind_tail() {
    let program_id = key(31);
    let seed = key(42);
    let (depositor, dt, ua, pool, custody, tp) =
        deposit_fixture(&program_id, &seed, key(51), vec![]);
    let tail_record = UserAccount { balance: 7, next_user: key(0), head_stream: key(0) };
    let tail = handle(key(51), false, key(0), tail_record.encode());
    let plan = Processor::process_deposit(
        &depositor, &dt, &ua, &pool, &custody, &tp, Some(&tail), &program_id, 100,
    )
    .unwrap();
    assert!(plan.pool_write.is_none());
    let tw = plan.tail_user_write.unwrap();
    assert_eq!(tw.target, key(51));
    let new_tail = UserAccount::unpack_from_slice(tw.record.as_slice()).unwrap();
    assert_eq!(new_tail.balance, 7);
    assert_eq!(new_tail.next_user, ua.key);
}

#[test]
fn new_user_without_tail_handle_fails() {
    let program_id = key(31);
    let seed = key(42);
    let (depositor, dt, ua, pool, custody, tp) =
        deposit_fixture(&program_id, &seed, key(51), vec![]);
    let r = Processor::process_deposit(
        &depositor, &dt, &ua, &pool, &custody, &tp, None, &program_id, 100,
    );
    assert_eq!(r.unwrap_err(), StepError::MalformedInstruction);
}

#[test]
fn deposit_overflow_fails() {
    let program_id = key(31);
    let seed = key(42);
    let existing = UserAccount { balance: u64::MAX - 10, next_user: key(0), head_stream: key(0) };
    let (depositor, dt, ua, pool, custody, tp) =
        deposit_fixture(&program_id, &seed, key(23), existing.encode());
    let r = Processor::process_deposit(
        &depositor, &dt, &ua, &pool, &custody, &tp, None, &program_id, 11,
    );
    assert_eq!(r.unwrap_err(), StepError::InvalidAmount);
}

#[test]
fn deposit_wrong_pool_address_fails() {
    let program_id = key(31);
    let seed = key(42);
    let (depositor, dt, ua, _, custody, tp) = deposit_fixture(&program_id, &seed, key(0), vec![]);
    let bogus_pool = handle(key(13), false, key(0), pool_record_data(&seed, key(0)));
    let r = Processor::process_deposit(
        &depositor, &dt, &ua, &bogus_pool, &custody, &tp, None, &program_id, 100,
    );
    assert_eq!(r.unwrap_err(), StepError::AddressMismatch);
}

fn user_record(balance: u64, head_stream: Vec<u8>) -> Vec<u8> {
    UserAccount { balance, next_user: key(0), head_stream }.encode()
}

#[test]
fn first_stream_becomes_head() {
    let user = handle(key(21), true, key(0), vec![]);
    let user_account = handle(key(23), false, key(0), user_record(100, key(0)));
    let new_stream = handle(key(61), false, key(0), vec![]);
    let plan = Processor::process_create_stream(
        &user, &user_account, &new_stream, None, &key(11), &key(12), 86400, 10,
    )
    .unwrap();
    let uw = plan.user_write.unwrap();
    assert_eq!(uw.target, key(23));
    let updated = UserAccount::unpack_from_slice(uw.record.as_slice()).unwrap();
    assert_eq!(updated.head_stream, key(61));
    assert_eq!(updated.balance, 100);
    assert!(plan.tail_stream_write.is_none());
    assert_eq!(plan.stream_write.target, key(61));
    let s = Stream::unpack_from_slice(plan.stream_write.record.as_slice()).unwrap();
    assert_eq!(s.input_token_pubkey, key(11));
    assert_eq!(s.output_token_pubkey, key(12));
    assert_eq!(s.next_stream, key(0));
    assert_eq!(s.interval_days, 86400);
    assert_eq!(s.amount, 10);
}

#[test]
fn second_stream_relinks_tail() {
    let user = handle(key(21), true, key(0), vec![]);
    let user_account = handle(key(23), false, key(0), user_record(100, key(61)));
    let new_stream = handle(key(62), false, key(0), vec![]);
    let tail_record = Stream {
        input_token_pubkey: key(11),
        output_token_pubkey: key(12),
        next_stream: key(0),
        interval_days: 86400,
        amount: 10,
    };
    let tail = handle(key(61), false, key(0), tail_record.encode());
    let plan = Processor::process_create_stream(
        &user, &user_account, &new_stream, Some(&tail), &key(11), &key(12), 3600, 5,
    )
    .unwrap();
    assert!(plan.user_write.is_none());
    let tw = plan.tail_stream_write.unwrap();
    assert_eq!(tw.target, key(61));
    let relinked = Stream::unpack_from_slice(tw.record.as_slice()).unwrap();
    assert_eq!(relinked.next_stream, key(62));
    assert_eq!(relinked.interval_days, 86400);
    assert_eq!(relinked.amount, 10);
}

#[test]
fn create_stream_unsigned_fails() {
    let user = handle(key(21), false, key(0), vec![]);
    let user_account = handle(key(23), false, key(0), user_record(100, key(0)));
    let new_stream = handle(key(61), false, key(0), vec![]);
    let r = Processor::process_create_stream(
        &user, &user_account, &new_stream, None, &key(11), &key(12), 86400, 10,
    );
    assert_eq!(r.unwrap_err(), StepError::MissingAuthority);
}

#[test]
fn create_stream_nonpositive_interval_fails() {
    let user = handle(key(21), true, key(0), vec![]);
    let user_account = handle(key(23), false, key(0), user_record(100, key(0)));
    let new_stream = handle(key(61), false, key(0), vec![]);
    let r = Processor::process_create_stream(
        &user, &user_account, &new_stream, None, &key(11), &key(12), 0, 10,
    );
    assert_eq!(r.unwrap_err(), StepError::InvalidAmount);
}

#[test]
fn create_stream_into_occupied_slot_fails() {
    let user = handle(key(21), true, key(0), vec![]);
    let user_account = handle(key(23), false, key(0), user_record(100, key(0)));
    let occupied = Stream {
        input_token_pubkey: key(1),
        output_token_pubkey: key(2),
        next_stream: key(0),
        interval_days: 60,
        amount: 1,
    };
    let new_stream = handle(key(61), false, key(0), occupied.encode());
    let r = Processor::process_create_stream(
        &user, &user_account, &new_stream, None, &key(11), &key(12), 86400, 10,
    );
    assert_eq!(r.unwrap_err(), StepError::AlreadyInitialized);
}

#[test]
fn trade_builds_approve_and_swap() {
    let program_id = key(31);
    let (custody_addr, _) = pda(&TOKEN_ACCOUNT_SEED, &program_id);
    let deployer = handle(key(1), true, key(0), vec![]);
    let custody = handle(custody_addr.clone(), false, spl_id_bytes(), vec![]);
    let swap_program = handle(key(71), false, key(0), vec![]);
    let token_program = handle(spl_id_bytes(), false, key(0), vec![]);
    let swap_info = handle(key(72), false, key(0), vec![]);
    let authority = handle(key(73), false, key(0), vec![]);
    let swap_source = handle(key(74), false, key(0), vec![]);
    let swap_destination = handle(key(75), false, key(0), vec![]);
    let destination = handle(key(76), false, key(0), vec![]);
    let pool_mint = handle(key(77), false, key(0), vec![]);
    let pool_fee = handle(key(78), false, key(0), vec![]);
    let plan = Processor::process_trade(
        &deployer,
        &custody,
        &swap_program,
        &token_program,
        &swap_info,
        &authority,
        &swap_source,
        &swap_destination,
        &destination,
        &pool_mint,
        &pool_fee,
        &program_id,
    )
    .unwrap();
    assert_eq!(plan.authority_seed, TOKEN_ACCOUNT_SEED.to_vec());
    assert_eq!(plan.approve.source, custody_addr);
    assert_eq!(plan.approve.delegate, swap_program.key);
    assert_eq!(plan.approve.owner, custody_addr);
    assert_eq!(plan.approve.amount, TRADE_AMOUNT);
    assert_eq!(plan.swap.source, custody_addr);
    assert_eq!(plan.swap.destination, destination.key);
    assert_eq!(plan.swap.user_transfer_authority, custody_addr);
    assert_eq!(plan.swap.swap_program, swap_program.key);
    assert_eq!(plan.swap.amount_in, TRADE_AMOUNT);
    assert_eq!(plan.swap.minimum_amount_out, TRADE_MINIMUM_OUT);
    let expected_approve = spl_token::instruction::approve(
        &spl_token::id(),
        &pk(&custody_addr),
        &pk(&swap_program.key),
        &pk(&custody_addr),
        &[],
        TRADE_AMOUNT,
    )
    .unwrap();
    assert_eq!(plan.approve.instruction(), expected_approve);
    let expected_swap = spl_token_swap::instruction::swap(
        &pk(&swap_program.key),
        &pk(&token_program.key),
        &pk(&swap_info.key),
        &pk(&authority.key),
        &pk(&custody_addr),
        &pk(&custody.key),
        &pk(&swap_source.key),
        &pk(&swap_destination.key),
        &pk(&destination.key),
        &pk(&pool_mint.key),
        &pk(&pool_fee.key),
        None,
        spl_token_swap::instruction::Swap {
            amount_in: TRADE_AMOUNT,
            minimum_amount_out: TRADE_MINIMUM_OUT,
        },
    )
    .unwrap();
    assert_eq!(plan.swap.instruction(), expected_swap);
}

#[test]
fn process_with_too_few_accounts_fails() {
    let program_id = key(31);
    let rent = step_dca::processor::RentParams {
        state_account_lamports: 1,
        token_account_lamports: 1,
        pool_account_lamports: 1,
    };
    let accounts = vec![handle(key(1), true, key(0), vec![])];
    let r = Processor::process(&program_id, &accounts, &[0u8], &rent);
    assert_eq!(r.unwrap_err(), StepError::MalformedInstruction);
}

#[test]
fn trade_wrong_custody_address_fails() {
    let program_id = key(31);
    let deployer = handle(key(1), true, key(0), vec![]);
    let custody = handle(key(99), false, spl_id_bytes(), vec![]);
    let other = handle(key(70), false, key(0), vec![]);
    let token_program = handle(spl_id_bytes(), false, key(0), vec![]);
    let r = Processor::process_trade(
        &deployer,
        &custody,
        &other,
        &token_program,
        &other,
        &other,
        &other,
        &other,
        &other,
        &other,
        &other,
        &program_id,
    );
    assert_eq!(r.unwrap_err(), StepError::AddressMismatch);
}
