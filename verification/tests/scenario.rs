use std::collections::HashMap;

use solana_program::pubkey::Pubkey;
use step_dca::accounts::AccountHandle;
use step_dca::processor::{Effects, Processor, RentParams, PROGRAM_STATE_SEED, TOKEN_ACCOUNT_SEED};
use step_dca::state::{Pool, Stream, UserAccount};

fn key(b: u8) -> Vec<u8> {
    vec![b; 32]
}

fn pda(seed: &[u8], program_id: &[u8]) -> Vec<u8> {
    let (addr, _) = Pubkey::find_program_address(&[seed], &Pubkey::try_from(program_id).unwrap());
    addr.to_bytes().to_vec()
}

/// The storage slots, keyed by address, as the environment would persist them
/// between instructions.
struct Store {
    slots: HashMap<Vec<u8>, Vec<u8>>,
}

impl Store {
    fn new() -> Store {
        Store { slots: HashMap::new() }
    }

    fn read(&self, k: &[u8]) -> Vec<u8> {
        self.slots.get(k).cloned().unwrap_or_default()
    }

    fn handle(&self, k: Vec<u8>, signer: bool, owner: Vec<u8>) -> AccountHandle {
        let data = self.read(&k);
        AccountHandle { key: k, is_signer: signer, owner, data }
    }

    fn apply(&mut self, effects: Effects) {
        match effects {
            Effects::InitProgram(p) => {
                self.slots.insert(p.state_write.target, p.state_write.record);
            }
            Effects::InitPool(p) => {
                self.slots.insert(p.pool_write.target, p.pool_write.record);
            }
            Effects::Deposit(p) => {
                if let Some(w) = p.pool_write {
                    self.slots.insert(w.target, w.record);
                }
                if let Some(w) = p.tail_user_write {
                    self.slots.insert(w.target, w.record);
                }
                self.slots.insert(p.user_write.target, p.user_write.record);
            }
            Effects::CreateStream(p) => {
                if let Some(w) = p.user_write {
                    self.slots.insert(w.target, w.record);
                }
                if let Some(w) = p.tail_stream_write {
                    self.slots.insert(w.target, w.record);
                }
                self.slots.insert(p.stream_write.target, p.stream_write.record);
            }
            Effects::Execute(_) => {}
        }
    }
}

#[test]
fn end_to_end_pool_lifecycle() {
    let program_id = key(31);
    let rent = RentParams {
        state_account_lamports: 1,
        token_account_lamports: 1,
        pool_account_lamports: 1,
    };
    let spl = spl_token::id().to_bytes().to_vec();
    let seed = key(42);
    let mint_m = key(11);
    let asset_n = key(12);
    let state_addr = pda(&PROGRAM_STATE_SEED, &program_id);
    let pool_addr = pda(&seed, &program_id);
    let custody_addr = pda(&TOKEN_ACCOUNT_SEED, &program_id);
    let deployer = key(1);
    let user = key(21);
    let user_token = key(22);
    let user_account_addr = key(23);
    let stream_addr = key(61);
    let mut store = Store::new();

    // InitializeProgram: creates the singleton.
    let accounts = vec![
        store.handle(deployer.clone(), true, key(0)),
        store.handle(state_addr.clone(), false, key(0)),
        store.handle(key(90), false, key(0)),
        store.handle(key(91), false, key(0)),
    ];
    let eff = Processor::process(&program_id, &accounts, &[0u8], &rent).unwrap();
    store.apply(eff);

    // InitializePool(seed, asset M): creates Pool with a null user list.
    let mut data = vec![1u8];
    data.extend_from_slice(&seed);
    let accounts = vec![
        store.handle(deployer.clone(), true, key(0)),
        store.handle(state_addr.clone(), false, key(0)),
        store.handle(pool_addr.clone(), false, key(0)),
        store.handle(custody_addr.clone(), false, key(0)),
        store.handle(mint_m.clone(), false, spl.clone()),
        store.handle(key(90), false, key(0)),
        store.handle(spl.clone(), false, key(0)),
        store.handle(key(91), false, key(0)),
    ];
    let eff = Processor::process(&program_id, &accounts, data.as_slice(), &rent).unwrap();
    store.apply(eff);
    let pool = Pool::unpack_from_slice(store.read(&pool_addr).as_slice()).unwrap();
    assert!(pool.is_initialized);
    assert_eq!(pool.head_user, key(0));

    // Deposit(100) from the user: creates their account, sets the pool head.
    let mut data = vec![2u8];
    data.extend_from_slice(&100u64.to_le_bytes());
    let accounts = vec![
        store.handle(user.clone(), true, key(0)),
        store.handle(user_token.clone(), false, spl.clone()),
        store.handle(user_account_addr.clone(), false, key(0)),
        store.handle(pool_addr.clone(), false, key(0)),
        store.handle(custody_addr.clone(), false, spl.clone()),
        store.handle(spl.clone(), false, key(0)),
    ];
    let eff = Processor::process(&program_id, &accounts, data.as_slice(), &rent).unwrap();
    store.apply(eff);
    let pool = Pool::unpack_from_slice(store.read(&pool_addr).as_slice()).unwrap();
    assert_eq!(pool.head_user, user_account_addr);
    let ua = UserAccount::unpack_from_slice(store.read(&user_account_addr).as_slice()).unwrap();
    assert_eq!(ua.balance, 100);

    // CreateStream(M -> N, every 86400 seconds, 10 per execution).
    let mut data = vec![3u8];
    data.extend_from_slice(&mint_m);
    data.extend_from_slice(&asset_n);
    data.extend_from_slice(&86400i64.to_le_bytes());
    data.extend_from_slice(&10u64.to_le_bytes());
    let accounts = vec![
        store.handle(user.clone(), true, key(0)),
        store.handle(user_account_addr.clone(), false, key(0)),
        store.handle(pool_addr.clone(), false, key(0)),
        store.handle(stream_addr.clone(), false, key(0)),
    ];
    let eff = Processor::process(&program_id, &accounts, data.as_slice(), &rent).unwrap();
    store.apply(eff);
    let ua = UserAccount::unpack_from_slice(store.read(&user_account_addr).as_slice()).unwrap();
    assert_eq!(ua.head_stream, stream_addr);
    let s = Stream::unpack_from_slice(store.read(&stream_addr).as_slice()).unwrap();
    assert_eq!(s.input_token_pubkey, mint_m);
    assert_eq!(s.output_token_pubkey, asset_n);
    assert_eq!(s.next_stream, key(0));
    assert_eq!(s.interval_days, 86400);
    assert_eq!(s.amount, 10);

    // A second Deposit(50) accumulates; head pointers stay put.
    let mut data = vec![2u8];
    data.extend_from_slice(&50u64.to_le_bytes());
    let accounts = vec![
        store.handle(user.clone(), true, key(0)),
        store.handle(user_token.clone(), false, spl.clone()),
        store.handle(user_account_addr.clone(), false, key(0)),
        store.handle(pool_addr.clone(), false, key(0)),
        store.handle(custody_addr.clone(), false, spl.clone()),
        store.handle(spl.clone(), false, key(0)),
    ];
    let eff = Processor::process(&program_id, &accounts, data.as_slice(), &rent).unwrap();
    store.apply(eff);
    let ua = UserAccount::unpack_from_slice(store.read(&user_account_addr).as_slice()).unwrap();
    assert_eq!(ua.balance, 150);
    assert_eq!(ua.head_stream, stream_addr);
    let pool = Pool::unpack_from_slice(store.read(&pool_addr).as_slice()).unwrap();
    assert_eq!(pool.head_user, user_account_addr);
}

#[test]
fn deposits_conserve_custody() {
    let program_id = key(31);
    let rent = RentParams {
        state_account_lamports: 1,
        token_account_lamports: 1,
        pool_account_lamports: 1,
    };
    let spl = spl_token::id().to_bytes().to_vec();
    let seed = key(42);
    let pool_addr = pda(&seed, &program_id);
    let custody_addr = pda(&TOKEN_ACCOUNT_SEED, &program_id);
    let mut store = Store::new();
    store.slots.insert(
        pool_addr.clone(),
        Pool {
            is_initialized: true,
            mint_pubkey: key(11),
            pda_seed: seed.clone(),
            head_user: key(0),
        }
        .encode(),
    );
    // Each successful deposit moves its amount into custody; the sum of all
    // user balances stays equal to the custody balance.
    let mut custody_balance: u64 = 0;
    let deposits: [(u8, u8, u64); 5] = [
        (21, 23, 100),
        (31, 33, 40),
        (21, 23, 60),
        (41, 43, 5),
        (31, 33, 1),
    ];
    let mut known_users: Vec<Vec<u8>> = Vec::new();
    for (signer, user_slot, amount) in deposits {
        let mut data = vec![2u8];
        data.extend_from_slice(&amount.to_le_bytes());
        let mut accounts = vec![
            store.handle(key(signer), true, key(0)),
            store.handle(key(signer + 1), false, spl.clone()),
            store.handle(key(user_slot), false, key(0)),
            store.handle(pool_addr.clone(), false, key(0)),
            store.handle(custody_addr.clone(), false, spl.clone()),
            store.handle(spl.clone(), false, key(0)),
        ];
        if !known_users.contains(&key(user_slot)) && !known_users.is_empty() {
            let tail = known_users.last().unwrap().clone();
            accounts.push(store.handle(tail, false, key(0)));
        }
        let eff = Processor::process(&program_id, &accounts, data.as_slice(), &rent).unwrap();
        store.apply(eff);
        custody_balance += amount;
        if !known_users.contains(&key(user_slot)) {
            known_users.push(key(user_slot));
        }
    }
    let total: u64 = known_users
        .iter()
        .map(|u| UserAccount::unpack_from_slice(store.read(u).as_slice()).unwrap().balance)
        .sum();
    assert_eq!(total, custody_balance);
    assert_eq!(total, 206);
    // The user list is walkable and visits every depositor exactly once.
    let pool = Pool::unpack_from_slice(store.read(&pool_addr).as_slice()).unwrap();
    let mut cursor = pool.head_user;
    let mut visited = Vec::new();
    while cursor != key(0) {
        let u = UserAccount::unpack_from_slice(store.read(&cursor).as_slice()).unwrap();
        visited.push(cursor.clone());
        cursor = u.next_user;
        assert!(visited.len() <= 3, "walk does not terminate");
    }
    assert_eq!(visited, known_users);
}

#[test]
fn three_streams_walk_in_creation_order() {
    let program_id = key(31);
    let rent = RentParams {
        state_account_lamports: 1,
        token_account_lamports: 1,
        pool_account_lamports: 1,
    };
    let user = key(21);
    let user_account_addr = key(23);
    let mut store = Store::new();
    store.slots.insert(
        user_account_addr.clone(),
        UserAccount { balance: 100, next_user: key(0), head_stream: key(0) }.encode(),
    );
    let stream_addrs = [key(61), key(62), key(63)];
    for (i, addr) in stream_addrs.iter().enumerate() {
        let mut data = vec![3u8];
        data.extend_from_slice(&key(11));
        data.extend_from_slice(&key(12));
        data.extend_from_slice(&86400i64.to_le_bytes());
        data.extend_from_slice(&(10 + i as u64).to_le_bytes());
        let mut accounts = vec![
            store.handle(user.clone(), true, key(0)),
            store.handle(user_account_addr.clone(), false, key(0)),
            store.handle(key(90), false, key(0)),
            store.handle(addr.clone(), false, key(0)),
        ];
        if i > 0 {
            // The previous tail, as the registry requires.
            accounts.push(store.handle(stream_addrs[i - 1].clone(), false, key(0)));
        }
        let eff = Processor::process(&program_id, &accounts, data.as_slice(), &rent).unwrap();
        store.apply(eff);
    }
    // Walk from the head: visits the three streams in creation order and
    // terminates at the null sentinel.
    let ua = UserAccount::unpack_from_slice(store.read(&user_account_addr).as_slice()).unwrap();
    let mut cursor = ua.head_stream;
    let mut visited = Vec::new();
    while cursor != key(0) {
        let s = Stream::unpack_from_slice(store.read(&cursor).as_slice()).unwrap();
        visited.push(cursor.clone());
        cursor = s.next_stream;
        assert!(visited.len() <= 3, "walk does not terminate");
    }
    assert_eq!(visited, stream_addrs.to_vec());
}
