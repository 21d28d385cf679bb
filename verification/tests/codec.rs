use step_dca::error::StepError;
use step_dca::state::{
    Pool, StepProgramState, Stream, UserAccount, POOL_LEN, PROGRAM_STATE_LEN, STREAM_LEN,
    USER_ACCOUNT_LEN,
};

fn key(b: u8) -> Vec<u8> {
    vec![b; 32]
}

fn key_arr(b: u8) -> [u8; 32] {
    [b; 32]
}

#[test]
fn program_state_roundtrip() {
    let r = StepProgramState { is_initialized: true, deployer_pubkey: key(7) };
    let bytes = r.encode();
    assert_eq!(bytes.len(), PROGRAM_STATE_LEN);
    let back = StepProgramState::unpack_from_slice(bytes.as_slice()).unwrap();
    assert_eq!(back, r);
}

#[test]
fn pool_roundtrip() {
    let r = Pool {
        is_initialized: true,
        mint_pubkey: key(1),
        pda_seed: key(2),
        head_user: key(3),
    };
    let bytes = r.encode();
    assert_eq!(bytes.len(), POOL_LEN);
    let back = Pool::unpack_from_slice(bytes.as_slice()).unwrap();
    assert_eq!(back, r);
}

#[test]
fn user_account_roundtrip() {
    let r = UserAccount { balance: 12345678901234567, next_user: key(9), head_stream: key(8) };
    let bytes = r.encode();
    assert_eq!(bytes.len(), USER_ACCOUNT_LEN);
    let back = UserAccount::unpack_from_slice(bytes.as_slice()).unwrap();
    assert_eq!(back, r);
}

#[test]
fn stream_roundtrip() {
    let r = Stream {
        input_token_pubkey: key(4),
        output_token_pubkey: key(5),
        next_stream: key(6),
        interval_days: -86400,
        amount: u64::MAX,
    };
    let bytes = r.encode();
    assert_eq!(bytes.len(), STREAM_LEN);
    let back = Stream::unpack_from_slice(bytes.as_slice()).unwrap();
    assert_eq!(back, r);
}

#[test]
fn zero_buffer_decodes_to_sentinels() {
    let st = StepProgramState::unpack_from_slice(vec![0u8; PROGRAM_STATE_LEN].as_slice()).unwrap();
    assert!(!st.is_initialized);
    assert_eq!(st.deployer_pubkey, key(0));

    let p = Pool::unpack_from_slice(vec![0u8; POOL_LEN].as_slice()).unwrap();
    assert!(!p.is_initialized);
    assert_eq!(p.mint_pubkey, key(0));
    assert_eq!(p.pda_seed, key(0));
    assert_eq!(p.head_user, key(0));

    let u = UserAccount::unpack_from_slice(vec![0u8; USER_ACCOUNT_LEN].as_slice()).unwrap();
    assert_eq!(u.balance, 0);
    assert_eq!(u.next_user, key(0));
    assert_eq!(u.head_stream, key(0));

    let s = Stream::unpack_from_slice(vec![0u8; STREAM_LEN].as_slice()).unwrap();
    assert_eq!(s.input_token_pubkey, key(0));
    assert_eq!(s.output_token_pubkey, key(0));
    assert_eq!(s.next_stream, key(0));
    assert_eq!(s.interval_days, 0);
    assert_eq!(s.amount, 0);
}

#[test]
fn short_buffer_is_corrupt() {
    assert_eq!(
        StepProgramState::unpack_from_slice(vec![0u8; PROGRAM_STATE_LEN - 1].as_slice()),
        Err(StepError::CorruptRecord)
    );
    assert_eq!(Pool::unpack_from_slice(vec![0u8; POOL_LEN - 1].as_slice()), Err(StepError::CorruptRecord));
    assert_eq!(
        UserAccount::unpack_from_slice(vec![0u8; USER_ACCOUNT_LEN - 1].as_slice()),
        Err(StepError::CorruptRecord)
    );
    assert_eq!(Stream::unpack_from_slice(vec![0u8; STREAM_LEN - 1].as_slice()), Err(StepError::CorruptRecord));
}

#[test]
fn bad_boolean_byte_is_corrupt() {
    let mut st = vec![0u8; PROGRAM_STATE_LEN];
    st[0] = 2;
    assert_eq!(StepProgramState::unpack_from_slice(st.as_slice()), Err(StepError::CorruptRecord));
    let mut p = vec![0u8; POOL_LEN];
    p[0] = 255;
    assert_eq!(Pool::unpack_from_slice(p.as_slice()), Err(StepError::CorruptRecord));
}

#[test]
fn trailing_bytes_are_ignored() {
    let r = UserAccount { balance: 42, next_user: key(1), head_stream: key(2) };
    let mut bytes = r.encode();
    bytes.extend_from_slice(&[9u8; 30]);
    let back = UserAccount::unpack_from_slice(bytes.as_slice()).unwrap();
    assert_eq!(back, r);
}

#[test]
fn program_state_layout_matches_borsh() {
    let r = StepProgramState { is_initialized: true, deployer_pubkey: key(7) };
    let expected = borsh::to_vec(&(true, key_arr(7))).unwrap();
    assert_eq!(r.encode(), expected);
}

#[test]
fn pool_layout_matches_borsh() {
    let r = Pool { is_initialized: true, mint_pubkey: key(1), pda_seed: key(2), head_user: key(3) };
    let expected = borsh::to_vec(&(true, key_arr(1), key_arr(2), key_arr(3))).unwrap();
    assert_eq!(r.encode(), expected);
}

#[test]
fn user_account_layout_matches_borsh() {
    let r = UserAccount { balance: 987654321, next_user: key(9), head_stream: key(8) };
    let expected = borsh::to_vec(&(987654321u64, key_arr(9), key_arr(8))).unwrap();
    assert_eq!(r.encode(), expected);
}

#[test]
fn stream_layout_matches_borsh() {
    let r = Stream {
        input_token_pubkey: key(4),
        output_token_pubkey: key(5),
        next_stream: key(6),
        interval_days: -7,
        amount: 11,
    };
    let expected = borsh::to_vec(&(key_arr(4), key_arr(5), key_arr(6), -7i64, 11u64)).unwrap();
    assert_eq!(r.encode(), expected);
}
