use step_dca::error::StepError;
use step_dca::instruction::StepInstruction;

fn key(b: u8) -> Vec<u8> {
    vec![b; 32]
}

#[test]
fn unpack_empty_buffer_fails() {
    assert!(matches!(
        StepInstruction::unpack(&[]),
        Err(StepError::MalformedInstruction)
    ));
}

#[test]
fn unpack_unknown_tag_fails() {
    assert!(matches!(
        StepInstruction::unpack(&[5u8, 0, 0, 0]),
        Err(StepError::MalformedInstruction)
    ));
}

#[test]
fn unpack_init_program() {
    match StepInstruction::unpack(&[0u8]).unwrap() {
        StepInstruction::InitProgram {} => {}
        _ => panic!("wrong operation"),
    }
}

#[test]
fn unpack_init_pool() {
    let mut data = vec![1u8];
    data.extend_from_slice(&[7u8; 32]);
    match StepInstruction::unpack(data.as_slice()).unwrap() {
        StepInstruction::InitPool { pda_seed } => assert_eq!(pda_seed, key(7)),
        _ => panic!("wrong operation"),
    }
}

#[test]
fn unpack_init_pool_truncated_fails() {
    let mut data = vec![1u8];
    data.extend_from_slice(&[7u8; 31]);
    assert!(matches!(
        StepInstruction::unpack(data.as_slice()),
        Err(StepError::MalformedInstruction)
    ));
}

#[test]
fn unpack_deposit_amount_is_little_endian() {
    let mut data = vec![2u8];
    data.extend_from_slice(&0x0102030405060708u64.to_le_bytes());
    match StepInstruction::unpack(data.as_slice()).unwrap() {
        StepInstruction::Deposit { amount } => assert_eq!(amount, 0x0102030405060708),
        _ => panic!("wrong operation"),
    }
}

#[test]
fn unpack_deposit_truncated_fails() {
    assert!(matches!(
        StepInstruction::unpack(&[2u8, 1, 2, 3]),
        Err(StepError::MalformedInstruction)
    ));
}

#[test]
fn unpack_create_stream() {
    let mut data = vec![3u8];
    data.extend_from_slice(&[4u8; 32]);
    data.extend_from_slice(&[5u8; 32]);
    data.extend_from_slice(&86400i64.to_le_bytes());
    data.extend_from_slice(&10u64.to_le_bytes());
    match StepInstruction::unpack(data.as_slice()).unwrap() {
        StepInstruction::CreateStream {
            input_token_pubkey,
            output_token_pubkey,
            interval_days,
            amount,
        } => {
            assert_eq!(input_token_pubkey, key(4));
            assert_eq!(output_token_pubkey, key(5));
            assert_eq!(interval_days, 86400);
            assert_eq!(amount, 10);
        }
        _ => panic!("wrong operation"),
    }
}

#[test]
fn unpack_create_stream_negative_interval() {
    let mut data = vec![3u8];
    data.extend_from_slice(&[4u8; 32]);
    data.extend_from_slice(&[5u8; 32]);
    data.extend_from_slice(&(-3600i64).to_le_bytes());
    data.extend_from_slice(&10u64.to_le_bytes());
    match StepInstruction::unpack(data.as_slice()).unwrap() {
        StepInstruction::CreateStream { interval_days, .. } => assert_eq!(interval_days, -3600),
        _ => panic!("wrong operation"),
    }
}

#[test]
fn unpack_create_stream_truncated_fails() {
    let mut data = vec![3u8];
    data.extend_from_slice(&[4u8; 79]);
    assert!(matches!(
        StepInstruction::unpack(data.as_slice()),
        Err(StepError::MalformedInstruction)
    ));
}

#[test]
fn unpack_execute() {
    let mut data = vec![4u8];
    data.extend_from_slice(&[9u8; 32]);
    match StepInstruction::unpack(data.as_slice()).unwrap() {
        StepInstruction::Execute { pda_seed } => assert_eq!(pda_seed, key(9)),
        _ => panic!("wrong operation"),
    }
}
