use payment_processor::error::RuntimeError;
use payment_processor::message::Instruction;
use payment_processor::message::Location;
use payment_processor::processor::PaymentProcessor;
use payment_processor::processor::SendOutcome;

const OWNER: [u8; 32] = [1u8; 32];
const CONTRACT: [u8; 32] = [9u8; 32];
const PAYER: [u8; 32] = [3u8; 32];
const STRANGER: [u8; 32] = [2u8; 32];
const HASH1: [u8; 32] = [5u8; 32];
const HASH2: [u8; 32] = [6u8; 32];

fn payment_id(first: u8) -> [u8; 32] {
    let mut id = [0u8; 32];
    id[0] = first;
    id
}

#[test]
fn never_used_id_reads_no_status() {
    let p = PaymentProcessor::new(OWNER, CONTRACT);
    assert_eq!(p.get(vec![]), 0);
    assert_eq!(p.get(vec![1, 2, 3]), 0);
    assert_eq!(p.get(payment_id(0x77).to_vec()), 0);
}

#[test]
fn pay_sets_ongoing_and_second_pay_fails() {
    let mut p = PaymentProcessor::new(OWNER, CONTRACT);
    let id = payment_id(1);
    let r = p.pay(1000, id, PAYER, &SendOutcome::Accepted(HASH1));
    assert_eq!(r, Ok(HASH1));
    assert_eq!(p.get(id.to_vec()), 2);
    let r2 = p.pay(1000, id, PAYER, &SendOutcome::Accepted(HASH2));
    assert_eq!(r2, Err(RuntimeError::DuplicateOrCompleted));
    assert_eq!(p.get(id.to_vec()), 2);
}

#[test]
fn callback_success_completes_and_blocks_retry() {
    let mut p = PaymentProcessor::new(OWNER, CONTRACT);
    let id = payment_id(2);
    p.pay(1000, id, PAYER, &SendOutcome::Accepted(HASH1)).unwrap();
    let cb = p.callback_success(&OWNER, id.to_vec());
    assert_eq!(cb, Ok(()));
    assert_eq!(p.get(id.to_vec()), 1);
    let retry = p.pay(1000, id, PAYER, &SendOutcome::Accepted(HASH2));
    assert_eq!(retry, Err(RuntimeError::DuplicateOrCompleted));
    assert_eq!(p.get(id.to_vec()), 1);
}

#[test]
fn callback_fail_allows_retry() {
    let mut p = PaymentProcessor::new(OWNER, CONTRACT);
    let id = payment_id(3);
    p.pay(500, id, PAYER, &SendOutcome::Accepted(HASH1)).unwrap();
    let cb = p.callback_fail(&OWNER, id.to_vec());
    assert_eq!(cb, Ok(()));
    assert_eq!(p.get(id.to_vec()), 3);
    let retry = p.pay(700, id, PAYER, &SendOutcome::Accepted(HASH2));
    assert_eq!(retry, Ok(HASH2));
    assert_eq!(p.get(id.to_vec()), 2);
}

#[test]
fn non_owner_callbacks_are_unauthorized() {
    let mut p = PaymentProcessor::new(OWNER, CONTRACT);
    let id = payment_id(4);
    p.pay(1000, id, PAYER, &SendOutcome::Accepted(HASH1)).unwrap();
    assert_eq!(
        p.callback_success(&STRANGER, id.to_vec()),
        Err(RuntimeError::Unauthorized)
    );
    assert_eq!(p.get(id.to_vec()), 2);
    assert_eq!(
        p.callback_fail(&STRANGER, id.to_vec()),
        Err(RuntimeError::Unauthorized)
    );
    assert_eq!(p.get(id.to_vec()), 2);
}

#[test]
fn refused_send_rolls_back_and_retry_succeeds() {
    let mut p = PaymentProcessor::new(OWNER, CONTRACT);
    let id = payment_id(5);
    let r = p.pay(1000, id, PAYER, &SendOutcome::SendRefused);
    assert_eq!(r, Err(RuntimeError::SendFailed));
    assert_eq!(p.get(id.to_vec()), 0);
    let r2 = p.pay(1000, id, PAYER, &SendOutcome::ExecuteRefused);
    assert_eq!(r2, Err(RuntimeError::ExecuteFailed));
    assert_eq!(p.get(id.to_vec()), 0);
    let r3 = p.pay(1000, id, PAYER, &SendOutcome::Accepted(HASH1));
    assert_eq!(r3, Ok(HASH1));
    assert_eq!(p.get(id.to_vec()), 2);
}

#[test]
fn distinct_ids_are_independent() {
    let mut p = PaymentProcessor::new(OWNER, CONTRACT);
    let id_a = payment_id(6);
    let id_b = payment_id(7);
    p.pay(1000, id_a, PAYER, &SendOutcome::Accepted(HASH1)).unwrap();
    assert_eq!(p.get(id_b.to_vec()), 0);
    p.pay(1000, id_b, PAYER, &SendOutcome::Accepted(HASH2)).unwrap();
    p.callback_success(&OWNER, id_a.to_vec()).unwrap();
    assert_eq!(p.get(id_a.to_vec()), 1);
    assert_eq!(p.get(id_b.to_vec()), 2);
}

#[test]
fn full_success_scenario() {
    let mut p = PaymentProcessor::new(OWNER, CONTRACT);
    let mut id = [0u8; 32];
    id[0] = 0x01;
    let h1 = p.pay(1000, id, PAYER, &SendOutcome::Accepted(HASH1)).unwrap();
    assert_eq!(h1, HASH1);
    assert_eq!(p.get(id.to_vec()), 2);
    p.callback_success(&OWNER, id.to_vec()).unwrap();
    assert_eq!(p.get(id.to_vec()), 1);
    let retry = p.pay(1000, id, PAYER, &SendOutcome::Accepted(HASH2));
    assert_eq!(retry, Err(RuntimeError::DuplicateOrCompleted));
}

#[test]
fn full_failure_scenario() {
    let mut p = PaymentProcessor::new(OWNER, CONTRACT);
    let id = payment_id(0x22);
    p.pay(500, id, PAYER, &SendOutcome::Accepted(HASH1)).unwrap();
    assert_eq!(p.get(id.to_vec()), 2);
    p.callback_fail(&OWNER, id.to_vec()).unwrap();
    assert_eq!(p.get(id.to_vec()), 3);
    let retry = p.pay(700, id, PAYER, &SendOutcome::Accepted(HASH2));
    assert_eq!(retry, Ok(HASH2));
    assert_eq!(p.get(id.to_vec()), 2);
}

#[test]
fn authorize_admits_only_owner() {
    let p = PaymentProcessor::new(OWNER, CONTRACT);
    assert_eq!(p.authorize(&OWNER), Ok(()));
    assert_eq!(p.authorize(&STRANGER), Err(RuntimeError::Unauthorized));
}

#[test]
fn generic_execute_bypasses_ledger() {
    let mut p = PaymentProcessor::new(OWNER, CONTRACT);
    let call = vec![10u8, 20, 30];
    let r = p.generic_execute_ah(call.clone(), &SendOutcome::Accepted(HASH1));
    assert_eq!(r, Ok(HASH1));
    assert_eq!(p.get(call.clone()), 0);
    let r2 = p.generic_execute_ah(call.clone(), &SendOutcome::SendRefused);
    assert_eq!(r2, Err(RuntimeError::SendFailed));
    let r3 = p.generic_execute_ah(call, &SendOutcome::ExecuteRefused);
    assert_eq!(r3, Err(RuntimeError::ExecuteFailed));
}

#[test]
fn pay_message_shape_matches_contracted_program() {
    let p = PaymentProcessor::new(OWNER, CONTRACT);
    let mut id = [0u8; 32];
    for (i, b) in id.iter_mut().enumerate() {
        *b = i as u8 + 1;
    }
    let m = p.pay_message(1000, id, PAYER).unwrap();
    assert_eq!(m.destination, Location::SiblingParachain(1000));
    let ins = &m.message.instructions;
    assert_eq!(ins.len(), 7);
    match &ins[0] {
        Instruction::WithdrawAsset(a) => {
            assert_eq!(a.location, Location::Parent);
            assert_eq!(a.amount, 10_000_000_000u128);
        }
        other => panic!("unexpected instruction: {other:?}"),
    }
    match &ins[1] {
        Instruction::BuyExecution(a) => {
            assert_eq!(a.location, Location::Parent);
            assert_eq!(a.amount, 10_000_000_000u128);
        }
        other => panic!("unexpected instruction: {other:?}"),
    }
    match &ins[2] {
        Instruction::SetAppendix(appendix) => {
            assert_eq!(appendix.instructions.len(), 2);
            assert!(matches!(appendix.instructions[0], Instruction::RefundSurplus));
            match &appendix.instructions[1] {
                Instruction::DepositAsset { beneficiary } => {
                    assert_eq!(*beneficiary, Location::LocalAccount32(p.get_ah_address()));
                }
                other => panic!("unexpected instruction: {other:?}"),
            }
        }
        other => panic!("unexpected instruction: {other:?}"),
    }
    match &ins[3] {
        Instruction::SetErrorHandler(handler) => {
            assert_eq!(handler.instructions.len(), 1);
            match &handler.instructions[0] {
                Instruction::ReportError(info) => {
                    assert_eq!(info.destination, Location::SiblingParachain(4001));
                    let expected_query = u64::from_le_bytes([1, 2, 3, 4, 5, 6, 7, 8]);
                    assert_eq!(info.query_id, expected_query);
                    assert_eq!(info.max_weight.ref_time, 1_000_000_000);
                    assert_eq!(info.max_weight.proof_size, 100_000);
                }
                other => panic!("unexpected instruction: {other:?}"),
            }
        }
        other => panic!("unexpected instruction: {other:?}"),
    }
    match &ins[4] {
        Instruction::Transact { require_weight_at_most, call, .. } => {
            assert_eq!(require_weight_at_most.ref_time, 1_000_000_000);
            assert_eq!(require_weight_at_most.proof_size, 100_000);
            assert!(!call.is_empty());
        }
        other => panic!("unexpected instruction: {other:?}"),
    }
    assert!(matches!(ins[5], Instruction::ExpectTransactStatus));
    match &ins[6] {
        Instruction::SetTopic(topic) => assert_eq!(*topic, id),
        other => panic!("unexpected instruction: {other:?}"),
    }
}

#[test]
fn pay_message_rejects_busy_id() {
    let mut p = PaymentProcessor::new(OWNER, CONTRACT);
    let id = payment_id(8);
    p.pay(1000, id, PAYER, &SendOutcome::Accepted(HASH1)).unwrap();
    assert!(matches!(
        p.pay_message(1000, id, PAYER),
        Err(RuntimeError::DuplicateOrCompleted)
    ));
}

#[test]
fn get_distinguishes_read_keys_by_exact_bytes() {
    let mut p = PaymentProcessor::new(OWNER, CONTRACT);
    let id = payment_id(9);
    p.pay(1000, id, PAYER, &SendOutcome::Accepted(HASH1)).unwrap();
    assert_eq!(p.get(id.to_vec()), 2);
    assert_eq!(p.get(id[..31].to_vec()), 0);
    assert_eq!(p.get(vec![9]), 0);
}

#[test]
fn callbacks_write_unconditionally_for_the_owner() {
    let mut p = PaymentProcessor::new(OWNER, CONTRACT);
    let id = payment_id(10);
    assert_eq!(p.callback_success(&OWNER, id.to_vec()), Ok(()));
    assert_eq!(p.get(id.to_vec()), 1);
    assert_eq!(p.callback_fail(&OWNER, id.to_vec()), Ok(()));
    assert_eq!(p.get(id.to_vec()), 3);
}

#[test]
fn status_codes_cover_all_four_states() {
    let mut p = PaymentProcessor::new(OWNER, CONTRACT);
    let id = payment_id(11);
    assert_eq!(p.get(id.to_vec()), 0);
    p.pay(1, id, PAYER, &SendOutcome::Accepted(HASH1)).unwrap();
    assert_eq!(p.get(id.to_vec()), 2);
    p.callback_fail(&OWNER, id.to_vec()).unwrap();
    assert_eq!(p.get(id.to_vec()), 3);
    p.pay(2, id, PAYER, &SendOutcome::Accepted(HASH2)).unwrap();
    p.callback_success(&OWNER, id.to_vec()).unwrap();
    assert_eq!(p.get(id.to_vec()), 1);
}
