use dummy_client::amount::Amount;
use dummy_client::error::Error;
use dummy_client::ids::AccountId;
use dummy_client::ids::OperationId;
use dummy_client::ids::OutPoint;
use dummy_client::ids::TransactionId;
use dummy_client::init::DummyClientInit;
use dummy_client::keys::KeyPair;
use dummy_client::module::DummyClientConfig;
use dummy_client::module::DummyClientModule;
use dummy_client::module::OUTCOME_TIMEOUT_SECS;
use dummy_client::operations::Submission;
use dummy_client::states::DummyStateMachine;
use dummy_client::states::FederationEvent;
use dummy_client::store::BalanceStore;
use dummy_client::transaction::ClientInput;
use dummy_client::transaction::ClientInputBundle;
use dummy_client::transaction::ClientOutput;
use dummy_client::transaction::ClientOutputBundle;
use dummy_client::transaction::DummyInput;
use dummy_client::transaction::DummyOutput;
use dummy_client::transaction::DummyOutputOutcome;

fn sum(n: u64) -> Amount {
    Amount::from_msats(n)
}

fn tx(n: u8) -> TransactionId {
    TransactionId { bytes: [n; 32] }
}

fn oper(n: u8) -> OperationId {
    OperationId { bytes: [n; 32] }
}

fn new_module(secret: u8) -> DummyClientModule {
    let key = KeyPair::from_secret_bytes(&[secret; 32]).unwrap();
    DummyClientInit.init(DummyClientConfig { tx_fee: sum(0) }, key)
}

#[test]
fn print_hands_over_one_input_of_the_issuer() {
    let m = new_module(9);
    let issuer = KeyPair::from_secret_bytes(&[4u8; 32]).unwrap();
    let submission = m.print_using_account(sum(50), issuer);
    let leg = ClientInput {
        input: DummyInput { amount: sum(50), account: issuer.public_key() },
        keys: issuer,
        amount: sum(50),
    };
    assert_eq!(submission.inputs, ClientInputBundle::new_no_sm(vec![leg]));
    assert_eq!(submission.outputs, ClientOutputBundle::new_no_sm(vec![]));
    assert_eq!(submission, Submission::print(submission.operation_id, sum(50), issuer));
}

#[test]
fn print_money_uses_the_federation_key() {
    let m = new_module(9);
    let submission = m.print_money(sum(50));
    assert_eq!(submission, Submission::print(submission.operation_id, sum(50), m.fed_key));
    assert_eq!(
        submission.inputs.inputs[0].input.account.bytes,
        fedimint_dummy_common::fed_public_key().serialize()
    );
}

#[test]
fn print_liability_uses_the_broken_key() {
    let m = new_module(9);
    let submission = m.print_liability(sum(50));
    assert_eq!(submission, Submission::print(submission.operation_id, sum(50), m.broken_fed_key));
    assert_eq!(
        submission.inputs.inputs[0].input.account.bytes,
        fedimint_dummy_common::broken_fed_public_key().serialize()
    );
}

#[test]
fn each_operation_gets_its_own_id() {
    let m = new_module(9);
    let a = m.print_money(sum(1)).operation_id;
    let b = m.print_money(sum(1)).operation_id;
    let c = m.send_money(&BalanceStore::new(None, true), m.account(), sum(1)).unwrap().operation_id;
    assert_ne!(a, b);
    assert_ne!(a, c);
    assert_ne!(b, c);
}

#[test]
fn print_ends_with_the_first_change_output() {
    let submission = Submission::print(oper(1), sum(50), new_module(9).fed_key);
    let change = vec![OutPoint { txid: tx(3), out_idx: 0 }, OutPoint { txid: tx(3), out_idx: 1 }];
    assert_eq!(
        submission.print_outcome(&change, true),
        Ok((oper(1), OutPoint { txid: tx(3), out_idx: 0 }))
    );
    assert_eq!(submission.print_outcome(&change, false), Err(Error::FederationRejected));
    assert_eq!(submission.print_outcome(&vec![], false), Err(Error::FederationRejected));
}

#[test]
fn send_hands_over_one_output_to_the_payee() {
    let m = new_module(9);
    let payee = AccountId { bytes: [3u8; 33] };
    let submission = m.send_money(&BalanceStore::new(Some(sum(1)), true), payee, sum(70)).unwrap();
    let leg = ClientOutput { output: DummyOutput { amount: sum(70), account: payee }, amount: sum(70) };
    assert_eq!(submission.inputs, ClientInputBundle::new_no_sm(vec![]));
    assert_eq!(submission.outputs, ClientOutputBundle::new_no_sm(vec![leg]));
    assert_eq!(submission, Submission::send(submission.operation_id, payee, sum(70)));
}

#[test]
fn send_needs_an_isolated_store() {
    let m = new_module(9);
    let payee = AccountId { bytes: [3u8; 33] };
    assert_eq!(
        m.send_money(&BalanceStore::new(Some(sum(100)), false), payee, sum(70)),
        Err(Error::IsolationViolation)
    );
}

#[test]
fn send_ends_with_the_first_output_of_its_transaction() {
    let submission = Submission::send(oper(1), AccountId { bytes: [3u8; 33] }, sum(70));
    assert_eq!(submission.send_outcome(tx(8), true), Ok(OutPoint { txid: tx(8), out_idx: 0 }));
    assert_eq!(submission.send_outcome(tx(8), false), Err(Error::FederationRejected));
    assert_eq!(OutPoint::first_of(tx(8)), OutPoint { txid: tx(8), out_idx: 0 });
}

#[test]
fn receive_overwrites_the_balance() {
    let m = new_module(9);
    let mut store = BalanceStore::new(Some(sum(5)), true);
    let outcome = DummyOutputOutcome(sum(70), m.account());
    assert_eq!(m.receive_money(&mut store, Some(outcome)), Ok(()));
    assert_eq!(store, BalanceStore::new(Some(sum(70)), true));
    assert_eq!(m.receive_money(&mut store, Some(outcome)), Ok(()));
    assert_eq!(store, BalanceStore::new(Some(sum(70)), true));
}

#[test]
fn receive_for_another_account_is_refused() {
    let m = new_module(9);
    let other = new_module(8);
    let mut store = BalanceStore::new(Some(sum(5)), true);
    let outcome = DummyOutputOutcome(sum(70), other.account());
    assert_eq!(m.receive_money(&mut store, Some(outcome)), Err(Error::WrongAccount));
    assert_eq!(store, BalanceStore::new(Some(sum(5)), true));
    let mut unset = BalanceStore::new(None, false);
    assert_eq!(m.receive_money(&mut unset, Some(outcome)), Err(Error::WrongAccount));
    assert_eq!(unset, BalanceStore::new(None, false));
}

#[test]
fn receive_without_an_outcome_times_out() {
    let m = new_module(9);
    let mut store = BalanceStore::new(Some(sum(5)), true);
    assert_eq!(m.receive_money(&mut store, None), Err(Error::Timeout));
    assert_eq!(store, BalanceStore::new(Some(sum(5)), true));
    assert_eq!(OUTCOME_TIMEOUT_SECS, 10);
}

/// Stands for the transaction builder and the federation: balances the
/// submission through the module, gives the transaction the id `txid`,
/// and lets the federation accept it and confirm its outputs.
fn settle(m: &DummyClientModule, store: &mut BalanceStore, s: &Submission, txid: TransactionId) {
    let input: u64 = s.inputs.inputs.iter().map(|leg| leg.amount.msats).sum();
    let output: u64 = s.outputs.outputs.iter().map(|leg| leg.amount.msats).sum();
    let (ins, outs) = m
        .create_final_inputs_and_outputs(store, s.operation_id, sum(input), sum(output))
        .unwrap();
    let mut legs: Vec<DummyStateMachine> = Vec::new();
    for seed in ins.sms.iter() {
        legs.extend(seed.state_machines(txid));
    }
    for seed in outs.sms.iter() {
        legs.extend(seed.state_machines(txid));
    }
    for leg in legs {
        let leg = leg.transition(&m.context(), &FederationEvent::TxAccepted(txid), store);
        leg.transition(&m.context(), &FederationEvent::OutputConfirmed(txid, m.account()), store);
    }
}

#[test]
fn print_send_receive_round_trip() {
    let alice = new_module(9);
    let bob = new_module(8);
    let mut alice_store = BalanceStore::new(Some(sum(100)), true);
    let mut bob_store = BalanceStore::new(None, true);

    let print = alice.print_money(sum(50));
    settle(&alice, &mut alice_store, &print, tx(1));
    assert_eq!(alice.get_balance(&alice_store), sum(150));
    assert_eq!(
        print.print_outcome(&vec![OutPoint::first_of(tx(1))], true),
        Ok((print.operation_id, OutPoint { txid: tx(1), out_idx: 0 }))
    );

    let send = alice.send_money(&alice_store, bob.account(), sum(70)).unwrap();
    settle(&alice, &mut alice_store, &send, tx(2));
    assert_eq!(alice.get_balance(&alice_store), sum(80));
    let out_point = send.send_outcome(tx(2), true).unwrap();
    assert_eq!(out_point, OutPoint { txid: tx(2), out_idx: 0 });

    let outcome = DummyOutputOutcome(sum(70), bob.account());
    assert_eq!(bob.receive_money(&mut bob_store, Some(outcome)), Ok(()));
    assert_eq!(bob.get_balance(&bob_store), sum(70));
    assert_eq!(alice.receive_money(&mut alice_store, Some(outcome)), Err(Error::WrongAccount));
    assert_eq!(alice.get_balance(&alice_store), sum(80));
}

#[test]
fn transfer_of_forty_out_of_a_hundred() {
    let alice = new_module(9);
    let mut store = BalanceStore::new(Some(sum(100)), true);
    let send = alice.send_money(&store, AccountId { bytes: [3u8; 33] }, sum(40)).unwrap();
    assert_eq!(send.outputs.outputs[0].amount, sum(40));
    settle(&alice, &mut store, &send, tx(2));
    assert_eq!(alice.get_balance(&store), sum(60));
}

#[test]
fn rejected_transfer_gives_the_reservation_back() {
    let alice = new_module(9);
    let mut store = BalanceStore::new(Some(sum(100)), true);
    let send = alice.send_money(&store, AccountId { bytes: [3u8; 33] }, sum(40)).unwrap();
    let (ins, _) = alice
        .create_final_inputs_and_outputs(&mut store, send.operation_id, sum(0), sum(40))
        .unwrap();
    assert_eq!(alice.get_balance(&store), sum(60));
    let leg = ins.sms[0].state_machines(tx(2))[0];
    let event = FederationEvent::TxRejected(tx(2));
    let leg = leg.transition(&alice.context(), &event, &mut store);
    assert_eq!(leg, DummyStateMachine::Refund(send.operation_id));
    assert_eq!(alice.get_balance(&store), sum(100));
    let leg = leg.transition(&alice.context(), &event, &mut store);
    assert_eq!(leg, DummyStateMachine::Refund(send.operation_id));
    assert_eq!(alice.get_balance(&store), sum(100));
    assert_eq!(send.send_outcome(tx(2), false), Err(Error::FederationRejected));
}
