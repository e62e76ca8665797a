use silk_pay::contract::{
    cancel, confirm_address, create_receive_request, create_recurring_send_request,
    create_send_request, receive, send_payment, space_pad, Transfer,
};
use silk_pay::msg::ReceiveMsg;
use silk_pay::error::PayError;
use silk_pay::state::{
    accept_new_admin_nomination, nominate_new_admin, update_fee, update_treasury_address, Config,
    SecretContract,
};
use silk_pay::ledger::Ledger;
use silk_pay::transaction_history::{
    tx_at_position, update_tx, verify_recurring_tx_parameters, verify_txs_for_recurring_payment,
    Tx, TxClass, TxStatus,
};

const BLOCK_TIME: u64 = 1_571_797_419;
const BLOCK_HEIGHT: u64 = 12_345;

fn mock_fee() -> u128 {
    1_000_000
}

fn mock_silk() -> SecretContract {
    SecretContract {
        address: "mock-silk-address".to_string(),
        contract_hash: "mock-silk-contract-hash".to_string(),
    }
}

fn mock_sscrt() -> SecretContract {
    SecretContract {
        address: "mock-sscrt-address".to_string(),
        contract_hash: "mock-sscrt-contract-hash".to_string(),
    }
}

fn mock_shade() -> SecretContract {
    SecretContract {
        address: "mock-shade-address".to_string(),
        contract_hash: "mock-shade-contract-hash".to_string(),
    }
}

fn mock_treasury_address() -> String {
    "mock-treasury-address".to_string()
}

fn mock_contract_initiator_address() -> String {
    "admin".to_string()
}

fn mock_user_address() -> String {
    "gary".to_string()
}

fn mock_config() -> Config {
    Config {
        admin: mock_contract_initiator_address(),
        fee: mock_fee(),
        new_admin_nomination: None,
        shade: mock_shade(),
        sscrt: mock_sscrt(),
        treasury_address: mock_treasury_address(),
        end_time_limit: 2_000_000_000,
    }
}

fn send_request_from_user(ledger: &mut Ledger, config: &Config) -> (u32, u32) {
    create_send_request(
        ledger,
        config,
        &mock_sscrt().address,
        &mock_user_address(),
        mock_fee(),
        &mock_contract_initiator_address(),
        555_555,
        Some("Mercy".to_string()),
        mock_silk(),
        BLOCK_TIME,
        BLOCK_HEIGHT,
    )
    .unwrap()
}

fn set_both_statuses(ledger: &mut Ledger, status: TxStatus) {
    let mut from_tx = tx_at_position(ledger, &mock_user_address(), 0).unwrap();
    let mut to_tx =
        tx_at_position(ledger, &from_tx.to, from_tx.other_storage_position).unwrap();
    from_tx.status = status;
    to_tx.status = status;
    update_tx(ledger, &from_tx.from.clone(), from_tx).unwrap();
    update_tx(ledger, &to_tx.to.clone(), to_tx).unwrap();
}

#[test]
fn test_cancel() {
    let config = mock_config();
    let mut ledger = Ledger::new();
    send_request_from_user(&mut ledger, &config);
    let user = mock_user_address();
    let sscrt = mock_sscrt().address;

    // a positive amount is refused
    assert_eq!(cancel(&mut ledger, &config, &user, &user, 5, 1), Err(PayError::WrongAmount));
    // a zero amount in another token is refused
    assert_eq!(cancel(&mut ledger, &config, &user, &user, 0, 1), Err(PayError::WrongToken));
    // a Tx that does not exist
    assert_eq!(cancel(&mut ledger, &config, &sscrt, &user, 0, 1), Err(PayError::OutOfBounds));

    // a Tx pending address confirmation
    let refund = cancel(&mut ledger, &config, &sscrt, &user, 0, 0).unwrap();
    let from_tx = tx_at_position(&ledger, &user, 0).unwrap();
    let to_tx = tx_at_position(&ledger, &from_tx.to, from_tx.other_storage_position).unwrap();
    assert_eq!(
        refund,
        Transfer { recipient: from_tx.creator.clone(), amount: from_tx.fee, token: mock_sscrt() }
    );
    assert_eq!(from_tx.status, TxStatus::Cancelled);
    assert_eq!(to_tx.status, TxStatus::Cancelled);

    // a cancelled Tx
    assert_eq!(
        cancel(&mut ledger, &config, &sscrt, &user, 0, 0),
        Err(PayError::TxAlreadyCancelled { position: 0 })
    );

    // a Tx pending payment
    set_both_statuses(&mut ledger, TxStatus::Confirmed);
    let refund = cancel(&mut ledger, &config, &sscrt, &user, 0, 0).unwrap();
    let from_tx = tx_at_position(&ledger, &user, 0).unwrap();
    let to_tx = tx_at_position(&ledger, &from_tx.to, from_tx.other_storage_position).unwrap();
    assert_eq!(
        refund,
        Transfer { recipient: from_tx.creator.clone(), amount: from_tx.fee, token: mock_sscrt() }
    );
    assert_eq!(from_tx.status, TxStatus::Cancelled);
    assert_eq!(to_tx.status, TxStatus::Cancelled);

    // a finalized Tx
    set_both_statuses(&mut ledger, TxStatus::Completed);
    assert_eq!(
        cancel(&mut ledger, &config, &sscrt, &user, 0, 0),
        Err(PayError::TxAlreadyCompleted { position: 0 })
    );
}

#[test]
fn test_confirm_address() {
    let config = mock_config();
    let mut ledger = Ledger::new();
    send_request_from_user(&mut ledger, &config);
    let admin = mock_contract_initiator_address();
    let user = mock_user_address();
    let sscrt = mock_sscrt().address;

    assert_eq!(
        confirm_address(&mut ledger, &config, &user, &admin, 5, 1, false),
        Err(PayError::WrongAmount)
    );
    assert_eq!(
        confirm_address(&mut ledger, &config, &user, &admin, 0, 1, false),
        Err(PayError::WrongToken)
    );
    assert_eq!(
        confirm_address(&mut ledger, &config, &sscrt, &admin, 0, 1, false),
        Err(PayError::OutOfBounds)
    );
    // only the payee confirms
    assert_eq!(
        confirm_address(&mut ledger, &config, &sscrt, &user, 0, 0, false),
        Err(PayError::Unauthorized)
    );

    assert_eq!(confirm_address(&mut ledger, &config, &sscrt, &admin, 0, 0, false), Ok(()));
    let from_tx = tx_at_position(&ledger, &user, 0).unwrap();
    let to_tx = tx_at_position(&ledger, &from_tx.to, from_tx.other_storage_position).unwrap();
    assert_eq!(from_tx.status, TxStatus::Confirmed);
    assert_eq!(to_tx.status, TxStatus::Confirmed);

    assert_eq!(
        confirm_address(&mut ledger, &config, &sscrt, &admin, 0, 0, false),
        Err(PayError::TxNotConfirmationReady { status: 1 })
    );
}

#[test]
fn test_create_receive_request() {
    let config = mock_config();
    let mut ledger = Ledger::new();
    let user = mock_user_address();
    let admin = mock_contract_initiator_address();
    let description = Some("Mercy".to_string());

    let r = create_receive_request(
        &mut ledger, &config, &user, &user, 555, &user, 555555, description.clone(), mock_silk(),
        BLOCK_TIME, BLOCK_HEIGHT,
    );
    assert_eq!(r, Err(PayError::WrongAmount));
    let r = create_receive_request(
        &mut ledger, &config, &user, &user, mock_fee(), &user, 555555, description.clone(),
        mock_silk(), BLOCK_TIME, BLOCK_HEIGHT,
    );
    assert_eq!(r, Err(PayError::WrongToken));
    let r = create_receive_request(
        &mut ledger, &config, &mock_sscrt().address, &user, mock_fee(), &user, 555555,
        description.clone(), mock_silk(), BLOCK_TIME, BLOCK_HEIGHT,
    );
    assert_eq!(r, Err(PayError::SelfPaymentRejected));
    assert_eq!(ledger.len_of(&user), 0);

    let send_amount: u128 = 555_555;
    let r = create_receive_request(
        &mut ledger, &config, &mock_sscrt().address, &user, mock_fee(), &admin, send_amount,
        description.clone(), mock_silk(), BLOCK_TIME, BLOCK_HEIGHT,
    );
    assert_eq!(r, Ok((0, 0)));
    let from_tx = tx_at_position(&ledger, &user, 0).unwrap();
    let to_tx = tx_at_position(&ledger, &from_tx.from, from_tx.other_storage_position).unwrap();
    let expected = Tx {
        position: 0,
        other_storage_position: 0,
        fee: mock_fee(),
        from: admin.clone(),
        to: user.clone(),
        creator: user.clone(),
        amount: send_amount,
        token: mock_silk(),
        description: description.clone(),
        status: TxStatus::Confirmed,
        block_time: BLOCK_TIME,
        block_height: BLOCK_HEIGHT,
        class: TxClass::SingleTx {},
    };
    assert_eq!(from_tx, expected);
    assert_eq!(to_tx, expected);
}

#[test]
fn test_create_send_request() {
    let config = mock_config();
    let mut ledger = Ledger::new();
    let user = mock_user_address();
    let admin = mock_contract_initiator_address();
    let description = Some("Mercy".to_string());

    let r = create_send_request(
        &mut ledger, &config, &user, &user, 555, &user, 555555, description.clone(), mock_silk(),
        BLOCK_TIME, BLOCK_HEIGHT,
    );
    assert_eq!(r, Err(PayError::WrongAmount));
    let r = create_send_request(
        &mut ledger, &config, &user, &user, mock_fee(), &user, 555555, description.clone(),
        mock_silk(), BLOCK_TIME, BLOCK_HEIGHT,
    );
    assert_eq!(r, Err(PayError::WrongToken));
    let r = create_send_request(
        &mut ledger, &config, &mock_sscrt().address, &user, mock_fee(), &user, 555555,
        description.clone(), mock_silk(), BLOCK_TIME, BLOCK_HEIGHT,
    );
    assert_eq!(r, Err(PayError::SelfPaymentRejected));
    assert_eq!(ledger.len_of(&user), 0);

    let send_amount: u128 = 555_555;
    let r = create_send_request(
        &mut ledger, &config, &mock_sscrt().address, &user, mock_fee(), &admin, send_amount,
        description.clone(), mock_silk(), BLOCK_TIME, BLOCK_HEIGHT,
    );
    assert_eq!(r, Ok((0, 0)));
    let from_tx = tx_at_position(&ledger, &user, 0).unwrap();
    let to_tx = tx_at_position(&ledger, &from_tx.to, from_tx.other_storage_position).unwrap();
    let expected = Tx {
        position: 0,
        other_storage_position: 0,
        fee: mock_fee(),
        from: user.clone(),
        to: admin.clone(),
        creator: user.clone(),
        amount: send_amount,
        token: mock_silk(),
        description: description.clone(),
        status: TxStatus::Unconfirmed,
        block_time: BLOCK_TIME,
        block_height: BLOCK_HEIGHT,
        class: TxClass::SingleTx {},
    };
    assert_eq!(from_tx, expected);
    assert_eq!(to_tx, expected);
}

#[test]
fn test_accept_new_admin_nomination() {
    let mut config = mock_config();
    let user = mock_user_address();
    let admin = mock_contract_initiator_address();

    // no nomination yet
    assert_eq!(accept_new_admin_nomination(&mut config, &user), Err(PayError::Unauthorized));
    nominate_new_admin(&mut config, &admin, user.clone()).unwrap();
    // called by the wrong person
    assert_eq!(accept_new_admin_nomination(&mut config, &admin), Err(PayError::Unauthorized));
    // called by the nominee
    accept_new_admin_nomination(&mut config, &user).unwrap();
    assert_eq!(config.admin, user);
    assert_eq!(config.new_admin_nomination, None);
}

#[test]
fn test_nominate_new_admin() {
    let mut config = mock_config();
    let user = mock_user_address();
    assert_eq!(
        nominate_new_admin(&mut config, &user, user.clone()),
        Err(PayError::Unauthorized)
    );
    nominate_new_admin(&mut config, &mock_contract_initiator_address(), user.clone()).unwrap();
    assert_eq!(config.new_admin_nomination, Some(user));
}

#[test]
fn test_update_fee() {
    let mut config = mock_config();
    let new_fee: u128 = 555;
    assert_eq!(
        update_fee(&mut config, &mock_user_address(), new_fee),
        Err(PayError::Unauthorized)
    );
    assert_eq!(config.fee, mock_fee());
    update_fee(&mut config, &mock_contract_initiator_address(), new_fee).unwrap();
    assert_eq!(config.fee, new_fee);
}

#[test]
fn test_update_treasury_fee() {
    let mut config = mock_config();
    let new_treasury_address = "cosmos2contract".to_string();
    assert_eq!(
        update_treasury_address(&mut config, &mock_user_address(), new_treasury_address.clone()),
        Err(PayError::Unauthorized)
    );
    update_treasury_address(
        &mut config,
        &mock_contract_initiator_address(),
        new_treasury_address.clone(),
    )
    .unwrap();
    assert_eq!(config.treasury_address, new_treasury_address);
}

#[test]
fn happy_path_send_request() {
    let mut config = mock_config();
    config.fee = 10;
    let mut ledger = Ledger::new();
    let a = "alice".to_string();
    let b = "bob".to_string();
    let sscrt = mock_sscrt().address;
    let silk = mock_silk();

    let (pa, pb) = create_send_request(
        &mut ledger, &config, &sscrt, &a, 10, &b, 500, None, silk.clone(), BLOCK_TIME,
        BLOCK_HEIGHT,
    )
    .unwrap();
    assert_eq!(tx_at_position(&ledger, &a, pa).unwrap().status, TxStatus::Unconfirmed);

    // paying before the payee confirmed is refused
    assert_eq!(
        send_payment(&mut ledger, &config, &silk.address, &a, 500, pa),
        Err(PayError::TxNotConfirmed { status: 0 })
    );

    confirm_address(&mut ledger, &config, &sscrt, &b, 0, pb, false).unwrap();
    assert_eq!(tx_at_position(&ledger, &a, pa).unwrap().status, TxStatus::Confirmed);
    assert_eq!(tx_at_position(&ledger, &b, pb).unwrap().status, TxStatus::Confirmed);

    // the payee cannot pay itself, nor the wrong amount or token be paid
    assert_eq!(
        send_payment(&mut ledger, &config, &silk.address, &b, 500, pb),
        Err(PayError::Unauthorized)
    );
    assert_eq!(
        send_payment(&mut ledger, &config, &silk.address, &a, 499, pa),
        Err(PayError::WrongAmount)
    );
    assert_eq!(
        send_payment(&mut ledger, &config, &sscrt, &a, 500, pa),
        Err(PayError::WrongToken)
    );

    let transfers = send_payment(&mut ledger, &config, &silk.address, &a, 500, pa).unwrap();
    assert_eq!(
        transfers,
        vec![
            Transfer { recipient: mock_treasury_address(), amount: 10, token: mock_sscrt() },
            Transfer { recipient: b.clone(), amount: 500, token: silk.clone() },
        ]
    );
    assert_eq!(tx_at_position(&ledger, &a, pa).unwrap().status, TxStatus::Completed);
    assert_eq!(tx_at_position(&ledger, &b, pb).unwrap().status, TxStatus::Completed);

    // a completed pair stays completed
    assert_eq!(
        send_payment(&mut ledger, &config, &silk.address, &a, 500, pa),
        Err(PayError::TxNotConfirmed { status: 3 })
    );
    assert_eq!(
        cancel(&mut ledger, &config, &sscrt, &a, 0, pa),
        Err(PayError::TxAlreadyCompleted { position: pa })
    );
    assert_eq!(
        confirm_address(&mut ledger, &config, &sscrt, &b, 0, pb, false),
        Err(PayError::TxNotConfirmationReady { status: 3 })
    );
}

#[test]
fn cancellation_before_confirmation() {
    let mut config = mock_config();
    config.fee = 10;
    let mut ledger = Ledger::new();
    let a = "alice".to_string();
    let b = "bob".to_string();
    let sscrt = mock_sscrt().address;
    let (pa, pb) = create_send_request(
        &mut ledger, &config, &sscrt, &a, 10, &b, 500, None, mock_silk(), BLOCK_TIME,
        BLOCK_HEIGHT,
    )
    .unwrap();
    let refund = cancel(&mut ledger, &config, &sscrt, &a, 0, pa).unwrap();
    assert_eq!(refund, Transfer { recipient: a.clone(), amount: 10, token: mock_sscrt() });
    assert_eq!(tx_at_position(&ledger, &a, pa).unwrap().status, TxStatus::Cancelled);
    assert_eq!(tx_at_position(&ledger, &b, pb).unwrap().status, TxStatus::Cancelled);
    assert_eq!(
        cancel(&mut ledger, &config, &sscrt, &a, 0, pa),
        Err(PayError::TxAlreadyCancelled { position: pa })
    );
    // the payee holds the other half and is refused too
    assert_eq!(
        cancel(&mut ledger, &config, &sscrt, &b, 0, pb),
        Err(PayError::TxAlreadyCancelled { position: pb })
    );
}

#[test]
fn payee_may_cancel_from_its_own_half() {
    let config = mock_config();
    let mut ledger = Ledger::new();
    let (_, pb) = send_request_from_user(&mut ledger, &config);
    let admin = mock_contract_initiator_address();
    let refund = cancel(&mut ledger, &config, &mock_sscrt().address, &admin, 0, pb).unwrap();
    assert_eq!(refund.recipient, mock_user_address());
    assert_eq!(
        tx_at_position(&ledger, &mock_user_address(), 0).unwrap().status,
        TxStatus::Cancelled
    );
}

#[test]
fn pairs_on_busy_accounts_point_at_each_other() {
    let config = mock_config();
    let mut ledger = Ledger::new();
    let sscrt = mock_sscrt().address;
    let names = ["a", "b", "c"];
    for (i, j) in [(0, 1), (1, 2), (0, 2), (2, 0), (1, 0)] {
        let from = names[i].to_string();
        let to = names[j].to_string();
        let (pf, pt) = create_send_request(
            &mut ledger, &config, &sscrt, &from, mock_fee(), &to, 1, None, mock_silk(),
            BLOCK_TIME, BLOCK_HEIGHT,
        )
        .unwrap();
        let f = tx_at_position(&ledger, &from, pf).unwrap();
        let t = tx_at_position(&ledger, &to, pt).unwrap();
        assert_eq!(f.other_storage_position, pt);
        assert_eq!(t.other_storage_position, pf);
    }
    assert_eq!(ledger.len_of(&"a".to_string()), 4);
    assert_eq!(ledger.len_of(&"b".to_string()), 3);
    assert_eq!(ledger.len_of(&"c".to_string()), 3);
}

#[test]
fn recurring_math_round_trip() {
    assert_eq!(verify_recurring_tx_parameters(100, 400, 1000, 100, 1300, 500, 5000), Ok(()));
    for total in [0u128, 300, 399, 401, 500, u128::MAX] {
        assert_eq!(
            verify_recurring_tx_parameters(100, total, 1000, 100, 1300, 500, 5000),
            Err(PayError::IncorrectTotalAmount { amount: 100, num_intervals: 4, total_amount: total })
        );
    }
}

#[test]
fn recurring_parameter_errors() {
    assert_eq!(
        verify_recurring_tx_parameters(100, 400, 1000, 100, 1300, 1300, 5000),
        Err(PayError::InvalidEndTime { end_time: 1300, now: 1300, end_time_limit: 5000 })
    );
    assert_eq!(
        verify_recurring_tx_parameters(100, 400, 1000, 100, 1300, 500, 1299),
        Err(PayError::InvalidEndTime { end_time: 1300, now: 500, end_time_limit: 1299 })
    );
    assert_eq!(
        verify_recurring_tx_parameters(100, 400, 1300, 100, 1300, 500, 5000),
        Err(PayError::InvalidStartTime { start_time: 1300, end_time: 1300 })
    );
    assert_eq!(
        verify_recurring_tx_parameters(100, 400, 1000, 70, 1300, 500, 5000),
        Err(PayError::CannotCreateEvenIntervals { diff: 300, interval: 70 })
    );
    assert_eq!(
        verify_recurring_tx_parameters(100, 400, 1000, 0, 1300, 500, 5000),
        Err(PayError::CannotCreateEvenIntervals { diff: 300, interval: 0 })
    );
    assert_eq!(
        verify_recurring_tx_parameters(u128::MAX, 0, 0, 1, u64::MAX, 1, u64::MAX),
        Err(PayError::OverflowOccurred)
    );
    // the widest schedule has 2^64 payments, which a u128 total still holds
    let n: u128 = 1u128 << 64;
    assert_eq!(verify_recurring_tx_parameters(3, 3 * n, 0, 1, u64::MAX, 1, u64::MAX), Ok(()));
}

#[test]
fn recurring_send_request_then_confirm() {
    let config = mock_config();
    let mut ledger = Ledger::new();
    let a = "alice".to_string();
    let b = "bob".to_string();
    let sscrt = mock_sscrt().address;
    let r = create_recurring_send_request(
        &mut ledger, &config, &sscrt, &a, mock_fee(), &b, None, mock_silk(), 100, 1000, 100,
        1300, 399, false, 500, 1,
    );
    assert_eq!(
        r,
        Err(PayError::IncorrectTotalAmount { amount: 100, num_intervals: 4, total_amount: 399 })
    );
    assert_eq!(ledger.len_of(&a), 0);
    let (pa, pb) = create_recurring_send_request(
        &mut ledger, &config, &sscrt, &a, mock_fee(), &b, None, mock_silk(), 100, 1000, 100,
        1300, 400, true, 500, 1,
    )
    .unwrap();
    let t = tx_at_position(&ledger, &b, pb).unwrap();
    assert_eq!(t.status, TxStatus::RecurringUnconfirmed);
    assert_eq!(
        t.class,
        TxClass::RecurringTx {
            start_time: 1000,
            interval: 100,
            last_time_balanced: 1000,
            end_time: 1300,
            allowance_enabled: true,
        }
    );
    // the single-payment confirmation does not apply
    assert_eq!(
        confirm_address(&mut ledger, &config, &sscrt, &b, 0, pb, false),
        Err(PayError::TxNotConfirmationReady { status: 4 })
    );
    confirm_address(&mut ledger, &config, &sscrt, &b, 0, pb, true).unwrap();
    assert_eq!(tx_at_position(&ledger, &a, pa).unwrap().status, TxStatus::RecurringActive);
    assert_eq!(tx_at_position(&ledger, &b, pb).unwrap().status, TxStatus::RecurringActive);
}

#[test]
fn space_pad_to_block_size() {
    let mut message: Vec<u8> = b"hello".to_vec();
    space_pad(8, &mut message);
    assert_eq!(message, b"hello   ".to_vec());
    let mut message: Vec<u8> = b"12345678".to_vec();
    space_pad(8, &mut message);
    assert_eq!(message, b"12345678".to_vec());
    let mut message: Vec<u8> = vec![];
    space_pad(8, &mut message);
    assert!(message.is_empty());
}

#[test]
fn receive_dispatches_a_whole_payment() {
    let mut config = mock_config();
    config.fee = 10;
    let mut ledger = Ledger::new();
    let a = "alice".to_string();
    let b = "bob".to_string();
    let sscrt = mock_sscrt().address;
    let silk = mock_silk();

    let create = ReceiveMsg::CreateReceiveRequest {
        address: a.clone(),
        send_amount: 500,
        description: Some("invoice".to_string()),
        token: silk.clone(),
    };
    assert_eq!(receive(&mut ledger, &config, &sscrt, &b, 10, create, 5, 6), Ok(vec![]));
    let t = tx_at_position(&ledger, &a, 0).unwrap();
    assert_eq!(t.status, TxStatus::Confirmed);
    assert_eq!(t.from, a);
    assert_eq!(t.to, b);
    assert_eq!(t.creator, b);
    assert_eq!(t.block_time, 5);
    assert_eq!(t.block_height, 6);

    let confirm = ReceiveMsg::ConfirmAddress { position: 0 };
    assert_eq!(
        receive(&mut ledger, &config, &sscrt, &b, 0, confirm, 7, 8),
        Err(PayError::TxNotConfirmationReady { status: 1 })
    );

    let pay = ReceiveMsg::SendPayment { position: 0 };
    let transfers = receive(&mut ledger, &config, &silk.address, &a, 500, pay, 7, 8).unwrap();
    assert_eq!(
        transfers,
        vec![
            Transfer { recipient: mock_treasury_address(), amount: 10, token: mock_sscrt() },
            Transfer { recipient: b.clone(), amount: 500, token: silk.clone() },
        ]
    );

    let cancel_msg = ReceiveMsg::Cancel { position: 0 };
    assert_eq!(
        receive(&mut ledger, &config, &sscrt, &b, 0, cancel_msg, 9, 9),
        Err(PayError::TxAlreadyCompleted { position: 0 })
    );
    assert_eq!(tx_at_position(&ledger, &b, 0).unwrap().status, TxStatus::Completed);
}

#[test]
fn receive_cancel_returns_the_refund() {
    let config = mock_config();
    let mut ledger = Ledger::new();
    send_request_from_user(&mut ledger, &config);
    let refund = receive(
        &mut ledger,
        &config,
        &mock_sscrt().address,
        &mock_user_address(),
        0,
        ReceiveMsg::Cancel { position: 0 },
        1,
        1,
    )
    .unwrap();
    assert_eq!(
        refund,
        vec![Transfer { recipient: mock_user_address(), amount: mock_fee(), token: mock_sscrt() }]
    );
}

#[test]
fn recurring_payment_lookup_checks_payer_and_status() {
    let config = mock_config();
    let mut ledger = Ledger::new();
    let a = "alice".to_string();
    let b = "bob".to_string();
    let sscrt = mock_sscrt().address;
    let (pa, pb) = create_recurring_send_request(
        &mut ledger, &config, &sscrt, &a, mock_fee(), &b, None, mock_silk(), 100, 1000, 100,
        1300, 400, false, 500, 1,
    )
    .unwrap();
    assert_eq!(
        verify_txs_for_recurring_payment(&ledger, &a, pa, TxStatus::RecurringActive),
        Err(PayError::TxNotConfirmed { status: 4 })
    );
    assert_eq!(
        verify_txs_for_recurring_payment(&ledger, &b, pb, TxStatus::RecurringUnconfirmed),
        Err(PayError::Unauthorized)
    );
    assert_eq!(
        verify_txs_for_recurring_payment(&ledger, &a, 5, TxStatus::RecurringActive),
        Err(PayError::OutOfBounds)
    );
    confirm_address(&mut ledger, &config, &sscrt, &b, 0, pb, true).unwrap();
    let (mine, theirs) =
        verify_txs_for_recurring_payment(&ledger, &a, pa, TxStatus::RecurringActive).unwrap();
    assert_eq!(mine.position, pa);
    assert_eq!(theirs.position, pb);
    assert_eq!(theirs.from, a);
}
