use crate::error::PayError;
use crate::msg::ReceiveMsg;
use crate::state::{Config, SecretContract};
use crate::ledger::{lemma_pair_halves, mirror_of, set_pair_status, Ledger};
use crate::transaction_history::{
    cancel_refusal, confirm_refusal, payment_refusal, recurring_verdict, store_txs,
    verify_recurring_tx_parameters, verify_txs, verify_txs_for_cancel,
    verify_txs_for_confirm_address, Tx, TxClass, TxStatus,
};
use vstd::prelude::*;

verus! {

/// Responses are padded to a multiple of this many bytes.
pub const BLOCK_SIZE: usize = 256;

/// Why a transfer of `amount_received` in `token_received` does not match
/// the wanted amount and token, if it does not.
pub open spec fn guard_refusal(
    amount_received: u128,
    amount_wanted: u128,
    token_received: Seq<char>,
    token_wanted: Seq<char>,
) -> Option<PayError> {
    if amount_received != amount_wanted {
        Some(PayError::WrongAmount)
    } else if token_received != token_wanted {
        Some(PayError::WrongToken)
    } else {
        None
    }
}

/// Fails with `WrongAmount` unless `amount_received` is `amount_wanted`,
/// then with `WrongToken` unless `token_received` is `token_wanted`.
pub fn correct_amount_of_token(
    amount_received: u128,
    amount_wanted: u128,
    token_received: &String,
    token_wanted: &String,
) -> (r: Result<(), PayError>)
    ensures
        r is Err <==> guard_refusal(amount_received, amount_wanted, token_received@, token_wanted@) is Some,
        r matches Err(e) ==> guard_refusal(amount_received, amount_wanted, token_received@, token_wanted@) == Some(e),
{
    if amount_received != amount_wanted {
        return Err(PayError::WrongAmount);
    }
    if *token_received != *token_wanted {
        return Err(PayError::WrongToken);
    }
    Ok(())
}

/// An instruction to the token module: move `amount` of `token` to
/// `recipient`.
#[derive(Clone, Debug, PartialEq)]
pub struct Transfer {
    pub recipient: String,
    pub amount: u128,
    pub token: SecretContract,
}

/// The terms of a new pair; its positions are set when it is stored.
pub open spec fn request_terms(
    fee: u128,
    from: String,
    to: String,
    creator: String,
    amount: u128,
    token: SecretContract,
    description: Option<String>,
    status: TxStatus,
    block_time: u64,
    block_height: u64,
    class: TxClass,
) -> Tx {
    Tx {
        position: 0,
        other_storage_position: 0,
        fee,
        from,
        to,
        creator,
        amount,
        token,
        description,
        status,
        block_time,
        block_height,
        class,
    }
}

/// Why a new request with the terms `t`, whose fee of `fee_paid` came in the
/// token at `token_sender`, is refused, if it is: the fee must be the
/// configured one, in the fee token; then `check` must have passed; then
/// payer and payee must differ.
pub open spec fn request_refusal(
    config: Config,
    token_sender: Seq<char>,
    fee_paid: u128,
    t: Tx,
    check: Option<PayError>,
) -> Option<PayError> {
    let guard = guard_refusal(fee_paid, config.fee, token_sender, config.sscrt.address@);
    if guard is Some {
        guard
    } else if check is Some {
        check
    } else if t.from@ == t.to@ {
        Some(PayError::SelfPaymentRejected)
    } else {
        None
    }
}

/// `r` and `new` are what a request with the terms `t` gives on `old`:
/// refused with the ledger unchanged, or accepted with `ok` and the pair
/// added.
pub open spec fn request_done<T>(
    old: Ledger,
    new: Ledger,
    refusal: Option<PayError>,
    t: Tx,
    r: Result<T, PayError>,
    ok: T,
) -> bool {
    match refusal {
        Some(e) => r == Err::<T, PayError>(e) && new == old,
        None => r == Ok::<T, PayError>(ok) && old.pair_added(new, t),
    }
}

/// `r` and `new` are what a transition of the pair at `p` of `a` to
/// `status` gives on `old`: refused with the ledger unchanged, or accepted
/// with `ok` and both halves moved to `status`.
pub open spec fn transition_done<T>(
    old: Ledger,
    new: Ledger,
    a: Seq<char>,
    p: int,
    status: TxStatus,
    refusal: Option<PayError>,
    r: Result<T, PayError>,
    ok: T,
) -> bool {
    match refusal {
        Some(e) => r == Err::<T, PayError>(e) && new == old,
        None => r == Ok::<T, PayError>(ok) && old.pair_status_set(new, a, p, status),
    }
}

/// The positions a new pair with the terms `t` gets in `l`: under its
/// payer, then under its payee.
pub open spec fn new_positions(l: Ledger, t: Tx) -> (u32, u32) {
    (l.txs_of(t.from@).len() as u32, l.txs_of(t.to@).len() as u32)
}

/// Stores a new pair of records with the terms of `from`, `to`, `creator`,
/// `amount`, `token`, `description`, `status`, the block and `class`, for a
/// request whose fee of `fee_paid` came in the token at `token_sender`.
fn create_request(
    ledger: &mut Ledger,
    config: &Config,
    token_sender: &String,
    fee_paid: u128,
    from: &String,
    to: &String,
    creator: String,
    amount: u128,
    token: SecretContract,
    description: Option<String>,
    status: TxStatus,
    block_time: u64,
    block_height: u64,
    class: TxClass,
) -> (r: Result<(u32, u32), PayError>)
    requires
        old(ledger).wf(),
        old(ledger).txs_of(from@).len() < u32::MAX,
        old(ledger).txs_of(to@).len() < u32::MAX,
    ensures
        final(ledger).wf(),
        old(ledger).paired() ==> final(ledger).paired(),
        ({
            let t = request_terms(
                config.fee,
                *from,
                *to,
                creator,
                amount,
                token,
                description,
                status,
                block_time,
                block_height,
                class,
            );
            request_done(
                *old(ledger),
                *final(ledger),
                request_refusal(*config, token_sender@, fee_paid, t, None),
                t,
                r,
                new_positions(*old(ledger), t),
            )
        }),
{
    correct_amount_of_token(fee_paid, config.fee, token_sender, &config.sscrt.address)?;
    store_txs(
        ledger,
        config.fee,
        from,
        to,
        creator,
        amount,
        token,
        description,
        status,
        block_time,
        block_height,
        class,
    )
}

/// The terms of a send request by `from` to `address`: it waits for
/// `address` to confirm.
pub open spec fn send_request_terms(
    config: Config,
    from: String,
    address: String,
    send_amount: u128,
    description: Option<String>,
    token: SecretContract,
    block_time: u64,
    block_height: u64,
) -> Tx {
    request_terms(
        config.fee,
        from,
        address,
        from,
        send_amount,
        token,
        description,
        TxStatus::Unconfirmed,
        block_time,
        block_height,
        TxClass::SingleTx {  },
    )
}

/// `from` asks to pay `send_amount` of `token` to `address`, paying the fee
/// of `amount` in the token at `token_sender`. The new pair waits for
/// `address` to confirm; it returns the positions of the halves under
/// `from` and under `address`.
pub fn create_send_request(
    ledger: &mut Ledger,
    config: &Config,
    token_sender: &String,
    from: &String,
    amount: u128,
    address: &String,
    send_amount: u128,
    description: Option<String>,
    token: SecretContract,
    block_time: u64,
    block_height: u64,
) -> (r: Result<(u32, u32), PayError>)
    requires
        old(ledger).wf(),
        old(ledger).txs_of(from@).len() < u32::MAX,
        old(ledger).txs_of(address@).len() < u32::MAX,
    ensures
        final(ledger).wf(),
        old(ledger).paired() ==> final(ledger).paired(),
        ({
            let t = send_request_terms(
                *config,
                *from,
                *address,
                send_amount,
                description,
                token,
                block_time,
                block_height,
            );
            request_done(
                *old(ledger),
                *final(ledger),
                request_refusal(*config, token_sender@, amount, t, None),
                t,
                r,
                new_positions(*old(ledger), t),
            )
        }),
{
    create_request(
        ledger,
        config,
        token_sender,
        amount,
        from,
        address,
        from.clone(),
        send_amount,
        token,
        description,
        TxStatus::Unconfirmed,
        block_time,
        block_height,
        TxClass::SingleTx {  },
    )
}

/// The terms of a receive request by `from` to the payer `address`: the
/// payee is the creator, so the pair is confirmed at once and waits for the
/// payment.
pub open spec fn receive_request_terms(
    config: Config,
    from: String,
    address: String,
    send_amount: u128,
    description: Option<String>,
    token: SecretContract,
    block_time: u64,
    block_height: u64,
) -> Tx {
    request_terms(
        config.fee,
        address,
        from,
        from,
        send_amount,
        token,
        description,
        TxStatus::Confirmed,
        block_time,
        block_height,
        TxClass::SingleTx {  },
    )
}

/// `from` asks `address` to pay it `send_amount` of `token`, paying the fee
/// of `amount` in the token at `token_sender`. The new pair is confirmed at
/// once and waits for the payment; it returns the positions of the halves
/// under `address` and under `from`.
pub fn create_receive_request(
    ledger: &mut Ledger,
    config: &Config,
    token_sender: &String,
    from: &String,
    amount: u128,
    address: &String,
    send_amount: u128,
    description: Option<String>,
    token: SecretContract,
    block_time: u64,
    block_height: u64,
) -> (r: Result<(u32, u32), PayError>)
    requires
        old(ledger).wf(),
        old(ledger).txs_of(from@).len() < u32::MAX,
        old(ledger).txs_of(address@).len() < u32::MAX,
    ensures
        final(ledger).wf(),
        old(ledger).paired() ==> final(ledger).paired(),
        ({
            let t = receive_request_terms(
                *config,
                *from,
                *address,
                send_amount,
                description,
                token,
                block_time,
                block_height,
            );
            request_done(
                *old(ledger),
                *final(ledger),
                request_refusal(*config, token_sender@, amount, t, None),
                t,
                r,
                new_positions(*old(ledger), t),
            )
        }),
{
    create_request(
        ledger,
        config,
        token_sender,
        amount,
        address,
        from,
        from.clone(),
        send_amount,
        token,
        description,
        TxStatus::Confirmed,
        block_time,
        block_height,
        TxClass::SingleTx {  },
    )
}

/// The terms of a recurring send request by `from` to `address`: it waits
/// for `address` to confirm, with nothing balanced before `start_time`.
pub open spec fn recurring_request_terms(
    config: Config,
    from: String,
    address: String,
    description: Option<String>,
    token: SecretContract,
    send_amount: u128,
    start_time: u64,
    interval: u64,
    end_time: u64,
    allowance_enabled: bool,
    block_time: u64,
    block_height: u64,
) -> Tx {
    request_terms(
        config.fee,
        from,
        address,
        from,
        send_amount,
        token,
        description,
        TxStatus::RecurringUnconfirmed,
        block_time,
        block_height,
        TxClass::RecurringTx {
            start_time,
            interval,
            last_time_balanced: start_time,
            end_time,
            allowance_enabled,
        },
    )
}

/// What the schedule check gives against the block time and the configured
/// end-time limit, as a refusal.
pub open spec fn schedule_refusal(
    config: Config,
    send_amount: u128,
    total_amount: u128,
    start_time: u64,
    interval: u64,
    end_time: u64,
    block_time: u64,
) -> Option<PayError> {
    match recurring_verdict(
        send_amount,
        total_amount,
        start_time,
        interval,
        end_time,
        block_time,
        config.end_time_limit,
    ) {
        Ok(()) => None,
        Err(e) => Some(e),
    }
}

/// `from` asks to pay `address` `send_amount` of `token` every `interval`
/// from `start_time` to `end_time`, `total_amount` in all, paying the fee of
/// `amount` in the token at `token_sender`. The schedule is checked against
/// the block time and the configured end-time limit; the new pair waits for
/// `address` to confirm.
pub fn create_recurring_send_request(
    ledger: &mut Ledger,
    config: &Config,
    token_sender: &String,
    from: &String,
    amount: u128,
    address: &String,
    description: Option<String>,
    token: SecretContract,
    send_amount: u128,
    start_time: u64,
    interval: u64,
    end_time: u64,
    total_amount: u128,
    allowance_enabled: bool,
    block_time: u64,
    block_height: u64,
) -> (r: Result<(u32, u32), PayError>)
    requires
        old(ledger).wf(),
        old(ledger).txs_of(from@).len() < u32::MAX,
        old(ledger).txs_of(address@).len() < u32::MAX,
    ensures
        final(ledger).wf(),
        old(ledger).paired() ==> final(ledger).paired(),
        ({
            let t = recurring_request_terms(
                *config,
                *from,
                *address,
                description,
                token,
                send_amount,
                start_time,
                interval,
                end_time,
                allowance_enabled,
                block_time,
                block_height,
            );
            let check = schedule_refusal(
                *config,
                send_amount,
                total_amount,
                start_time,
                interval,
                end_time,
                block_time,
            );
            request_done(
                *old(ledger),
                *final(ledger),
                request_refusal(*config, token_sender@, amount, t, check),
                t,
                r,
                new_positions(*old(ledger), t),
            )
        }),
{
    correct_amount_of_token(amount, config.fee, token_sender, &config.sscrt.address)?;
    verify_recurring_tx_parameters(
        send_amount,
        total_amount,
        start_time,
        interval,
        end_time,
        block_time,
        config.end_time_limit,
    )?;
    let class = TxClass::RecurringTx {
        start_time,
        interval,
        last_time_balanced: start_time,
        end_time,
        allowance_enabled,
    };
    store_txs(
        ledger,
        config.fee,
        from,
        address,
        from.clone(),
        send_amount,
        token,
        description,
        TxStatus::RecurringUnconfirmed,
        block_time,
        block_height,
        class,
    )
}

/// The status an address confirmation moves a pair to.
pub open spec fn confirmed_status(recurring: bool) -> TxStatus {
    if recurring {
        TxStatus::RecurringActive
    } else {
        TxStatus::Confirmed
    }
}

/// Why an address confirmation by `from` of its record at `position`,
/// carrying `amount` in the token at `token_sender`, is refused, if it is:
/// the amount must be zero, in the fee token; then the record must be the
/// caller's as payee and wait for confirmation.
pub open spec fn confirm_address_refusal(
    l: Ledger,
    config: Config,
    token_sender: Seq<char>,
    from: Seq<char>,
    amount: u128,
    position: u32,
    recurring: bool,
) -> Option<PayError> {
    let guard = guard_refusal(amount, 0, token_sender, config.sscrt.address@);
    if guard is Some {
        guard
    } else {
        confirm_refusal(l, from, position as int, recurring)
    }
}

/// The payee `from` confirms its address for its record at `position`; the
/// call carries a transfer of `amount`, which must be zero, in the fee
/// token. Both halves move from waiting to confirmed (to active, for a
/// recurring request). Nothing is transferred.
pub fn confirm_address(
    ledger: &mut Ledger,
    config: &Config,
    token_sender: &String,
    from: &String,
    amount: u128,
    position: u32,
    recurring: bool,
) -> (r: Result<(), PayError>)
    requires
        old(ledger).wf(),
    ensures
        final(ledger).wf(),
        old(ledger).paired() ==> final(ledger).paired(),
        transition_done(
            *old(ledger),
            *final(ledger),
            from@,
            position as int,
            confirmed_status(recurring),
            confirm_address_refusal(
                *old(ledger),
                *config,
                token_sender@,
                from@,
                amount,
                position,
                recurring,
            ),
            r,
            (),
        ),
{
    correct_amount_of_token(amount, 0, token_sender, &config.sscrt.address)?;
    let (_from_tx, to_tx) = verify_txs_for_confirm_address(ledger, from, position, recurring)?;
    let status = if recurring {
        TxStatus::RecurringActive
    } else {
        TxStatus::Confirmed
    };
    let mirror = mirror_of(&to_tx, from);
    set_pair_status(ledger, from, position, mirror, to_tx.other_storage_position, status);
    Ok(())
}

/// Why a cancellation by `from` of the pair whose half under it stands at
/// `position`, carrying `amount` in the token at `token_sender`, is refused,
/// if it is: the amount must be zero, in the fee token; then the pair must
/// exist and be neither cancelled nor completed.
pub open spec fn cancel_op_refusal(
    l: Ledger,
    config: Config,
    token_sender: Seq<char>,
    from: Seq<char>,
    amount: u128,
    position: u32,
) -> Option<PayError> {
    let guard = guard_refusal(amount, 0, token_sender, config.sscrt.address@);
    if guard is Some {
        guard
    } else {
        cancel_refusal(l, from, position)
    }
}

/// The refund of a cancellation: the fee back to the creator, in the fee
/// token.
pub open spec fn refund_of(l: Ledger, config: Config, from: Seq<char>, position: u32) -> Transfer {
    Transfer {
        recipient: l.rec(from, position as int).creator,
        amount: l.rec(from, position as int).fee,
        token: config.sscrt,
    }
}

/// A participant `from` cancels the pair whose half under it stands at
/// `position`; the call carries a transfer of `amount`, which must be zero,
/// in the fee token. Either participant may cancel a pair that is neither
/// cancelled nor completed. Both halves become cancelled, and the fee goes
/// back to the creator.
pub fn cancel(
    ledger: &mut Ledger,
    config: &Config,
    token_sender: &String,
    from: &String,
    amount: u128,
    position: u32,
) -> (r: Result<Transfer, PayError>)
    requires
        old(ledger).wf(),
    ensures
        final(ledger).wf(),
        old(ledger).paired() ==> final(ledger).paired(),
        transition_done(
            *old(ledger),
            *final(ledger),
            from@,
            position as int,
            TxStatus::Cancelled,
            cancel_op_refusal(*old(ledger), *config, token_sender@, from@, amount, position),
            r,
            refund_of(*old(ledger), *config, from@, position),
        ),
{
    correct_amount_of_token(amount, 0, token_sender, &config.sscrt.address)?;
    let (from_tx, _to_tx) = verify_txs_for_cancel(ledger, from, position)?;
    let refund = Transfer {
        recipient: from_tx.creator.clone(),
        amount: from_tx.fee,
        token: config.sscrt.duplicate(),
    };
    let mirror = mirror_of(&from_tx, from);
    set_pair_status(
        ledger,
        from,
        position,
        mirror,
        from_tx.other_storage_position,
        TxStatus::Cancelled,
    );
    Ok(refund)
}

/// The instructions of a settled payment: the fee to the treasury in the
/// fee token, and the amount to the payee in the token paid.
pub open spec fn settlement_of(
    l: Ledger,
    config: Config,
    token_sender: String,
    from: Seq<char>,
    position: u32,
) -> Seq<Transfer> {
    let t = l.rec(from, position as int);
    seq![
        Transfer { recipient: config.treasury_address, amount: t.fee, token: config.sscrt },
        Transfer {
            recipient: t.to,
            amount: t.amount,
            token: SecretContract {
                address: token_sender,
                contract_hash: t.token.contract_hash,
            },
        },
    ]
}

/// The instructions that `r` carries, as a sequence.
pub open spec fn transfers_view(r: Result<Vec<Transfer>, PayError>) -> Result<
    Seq<Transfer>,
    PayError,
> {
    match r {
        Ok(v) => Ok(v@),
        Err(e) => Err(e),
    }
}

/// The payer `from` pays for the pair whose half under it stands at
/// `position`, with a transfer of `amount` in the token at `token_sender`:
/// the agreed amount and token, once the payee has confirmed. Both halves
/// become completed; the fee goes to the treasury and the amount to the
/// payee.
pub fn send_payment(
    ledger: &mut Ledger,
    config: &Config,
    token_sender: &String,
    from: &String,
    amount: u128,
    position: u32,
) -> (r: Result<Vec<Transfer>, PayError>)
    requires
        old(ledger).wf(),
    ensures
        final(ledger).wf(),
        old(ledger).paired() ==> final(ledger).paired(),
        transition_done(
            *old(ledger),
            *final(ledger),
            from@,
            position as int,
            TxStatus::Completed,
            payment_refusal(
                *old(ledger),
                from@,
                position as int,
                amount,
                TxStatus::Confirmed,
                token_sender@,
            ),
            transfers_view(r),
            settlement_of(*old(ledger), *config, *token_sender, from@, position),
        ),
{
    let (from_tx, _to_tx) = verify_txs(
        ledger,
        from,
        amount,
        position,
        TxStatus::Confirmed,
        token_sender,
    )?;
    let mirror = mirror_of(&from_tx, from);
    set_pair_status(
        ledger,
        from,
        position,
        mirror,
        from_tx.other_storage_position,
        TxStatus::Completed,
    );
    let mut messages: Vec<Transfer> = Vec::new();
    messages.push(
        Transfer {
            recipient: config.treasury_address.clone(),
            amount: from_tx.fee,
            token: config.sscrt.duplicate(),
        },
    );
    messages.push(
        Transfer {
            recipient: from_tx.to.clone(),
            amount: from_tx.amount,
            token: SecretContract {
                address: token_sender.clone(),
                contract_hash: from_tx.token.contract_hash.clone(),
            },
        },
    );
    assert(messages@ =~= settlement_of(*old(ledger), *config, *token_sender, from@, position));
    Ok(messages)
}

/// Each participant of the request that `msg` asks for, if it asks for
/// one, has room for one more record.
pub open spec fn receive_fits(l: Ledger, from: Seq<char>, msg: ReceiveMsg) -> bool {
    match msg {
        ReceiveMsg::CreateReceiveRequest { address, .. } => l.txs_of(from).len() < u32::MAX
            && l.txs_of(address@).len() < u32::MAX,
        ReceiveMsg::CreateSendRequest { address, .. } => l.txs_of(from).len() < u32::MAX
            && l.txs_of(address@).len() < u32::MAX,
        ReceiveMsg::CreateRecurringSendRequest { address, .. } => l.txs_of(from).len()
            < u32::MAX && l.txs_of(address@).len() < u32::MAX,
        _ => true,
    }
}

/// Carries out what `msg` asks of `from`, who sent `amount` in the token at
/// `token_sender` with it, in the block at `block_time` and `block_height`;
/// returns the transfers to make.
pub fn receive(
    ledger: &mut Ledger,
    config: &Config,
    token_sender: &String,
    from: &String,
    amount: u128,
    msg: ReceiveMsg,
    block_time: u64,
    block_height: u64,
) -> (r: Result<Vec<Transfer>, PayError>)
    requires
        old(ledger).wf(),
        receive_fits(*old(ledger), from@, msg),
    ensures
        final(ledger).wf(),
        old(ledger).paired() ==> final(ledger).paired(),
        match msg {
            ReceiveMsg::Cancel { position } => transition_done(
                *old(ledger),
                *final(ledger),
                from@,
                position as int,
                TxStatus::Cancelled,
                cancel_op_refusal(*old(ledger), *config, token_sender@, from@, amount, position),
                transfers_view(r),
                seq![refund_of(*old(ledger), *config, from@, position)],
            ),
            ReceiveMsg::ConfirmAddress { position } => transition_done(
                *old(ledger),
                *final(ledger),
                from@,
                position as int,
                confirmed_status(false),
                confirm_address_refusal(
                    *old(ledger),
                    *config,
                    token_sender@,
                    from@,
                    amount,
                    position,
                    false,
                ),
                transfers_view(r),
                Seq::empty(),
            ),
            ReceiveMsg::ConfirmRecurringAddress { position } => transition_done(
                *old(ledger),
                *final(ledger),
                from@,
                position as int,
                confirmed_status(true),
                confirm_address_refusal(
                    *old(ledger),
                    *config,
                    token_sender@,
                    from@,
                    amount,
                    position,
                    true,
                ),
                transfers_view(r),
                Seq::empty(),
            ),
            ReceiveMsg::SendPayment { position } => transition_done(
                *old(ledger),
                *final(ledger),
                from@,
                position as int,
                TxStatus::Completed,
                payment_refusal(
                    *old(ledger),
                    from@,
                    position as int,
                    amount,
                    TxStatus::Confirmed,
                    token_sender@,
                ),
                transfers_view(r),
                settlement_of(*old(ledger), *config, *token_sender, from@, position),
            ),
            ReceiveMsg::CreateSendRequest { address, send_amount, description, token } => {
                let t = send_request_terms(
                    *config,
                    *from,
                    address,
                    send_amount,
                    description,
                    token,
                    block_time,
                    block_height,
                );
                request_done(
                    *old(ledger),
                    *final(ledger),
                    request_refusal(*config, token_sender@, amount, t, None),
                    t,
                    transfers_view(r),
                    Seq::empty(),
                )
            },
            ReceiveMsg::CreateReceiveRequest { address, send_amount, description, token } => {
                let t = receive_request_terms(
                    *config,
                    *from,
                    address,
                    send_amount,
                    description,
                    token,
                    block_time,
                    block_height,
                );
                request_done(
                    *old(ledger),
                    *final(ledger),
                    request_refusal(*config, token_sender@, amount, t, None),
                    t,
                    transfers_view(r),
                    Seq::empty(),
                )
            },
            ReceiveMsg::CreateRecurringSendRequest {
                address,
                description,
                token,
                send_amount,
                start_time,
                interval,
                end_time,
                total_amount,
                allowance_enabled,
            } => {
                let t = recurring_request_terms(
                    *config,
                    *from,
                    address,
                    description,
                    token,
                    send_amount,
                    start_time,
                    interval,
                    end_time,
                    allowance_enabled,
                    block_time,
                    block_height,
                );
                let check = schedule_refusal(
                    *config,
                    send_amount,
                    total_amount,
                    start_time,
                    interval,
                    end_time,
                    block_time,
                );
                request_done(
                    *old(ledger),
                    *final(ledger),
                    request_refusal(*config, token_sender@, amount, t, check),
                    t,
                    transfers_view(r),
                    Seq::empty(),
                )
            },
        },
{
    let mut transfers: Vec<Transfer> = Vec::new();
    match msg {
        ReceiveMsg::Cancel { position } => {
            let refund = cancel(ledger, config, token_sender, from, amount, position)?;
            transfers.push(refund);
            assert(transfers@ =~= seq![refund_of(*old(ledger), *config, from@, position)]);
        },
        ReceiveMsg::ConfirmAddress { position } => {
            confirm_address(ledger, config, token_sender, from, amount, position, false)?;
        },
        ReceiveMsg::ConfirmRecurringAddress { position } => {
            confirm_address(ledger, config, token_sender, from, amount, position, true)?;
        },
        ReceiveMsg::SendPayment { position } => {
            transfers = send_payment(ledger, config, token_sender, from, amount, position)?;
        },
        ReceiveMsg::CreateSendRequest { address, send_amount, description, token } => {
            create_send_request(
                ledger,
                config,
                token_sender,
                from,
                amount,
                &address,
                send_amount,
                description,
                token,
                block_time,
                block_height,
            )?;
        },
        ReceiveMsg::CreateReceiveRequest { address, send_amount, description, token } => {
            create_receive_request(
                ledger,
                config,
                token_sender,
                from,
                amount,
                &address,
                send_amount,
                description,
                token,
                block_time,
                block_height,
            )?;
        },
        ReceiveMsg::CreateRecurringSendRequest {
            address,
            description,
            token,
            send_amount,
            start_time,
            interval,
            end_time,
            total_amount,
            allowance_enabled,
        } => {
            create_recurring_send_request(
                ledger,
                config,
                token_sender,
                from,
                amount,
                &address,
                description,
                token,
                send_amount,
                start_time,
                interval,
                end_time,
                total_amount,
                allowance_enabled,
                block_time,
                block_height,
            )?;
        },
    }
    Ok(transfers)
}

/// A pair that is cancelled or completed stays so: on either of its
/// halves, payment, cancellation and address confirmation are refused,
/// whatever comes with the call, and a refused call changes nothing. And a
/// payment goes through only where the other half is confirmed.
pub proof fn lemma_terminal_pairs_are_final(
    l: Ledger,
    config: Config,
    token_sender: Seq<char>,
    from: Seq<char>,
    amount: u128,
    position: u32,
    recurring: bool,
)
    requires
        l.paired(),
    ensures
        payment_refusal(l, from, position as int, amount, TxStatus::Confirmed, token_sender) is None
            ==> l.mirror_rec(from, position as int).status == TxStatus::Confirmed,
        position < l.txs_of(from).len() && l.rec(from, position as int).status.is_terminal() ==> {
            &&& payment_refusal(
                l,
                from,
                position as int,
                amount,
                TxStatus::Confirmed,
                token_sender,
            ) is Some
            &&& cancel_op_refusal(l, config, token_sender, from, amount, position) is Some
            &&& confirm_address_refusal(
                l,
                config,
                token_sender,
                from,
                amount,
                position,
                recurring,
            ) is Some
        },
{
    if position < l.txs_of(from).len() {
        lemma_pair_halves(l, from, position as int);
    }
}

/// `message` followed by as many spaces as bring its length to a multiple
/// of `block_size`.
pub open spec fn padded(block_size: usize, message: Seq<u8>) -> Seq<u8> {
    let surplus = (message.len() as int) % (block_size as int);
    if surplus == 0 {
        message
    } else {
        message + Seq::new((block_size - surplus) as nat, |i: int| 32u8)
    }
}

/// Pads `message` with spaces up to a multiple of `block_size` bytes.
pub fn space_pad(block_size: usize, message: &mut Vec<u8>) -> (r: &mut Vec<u8>)
    requires
        block_size > 0,
        old(message)@.len() + block_size <= usize::MAX,
    ensures
        r@ == padded(block_size, old(message)@),
        final(message)@ == final(r)@,
{
    let len = message.len();
    let surplus = len % block_size;
    if surplus == 0 {
        return message;
    }
    let missing = block_size - surplus;
    let mut k: usize = 0;
    while k < missing
        invariant
            k <= missing,
            missing == block_size - surplus,
            len == old(message)@.len(),
            message@ == old(message)@ + Seq::new(k as nat, |i: int| 32u8),
        decreases missing - k,
    {
        message.push(32u8);
        proof {
            assert(message@ =~= old(message)@ + Seq::new((k + 1) as nat, |i: int| 32u8));
        }
        k = k + 1;
    }
    message
}

} // verus!
