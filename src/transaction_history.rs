use crate::contract::{correct_amount_of_token, guard_refusal};
use crate::error::PayError;
use crate::ledger::{
    mirror_of, page_of, Ledger,
};
use crate::state::authorize;
use crate::state::SecretContract;
use vstd::prelude::*;

verus! {

/// Where a pair of records stands. The codes are part of the wire format.
#[derive(Clone, Copy, PartialEq, Eq, Debug, Structural)]
pub enum TxStatus {
    /// A request waiting for the counterparty to confirm its address.
    Unconfirmed,
    /// Address confirmed: waiting for the payment.
    Confirmed,
    /// Cancelled; terminal.
    Cancelled,
    /// Paid; terminal.
    Completed,
    /// A recurring request waiting for the counterparty to confirm its address.
    RecurringUnconfirmed,
    /// A confirmed recurring agreement.
    RecurringActive,
}

impl TxStatus {
    pub open spec fn code_spec(self) -> u8 {
        match self {
            TxStatus::Unconfirmed => 0,
            TxStatus::Confirmed => 1,
            TxStatus::Cancelled => 2,
            TxStatus::Completed => 3,
            TxStatus::RecurringUnconfirmed => 4,
            TxStatus::RecurringActive => 5,
        }
    }

    pub open spec fn is_terminal(self) -> bool {
        self is Cancelled || self is Completed
    }

    /// The wire code of this status.
    pub fn code(&self) -> (r: u8)
        ensures
            r == self.code_spec(),
    {
        match self {
            TxStatus::Unconfirmed => 0,
            TxStatus::Confirmed => 1,
            TxStatus::Cancelled => 2,
            TxStatus::Completed => 3,
            TxStatus::RecurringUnconfirmed => 4,
            TxStatus::RecurringActive => 5,
        }
    }

    /// The status with wire code `code`, if there is one.
    pub fn from_code(code: u8) -> (r: Option<TxStatus>)
        ensures
            r is Some <==> code < 6,
            r matches Some(s) ==> s.code_spec() == code,
    {
        match code {
            0 => Some(TxStatus::Unconfirmed),
            1 => Some(TxStatus::Confirmed),
            2 => Some(TxStatus::Cancelled),
            3 => Some(TxStatus::Completed),
            4 => Some(TxStatus::RecurringUnconfirmed),
            5 => Some(TxStatus::RecurringActive),
            _ => None,
        }
    }
}

/// A one-off payment, or a schedule of payments every `interval` from
/// `start_time` to `end_time`.
#[derive(Clone, Copy, PartialEq, Eq, Debug, Structural)]
pub enum TxClass {
    SingleTx {},
    RecurringTx {
        start_time: u64,
        interval: u64,
        last_time_balanced: u64,
        end_time: u64,
        allowance_enabled: bool,
    },
}

/// One half of a pair of records: the copy kept under one participant's
/// account. `other_storage_position` is where the other half stands in the
/// other participant's sequence.
#[derive(Clone, Debug, PartialEq)]
pub struct Tx {
    pub position: u32,
    pub other_storage_position: u32,
    pub fee: u128,
    pub from: String,
    pub to: String,
    pub creator: String,
    pub amount: u128,
    pub token: SecretContract,
    pub description: Option<String>,
    pub status: TxStatus,
    pub block_time: u64,
    pub block_height: u64,
    pub class: TxClass,
}

/// A copy of `d`.
pub fn duplicate_description(d: &Option<String>) -> (r: Option<String>)
    ensures
        r == *d,
{
    match d {
        Some(s) => Some(s.clone()),
        None => None,
    }
}

impl Tx {
    /// `self` with its status replaced.
    pub open spec fn with_status(self, status: TxStatus) -> Tx {
        Tx { status, ..self }
    }

    /// A copy with the same fields.
    pub fn duplicate(&self) -> (r: Tx)
        ensures
            r == *self,
    {
        Tx {
            position: self.position,
            other_storage_position: self.other_storage_position,
            fee: self.fee,
            from: self.from.clone(),
            to: self.to.clone(),
            creator: self.creator.clone(),
            amount: self.amount,
            token: self.token.duplicate(),
            description: duplicate_description(&self.description),
            status: self.status,
            block_time: self.block_time,
            block_height: self.block_height,
            class: self.class,
        }
    }
}

/// A record as it is shown to its participants: the schedule fields are
/// present for a recurring payment only, the status is its wire code.
#[derive(Clone, Debug, PartialEq)]
pub struct HumanizedTx {
    pub position: u32,
    pub from: String,
    pub to: String,
    pub amount: u128,
    pub token: SecretContract,
    pub description: Option<String>,
    pub status: u8,
    pub block_time: u64,
    pub block_height: u64,
    pub start_time: Option<u64>,
    pub interval: Option<u64>,
    pub last_time_balanced: Option<u64>,
    pub end_time: Option<u64>,
    pub allowance_enabled: Option<bool>,
}

/// How `t` is shown.
pub open spec fn humanized(t: Tx) -> HumanizedTx {
    let base = HumanizedTx {
        position: t.position,
        from: t.from,
        to: t.to,
        amount: t.amount,
        token: t.token,
        description: t.description,
        status: t.status.code_spec(),
        block_time: t.block_time,
        block_height: t.block_height,
        start_time: None,
        interval: None,
        last_time_balanced: None,
        end_time: None,
        allowance_enabled: None,
    };
    match t.class {
        TxClass::SingleTx {  } => base,
        TxClass::RecurringTx {
            start_time,
            interval,
            last_time_balanced,
            end_time,
            allowance_enabled,
        } => HumanizedTx {
            start_time: Some(start_time),
            interval: Some(interval),
            last_time_balanced: Some(last_time_balanced),
            end_time: Some(end_time),
            allowance_enabled: Some(allowance_enabled),
            ..base
        },
    }
}

impl Tx {
    /// The record as it is shown to its participants.
    pub fn into_humanized(self) -> (r: HumanizedTx)
        ensures
            r == humanized(self),
    {
        let status = self.status.code();
        match self.class {
            TxClass::SingleTx {  } => HumanizedTx {
                position: self.position,
                from: self.from,
                to: self.to,
                amount: self.amount,
                token: self.token,
                description: self.description,
                status,
                block_time: self.block_time,
                block_height: self.block_height,
                start_time: None,
                interval: None,
                last_time_balanced: None,
                end_time: None,
                allowance_enabled: None,
            },
            TxClass::RecurringTx {
                start_time,
                interval,
                last_time_balanced,
                end_time,
                allowance_enabled,
            } => HumanizedTx {
                position: self.position,
                from: self.from,
                to: self.to,
                amount: self.amount,
                token: self.token,
                description: self.description,
                status,
                block_time: self.block_time,
                block_height: self.block_height,
                start_time: Some(start_time),
                interval: Some(interval),
                last_time_balanced: Some(last_time_balanced),
                end_time: Some(end_time),
                allowance_enabled: Some(allowance_enabled),
            },
        }
    }
}

/// Adds a pair of records: one under `from`, one under `to`, each pointing
/// at the other. Self-payments are refused and add nothing.
pub fn store_txs(
    ledger: &mut Ledger,
    fee: u128,
    from: &String,
    to: &String,
    creator: String,
    amount: u128,
    token: SecretContract,
    description: Option<String>,
    status: TxStatus,
    block_time: u64,
    block_height: u64,
    class: TxClass,
) -> (r: Result<(u32, u32), PayError>)
    requires
        old(ledger).wf(),
        old(ledger).txs_of(from@).len() < u32::MAX,
        old(ledger).txs_of(to@).len() < u32::MAX,
    ensures
        final(ledger).wf(),
        from@ == to@ ==> r == Err::<(u32, u32), PayError>(PayError::SelfPaymentRejected)
            && *final(ledger) == *old(ledger),
        from@ != to@ ==> r == Ok::<(u32, u32), PayError>(
            (
                old(ledger).txs_of(from@).len() as u32,
                old(ledger).txs_of(to@).len() as u32,
            ),
        ),
        r is Ok ==> old(ledger).pair_added(
            *final(ledger),
            (Tx {
                position: 0,
                other_storage_position: 0,
                fee,
                from: *from,
                to: *to,
                creator,
                amount,
                token,
                description,
                status,
                block_time,
                block_height,
                class,
            }),
        ),
        old(ledger).paired() ==> final(ledger).paired(),
{
    if *from == *to {
        return Err(PayError::SelfPaymentRejected);
    }
    let ghost prev = *ledger;
    let from_position = ledger.len_of(from);
    let to_position = ledger.len_of(to);
    let from_tx = Tx {
        position: from_position,
        other_storage_position: to_position,
        fee,
        from: from.clone(),
        to: to.clone(),
        creator,
        amount,
        token,
        description,
        status,
        block_time,
        block_height,
        class,
    };
    let mut to_tx = from_tx.duplicate();
    to_tx.position = to_position;
    to_tx.other_storage_position = from_position;
    ledger.append(from, from_tx);
    ledger.append(to, to_tx);
    proof {
        let new = *ledger;
        assert forall|b: Seq<char>| #[trigger] new.txs_of(b).len() >= prev.txs_of(b).len() by {}
        assert forall|b: Seq<char>, j: int|
            0 <= j < prev.txs_of(b).len() implies #[trigger] new.txs_of(b)[j] == prev.txs_of(b)[j] by {}
        if prev.paired() {
            assert forall|a: Seq<char>, i: int| 0 <= i < new.txs_of(a).len() implies #[trigger] new.pair_at(a, i) by {
                if i < prev.txs_of(a).len() {
                    assert(prev.pair_at(a, i));
                    Ledger::lemma_extends(prev, new, a, i);
                } else {
                    assert(a == from@ || a == to@);
                }
            }
        }
    }
    Ok((from_position, to_position))
}

/// The record at `position` of `address`.
pub fn tx_at_position(ledger: &Ledger, address: &String, position: u32) -> (r: Result<Tx, PayError>)
    requires
        ledger.wf(),
    ensures
        r is Ok <==> position < ledger.txs_of(address@).len(),
        r matches Ok(t) ==> t == ledger.rec(address@, position as int),
        r matches Err(e) ==> e == PayError::OutOfBounds,
{
    match ledger.get(address, position) {
        Ok(t) => Ok(t.duplicate()),
        Err(e) => Err(e),
    }
}

/// Writes `tx` over the record at `tx.position` of `address`.
pub fn update_tx(ledger: &mut Ledger, address: &String, tx: Tx) -> (r: Result<(), PayError>)
    requires
        old(ledger).wf(),
    ensures
        final(ledger).wf(),
        r is Ok <==> tx.position < old(ledger).txs_of(address@).len(),
        r is Ok ==> final(ledger).txs_of(address@) == old(ledger).txs_of(address@).update(
            tx.position as int,
            tx,
        ),
        r is Err ==> r == Err::<(), PayError>(PayError::OutOfBounds) && *final(ledger) == *old(
            ledger,
        ),
        forall|a: Seq<char>| a != address@ ==> #[trigger] final(ledger).txs_of(a) == old(
            ledger,
        ).txs_of(a),
{
    ledger.set(address, tx)
}

/// The record at `position` of `address` and the record it points to.
fn pair_at_position(ledger: &Ledger, address: &String, position: u32) -> (r: Result<
    (Tx, Tx),
    PayError,
>)
    requires
        ledger.wf(),
    ensures
        r is Ok <==> ledger.holds_pair(address@, position as int),
        r matches Ok((t, u)) ==> t == ledger.rec(address@, position as int) && u
            == ledger.mirror_rec(address@, position as int),
        r matches Err(e) ==> e == PayError::OutOfBounds,
{
    let t = tx_at_position(ledger, address, position)?;
    let u = tx_at_position(ledger, mirror_of(&t, address), t.other_storage_position)?;
    Ok((t, u))
}

/// A page of the records of `for_address`, most recent first, as they are
/// shown; with the number of records the account has.
pub fn get_txs(ledger: &Ledger, for_address: &String, page: u32, page_size: u32) -> (r: (
    Vec<HumanizedTx>,
    u64,
))
    requires
        ledger.wf(),
    ensures
        r.1 == ledger.txs_of(for_address@).len(),
        r.0@ == page_of(ledger.txs_of(for_address@), page as int, page_size as int).map_values(
            |t: Tx| humanized(t),
        ),
{
    let (txs, total) = ledger.list(for_address, page, page_size);
    let mut out: Vec<HumanizedTx> = Vec::new();
    let mut i: usize = 0;
    while i < txs.len()
        invariant
            i <= txs@.len(),
            out@ == txs@.subrange(0, i as int).map_values(|t: Tx| humanized(t)),
        decreases txs@.len() - i,
    {
        out.push(txs[i].duplicate().into_humanized());
        proof {
            assert(out@ =~= txs@.subrange(0, i + 1).map_values(|t: Tx| humanized(t)));
        }
        i = i + 1;
    }
    assert(txs@.subrange(0, txs@.len() as int) =~= txs@);
    (out, total)
}

/// Looks up the record at `position` of the payer `address` and its other
/// half, for a payment of `amount` in the token at `token_address`: the
/// amount and token must be the agreed ones, the payer the other half's
/// `from`, and the other half must be at `status`.
pub fn verify_txs(
    ledger: &Ledger,
    address: &String,
    amount: u128,
    position: u32,
    status: TxStatus,
    token_address: &String,
) -> (r: Result<(Tx, Tx), PayError>)
    requires
        ledger.wf(),
    ensures
        r is Err <==> payment_refusal(*ledger, address@, position as int, amount, status, token_address@) is Some,
        r matches Err(e) ==> payment_refusal(*ledger, address@, position as int, amount, status, token_address@) == Some(e),
        r matches Ok((t, u)) ==> t == ledger.rec(address@, position as int) && u == ledger.mirror_rec(address@, position as int),
{
    let (from_tx, to_tx) = pair_at_position(ledger, address, position)?;
    correct_amount_of_token(amount, to_tx.amount, token_address, &to_tx.token.address)?;
    authorize(&to_tx.from, address)?;
    if to_tx.status != status {
        return Err(PayError::TxNotConfirmed { status: to_tx.status.code() });
    }
    Ok((from_tx, to_tx))
}

/// As `verify_txs`, for a payment of a recurring agreement, whose amount is
/// not checked here.
pub fn verify_txs_for_recurring_payment(
    ledger: &Ledger,
    address: &String,
    position: u32,
    status: TxStatus,
) -> (r: Result<(Tx, Tx), PayError>)
    requires
        ledger.wf(),
    ensures
        r is Err <==> recurring_payment_refusal(*ledger, address@, position as int, status) is Some,
        r matches Err(e) ==> recurring_payment_refusal(*ledger, address@, position as int, status) == Some(e),
        r matches Ok((t, u)) ==> t == ledger.rec(address@, position as int) && u == ledger.mirror_rec(address@, position as int),
{
    let (from_tx, to_tx) = pair_at_position(ledger, address, position)?;
    authorize(&to_tx.from, address)?;
    if to_tx.status != status {
        return Err(PayError::TxNotConfirmed { status: to_tx.status.code() });
    }
    Ok((from_tx, to_tx))
}

/// Looks up the record at `position` of `address` and its other half, for
/// a cancellation: the other half may not be cancelled or completed
/// already.
pub fn verify_txs_for_cancel(ledger: &Ledger, address: &String, position: u32) -> (r: Result<
    (Tx, Tx),
    PayError,
>)
    requires
        ledger.wf(),
    ensures
        r is Err <==> cancel_refusal(*ledger, address@, position) is Some,
        r matches Err(e) ==> cancel_refusal(*ledger, address@, position) == Some(e),
        r matches Ok((t, u)) ==> t == ledger.rec(address@, position as int) && u == ledger.mirror_rec(address@, position as int),
{
    let (from_tx, to_tx) = pair_at_position(ledger, address, position)?;
    if to_tx.status == TxStatus::Cancelled {
        return Err(PayError::TxAlreadyCancelled { position });
    }
    if to_tx.status == TxStatus::Completed {
        return Err(PayError::TxAlreadyCompleted { position });
    }
    Ok((from_tx, to_tx))
}

/// Looks up the record at `position` of the payee `address` and its other
/// half, for an address confirmation: the caller must be the record's `to`,
/// and the record must wait for confirmation (as a recurring request where
/// `recurring` holds). The half under `from` comes first.
pub fn verify_txs_for_confirm_address(
    ledger: &Ledger,
    address: &String,
    position: u32,
    recurring: bool,
) -> (r: Result<(Tx, Tx), PayError>)
    requires
        ledger.wf(),
    ensures
        r is Err <==> confirm_refusal(*ledger, address@, position as int, recurring) is Some,
        r matches Err(e) ==> confirm_refusal(*ledger, address@, position as int, recurring) == Some(e),
        r matches Ok((u, t)) ==> t == ledger.rec(address@, position as int) && u == ledger.mirror_rec(address@, position as int),
{
    let (to_tx, from_tx) = pair_at_position(ledger, address, position)?;
    authorize(&to_tx.to, address)?;
    let waiting = if recurring {
        TxStatus::RecurringUnconfirmed
    } else {
        TxStatus::Unconfirmed
    };
    if to_tx.status != waiting {
        return Err(PayError::TxNotConfirmationReady { status: to_tx.status.code() });
    }
    Ok((from_tx, to_tx))
}

/// Why a payment of `amount` in the token at `token_address` by `a` on its
/// record at `p` is refused, if it is: a missing record, a wrong amount or
/// token, a payer that is not the other half's `from`, or another half
/// that is not at `status`.
pub open spec fn payment_refusal(
    l: Ledger,
    a: Seq<char>,
    p: int,
    amount: u128,
    status: TxStatus,
    token_address: Seq<char>,
) -> Option<PayError> {
    let u = l.mirror_rec(a, p);
    if !l.holds_pair(a, p) {
        Some(PayError::OutOfBounds)
    } else if guard_refusal(amount, u.amount, token_address, u.token.address@) is Some {
        guard_refusal(amount, u.amount, token_address, u.token.address@)
    } else if u.from@ != a {
        Some(PayError::Unauthorized)
    } else if u.status != status {
        Some(PayError::TxNotConfirmed { status: u.status.code_spec() })
    } else {
        None
    }
}

/// Why a payment of a recurring agreement by `a` on its record at `p` is
/// refused, if it is.
pub open spec fn recurring_payment_refusal(l: Ledger, a: Seq<char>, p: int, status: TxStatus) -> Option<PayError> {
    let u = l.mirror_rec(a, p);
    if !l.holds_pair(a, p) {
        Some(PayError::OutOfBounds)
    } else if u.from@ != a {
        Some(PayError::Unauthorized)
    } else if u.status != status {
        Some(PayError::TxNotConfirmed { status: u.status.code_spec() })
    } else {
        None
    }
}

/// Why cancelling the record at `position` of `a` is refused, if it is: a
/// missing record, or a pair already cancelled or completed.
pub open spec fn cancel_refusal(l: Ledger, a: Seq<char>, position: u32) -> Option<PayError> {
    let u = l.mirror_rec(a, position as int);
    if !l.holds_pair(a, position as int) {
        Some(PayError::OutOfBounds)
    } else if u.status == TxStatus::Cancelled {
        Some(PayError::TxAlreadyCancelled { position })
    } else if u.status == TxStatus::Completed {
        Some(PayError::TxAlreadyCompleted { position })
    } else {
        None
    }
}

/// The status of a request that waits for the payee's address.
pub open spec fn waiting_status(recurring: bool) -> TxStatus {
    if recurring {
        TxStatus::RecurringUnconfirmed
    } else {
        TxStatus::Unconfirmed
    }
}

/// Why confirming the record at `p` of `a` is refused, if it is: a missing
/// record, a caller that is not its `to`, or a record that does not wait
/// for confirmation.
pub open spec fn confirm_refusal(l: Ledger, a: Seq<char>, p: int, recurring: bool) -> Option<PayError> {
    let t = l.rec(a, p);
    if !l.holds_pair(a, p) {
        Some(PayError::OutOfBounds)
    } else if t.to@ != a {
        Some(PayError::Unauthorized)
    } else if t.status != waiting_status(recurring) {
        Some(PayError::TxNotConfirmationReady { status: t.status.code_spec() })
    } else {
        None
    }
}

/// How many payments a schedule from `start_time` to `end_time`, one every
/// `interval`, makes: both ends included.
pub open spec fn num_intervals(start_time: u64, interval: u64, end_time: u64) -> int {
    (end_time - start_time) / (interval as int) + 1
}

/// What the checks of a recurring schedule give, in their order: the end
/// must lie after `now` and within the limit, the start before the end, the
/// span must split into whole intervals, and `amount` for each payment must
/// add up, without overflow, to `total_amount`.
pub open spec fn recurring_verdict(
    amount: u128,
    total_amount: u128,
    start_time: u64,
    interval: u64,
    end_time: u64,
    now: u64,
    end_time_limit: u64,
) -> Result<(), PayError> {
    let n = num_intervals(start_time, interval, end_time);
    if end_time_limit < end_time || end_time <= now {
        Err(PayError::InvalidEndTime { end_time, now, end_time_limit })
    } else if start_time >= end_time {
        Err(PayError::InvalidStartTime { start_time, end_time })
    } else if interval == 0 || (end_time - start_time) % (interval as int) != 0 {
        Err(PayError::CannotCreateEvenIntervals { diff: (end_time - start_time) as u64, interval })
    } else if amount * n > u128::MAX {
        Err(PayError::OverflowOccurred)
    } else if amount * n != total_amount {
        Err(PayError::IncorrectTotalAmount { amount, num_intervals: n as u128, total_amount })
    } else {
        Ok(())
    }
}

/// Checks the terms of a recurring payment: `amount` every `interval` from
/// `start_time` to `end_time`, `total_amount` in all.
pub fn verify_recurring_tx_parameters(
    amount: u128,
    total_amount: u128,
    start_time: u64,
    interval: u64,
    end_time: u64,
    now: u64,
    config_end_time_limit: u64,
) -> (r: Result<(), PayError>)
    ensures
        r == recurring_verdict(
            amount,
            total_amount,
            start_time,
            interval,
            end_time,
            now,
            config_end_time_limit,
        ),
{
    if config_end_time_limit < end_time || end_time <= now {
        return Err(
            PayError::InvalidEndTime { end_time, now, end_time_limit: config_end_time_limit },
        );
    }
    if start_time >= end_time {
        return Err(PayError::InvalidStartTime { start_time, end_time });
    }
    let diff = end_time - start_time;
    if interval == 0 || diff % interval != 0 {
        return Err(PayError::CannotCreateEvenIntervals { diff, interval });
    }
    let num_intervals: u128 = (diff / interval) as u128 + 1;
    match amount.checked_mul(num_intervals) {
        Some(calc_total) => {
            if calc_total == total_amount {
                Ok(())
            } else {
                Err(PayError::IncorrectTotalAmount { amount, num_intervals, total_amount })
            }
        },
        None => Err(PayError::OverflowOccurred),
    }
}

} // verus!
