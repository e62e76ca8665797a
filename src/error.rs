use vstd::prelude::*;

verus! {

/// What went wrong, as a stable numeric code (its position in this list)
/// with a message template for the human-readable context.
#[derive(Clone, Copy, PartialEq, Eq, Debug, Structural)]
pub enum Error {
    OverflowOccurred,
    TxNotConfirmationReady,
    TxAlreadyCancelled,
    TxAlreadyCompleted,
    TxNotConfirmed,
    TxNotRecurring,
    InvalidStartTime,
    InvalidEndTime,
    CannotCreateEvenIntervals,
    IncorrectTotalAmount,
}

/// `s` with its leftmost `{}` replaced by `arg`; `s` itself when it holds none.
pub open spec fn fill_first(s: Seq<char>, arg: Seq<char>) -> Seq<char>
    decreases s.len(),
{
    if s.len() < 2 {
        s
    } else if s[0] == '{' && s[1] == '}' {
        arg + s.subrange(2, s.len() as int)
    } else {
        seq![s[0]] + fill_first(s.subrange(1, s.len() as int), arg)
    }
}

/// `s` with the placeholders filled by `args`, one after the other, each
/// going into the leftmost `{}` left at that point.
pub open spec fn fill(s: Seq<char>, args: Seq<Seq<char>>) -> Seq<char>
    decreases args.len(),
{
    if args.len() == 0 {
        s
    } else {
        fill_first(fill(s, args.drop_last()), args.last())
    }
}

/// The characters of each context argument.
pub open spec fn context_view(context: Seq<&str>) -> Seq<Seq<char>> {
    context.map_values(|s: &str| s@)
}

/// Relies on `str::replacen` with a count of one: the leftmost non-overlapping
/// match of `{}` is replaced by `arg`, the rest is kept.
#[verifier::external_body]
fn replace_first_placeholder(msg: &str, arg: &str) -> (r: String)
    ensures
        r@ == fill_first(msg@, arg@),
{
    msg.replacen("{}", arg, 1)
}

/// Fills the `{}` placeholders of `verbose` with `context`, in order.
pub fn build_string(verbose: &str, context: &Vec<&str>) -> (r: String)
    ensures
        r@ == fill(verbose@, context_view(context@)),
{
    let mut msg = verbose.to_owned();
    let mut i: usize = 0;
    while i < context.len()
        invariant
            i <= context.len(),
            msg@ == fill(verbose@, context_view(context@.subrange(0, i as int))),
        decreases context.len() - i,
    {
        let arg: &str = context[i];
        msg = replace_first_placeholder(msg.as_str(), arg);
        proof {
            let next = context_view(context@.subrange(0, i + 1));
            assert(next.drop_last() =~= context_view(context@.subrange(0, i as int)));
            assert(next.last() == arg@);
        }
        i = i + 1;
    }
    assert(context@.subrange(0, context@.len() as int) =~= context@);
    msg
}

/// A kind of error that has a numeric code and a message template. Each
/// kind states its code and template; the defaults below stand for a kind
/// that states neither.
pub trait CodeType: Sized {
    /// The numeric code of this kind.
    open spec fn code_spec(&self) -> u8 {
        0
    }

    /// The message template of this kind, with `{}` where context goes.
    open spec fn template(&self) -> Seq<char> {
        Seq::empty()
    }

    fn to_code(&self) -> (r: u8)
        ensures
            r == self.code_spec(),
    ;

    fn to_verbose(&self, context: &Vec<&str>) -> (r: String)
        ensures
            r@ == fill(self.template(), context_view(context@)),
    ;
}

/// An error with its code, its kind, the context it was raised with and the
/// message built from them.
#[derive(Clone, Debug)]
pub struct DetailedError<T: CodeType> {
    pub target: String,
    pub code: u8,
    pub code_type: T,
    pub context: Vec<String>,
    pub verbose: String,
}

/// The characters of each owned string.
pub open spec fn strings_view(v: Seq<String>) -> Seq<Seq<char>> {
    v.map_values(|s: String| s@)
}

impl<T: CodeType> DetailedError<T> {
    /// The error of kind `code` raised by `target` with `context`.
    pub fn from_code(target: &str, code: T, context: Vec<&str>) -> (r: Self)
        ensures
            r.target@ == target@,
            r.code == code.code_spec(),
            r.code_type == code,
            strings_view(r.context@) == context_view(context@),
            r.verbose@ == fill(code.template(), context_view(context@)),
    {
        let verbose = code.to_verbose(&context);
        let mut owned: Vec<String> = Vec::new();
        let mut i: usize = 0;
        while i < context.len()
            invariant
                i <= context.len(),
                owned@.len() == i,
                forall|j: int| 0 <= j < i ==> #[trigger] owned@[j]@ == context@[j]@,
            decreases context.len() - i,
        {
            let s: String = context[i].to_owned();
            owned.push(s);
            i = i + 1;
        }
        assert(strings_view(owned@) =~= context_view(context@));
        let code_value = code.to_code();
        DetailedError {
            target: target.to_owned(),
            code: code_value,
            code_type: code,
            context: owned,
            verbose,
        }
    }
}

impl CodeType for Error {
    open spec fn code_spec(&self) -> u8 {
        match self {
            Error::OverflowOccurred => 0,
            Error::TxNotConfirmationReady => 1,
            Error::TxAlreadyCancelled => 2,
            Error::TxAlreadyCompleted => 3,
            Error::TxNotConfirmed => 4,
            Error::TxNotRecurring => 5,
            Error::InvalidStartTime => 6,
            Error::InvalidEndTime => 7,
            Error::CannotCreateEvenIntervals => 8,
            Error::IncorrectTotalAmount => 9,
        }
    }

    open spec fn template(&self) -> Seq<char> {
        match self {
            Error::OverflowOccurred => "Overflow error occurred. Check values"@,
            Error::TxNotConfirmationReady => "Tx is not at confirmation state. Current state is '{}'"@,
            Error::TxAlreadyCancelled => "Tx at position {} has already been cancelled"@,
            Error::TxAlreadyCompleted => "Tx at position {} has already been completed"@,
            Error::TxNotConfirmed => "Tx is not confirmed and ready to be fulfilled. Current state is '{}'"@,
            Error::TxNotRecurring => "Tx selected isn't recurring"@,
            Error::InvalidStartTime => "Start time of {} must be before selected end time of {}"@,
            Error::InvalidEndTime => "End time of {} must be after current time of {}"@,
            Error::CannotCreateEvenIntervals => "Time span of {} cannot be split into even intervals of {}"@,
            Error::IncorrectTotalAmount => "Amount of {} over {} intervals does not equal total amount of {}"@,
        }
    }

    fn to_code(&self) -> (r: u8) {
        match self {
            Error::OverflowOccurred => 0,
            Error::TxNotConfirmationReady => 1,
            Error::TxAlreadyCancelled => 2,
            Error::TxAlreadyCompleted => 3,
            Error::TxNotConfirmed => 4,
            Error::TxNotRecurring => 5,
            Error::InvalidStartTime => 6,
            Error::InvalidEndTime => 7,
            Error::CannotCreateEvenIntervals => 8,
            Error::IncorrectTotalAmount => 9,
        }
    }

    fn to_verbose(&self, context: &Vec<&str>) -> (r: String) {
        match self {
            Error::OverflowOccurred => build_string("Overflow error occurred. Check values", context),
            Error::TxNotConfirmationReady => build_string(
                "Tx is not at confirmation state. Current state is '{}'",
                context,
            ),
            Error::TxAlreadyCancelled => build_string(
                "Tx at position {} has already been cancelled",
                context,
            ),
            Error::TxAlreadyCompleted => build_string(
                "Tx at position {} has already been completed",
                context,
            ),
            Error::TxNotConfirmed => build_string(
                "Tx is not confirmed and ready to be fulfilled. Current state is '{}'",
                context,
            ),
            Error::TxNotRecurring => build_string("Tx selected isn't recurring", context),
            Error::InvalidStartTime => build_string(
                "Start time of {} must be before selected end time of {}",
                context,
            ),
            Error::InvalidEndTime => build_string(
                "End time of {} must be after current time of {}",
                context,
            ),
            Error::CannotCreateEvenIntervals => build_string(
                "Time span of {} cannot be split into even intervals of {}",
                context,
            ),
            Error::IncorrectTotalAmount => build_string(
                "Amount of {} over {} intervals does not equal total amount of {}",
                context,
            ),
        }
    }
}

/// The target that every error of this library names.
pub const SILK_PAY_TARGET: &'static str = "silk_pay";

/// The decimal digit for `d < 10`.
pub open spec fn digit_char(d: nat) -> char {
    seq!['0', '1', '2', '3', '4', '5', '6', '7', '8', '9'][d as int]
}

/// The decimal writing of `n`: no sign, no leading zeros.
pub open spec fn decimal(n: nat) -> Seq<char>
    decreases n,
{
    if n < 10 {
        seq![digit_char(n)]
    } else {
        decimal(n / 10).push(digit_char(n % 10))
    }
}

/// Relies on `ToString` through `Display` for `u128`: the decimal digits of
/// the value, without sign or leading zeros.
#[verifier::external_body]
fn decimal_string(n: u128) -> (r: String)
    ensures
        r@ == decimal(n as nat),
{
    n.to_string()
}

/// `e` is the error of kind `kind` raised by this library with `context`.
pub open spec fn raised(e: DetailedError<Error>, kind: Error, context: Seq<Seq<char>>) -> bool {
    &&& e.target@ == SILK_PAY_TARGET@
    &&& e.code == kind.code_spec()
    &&& e.code_type == kind
    &&& strings_view(e.context@) == context
    &&& e.verbose@ == fill(kind.template(), context)
}

/// The error of kind `kind` raised by this library with `context`.
fn raise(kind: Error, context: Vec<&str>) -> (r: DetailedError<Error>)
    ensures
        raised(r, kind, context_view(context@)),
{
    DetailedError::from_code(SILK_PAY_TARGET, kind, context)
}

/// An amount computation would overflow.
pub fn overflow_occurred() -> (r: DetailedError<Error>)
    ensures
        raised(r, Error::OverflowOccurred, seq![]),
{
    let context: Vec<&str> = Vec::new();
    assert(context_view(context@) =~= seq![]);
    raise(Error::OverflowOccurred, context)
}

/// How a status that is not waiting for confirmation is described.
pub open spec fn confirmation_state_text(status: u8) -> Seq<char> {
    if status == 1 {
        "Receiver Confirmed Address"@
    } else if status == 2 {
        "Tx Cancelled"@
    } else if status == 3 {
        "Tx Completed"@
    } else if status == 5 {
        "Receiver Confirmed Address, Recurring Tx Active"@
    } else {
        "Error Misfire"@
    }
}

/// How a status that is not confirmed for payment is described.
pub open spec fn payment_state_text(status: u8) -> Seq<char> {
    if status == 0 || status == 4 {
        "Tx Unconfirmed"@
    } else if status == 2 {
        "Tx Cancelled"@
    } else if status == 3 {
        "Tx Completed"@
    } else {
        "Error Misfire"@
    }
}

fn one_arg(arg: &str) -> (r: Vec<&str>)
    ensures
        context_view(r@) == seq![arg@],
{
    let mut v: Vec<&str> = Vec::new();
    v.push(arg);
    assert(context_view(v@) =~= seq![arg@]);
    v
}

fn two_args<'a>(first: &'a str, second: &'a str) -> (r: Vec<&'a str>)
    ensures
        context_view(r@) == seq![first@, second@],
{
    let mut v: Vec<&str> = Vec::new();
    v.push(first);
    v.push(second);
    assert(context_view(v@) =~= seq![first@, second@]);
    v
}

/// The record does not wait for address confirmation; names its state.
pub fn tx_not_at_confirmation_stage(status: u8) -> (r: DetailedError<Error>)
    ensures
        raised(r, Error::TxNotConfirmationReady, seq![confirmation_state_text(status)]),
{
    let current_state: &str = match status {
        1 => "Receiver Confirmed Address",
        2 => "Tx Cancelled",
        3 => "Tx Completed",
        5 => "Receiver Confirmed Address, Recurring Tx Active",
        _ => "Error Misfire",
    };
    raise(Error::TxNotConfirmationReady, one_arg(current_state))
}

/// The pair at `position` is already cancelled.
pub fn tx_already_cancelled(position: u32) -> (r: DetailedError<Error>)
    ensures
        raised(r, Error::TxAlreadyCancelled, seq![decimal(position as nat)]),
{
    let pos_string = decimal_string(position as u128);
    raise(Error::TxAlreadyCancelled, one_arg(pos_string.as_str()))
}

/// The pair at `position` is already completed.
pub fn tx_already_completed(position: u32) -> (r: DetailedError<Error>)
    ensures
        raised(r, Error::TxAlreadyCompleted, seq![decimal(position as nat)]),
{
    let pos_string = decimal_string(position as u128);
    raise(Error::TxAlreadyCompleted, one_arg(pos_string.as_str()))
}

/// The pair is not confirmed for payment; names its state.
pub fn tx_not_confirmed(status: u8) -> (r: DetailedError<Error>)
    ensures
        raised(r, Error::TxNotConfirmed, seq![payment_state_text(status)]),
{
    let current_state: &str = match status {
        0 => "Tx Unconfirmed",
        2 => "Tx Cancelled",
        3 => "Tx Completed",
        4 => "Tx Unconfirmed",
        _ => "Error Misfire",
    };
    raise(Error::TxNotConfirmed, one_arg(current_state))
}

/// The pair is not a recurring payment.
pub fn tx_not_recurring() -> (r: DetailedError<Error>)
    ensures
        raised(r, Error::TxNotRecurring, seq![]),
{
    let context: Vec<&str> = Vec::new();
    assert(context_view(context@) =~= seq![]);
    raise(Error::TxNotRecurring, context)
}

/// The start time does not lie before the end time.
pub fn invalid_start_time(start: u64, end: u64) -> (r: DetailedError<Error>)
    ensures
        raised(r, Error::InvalidStartTime, seq![decimal(start as nat), decimal(end as nat)]),
{
    let start_string = decimal_string(start as u128);
    let end_string = decimal_string(end as u128);
    raise(Error::InvalidStartTime, two_args(start_string.as_str(), end_string.as_str()))
}

/// The end time is past the configured limit or not after `now`; the
/// message names the end time and `now`.
pub fn invalid_end_time(end: u64, now: u64, config_end_time_limit: u64) -> (r: DetailedError<
    Error,
>)
    ensures
        raised(r, Error::InvalidEndTime, seq![decimal(end as nat), decimal(now as nat)]),
{
    let end_string = decimal_string(end as u128);
    let now_string = decimal_string(now as u128);
    raise(Error::InvalidEndTime, two_args(end_string.as_str(), now_string.as_str()))
}

/// The span `diff` does not split into whole intervals of `interval`.
pub fn cannot_create_even_intervals(diff: u64, interval: u64) -> (r: DetailedError<Error>)
    ensures
        raised(
            r,
            Error::CannotCreateEvenIntervals,
            seq![decimal(diff as nat), decimal(interval as nat)],
        ),
{
    let diff_string = decimal_string(diff as u128);
    let interval_string = decimal_string(interval as u128);
    raise(
        Error::CannotCreateEvenIntervals,
        two_args(diff_string.as_str(), interval_string.as_str()),
    )
}

/// `amount` for each of `num_intervals` payments does not add up to
/// `total_amount`.
pub fn incorrect_total_amount(amount: u128, num_intervals: u128, total_amount: u128) -> (r:
    DetailedError<Error>)
    ensures
        raised(
            r,
            Error::IncorrectTotalAmount,
            seq![decimal(amount as nat), decimal(num_intervals as nat), decimal(total_amount as nat)],
        ),
{
    let amount_string = decimal_string(amount);
    let num_string = decimal_string(num_intervals);
    let total_string = decimal_string(total_amount);
    let mut context: Vec<&str> = Vec::new();
    context.push(amount_string.as_str());
    context.push(num_string.as_str());
    context.push(total_string.as_str());
    assert(context_view(context@) =~= seq![
        decimal(amount as nat),
        decimal(num_intervals as nat),
        decimal(total_amount as nat),
    ]);
    raise(Error::IncorrectTotalAmount, context)
}

/// Why an operation on the ledger or the configuration was refused.
#[derive(Clone, Copy, PartialEq, Eq, Debug, Structural)]
pub enum PayError {
    /// The caller is not the principal that the action needs.
    Unauthorized,
    /// The transfer that came with the call has the wrong amount.
    WrongAmount,
    /// The transfer that came with the call is in the wrong token.
    WrongToken,
    /// Payer and payee are the same account.
    SelfPaymentRejected,
    /// The position does not exist in the account's sequence.
    OutOfBounds,
    TxNotConfirmationReady { status: u8 },
    TxAlreadyCancelled { position: u32 },
    TxAlreadyCompleted { position: u32 },
    TxNotConfirmed { status: u8 },
    TxNotRecurring,
    InvalidStartTime { start_time: u64, end_time: u64 },
    InvalidEndTime { end_time: u64, now: u64, end_time_limit: u64 },
    CannotCreateEvenIntervals { diff: u64, interval: u64 },
    IncorrectTotalAmount { amount: u128, num_intervals: u128, total_amount: u128 },
    OverflowOccurred,
}

/// The kind and context of the detailed error that stands for `e`, if any.
pub open spec fn detail_of(e: PayError) -> Option<(Error, Seq<Seq<char>>)> {
    match e {
        PayError::TxNotConfirmationReady { status } => Some(
            (Error::TxNotConfirmationReady, seq![confirmation_state_text(status)]),
        ),
        PayError::TxAlreadyCancelled { position } => Some(
            (Error::TxAlreadyCancelled, seq![decimal(position as nat)]),
        ),
        PayError::TxAlreadyCompleted { position } => Some(
            (Error::TxAlreadyCompleted, seq![decimal(position as nat)]),
        ),
        PayError::TxNotConfirmed { status } => Some(
            (Error::TxNotConfirmed, seq![payment_state_text(status)]),
        ),
        PayError::TxNotRecurring => Some((Error::TxNotRecurring, seq![])),
        PayError::InvalidStartTime { start_time, end_time } => Some(
            (Error::InvalidStartTime, seq![decimal(start_time as nat), decimal(end_time as nat)]),
        ),
        PayError::InvalidEndTime { end_time, now, end_time_limit } => Some(
            (Error::InvalidEndTime, seq![decimal(end_time as nat), decimal(now as nat)]),
        ),
        PayError::CannotCreateEvenIntervals { diff, interval } => Some(
            (Error::CannotCreateEvenIntervals, seq![decimal(diff as nat), decimal(interval as nat)]),
        ),
        PayError::IncorrectTotalAmount { amount, num_intervals, total_amount } => Some(
            (
                Error::IncorrectTotalAmount,
                seq![
                    decimal(amount as nat),
                    decimal(num_intervals as nat),
                    decimal(total_amount as nat),
                ],
            ),
        ),
        PayError::OverflowOccurred => Some((Error::OverflowOccurred, seq![])),
        _ => None,
    }
}

impl PayError {
    /// The detailed error, with code and message, for the errors that have
    /// one; `None` for the plain ones.
    pub fn detailed(&self) -> (r: Option<DetailedError<Error>>)
        ensures
            detail_of(*self) is None <==> r is None,
            detail_of(*self) matches Some(d) ==> r matches Some(e) && raised(e, d.0, d.1),
    {
        match *self {
            PayError::TxNotConfirmationReady { status } => Some(
                tx_not_at_confirmation_stage(status),
            ),
            PayError::TxAlreadyCancelled { position } => Some(tx_already_cancelled(position)),
            PayError::TxAlreadyCompleted { position } => Some(tx_already_completed(position)),
            PayError::TxNotConfirmed { status } => Some(tx_not_confirmed(status)),
            PayError::TxNotRecurring => Some(tx_not_recurring()),
            PayError::InvalidStartTime { start_time, end_time } => Some(
                invalid_start_time(start_time, end_time),
            ),
            PayError::InvalidEndTime { end_time, now, end_time_limit } => Some(
                invalid_end_time(end_time, now, end_time_limit),
            ),
            PayError::CannotCreateEvenIntervals { diff, interval } => Some(
                cannot_create_even_intervals(diff, interval),
            ),
            PayError::IncorrectTotalAmount { amount, num_intervals, total_amount } => Some(
                incorrect_total_amount(amount, num_intervals, total_amount),
            ),
            PayError::OverflowOccurred => Some(overflow_occurred()),
            _ => None,
        }
    }
}

} // verus!
