use crate::state::SecretContract;
use vstd::prelude::*;

verus! {

/// What a token transfer to the contract asks for. The transfer itself, its
/// sender, amount and token, comes beside it.
#[derive(Debug)]
pub enum ReceiveMsg {
    Cancel { position: u32 },
    ConfirmAddress { position: u32 },
    CreateReceiveRequest {
        address: String,
        send_amount: u128,
        description: Option<String>,
        token: SecretContract,
    },
    CreateSendRequest {
        address: String,
        send_amount: u128,
        description: Option<String>,
        token: SecretContract,
    },
    SendPayment { position: u32 },
    CreateRecurringSendRequest {
        address: String,
        description: Option<String>,
        token: SecretContract,
        send_amount: u128,
        start_time: u64,
        interval: u64,
        end_time: u64,
        total_amount: u128,
        allowance_enabled: bool,
    },
    ConfirmRecurringAddress { position: u32 },
}

} // verus!
