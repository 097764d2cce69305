//! Transferring tokens together with a payload for a receiver program.

use vstd::prelude::*;
use crate::error::BurnMintError;
use crate::events::TransferAndCallEvent;
use crate::identity::Identity;
use crate::ledger::LedgerCall;

verus! {

/// The records a transfer with payload works on.
#[derive(Clone, Copy, Debug, PartialEq, Eq)]
pub struct TransferAndCall {
    /// The sender's token balance, as the ledger reports it before the transfer.
    pub balance: u64,
    /// The caller, who sends from its own balance.
    pub sender: Identity,
    /// The owner of the balance that receives the tokens.
    pub recipient: Identity,
    /// The program the payload is meant for.
    pub receiver_program: Identity,
}

/// What an accepted transfer hands back: the call for the ledger and the event.
#[derive(Clone, Debug, PartialEq, Eq)]
pub struct TransferReceipt {
    pub ledger: LedgerCall,
    pub event: TransferAndCallEvent,
}

impl TransferAndCall {
    /// Why a transfer of `amount` is refused, if it is. The amount must not be
    /// zero and the sender's balance must cover it; the first failure in that
    /// order is reported.
    pub open spec fn rejection(self, amount: u64) -> Option<BurnMintError> {
        if amount == 0 {
            Some(BurnMintError::InvalidAmount)
        } else if self.balance < amount {
            Some(BurnMintError::InsufficientBalance)
        } else {
            None
        }
    }
}

/// How a transfer of `amount` with payload `data` at time `now` ends: refused
/// with the error that [`TransferAndCall::rejection`] names, or accepted with
/// the ledger call and the event.
pub open spec fn outcome(ctx: TransferAndCall, amount: u64, data: Vec<u8>, now: i64) -> Result<
    TransferReceipt,
    BurnMintError,
> {
    match ctx.rejection(amount) {
        Some(e) => Err(e),
        None => Ok(
            TransferReceipt {
                ledger: LedgerCall::Transfer { from: ctx.sender, to: ctx.recipient, amount },
                event: TransferAndCallEvent {
                    sender: ctx.sender,
                    recipient: ctx.recipient,
                    amount,
                    data,
                    receiver_program: ctx.receiver_program,
                    timestamp: now,
                },
            },
        ),
    }
}

/// Transfers `amount` from the caller to the recipient at time `now`, with
/// `data` as payload: hands back the ledger call and an event that carries the
/// payload and names the receiver program. The receiver program is only named
/// in the event; nothing is delivered to it.
pub fn handler(ctx: &TransferAndCall, amount: u64, data: Vec<u8>, now: i64) -> (result: Result<
    TransferReceipt,
    BurnMintError,
>)
    ensures
        result == outcome(*ctx, amount, data, now),
{
    if amount == 0 {
        return Err(BurnMintError::InvalidAmount);
    }
    if ctx.balance < amount {
        return Err(BurnMintError::InsufficientBalance);
    }
    Ok(
        TransferReceipt {
            ledger: LedgerCall::Transfer { from: ctx.sender, to: ctx.recipient, amount },
            event: TransferAndCallEvent {
                sender: ctx.sender,
                recipient: ctx.recipient,
                amount,
                data,
                receiver_program: ctx.receiver_program,
                timestamp: now,
            },
        },
    )
}

} // verus!
