//! Minting tokens that arrive from another chain.

use vstd::prelude::*;
use crate::constants::MAX_SOURCE_CHAIN_LENGTH;
use crate::error::BurnMintError;
use crate::events::CrossChainMint;
use crate::instructions::mint_tokens::{MintReceipt, MintTokens};
use crate::text::{byte_len, byte_length};

verus! {

/// The records a cross-chain mint works on: those of a plain mint.
pub type MintTokensWithCcip = MintTokens;

/// What an accepted cross-chain mint hands back: the receipt of the mint
/// itself, and the cross-chain event, which is raised after the milestone
/// event and before the mint event.
#[derive(Clone, Debug, PartialEq, Eq)]
pub struct CrossChainMintReceipt {
    pub mint: MintReceipt,
    pub cross_chain: CrossChainMint,
}

/// Why a cross-chain mint of `amount` from `source_chain` is refused, if it
/// is. The checks are those of a plain mint, with one more after the check of
/// the amount: the label of the source chain must be at most
/// `MAX_SOURCE_CHAIN_LENGTH` bytes long.
pub open spec fn rejection(ctx: MintTokensWithCcip, amount: u64, source_chain: Seq<char>) -> Option<
    BurnMintError,
> {
    if !ctx.is_authorized() {
        Some(BurnMintError::UnauthorizedMinter)
    } else if amount == 0 {
        Some(BurnMintError::InvalidAmount)
    } else if byte_len(source_chain) > MAX_SOURCE_CHAIN_LENGTH {
        Some(BurnMintError::SourceChainTooLong)
    } else {
        ctx.rejection(amount)
    }
}

/// What an accepted cross-chain mint of `amount` at time `now` hands back.
pub open spec fn receipt(
    ctx: MintTokensWithCcip,
    amount: u64,
    source_chain: String,
    ccip_message_id: [u8; 32],
    now: i64,
) -> CrossChainMintReceipt {
    CrossChainMintReceipt {
        mint: ctx.receipt(amount, now),
        cross_chain: CrossChainMint {
            recipient: ctx.stats_before(now).user,
            amount,
            source_chain,
            ccip_message_id,
            minter: ctx.minter,
            timestamp: now,
        },
    }
}

/// Mints `amount` to the recipient at time `now` as a plain mint does, and
/// also reports where the tokens came from: the label of the source chain
/// and the identifier of the cross-chain message. The identifier is taken as
/// given; nothing is checked of it. A refused mint changes nothing.
pub fn handler(
    ctx: &mut MintTokensWithCcip,
    amount: u64,
    source_chain: String,
    ccip_message_id: [u8; 32],
    now: i64,
) -> (result: Result<CrossChainMintReceipt, BurnMintError>)
    ensures
        match rejection(*old(ctx), amount, source_chain@) {
            Some(e) => result == Err::<CrossChainMintReceipt, BurnMintError>(e) && *final(ctx)
                == *old(ctx),
            None => result == Ok::<CrossChainMintReceipt, BurnMintError>(
                receipt(*old(ctx), amount, source_chain, ccip_message_id, now),
            ) && *final(ctx) == old(ctx).minted(amount, now) && old(ctx).supply + amount <= old(
                ctx,
            ).token_config.max_supply,
        },
{
    let authorized = match &ctx.minter_role {
        Some(role) => role.minter.same(&ctx.minter),
        None => false,
    };
    if !authorized {
        return Err(BurnMintError::UnauthorizedMinter);
    }
    if amount == 0 {
        return Err(BurnMintError::InvalidAmount);
    }
    if byte_length(&source_chain) > MAX_SOURCE_CHAIN_LENGTH {
        return Err(BurnMintError::SourceChainTooLong);
    }
    let minter = ctx.minter;
    let mint = match crate::instructions::mint_tokens::handler(ctx, amount, now) {
        Ok(mint) => mint,
        Err(e) => { return Err(e); },
    };
    let cross_chain = CrossChainMint {
        recipient: mint.minted.recipient,
        amount,
        source_chain,
        ccip_message_id,
        minter,
        timestamp: now,
    };
    Ok(CrossChainMintReceipt { mint, cross_chain })
}

} // verus!
