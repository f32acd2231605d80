//! Prize custody: the escrowed asset is held under a derived,
//! content-addressed authority — the lottery's custody authority — and is
//! released structurally, by matching the stored winner identity, never by a
//! secret held anywhere.
use vstd::prelude::*;
use crate::errors::LotteryError;
use crate::keys::{custody_authority_bytes, derive_custody_authority, derive_lottery_key,
    lottery_key_bytes};
use crate::state::{Lottery, LotteryModel, LotteryStatus, Pubkey};

verus! {

/// The accounts a prize claim involves.
#[derive(Debug)]
pub struct RewardWinner {
    /// The identity claiming the prize; must match the stored winner.
    pub caller: Pubkey,
    /// The account the prize is released to, controlled by the caller.
    pub destination: Pubkey,
}

/// An asset movement the host must perform: one unit of `mint` moves from
/// the holding of `from` to the holding of `to`.
#[derive(Debug)]
pub struct PrizeTransfer {
    pub mint: Pubkey,
    pub from: Pubkey,
    pub to: Pubkey,
    pub amount: u64,
}

/// Takes the prize into custody: the transfer the host must perform in the
/// same atomic step as creating `lottery`, moving the prize from the
/// creator's holding into the lottery's derived custody authority.
pub fn take_custody(lottery: &Lottery) -> (t: PrizeTransfer)
    ensures
        t.mint@ == lottery@.nft_mint,
        t.from@ == lottery@.creator,
        t.to@ == custody_authority_bytes(lottery_key_bytes(lottery@.creator, lottery@.nft_mint)),
        t.amount == 1,
{
    let lottery_key = derive_lottery_key(&lottery.creator, &lottery.nft_mint);
    let custody = derive_custody_authority(&lottery_key);
    PrizeTransfer {
        mint: lottery.nft_mint.clone(),
        from: lottery.creator.clone(),
        to: custody,
        amount: 1,
    }
}

/// Why a prize claim by `caller` is rejected, if it is: no winner yet, the
/// lottery not completed, or the caller not being the winner.
pub open spec fn release_check(l: LotteryModel, caller: Seq<u8>) -> Option<LotteryError> {
    match l.winner {
        None => Some(LotteryError::WinnerNotPicked),
        Some(w) => if !(l.lottery_status == LotteryStatus::Completed) {
            Some(LotteryError::LotteryStillActive)
        } else if caller != w {
            Some(LotteryError::AccessDenied)
        } else {
            None
        },
    }
}

/// Releases the custodied prize to the winner.
///
/// Succeeds exactly when a winner is set, the lottery is completed, and the
/// caller is that winner; the returned transfer then moves the prize from
/// the lottery's custody authority to the caller's destination account.
pub fn process_reward_winner(lottery: &Lottery, caller: &Pubkey, destination: &Pubkey) -> (r:
    Result<PrizeTransfer, LotteryError>)
    ensures
        match release_check(lottery@, caller@) {
            Some(e) => r == Err::<PrizeTransfer, LotteryError>(e),
            None => {
                &&& r matches Ok(t)
                &&& t.mint@ == lottery@.nft_mint
                &&& t.from@ == custody_authority_bytes(
                    lottery_key_bytes(lottery@.creator, lottery@.nft_mint),
                )
                &&& t.to@ == destination@
                &&& t.amount == 1
            },
        },
{
    let winner = match &lottery.winner {
        None => {
            return Err(LotteryError::WinnerNotPicked);
        },
        Some(w) => w,
    };
    if !(lottery.lottery_status == LotteryStatus::Completed) {
        return Err(LotteryError::LotteryStillActive);
    }
    if !caller.matches(winner) {
        return Err(LotteryError::AccessDenied);
    }

    let lottery_key = derive_lottery_key(&lottery.creator, &lottery.nft_mint);
    let custody = derive_custody_authority(&lottery_key);
    Ok(PrizeTransfer {
        mint: lottery.nft_mint.clone(),
        from: custody,
        to: destination.clone(),
        amount: 1,
    })
}

} // verus!
