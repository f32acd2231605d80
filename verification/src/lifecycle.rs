//! The lottery lifecycle: creation with custody of the prize, the
//! creator-gated, time-gated draw request, and the resolution that derives
//! the winner from the fulfilled random value and completes the lottery.
use vstd::prelude::*;
use crate::errors::LotteryError;
use crate::escrow::{release_check, take_custody, PrizeTransfer};
use crate::ledger::sell_check;
use crate::selection::{derive_index, winning_index, RandomnessRequest};
use crate::state::{Lottery, LotteryModel, LotteryStatus, Pubkey, TicketModel, UserTicket};

verus! {

/// The accounts a lottery creation involves.
#[derive(Debug)]
pub struct CreateLottery {
    /// The identity creating the lottery and supplying the prize.
    pub creator: Pubkey,
    /// Identity of the prize asset taken into custody.
    pub nft_mint: Pubkey,
}

/// The accounts a draw request involves.
#[derive(Debug)]
pub struct RequestRandomness {
    /// The identity requesting the draw; must be the lottery's creator.
    pub creator: Pubkey,
}

/// The accounts a draw resolution involves.
#[derive(Debug)]
pub struct PickWinner {
    /// The entry claimed to be the winning one, checked against the derived
    /// winning index.
    pub winning_ticket: UserTicket,
}

/// The freshly created lottery record: active, nothing sold, no winner, all
/// configuration taken verbatim from the arguments.
pub open spec fn create_model(
    creator: Seq<u8>,
    ticket_price: u64,
    start_time: u64,
    end_time: u64,
    force: Seq<u8>,
    nft_mint: Seq<u8>,
) -> LotteryModel {
    LotteryModel {
        creator,
        ticket_price,
        start_time,
        end_time,
        force,
        nft_mint,
        tickets_sold: 0,
        lottery_status: LotteryStatus::Active,
        winner: None,
    }
}

/// Creates a lottery and takes the prize into custody.
///
/// The record starts active with no entries sold and no winner; the returned
/// transfer — to be performed by the host in the same atomic step — moves
/// the prize from the creator into the lottery's custody authority. No
/// numeric validation is imposed on the price or the timestamps.
pub fn process_create_lottery(
    creator: &Pubkey,
    ticket_price: u64,
    start_time: u64,
    end_time: u64,
    force: [u8; 32],
    nft_mint: &Pubkey,
) -> (r: (Lottery, PrizeTransfer))
    requires
        creator.wf(),
        nft_mint.wf(),
    ensures
        r.0@ == create_model(creator@, ticket_price, start_time, end_time, force@, nft_mint@),
        r.0.wf(),
        r.1.mint@ == nft_mint@,
        r.1.from@ == creator@,
        r.1.to@ == crate::keys::custody_authority_bytes(
            crate::keys::lottery_key_bytes(creator@, nft_mint@),
        ),
        r.1.amount == 1,
{
    let lottery = Lottery {
        creator: creator.clone(),
        ticket_price,
        start_time,
        end_time,
        force,
        nft_mint: nft_mint.clone(),
        tickets_sold: 0,
        lottery_status: LotteryStatus::Active,
        winner: None,
    };
    let custody_transfer = take_custody(&lottery);
    proof {
        assert(lottery@ =~= create_model(
            creator@,
            ticket_price,
            start_time,
            end_time,
            force@,
            nft_mint@,
        ));
    }
    (lottery, custody_transfer)
}

/// Why a draw request by `caller` at time `now` is rejected, if it is. The
/// checks run in this order: authorization, sale window still open, nothing
/// sold, winner already picked.
pub open spec fn request_check(l: LotteryModel, caller: Seq<u8>, now: u64) -> Option<
    LotteryError,
> {
    if caller != l.creator {
        Some(LotteryError::AccessDenied)
    } else if now <= l.end_time {
        Some(LotteryError::LotteryStillActive)
    } else if l.tickets_sold == 0 {
        Some(LotteryError::TicketsNotSold)
    } else if l.winner is Some {
        Some(LotteryError::WinnerAlreadyPicked)
    } else {
        None
    }
}

/// Requests the external random value that will decide the draw.
///
/// Only the creator may request, only after the sale window has closed, only
/// with at least one entry sold, and only while no winner is set. The
/// lottery itself is not changed; the returned request — keyed by the
/// lottery's correlation tag — is submitted to the oracle by the host.
pub fn process_request_randomness(lottery: &Lottery, caller: &Pubkey, now: u64) -> (r: Result<
    RandomnessRequest,
    LotteryError,
>)
    ensures
        match request_check(lottery@, caller@, now) {
            Some(e) => r == Err::<RandomnessRequest, LotteryError>(e),
            None => r matches Ok(req) && req@ == lottery@.force,
        },
{
    if !caller.matches(&lottery.creator) {
        return Err(LotteryError::AccessDenied);
    }
    if now <= lottery.end_time {
        return Err(LotteryError::LotteryStillActive);
    }
    if lottery.tickets_sold == 0 {
        return Err(LotteryError::TicketsNotSold);
    }
    if lottery.winner.is_some() {
        return Err(LotteryError::WinnerAlreadyPicked);
    }
    Ok(RandomnessRequest { correlation_tag: lottery.force })
}

/// The mathematical value of the oracle's answer so far: unset until
/// fulfilled, then the fulfilled bytes.
pub open spec fn fulfilled_model(fulfilled: Option<Vec<u8>>) -> Option<Seq<u8>> {
    match fulfilled {
        Some(v) => Some(v@),
        None => None,
    }
}

/// Why resolving the draw against `ticket` is rejected, if it is: the
/// randomness not yet fulfilled, or the claimed entry not carrying the
/// derived winning number.
pub open spec fn pick_check(
    l: LotteryModel,
    fulfilled: Option<Seq<u8>>,
    ticket: TicketModel,
) -> Option<LotteryError>
    recommends
        l.tickets_sold > 0,
{
    match fulfilled {
        None => Some(LotteryError::RandomnessNotFulfilled),
        Some(randomness) => if ticket.ticket_number != winning_index(randomness, l.tickets_sold) {
            Some(LotteryError::InvalidWinningTicket)
        } else {
            None
        },
    }
}

/// The lottery after a successful resolution: the claimed entry's owner
/// becomes the winner and the lottery completes; nothing else changes.
pub open spec fn pick_effect(l: LotteryModel, ticket: TicketModel) -> LotteryModel {
    LotteryModel { winner: Some(ticket.owner), lottery_status: LotteryStatus::Completed, ..l }
}

/// Resolves the draw: derives the winning entry number from the fulfilled
/// random value and, if the claimed entry carries it, records the entry's
/// owner as winner and completes the lottery.
///
/// No caller authorization is checked here: once the random value is
/// fulfilled, any party may finalize by supplying the correct entry. On
/// failure the lottery is untouched; resolution is retried by calling again
/// once the oracle has fulfilled.
pub fn process_pick_winner(
    lottery: &mut Lottery,
    fulfilled: &Option<Vec<u8>>,
    winning_ticket: &UserTicket,
) -> (r: Result<(), LotteryError>)
    requires
        old(lottery).tickets_sold > 0,
        fulfilled matches Some(v) ==> v@.len() >= 8,
    ensures
        match pick_check(old(lottery)@, fulfilled_model(*fulfilled), winning_ticket@) {
            Some(e) => r == Err::<(), LotteryError>(e) && final(lottery)@ == old(lottery)@,
            None => r == Ok::<(), LotteryError>(()) && final(lottery)@ == pick_effect(
                old(lottery)@,
                winning_ticket@,
            ),
        },
{
    let randomness = match fulfilled {
        None => {
            return Err(LotteryError::RandomnessNotFulfilled);
        },
        Some(v) => v,
    };

    let winning_ticket_number = derive_index(randomness, lottery.tickets_sold);
    if winning_ticket.ticket_number != winning_ticket_number {
        return Err(LotteryError::InvalidWinningTicket);
    }

    lottery.winner = Some(winning_ticket.owner.clone());
    lottery.lottery_status = LotteryStatus::Completed;
    proof {
        assert(final(lottery)@ =~= pick_effect(old(lottery)@, winning_ticket@));
    }
    Ok(())
}

/// Law: resolving the draw twice with the same fulfilled value and the same
/// entry is a no-op. The second resolution passes the same checks and leaves
/// the lottery exactly as the first did.
pub proof fn lemma_pick_winner_idempotent(
    l: LotteryModel,
    randomness: Seq<u8>,
    ticket: TicketModel,
)
    requires
        l.tickets_sold > 0,
        pick_check(l, Some(randomness), ticket) is None,
    ensures
        pick_check(pick_effect(l, ticket), Some(randomness), ticket) is None,
        pick_effect(pick_effect(l, ticket), ticket) == pick_effect(l, ticket),
{
    assert(pick_effect(pick_effect(l, ticket), ticket) =~= pick_effect(l, ticket));
}

/// Law: a winner is derived exactly once. After a successful resolution,
/// any further draw request — even a well-formed one by the creator, after
/// the window, with entries sold — fails with `WinnerAlreadyPicked`.
pub proof fn lemma_no_draw_after_winner(
    l: LotteryModel,
    ticket: TicketModel,
    caller: Seq<u8>,
    now: u64,
)
    requires
        caller == l.creator,
        now > l.end_time,
        l.tickets_sold > 0,
    ensures
        request_check(pick_effect(l, ticket), caller, now) == Some(
            LotteryError::WinnerAlreadyPicked,
        ),
{
}

/// Law: the prize can only ever reach the account the derivation selected.
/// Once the draw is resolved with a winning entry, a release succeeds for
/// that entry's owner and for nobody else.
pub proof fn lemma_release_only_to_derived_winner(
    l: LotteryModel,
    ticket: TicketModel,
    caller: Seq<u8>,
)
    ensures
        release_check(pick_effect(l, ticket), caller) is None <==> caller == ticket.owner,
{
}

/// Law: no entry can be sold on a resolved lottery. After the draw is
/// resolved, every purchase is rejected — as expired past the sale window,
/// as disabled otherwise.
pub proof fn lemma_no_sale_after_resolution(l: LotteryModel, ticket: TicketModel, now: u64)
    ensures
        sell_check(pick_effect(l, ticket), now) is Some,
        now <= l.end_time ==> sell_check(pick_effect(l, ticket), now) == Some(
            LotteryError::EntryDisabled,
        ),
{
}

} // verus!
