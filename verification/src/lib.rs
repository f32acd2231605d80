//! An auditable single-prize raffle: entries are sold against a lottery
//! record during its sale window, a winner is derived deterministically from
//! an externally fulfilled random value, and the custodied prize is released
//! only to the derived winner.
//!
//! Every state change is modelled as an atomic step on plain records; the
//! host that persists records, moves assets and talks to the randomness
//! oracle supplies current time, fulfilled values and performs the transfer
//! actions this library returns.
use vstd::prelude::*;

mod errors;
mod escrow;
mod keys;
mod ledger;
mod lifecycle;
mod selection;
mod state;

pub use errors::LotteryError;
pub use state::{Lottery, LotteryModel, LotteryStatus, Pubkey, TicketModel, UserTicket};
pub use state::{bytes_eq, clone_bytes};
pub use keys::{derive_custody_authority, derive_lottery_key, derive_ticket_key};
pub use keys::{custody_authority_bytes, lottery_key_bytes, sha256_of, ticket_key_bytes};
pub use selection::{derive_index, lemma_winning_index_deterministic, winning_index};
pub use selection::{RandomnessRequest, RANDOMNESS_LEN};
pub use escrow::{process_reward_winner, release_check, take_custody, PrizeTransfer, RewardWinner};
pub use ledger::{process_buy, sell_check, sell_effect, BuyTicket, PaymentAction};
pub use ledger::{
    issued_entry_number, lemma_fresh_lottery_entry_numbers, lemma_sale_preserves_configuration,
    lemma_sales_counted_and_sequential, lottery_after_sales,
};
pub use lifecycle::{
    create_model, fulfilled_model, pick_check, pick_effect, process_create_lottery,
    process_pick_winner, process_request_randomness, request_check,
};
pub use lifecycle::{
    lemma_no_draw_after_winner, lemma_no_sale_after_resolution,
    lemma_pick_winner_idempotent, lemma_release_only_to_derived_winner,
};
pub use lifecycle::{CreateLottery, PickWinner, RequestRandomness};

verus! {

/// Creates a lottery for the prize in `ctx` and takes the prize into
/// custody: the returned transfer moves it from the creator into the
/// lottery's derived custody authority, as part of the same atomic step.
pub fn create_lottery(
    ctx: &CreateLottery,
    ticket_price: u64,
    start_time: u64,
    end_time: u64,
    force: [u8; 32],
) -> (r: (Lottery, PrizeTransfer))
    requires
        ctx.creator.wf(),
        ctx.nft_mint.wf(),
    ensures
        r.0@ == create_model(
            ctx.creator@,
            ticket_price,
            start_time,
            end_time,
            force@,
            ctx.nft_mint@,
        ),
        r.0.wf(),
        r.1.mint@ == ctx.nft_mint@,
        r.1.from@ == ctx.creator@,
        r.1.to@ == custody_authority_bytes(lottery_key_bytes(ctx.creator@, ctx.nft_mint@)),
        r.1.amount == 1,
{
    process_create_lottery(&ctx.creator, ticket_price, start_time, end_time, force, &ctx.nft_mint)
}

/// Sells one entry of `lottery` to the buyer in `ctx` at current time `now`:
/// the new entry carries the pre-sale counter value, the counter advances by
/// one, and the returned payment withdraws the ticket price from the buyer
/// into the lottery's custody, all as one atomic step.
pub fn buy_ticket(ctx: &BuyTicket, lottery: &mut Lottery, now: u64) -> (r: Result<
    (UserTicket, PaymentAction),
    LotteryError,
>)
    requires
        old(lottery).tickets_sold < u64::MAX,
    ensures
        match sell_check(old(lottery)@, now) {
            Some(e) => r == Err::<(UserTicket, PaymentAction), LotteryError>(e) && final(lottery)@
                == old(lottery)@,
            None => {
                &&& r matches Ok((ticket, payment))
                &&& final(lottery)@ == sell_effect(old(lottery)@)
                &&& ticket@.owner == ctx.buyer@
                &&& ticket@.lottery == lottery_key_bytes(old(lottery)@.creator, old(lottery)@.nft_mint)
                &&& ticket@.ticket_number == old(lottery)@.tickets_sold
                &&& payment.from@ == ctx.buyer@
                &&& payment.to@ == lottery_key_bytes(old(lottery)@.creator, old(lottery)@.nft_mint)
                &&& payment.amount == old(lottery)@.ticket_price
            },
        },
{
    process_buy(lottery, &ctx.buyer, now)
}

/// Requests the external random value deciding the draw, keyed by the
/// lottery's correlation tag. Creator-gated, only after the sale window, only
/// with entries sold, only while no winner is set; the lottery itself does
/// not change.
pub fn request_randomness(ctx: &RequestRandomness, lottery: &Lottery, now: u64) -> (r: Result<
    RandomnessRequest,
    LotteryError,
>)
    ensures
        match request_check(lottery@, ctx.creator@, now) {
            Some(e) => r == Err::<RandomnessRequest, LotteryError>(e),
            None => r matches Ok(req) && req@ == lottery@.force,
        },
{
    process_request_randomness(lottery, &ctx.creator, now)
}

/// Resolves the draw once the oracle has fulfilled: if the claimed entry
/// carries the winning number derived from the fulfilled value, its owner
/// becomes the winner and the lottery completes. Not caller-gated: any party
/// may finalize with the correct entry.
pub fn pick_winner(ctx: &PickWinner, lottery: &mut Lottery, fulfilled: &Option<Vec<u8>>) -> (r:
    Result<(), LotteryError>)
    requires
        old(lottery).tickets_sold > 0,
        fulfilled matches Some(v) ==> v@.len() >= 8,
    ensures
        match pick_check(old(lottery)@, fulfilled_model(*fulfilled), ctx.winning_ticket@) {
            Some(e) => r == Err::<(), LotteryError>(e) && final(lottery)@ == old(lottery)@,
            None => r == Ok::<(), LotteryError>(()) && final(lottery)@ == pick_effect(
                old(lottery)@,
                ctx.winning_ticket@,
            ),
        },
{
    process_pick_winner(lottery, fulfilled, &ctx.winning_ticket)
}

/// Releases the custodied prize: succeeds exactly when a winner is set, the
/// lottery is completed and the caller in `ctx` is that winner; the returned
/// transfer moves the prize from the custody authority to the destination.
pub fn reward_winner(ctx: &RewardWinner, lottery: &Lottery) -> (r: Result<
    PrizeTransfer,
    LotteryError,
>)
    ensures
        match release_check(lottery@, ctx.caller@) {
            Some(e) => r == Err::<PrizeTransfer, LotteryError>(e),
            None => {
                &&& r matches Ok(t)
                &&& t.mint@ == lottery@.nft_mint
                &&& t.from@ == custody_authority_bytes(
                    lottery_key_bytes(lottery@.creator, lottery@.nft_mint),
                )
                &&& t.to@ == ctx.destination@
                &&& t.amount == 1
            },
        },
{
    process_reward_winner(lottery, &ctx.caller, &ctx.destination)
}

} // verus!
