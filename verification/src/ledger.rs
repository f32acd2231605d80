//! The ticket sale ledger: issues sequentially numbered entries against
//! payment while the lottery is active and its sale window is open. The
//! price transfer and the counter increment form one atomic step — when a
//! check fails, the whole purchase is rejected with no effect.
use vstd::prelude::*;
use crate::errors::LotteryError;
use crate::keys::{derive_lottery_key, lottery_key_bytes};
use crate::state::{Lottery, LotteryModel, LotteryStatus, Pubkey, UserTicket};

verus! {

/// The accounts a ticket purchase involves.
#[derive(Debug)]
pub struct BuyTicket {
    /// The identity buying the entry; the ticket price is withdrawn from it.
    pub buyer: Pubkey,
}

/// A payment the host must perform as part of the same atomic step as the
/// purchase that returned it: `amount` moves from `from` to `to`.
#[derive(Debug)]
pub struct PaymentAction {
    pub from: Pubkey,
    pub to: Pubkey,
    pub amount: u64,
}

/// Why a purchase on this lottery at this time is rejected, if it is.
pub open spec fn sell_check(l: LotteryModel, now: u64) -> Option<LotteryError> {
    if now > l.end_time {
        Some(LotteryError::LotteryExpired)
    } else if !(l.lottery_status == LotteryStatus::Active) {
        Some(LotteryError::EntryDisabled)
    } else {
        None
    }
}

/// The lottery after one successful sale: only the entry counter advances.
pub open spec fn sell_effect(l: LotteryModel) -> LotteryModel {
    LotteryModel { tickets_sold: (l.tickets_sold + 1) as u64, ..l }
}

/// Sells one entry of `lottery` to `buyer` at current time `now`.
///
/// On success the new entry carries the pre-sale counter value as its
/// number, the counter advances by one, and the returned payment withdraws
/// exactly the ticket price from the buyer into the lottery's custody.
/// On failure the lottery is untouched.
pub fn process_buy(lottery: &mut Lottery, buyer: &Pubkey, now: u64) -> (r: Result<
    (UserTicket, PaymentAction),
    LotteryError,
>)
    requires
        old(lottery).tickets_sold < u64::MAX,
    ensures
        match sell_check(old(lottery)@, now) {
            Some(e) => r == Err::<(UserTicket, PaymentAction), LotteryError>(e) && final(lottery)@
                == old(lottery)@,
            None => {
                &&& r matches Ok((ticket, payment))
                &&& final(lottery)@ == sell_effect(old(lottery)@)
                &&& ticket@.owner == buyer@
                &&& ticket@.lottery == lottery_key_bytes(old(lottery)@.creator, old(lottery)@.nft_mint)
                &&& ticket@.ticket_number == old(lottery)@.tickets_sold
                &&& payment.from@ == buyer@
                &&& payment.to@ == lottery_key_bytes(old(lottery)@.creator, old(lottery)@.nft_mint)
                &&& payment.amount == old(lottery)@.ticket_price
            },
        },
{
    if now > lottery.end_time {
        return Err(LotteryError::LotteryExpired);
    }
    if !(lottery.lottery_status == LotteryStatus::Active) {
        return Err(LotteryError::EntryDisabled);
    }

    let lottery_key = derive_lottery_key(&lottery.creator, &lottery.nft_mint);
    let ticket = UserTicket {
        owner: buyer.clone(),
        lottery: lottery_key.clone(),
        ticket_number: lottery.tickets_sold,
    };
    let payment = PaymentAction {
        from: buyer.clone(),
        to: lottery_key,
        amount: lottery.ticket_price,
    };

    lottery.tickets_sold = lottery.tickets_sold + 1;
    proof {
        assert(final(lottery)@ =~= sell_effect(old(lottery)@));
    }
    Ok((ticket, payment))
}

/// The lottery after `n` further successful sales.
pub open spec fn lottery_after_sales(l: LotteryModel, n: nat) -> LotteryModel
    decreases n,
{
    if n == 0 {
        l
    } else {
        sell_effect(lottery_after_sales(l, (n - 1) as nat))
    }
}

/// The entry number issued by the sale at position `k` (0-based) in a run of
/// successful sales on `l`: the counter value just before that sale.
pub open spec fn issued_entry_number(l: LotteryModel, k: nat) -> u64 {
    lottery_after_sales(l, k).tickets_sold
}

/// Law: sales are counted one by one and entries are numbered sequentially.
/// After `n` successful sales the counter has advanced by exactly `n`, and
/// the sale at position `k` issued the entry number `tickets_sold + k`.
pub proof fn lemma_sales_counted_and_sequential(l: LotteryModel, n: nat)
    requires
        l.tickets_sold + n <= u64::MAX,
    ensures
        lottery_after_sales(l, n).tickets_sold == l.tickets_sold + n,
        forall|k: nat| k < n ==> #[trigger] issued_entry_number(l, k) == l.tickets_sold + k,
    decreases n,
{
    if n > 0 {
        lemma_sales_counted_and_sequential(l, (n - 1) as nat);
    }
}

/// Law: on a fresh lottery, `n` successful sales leave `tickets_sold == n`
/// and issue exactly the entry numbers `0, ..., n-1` — each position gets
/// its own number and no two positions share one.
pub proof fn lemma_fresh_lottery_entry_numbers(l: LotteryModel, n: nat)
    requires
        l.tickets_sold == 0,
        n <= u64::MAX,
    ensures
        lottery_after_sales(l, n).tickets_sold == n,
        forall|k: nat| k < n ==> #[trigger] issued_entry_number(l, k) == k,
        forall|j: nat, k: nat|
            j < n && k < n && j != k ==> issued_entry_number(l, j) != issued_entry_number(l, k),
{
    lemma_sales_counted_and_sequential(l, n);
}

/// Law: a sale changes nothing but the entry counter — the sale window, the
/// price, the correlation tag, the phase and the winner all survive it.
pub proof fn lemma_sale_preserves_configuration(l: LotteryModel)
    ensures
        sell_effect(l).creator == l.creator,
        sell_effect(l).ticket_price == l.ticket_price,
        sell_effect(l).start_time == l.start_time,
        sell_effect(l).end_time == l.end_time,
        sell_effect(l).force == l.force,
        sell_effect(l).nft_mint == l.nft_mint,
        sell_effect(l).lottery_status == l.lottery_status,
        sell_effect(l).winner == l.winner,
{
}

} // verus!
