use nft_lottery::{
    buy_ticket, create_lottery, derive_custody_authority, derive_index, derive_lottery_key,
    derive_ticket_key, pick_winner, request_randomness, reward_winner, bytes_eq, BuyTicket,
    CreateLottery, Lottery, LotteryError, LotteryStatus, PickWinner, Pubkey, RequestRandomness,
    RewardWinner, UserTicket, RANDOMNESS_LEN,
};

fn pk(tag: u8) -> Pubkey {
    Pubkey::new(vec![tag; 32])
}

fn fulfilled_with_first_bytes(first: &[u8]) -> Vec<u8> {
    let mut value = vec![0u8; RANDOMNESS_LEN];
    value[..first.len()].copy_from_slice(first);
    value
}

fn fresh_lottery(creator_tag: u8, mint_tag: u8, price: u64, end_time: u64) -> Lottery {
    let ctx = CreateLottery { creator: pk(creator_tag), nft_mint: pk(mint_tag) };
    let (lottery, custody) = create_lottery(&ctx, price, 0, end_time, [9u8; 32]);
    // The prize moves from the creator into the derived custody authority.
    assert!(custody.from.matches(&pk(creator_tag)));
    assert!(custody.mint.matches(&pk(mint_tag)));
    let expected_custody =
        derive_custody_authority(&derive_lottery_key(&pk(creator_tag), &pk(mint_tag)));
    assert!(custody.to.matches(&expected_custody));
    assert_eq!(custody.amount, 1);
    lottery
}

#[test]
fn create_initializes_the_record() {
    let lottery = fresh_lottery(1, 2, 100, 1000);
    assert_eq!(lottery.ticket_price, 100);
    assert_eq!(lottery.start_time, 0);
    assert_eq!(lottery.end_time, 1000);
    assert_eq!(lottery.tickets_sold, 0);
    assert_eq!(lottery.lottery_status, LotteryStatus::Active);
    assert!(lottery.winner.is_none());
    assert_eq!(lottery.force, [9u8; 32]);
}

#[test]
fn scenario_three_buyers_one_derived_winner() {
    let end_time = 1000u64;
    let mut lottery = fresh_lottery(1, 2, 100, end_time);

    // Three buyers purchase inside the window: entries 0, 1, 2.
    let mut owners: Vec<Pubkey> = Vec::new();
    let mut tickets: Vec<UserTicket> = Vec::new();
    for (i, buyer_tag) in [10u8, 11, 12].iter().enumerate() {
        let ctx = BuyTicket { buyer: pk(*buyer_tag) };
        let (ticket, payment) = buy_ticket(&ctx, &mut lottery, 500).unwrap();
        assert_eq!(ticket.ticket_number, i as u64);
        assert!(ticket.owner.matches(&pk(*buyer_tag)));
        assert_eq!(payment.amount, 100);
        assert!(payment.from.matches(&pk(*buyer_tag)));
        assert!(payment.to.matches(&derive_lottery_key(&pk(1), &pk(2))));
        owners.push(pk(*buyer_tag));
        tickets.push(ticket);
    }
    assert_eq!(lottery.tickets_sold, 3);

    // After the end time the creator requests the draw.
    let request = request_randomness(&RequestRandomness { creator: pk(1) }, &lottery, end_time + 1)
        .unwrap();
    assert_eq!(request.correlation_tag, [9u8; 32]);

    // The oracle fulfills with a value whose first 8 bytes decode to 55:
    // the winning index is 55 mod 3 = 1.
    let fulfilled = Some(fulfilled_with_first_bytes(&[55]));

    // Resolving with any other entry fails.
    let wrong = PickWinner { winning_ticket: tickets.remove(0) };
    assert_eq!(
        pick_winner(&wrong, &mut lottery, &fulfilled).unwrap_err(),
        LotteryError::InvalidWinningTicket
    );
    assert!(lottery.winner.is_none());
    assert_eq!(lottery.lottery_status, LotteryStatus::Active);

    // Resolving with entry #1 succeeds: its owner wins, the lottery completes.
    let right = PickWinner { winning_ticket: tickets.remove(0) };
    pick_winner(&right, &mut lottery, &fulfilled).unwrap();
    assert!(lottery.winner.as_ref().unwrap().matches(&owners[1]));
    assert_eq!(lottery.lottery_status, LotteryStatus::Completed);

    // Release by entry #0's owner fails; by the winner it succeeds.
    let destination = pk(42);
    let losing_claim = RewardWinner { caller: owners[0].clone(), destination: destination.clone() };
    assert_eq!(reward_winner(&losing_claim, &lottery).unwrap_err(), LotteryError::AccessDenied);

    let claim = RewardWinner { caller: owners[1].clone(), destination: destination.clone() };
    let transfer = reward_winner(&claim, &lottery).unwrap();
    assert!(transfer.mint.matches(&pk(2)));
    assert!(transfer.to.matches(&destination));
    let custody = derive_custody_authority(&derive_lottery_key(&pk(1), &pk(2)));
    assert!(transfer.from.matches(&custody));
    assert_eq!(transfer.amount, 1);
}

#[test]
fn sell_after_end_time_fails_lottery_expired() {
    let mut lottery = fresh_lottery(1, 2, 100, 1000);
    let ctx = BuyTicket { buyer: pk(10) };
    let err = buy_ticket(&ctx, &mut lottery, 1001).unwrap_err();
    assert_eq!(err, LotteryError::LotteryExpired);
    assert_eq!(lottery.tickets_sold, 0);
}

#[test]
fn sell_on_non_active_lottery_fails_entry_disabled() {
    let mut lottery = fresh_lottery(1, 2, 100, 1000);
    lottery.lottery_status = LotteryStatus::Cancelled;
    let ctx = BuyTicket { buyer: pk(10) };
    let err = buy_ticket(&ctx, &mut lottery, 500).unwrap_err();
    assert_eq!(err, LotteryError::EntryDisabled);
    assert_eq!(lottery.tickets_sold, 0);
}

#[test]
fn request_before_end_time_fails_lottery_still_active() {
    let mut lottery = fresh_lottery(1, 2, 100, 1000);
    let buyer = BuyTicket { buyer: pk(10) };
    buy_ticket(&buyer, &mut lottery, 500).unwrap();
    let ctx = RequestRandomness { creator: pk(1) };
    // At the end time itself the window is still open.
    assert_eq!(
        request_randomness(&ctx, &lottery, 1000).unwrap_err(),
        LotteryError::LotteryStillActive
    );
    assert_eq!(
        request_randomness(&ctx, &lottery, 500).unwrap_err(),
        LotteryError::LotteryStillActive
    );
}

#[test]
fn request_with_no_tickets_fails_tickets_not_sold() {
    let lottery = fresh_lottery(1, 2, 100, 1000);
    let ctx = RequestRandomness { creator: pk(1) };
    assert_eq!(
        request_randomness(&ctx, &lottery, 1001).unwrap_err(),
        LotteryError::TicketsNotSold
    );
}

#[test]
fn request_by_non_creator_fails_access_denied() {
    let mut lottery = fresh_lottery(1, 2, 100, 1000);
    let buyer = BuyTicket { buyer: pk(10) };
    buy_ticket(&buyer, &mut lottery, 500).unwrap();
    let ctx = RequestRandomness { creator: pk(3) };
    assert_eq!(request_randomness(&ctx, &lottery, 1001).unwrap_err(), LotteryError::AccessDenied);
}

#[test]
fn request_after_winner_fails_winner_already_picked() {
    let mut lottery = fresh_lottery(1, 2, 100, 1000);
    let buyer = BuyTicket { buyer: pk(10) };
    let (ticket, _) = buy_ticket(&buyer, &mut lottery, 500).unwrap();
    let fulfilled = Some(fulfilled_with_first_bytes(&[0]));
    pick_winner(&PickWinner { winning_ticket: ticket }, &mut lottery, &fulfilled).unwrap();
    let ctx = RequestRandomness { creator: pk(1) };
    assert_eq!(
        request_randomness(&ctx, &lottery, 1001).unwrap_err(),
        LotteryError::WinnerAlreadyPicked
    );
}

#[test]
fn pick_before_fulfillment_fails_randomness_not_fulfilled() {
    let mut lottery = fresh_lottery(1, 2, 100, 1000);
    let buyer = BuyTicket { buyer: pk(10) };
    let (ticket, _) = buy_ticket(&buyer, &mut lottery, 500).unwrap();
    let err = pick_winner(&PickWinner { winning_ticket: ticket }, &mut lottery, &None)
        .unwrap_err();
    assert_eq!(err, LotteryError::RandomnessNotFulfilled);
    assert!(lottery.winner.is_none());
    assert_eq!(lottery.lottery_status, LotteryStatus::Active);
}

#[test]
fn pick_twice_with_same_value_is_a_no_op() {
    let mut lottery = fresh_lottery(1, 2, 100, 1000);
    let buyer = BuyTicket { buyer: pk(10) };
    let (ticket, _) = buy_ticket(&buyer, &mut lottery, 500).unwrap();
    let fulfilled = Some(fulfilled_with_first_bytes(&[7]));
    let owner = ticket.owner.clone();
    let lottery_key = ticket.lottery.clone();
    let number = ticket.ticket_number;
    pick_winner(&PickWinner { winning_ticket: ticket }, &mut lottery, &fulfilled).unwrap();
    assert!(lottery.winner.as_ref().unwrap().matches(&owner));
    let again = UserTicket { owner: owner.clone(), lottery: lottery_key, ticket_number: number };
    pick_winner(&PickWinner { winning_ticket: again }, &mut lottery, &fulfilled).unwrap();
    assert!(lottery.winner.as_ref().unwrap().matches(&owner));
    assert_eq!(lottery.lottery_status, LotteryStatus::Completed);
    assert_eq!(lottery.tickets_sold, 1);
}

#[test]
fn no_sale_after_resolution() {
    let mut lottery = fresh_lottery(1, 2, 100, 1000);
    let buyer = BuyTicket { buyer: pk(10) };
    let (ticket, _) = buy_ticket(&buyer, &mut lottery, 500).unwrap();
    let fulfilled = Some(fulfilled_with_first_bytes(&[7]));
    pick_winner(&PickWinner { winning_ticket: ticket }, &mut lottery, &fulfilled).unwrap();
    // Inside the window the resolved lottery is no longer active ...
    let err = buy_ticket(&buyer, &mut lottery, 500).unwrap_err();
    assert_eq!(err, LotteryError::EntryDisabled);
    // ... and past the window the purchase is expired.
    let err = buy_ticket(&buyer, &mut lottery, 1001).unwrap_err();
    assert_eq!(err, LotteryError::LotteryExpired);
    assert_eq!(lottery.tickets_sold, 1);
}

#[test]
fn reward_before_winner_fails_winner_not_picked() {
    let lottery = fresh_lottery(1, 2, 100, 1000);
    let ctx = RewardWinner { caller: pk(10), destination: pk(42) };
    assert_eq!(reward_winner(&ctx, &lottery).unwrap_err(), LotteryError::WinnerNotPicked);
}

#[test]
fn reward_while_not_completed_fails_lottery_still_active() {
    let mut lottery = fresh_lottery(1, 2, 100, 1000);
    lottery.winner = Some(pk(10));
    let ctx = RewardWinner { caller: pk(10), destination: pk(42) };
    assert_eq!(reward_winner(&ctx, &lottery).unwrap_err(), LotteryError::LotteryStillActive);
}

#[test]
fn derive_index_reads_first_eight_bytes_little_endian() {
    // 55 mod 3 = 1.
    assert_eq!(derive_index(&fulfilled_with_first_bytes(&[55]), 3), 1);
    // Little-endian: bytes [1, 1] decode to 257; 257 mod 10 = 7.
    assert_eq!(derive_index(&fulfilled_with_first_bytes(&[1, 1]), 10), 7);
    // Byte order is load-bearing: [0, 1] is 256, not 1.
    assert_eq!(derive_index(&fulfilled_with_first_bytes(&[0, 1]), 300), 256);
    // All eight bytes participate: 2^64 - 1 mod 7 = 1.
    assert_eq!(derive_index(&fulfilled_with_first_bytes(&[0xff; 8]), 7), 1);
    // The ninth byte does not.
    let mut value = fulfilled_with_first_bytes(&[55]);
    value[8] = 0xee;
    assert_eq!(derive_index(&value, 3), 1);
    // Modulo the sold-ticket count, not a fixed range.
    assert_eq!(derive_index(&fulfilled_with_first_bytes(&[55]), 55), 0);
    assert_eq!(derive_index(&fulfilled_with_first_bytes(&[55]), 56), 55);
}

#[test]
fn derived_keys_are_stable_distinct_digests() {
    let creator = pk(1);
    let mint = pk(2);
    let key = derive_lottery_key(&creator, &mint);
    assert_eq!(key.bytes.len(), 32);
    // Stable: the same inputs give the same key.
    assert!(key.matches(&derive_lottery_key(&creator, &mint)));
    // Different inputs give different keys.
    assert!(!key.matches(&derive_lottery_key(&pk(3), &mint)));
    assert!(!key.matches(&derive_lottery_key(&creator, &pk(3))));
    // The key is a digest, not the preimage or either identity.
    let mut preimage_prefix = b"lottery".to_vec();
    preimage_prefix.extend_from_slice(&creator.bytes[..25]);
    assert!(!bytes_eq(&key.bytes, &preimage_prefix));
    assert!(!key.matches(&creator));
    assert!(!key.matches(&mint));

    let custody = derive_custody_authority(&key);
    assert_eq!(custody.bytes.len(), 32);
    assert!(!custody.matches(&key));

    let ticket0 = derive_ticket_key(&key, 0);
    let ticket1 = derive_ticket_key(&key, 1);
    assert_eq!(ticket0.bytes.len(), 32);
    assert!(!ticket0.matches(&ticket1));
    assert!(ticket0.matches(&derive_ticket_key(&key, 0)));
}

#[test]
fn tickets_reference_their_lottery_key() {
    let mut lottery = fresh_lottery(1, 2, 100, 1000);
    let ctx = BuyTicket { buyer: pk(10) };
    let (ticket, _) = buy_ticket(&ctx, &mut lottery, 500).unwrap();
    assert!(ticket.lottery.matches(&derive_lottery_key(&pk(1), &pk(2))));
}

#[test]
fn bytes_eq_compares_content() {
    assert!(bytes_eq(&vec![1, 2, 3], &vec![1, 2, 3]));
    assert!(!bytes_eq(&vec![1, 2, 3], &vec![1, 2, 4]));
    assert!(!bytes_eq(&vec![1, 2, 3], &vec![1, 2]));
    assert!(bytes_eq(&vec![], &vec![]));
}

#[test]
fn error_messages_name_the_failure() {
    assert_eq!(LotteryError::TicketsNotSold.message(), "no tickets sold to pick the winner");
    assert_eq!(LotteryError::AccessDenied.message(), "caller is not authorized for this operation");
}
