//! The persisted records: the lottery itself and the entries sold against
//! it, together with their mathematical models.
use vstd::prelude::*;

verus! {

/// A 32-byte account identity: a creator, a buyer, an asset reference or a
/// derived content-addressed key.
#[derive(Debug)]
pub struct Pubkey {
    pub bytes: Vec<u8>,
}

impl View for Pubkey {
    type V = Seq<u8>;

    open spec fn view(&self) -> Seq<u8> {
        self.bytes@
    }
}

impl Pubkey {
    /// An identity is a fixed 32-byte value.
    pub open spec fn wf(&self) -> bool {
        self@.len() == 32
    }

    pub fn new(bytes: Vec<u8>) -> (r: Pubkey)
        requires
            bytes@.len() == 32,
        ensures
            r@ == bytes@,
            r.wf(),
    {
        Pubkey { bytes }
    }

    /// Identity comparison: two identities match exactly when their bytes do.
    pub fn matches(&self, other: &Pubkey) -> (r: bool)
        ensures
            r == (self@ == other@),
    {
        bytes_eq(&self.bytes, &other.bytes)
    }
}

impl Clone for Pubkey {
    fn clone(&self) -> (r: Self)
        ensures
            r@ == self@,
    {
        Pubkey { bytes: clone_bytes(&self.bytes) }
    }
}

/// Byte-for-byte equality of two byte strings.
pub fn bytes_eq(a: &Vec<u8>, b: &Vec<u8>) -> (r: bool)
    ensures
        r == (a@ == b@),
{
    if a.len() != b.len() {
        assert(a@ != b@);
        return false;
    }
    let n = a.len();
    let mut i: usize = 0;
    while i < n
        invariant
            n == a@.len() == b@.len(),
            i <= n,
            forall|j: int| 0 <= j < i ==> a@[j] == b@[j],
        decreases n - i,
    {
        if a[i] != b[i] {
            assert(a@ != b@);
            return false;
        }
        i += 1;
    }
    assert(a@ =~= b@);
    true
}

/// An exact copy of a byte string.
pub fn clone_bytes(v: &Vec<u8>) -> (r: Vec<u8>)
    ensures
        r@ == v@,
{
    let mut r: Vec<u8> = Vec::new();
    let n = v.len();
    let mut i: usize = 0;
    while i < n
        invariant
            n == v@.len(),
            i <= n,
            r@ =~= v@.subrange(0, i as int),
        decreases n - i,
    {
        r.push(v[i]);
        i += 1;
    }
    assert(r@ =~= v@);
    r
}

/// The phase a lottery is in. `Active` accepts sales; `Completed` is reached
/// exactly once, when a winner is resolved. `Cancelled` is a declared
/// terminal value that no operation here transitions into.
#[derive(Clone, Copy, Debug, PartialEq, Eq, Structural)]
pub enum LotteryStatus {
    Active,
    Completed,
    Cancelled,
}

/// One raffle over one custodied prize: the sole owner of the authoritative
/// sale and winner state.
#[derive(Debug)]
pub struct Lottery {
    /// The identity that created the lottery and may request the draw.
    pub creator: Pubkey,
    /// Price of one entry, in the smallest currency unit.
    pub ticket_price: u64,
    /// Start of the sale window, epoch seconds.
    pub start_time: u64,
    /// End of the sale window, epoch seconds.
    pub end_time: u64,
    /// Opaque 32-byte correlation tag binding the randomness request to this
    /// lottery.
    pub force: [u8; 32],
    /// Identity of the custodied prize asset.
    pub nft_mint: Pubkey,
    /// How many entries have been sold; also the number of the next entry.
    pub tickets_sold: u64,
    /// The current phase.
    pub lottery_status: LotteryStatus,
    /// The resolved winner, unset until the draw is resolved.
    pub winner: Option<Pubkey>,
}

/// The mathematical value of a [`Lottery`] record.
#[verifier::ext_equal]
pub struct LotteryModel {
    pub creator: Seq<u8>,
    pub ticket_price: u64,
    pub start_time: u64,
    pub end_time: u64,
    pub force: Seq<u8>,
    pub nft_mint: Seq<u8>,
    pub tickets_sold: u64,
    pub lottery_status: LotteryStatus,
    pub winner: Option<Seq<u8>>,
}

impl View for Lottery {
    type V = LotteryModel;

    open spec fn view(&self) -> LotteryModel {
        LotteryModel {
            creator: self.creator@,
            ticket_price: self.ticket_price,
            start_time: self.start_time,
            end_time: self.end_time,
            force: self.force@,
            nft_mint: self.nft_mint@,
            tickets_sold: self.tickets_sold,
            lottery_status: self.lottery_status,
            winner: match self.winner {
                Some(w) => Some(w@),
                None => None,
            },
        }
    }
}

impl Lottery {
    /// Record layout invariant: every identity and the correlation tag are
    /// 32-byte values.
    pub open spec fn wf(&self) -> bool {
        &&& self.creator.wf()
        &&& self.nft_mint.wf()
        &&& match self.winner {
            Some(w) => w.wf(),
            None => true,
        }
    }
}

/// One sold entry: read-only evidence of a purchase, immutable after the
/// sale that creates it.
#[derive(Debug)]
pub struct UserTicket {
    /// The purchaser, the only identity the prize can be released to if this
    /// entry wins.
    pub owner: Pubkey,
    /// Content-addressed key of the lottery this entry was sold against.
    pub lottery: Pubkey,
    /// Sequential number, equal to `tickets_sold` at the time of sale.
    pub ticket_number: u64,
}

/// The mathematical value of a [`UserTicket`] record.
#[verifier::ext_equal]
pub struct TicketModel {
    pub owner: Seq<u8>,
    pub lottery: Seq<u8>,
    pub ticket_number: u64,
}

impl View for UserTicket {
    type V = TicketModel;

    open spec fn view(&self) -> TicketModel {
        TicketModel { owner: self.owner@, lottery: self.lottery@, ticket_number: self.ticket_number }
    }
}

impl UserTicket {
    pub open spec fn wf(&self) -> bool {
        &&& self.owner.wf()
        &&& self.lottery.wf()
    }
}

impl Clone for UserTicket {
    fn clone(&self) -> (r: Self)
        ensures
            r@ == self@,
    {
        UserTicket {
            owner: self.owner.clone(),
            lottery: self.lottery.clone(),
            ticket_number: self.ticket_number,
        }
    }
}

} // verus!
