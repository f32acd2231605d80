//! Winner selection from an externally fulfilled random value: the fulfilled
//! value's first 8 bytes, read as an unsigned little-endian integer, reduced
//! modulo the number of tickets sold. Byte order and the modulo operand are
//! load-bearing: any observer must be able to reproduce the derivation
//! bit for bit.
use vstd::prelude::*;
use vstd::bytes::{spec_u64_from_le_bytes, u64_from_le_bytes};
use vstd::slice::slice_subrange;

verus! {

/// The number of bytes the oracle's fulfilled random value carries.
pub const RANDOMNESS_LEN: usize = 64;

/// The winning entry number a fulfilled random value selects among
/// `tickets_sold` entries: its first 8 bytes as an unsigned little-endian
/// integer, modulo `tickets_sold`.
pub open spec fn winning_index(randomness: Seq<u8>, tickets_sold: u64) -> u64
    recommends
        randomness.len() >= 8,
        tickets_sold > 0,
{
    spec_u64_from_le_bytes(randomness.subrange(0, 8)) % tickets_sold
}

/// Maps a fulfilled random value to the winning entry number.
pub fn derive_index(randomness: &Vec<u8>, tickets_sold: u64) -> (r: u64)
    requires
        randomness@.len() >= 8,
        tickets_sold > 0,
    ensures
        r == winning_index(randomness@, tickets_sold),
        r < tickets_sold,
{
    let first_eight = slice_subrange(randomness.as_slice(), 0, 8);
    let random_value = u64_from_le_bytes(first_eight);
    random_value % tickets_sold
}

/// Law: winner derivation is deterministic. The same fulfilled random value
/// and the same sold-ticket count select the same winning entry number on
/// every evaluation.
pub proof fn lemma_winning_index_deterministic(a: Seq<u8>, b: Seq<u8>, tickets_sold: u64)
    requires
        a == b,
        tickets_sold > 0,
    ensures
        winning_index(a, tickets_sold) == winning_index(b, tickets_sold),
{
}

/// A randomness request for the external oracle, keyed by the lottery's
/// correlation tag. Submitting it to the oracle is the host's work; the
/// oracle's eventual fulfilled value comes back as a plain byte string.
#[derive(Debug)]
pub struct RandomnessRequest {
    /// The correlation tag the request is bound to.
    pub correlation_tag: [u8; 32],
}

impl View for RandomnessRequest {
    type V = Seq<u8>;

    open spec fn view(&self) -> Seq<u8> {
        self.correlation_tag@
    }
}

} // verus!
