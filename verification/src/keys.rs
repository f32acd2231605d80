//! Content-addressed keys: stable identifiers derived from a fixed label and
//! existing identities through a one-way hash. They serve purely as lookup
//! and authority keys — the lottery record's key, each entry's key, and the
//! custody authority that structurally gates release of the escrowed prize.
use vstd::prelude::*;
use vstd::bytes::{spec_u64_to_le_bytes, u64_to_le_bytes};
use crate::state::Pubkey;

verus! {

/// The 32-byte digest that `sha2`'s SHA-256 computes for the given bytes.
pub uninterp spec fn sha256_of(input: Seq<u8>) -> Seq<u8>;

/// Relies on sha2::Sha256 (through digest::Digest::digest): the digest is a
/// 32-byte value determined by the input bytes alone.
#[verifier::external_body]
fn sha256(input: &Vec<u8>) -> (r: Vec<u8>)
    ensures
        r@ == sha256_of(input@),
        r@.len() == 32,
{
    <sha2::Sha256 as sha2::Digest>::digest(input.as_slice()).to_vec()
}

/// The label prefixed to a lottery key's preimage: the bytes of "lottery".
pub open spec fn label_lottery() -> Seq<u8> {
    seq![108u8, 111u8, 116u8, 116u8, 101u8, 114u8, 121u8]
}

/// The label prefixed to an entry key's preimage: the bytes of "ticket".
pub open spec fn label_ticket() -> Seq<u8> {
    seq![116u8, 105u8, 99u8, 107u8, 101u8, 116u8]
}

/// The label prefixed to the custody authority's preimage: the bytes of
/// "custody".
pub open spec fn label_custody() -> Seq<u8> {
    seq![99u8, 117u8, 115u8, 116u8, 111u8, 100u8, 121u8]
}

/// The key of the lottery record for a creator and prize pair.
pub open spec fn lottery_key_bytes(creator: Seq<u8>, nft_mint: Seq<u8>) -> Seq<u8> {
    sha256_of(label_lottery() + creator + nft_mint)
}

/// The key of the entry record with the given number under a lottery.
pub open spec fn ticket_key_bytes(lottery_key: Seq<u8>, ticket_number: u64) -> Seq<u8> {
    sha256_of(label_ticket() + lottery_key + spec_u64_to_le_bytes(ticket_number))
}

/// The derived authority that holds the escrowed prize for a lottery. It is
/// content-addressed from the lottery's key: no secret controls it.
pub open spec fn custody_authority_bytes(lottery_key: Seq<u8>) -> Seq<u8> {
    sha256_of(label_custody() + lottery_key)
}

/// Appends all of `src` to `dst`.
fn extend_bytes(dst: &mut Vec<u8>, src: &Vec<u8>)
    ensures
        final(dst)@ == old(dst)@ + src@,
{
    let n = src.len();
    let mut i: usize = 0;
    while i < n
        invariant
            n == src@.len(),
            i <= n,
            dst@ =~= old(dst)@ + src@.subrange(0, i as int),
        decreases n - i,
    {
        dst.push(src[i]);
        i += 1;
    }
    assert(dst@ =~= old(dst)@ + src@);
}

/// The bytes of "lottery".
fn lottery_label() -> (r: Vec<u8>)
    ensures
        r@ == label_lottery(),
{
    let mut r: Vec<u8> = Vec::new();
    r.push(108);
    r.push(111);
    r.push(116);
    r.push(116);
    r.push(101);
    r.push(114);
    r.push(121);
    assert(r@ =~= label_lottery());
    r
}

/// The bytes of "ticket".
fn ticket_label() -> (r: Vec<u8>)
    ensures
        r@ == label_ticket(),
{
    let mut r: Vec<u8> = Vec::new();
    r.push(116);
    r.push(105);
    r.push(99);
    r.push(107);
    r.push(101);
    r.push(116);
    assert(r@ =~= label_ticket());
    r
}

/// The bytes of "custody".
fn custody_label() -> (r: Vec<u8>)
    ensures
        r@ == label_custody(),
{
    let mut r: Vec<u8> = Vec::new();
    r.push(99);
    r.push(117);
    r.push(115);
    r.push(116);
    r.push(111);
    r.push(100);
    r.push(121);
    assert(r@ =~= label_custody());
    r
}

/// Derives the content-addressed key of the lottery record owned by
/// `creator` over the prize `nft_mint`.
pub fn derive_lottery_key(creator: &Pubkey, nft_mint: &Pubkey) -> (r: Pubkey)
    ensures
        r@ == lottery_key_bytes(creator@, nft_mint@),
        r.wf(),
{
    let mut preimage = lottery_label();
    extend_bytes(&mut preimage, &creator.bytes);
    extend_bytes(&mut preimage, &nft_mint.bytes);
    let digest = sha256(&preimage);
    Pubkey::new(digest)
}

/// Derives the content-addressed key of the entry record numbered
/// `ticket_number` under the lottery with key `lottery_key`.
pub fn derive_ticket_key(lottery_key: &Pubkey, ticket_number: u64) -> (r: Pubkey)
    ensures
        r@ == ticket_key_bytes(lottery_key@, ticket_number),
        r.wf(),
{
    let mut preimage = ticket_label();
    extend_bytes(&mut preimage, &lottery_key.bytes);
    let number_bytes = u64_to_le_bytes(ticket_number);
    extend_bytes(&mut preimage, &number_bytes);
    let digest = sha256(&preimage);
    Pubkey::new(digest)
}

/// Derives the custody authority for the lottery with key `lottery_key`.
pub fn derive_custody_authority(lottery_key: &Pubkey) -> (r: Pubkey)
    ensures
        r@ == custody_authority_bytes(lottery_key@),
        r.wf(),
{
    let mut preimage = custody_label();
    extend_bytes(&mut preimage, &lottery_key.bytes);
    let digest = sha256(&preimage);
    Pubkey::new(digest)
}

} // verus!
