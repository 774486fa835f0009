//! Royalty redirection: the creator shares a collectible's metadata gets
//! when the stealth record is made a creator and seller fees go to 100%.

use vstd::prelude::*;
use crate::bytes::keys_equal;
use crate::error::StealthError;

verus! {

/// A creator entry of a collectible's metadata.
#[derive(Clone, Copy, Debug, PartialEq, Eq)]
pub struct Creator {
    pub address: [u8; 32],
    pub verified: bool,
    pub share: u8,
}

/// What the royalty logic reads of a collectible's metadata.
#[derive(Clone, Debug)]
pub struct Metadata {
    pub mint: [u8; 32],
    pub update_authority: [u8; 32],
    pub is_mutable: bool,
    pub seller_fee_basis_points: u16,
    pub creators: Option<Vec<Creator>>,
}

/// Seller fee in basis points once royalties are redirected: all of it.
pub const FULL_SELLER_FEE: u16 = 10000;

/// A creator's new share: its part of the seller fee, in whole percent of
/// the full fee.
pub open spec fn scaled_share(seller_bp: u16, share: u8) -> int {
    (seller_bp as int * share as int / 100) / 100
}

/// The sum of the new shares of the first `n` creators.
pub open spec fn scaled_sum(seller_bp: u16, cs: Seq<Creator>, n: int) -> int
    decreases n,
{
    if n <= 0 {
        0
    } else {
        scaled_sum(seller_bp, cs, n - 1) + scaled_share(seller_bp, cs[n - 1].share)
    }
}

/// Whether the new shares can be written: each fits a byte, and together
/// they leave a non-negative remainder of 100.
pub open spec fn shares_fit(seller_bp: u16, cs: Seq<Creator>) -> bool {
    &&& forall|i: int| 0 <= i < cs.len() ==> #[trigger] scaled_share(seller_bp, cs[i].share) <= 255
    &&& scaled_sum(seller_bp, cs, cs.len() as int) <= 100
}

/// Whether `v` is `cs` rescaled: each creator with its scaled share, then
/// the stealth record with the remainder of 100.
pub open spec fn rescaled(stealth_key: [u8; 32], bp: u16, cs: Seq<Creator>, v: Seq<Creator>) -> bool {
    &&& v.len() == cs.len() + 1
    &&& forall|i: int| 0 <= i < cs.len() ==> #[trigger] v[i] == (Creator { share: scaled_share(bp, cs[i].share) as u8, ..cs[i] })
    &&& v[cs.len() as int] == (Creator {
            address: stealth_key,
            verified: false,
            share: (100 - scaled_sum(bp, cs, cs.len() as int)) as u8,
        })
}

/// What rescaling answers for `metadata`.
pub open spec fn rescale_result(stealth_key: [u8; 32], metadata: Metadata, r: Option<Vec<Creator>>) -> bool {
    match metadata.creators {
        None => r matches Some(v) && v@.len() == 0,
        Some(cs) => {
            &&& (r is Some <==> shares_fit(metadata.seller_fee_basis_points, cs@))
            &&& (r matches Some(v) ==> rescaled(stealth_key, metadata.seller_fee_basis_points, cs@, v@))
        },
    }
}

proof fn lemma_scaled_sum_monotone(seller_bp: u16, cs: Seq<Creator>, n: int, m: int)
    requires
        0 <= n <= m,
    ensures
        scaled_sum(seller_bp, cs, n) <= scaled_sum(seller_bp, cs, m),
    decreases m - n,
{
    if n < m {
        lemma_scaled_sum_monotone(seller_bp, cs, n, m - 1);
        assert(scaled_share(seller_bp, cs[m - 1].share) >= 0) by (nonlinear_arith)
            requires seller_bp >= 0, cs[m - 1].share >= 0;
    }
}

/// The creators after redirection: each existing creator keeps its address
/// and verification but takes its scaled share, and the stealth record joins
/// last, unverified, with what remains of 100. With no creators the list
/// stays empty. `None` when the shares do not fit.
pub fn scale_creator_shares(stealth_key: &[u8; 32], metadata: &Metadata) -> (r: Option<Vec<Creator>>)
    ensures
        rescale_result(*stealth_key, *metadata, r),
{
    let mut new_creators: Vec<Creator> = Vec::new();
    match &metadata.creators {
        None => Some(new_creators),
        Some(creators) => {
            let bp = metadata.seller_fee_basis_points;
            let seller_bp: u64 = bp as u64;
            let mut remaining_share: u8 = 100;
            let mut i: usize = 0;
            while i < creators.len()
                invariant
                    metadata.creators matches Some(cs) && cs@ == creators@,
                    bp == metadata.seller_fee_basis_points,
                    i <= creators@.len(),
                    new_creators@.len() == i,
                    remaining_share as int == 100 - scaled_sum(bp, creators@, i as int),
                    forall|j: int| 0 <= j < i ==> #[trigger] scaled_share(bp, creators@[j].share) <= 255,
                    forall|j: int| 0 <= j < i ==> #[trigger] new_creators@[j] == (Creator {
                        share: scaled_share(bp, creators@[j].share) as u8,
                        ..creators@[j]
                    }),
                    seller_bp == bp as u64,
                decreases creators@.len() - i,
            {
                let creator = creators[i];
                assert(seller_bp * (creator.share as u64) <= 65535 * 255) by (nonlinear_arith)
                    requires seller_bp <= 65535, creator.share <= 255;
                let creator_bp = seller_bp * (creator.share as u64) / 100;
                let next: u64 = creator_bp / 100;
                assert(next as int == scaled_share(bp, creators@[i as int].share));
                assert(scaled_sum(bp, creators@, i + 1) == scaled_sum(bp, creators@, i as int) + next);
                if next > 255 {
                    assert(!shares_fit(bp, creators@));
                    return None;
                }
                if (next as u8) > remaining_share {
                    proof {
                        lemma_scaled_sum_monotone(bp, creators@, i as int + 1, creators@.len() as int);
                    }
                    assert(!shares_fit(bp, creators@));
                    return None;
                }
                remaining_share = remaining_share - next as u8;
                new_creators.push(Creator { share: next as u8, ..creator });
                i += 1;
            }
            new_creators.push(Creator { address: *stealth_key, verified: false, share: remaining_share });
            assert(rescaled(*stealth_key, bp, creators@, new_creators@));
            Some(new_creators)
        },
    }
}

/// The metadata changes that redirect royalties to the stealth record: the
/// seller fee goes to 100% and the creators are rescaled. The metadata
/// service must be the expected one.
pub fn royalty_update(
    metadata_program: &[u8; 32],
    expected_metadata_program: &[u8; 32],
    stealth_key: &[u8; 32],
    metadata: &Metadata,
) -> (r: Result<(u16, Vec<Creator>), StealthError>)
    ensures
        metadata_program@ != expected_metadata_program@ ==> r == Err::<(u16, Vec<Creator>), StealthError>(StealthError::InvalidArgument),
        metadata_program@ == expected_metadata_program@ ==> match metadata.creators {
            Some(cs) => (r is Err <==> !shares_fit(metadata.seller_fee_basis_points, cs@))
                && (r is Err ==> r == Err::<(u16, Vec<Creator>), StealthError>(StealthError::Overflow)),
            None => r is Ok,
        },
        r matches Ok(u) ==> u.0 == FULL_SELLER_FEE && rescale_result(*stealth_key, *metadata, Some(u.1)),
{
    if !keys_equal(metadata_program, expected_metadata_program) {
        return Err(StealthError::InvalidArgument);
    }
    match scale_creator_shares(stealth_key, metadata) {
        Some(v) => Ok((FULL_SELLER_FEE, v)),
        None => Err(StealthError::Overflow),
    }
}

} // verus!
