use vstd::prelude::*;

use super::repository::IklanBarangBekasStore;
use crate::clients::{IklanBarangBekasClientError, IklanBarangBekasSummary};
use crate::moderation::{is_live, suspend_spec, suspended_status};
use crate::store::{has_key, pos_of};

verus! {

/// What other services see of a giveaway ad: identifier, title and a price
/// of zero (the items are free). `NotFound` when no ad has the identifier.
pub fn get_summary(repo: &IklanBarangBekasStore, id: u128) -> (r: Result<IklanBarangBekasSummary, IklanBarangBekasClientError>)
    requires
        repo.wf(),
    ensures
        r is Ok == has_key(repo.ads(), id),
        match r {
            Ok(s) => {
                let x = repo.ads()[pos_of(repo.ads(), id)];
                s.id == x.id && s.judul == x.judul && s.harga == 0
            },
            Err(e) => e == IklanBarangBekasClientError::NotFound,
        },
{
    match repo.find_by_id(id) {
        Some(x) => Ok(IklanBarangBekasSummary { id: x.id, judul: x.judul, harga: 0 }),
        None => Err(IklanBarangBekasClientError::NotFound),
    }
}

/// Whether a giveaway ad with the identifier is stored.
pub fn exists_id(repo: &IklanBarangBekasStore, id: u128) -> (r: bool)
    ensures
        r == has_key(repo.ads(), id),
{
    repo.exists_id(id)
}

/// Suspends one ad on another service's behalf (no evidence attached).
/// `NotFound` when the ad does not exist or was soft-deleted.
pub fn suspend(
    repo: &mut IklanBarangBekasStore,
    iklan_id: u128,
    is_permanent: bool,
    reason: &str,
    expires_at: Option<i64>,
    admin_id: u128,
    now: i64,
) -> (r: Result<(), IklanBarangBekasClientError>)
    requires
        old(repo).wf(),
    ensures
        final(repo).wf(),
        final(repo).biders() == old(repo).biders(),
        r is Ok == is_live(old(repo).ads(), iklan_id),
        r is Err ==> r == Err::<(), IklanBarangBekasClientError>(IklanBarangBekasClientError::NotFound),
        final(repo).ads() == suspend_spec(old(repo).ads(), seq![iklan_id], suspended_status(is_permanent), now),
{
    let mut ids: Vec<u128> = Vec::new();
    ids.push(iklan_id);
    let made = repo.suspend(&ids, is_permanent, reason, &None, expires_at, admin_id, now);
    proof {
        let a0 = old(repo).ads();
        let p = crate::moderation::live_pred(a0);
        assert(ids@ == seq![iklan_id]);
        reveal(Seq::filter);
        assert(seq![iklan_id].drop_last() =~= Seq::<u128>::empty());
        assert(Seq::<u128>::empty().filter(p) =~= Seq::<u128>::empty());
    }
    if made.len() == 0 {
        Err(IklanBarangBekasClientError::NotFound)
    } else {
        Ok(())
    }
}

} // verus!
