use vstd::prelude::*;

use super::entity::IklanPekerja;
use super::service::{active_of_pred, pekerja_listed};
use crate::ad_store::AdStore;
use crate::clients::{IklanPekerjaClientError, IklanPekerjaSummary};
use crate::moderation::{is_live, opt_view, suspend_spec, suspended_status};
use crate::store::{copies, has_key, pos_of, Row};

verus! {

/// The summary of a worker ad: identifier, poster, name, skills and the
/// first photo.
pub open spec fn is_summary_of(s: IklanPekerjaSummary, x: IklanPekerja) -> bool {
    &&& s.id == x.id
    &&& s.poster_id == x.poster_id
    &&& s.nama == x.nama
    &&& s.keahlian@ == x.keahlian@
    &&& opt_view(s.foto_url) == if x.foto_urls@.len() > 0 { Some(x.foto_urls@[0]@) } else { None }
}

fn summary_of(x: &IklanPekerja) -> (r: IklanPekerjaSummary)
    ensures
        is_summary_of(r, *x),
{
    let foto_url = if x.foto_urls.len() > 0 { Some(x.foto_urls[0].clone()) } else { None };
    IklanPekerjaSummary {
        id: x.id,
        poster_id: x.poster_id,
        nama: x.nama.clone(),
        keahlian: crate::util::clone_strings(&x.keahlian),
        foto_url,
    }
}

/// What other services see of a worker ad. `NotFound` when no ad has the
/// identifier.
pub fn get_summary(repo: &AdStore<IklanPekerja>, id: u128) -> (r: Result<IklanPekerjaSummary, IklanPekerjaClientError>)
    requires
        repo.wf(),
    ensures
        r is Ok == has_key(repo.ads(), id),
        match r {
            Ok(s) => is_summary_of(s, repo.ads()[pos_of(repo.ads(), id)]),
            Err(e) => e == IklanPekerjaClientError::NotFound,
        },
{
    match repo.find_by_id(id) {
        Some(x) => Ok(summary_of(&x)),
        None => Err(IklanPekerjaClientError::NotFound),
    }
}

/// Whether a worker ad with the identifier is stored.
pub fn exists_id(repo: &AdStore<IklanPekerja>, id: u128) -> (r: bool)
    ensures
        r == has_key(repo.ads(), id),
{
    repo.exists_id(id)
}

/// Whether the poster has an active worker ad (needed before applying for
/// jobs): active, in moderation `active`, not soft-deleted.
pub fn exists_active_for_poster(repo: &AdStore<IklanPekerja>, poster_id: u128) -> (r: bool)
    ensures
        r == exists|j: int| 0 <= j < repo.ads().len() && repo.ads()[j].poster_id == poster_id && #[trigger] pekerja_listed(repo.ads()[j]),
{
    let mut ids: Vec<u128> = Vec::new();
    ids.push(poster_id);
    let found = find_active_by_posters(repo, &ids);
    proof {
        let s = repo.ads();
        let p = active_of_pred(ids@);
        assert(ids@ =~= seq![poster_id]);
        if exists|j: int| 0 <= j < s.len() && s[j].poster_id == poster_id && #[trigger] pekerja_listed(s[j]) {
            let j = choose|j: int| 0 <= j < s.len() && s[j].poster_id == poster_id && #[trigger] pekerja_listed(s[j]);
            assert(ids@[0] == poster_id);
            assert(p(s[j]));
            s.lemma_filter_contains(p, j);
            assert(s.filter(p).len() > 0);
        }
        if found@.len() > 0 {
            s.lemma_filter_pred(p, 0);
            assert(s.filter(p).contains(s.filter(p)[0]));
            s.lemma_filter_contains_rev(p, s.filter(p)[0]);
            let j = choose|j: int| 0 <= j < s.len() && s[j] == s.filter(p)[0];
            assert(ids@.contains(s[j].poster_id));
            let k = choose|k: int| 0 <= k < ids@.len() && ids@[k] == s[j].poster_id;
            assert(pekerja_listed(s[j]));
        }
    }
    found.len() > 0
}

/// The active worker ads of the given posters, newest first.
pub fn find_active_by_posters(repo: &AdStore<IklanPekerja>, poster_ids: &Vec<u128>) -> (r: Vec<IklanPekerja>)
    ensures
        copies(r@, repo.ads().filter(active_of_pred(poster_ids@))),
{
    let f = |x: &IklanPekerja| -> (b: bool)
        ensures
            b == active_of_pred(poster_ids@)(*x),
        {
            crate::util::contains_id(poster_ids, x.poster_id) && x.is_active && x.moderation_status
                == crate::moderation::ModerationStatus::Active && x.deleted_at.is_none()
        };
    repo.all_where(f, Ghost(active_of_pred(poster_ids@)))
}

/// Summaries of the active worker ads of the given posters (posters
/// without one are simply absent), newest first.
pub fn get_active_summaries_for_posters(repo: &AdStore<IklanPekerja>, poster_ids: &Vec<u128>) -> (r: Vec<IklanPekerjaSummary>)
    ensures
        r@.len() == repo.ads().filter(active_of_pred(poster_ids@)).len(),
        forall|k: int| 0 <= k < r@.len() ==> is_summary_of(#[trigger] r@[k], repo.ads().filter(active_of_pred(poster_ids@))[k]),
{
    let items = find_active_by_posters(repo, poster_ids);
    let mut r: Vec<IklanPekerjaSummary> = Vec::new();
    let mut i: usize = 0;
    while i < items.len()
        invariant
            i <= items@.len(),
            copies(items@, repo.ads().filter(active_of_pred(poster_ids@))),
            r@.len() == i,
            forall|k: int| 0 <= k < i ==> is_summary_of(#[trigger] r@[k], repo.ads().filter(active_of_pred(poster_ids@))[k]),
        decreases items@.len() - i,
    {
        let s = summary_of(&items[i]);
        proof {
            assert(items@[i as int].same(&repo.ads().filter(active_of_pred(poster_ids@))[i as int]));
        }
        r.push(s);
        i = i + 1;
    }
    r
}

/// Suspends one ad on another service's behalf (no evidence attached).
/// `NotFound` when the ad does not exist or was soft-deleted.
pub fn suspend(
    repo: &mut AdStore<IklanPekerja>,
    iklan_id: u128,
    is_permanent: bool,
    reason: &str,
    expires_at: Option<i64>,
    admin_id: u128,
    now: i64,
) -> (r: Result<(), IklanPekerjaClientError>)
    requires
        old(repo).wf(),
    ensures
        final(repo).wf(),
        r is Ok == is_live(old(repo).ads(), iklan_id),
        r is Err ==> r == Err::<(), IklanPekerjaClientError>(IklanPekerjaClientError::NotFound),
        final(repo).ads() == suspend_spec(old(repo).ads(), seq![iklan_id], suspended_status(is_permanent), now),
{
    let mut ids: Vec<u128> = Vec::new();
    ids.push(iklan_id);
    let made = repo.suspend(&ids, is_permanent, reason, &None, expires_at, admin_id, now);
    proof {
        let a0 = old(repo).ads();
        let p = crate::moderation::live_pred(a0);
        assert(ids@ == seq![iklan_id]);
        reveal(Seq::filter);
        assert(seq![iklan_id].drop_last() =~= Seq::<u128>::empty());
        assert(Seq::<u128>::empty().filter(p) =~= Seq::<u128>::empty());
    }
    if made.len() == 0 {
        Err(IklanPekerjaClientError::NotFound)
    } else {
        Ok(())
    }
}

} // verus!
