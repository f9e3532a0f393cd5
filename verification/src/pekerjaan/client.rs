use vstd::prelude::*;

use super::entity::{IklanPekerjaan, LamaranStatus};
use super::repository::{newest_at, IklanPekerjaanStore};
use crate::clients::{IklanPekerjaanClientError, IklanPekerjaanSummary};
use crate::moderation::{is_live, suspend_spec, suspended_status};
use crate::store::{has_key, pos_of, Row};

verus! {

/// What other services see of a job ad: identifier, title, company and
/// poster. `NotFound` when no ad has the identifier.
pub fn get_summary(repo: &IklanPekerjaanStore, id: u128) -> (r: Result<IklanPekerjaanSummary, IklanPekerjaanClientError>)
    requires
        repo.wf(),
    ensures
        r is Ok == has_key(repo.ads.ads(), id),
        match r {
            Ok(s) => {
                let x = repo.ads.ads()[pos_of(repo.ads.ads(), id)];
                s.id == x.id && s.judul == x.judul && s.perusahaan == x.perusahaan && s.poster_id == x.poster_id
            },
            Err(e) => e == IklanPekerjaanClientError::NotFound,
        },
{
    match repo.ads.find_by_id(id) {
        Some(x) => Ok(IklanPekerjaanSummary { id: x.id, judul: x.judul, perusahaan: x.perusahaan, poster_id: x.poster_id }),
        None => Err(IklanPekerjaanClientError::NotFound),
    }
}

/// Whether a job ad with the identifier is stored.
pub fn exists_id(repo: &IklanPekerjaanStore, id: u128) -> (r: bool)
    ensures
        r == has_key(repo.ads.ads(), id),
{
    repo.ads.exists_id(id)
}

/// Whether the applicant's application for the poster's ad is finished,
/// which is when the two may rate each other. False when the ad is not the
/// poster's or the applicant has no application for it; `NotFound` when
/// there is no such ad.
pub fn is_lamaran_selesai(repo: &IklanPekerjaanStore, iklan_id: u128, poster_id: u128, pelamar_id: u128) -> (r: Result<bool, IklanPekerjaanClientError>)
    requires
        repo.wf(),
    ensures
        r is Err == !has_key(repo.ads.ads(), iklan_id),
        r is Err ==> r == Err::<bool, IklanPekerjaanClientError>(IklanPekerjaanClientError::NotFound),
        r matches Ok(b) ==> b == (repo.ads.ads()[pos_of(repo.ads.ads(), iklan_id)].poster_id == poster_id
            && newest_application_finished(repo.lamarans(), iklan_id, pelamar_id)),
{
    let iklan = match repo.ads.find_by_id(iklan_id) {
        Some(x) => x,
        None => { return Err(IklanPekerjaanClientError::NotFound); },
    };
    if iklan.poster_id != poster_id {
        return Ok(false);
    }
    match repo.find_lamaran_by_iklan_and_pelamar(iklan_id, pelamar_id) {
        Some(l) => {
            proof {
                let ls = repo.lamarans();
                let j = choose|j: int| #[trigger] newest_at(ls, iklan_id, pelamar_id, j) && ls[j] == l;
                if newest_application_finished(ls, iklan_id, pelamar_id) {
                    let j2 = choose|j2: int| #[trigger] newest_at(ls, iklan_id, pelamar_id, j2) && ls[j2].status == LamaranStatus::Selesai;
                    super::repository::lemma_newest_unique(ls, iklan_id, pelamar_id, j, j2);
                }
            }
            Ok(l.status == LamaranStatus::Selesai)
        },
        None => Ok(false),
    }
}

/// The applicant's newest application for the ad is finished.
pub open spec fn newest_application_finished(ls: Seq<super::entity::Lamaran>, iklan_id: u128, pelamar_id: u128) -> bool {
    exists|j: int| #[trigger] newest_at(ls, iklan_id, pelamar_id, j) && ls[j].status == LamaranStatus::Selesai
}

/// Suspends one ad on another service's behalf (no evidence attached).
/// `NotFound`, and only the audit log is untouched too, when the ad does not
/// exist or was soft-deleted.
pub fn suspend(
    repo: &mut IklanPekerjaanStore,
    iklan_id: u128,
    is_permanent: bool,
    reason: &str,
    expires_at: Option<i64>,
    admin_id: u128,
    now: i64,
) -> (r: Result<(), IklanPekerjaanClientError>)
    requires
        old(repo).wf(),
    ensures
        final(repo).wf(),
        final(repo).lamarans() == old(repo).lamarans(),
        r is Ok == is_live(old(repo).ads.ads(), iklan_id),
        r is Err ==> r == Err::<(), IklanPekerjaanClientError>(IklanPekerjaanClientError::NotFound),
        final(repo).ads.ads() == suspend_spec(old(repo).ads.ads(), seq![iklan_id], suspended_status(is_permanent), now),
{
    let mut ids: Vec<u128> = Vec::new();
    ids.push(iklan_id);
    let made = repo.ads.suspend(&ids, is_permanent, reason, &None, expires_at, admin_id, now);
    proof {
        let a0 = old(repo).ads.ads();
        let p = crate::moderation::live_pred(a0);
        assert(ids@ == seq![iklan_id]);
        reveal(Seq::filter);
        assert(seq![iklan_id].drop_last() =~= Seq::<u128>::empty());
        assert(Seq::<u128>::empty().filter(p) =~= Seq::<u128>::empty());
    }
    if made.len() == 0 {
        Err(IklanPekerjaanClientError::NotFound)
    } else {
        Ok(())
    }
}

} // verus!
