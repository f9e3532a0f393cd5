use vstd::prelude::*;

use super::entity::{IklanPekerjaan, LamaranStatus, PekerjaanStatus};
use super::dto::LamarInput;
use super::repository::{conflict_pred, job_moved, lamaran_at, owner_may_change, pelamar_may_change};
use super::service::{lamar_refusal, PekerjaCheck, PekerjaanError};
use super::entity::Lamaran;
use crate::store::{has_key, pos_of};

verus! {

/// The application lifecycle: submitted → accepted or rejected; accepted →
/// running, or rejected by cancellation; running → finished.
pub open spec fn lamaran_step(from: LamaranStatus, to: LamaranStatus) -> bool {
    ||| from == LamaranStatus::Diajukan && (to == LamaranStatus::Diterima || to == LamaranStatus::Ditolak)
    ||| from == LamaranStatus::Diterima && (to == LamaranStatus::Proses || to == LamaranStatus::Ditolak)
    ||| from == LamaranStatus::Proses && to == LamaranStatus::Selesai
}

/// Rank of a job's work status: available, then in progress, then finished.
pub open spec fn work_rank(s: PekerjaanStatus) -> int {
    match s {
        PekerjaanStatus::Tersedia => 0,
        PekerjaanStatus::SedangDikerjakan => 1,
        PekerjaanStatus::Selesai => 2,
    }
}

/// Every transition the service makes follows the lifecycle, and a
/// terminal application (rejected or finished) admits none.
pub proof fn law_lamaran_lifecycle(ads: Seq<IklanPekerjaan>, ls: Seq<Lamaran>, id: u128, user: u128, approved: bool)
    ensures
        owner_may_change(ads, ls, id, user, LamaranStatus::Diajukan) ==> lamaran_step(
            lamaran_at(ls, id).status,
            if approved { LamaranStatus::Diterima } else { LamaranStatus::Ditolak },
        ),
        owner_may_change(ads, ls, id, user, LamaranStatus::Diterima) ==> lamaran_step(
            lamaran_at(ls, id).status,
            LamaranStatus::Ditolak,
        ),
        pelamar_may_change(ls, id, user, LamaranStatus::Diterima) ==> lamaran_step(
            lamaran_at(ls, id).status,
            LamaranStatus::Proses,
        ),
        pelamar_may_change(ls, id, user, LamaranStatus::Proses) ==> lamaran_step(
            lamaran_at(ls, id).status,
            LamaranStatus::Selesai,
        ),
        has_key(ls, id) && lamaran_at(ls, id).status.terminal() ==> {
            &&& !owner_may_change(ads, ls, id, user, LamaranStatus::Diajukan)
            &&& !owner_may_change(ads, ls, id, user, LamaranStatus::Diterima)
            &&& !pelamar_may_change(ls, id, user, LamaranStatus::Diterima)
            &&& !pelamar_may_change(ls, id, user, LamaranStatus::Proses)
        },
{
}

/// No status leads out of a terminal state.
pub proof fn law_terminal_has_no_successor(from: LamaranStatus, to: LamaranStatus)
    requires
        from.terminal(),
    ensures
        !lamaran_step(from, to),
{
}

/// Starting and finishing work only ever move a job forward (available →
/// in progress → finished), and only the named job.
pub proof fn law_work_moves_forward(
    ads: Seq<IklanPekerjaan>,
    iklan_id: u128,
    from: PekerjaanStatus,
    to: PekerjaanStatus,
    now: i64,
)
    requires
        work_rank(from) <= work_rank(to),
    ensures
        job_moved(ads, iklan_id, from, to, now).len() == ads.len(),
        forall|j: int|
            0 <= j < ads.len() ==> work_rank(ads[j].status) <= work_rank(
                (#[trigger] job_moved(ads, iklan_id, from, to, now)[j]).status,
            ) && job_moved(ads, iklan_id, from, to, now)[j].id == ads[j].id && (ads[j].id != iklan_id ==> job_moved(
                ads,
                iklan_id,
                from,
                to,
                now,
            )[j] == ads[j]),
{
    if has_key(ads, iklan_id) && ads[pos_of(ads, iklan_id)].status == from {
        let p = pos_of(ads, iklan_id);
        assert forall|j: int| 0 <= j < ads.len() && ads[j].id != iklan_id implies job_moved(ads, iklan_id, from, to, now)[j] == ads[j] by {
            assert(j != p);
        }
    }
}

} // verus!

verus! {

/// Only work on the same day blocks an application: when applying is
/// refused for a schedule conflict, the applicant has accepted or running
/// work on the requested date whose hours overlap the requested ones.
pub proof fn law_schedule_conflict_is_on_the_same_day(
    ads: Seq<IklanPekerjaan>,
    ls: Seq<Lamaran>,
    pelamar_id: u128,
    iklan_id: u128,
    input: LamarInput,
    pekerja: PekerjaCheck,
    id: u128,
)
    requires
        lamar_refusal(ads, ls, pelamar_id, iklan_id, input, pekerja, id) == Some(PekerjaanError::ScheduleConflict),
    ensures
        exists|j: int|
            0 <= j < ls.len() && (#[trigger] ls[j]).pelamar_id == pelamar_id && ls[j].tanggal == input.tanggal
                && (ls[j].status == LamaranStatus::Diterima || ls[j].status == LamaranStatus::Proses)
                && ls[j].jam_mulai < input.jam_akhir && input.jam_mulai < ls[j].jam_akhir,
{
    let j = choose|j: int|
        0 <= j < ls.len() && #[trigger] conflict_pred(pelamar_id, input.tanggal, input.jam_mulai, input.jam_akhir)(
            ls[j],
        );
    assert(ls[j].pelamar_id == pelamar_id);
}

} // verus!
