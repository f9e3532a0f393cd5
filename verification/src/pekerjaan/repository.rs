use vstd::prelude::*;

use super::entity::{IklanPekerjaan, Lamaran, LamaranStatus, PekerjaanStatus};
use crate::ad_store::AdStore;
use crate::moderation::Moderated;
use crate::store::{
    any_row, find_pos, has_key, insert_newest_first, lemma_unique_pos, lookup, lookup_matches, newest_first,
    pos_of, select, unique_keys, RepoError, Row,
};

verus! {

/// Fields of a new application.
pub struct CreateLamaranParams {
    pub iklan_id: u128,
    pub pelamar_id: u128,
    pub tanggal: i64,
    pub jam_mulai: u32,
    pub jam_akhir: u32,
    pub kuota_diambil: i32,
}

/// The application stored for `p`: submitted, not cancelled.
pub open spec fn new_lamaran(p: CreateLamaranParams, id: u128, now: i64) -> Lamaran {
    Lamaran {
        id,
        iklan_id: p.iklan_id,
        pelamar_id: p.pelamar_id,
        status: LamaranStatus::Diajukan,
        tanggal: p.tanggal,
        jam_mulai: p.jam_mulai,
        jam_akhir: p.jam_akhir,
        kuota_diambil: p.kuota_diambil,
        alasan_batal: None,
        created_at: now,
        updated_at: now,
    }
}

/// Applications for one ad.
pub open spec fn lamaran_of_pred(iklan_id: u128) -> spec_fn(Lamaran) -> bool {
    |l: Lamaran| l.iklan_id == iklan_id
}

/// Applications of one applicant.
pub open spec fn lamaran_by_pred(pelamar_id: u128) -> spec_fn(Lamaran) -> bool {
    |l: Lamaran| l.pelamar_id == pelamar_id
}

/// An accepted or running application of `pelamar_id` on the same day whose
/// hours overlap `[jam_mulai, jam_akhir)`.
pub open spec fn conflict_pred(pelamar_id: u128, tanggal: i64, jam_mulai: u32, jam_akhir: u32) -> spec_fn(Lamaran) -> bool {
    |l: Lamaran|
        l.pelamar_id == pelamar_id && (l.status == LamaranStatus::Diterima || l.status == LamaranStatus::Proses)
            && l.tanggal == tanggal && l.jam_mulai < jam_akhir && jam_mulai < l.jam_akhir
}

/// The owner has a live job ad with the identifier.
pub open spec fn owns_live_job(ads: Seq<IklanPekerjaan>, iklan_id: u128, owner: u128) -> bool {
    exists|j: int| 0 <= j < ads.len() && #[trigger] live_job_pred(iklan_id, owner)(ads[j])
}

pub open spec fn live_job_pred(iklan_id: u128, owner: u128) -> spec_fn(IklanPekerjaan) -> bool {
    |x: IklanPekerjaan| x.id == iklan_id && x.poster_id == owner && x.deleted_at is None
}

/// The application with the identifier (meaningful when there is one).
pub open spec fn lamaran_at(ls: Seq<Lamaran>, id: u128) -> Lamaran {
    ls[pos_of(ls, id)]
}

/// An application with the identifier in `from`, whose ad is a live ad of
/// the owner.
pub open spec fn owner_may_change(ads: Seq<IklanPekerjaan>, ls: Seq<Lamaran>, id: u128, owner: u128, from: LamaranStatus) -> bool {
    has_key(ls, id) && lamaran_at(ls, id).status == from && owns_live_job(ads, lamaran_at(ls, id).iklan_id, owner)
}

/// An application with the identifier in `from` that belongs to the
/// applicant.
pub open spec fn pelamar_may_change(ls: Seq<Lamaran>, id: u128, pelamar_id: u128, from: LamaranStatus) -> bool {
    has_key(ls, id) && lamaran_at(ls, id).status == from && lamaran_at(ls, id).pelamar_id == pelamar_id
}

/// The ad's work status moved from `from` to `to` at `now`, if it was in
/// `from`; otherwise the ads are unchanged.
pub open spec fn job_moved(ads: Seq<IklanPekerjaan>, iklan_id: u128, from: PekerjaanStatus, to: PekerjaanStatus, now: i64) -> Seq<IklanPekerjaan> {
    if has_key(ads, iklan_id) && ads[pos_of(ads, iklan_id)].status == from {
        ads.update(pos_of(ads, iklan_id), IklanPekerjaan { status: to, updated_at: now, ..ads[pos_of(ads, iklan_id)] })
    } else {
        ads
    }
}

/// The newest application of the applicant for the ad is at `j`.
pub open spec fn newest_at(ls: Seq<Lamaran>, iklan_id: u128, pelamar_id: u128, j: int) -> bool {
    &&& 0 <= j < ls.len()
    &&& ls[j].iklan_id == iklan_id
    &&& ls[j].pelamar_id == pelamar_id
    &&& forall|k: int| 0 <= k < j ==> !((#[trigger] ls[k]).iklan_id == iklan_id && ls[k].pelamar_id == pelamar_id)
}

/// There is one newest application at most.
pub proof fn lemma_newest_unique(ls: Seq<Lamaran>, iklan_id: u128, pelamar_id: u128, a: int, b: int)
    requires
        newest_at(ls, iklan_id, pelamar_id, a),
        newest_at(ls, iklan_id, pelamar_id, b),
    ensures
        a == b,
{
    if a < b {
        assert(!(ls[a].iklan_id == iklan_id && ls[a].pelamar_id == pelamar_id));
    } else if b < a {
        assert(!(ls[b].iklan_id == iklan_id && ls[b].pelamar_id == pelamar_id));
    }
}

/// Job ads, their applications and the suspension audit log.
pub struct IklanPekerjaanStore {
    pub ads: AdStore<IklanPekerjaan>,
    pub lamaran: Vec<Lamaran>,
}

impl IklanPekerjaanStore {
    pub open spec fn lamarans(&self) -> Seq<Lamaran> {
        self.lamaran@
    }

    pub open spec fn wf(&self) -> bool {
        &&& self.ads.wf()
        &&& unique_keys(self.lamarans())
        &&& newest_first(self.lamarans())
    }

    pub fn new() -> (r: IklanPekerjaanStore)
        ensures
            r.wf(),
            r.ads.ads() == Seq::<IklanPekerjaan>::empty(),
            r.ads.log() == Seq::<crate::moderation::IklanSuspension>::empty(),
            r.lamarans() == Seq::<Lamaran>::empty(),
    {
        IklanPekerjaanStore { ads: AdStore::new(), lamaran: Vec::new() }
    }

    /// The application with the identifier.
    pub fn find_lamaran_by_id(&self, id: u128) -> (r: Option<Lamaran>)
        requires
            self.wf(),
        ensures
            lookup_matches(self.lamarans(), id, r),
    {
        lookup(&self.lamaran, id)
    }

    /// The newest application of the applicant for the ad, if any.
    pub fn find_lamaran_by_iklan_and_pelamar(&self, iklan_id: u128, pelamar_id: u128) -> (r: Option<Lamaran>)
        ensures
            match r {
                Some(l) => exists|j: int| #[trigger] newest_at(self.lamarans(), iklan_id, pelamar_id, j) && self.lamarans()[j] == l,
                None => forall|k: int|
                    0 <= k < self.lamarans().len() ==> !((#[trigger] self.lamarans()[k]).iklan_id == iklan_id
                        && self.lamarans()[k].pelamar_id == pelamar_id),
            },
    {
        let mut k: usize = 0;
        while k < self.lamaran.len()
            invariant
                k <= self.lamaran@.len(),
                forall|x: int| 0 <= x < k ==> !((#[trigger] self.lamaran@[x]).iklan_id == iklan_id
                    && self.lamaran@[x].pelamar_id == pelamar_id),
            decreases self.lamaran@.len() - k,
        {
            if self.lamaran[k].iklan_id == iklan_id && self.lamaran[k].pelamar_id == pelamar_id {
                let l = self.lamaran[k].duplicate();
                assert(newest_at(self.lamarans(), iklan_id, pelamar_id, k as int));
                return Some(l);
            }
            k = k + 1;
        }
        None
    }

    /// Records a new application; refused when the identifier is taken.
    pub fn create_lamaran(&mut self, p: CreateLamaranParams, id: u128, now: i64) -> (r: Result<Lamaran, RepoError>)
        requires
            old(self).wf(),
        ensures
            final(self).wf(),
            final(self).ads == old(self).ads,
            match r {
                Ok(l) => {
                    &&& !has_key(old(self).lamarans(), id)
                    &&& l == new_lamaran(p, id, now)
                    &&& exists|k: int|
                        0 <= k <= old(self).lamarans().len() && final(self).lamarans() == old(self).lamarans().insert(k, l)
                },
                Err(e) => has_key(old(self).lamarans(), id) && e == RepoError::DuplicateId && *final(self) == *old(self),
            },
    {
        if find_pos(&self.lamaran, id).is_some() {
            return Err(RepoError::DuplicateId);
        }
        let l = Lamaran {
            id,
            iklan_id: p.iklan_id,
            pelamar_id: p.pelamar_id,
            status: LamaranStatus::Diajukan,
            tanggal: p.tanggal,
            jam_mulai: p.jam_mulai,
            jam_akhir: p.jam_akhir,
            kuota_diambil: p.kuota_diambil,
            alasan_batal: None,
            created_at: now,
            updated_at: now,
        };
        let out = l.duplicate();
        let ghost before = self.lamaran@;
        let ghost lv = l;
        let k = insert_newest_first(&mut self.lamaran, l);
        proof {
            crate::store::lemma_insert_fresh_unique(before, k as int, lv);
        }
        Ok(out)
    }

    /// The applications for one ad, newest first.
    pub fn list_lamaran_for_iklan(&self, iklan_id: u128) -> (r: Vec<Lamaran>)
        ensures
            r@ == self.lamarans().filter(lamaran_of_pred(iklan_id)),
    {
        let f = |l: &Lamaran| -> (b: bool)
            ensures
                b == (l.iklan_id == iklan_id),
            { l.iklan_id == iklan_id };
        let r = select(&self.lamaran, f, Ghost(lamaran_of_pred(iklan_id)));
        proof {
            let t = self.lamarans().filter(lamaran_of_pred(iklan_id));
            assert forall|k: int| 0 <= k < r@.len() implies r@[k] == t[k] by {
                assert(r@[k].same(&t[k]));
            }
            assert(r@ =~= t);
        }
        r
    }

    /// The applications of one applicant, newest first.
    pub fn list_lamaran_for_pelamar(&self, pelamar_id: u128) -> (r: Vec<Lamaran>)
        ensures
            r@ == self.lamarans().filter(lamaran_by_pred(pelamar_id)),
    {
        let f = |l: &Lamaran| -> (b: bool)
            ensures
                b == (l.pelamar_id == pelamar_id),
            { l.pelamar_id == pelamar_id };
        let r = select(&self.lamaran, f, Ghost(lamaran_by_pred(pelamar_id)));
        proof {
            let t = self.lamarans().filter(lamaran_by_pred(pelamar_id));
            assert forall|k: int| 0 <= k < r@.len() implies r@[k] == t[k] by {
                assert(r@[k].same(&t[k]));
            }
            assert(r@ =~= t);
        }
        r
    }

    /// Whether the applicant already has accepted or running work on the
    /// same day in overlapping hours.
    pub fn has_conflicting_lamaran(&self, pelamar_id: u128, tanggal: i64, jam_mulai: u32, jam_akhir: u32) -> (r: bool)
        ensures
            r == exists|j: int|
                0 <= j < self.lamarans().len() && #[trigger] conflict_pred(pelamar_id, tanggal, jam_mulai, jam_akhir)(
                    self.lamarans()[j],
                ),
    {
        let f = |l: &Lamaran| -> (b: bool)
            ensures
                b == conflict_pred(pelamar_id, tanggal, jam_mulai, jam_akhir)(*l),
            {
                l.pelamar_id == pelamar_id && (l.status == LamaranStatus::Diterima || l.status
                    == LamaranStatus::Proses) && l.tanggal == tanggal && l.jam_mulai < jam_akhir && jam_mulai
                    < l.jam_akhir
            };
        let r = any_row(&self.lamaran, f, Ghost(conflict_pred(pelamar_id, tanggal, jam_mulai, jam_akhir)));
        proof {
            let p = conflict_pred(pelamar_id, tanggal, jam_mulai, jam_akhir);
            if r {
                let j = choose|j: int| 0 <= j < self.lamaran@.len() && #[trigger] p(self.lamaran@[j]);
                assert(p(self.lamarans()[j]));
            }
        }
        r
    }

    fn owns_live_job_exec(&self, iklan_id: u128, owner: u128) -> (r: bool)
        ensures
            r == owns_live_job(self.ads.ads(), iklan_id, owner),
    {
        let f = |x: &IklanPekerjaan| -> (b: bool)
            ensures
                b == live_job_pred(iklan_id, owner)(*x),
            { x.id == iklan_id && x.poster_id == owner && x.deleted_at.is_none() };
        let all = self.ads.all_where(f, Ghost(live_job_pred(iklan_id, owner)));
        proof {
            let p = live_job_pred(iklan_id, owner);
            let s = self.ads.ads();
            if owns_live_job(s, iklan_id, owner) {
                let j = choose|j: int| 0 <= j < s.len() && #[trigger] p(s[j]);
                s.lemma_filter_contains(p, j);
                let m = choose|m: int| 0 <= m < s.filter(p).len() && s.filter(p)[m] == s[j];
                assert(s.filter(p).len() > 0);
            }
            if all@.len() > 0 {
                s.lemma_filter_pred(p, 0);
                assert(s.filter(p).contains(s.filter(p)[0]));
                s.lemma_filter_contains_rev(p, s.filter(p)[0]);
            }
        }
        all.len() > 0
    }

    /// Replaces the application at position `q`, keeping its identifier and
    /// creation time.
    fn set_lamaran(&mut self, q: usize, l: Lamaran)
        requires
            old(self).wf(),
            q < old(self).lamarans().len(),
            l.id == old(self).lamarans()[q as int].id,
            l.created_at == old(self).lamarans()[q as int].created_at,
        ensures
            final(self).wf(),
            final(self).ads == old(self).ads,
            final(self).lamarans() == old(self).lamarans().update(q as int, l),
    {
        let ghost before = self.lamaran@;
        let _ = self.lamaran.remove(q);
        self.lamaran.insert(q, l);
        proof {
            assert(self.lamaran@ =~= before.update(q as int, l));
            crate::store::lemma_same_keys_keeps(before, self.lamaran@);
        }
    }

    /// Moves the ad's work status from `from` to `to` if it is in `from`.
    fn move_job(&mut self, iklan_id: u128, from: PekerjaanStatus, to: PekerjaanStatus, now: i64)
        requires
            old(self).wf(),
        ensures
            final(self).wf(),
            final(self).lamarans() == old(self).lamarans(),
            final(self).ads.log() == old(self).ads.log(),
            final(self).ads.ads() == job_moved(old(self).ads.ads(), iklan_id, from, to, now),
    {
        let ghost s = self.ads.ads();
        let ghost g = |x: IklanPekerjaan|
            if x.status == from {
                IklanPekerjaan { status: to, updated_at: now, ..x }
            } else {
                x
            };
        let f = |x: IklanPekerjaan| -> (y: IklanPekerjaan)
            ensures
                y == (if x.status == from {
                    IklanPekerjaan { status: to, updated_at: now, ..x }
                } else {
                    x
                }),
            {
                if x.status == from {
                    IklanPekerjaan { status: to, updated_at: now, ..x }
                } else {
                    x
                }
            };
        let hit = self.ads.update_with(iklan_id, f, Ghost(g));
        proof {
            if hit {
                let q = pos_of(s, iklan_id);
                if s[q].status != from {
                    assert(self.ads.ads() =~= s);
                }
            }
        }
    }

    /// The owner accepts or rejects a submitted application of one of their
    /// live ads. None, and nothing changes, when there is no such
    /// application.
    pub fn review_lamaran(&mut self, id: u128, iklan_owner_id: u128, approved: bool, now: i64) -> (r: Option<Lamaran>)
        requires
            old(self).wf(),
        ensures
            final(self).wf(),
            final(self).ads == old(self).ads,
            r is Some == owner_may_change(old(self).ads.ads(), old(self).lamarans(), id, iklan_owner_id, LamaranStatus::Diajukan),
            match r {
                Some(l) => {
                    let q = pos_of(old(self).lamarans(), id);
                    &&& l == Lamaran {
                        status: if approved { LamaranStatus::Diterima } else { LamaranStatus::Ditolak },
                        updated_at: now,
                        ..old(self).lamarans()[q]
                    }
                    &&& final(self).lamarans() == old(self).lamarans().update(q, l)
                },
                None => *final(self) == *old(self),
            },
    {
        let q = match find_pos(&self.lamaran, id) {
            Some(q) => q,
            None => { return None; },
        };
        proof {
            lemma_unique_pos(self.lamaran@, q as int, pos_of(self.lamaran@, id));
        }
        if self.lamaran[q].status != LamaranStatus::Diajukan {
            return None;
        }
        if !self.owns_live_job_exec(self.lamaran[q].iklan_id, iklan_owner_id) {
            return None;
        }
        let l0 = self.lamaran[q].duplicate();
        let l = Lamaran {
            status: if approved { LamaranStatus::Diterima } else { LamaranStatus::Ditolak },
            updated_at: now,
            ..l0
        };
        let out = l.duplicate();
        self.set_lamaran(q, l);
        Some(out)
    }

    /// The owner cancels an accepted application of one of their live ads,
    /// with a reason: it becomes rejected. None, and nothing changes, when
    /// there is no such application.
    pub fn batalkan_lamaran(&mut self, id: u128, iklan_owner_id: u128, alasan: &str, now: i64) -> (r: Option<Lamaran>)
        requires
            old(self).wf(),
        ensures
            final(self).wf(),
            final(self).ads == old(self).ads,
            r is Some == owner_may_change(old(self).ads.ads(), old(self).lamarans(), id, iklan_owner_id, LamaranStatus::Diterima),
            match r {
                Some(l) => {
                    let q = pos_of(old(self).lamarans(), id);
                    let l0 = old(self).lamarans()[q];
                    &&& l.id == l0.id && l.iklan_id == l0.iklan_id && l.pelamar_id == l0.pelamar_id
                    &&& l.tanggal == l0.tanggal && l.jam_mulai == l0.jam_mulai && l.jam_akhir == l0.jam_akhir
                    &&& l.kuota_diambil == l0.kuota_diambil && l.created_at == l0.created_at
                    &&& l.status == LamaranStatus::Ditolak
                    &&& crate::moderation::opt_view(l.alasan_batal) == Some(alasan@)
                    &&& l.updated_at == now
                    &&& final(self).lamarans() == old(self).lamarans().update(q, l)
                },
                None => *final(self) == *old(self),
            },
    {
        let q = match find_pos(&self.lamaran, id) {
            Some(q) => q,
            None => { return None; },
        };
        proof {
            lemma_unique_pos(self.lamaran@, q as int, pos_of(self.lamaran@, id));
        }
        if self.lamaran[q].status != LamaranStatus::Diterima {
            return None;
        }
        if !self.owns_live_job_exec(self.lamaran[q].iklan_id, iklan_owner_id) {
            return None;
        }
        let l0 = self.lamaran[q].duplicate();
        let l = Lamaran { status: LamaranStatus::Ditolak, alasan_batal: Some(alasan.to_owned()), updated_at: now, ..l0 };
        let out = l.duplicate();
        self.set_lamaran(q, l);
        Some(out)
    }

    /// The applicant starts work on an accepted application: it becomes
    /// running and the ad, if available, becomes in progress. None, and
    /// nothing changes, when there is no such application.
    pub fn mulai_bekerja(&mut self, lamaran_id: u128, pelamar_id: u128, now: i64) -> (r: Option<Lamaran>)
        requires
            old(self).wf(),
        ensures
            final(self).wf(),
            final(self).ads.log() == old(self).ads.log(),
            r is Some == pelamar_may_change(old(self).lamarans(), lamaran_id, pelamar_id, LamaranStatus::Diterima),
            match r {
                Some(l) => {
                    let q = pos_of(old(self).lamarans(), lamaran_id);
                    &&& l == Lamaran { status: LamaranStatus::Proses, updated_at: now, ..old(self).lamarans()[q] }
                    &&& final(self).lamarans() == old(self).lamarans().update(q, l)
                    &&& final(self).ads.ads() == job_moved(
                        old(self).ads.ads(),
                        l.iklan_id,
                        PekerjaanStatus::Tersedia,
                        PekerjaanStatus::SedangDikerjakan,
                        now,
                    )
                },
                None => *final(self) == *old(self),
            },
    {
        let q = match find_pos(&self.lamaran, lamaran_id) {
            Some(q) => q,
            None => { return None; },
        };
        proof {
            lemma_unique_pos(self.lamaran@, q as int, pos_of(self.lamaran@, lamaran_id));
        }
        if self.lamaran[q].status != LamaranStatus::Diterima || self.lamaran[q].pelamar_id != pelamar_id {
            return None;
        }
        let l0 = self.lamaran[q].duplicate();
        let l = Lamaran { status: LamaranStatus::Proses, updated_at: now, ..l0 };
        let out = l.duplicate();
        let iklan_id = l.iklan_id;
        self.set_lamaran(q, l);
        self.move_job(iklan_id, PekerjaanStatus::Tersedia, PekerjaanStatus::SedangDikerjakan, now);
        Some(out)
    }

    /// The applicant marks running work as finished: the application and
    /// the ad, if in progress, become finished. None, and nothing changes,
    /// when there is no such application.
    pub fn tandai_selesai(&mut self, lamaran_id: u128, pelamar_id: u128, now: i64) -> (r: Option<Lamaran>)
        requires
            old(self).wf(),
        ensures
            final(self).wf(),
            final(self).ads.log() == old(self).ads.log(),
            r is Some == pelamar_may_change(old(self).lamarans(), lamaran_id, pelamar_id, LamaranStatus::Proses),
            match r {
                Some(l) => {
                    let q = pos_of(old(self).lamarans(), lamaran_id);
                    &&& l == Lamaran { status: LamaranStatus::Selesai, updated_at: now, ..old(self).lamarans()[q] }
                    &&& final(self).lamarans() == old(self).lamarans().update(q, l)
                    &&& final(self).ads.ads() == job_moved(
                        old(self).ads.ads(),
                        l.iklan_id,
                        PekerjaanStatus::SedangDikerjakan,
                        PekerjaanStatus::Selesai,
                        now,
                    )
                },
                None => *final(self) == *old(self),
            },
    {
        let q = match find_pos(&self.lamaran, lamaran_id) {
            Some(q) => q,
            None => { return None; },
        };
        proof {
            lemma_unique_pos(self.lamaran@, q as int, pos_of(self.lamaran@, lamaran_id));
        }
        if self.lamaran[q].status != LamaranStatus::Proses || self.lamaran[q].pelamar_id != pelamar_id {
            return None;
        }
        let l0 = self.lamaran[q].duplicate();
        let l = Lamaran { status: LamaranStatus::Selesai, updated_at: now, ..l0 };
        let out = l.duplicate();
        let iklan_id = l.iklan_id;
        self.set_lamaran(q, l);
        self.move_job(iklan_id, PekerjaanStatus::SedangDikerjakan, PekerjaanStatus::Selesai, now);
        Some(out)
    }
}

} // verus!
