use vstd::prelude::*;

use super::entity::{AvailabilityStatus, Bider, BiderStatus, IklanBarangBekas, IklanSuspension, ModerationStatus};
use crate::moderation::{
    cooldown, expire_ads, expire_spec, expirable_pred, in_cooldown, is_suspension_record, live_ids,
    opt_view, suspend_ads, suspend_spec, suspended_status,
};
use crate::store::{
    any_row, copies, find_pos, has_key, insert_newest_first, lemma_unique_pos, lookup, lookup_matches,
    newest_first, page, pos_of, select, select_page, unique_keys, RepoError, Row,
};
use crate::util::coalesce;
use crate::search::{ilike, opt_chars, opt_pattern_of, opt_search_pattern, text_matches};

verus! {

/// Fields of a new giveaway ad (`create`).
pub struct CreateBarangBekasParams {
    pub seller_id: u128,
    pub judul: String,
    pub deskripsi: String,
    pub jenis_barang: String,
    pub jumlah: i32,
    pub lokasi_pengambilan: String,
    pub lokasi: Option<String>,
    pub region_id: Option<String>,
    pub foto_urls: Vec<String>,
}

/// A partial update: unset fields keep their stored value.
pub struct UpdateBarangBekasParams {
    pub judul: Option<String>,
    pub deskripsi: Option<String>,
    pub jenis_barang: Option<String>,
    pub jumlah: Option<i32>,
    pub lokasi_pengambilan: Option<String>,
    pub lokasi: Option<String>,
    pub region_id: Option<String>,
    pub foto_urls: Option<Vec<String>>,
    pub is_active: Option<bool>,
}

/// Admin listing filter: moderation status (default `active`), creation
/// order, page.
pub struct AdminListParams {
    pub q: Option<String>,
    pub moderation_status: Option<String>,
    pub ascending: bool,
    pub limit: i64,
    pub offset: i64,
}

/// The row a new ad is stored as.
pub open spec fn created_row(p: CreateBarangBekasParams, id: u128, now: i64) -> IklanBarangBekas {
    IklanBarangBekas {
        id,
        seller_id: p.seller_id,
        judul: p.judul,
        deskripsi: p.deskripsi,
        jenis_barang: p.jenis_barang,
        jumlah: p.jumlah,
        lokasi_pengambilan: p.lokasi_pengambilan,
        lokasi: p.lokasi,
        region_id: p.region_id,
        foto_urls: p.foto_urls,
        is_active: true,
        availability_status: AvailabilityStatus::Tersedia,
        moderation_status: ModerationStatus::Active,
        deleted_at: None,
        created_at: now,
        updated_at: now,
    }
}

/// The row after a partial update.
pub open spec fn updated_row(r: IklanBarangBekas, p: UpdateBarangBekasParams, now: i64) -> IklanBarangBekas {
    IklanBarangBekas {
        judul: coalesce(p.judul, r.judul),
        deskripsi: coalesce(p.deskripsi, r.deskripsi),
        jenis_barang: coalesce(p.jenis_barang, r.jenis_barang),
        jumlah: coalesce(p.jumlah, r.jumlah),
        lokasi_pengambilan: coalesce(p.lokasi_pengambilan, r.lokasi_pengambilan),
        lokasi: match p.lokasi {
            Some(v) => Some(v),
            None => r.lokasi,
        },
        region_id: match p.region_id {
            Some(v) => Some(v),
            None => r.region_id,
        },
        foto_urls: coalesce(p.foto_urls, r.foto_urls),
        is_active: coalesce(p.is_active, r.is_active),
        updated_at: now,
        ..r
    }
}

/// Shown in the public listing: available, active, not soft-deleted.
pub open spec fn listed(x: IklanBarangBekas) -> bool {
    x.availability_status == AvailabilityStatus::Tersedia && x.moderation_status
        == ModerationStatus::Active && x.deleted_at is None
}

pub open spec fn listed_pred() -> spec_fn(IklanBarangBekas) -> bool {
    |x: IklanBarangBekas| listed(x)
}

/// One seller's ads that are not soft-deleted.
pub open spec fn owned_pred(seller: u128) -> spec_fn(IklanBarangBekas) -> bool {
    |x: IklanBarangBekas| x.seller_id == seller && x.deleted_at is None
}

/// Ads whose identifier is among `ids`.
pub open spec fn among_pred(ids: Seq<u128>) -> spec_fn(IklanBarangBekas) -> bool {
    |x: IklanBarangBekas| ids.contains(x.id)
}

/// Ads in the admin listing: the wanted moderation status, not soft-deleted.
pub open spec fn admin_pred(status: Seq<char>, q: Option<Seq<char>>) -> spec_fn(IklanBarangBekas) -> bool {
    |x: IklanBarangBekas| x.moderation_status.name() == status && x.deleted_at is None && barang_search_hit(x, q)
}

/// The admin search: the title or the seller's identifier text matches
/// `%q%` (trimmed, `ILIKE`); no query admits every ad.
pub open spec fn barang_search_hit(x: IklanBarangBekas, q: Option<Seq<char>>) -> bool {
    match opt_search_pattern(q) {
        Some(pat) => ilike(x.judul@, pat) || ilike(crate::wrap::uuid_text(x.seller_id), pat),
        None => true,
    }
}

fn barang_search_exec(x: &IklanBarangBekas, pat: &Option<Vec<char>>) -> (r: bool)
    ensures
        r == match opt_chars(*pat) {
            Some(p) => ilike(x.judul@, p) || ilike(crate::wrap::uuid_text(x.seller_id), p),
            None => true,
        },
{
    match pat {
        Some(p) => {
            text_matches(x.judul.as_str(), p) || text_matches(crate::wrap::uuid_string(x.seller_id).as_str(), p)
        },
        None => true,
    }
}

/// The moderation status an admin listing asks for (`active` when unset).
pub open spec fn admin_status(s: Option<String>) -> Seq<char> {
    match s {
        Some(v) => v@,
        None => ModerationStatus::Active.name(),
    }
}

/// Biders of one ad.
pub open spec fn bider_of_pred(iklan_id: u128) -> spec_fn(Bider) -> bool {
    |b: Bider| b.iklan_id == iklan_id
}

/// Biders of one interested user.
pub open spec fn bider_by_pred(peminat_id: u128) -> spec_fn(Bider) -> bool {
    |b: Bider| b.peminat_id == peminat_id
}

/// A waiting request of `peminat_id` for `iklan_id`.
pub open spec fn pending_pred(iklan_id: u128, peminat_id: u128) -> spec_fn(Bider) -> bool {
    |b: Bider| b.iklan_id == iklan_id && b.peminat_id == peminat_id && b.status == BiderStatus::Menunggu
}

/// The owner of an ad that is stored and not soft-deleted.
pub open spec fn owns_live(ads: Seq<IklanBarangBekas>, iklan_id: u128, owner: u128) -> bool {
    exists|j: int| 0 <= j < ads.len() && #[trigger] live_owned_pred(iklan_id, owner)(ads[j])
}

/// The owner's live ad with the identifier.
pub open spec fn live_owned_pred(iklan_id: u128, owner: u128) -> spec_fn(IklanBarangBekas) -> bool {
    |x: IklanBarangBekas| x.id == iklan_id && x.seller_id == owner && x.deleted_at is None
}

/// Giveaway ads, their takers and the suspension audit log.
pub struct IklanBarangBekasStore {
    iklan: Vec<IklanBarangBekas>,
    bider: Vec<Bider>,
    suspensions: Vec<IklanSuspension>,
}

impl IklanBarangBekasStore {
    pub closed spec fn ads(&self) -> Seq<IklanBarangBekas> {
        self.iklan@
    }

    pub closed spec fn biders(&self) -> Seq<Bider> {
        self.bider@
    }

    pub closed spec fn log(&self) -> Seq<IklanSuspension> {
        self.suspensions@
    }

    /// Identifiers are unique and rows are kept newest first.
    pub open spec fn wf(&self) -> bool {
        &&& unique_keys(self.ads())
        &&& newest_first(self.ads())
        &&& unique_keys(self.biders())
        &&& newest_first(self.biders())
    }

    pub fn new() -> (r: IklanBarangBekasStore)
        ensures
            r.wf(),
            r.ads() == Seq::<IklanBarangBekas>::empty(),
            r.biders() == Seq::<Bider>::empty(),
            r.log() == Seq::<IklanSuspension>::empty(),
    {
        IklanBarangBekasStore { iklan: Vec::new(), bider: Vec::new(), suspensions: Vec::new() }
    }

    /// The ad with the identifier, soft-deleted or not.
    pub fn find_by_id(&self, id: u128) -> (r: Option<IklanBarangBekas>)
        requires
            self.wf(),
        ensures
            lookup_matches(self.ads(), id, r),
    {
        lookup(&self.iklan, id)
    }

    /// Whether an ad with the identifier is stored.
    pub fn exists_id(&self, id: u128) -> (r: bool)
        ensures
            r == has_key(self.ads(), id),
    {
        find_pos(&self.iklan, id).is_some()
    }

    /// The public listing: available, active, not soft-deleted ads, newest
    /// first, one page.
    pub fn list(&self, limit: i64, offset: i64) -> (r: Result<Vec<IklanBarangBekas>, RepoError>)
        ensures
            match r {
                Ok(items) => limit >= 0 && offset >= 0 && copies(
                    items@,
                    page(self.ads().filter(listed_pred()), limit as int, offset as int),
                ),
                Err(e) => (limit < 0 || offset < 0) && e == RepoError::NegativePaging,
            },
    {
        let f = |x: &IklanBarangBekas| -> (b: bool)
            ensures
                b == listed(*x),
            {
                x.availability_status == AvailabilityStatus::Tersedia && x.moderation_status
                    == ModerationStatus::Active && x.deleted_at.is_none()
            };
        select_page(&self.iklan, f, Ghost(listed_pred()), limit, offset)
    }

    /// Every ad of the public listing, newest first (the caller narrows
    /// them to a radius and pages them).
    pub fn list_all_listed(&self) -> (r: Vec<IklanBarangBekas>)
        ensures
            copies(r@, self.ads().filter(listed_pred())),
    {
        let f = |x: &IklanBarangBekas| -> (b: bool)
            ensures
                b == listed(*x),
            {
                x.availability_status == AvailabilityStatus::Tersedia && x.moderation_status
                    == ModerationStatus::Active && x.deleted_at.is_none()
            };
        select(&self.iklan, f, Ghost(listed_pred()))
    }

    /// One seller's ads ("my ads"), whatever their availability or
    /// moderation, newest first, one page.
    pub fn list_by_seller(&self, seller_id: u128, limit: i64, offset: i64) -> (r: Result<
        Vec<IklanBarangBekas>,
        RepoError,
    >)
        ensures
            match r {
                Ok(items) => limit >= 0 && offset >= 0 && copies(
                    items@,
                    page(self.ads().filter(owned_pred(seller_id)), limit as int, offset as int),
                ),
                Err(e) => (limit < 0 || offset < 0) && e == RepoError::NegativePaging,
            },
    {
        let f = |x: &IklanBarangBekas| -> (b: bool)
            ensures
                b == (x.seller_id == seller_id && x.deleted_at is None),
            { x.seller_id == seller_id && x.deleted_at.is_none() };
        select_page(&self.iklan, f, Ghost(owned_pred(seller_id)), limit, offset)
    }

    /// The ads whose identifiers are listed (batch lookup).
    pub fn find_by_ids(&self, ids: &Vec<u128>) -> (r: Vec<IklanBarangBekas>)
        ensures
            copies(r@, self.ads().filter(among_pred(ids@))),
    {
        let f = |x: &IklanBarangBekas| -> (b: bool)
            ensures
                b == ids@.contains(x.id),
            { crate::util::contains_id(ids, x.id) };
        select(&self.iklan, f, Ghost(among_pred(ids@)))
    }

    /// Stores a new ad: available, active, created and updated at `now`.
    pub fn create(&mut self, p: CreateBarangBekasParams, id: u128, now: i64) -> (r: Result<
        IklanBarangBekas,
        RepoError,
    >)
        requires
            old(self).wf(),
        ensures
            final(self).wf(),
            final(self).biders() == old(self).biders(),
            final(self).log() == old(self).log(),
            match r {
                Ok(x) => {
                    &&& !has_key(old(self).ads(), id)
                    &&& x.same(&created_row(p, id, now))
                    &&& exists|k: int|
                        0 <= k <= old(self).ads().len() && final(self).ads() == old(self).ads().insert(
                            k,
                            created_row(p, id, now),
                        )
                },
                Err(e) => has_key(old(self).ads(), id) && e == RepoError::DuplicateId && *final(self)
                    == *old(self),
            },
    {
        if find_pos(&self.iklan, id).is_some() {
            return Err(RepoError::DuplicateId);
        }
        let ghost row = created_row(p, id, now);
        let x = IklanBarangBekas {
            id,
            seller_id: p.seller_id,
            judul: p.judul,
            deskripsi: p.deskripsi,
            jenis_barang: p.jenis_barang,
            jumlah: p.jumlah,
            lokasi_pengambilan: p.lokasi_pengambilan,
            lokasi: p.lokasi,
            region_id: p.region_id,
            foto_urls: p.foto_urls,
            is_active: true,
            availability_status: AvailabilityStatus::Tersedia,
            moderation_status: ModerationStatus::Active,
            deleted_at: None,
            created_at: now,
            updated_at: now,
        };
        let out = x.duplicate();
        let ghost before = self.iklan@;
        let k = insert_newest_first(&mut self.iklan, x);
        proof {
            crate::store::lemma_insert_fresh_unique(before, k as int, row);
        }
        Ok(out)
    }

    /// Marks the seller's available ad as taken. False, and nothing changes,
    /// when no available ad of that seller has the identifier.
    pub fn mark_taken(&mut self, id: u128, seller_id: u128, now: i64) -> (r: bool)
        requires
            old(self).wf(),
        ensures
            final(self).wf(),
            final(self).biders() == old(self).biders(),
            final(self).log() == old(self).log(),
            r == can_mark_taken(old(self).ads(), id, seller_id),
            r ==> final(self).ads() == old(self).ads().update(
                pos_of(old(self).ads(), id),
                taken_row(old(self).ads()[pos_of(old(self).ads(), id)], now),
            ),
            !r ==> final(self).ads() == old(self).ads(),
    {
        match find_pos(&self.iklan, id) {
            Some(q) => {
                proof {
                    lemma_unique_pos(self.iklan@, q as int, pos_of(self.iklan@, id));
                }
                if self.iklan[q].seller_id == seller_id && self.iklan[q].availability_status
                    == AvailabilityStatus::Tersedia {
                    self.iklan[q].availability_status = AvailabilityStatus::SudahDiambil;
                    self.iklan[q].updated_at = now;
                    proof {
                        assert(self.iklan@ =~= old(self).iklan@.update(q as int, taken_row(old(self).iklan@[q as int], now)));
                    }
                    true
                } else {
                    false
                }
            },
            None => false,
        }
    }

    /// Removes the seller's ad. False when the seller has no ad with the
    /// identifier.
    pub fn delete(&mut self, id: u128, seller_id: u128) -> (r: bool)
        requires
            old(self).wf(),
        ensures
            final(self).wf(),
            final(self).biders() == old(self).biders(),
            final(self).log() == old(self).log(),
            r == (has_key(old(self).ads(), id) && old(self).ads()[pos_of(old(self).ads(), id)].seller_id
                == seller_id),
            r ==> final(self).ads() == old(self).ads().remove(pos_of(old(self).ads(), id)),
            !r ==> final(self).ads() == old(self).ads(),
    {
        match find_pos(&self.iklan, id) {
            Some(q) => {
                proof {
                    lemma_unique_pos(self.iklan@, q as int, pos_of(self.iklan@, id));
                }
                if self.iklan[q].seller_id == seller_id {
                    let _ = self.iklan.remove(q);
                    proof {
                        crate::store::lemma_remove_keeps(old(self).iklan@, q as int);
                    }
                    true
                } else {
                    false
                }
            },
            None => false,
        }
    }

    /// Applies a partial update to the seller's ad that is not soft-deleted;
    /// returns the updated ad, or none when there is no such ad.
    pub fn update(&mut self, id: u128, seller_id: u128, p: UpdateBarangBekasParams, now: i64) -> (r:
        Option<IklanBarangBekas>)
        requires
            old(self).wf(),
        ensures
            final(self).wf(),
            final(self).biders() == old(self).biders(),
            final(self).log() == old(self).log(),
            r is Some == can_update(old(self).ads(), id, seller_id),
            match r {
                Some(x) => {
                    let q = pos_of(old(self).ads(), id);
                    &&& final(self).ads() == old(self).ads().update(
                        q,
                        updated_row(old(self).ads()[q], p, now),
                    )
                    &&& x.same(&updated_row(old(self).ads()[q], p, now))
                },
                None => *final(self) == *old(self),
            },
    {
        match find_pos(&self.iklan, id) {
            Some(q) => {
                proof {
                    lemma_unique_pos(self.iklan@, q as int, pos_of(self.iklan@, id));
                }
                if self.iklan[q].seller_id == seller_id && self.iklan[q].deleted_at.is_none() {
                    let ghost before = self.iklan@;
                    let old_row = self.iklan.remove(q);
                    let new_row = apply_update(old_row, p, now);
                    let out = new_row.duplicate();
                    self.iklan.insert(q, new_row);
                    proof {
                        assert(self.iklan@ =~= before.update(q as int, updated_row(before[q as int], p, now)));
                        assert forall|i: int, j: int| 0 <= i <= j < self.iklan@.len() implies self.iklan@[i].stamp() >= self.iklan@[j].stamp() by {
                            assert(before[i].stamp() >= before[j].stamp());
                        }
                        assert forall|i: int, j: int|
                            0 <= i < self.iklan@.len() && 0 <= j < self.iklan@.len() && i != j implies self.iklan@[i].key() != self.iklan@[j].key() by {
                            assert(before[i].key() != before[j].key());
                        }
                    }
                    Some(out)
                } else {
                    None
                }
            },
            None => None,
        }
    }

    /// Soft-deletes an ad that is not yet soft-deleted.
    pub fn soft_delete(&mut self, id: u128, now: i64) -> (r: bool)
        requires
            old(self).wf(),
        ensures
            final(self).wf(),
            final(self).biders() == old(self).biders(),
            final(self).log() == old(self).log(),
            r == (has_key(old(self).ads(), id) && old(self).ads()[pos_of(old(self).ads(), id)].deleted_at is None),
            r ==> final(self).ads() == old(self).ads().update(
                pos_of(old(self).ads(), id),
                IklanBarangBekas { deleted_at: Some(now), ..old(self).ads()[pos_of(old(self).ads(), id)] },
            ),
            !r ==> final(self).ads() == old(self).ads(),
    {
        match find_pos(&self.iklan, id) {
            Some(q) => {
                proof {
                    lemma_unique_pos(self.iklan@, q as int, pos_of(self.iklan@, id));
                }
                if self.iklan[q].deleted_at.is_none() {
                    self.iklan[q].deleted_at = Some(now);
                    proof {
                        assert(self.iklan@ =~= old(self).iklan@.update(q as int, IklanBarangBekas { deleted_at: Some(now), ..old(self).iklan@[q as int] }));
                    }
                    true
                } else {
                    false
                }
            },
            None => false,
        }
    }

    /// The admin listing: ads in the wanted moderation status (default
    /// `active`) that are not soft-deleted, oldest or newest first, one
    /// page, with the number of matching ads (zero when the page is empty).
    pub fn admin_list(&self, params: &AdminListParams) -> (r: Result<(Vec<IklanBarangBekas>, i64), RepoError>)
        requires
            self.ads().len() <= i64::MAX,
        ensures
            match r {
                Ok((items, total)) => {
                    let all = admin_order(self.ads().filter(admin_pred(admin_status(params.moderation_status), opt_view(params.q))), params.ascending);
                    &&& params.limit >= 0 && params.offset >= 0
                    &&& copies(items@, page(all, params.limit as int, params.offset as int))
                    &&& total == if items@.len() == 0 { 0 } else { all.len() as int }
                },
                Err(e) => (params.limit < 0 || params.offset < 0) && e == RepoError::NegativePaging,
            },
    {
        let status: String = match &params.moderation_status {
            Some(s) => s.clone(),
            None => ModerationStatus::Active.to_string(),
        };
        let ghost want = admin_status(params.moderation_status);
        let ghost qv = opt_view(params.q);
        assert(status@ == want);
        let pat = opt_pattern_of(&params.q);
        let f = |x: &IklanBarangBekas| -> (b: bool)
            ensures
                b == (x.moderation_status.name() == status@ && x.deleted_at is None && barang_search_hit(*x, opt_view(params.q))),
            {
                crate::text::str_eq(x.moderation_status.as_str(), status.as_str()) && x.deleted_at.is_none()
                    && barang_search_exec(x, &pat)
            };
        let all = select(&self.iklan, f, Ghost(admin_pred(want, qv)));
        let ordered = if params.ascending { crate::store::reversed(all) } else { all };
        proof {
            if params.ascending {
                crate::store::lemma_copies_reverse(all@, self.ads().filter(admin_pred(want, qv)));
            }
        }
        let total_all = ordered.len();
        proof {
            self.ads().lemma_filter_len(admin_pred(want, qv));
        }
        let r = crate::store::page_of(&ordered, params.limit, params.offset);
        match r {
            Ok(items) => {
                proof {
                    crate::store::lemma_copies_page(ordered@, admin_order(self.ads().filter(admin_pred(want, qv)), params.ascending), params.limit as int, params.offset as int);
                    crate::store::lemma_copies_trans(items@, page(ordered@, params.limit as int, params.offset as int), page(admin_order(self.ads().filter(admin_pred(want, qv)), params.ascending), params.limit as int, params.offset as int));
                }
                let total: i64 = if items.len() == 0 { 0 } else { total_all as i64 };
                Ok((items, total))
            },
            Err(e) => Err(e),
        }
    }

    /// The CSV export: like the admin listing, newest first, at most
    /// `limit` ads from the start.
    pub fn admin_list_all(&self, q: &Option<String>, moderation_status: &Option<String>, limit: i64) -> (r: Result<Vec<IklanBarangBekas>, RepoError>)
        ensures
            match r {
                Ok(items) => limit >= 0 && copies(items@, page(self.ads().filter(admin_pred(admin_status(*moderation_status), opt_view(*q))), limit as int, 0)),
                Err(e) => limit < 0 && e == RepoError::NegativePaging,
            },
    {
        let status: String = match moderation_status {
            Some(s) => s.clone(),
            None => ModerationStatus::Active.to_string(),
        };
        let ghost want = admin_status(*moderation_status);
        let ghost qv = opt_view(*q);
        let pat = opt_pattern_of(q);
        let f = |x: &IklanBarangBekas| -> (b: bool)
            ensures
                b == (x.moderation_status.name() == status@ && x.deleted_at is None && barang_search_hit(*x, opt_view(*q))),
            {
                crate::text::str_eq(x.moderation_status.as_str(), status.as_str()) && x.deleted_at.is_none()
                    && barang_search_exec(x, &pat)
            };
        select_page(&self.iklan, f, Ghost(admin_pred(want, qv)), limit, 0)
    }

    /// Suspends the listed ads (see `suspend_ads`).
    pub fn suspend(
        &mut self,
        iklan_ids: &Vec<u128>,
        is_permanent: bool,
        reason: &str,
        evidence_object_key: &Option<String>,
        expires_at: Option<i64>,
        created_by: u128,
        now: i64,
    ) -> (made: Vec<IklanSuspension>)
        requires
            old(self).wf(),
        ensures
            final(self).wf(),
            final(self).biders() == old(self).biders(),
            final(self).ads() == suspend_spec(old(self).ads(), iklan_ids@, suspended_status(is_permanent), now),
            made@.len() == live_ids(old(self).ads(), iklan_ids@).len(),
            forall|k: int|
                0 <= k < made@.len() ==> is_suspension_record(
                    #[trigger] made@[k],
                    live_ids(old(self).ads(), iklan_ids@)[k],
                    is_permanent,
                    reason@,
                    opt_view(*evidence_object_key),
                    expires_at,
                    created_by,
                    now,
                ),
            final(self).log() == old(self).log() + made@,
    {
        let made = suspend_ads(&mut self.iklan, &mut self.suspensions, iklan_ids, is_permanent, reason, evidence_object_key, expires_at, created_by, now);
        proof {
            crate::moderation::lemma_moderate_keeps_order(old(self).iklan@, self.iklan@);
        }
        made
    }

    /// Lifts lapsed temporary suspensions; returns how many ads changed.
    pub fn expire_temporary_suspensions(&mut self, now: i64) -> (n: u64)
        requires
            old(self).wf(),
        ensures
            final(self).wf(),
            final(self).biders() == old(self).biders(),
            final(self).log() == old(self).log(),
            final(self).ads() == expire_spec(old(self).ads(), old(self).log(), now),
            n == old(self).ads().filter(expirable_pred::<IklanBarangBekas>(old(self).log(), now)).len(),
    {
        let n = expire_ads(&mut self.iklan, &self.suspensions, now);
        proof {
            crate::moderation::lemma_moderate_keeps_order(old(self).iklan@, self.iklan@);
        }
        n
    }

    /// Whether the seller is in the three-day cooldown after a permanent
    /// suspension.
    pub fn is_poster_in_cooldown(&self, poster_id: u128, now: i64) -> (r: bool)
        ensures
            r == in_cooldown(self.ads(), self.log(), poster_id, now),
    {
        cooldown(&self.iklan, &self.suspensions, poster_id, now)
    }

    /// The bider with the identifier.
    pub fn find_bider_by_id(&self, id: u128) -> (r: Option<Bider>)
        requires
            self.wf(),
        ensures
            lookup_matches(self.biders(), id, r),
    {
        lookup(&self.bider, id)
    }

    /// Records a new waiting request of `peminat_id` for `iklan_id`.
    pub fn create_bider(&mut self, iklan_id: u128, peminat_id: u128, id: u128, now: i64) -> (r: Result<Bider, RepoError>)
        requires
            old(self).wf(),
        ensures
            final(self).wf(),
            final(self).ads() == old(self).ads(),
            final(self).log() == old(self).log(),
            match r {
                Ok(b) => {
                    &&& !has_key(old(self).biders(), id)
                    &&& b == new_bider(iklan_id, peminat_id, id, now)
                    &&& exists|k: int|
                        0 <= k <= old(self).biders().len() && final(self).biders() == old(self).biders().insert(k, b)
                },
                Err(e) => has_key(old(self).biders(), id) && e == RepoError::DuplicateId && *final(self) == *old(self),
            },
    {
        if find_pos(&self.bider, id).is_some() {
            return Err(RepoError::DuplicateId);
        }
        let b = Bider {
            id,
            iklan_id,
            peminat_id,
            status: BiderStatus::Menunggu,
            sudah_menghubungi: false,
            created_at: now,
            updated_at: now,
        };
        let ghost before = self.bider@;
        let k = insert_newest_first(&mut self.bider, b);
        proof {
            crate::store::lemma_insert_fresh_unique(before, k as int, b);
        }
        Ok(b)
    }

    /// The biders of one ad, newest first.
    pub fn list_bider_for_iklan(&self, iklan_id: u128) -> (r: Vec<Bider>)
        ensures
            r@ == self.biders().filter(bider_of_pred(iklan_id)),
    {
        let f = |b: &Bider| -> (r: bool)
            ensures
                r == (b.iklan_id == iklan_id),
            { b.iklan_id == iklan_id };
        let r = select(&self.bider, f, Ghost(bider_of_pred(iklan_id)));
        proof {
            assert forall|k: int| 0 <= k < r@.len() implies r@[k] == self.biders().filter(bider_of_pred(iklan_id))[k] by {
                assert(r@[k].same(&self.biders().filter(bider_of_pred(iklan_id))[k]));
            }
            assert(r@ =~= self.biders().filter(bider_of_pred(iklan_id)));
        }
        r
    }

    /// The biders of one interested user, newest first.
    pub fn list_bider_for_peminat(&self, peminat_id: u128) -> (r: Vec<Bider>)
        ensures
            r@ == self.biders().filter(bider_by_pred(peminat_id)),
    {
        let f = |b: &Bider| -> (r: bool)
            ensures
                r == (b.peminat_id == peminat_id),
            { b.peminat_id == peminat_id };
        let r = select(&self.bider, f, Ghost(bider_by_pred(peminat_id)));
        proof {
            assert forall|k: int| 0 <= k < r@.len() implies r@[k] == self.biders().filter(bider_by_pred(peminat_id))[k] by {
                assert(r@[k].same(&self.biders().filter(bider_by_pred(peminat_id))[k]));
            }
            assert(r@ =~= self.biders().filter(bider_by_pred(peminat_id)));
        }
        r
    }

    /// Whether `peminat_id` already has a waiting request for `iklan_id`.
    pub fn has_pending_bider(&self, iklan_id: u128, peminat_id: u128) -> (r: bool)
        ensures
            r == exists|j: int| 0 <= j < self.biders().len() && #[trigger] pending_pred(iklan_id, peminat_id)(self.biders()[j]),
    {
        let f = |b: &Bider| -> (r: bool)
            ensures
                r == (b.iklan_id == iklan_id && b.peminat_id == peminat_id && b.status == BiderStatus::Menunggu),
            { b.iklan_id == iklan_id && b.peminat_id == peminat_id && b.status == BiderStatus::Menunggu };
        any_row(&self.bider, f, Ghost(pending_pred(iklan_id, peminat_id)))
    }

    /// Approves a waiting bider of one of the owner's live ads, in one
    /// transaction: the bider becomes approved (recording whether the owner
    /// already contacted them), the ad, if still available, becomes taken,
    /// and every other waiting bider of that ad is withdrawn. None, and
    /// nothing changes, when there is no such bider.
    pub fn setujui_bider(&mut self, bider_id: u128, iklan_owner_id: u128, sudah_menghubungi: bool, now: i64) -> (r: Option<Bider>)
        requires
            old(self).wf(),
        ensures
            final(self).wf(),
            final(self).log() == old(self).log(),
            r is Some == approvable(old(self).ads(), old(self).biders(), bider_id, iklan_owner_id),
            match r {
                Some(b) => {
                    let old_b = old(self).biders()[pos_of(old(self).biders(), bider_id)];
                    &&& b == Bider { status: BiderStatus::Disetujui, sudah_menghubungi, updated_at: now, ..old_b }
                    &&& final(self).biders() == after_approval(old(self).biders(), bider_id, old_b.iklan_id, sudah_menghubungi, now)
                    &&& final(self).ads() == ads_taken(old(self).ads(), old_b.iklan_id, now)
                },
                None => *final(self) == *old(self),
            },
    {
        let q = match find_pos(&self.bider, bider_id) {
            Some(q) => q,
            None => { return None; },
        };
        proof {
            lemma_unique_pos(self.bider@, q as int, pos_of(self.bider@, bider_id));
        }
        let b0 = self.bider[q];
        if b0.status != BiderStatus::Menunggu {
            return None;
        }
        if !self.owns_live_ad(b0.iklan_id, iklan_owner_id) {
            return None;
        }
        let ghost bs0 = self.bider@;
        let ghost as0 = self.iklan@;
        // The chosen bider, then every other waiting bider of the same ad.
        let mut j: usize = 0;
        while j < self.bider.len()
            invariant
                self.iklan@ == as0,
                self.suspensions@ == old(self).suspensions@,
                bs0 == old(self).bider@,
                self.bider@.len() == bs0.len(),
                j <= bs0.len(),
                q < bs0.len(),
                bs0[q as int] == b0,
                unique_keys(bs0),
                b0.id == bider_id,
                forall|x: int| 0 <= x < bs0.len() ==> #[trigger] self.bider@[x] == if x < j {
                    approval_step(bs0[x], bider_id, b0.iklan_id, sudah_menghubungi, now)
                } else {
                    bs0[x]
                },
            decreases bs0.len() - j,
        {
            if self.bider[j].id == bider_id {
                self.bider[j].status = BiderStatus::Disetujui;
                self.bider[j].sudah_menghubungi = sudah_menghubungi;
                self.bider[j].updated_at = now;
            } else if self.bider[j].iklan_id == b0.iklan_id && self.bider[j].status == BiderStatus::Menunggu {
                self.bider[j].status = BiderStatus::Withdrawn;
                self.bider[j].updated_at = now;
            }
            j = j + 1;
        }
        proof {
            assert(self.bider@ =~= after_approval(bs0, bider_id, b0.iklan_id, sudah_menghubungi, now));
            crate::store::lemma_same_keys_keeps(bs0, self.bider@);
        }
        self.mark_taken_by_id(b0.iklan_id, now);
        Some(Bider { status: BiderStatus::Disetujui, sudah_menghubungi, updated_at: now, ..b0 })
    }

    /// Withdraws a waiting or approved bider of one of the owner's live ads.
    /// When the bider had been approved, the ad becomes available again.
    /// None, and nothing changes, when there is no such bider.
    pub fn withdraw_bider(&mut self, bider_id: u128, iklan_owner_id: u128, now: i64) -> (r: Option<Bider>)
        requires
            old(self).wf(),
        ensures
            final(self).wf(),
            final(self).log() == old(self).log(),
            r is Some == withdrawable(old(self).ads(), old(self).biders(), bider_id, iklan_owner_id),
            match r {
                Some(b) => {
                    let q = pos_of(old(self).biders(), bider_id);
                    let old_b = old(self).biders()[q];
                    &&& b == Bider { status: BiderStatus::Withdrawn, updated_at: now, ..old_b }
                    &&& final(self).biders() == old(self).biders().update(q, b)
                    &&& final(self).ads() == if old_b.status == BiderStatus::Disetujui {
                        ads_relisted(old(self).ads(), old_b.iklan_id, now)
                    } else {
                        old(self).ads()
                    }
                },
                None => *final(self) == *old(self),
            },
    {
        let q = match find_pos(&self.bider, bider_id) {
            Some(q) => q,
            None => { return None; },
        };
        proof {
            lemma_unique_pos(self.bider@, q as int, pos_of(self.bider@, bider_id));
        }
        let b0 = self.bider[q];
        if b0.status != BiderStatus::Menunggu && b0.status != BiderStatus::Disetujui {
            return None;
        }
        if !self.owns_live_ad(b0.iklan_id, iklan_owner_id) {
            return None;
        }
        let ghost bs0 = self.bider@;
        self.bider[q].status = BiderStatus::Withdrawn;
        self.bider[q].updated_at = now;
        proof {
            assert(self.bider@ =~= bs0.update(q as int, Bider { status: BiderStatus::Withdrawn, updated_at: now, ..b0 }));
            crate::store::lemma_same_keys_keeps(bs0, self.bider@);
        }
        if b0.status == BiderStatus::Disetujui {
            self.relist_by_id(b0.iklan_id, now);
        }
        Some(Bider { status: BiderStatus::Withdrawn, updated_at: now, ..b0 })
    }

    /// Whether the owner has a live ad with the identifier.
    fn owns_live_ad(&self, iklan_id: u128, owner: u128) -> (r: bool)
        ensures
            r == owns_live(self.ads(), iklan_id, owner),
    {
        let f = |x: &IklanBarangBekas| -> (b: bool)
            ensures
                b == (x.id == iklan_id && x.seller_id == owner && x.deleted_at is None),
            { x.id == iklan_id && x.seller_id == owner && x.deleted_at.is_none() };
        any_row(&self.iklan, f, Ghost(live_owned_pred(iklan_id, owner)))
    }

    /// Marks every available ad with the identifier as taken.
    fn mark_taken_by_id(&mut self, iklan_id: u128, now: i64)
        requires
            old(self).wf(),
        ensures
            final(self).wf(),
            final(self).biders() == old(self).biders(),
            final(self).log() == old(self).log(),
            final(self).ads() == ads_taken(old(self).ads(), iklan_id, now),
    {
        let ghost a0 = self.iklan@;
        let mut j: usize = 0;
        while j < self.iklan.len()
            invariant
                a0 == old(self).iklan@,
                self.bider@ == old(self).bider@,
                self.suspensions@ == old(self).suspensions@,
                self.iklan@.len() == a0.len(),
                j <= a0.len(),
                forall|x: int| 0 <= x < a0.len() ==> #[trigger] self.iklan@[x] == if x < j && a0[x].id == iklan_id && a0[x].availability_status == AvailabilityStatus::Tersedia {
                    taken_row(a0[x], now)
                } else {
                    a0[x]
                },
            decreases a0.len() - j,
        {
            if self.iklan[j].id == iklan_id && self.iklan[j].availability_status == AvailabilityStatus::Tersedia {
                self.iklan[j].availability_status = AvailabilityStatus::SudahDiambil;
                self.iklan[j].updated_at = now;
            }
            j = j + 1;
        }
        proof {
            assert(self.iklan@ =~= ads_taken(a0, iklan_id, now));
            crate::store::lemma_same_keys_keeps(a0, self.iklan@);
        }
    }

    /// Makes every ad with the identifier available again.
    fn relist_by_id(&mut self, iklan_id: u128, now: i64)
        requires
            old(self).wf(),
        ensures
            final(self).wf(),
            final(self).biders() == old(self).biders(),
            final(self).log() == old(self).log(),
            final(self).ads() == ads_relisted(old(self).ads(), iklan_id, now),
    {
        let ghost a0 = self.iklan@;
        let mut j: usize = 0;
        while j < self.iklan.len()
            invariant
                a0 == old(self).iklan@,
                self.bider@ == old(self).bider@,
                self.suspensions@ == old(self).suspensions@,
                self.iklan@.len() == a0.len(),
                j <= a0.len(),
                forall|x: int| 0 <= x < a0.len() ==> #[trigger] self.iklan@[x] == if x < j && a0[x].id == iklan_id {
                    relisted_row(a0[x], now)
                } else {
                    a0[x]
                },
            decreases a0.len() - j,
        {
            if self.iklan[j].id == iklan_id {
                self.iklan[j].availability_status = AvailabilityStatus::Tersedia;
                self.iklan[j].updated_at = now;
            }
            j = j + 1;
        }
        proof {
            assert(self.iklan@ =~= ads_relisted(a0, iklan_id, now));
            crate::store::lemma_same_keys_keeps(a0, self.iklan@);
        }
    }
}

/// A new waiting request.
pub open spec fn new_bider(iklan_id: u128, peminat_id: u128, id: u128, now: i64) -> Bider {
    Bider {
        id,
        iklan_id,
        peminat_id,
        status: BiderStatus::Menunggu,
        sudah_menghubungi: false,
        created_at: now,
        updated_at: now,
    }
}

/// A waiting bider whose ad is a live ad of the owner.
pub open spec fn approvable(ads: Seq<IklanBarangBekas>, biders: Seq<Bider>, bider_id: u128, owner: u128) -> bool {
    has_key(biders, bider_id) && biders[pos_of(biders, bider_id)].status == BiderStatus::Menunggu
        && owns_live(ads, biders[pos_of(biders, bider_id)].iklan_id, owner)
}

/// A waiting or approved bider whose ad is a live ad of the owner.
pub open spec fn withdrawable(ads: Seq<IklanBarangBekas>, biders: Seq<Bider>, bider_id: u128, owner: u128) -> bool {
    has_key(biders, bider_id) && (biders[pos_of(biders, bider_id)].status == BiderStatus::Menunggu
        || biders[pos_of(biders, bider_id)].status == BiderStatus::Disetujui)
        && owns_live(ads, biders[pos_of(biders, bider_id)].iklan_id, owner)
}

/// One bider after approving `bider_id` of ad `iklan_id`.
pub open spec fn approval_step(b: Bider, bider_id: u128, iklan_id: u128, sudah_menghubungi: bool, now: i64) -> Bider {
    if b.id == bider_id {
        Bider { status: BiderStatus::Disetujui, sudah_menghubungi, updated_at: now, ..b }
    } else if b.iklan_id == iklan_id && b.status == BiderStatus::Menunggu {
        Bider { status: BiderStatus::Withdrawn, updated_at: now, ..b }
    } else {
        b
    }
}

/// The biders after approving `bider_id` of ad `iklan_id`.
pub open spec fn after_approval(biders: Seq<Bider>, bider_id: u128, iklan_id: u128, sudah_menghubungi: bool, now: i64) -> Seq<Bider> {
    Seq::new(biders.len(), |j: int| approval_step(biders[j], bider_id, iklan_id, sudah_menghubungi, now))
}

/// The ads after the available ad `iklan_id` is taken.
pub open spec fn ads_taken(ads: Seq<IklanBarangBekas>, iklan_id: u128, now: i64) -> Seq<IklanBarangBekas> {
    Seq::new(ads.len(), |j: int| if ads[j].id == iklan_id && ads[j].availability_status == AvailabilityStatus::Tersedia {
        taken_row(ads[j], now)
    } else {
        ads[j]
    })
}

/// The ad made available again at `now`.
pub open spec fn relisted_row(x: IklanBarangBekas, now: i64) -> IklanBarangBekas {
    IklanBarangBekas { availability_status: AvailabilityStatus::Tersedia, updated_at: now, ..x }
}

/// The ads after `iklan_id` is made available again.
pub open spec fn ads_relisted(ads: Seq<IklanBarangBekas>, iklan_id: u128, now: i64) -> Seq<IklanBarangBekas> {
    Seq::new(ads.len(), |j: int| if ads[j].id == iklan_id { relisted_row(ads[j], now) } else { ads[j] })
}

/// Newest first, or reversed to oldest first.
pub open spec fn admin_order(s: Seq<IklanBarangBekas>, ascending: bool) -> Seq<IklanBarangBekas> {
    if ascending {
        s.reverse()
    } else {
        s
    }
}

/// The ad with the partial update applied.
fn apply_update(x: IklanBarangBekas, p: UpdateBarangBekasParams, now: i64) -> (r: IklanBarangBekas)
    ensures
        r == updated_row(x, p, now),
{
    IklanBarangBekas {
        judul: match p.judul {
            Some(v) => v,
            None => x.judul,
        },
        deskripsi: match p.deskripsi {
            Some(v) => v,
            None => x.deskripsi,
        },
        jenis_barang: match p.jenis_barang {
            Some(v) => v,
            None => x.jenis_barang,
        },
        jumlah: match p.jumlah {
            Some(v) => v,
            None => x.jumlah,
        },
        lokasi_pengambilan: match p.lokasi_pengambilan {
            Some(v) => v,
            None => x.lokasi_pengambilan,
        },
        lokasi: match p.lokasi {
            Some(v) => Some(v),
            None => x.lokasi,
        },
        region_id: match p.region_id {
            Some(v) => Some(v),
            None => x.region_id,
        },
        foto_urls: match p.foto_urls {
            Some(v) => v,
            None => x.foto_urls,
        },
        is_active: match p.is_active {
            Some(v) => v,
            None => x.is_active,
        },
        updated_at: now,
        ..x
    }
}

/// The seller has an available ad with the identifier.
pub open spec fn can_mark_taken(ads: Seq<IklanBarangBekas>, id: u128, seller_id: u128) -> bool {
    has_key(ads, id) && ads[pos_of(ads, id)].seller_id == seller_id && ads[pos_of(ads, id)].availability_status
        == AvailabilityStatus::Tersedia
}

/// The seller has an ad with the identifier that is not soft-deleted.
pub open spec fn can_update(ads: Seq<IklanBarangBekas>, id: u128, seller_id: u128) -> bool {
    has_key(ads, id) && ads[pos_of(ads, id)].seller_id == seller_id && ads[pos_of(ads, id)].deleted_at is None
}

/// The ad marked as taken at `now`.
pub open spec fn taken_row(x: IklanBarangBekas, now: i64) -> IklanBarangBekas {
    IklanBarangBekas { availability_status: AvailabilityStatus::SudahDiambil, updated_at: now, ..x }
}

} // verus!
