use vstd::prelude::*;

use super::dto::{
    is_admin_pekerja_resp_of, is_pekerja_resp_of, to_admin_response, to_admin_responses, to_response, to_responses,
    AdminIklanPekerjaDetailResponse, AdminIklanPekerjaResponse, AdminListQuery, CreateIklanPekerjaInput,
    IklanPekerjaResponse, ListQuery, SuspendInput, SuspendResponse, UpdatePekerjaInput,
};
use super::entity::{IklanPekerja, ModerationStatus};
use crate::ad_store::{admin_filter, ordered, wanted_status, AdStore};
use crate::moderation::{
    expirable_pred, expire_spec, in_cooldown, is_live, is_suspension_record, live_ids, not_suspended_message, notice_body,
    notice_title, opt_view, suspend_spec, suspended_status, SuspensionNotice, CSV_MAX, DEFAULT_LIMIT,
};
use crate::remote::{needs_region_check, wants_region_check, RegionCheck};
use crate::search::{ilike, opt_chars, opt_pattern_of, opt_search_pattern, text_matches};
use crate::store::{copies, has_key, page, pos_of, RepoError, Row};
use crate::text::{clean_text_spec, sanitize, str_eq};

verus! {

/// Why a worker-ad request was refused.
#[derive(Debug)]
pub enum PekerjaError {
    /// The rate limiter refused the request.
    TooManyRequests,
    /// The poster had an ad permanently suspended within three days.
    Cooldown,
    /// The region directory does not know the region.
    RegionNotFound,
    /// No such ad, or not the caller's.
    NotFound,
    /// The ad cannot be edited in its moderation status.
    NotEditable,
    /// An unknown kind of sensitive document was asked for (carried).
    UnknownSensitiveKind(String),
    /// No user directory is configured.
    UserServiceMissing,
    /// The user directory failed; carries its message.
    SensitiveLookupFailed(String),
    /// The store refused the operation.
    Repo(RepoError),
}

impl PekerjaError {
    pub open spec fn message(self) -> Seq<char> {
        match self {
            PekerjaError::TooManyRequests => "terlalu banyak permintaan, coba lagi nanti"@,
            PekerjaError::Cooldown => "Anda tidak dapat membuat iklan baru selama 3 hari setelah iklan ditangguhkan secara permanen"@,
            PekerjaError::RegionNotFound => "region_id tidak ditemukan"@,
            PekerjaError::NotFound => "tidak ditemukan"@,
            PekerjaError::NotEditable => "iklan tidak dapat diubah dalam status moderasi saat ini"@,
            PekerjaError::UnknownSensitiveKind(k) => "jenis data tidak dikenal: "@ + k@ + " (gunakan nik, ktp, atau selfie)"@,
            PekerjaError::UserServiceMissing => "user-service client tidak tersedia"@,
            PekerjaError::SensitiveLookupFailed(e) => "gagal mengambil data sensitif: "@ + e@,
            PekerjaError::Repo(e) => e.message(),
        }
    }

    pub fn to_string(&self) -> (r: String)
        ensures
            r@ == self.message(),
    {
        match self {
            PekerjaError::TooManyRequests => "terlalu banyak permintaan, coba lagi nanti".to_owned(),
            PekerjaError::Cooldown => "Anda tidak dapat membuat iklan baru selama 3 hari setelah iklan ditangguhkan secara permanen".to_owned(),
            PekerjaError::RegionNotFound => "region_id tidak ditemukan".to_owned(),
            PekerjaError::NotFound => "tidak ditemukan".to_owned(),
            PekerjaError::NotEditable => "iklan tidak dapat diubah dalam status moderasi saat ini".to_owned(),
            PekerjaError::UnknownSensitiveKind(k) => {
                let mut s = "jenis data tidak dikenal: ".to_owned();
                s.append(k.as_str());
                s.append(" (gunakan nik, ktp, atau selfie)");
                s
            },
            PekerjaError::UserServiceMissing => "user-service client tidak tersedia".to_owned(),
            PekerjaError::SensitiveLookupFailed(e) => {
                let mut s = "gagal mengambil data sensitif: ".to_owned();
                s.append(e.as_str());
                s
            },
            PekerjaError::Repo(e) => e.to_string(),
        }
    }
}

/// Which sensitive documents a poster has on file (all false when the user
/// directory could not tell).
#[derive(Debug, Clone, Copy, PartialEq, Eq, Structural)]
pub struct SensitiveDocFlags {
    pub has_nik: bool,
    pub has_ktp: bool,
    pub has_selfie: bool,
}

/// What to fetch from the user directory for an admin's request to reveal
/// sensitive data of an ad's poster.
pub enum RevealRequest {
    /// The poster's identity number.
    Nik { poster_id: u128 },
    /// A document URL ("ktp" or "selfie").
    Document { poster_id: u128, kind: String },
}

/// The kinds of sensitive data an admin may reveal.
pub open spec fn sensitive_kind(k: Seq<char>) -> bool {
    k == "nik"@ || k == "ktp"@ || k == "selfie"@
}

/// A public worker ad: active, in moderation `active`, not soft-deleted.
pub open spec fn pekerja_listed(x: IklanPekerja) -> bool {
    x.is_active && x.moderation_status == ModerationStatus::Active && x.deleted_at is None
}

pub open spec fn pekerja_listed_pred() -> spec_fn(IklanPekerja) -> bool {
    |x: IklanPekerja| pekerja_listed(x)
}

/// An active worker ad of one of the posters.
pub open spec fn active_of_pred(posters: Seq<u128>) -> spec_fn(IklanPekerja) -> bool {
    |x: IklanPekerja| posters.contains(x.poster_id) && pekerja_listed(x)
}

pub open spec fn limit_of(q: ListQuery) -> int {
    match q.limit {
        Some(l) => l as int,
        None => DEFAULT_LIMIT as int,
    }
}

pub open spec fn offset_of(q: ListQuery) -> int {
    match q.offset {
        Some(o) => o as int,
        None => 0,
    }
}

pub open spec fn pekerja_resps_of(r: Seq<IklanPekerjaResponse>, items: Seq<IklanPekerja>) -> bool {
    r.len() == items.len() && forall|k: int| 0 <= k < r.len() ==> is_pekerja_resp_of(#[trigger] r[k], items[k])
}

pub proof fn lemma_pekerja_resps_copies(r: Seq<IklanPekerjaResponse>, a: Seq<IklanPekerja>, b: Seq<IklanPekerja>)
    requires
        r.len() == a.len(),
        forall|k: int| 0 <= k < r.len() ==> is_pekerja_resp_of(#[trigger] r[k], a[k]),
        copies(a, b),
    ensures
        pekerja_resps_of(r, b),
{
    assert forall|k: int| 0 <= k < r.len() implies is_pekerja_resp_of(#[trigger] r[k], b[k]) by {
        assert(a[k].same(&b[k]));
    }
}

pub open spec fn admin_pekerja_resps_of(r: Seq<AdminIklanPekerjaResponse>, items: Seq<IklanPekerja>) -> bool {
    r.len() == items.len() && forall|k: int| 0 <= k < r.len() ==> is_admin_pekerja_resp_of(#[trigger] r[k], items[k])
}

pub proof fn lemma_admin_pekerja_resps_copies(r: Seq<AdminIklanPekerjaResponse>, a: Seq<IklanPekerja>, b: Seq<IklanPekerja>)
    requires
        r.len() == a.len(),
        forall|k: int| 0 <= k < r.len() ==> is_admin_pekerja_resp_of(#[trigger] r[k], a[k]),
        copies(a, b),
    ensures
        admin_pekerja_resps_of(r, b),
{
    assert forall|k: int| 0 <= k < r.len() implies is_admin_pekerja_resp_of(#[trigger] r[k], b[k]) by {
        assert(a[k].same(&b[k]));
    }
}

/// The optional text with `clean_text` applied when present.
pub open spec fn opt_clean(s: Option<String>) -> Option<Seq<char>> {
    match s {
        Some(x) => Some(clean_text_spec(x@)),
        None => None,
    }
}

fn sanitize_opt(s: &Option<String>) -> (r: Option<String>)
    ensures
        opt_view(r) == opt_clean(*s),
{
    match s {
        Some(x) => Some(sanitize(x.as_str())),
        None => None,
    }
}

/// The skills joined by commas (`array_to_string(keahlian, ',')`).
pub open spec fn joined(s: Seq<String>) -> Seq<char>
    decreases s.len(),
{
    if s.len() == 0 {
        Seq::empty()
    } else if s.len() == 1 {
        s[0]@
    } else {
        joined(s.drop_last()) + ","@ + s.last()@
    }
}

/// The skills joined by commas.
pub fn join_keahlian(s: &Vec<String>) -> (r: String)
    ensures
        r@ == joined(s@),
{
    let mut r = String::new();
    let mut i: usize = 0;
    while i < s.len()
        invariant
            i <= s@.len(),
            r@ == joined(s@.take(i as int)),
        decreases s@.len() - i,
    {
        proof {
            assert(s@.take(i + 1).drop_last() =~= s@.take(i as int));
        }
        if i > 0 {
            r.append(",");
        }
        r.append(s[i].as_str());
        proof {
            if i == 0 {
                assert(r@ =~= joined(s@.take(1)));
            } else {
                assert(r@ =~= joined(s@.take(i + 1)));
            }
        }
        i = i + 1;
    }
    proof {
        assert(s@.take(s@.len() as int) =~= s@);
    }
    r
}

/// The admin search: the name, the poster's identifier text or the
/// comma-joined skills match `%q%` (trimmed, `ILIKE`); no query admits
/// every ad.
pub open spec fn pekerja_search_hit(x: IklanPekerja, q: Option<Seq<char>>) -> bool {
    match opt_search_pattern(q) {
        Some(pat) => ilike(x.nama@, pat) || ilike(crate::wrap::uuid_text(x.poster_id), pat) || ilike(
            joined(x.keahlian@),
            pat,
        ),
        None => true,
    }
}

pub open spec fn pekerja_search_pred(q: Option<Seq<char>>) -> spec_fn(IklanPekerja) -> bool {
    |x: IklanPekerja| pekerja_search_hit(x, q)
}

fn pekerja_search_exec(x: &IklanPekerja, pat: &Option<Vec<char>>) -> (r: bool)
    ensures
        r == match opt_chars(*pat) {
            Some(p) => ilike(x.nama@, p) || ilike(crate::wrap::uuid_text(x.poster_id), p) || ilike(joined(x.keahlian@), p),
            None => true,
        },
{
    match pat {
        Some(p) => text_matches(x.nama.as_str(), p) || text_matches(crate::wrap::uuid_string(x.poster_id).as_str(), p)
            || text_matches(join_keahlian(&x.keahlian).as_str(), p),
        None => true,
    }
}

pub open spec fn sort_ascending(sort_dir: Option<String>) -> bool {
    match sort_dir {
        Some(d) => d@ == "asc"@,
        None => false,
    }
}

pub open spec fn admin_limit(q: AdminListQuery) -> int {
    match q.limit {
        Some(l) => l as int,
        None => DEFAULT_LIMIT as int,
    }
}

pub open spec fn admin_offset(q: AdminListQuery) -> int {
    match q.offset {
        Some(o) => o as int,
        None => 0,
    }
}

/// The row stored for a new worker ad: description, hours and phone
/// sanitized, the rest as given, no photos, active.
pub open spec fn is_pekerja_created_from(x: IklanPekerja, poster_id: u128, input: CreateIklanPekerjaInput, id: u128, now: i64) -> bool {
    &&& x.id == id
    &&& x.poster_id == poster_id
    &&& x.nama@ == input.nama@
    &&& x.keahlian@ == input.keahlian@
    &&& x.deskripsi@ == clean_text_spec(input.deskripsi@)
    &&& opt_view(x.lokasi) == opt_view(input.lokasi)
    &&& opt_view(x.region_id) == opt_view(input.region_id)
    &&& x.tarif_min == input.tarif_min
    &&& x.tarif_max == input.tarif_max
    &&& opt_view(x.jam_kerja) == opt_clean(input.jam_kerja)
    &&& opt_view(x.phone_number) == opt_clean(input.phone_number)
    &&& x.foto_urls@.len() == 0
    &&& x.is_active
    &&& x.moderation_status == ModerationStatus::Active
    &&& x.deleted_at is None
    &&& x.created_at == now
    &&& x.updated_at == now
}

pub open spec fn one_inserted<T>(before: Seq<T>, after: Seq<T>, x: T) -> bool {
    exists|k: int| 0 <= k <= before.len() && after == before.insert(k, x)
}

/// The error a refused new worker ad gets: the first check that fails.
pub open spec fn pekerja_create_refusal(
    ads: Seq<IklanPekerja>,
    log: Seq<crate::moderation::IklanSuspension>,
    poster_id: u128,
    input: CreateIklanPekerjaInput,
    id: u128,
    now: i64,
    rate_allowed: bool,
    region: RegionCheck,
) -> Option<PekerjaError> {
    if !rate_allowed {
        Some(PekerjaError::TooManyRequests)
    } else if in_cooldown(ads, log, poster_id, now) {
        Some(PekerjaError::Cooldown)
    } else if region == RegionCheck::NotFound && wants_region_check(opt_view(input.region_id)) {
        Some(PekerjaError::RegionNotFound)
    } else if has_key(ads, id) {
        Some(PekerjaError::Repo(RepoError::DuplicateId))
    } else {
        None
    }
}

pub open spec fn edited_text(input: Option<String>, old: Seq<char>) -> Seq<char> {
    match input {
        Some(v) => clean_text_spec(v@),
        None => old,
    }
}

/// The row after an edit: given fields replace stored ones (name,
/// description, hours and phone sanitized); moderation and the times of
/// creation and deletion stay.
pub open spec fn is_pekerja_updated_from(y: IklanPekerja, x: IklanPekerja, input: UpdatePekerjaInput, now: i64) -> bool {
    &&& y.id == x.id
    &&& y.poster_id == x.poster_id
    &&& y.nama@ == edited_text(input.nama, x.nama@)
    &&& y.keahlian@ == match input.keahlian {
        Some(v) => v@,
        None => x.keahlian@,
    }
    &&& y.deskripsi@ == edited_text(input.deskripsi, x.deskripsi@)
    &&& opt_view(y.lokasi) == match input.lokasi {
        Some(v) => Some(v@),
        None => opt_view(x.lokasi),
    }
    &&& opt_view(y.region_id) == match input.region_id {
        Some(v) => Some(v@),
        None => opt_view(x.region_id),
    }
    &&& y.tarif_min == match input.tarif_min {
        Some(v) => Some(v),
        None => x.tarif_min,
    }
    &&& y.tarif_max == match input.tarif_max {
        Some(v) => Some(v),
        None => x.tarif_max,
    }
    &&& opt_view(y.jam_kerja) == match input.jam_kerja {
        Some(v) => Some(clean_text_spec(v@)),
        None => opt_view(x.jam_kerja),
    }
    &&& opt_view(y.phone_number) == match input.phone_number {
        Some(v) => Some(clean_text_spec(v@)),
        None => opt_view(x.phone_number),
    }
    &&& y.foto_urls@ == match input.foto_urls {
        Some(v) => v@,
        None => x.foto_urls@,
    }
    &&& y.is_active == match input.is_active {
        Some(v) => v,
        None => x.is_active,
    }
    &&& y.moderation_status == x.moderation_status
    &&& y.deleted_at == x.deleted_at
    &&& y.created_at == x.created_at
    &&& y.updated_at == now
}

/// The error a refused edit gets: the first check that fails.
pub open spec fn pekerja_update_refusal(
    ads: Seq<IklanPekerja>,
    poster_id: u128,
    id: u128,
    input: UpdatePekerjaInput,
    rate_allowed: bool,
    region: RegionCheck,
) -> Option<PekerjaError> {
    let x = ads[pos_of(ads, id)];
    if !rate_allowed {
        Some(PekerjaError::TooManyRequests)
    } else if !has_key(ads, id) || x.poster_id != poster_id {
        Some(PekerjaError::NotFound)
    } else if x.moderation_status != ModerationStatus::Active {
        Some(PekerjaError::NotEditable)
    } else if region == RegionCheck::NotFound && wants_region_check(opt_view(input.region_id)) {
        Some(PekerjaError::RegionNotFound)
    } else if x.deleted_at is Some {
        Some(PekerjaError::NotFound)
    } else {
        None
    }
}

/// The worker-ad service over its store.
pub struct IklanPekerjaService {
    pub repo: AdStore<IklanPekerja>,
}

impl IklanPekerjaService {
    pub fn new(repo: AdStore<IklanPekerja>) -> (r: IklanPekerjaService)
        ensures
            r.repo == repo,
    {
        IklanPekerjaService { repo }
    }

    /// The public listing, newest first.
    pub fn list(&self, q: &ListQuery) -> (r: Result<Vec<IklanPekerjaResponse>, RepoError>)
        ensures
            match r {
                Ok(v) => limit_of(*q) >= 0 && offset_of(*q) >= 0 && pekerja_resps_of(
                    v@,
                    page(self.repo.ads().filter(pekerja_listed_pred()), limit_of(*q), offset_of(*q)),
                ),
                Err(e) => (limit_of(*q) < 0 || offset_of(*q) < 0) && e == RepoError::NegativePaging,
            },
    {
        let limit = match q.limit {
            Some(l) => l,
            None => DEFAULT_LIMIT,
        };
        let offset = match q.offset {
            Some(o) => o,
            None => 0,
        };
        let f = |x: &IklanPekerja| -> (b: bool)
            ensures
                b == pekerja_listed(*x),
            { x.is_active && x.moderation_status == ModerationStatus::Active && x.deleted_at.is_none() };
        match self.repo.list_where(f, Ghost(pekerja_listed_pred()), limit, offset) {
            Ok(items) => {
                let ghost s = items@;
                let v = to_responses(items);
                proof {
                    lemma_pekerja_resps_copies(v@, s, page(self.repo.ads().filter(pekerja_listed_pred()), limit as int, offset as int));
                }
                Ok(v)
            },
            Err(e) => Err(e),
        }
    }

    /// The ad with the identifier.
    pub fn get(&self, id: u128) -> (r: Result<IklanPekerjaResponse, PekerjaError>)
        requires
            self.repo.wf(),
        ensures
            r is Ok == has_key(self.repo.ads(), id),
            match r {
                Ok(resp) => is_pekerja_resp_of(resp, self.repo.ads()[pos_of(self.repo.ads(), id)]),
                Err(e) => e == PekerjaError::NotFound,
            },
    {
        match self.repo.find_by_id(id) {
            Some(x) => Ok(to_response(x)),
            None => Err(PekerjaError::NotFound),
        }
    }

    /// Whether posting this ad gets as far as the region check: the rate
    /// limiter allowed it, the poster is not in cooldown, and a region is
    /// given. The region directory is asked only then.
    pub fn create_needs_region_check(
        &self,
        poster_id: u128,
        input: &CreateIklanPekerjaInput,
        now: i64,
        rate_allowed: bool,
    ) -> (r: bool)
        ensures
            r == (rate_allowed && !in_cooldown(self.repo.ads(), self.repo.log(), poster_id, now) && wants_region_check(
                opt_view(input.region_id),
            )),
    {
        rate_allowed && !self.repo.is_poster_in_cooldown(poster_id, now) && needs_region_check(&input.region_id)
    }

    /// Whether editing this ad gets as far as the region check: the rate
    /// limiter allowed it, the ad is the poster's own and active, and a
    /// region is given.
    pub fn update_needs_region_check(
        &self,
        poster_id: u128,
        id: u128,
        input: &UpdatePekerjaInput,
        rate_allowed: bool,
    ) -> (r: bool)
        requires
            self.repo.wf(),
        ensures
            r == ({
                let x = self.repo.ads()[pos_of(self.repo.ads(), id)];
                &&& rate_allowed
                &&& has_key(self.repo.ads(), id)
                &&& x.poster_id == poster_id
                &&& x.moderation_status == ModerationStatus::Active
                &&& wants_region_check(opt_view(input.region_id))
            }),
    {
        if !rate_allowed {
            return false;
        }
        match self.repo.find_by_id(id) {
            Some(x) => x.poster_id == poster_id && x.moderation_status == ModerationStatus::Active && needs_region_check(
                &input.region_id,
            ),
            None => false,
        }
    }

    /// Posts a new worker ad. Refused, in this order: when the rate limiter
    /// said no; during the cooldown after a permanent suspension; when the
    /// region directory does not know the region; when the identifier is
    /// taken.
    pub fn create(
        &mut self,
        poster_id: u128,
        input: CreateIklanPekerjaInput,
        id: u128,
        now: i64,
        rate_allowed: bool,
        region: RegionCheck,
    ) -> (r: Result<IklanPekerjaResponse, PekerjaError>)
        requires
            old(self).repo.wf(),
        ensures
            final(self).repo.wf(),
            final(self).repo.log() == old(self).repo.log(),
            match r {
                Ok(resp) => pekerja_create_refusal(old(self).repo.ads(), old(self).repo.log(), poster_id, input, id, now, rate_allowed, region) is None
                    && exists|x: IklanPekerja|
                    #[trigger] is_pekerja_created_from(x, poster_id, input, id, now) && is_pekerja_resp_of(resp, x)
                        && one_inserted(old(self).repo.ads(), final(self).repo.ads(), x),
                Err(e) => pekerja_create_refusal(old(self).repo.ads(), old(self).repo.log(), poster_id, input, id, now, rate_allowed, region) == Some(e)
                    && final(self).repo == old(self).repo,
            },
    {
        if !rate_allowed {
            return Err(PekerjaError::TooManyRequests);
        }
        if self.repo.is_poster_in_cooldown(poster_id, now) {
            return Err(PekerjaError::Cooldown);
        }
        let deskripsi = sanitize(input.deskripsi.as_str());
        let jam_kerja = sanitize_opt(&input.jam_kerja);
        let phone_number = sanitize_opt(&input.phone_number);
        if region == RegionCheck::NotFound && needs_region_check(&input.region_id) {
            return Err(PekerjaError::RegionNotFound);
        }
        let x = IklanPekerja {
            id,
            poster_id,
            nama: input.nama,
            keahlian: input.keahlian,
            deskripsi,
            lokasi: input.lokasi,
            region_id: input.region_id,
            tarif_min: input.tarif_min,
            tarif_max: input.tarif_max,
            jam_kerja,
            phone_number,
            foto_urls: Vec::new(),
            is_active: true,
            moderation_status: ModerationStatus::Active,
            deleted_at: None,
            created_at: now,
            updated_at: now,
        };
        let ghost xv = x;
        assert(is_pekerja_created_from(xv, poster_id, input, id, now));
        match self.repo.insert(x) {
            Ok(y) => {
                let resp = to_response(y);
                proof {
                    assert(is_pekerja_resp_of(resp, xv));
                    assert(one_inserted(old(self).repo.ads(), self.repo.ads(), xv));
                }
                Ok(resp)
            },
            Err(e) => Err(PekerjaError::Repo(e)),
        }
    }

    /// Removes the poster's ad; false when the poster has no ad with the
    /// identifier.
    pub fn delete(&mut self, id: u128, poster_id: u128) -> (r: bool)
        requires
            old(self).repo.wf(),
        ensures
            final(self).repo.wf(),
            final(self).repo.log() == old(self).repo.log(),
            r == (has_key(old(self).repo.ads(), id) && old(self).repo.ads()[pos_of(old(self).repo.ads(), id)].poster_id == poster_id),
            r ==> final(self).repo.ads() == old(self).repo.ads().remove(pos_of(old(self).repo.ads(), id)),
            !r ==> final(self).repo == old(self).repo,
    {
        self.repo.delete(id, poster_id)
    }

    /// Edits the poster's worker ad. Refused, in this order: when the rate
    /// limiter said no; when there is no such ad or it is not the poster's;
    /// when it is not in moderation `active`; when the region directory does
    /// not know the new region; when it was soft-deleted.
    pub fn update(
        &mut self,
        poster_id: u128,
        id: u128,
        input: UpdatePekerjaInput,
        now: i64,
        rate_allowed: bool,
        region: RegionCheck,
    ) -> (r: Result<IklanPekerjaResponse, PekerjaError>)
        requires
            old(self).repo.wf(),
        ensures
            final(self).repo.wf(),
            final(self).repo.log() == old(self).repo.log(),
            match r {
                Ok(resp) => {
                    let q = pos_of(old(self).repo.ads(), id);
                    &&& pekerja_update_refusal(old(self).repo.ads(), poster_id, id, input, rate_allowed, region) is None
                    &&& exists|y: IklanPekerja|
                        #[trigger] is_pekerja_updated_from(y, old(self).repo.ads()[q], input, now) && is_pekerja_resp_of(resp, y)
                            && final(self).repo.ads() == old(self).repo.ads().update(q, y)
                },
                Err(e) => pekerja_update_refusal(old(self).repo.ads(), poster_id, id, input, rate_allowed, region) == Some(e)
                    && final(self).repo == old(self).repo,
            },
    {
        if !rate_allowed {
            return Err(PekerjaError::TooManyRequests);
        }
        let existing = match self.repo.find_by_id(id) {
            Some(x) => x,
            None => { return Err(PekerjaError::NotFound); },
        };
        if existing.poster_id != poster_id {
            return Err(PekerjaError::NotFound);
        }
        if existing.moderation_status != ModerationStatus::Active {
            return Err(PekerjaError::NotEditable);
        }
        let nama = sanitize_opt(&input.nama);
        let deskripsi = sanitize_opt(&input.deskripsi);
        let jam_kerja = sanitize_opt(&input.jam_kerja);
        let phone_number = sanitize_opt(&input.phone_number);
        if region == RegionCheck::NotFound && needs_region_check(&input.region_id) {
            return Err(PekerjaError::RegionNotFound);
        }
        if existing.deleted_at.is_some() {
            return Err(PekerjaError::NotFound);
        }
        let x = existing;
        let y = IklanPekerja {
            nama: match nama {
                Some(v) => v,
                None => x.nama,
            },
            keahlian: match input.keahlian {
                Some(v) => v,
                None => x.keahlian,
            },
            deskripsi: match deskripsi {
                Some(v) => v,
                None => x.deskripsi,
            },
            lokasi: match input.lokasi {
                Some(v) => Some(v),
                None => x.lokasi,
            },
            region_id: match input.region_id {
                Some(v) => Some(v),
                None => x.region_id,
            },
            tarif_min: match input.tarif_min {
                Some(v) => Some(v),
                None => x.tarif_min,
            },
            tarif_max: match input.tarif_max {
                Some(v) => Some(v),
                None => x.tarif_max,
            },
            jam_kerja: match jam_kerja {
                Some(v) => Some(v),
                None => x.jam_kerja,
            },
            phone_number: match phone_number {
                Some(v) => Some(v),
                None => x.phone_number,
            },
            foto_urls: match input.foto_urls {
                Some(v) => v,
                None => x.foto_urls,
            },
            is_active: match input.is_active {
                Some(v) => v,
                None => x.is_active,
            },
            updated_at: now,
            ..x
        };
        let ghost q = pos_of(old(self).repo.ads(), id);
        let ghost yv = y;
        proof {
            assert(is_pekerja_updated_from(yv, old(self).repo.ads()[q], input, now));
        }
        let out = y.duplicate();
        let _ = self.repo.replace(id, y);
        let resp = to_response(out);
        proof {
            assert(is_pekerja_resp_of(resp, yv));
        }
        Ok(resp)
    }

    /// The admin listing: ads in the asked moderation status (default
    /// `active`) that are not soft-deleted and match the search, newest
    /// first or, with `sort_dir` "asc", oldest first; one page, with the
    /// number of matching ads (zero when the page is empty).
    pub fn admin_list(&self, query: &AdminListQuery) -> (r: Result<(Vec<AdminIklanPekerjaResponse>, i64), RepoError>)
        requires
            self.repo.ads().len() <= i64::MAX,
        ensures
            match r {
                Ok((v, total)) => {
                    let all = ordered(
                        self.repo.ads().filter(admin_filter(wanted_status(query.status), pekerja_search_pred(opt_view(query.q)))),
                        sort_ascending(query.sort_dir),
                    );
                    let pg = page(all, admin_limit(*query), admin_offset(*query));
                    &&& admin_limit(*query) >= 0 && admin_offset(*query) >= 0
                    &&& admin_pekerja_resps_of(v@, pg)
                    &&& total == if pg.len() == 0 { 0 } else { all.len() as int }
                },
                Err(e) => (admin_limit(*query) < 0 || admin_offset(*query) < 0) && e == RepoError::NegativePaging,
            },
    {
        let pat = opt_pattern_of(&query.q);
        let f = |x: &IklanPekerja| -> (b: bool)
            ensures
                b == pekerja_search_hit(*x, opt_view(query.q)),
            { pekerja_search_exec(x, &pat) };
        let ascending = match &query.sort_dir {
            Some(d) => str_eq(d.as_str(), "asc"),
            None => false,
        };
        let limit = match query.limit {
            Some(l) => l,
            None => DEFAULT_LIMIT,
        };
        let offset = match query.offset {
            Some(o) => o,
            None => 0,
        };
        match self.repo.admin_list(&query.status, f, Ghost(pekerja_search_pred(opt_view(query.q))), ascending, limit, offset) {
            Ok((items, total)) => {
                let ghost s = items@;
                let v = to_admin_responses(items);
                proof {
                    let all = ordered(
                        self.repo.ads().filter(admin_filter(wanted_status(query.status), pekerja_search_pred(opt_view(query.q)))),
                        sort_ascending(query.sort_dir),
                    );
                    lemma_admin_pekerja_resps_copies(v@, s, page(all, limit as int, offset as int));
                }
                Ok((v, total))
            },
            Err(e) => Err(e),
        }
    }

    /// The CSV export rows: like the admin listing, newest first, at most
    /// `CSV_MAX` ads.
    pub fn admin_export_csv(&self, query: &AdminListQuery) -> (r: Vec<AdminIklanPekerjaResponse>)
        ensures
            admin_pekerja_resps_of(
                r@,
                page(
                    self.repo.ads().filter(admin_filter(wanted_status(query.status), pekerja_search_pred(opt_view(query.q)))),
                    CSV_MAX as int,
                    0,
                ),
            ),
    {
        let pat = opt_pattern_of(&query.q);
        let f = |x: &IklanPekerja| -> (b: bool)
            ensures
                b == pekerja_search_hit(*x, opt_view(query.q)),
            { pekerja_search_exec(x, &pat) };
        match self.repo.admin_list_all(&query.status, f, Ghost(pekerja_search_pred(opt_view(query.q))), CSV_MAX) {
            Ok(items) => {
                let ghost s = items@;
                let v = to_admin_responses(items);
                proof {
                    lemma_admin_pekerja_resps_copies(v@, s, page(
                        self.repo.ads().filter(admin_filter(wanted_status(query.status), pekerja_search_pred(opt_view(query.q)))),
                        CSV_MAX as int,
                        0,
                    ));
                }
                v
            },
            Err(_) => Vec::new(),
        }
    }

    /// The admin detail of an ad (soft-deleted ones too) with the poster's
    /// document flags as the user directory gave them; none when there is
    /// no such ad.
    pub fn admin_get_detail(&self, id: u128, flags: SensitiveDocFlags) -> (r: Option<AdminIklanPekerjaDetailResponse>)
        requires
            self.repo.wf(),
        ensures
            r is Some == has_key(self.repo.ads(), id),
            r matches Some(d) ==> is_admin_pekerja_resp_of(d.iklan, self.repo.ads()[pos_of(self.repo.ads(), id)])
                && d.has_nik == flags.has_nik && d.has_ktp == flags.has_ktp && d.has_selfie == flags.has_selfie,
    {
        match self.repo.find_by_id(id) {
            Some(x) => Some(AdminIklanPekerjaDetailResponse {
                iklan: to_admin_response(x),
                has_nik: flags.has_nik,
                has_ktp: flags.has_ktp,
                has_selfie: flags.has_selfie,
            }),
            None => None,
        }
    }

    /// What to fetch for an admin's request to reveal the poster's sensitive
    /// data of kind "nik", "ktp" or "selfie". Refused, in this order, for
    /// another kind and when no user directory is configured; none when
    /// there is no such ad.
    pub fn admin_reveal_sensitive(&self, id: u128, kind: &str, has_user_client: bool) -> (r: Result<Option<RevealRequest>, PekerjaError>)
        requires
            self.repo.wf(),
        ensures
            match r {
                Ok(None) => sensitive_kind(kind@) && has_user_client && !has_key(self.repo.ads(), id),
                Ok(Some(req)) => {
                    let poster = self.repo.ads()[pos_of(self.repo.ads(), id)].poster_id;
                    &&& sensitive_kind(kind@) && has_user_client && has_key(self.repo.ads(), id)
                    &&& match req {
                        RevealRequest::Nik { poster_id } => kind@ == "nik"@ && poster_id == poster,
                        RevealRequest::Document { poster_id, kind: k } => kind@ != "nik"@ && poster_id == poster && k@ == kind@,
                    }
                },
                Err(e) => if !sensitive_kind(kind@) {
                    e matches PekerjaError::UnknownSensitiveKind(k) && k@ == kind@
                } else {
                    !has_user_client && e == PekerjaError::UserServiceMissing
                },
            },
    {
        if !(str_eq(kind, "nik") || str_eq(kind, "ktp") || str_eq(kind, "selfie")) {
            return Err(PekerjaError::UnknownSensitiveKind(kind.to_owned()));
        }
        if !has_user_client {
            return Err(PekerjaError::UserServiceMissing);
        }
        let x = match self.repo.find_by_id(id) {
            Some(x) => x,
            None => { return Ok(None); },
        };
        if str_eq(kind, "nik") {
            Ok(Some(RevealRequest::Nik { poster_id: x.poster_id }))
        } else {
            Ok(Some(RevealRequest::Document { poster_id: x.poster_id, kind: kind.to_owned() }))
        }
    }

    /// Suspends the listed ads that exist and are not soft-deleted (see
    /// `AdStore::suspend_and_notify`).
    pub fn suspend(&mut self, admin_id: u128, input: &SuspendInput, now: i64) -> (r: (SuspendResponse, Vec<SuspensionNotice>))
        requires
            old(self).repo.wf(),
        ensures
            final(self).repo.wf(),
            final(self).repo.ads() == suspend_spec(old(self).repo.ads(), input.iklan_ids@, suspended_status(input.is_permanent), now),
            final(self).repo.log().subrange(0, old(self).repo.log().len() as int) == old(self).repo.log(),
            final(self).repo.log().len() == old(self).repo.log().len() + live_ids(old(self).repo.ads(), input.iklan_ids@).len(),
            forall|k: int| 0 <= k < live_ids(old(self).repo.ads(), input.iklan_ids@).len() ==> is_suspension_record(
                #[trigger] final(self).repo.log()[old(self).repo.log().len() + k],
                live_ids(old(self).repo.ads(), input.iklan_ids@)[k],
                input.is_permanent,
                input.reason@,
                Some(input.evidence_object_key@),
                input.expires_at,
                admin_id,
                now,
            ),
            r.0.results@.len() == input.iklan_ids@.len(),
            forall|k: int| 0 <= k < input.iklan_ids@.len() ==> {
                let it = #[trigger] r.0.results@[k];
                &&& it.iklan_id == input.iklan_ids@[k]
                &&& it.success == is_live(old(self).repo.ads(), input.iklan_ids@[k])
                &&& it.success ==> it.error is None
                &&& !it.success ==> opt_view(it.error) == Some(not_suspended_message())
            },
            r.1@.len() == live_ids(old(self).repo.ads(), input.iklan_ids@).len(),
            forall|k: int| 0 <= k < r.1@.len() ==> {
                let id = live_ids(old(self).repo.ads(), input.iklan_ids@)[k];
                let ad = old(self).repo.ads()[pos_of(old(self).repo.ads(), id)];
                &&& (#[trigger] r.1@[k]).owner_id == ad.poster_id
                &&& r.1@[k].iklan_id == id
                &&& r.1@[k].is_permanent == input.is_permanent
                &&& r.1@[k].title@ == notice_title(input.is_permanent)
                &&& r.1@[k].body@ == notice_body(ad.nama@, id, input.reason@)
            },
    {
        let evidence = Some(input.evidence_object_key.clone());
        self.repo.suspend_and_notify(&input.iklan_ids, input.is_permanent, &input.reason, &evidence, input.expires_at, admin_id, now)
    }

    /// Lifts every temporary suspension that has expired by `now`; returns
    /// how many ads became active again.
    pub fn expire_temporary_suspensions(&mut self, now: i64) -> (n: u64)
        requires
            old(self).repo.wf(),
        ensures
            final(self).repo.wf(),
            final(self).repo.log() == old(self).repo.log(),
            final(self).repo.ads() == expire_spec(old(self).repo.ads(), old(self).repo.log(), now),
            n == old(self).repo.ads().filter(expirable_pred::<IklanPekerja>(old(self).repo.log(), now)).len(),
    {
        self.repo.expire_temporary_suspensions(now)
    }
}

} // verus!
