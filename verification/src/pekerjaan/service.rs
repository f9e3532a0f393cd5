use vstd::prelude::*;

use super::dto::{
    is_admin_job_resp_of, is_job_resp_of, is_lamaran_resp_of, to_admin_responses, to_lamaran_response, to_response,
    to_responses, AdminIklanPekerjaanResponse, AdminListQuery, BatalkanLamaranInput, CreateIklanPekerjaanInput,
    IklanPekerjaanResponse, LamarInput, LamaranResponse, LamaranWithIklanResponse, LamaranWithPelamarResponse,
    ListQuery, ReviewLamaranInput, SuspendInput, SuspendResponse, UpdatePekerjaanInput,
};
use super::entity::{IklanPekerjaan, Lamaran, LamaranStatus, ModerationStatus, PekerjaanStatus};
use super::repository::{
    conflict_pred, job_moved, lamaran_at, lamaran_by_pred, lamaran_of_pred, new_lamaran, owner_may_change,
    pelamar_may_change, CreateLamaranParams, IklanPekerjaanStore,
};
use crate::ad_store::{admin_filter, among, ordered, owned_by, wanted_status};
use crate::moderation::{
    expirable_pred, expire_spec, in_cooldown, is_live, is_suspension_record, live_ids, live_pred, not_suspended_message,
    notice_body, notice_title, opt_view, suspend_spec, suspended_status, suspension_notice, SuspensionNotice,
    CSV_MAX, DEFAULT_LIMIT,
};
use crate::remote::{needs_region_check, wants_region_check, RegionCheck};
use crate::search::{ilike, opt_chars, opt_pattern_of, opt_search_pattern, text_matches};
use crate::store::{copies, has_key, page, pos_of, RepoError, Row};
use crate::text::{clean_text_spec, sanitize};

verus! {

/// Why a job-ad request was refused.
#[derive(Debug)]
pub enum PekerjaanError {
    /// The rate limiter refused the request.
    TooManyRequests,
    /// The poster had an ad permanently suspended within three days.
    Cooldown,
    /// The region directory does not know the region.
    RegionNotFound,
    /// No such ad (or not the caller's).
    IklanNotFound,
    /// The ad cannot be edited in its moderation status (carried).
    NotEditable(ModerationStatus),
    /// A user applied to their own ad.
    OwnAd,
    /// No worker-ad directory is configured.
    PekerjaCheckMissing,
    /// The worker-ad directory failed; carries its message.
    PekerjaCheckFailed(String),
    /// The applicant has no active worker ad.
    NoActivePekerja,
    /// The applicant already has work in overlapping hours that day.
    ScheduleConflict,
    /// No such application (or not the caller's).
    LamaranNotFound,
    /// The ad has no coordinates to check the applicant's position against.
    NoJobLocation,
    /// The applicant is more than 50 m from the job.
    OutsideGeofence,
    /// The application is not accepted, so work cannot start.
    CannotStart,
    /// The application is not running, so it cannot be finished.
    CannotFinish,
    /// Less than 24 hours remain before the work starts.
    TooLateToCancel,
    /// The store refused the operation.
    Repo(RepoError),
}

impl PekerjaanError {
    pub open spec fn message(self) -> Seq<char> {
        match self {
            PekerjaanError::TooManyRequests => "terlalu banyak permintaan, coba lagi nanti"@,
            PekerjaanError::Cooldown => "Anda tidak dapat membuat iklan baru selama 3 hari setelah iklan ditangguhkan secara permanen"@,
            PekerjaanError::RegionNotFound => "region_id tidak ditemukan"@,
            PekerjaanError::IklanNotFound => "iklan tidak ditemukan"@,
            PekerjaanError::NotEditable(m) => "iklan tidak dapat diedit karena status moderasi: "@ + m.name(),
            PekerjaanError::OwnAd => "tidak dapat melamar pada iklan milik sendiri"@,
            PekerjaanError::PekerjaCheckMissing => "layanan verifikasi Iklan Pekerja tidak tersedia"@,
            PekerjaanError::PekerjaCheckFailed(e) => "layanan verifikasi Iklan Pekerja gagal: "@ + e@,
            PekerjaanError::NoActivePekerja => "Anda harus memiliki Iklan Pekerja aktif sebelum melamar pekerjaan"@,
            PekerjaanError::ScheduleConflict => "Anda sudah memiliki pekerjaan lain di rentang waktu yang sama"@,
            PekerjaanError::LamaranNotFound => "lamaran tidak ditemukan"@,
            PekerjaanError::NoJobLocation => "lokasi iklan tidak tersedia untuk validasi geofence"@,
            PekerjaanError::OutsideGeofence => "Anda berada di luar radius 50m dari lokasi pekerjaan"@,
            PekerjaanError::CannotStart => "lamaran tidak dapat dimulai (status tidak sesuai)"@,
            PekerjaanError::CannotFinish => "lamaran tidak dapat ditandai selesai (status tidak sesuai)"@,
            PekerjaanError::TooLateToCancel => "pembatalan hanya dapat dilakukan maksimal 24 jam sebelum pekerjaan dimulai"@,
            PekerjaanError::Repo(e) => e.message(),
        }
    }

    pub fn to_string(&self) -> (r: String)
        ensures
            r@ == self.message(),
    {
        match self {
            PekerjaanError::TooManyRequests => "terlalu banyak permintaan, coba lagi nanti".to_owned(),
            PekerjaanError::Cooldown => "Anda tidak dapat membuat iklan baru selama 3 hari setelah iklan ditangguhkan secara permanen".to_owned(),
            PekerjaanError::RegionNotFound => "region_id tidak ditemukan".to_owned(),
            PekerjaanError::IklanNotFound => "iklan tidak ditemukan".to_owned(),
            PekerjaanError::NotEditable(m) => {
                let mut s = "iklan tidak dapat diedit karena status moderasi: ".to_owned();
                s.append(m.as_str());
                s
            },
            PekerjaanError::OwnAd => "tidak dapat melamar pada iklan milik sendiri".to_owned(),
            PekerjaanError::PekerjaCheckMissing => "layanan verifikasi Iklan Pekerja tidak tersedia".to_owned(),
            PekerjaanError::PekerjaCheckFailed(e) => {
                let mut s = "layanan verifikasi Iklan Pekerja gagal: ".to_owned();
                s.append(e.as_str());
                s
            },
            PekerjaanError::NoActivePekerja => "Anda harus memiliki Iklan Pekerja aktif sebelum melamar pekerjaan".to_owned(),
            PekerjaanError::ScheduleConflict => "Anda sudah memiliki pekerjaan lain di rentang waktu yang sama".to_owned(),
            PekerjaanError::LamaranNotFound => "lamaran tidak ditemukan".to_owned(),
            PekerjaanError::NoJobLocation => "lokasi iklan tidak tersedia untuk validasi geofence".to_owned(),
            PekerjaanError::OutsideGeofence => "Anda berada di luar radius 50m dari lokasi pekerjaan".to_owned(),
            PekerjaanError::CannotStart => "lamaran tidak dapat dimulai (status tidak sesuai)".to_owned(),
            PekerjaanError::CannotFinish => "lamaran tidak dapat ditandai selesai (status tidak sesuai)".to_owned(),
            PekerjaanError::TooLateToCancel => "pembatalan hanya dapat dilakukan maksimal 24 jam sebelum pekerjaan dimulai".to_owned(),
            PekerjaanError::Repo(e) => e.to_string(),
        }
    }
}

/// What the worker-ad directory said about an applicant.
pub enum PekerjaCheck {
    /// No directory is configured.
    Unconfigured,
    /// The directory failed with this message.
    Failed(String),
    /// Whether the applicant has an active worker ad.
    Answered(bool),
}

/// Where the applicant stands relative to the job (computed by the caller
/// from coordinates).
#[derive(Debug, Clone, Copy, PartialEq, Eq, Structural)]
pub enum GeofenceCheck {
    /// The ad has no coordinates.
    NoJobLocation,
    /// More than 50 m away.
    Outside,
    /// Within 50 m.
    Inside,
}

/// Seconds before the start of work until which the owner may cancel.
pub const CANCELLATION_CUTOFF_SECS: i64 = 86400;

/// A public job ad: active, in moderation `active`, not soft-deleted.
pub open spec fn job_listed(x: IklanPekerjaan) -> bool {
    x.is_active && x.moderation_status == ModerationStatus::Active && x.deleted_at is None
}

pub open spec fn job_listed_pred() -> spec_fn(IklanPekerjaan) -> bool {
    |x: IklanPekerjaan| job_listed(x)
}

pub open spec fn limit_of(q: ListQuery) -> int {
    match q.limit {
        Some(l) => l as int,
        None => DEFAULT_LIMIT as int,
    }
}

pub open spec fn offset_of(q: ListQuery) -> int {
    match q.offset {
        Some(o) => o as int,
        None => 0,
    }
}

/// Views of a page of ads, in order.
pub open spec fn job_resps_of(r: Seq<IklanPekerjaanResponse>, items: Seq<IklanPekerjaan>) -> bool {
    r.len() == items.len() && forall|k: int| 0 <= k < r.len() ==> is_job_resp_of(#[trigger] r[k], items[k])
}

pub proof fn lemma_job_resps_copies(r: Seq<IklanPekerjaanResponse>, a: Seq<IklanPekerjaan>, b: Seq<IklanPekerjaan>)
    requires
        r.len() == a.len(),
        forall|k: int| 0 <= k < r.len() ==> is_job_resp_of(#[trigger] r[k], a[k]),
        copies(a, b),
    ensures
        job_resps_of(r, b),
{
    assert forall|k: int| 0 <= k < r.len() implies is_job_resp_of(#[trigger] r[k], b[k]) by {
        assert(a[k].same(&b[k]));
    }
}

/// The optional text with `clean_text` applied when present.
pub open spec fn opt_clean(s: Option<String>) -> Option<Seq<char>> {
    match s {
        Some(x) => Some(clean_text_spec(x@)),
        None => None,
    }
}

fn sanitize_opt(s: &Option<String>) -> (r: Option<String>)
    ensures
        opt_view(r) == opt_clean(*s),
{
    match s {
        Some(x) => Some(sanitize(x.as_str())),
        None => None,
    }
}

/// The row stored for a new job ad: title, description and hours
/// sanitized, the rest as given, no photos, active, available.
pub open spec fn is_job_created_from(x: IklanPekerjaan, poster_id: u128, input: CreateIklanPekerjaanInput, id: u128, now: i64) -> bool {
    &&& x.id == id
    &&& x.poster_id == poster_id
    &&& x.judul@ == clean_text_spec(input.judul@)
    &&& x.perusahaan@ == input.perusahaan@
    &&& x.deskripsi@ == clean_text_spec(input.deskripsi@)
    &&& opt_view(x.lokasi) == opt_view(input.lokasi)
    &&& opt_view(x.region_id) == opt_view(input.region_id)
    &&& x.gaji_min == input.gaji_min
    &&& x.gaji_max == input.gaji_max
    &&& x.tipe@ == input.tipe@
    &&& opt_view(x.jam_kerja) == opt_clean(input.jam_kerja)
    &&& x.foto_urls@.len() == 0
    &&& x.is_active
    &&& x.moderation_status == ModerationStatus::Active
    &&& x.status == PekerjaanStatus::Tersedia
    &&& x.deleted_at is None
    &&& x.created_at == now
    &&& x.updated_at == now
}

/// `after` is `before` with one row inserted.
pub open spec fn one_inserted<T>(before: Seq<T>, after: Seq<T>, x: T) -> bool {
    exists|k: int| 0 <= k <= before.len() && after == before.insert(k, x)
}

/// The error a refused new job ad gets: the first check that fails.
pub open spec fn job_create_refusal(
    ads: Seq<IklanPekerjaan>,
    log: Seq<crate::moderation::IklanSuspension>,
    poster_id: u128,
    input: CreateIklanPekerjaanInput,
    id: u128,
    now: i64,
    rate_allowed: bool,
    region: RegionCheck,
) -> Option<PekerjaanError> {
    if !rate_allowed {
        Some(PekerjaanError::TooManyRequests)
    } else if in_cooldown(ads, log, poster_id, now) {
        Some(PekerjaanError::Cooldown)
    } else if region == RegionCheck::NotFound && wants_region_check(opt_view(input.region_id)) {
        Some(PekerjaanError::RegionNotFound)
    } else if has_key(ads, id) {
        Some(PekerjaanError::Repo(RepoError::DuplicateId))
    } else {
        None
    }
}

/// The new value of an optional text field: the sanitized input when
/// given, else the stored value.
pub open spec fn edited_text(input: Option<String>, old: Seq<char>) -> Seq<char> {
    match input {
        Some(v) => clean_text_spec(v@),
        None => old,
    }
}

/// The row after an edit: given fields replace stored ones (title,
/// company, description, place and hours sanitized); work status,
/// moderation and times of creation and deletion stay.
pub open spec fn is_job_updated_from(y: IklanPekerjaan, x: IklanPekerjaan, input: UpdatePekerjaanInput, now: i64) -> bool {
    &&& y.id == x.id
    &&& y.poster_id == x.poster_id
    &&& y.judul@ == edited_text(input.judul, x.judul@)
    &&& y.perusahaan@ == edited_text(input.perusahaan, x.perusahaan@)
    &&& y.deskripsi@ == edited_text(input.deskripsi, x.deskripsi@)
    &&& opt_view(y.lokasi) == match input.lokasi {
        Some(v) => Some(clean_text_spec(v@)),
        None => opt_view(x.lokasi),
    }
    &&& opt_view(y.region_id) == match input.region_id {
        Some(v) => Some(v@),
        None => opt_view(x.region_id),
    }
    &&& y.gaji_min == match input.gaji_min {
        Some(v) => Some(v),
        None => x.gaji_min,
    }
    &&& y.gaji_max == match input.gaji_max {
        Some(v) => Some(v),
        None => x.gaji_max,
    }
    &&& y.tipe@ == match input.tipe {
        Some(v) => v@,
        None => x.tipe@,
    }
    &&& opt_view(y.jam_kerja) == match input.jam_kerja {
        Some(v) => Some(clean_text_spec(v@)),
        None => opt_view(x.jam_kerja),
    }
    &&& y.foto_urls@ == match input.foto_urls {
        Some(v) => v@,
        None => x.foto_urls@,
    }
    &&& y.is_active == match input.is_active {
        Some(v) => v,
        None => x.is_active,
    }
    &&& y.moderation_status == x.moderation_status
    &&& y.status == x.status
    &&& y.deleted_at == x.deleted_at
    &&& y.created_at == x.created_at
    &&& y.updated_at == now
}

/// The error a refused edit gets: the first check that fails.
pub open spec fn job_update_refusal(
    ads: Seq<IklanPekerjaan>,
    poster_id: u128,
    id: u128,
    input: UpdatePekerjaanInput,
    rate_allowed: bool,
    region: RegionCheck,
) -> Option<PekerjaanError> {
    let x = ads[pos_of(ads, id)];
    if !rate_allowed {
        Some(PekerjaanError::TooManyRequests)
    } else if !has_key(ads, id) {
        Some(PekerjaanError::IklanNotFound)
    } else if x.moderation_status != ModerationStatus::Active {
        Some(PekerjaanError::NotEditable(x.moderation_status))
    } else if region == RegionCheck::NotFound && wants_region_check(opt_view(input.region_id)) {
        Some(PekerjaanError::RegionNotFound)
    } else if x.poster_id != poster_id || x.deleted_at is Some {
        Some(PekerjaanError::IklanNotFound)
    } else {
        None
    }
}

/// The admin search: the title or the poster's identifier text matches
/// `%q%` (trimmed, `ILIKE`); no query admits every ad.
pub open spec fn job_search_hit(x: IklanPekerjaan, q: Option<Seq<char>>) -> bool {
    match opt_search_pattern(q) {
        Some(pat) => ilike(x.judul@, pat) || ilike(crate::wrap::uuid_text(x.poster_id), pat),
        None => true,
    }
}

pub open spec fn job_search_pred(q: Option<Seq<char>>) -> spec_fn(IklanPekerjaan) -> bool {
    |x: IklanPekerjaan| job_search_hit(x, q)
}

fn job_search_exec(x: &IklanPekerjaan, pat: &Option<Vec<char>>) -> (r: bool)
    ensures
        r == match opt_chars(*pat) {
            Some(p) => ilike(x.judul@, p) || ilike(crate::wrap::uuid_text(x.poster_id), p),
            None => true,
        },
{
    match pat {
        Some(p) => text_matches(x.judul.as_str(), p) || text_matches(crate::wrap::uuid_string(x.poster_id).as_str(), p),
        None => true,
    }
}

/// The admin listing runs oldest first exactly when `sort_dir` is "asc".
pub open spec fn sort_ascending(sort_dir: Option<String>) -> bool {
    match sort_dir {
        Some(d) => d@ == "asc"@,
        None => false,
    }
}

pub open spec fn admin_limit(q: AdminListQuery) -> int {
    match q.limit {
        Some(l) => l as int,
        None => DEFAULT_LIMIT as int,
    }
}

pub open spec fn admin_offset(q: AdminListQuery) -> int {
    match q.offset {
        Some(o) => o as int,
        None => 0,
    }
}

/// Admin views of a page of ads, in order.
pub open spec fn admin_job_resps_of(r: Seq<AdminIklanPekerjaanResponse>, items: Seq<IklanPekerjaan>) -> bool {
    r.len() == items.len() && forall|k: int| 0 <= k < r.len() ==> is_admin_job_resp_of(#[trigger] r[k], items[k])
}

pub proof fn lemma_admin_job_resps_copies(r: Seq<AdminIklanPekerjaanResponse>, a: Seq<IklanPekerjaan>, b: Seq<IklanPekerjaan>)
    requires
        r.len() == a.len(),
        forall|k: int| 0 <= k < r.len() ==> is_admin_job_resp_of(#[trigger] r[k], a[k]),
        copies(a, b),
    ensures
        admin_job_resps_of(r, b),
{
    assert forall|k: int| 0 <= k < r.len() implies is_admin_job_resp_of(#[trigger] r[k], b[k]) by {
        assert(a[k].same(&b[k]));
    }
}

/// The error a refused application gets: the first check that fails.
pub open spec fn lamar_refusal(
    ads: Seq<IklanPekerjaan>,
    ls: Seq<Lamaran>,
    pelamar_id: u128,
    iklan_id: u128,
    input: LamarInput,
    pekerja: PekerjaCheck,
    id: u128,
) -> Option<PekerjaanError> {
    if !has_key(ads, iklan_id) {
        Some(PekerjaanError::IklanNotFound)
    } else if ads[pos_of(ads, iklan_id)].poster_id == pelamar_id {
        Some(PekerjaanError::OwnAd)
    } else if pekerja is Unconfigured {
        Some(PekerjaanError::PekerjaCheckMissing)
    } else if pekerja is Failed {
        Some(PekerjaanError::PekerjaCheckFailed(pekerja->Failed_0))
    } else if pekerja == PekerjaCheck::Answered(false) {
        Some(PekerjaanError::NoActivePekerja)
    } else if exists|j: int|
        0 <= j < ls.len() && #[trigger] conflict_pred(pelamar_id, input.tanggal, input.jam_mulai, input.jam_akhir)(ls[j]) {
        Some(PekerjaanError::ScheduleConflict)
    } else if has_key(ls, id) {
        Some(PekerjaanError::Repo(RepoError::DuplicateId))
    } else {
        None
    }
}

/// The fields of the application made from a request.
pub open spec fn lamaran_params(iklan_id: u128, pelamar_id: u128, input: LamarInput) -> CreateLamaranParams {
    CreateLamaranParams {
        iklan_id,
        pelamar_id,
        tanggal: input.tanggal,
        jam_mulai: input.jam_mulai,
        jam_akhir: input.jam_akhir,
        kuota_diambil: match input.kuota_diambil {
            Some(k) => k,
            None => 1,
        },
    }
}

/// The start of the agreed work, in seconds since the epoch.
pub open spec fn start_secs(l: Lamaran) -> int {
    l.tanggal * 86400 + l.jam_mulai
}

/// Cancellation is allowed while at least 24 whole hours remain before the
/// start.
pub open spec fn may_cancel(l: Lamaran, now: i64) -> bool {
    start_secs(l) - now >= CANCELLATION_CUTOFF_SECS
}

/// An application as the owner sees it: the stored application and the
/// applicant's active worker ad (the last summary given for them), if any.
pub open spec fn is_with_pelamar(r: LamaranWithPelamarResponse, l: Lamaran, summaries: Seq<crate::clients::IklanPekerjaSummary>) -> bool {
    &&& is_lamaran_resp_of(r.lamaran, l)
    &&& if exists|j: int| 0 <= j < summaries.len() && (#[trigger] summaries[j]).poster_id == l.pelamar_id {
        exists|j: int|
            #[trigger] crate::clients::last_summary(summaries, l.pelamar_id, j) && opt_view(r.pelamar_nama) == Some(
                summaries[j].nama@,
            ) && r.pelamar_iklan_pekerja_id == Some(summaries[j].id) && match r.pelamar_keahlian {
                Some(k) => k@ == summaries[j].keahlian@,
                None => false,
            } && r.pelamar_foto_url == summaries[j].foto_url
    } else {
        r.pelamar_nama is None && r.pelamar_iklan_pekerja_id is None && r.pelamar_keahlian is None
            && r.pelamar_foto_url is None
    }
}

/// An application as the applicant sees it: the stored application and
/// the ad's fields when an ad with that identifier is stored.
pub open spec fn is_with_iklan(r: LamaranWithIklanResponse, l: Lamaran, ads: Seq<IklanPekerjaan>) -> bool {
    let x = ads[pos_of(ads, l.iklan_id)];
    &&& is_lamaran_resp_of(r.lamaran, l)
    &&& if has_key(ads, l.iklan_id) {
        &&& r.iklan_judul == Some(x.judul)
        &&& r.iklan_perusahaan == Some(x.perusahaan)
        &&& r.iklan_gaji_min == x.gaji_min
        &&& r.iklan_gaji_max == x.gaji_max
        &&& r.iklan_tipe == Some(x.tipe)
        &&& r.iklan_lokasi == x.lokasi
        &&& r.iklan_poster_id == Some(x.poster_id)
    } else {
        &&& r.iklan_judul is None
        &&& r.iklan_perusahaan is None
        &&& r.iklan_gaji_min is None
        &&& r.iklan_gaji_max is None
        &&& r.iklan_tipe is None
        &&& r.iklan_lokasi is None
        &&& r.iklan_poster_id is None
    }
}

/// The error a refused start of work gets: the first check that fails.
pub open spec fn mulai_refusal(
    ads: Seq<IklanPekerjaan>,
    ls: Seq<Lamaran>,
    pelamar_id: u128,
    lamaran_id: u128,
    geofence: GeofenceCheck,
) -> Option<PekerjaanError> {
    let l = lamaran_at(ls, lamaran_id);
    if !has_key(ls, lamaran_id) || l.pelamar_id != pelamar_id {
        Some(PekerjaanError::LamaranNotFound)
    } else if !has_key(ads, l.iklan_id) {
        Some(PekerjaanError::IklanNotFound)
    } else if geofence == GeofenceCheck::NoJobLocation {
        Some(PekerjaanError::NoJobLocation)
    } else if geofence == GeofenceCheck::Outside {
        Some(PekerjaanError::OutsideGeofence)
    } else if l.status != LamaranStatus::Diterima {
        Some(PekerjaanError::CannotStart)
    } else {
        None
    }
}

/// The error a refused cancellation gets: the first check that fails.
pub open spec fn batal_refusal(
    ads: Seq<IklanPekerjaan>,
    ls: Seq<Lamaran>,
    owner: u128,
    lamaran_id: u128,
    now: i64,
) -> Option<PekerjaanError> {
    if !has_key(ls, lamaran_id) {
        Some(PekerjaanError::LamaranNotFound)
    } else if !may_cancel(lamaran_at(ls, lamaran_id), now) {
        Some(PekerjaanError::TooLateToCancel)
    } else if !owner_may_change(ads, ls, lamaran_id, owner, LamaranStatus::Diterima) {
        Some(PekerjaanError::LamaranNotFound)
    } else {
        None
    }
}

/// The job-ad service over its store.
pub struct IklanPekerjaanService {
    pub repo: IklanPekerjaanStore,
}

impl IklanPekerjaanService {
    pub fn new(repo: IklanPekerjaanStore) -> (r: IklanPekerjaanService)
        ensures
            r.repo == repo,
    {
        IklanPekerjaanService { repo }
    }

    /// The public listing, newest first.
    pub fn list(&self, q: &ListQuery) -> (r: Result<Vec<IklanPekerjaanResponse>, RepoError>)
        ensures
            match r {
                Ok(v) => limit_of(*q) >= 0 && offset_of(*q) >= 0 && job_resps_of(
                    v@,
                    page(self.repo.ads.ads().filter(job_listed_pred()), limit_of(*q), offset_of(*q)),
                ),
                Err(e) => (limit_of(*q) < 0 || offset_of(*q) < 0) && e == RepoError::NegativePaging,
            },
    {
        let limit = match q.limit {
            Some(l) => l,
            None => DEFAULT_LIMIT,
        };
        let offset = match q.offset {
            Some(o) => o,
            None => 0,
        };
        let f = |x: &IklanPekerjaan| -> (b: bool)
            ensures
                b == job_listed(*x),
            { x.is_active && x.moderation_status == ModerationStatus::Active && x.deleted_at.is_none() };
        match self.repo.ads.list_where(f, Ghost(job_listed_pred()), limit, offset) {
            Ok(items) => {
                let ghost s = items@;
                let v = to_responses(items);
                proof {
                    lemma_job_resps_copies(v@, s, page(self.repo.ads.ads().filter(job_listed_pred()), limit as int, offset as int));
                }
                Ok(v)
            },
            Err(e) => Err(e),
        }
    }

    /// "My jobs": the poster's ads that are not soft-deleted, whatever their
    /// moderation, newest first.
    pub fn list_my_jobs(&self, poster_id: u128, q: &ListQuery) -> (r: Result<Vec<IklanPekerjaanResponse>, RepoError>)
        ensures
            match r {
                Ok(v) => limit_of(*q) >= 0 && offset_of(*q) >= 0 && job_resps_of(
                    v@,
                    page(self.repo.ads.ads().filter(owned_by::<IklanPekerjaan>(poster_id)), limit_of(*q), offset_of(*q)),
                ),
                Err(e) => (limit_of(*q) < 0 || offset_of(*q) < 0) && e == RepoError::NegativePaging,
            },
    {
        let limit = match q.limit {
            Some(l) => l,
            None => DEFAULT_LIMIT,
        };
        let offset = match q.offset {
            Some(o) => o,
            None => 0,
        };
        match self.repo.ads.list_by_owner(poster_id, limit, offset) {
            Ok(items) => {
                let ghost s = items@;
                let v = to_responses(items);
                proof {
                    lemma_job_resps_copies(v@, s, page(self.repo.ads.ads().filter(owned_by::<IklanPekerjaan>(poster_id)), limit as int, offset as int));
                }
                Ok(v)
            },
            Err(e) => Err(e),
        }
    }

    /// The ad with the identifier.
    pub fn get(&self, id: u128) -> (r: Result<IklanPekerjaanResponse, PekerjaanError>)
        requires
            self.repo.wf(),
        ensures
            r is Ok == has_key(self.repo.ads.ads(), id),
            match r {
                Ok(resp) => is_job_resp_of(resp, self.repo.ads.ads()[pos_of(self.repo.ads.ads(), id)]),
                Err(e) => e == PekerjaanError::IklanNotFound,
            },
    {
        match self.repo.ads.find_by_id(id) {
            Some(x) => Ok(to_response(x)),
            None => Err(PekerjaanError::IklanNotFound),
        }
    }

    /// Whether posting this ad gets as far as the region check: the rate
    /// limiter allowed it, the poster is not in cooldown, and a region is
    /// given. The region directory is asked only then.
    pub fn create_needs_region_check(
        &self,
        poster_id: u128,
        input: &CreateIklanPekerjaanInput,
        now: i64,
        rate_allowed: bool,
    ) -> (r: bool)
        ensures
            r == (rate_allowed && !in_cooldown(self.repo.ads.ads(), self.repo.ads.log(), poster_id, now)
                && wants_region_check(opt_view(input.region_id))),
    {
        rate_allowed && !self.repo.ads.is_poster_in_cooldown(poster_id, now) && needs_region_check(&input.region_id)
    }

    /// Whether editing this ad gets as far as the region check: the rate
    /// limiter allowed it, the ad exists and is active, and a region is
    /// given.
    pub fn update_needs_region_check(&self, id: u128, input: &UpdatePekerjaanInput, rate_allowed: bool) -> (r: bool)
        requires
            self.repo.wf(),
        ensures
            r == (rate_allowed && has_key(self.repo.ads.ads(), id)
                && self.repo.ads.ads()[pos_of(self.repo.ads.ads(), id)].moderation_status == ModerationStatus::Active
                && wants_region_check(opt_view(input.region_id))),
    {
        if !rate_allowed {
            return false;
        }
        match self.repo.ads.find_by_id(id) {
            Some(x) => x.moderation_status == ModerationStatus::Active && needs_region_check(&input.region_id),
            None => false,
        }
    }

    /// Posts a new job ad. Refused, in this order: when the rate limiter said
    /// no; during the cooldown after a permanent suspension; when the region
    /// directory does not know the region; when the identifier is taken.
    pub fn create(
        &mut self,
        poster_id: u128,
        input: CreateIklanPekerjaanInput,
        id: u128,
        now: i64,
        rate_allowed: bool,
        region: RegionCheck,
    ) -> (r: Result<IklanPekerjaanResponse, PekerjaanError>)
        requires
            old(self).repo.wf(),
        ensures
            final(self).repo.wf(),
            final(self).repo.lamarans() == old(self).repo.lamarans(),
            final(self).repo.ads.log() == old(self).repo.ads.log(),
            match r {
                Ok(resp) => job_create_refusal(old(self).repo.ads.ads(), old(self).repo.ads.log(), poster_id, input, id, now, rate_allowed, region) is None
                    && exists|x: IklanPekerjaan|
                    #[trigger] is_job_created_from(x, poster_id, input, id, now) && is_job_resp_of(resp, x)
                        && one_inserted(old(self).repo.ads.ads(), final(self).repo.ads.ads(), x),
                Err(e) => job_create_refusal(old(self).repo.ads.ads(), old(self).repo.ads.log(), poster_id, input, id, now, rate_allowed, region) == Some(e)
                    && final(self).repo == old(self).repo,
            },
    {
        if !rate_allowed {
            return Err(PekerjaanError::TooManyRequests);
        }
        if self.repo.ads.is_poster_in_cooldown(poster_id, now) {
            return Err(PekerjaanError::Cooldown);
        }
        if region == RegionCheck::NotFound && needs_region_check(&input.region_id) {
            return Err(PekerjaanError::RegionNotFound);
        }
        let judul = sanitize(input.judul.as_str());
        let deskripsi = sanitize(input.deskripsi.as_str());
        let jam_kerja = sanitize_opt(&input.jam_kerja);
        let x = IklanPekerjaan {
            id,
            poster_id,
            judul,
            perusahaan: input.perusahaan,
            deskripsi,
            lokasi: input.lokasi,
            region_id: input.region_id,
            gaji_min: input.gaji_min,
            gaji_max: input.gaji_max,
            tipe: input.tipe,
            jam_kerja,
            foto_urls: Vec::new(),
            is_active: true,
            moderation_status: ModerationStatus::Active,
            status: PekerjaanStatus::Tersedia,
            deleted_at: None,
            created_at: now,
            updated_at: now,
        };
        let ghost xv = x;
        assert(is_job_created_from(xv, poster_id, input, id, now));
        match self.repo.ads.insert(x) {
            Ok(y) => {
                let resp = to_response(y);
                proof {
                    assert(is_job_resp_of(resp, xv));
                    assert(one_inserted(old(self).repo.ads.ads(), self.repo.ads.ads(), xv));
                }
                Ok(resp)
            },
            Err(e) => Err(PekerjaanError::Repo(e)),
        }
    }

    /// Removes the poster's ad; false when the poster has no ad with the
    /// identifier.
    pub fn delete(&mut self, id: u128, poster_id: u128) -> (r: bool)
        requires
            old(self).repo.wf(),
        ensures
            final(self).repo.wf(),
            final(self).repo.lamarans() == old(self).repo.lamarans(),
            final(self).repo.ads.log() == old(self).repo.ads.log(),
            r == (has_key(old(self).repo.ads.ads(), id) && old(self).repo.ads.ads()[pos_of(old(self).repo.ads.ads(), id)].poster_id == poster_id),
            r ==> final(self).repo.ads.ads() == old(self).repo.ads.ads().remove(pos_of(old(self).repo.ads.ads(), id)),
            !r ==> final(self).repo == old(self).repo,
    {
        self.repo.ads.delete(id, poster_id)
    }

    /// Edits the poster's job ad. Refused, in this order: when the rate
    /// limiter said no; when there is no such ad; when its moderation status
    /// is not `active`; when the region directory does not know the new
    /// region; when the ad is not the poster's or was soft-deleted.
    pub fn update(
        &mut self,
        poster_id: u128,
        id: u128,
        input: UpdatePekerjaanInput,
        now: i64,
        rate_allowed: bool,
        region: RegionCheck,
    ) -> (r: Result<IklanPekerjaanResponse, PekerjaanError>)
        requires
            old(self).repo.wf(),
        ensures
            final(self).repo.wf(),
            final(self).repo.lamarans() == old(self).repo.lamarans(),
            final(self).repo.ads.log() == old(self).repo.ads.log(),
            match r {
                Ok(resp) => {
                    let q = pos_of(old(self).repo.ads.ads(), id);
                    &&& job_update_refusal(old(self).repo.ads.ads(), poster_id, id, input, rate_allowed, region) is None
                    &&& exists|y: IklanPekerjaan|
                        #[trigger] is_job_updated_from(y, old(self).repo.ads.ads()[q], input, now) && is_job_resp_of(resp, y)
                            && final(self).repo.ads.ads() == old(self).repo.ads.ads().update(q, y)
                },
                Err(e) => job_update_refusal(old(self).repo.ads.ads(), poster_id, id, input, rate_allowed, region) == Some(e)
                    && final(self).repo == old(self).repo,
            },
    {
        if !rate_allowed {
            return Err(PekerjaanError::TooManyRequests);
        }
        let existing = match self.repo.ads.find_by_id(id) {
            Some(x) => x,
            None => { return Err(PekerjaanError::IklanNotFound); },
        };
        if existing.moderation_status != ModerationStatus::Active {
            return Err(PekerjaanError::NotEditable(existing.moderation_status));
        }
        if region == RegionCheck::NotFound && needs_region_check(&input.region_id) {
            return Err(PekerjaanError::RegionNotFound);
        }
        if existing.poster_id != poster_id || existing.deleted_at.is_some() {
            return Err(PekerjaanError::IklanNotFound);
        }
        let judul = sanitize_opt(&input.judul);
        let perusahaan = sanitize_opt(&input.perusahaan);
        let deskripsi = sanitize_opt(&input.deskripsi);
        let lokasi = sanitize_opt(&input.lokasi);
        let jam_kerja = sanitize_opt(&input.jam_kerja);
        let x = existing;
        let y = IklanPekerjaan {
            judul: match judul {
                Some(v) => v,
                None => x.judul,
            },
            perusahaan: match perusahaan {
                Some(v) => v,
                None => x.perusahaan,
            },
            deskripsi: match deskripsi {
                Some(v) => v,
                None => x.deskripsi,
            },
            lokasi: match lokasi {
                Some(v) => Some(v),
                None => x.lokasi,
            },
            region_id: match input.region_id {
                Some(v) => Some(v),
                None => x.region_id,
            },
            gaji_min: match input.gaji_min {
                Some(v) => Some(v),
                None => x.gaji_min,
            },
            gaji_max: match input.gaji_max {
                Some(v) => Some(v),
                None => x.gaji_max,
            },
            tipe: match input.tipe {
                Some(v) => v,
                None => x.tipe,
            },
            jam_kerja: match jam_kerja {
                Some(v) => Some(v),
                None => x.jam_kerja,
            },
            foto_urls: match input.foto_urls {
                Some(v) => v,
                None => x.foto_urls,
            },
            is_active: match input.is_active {
                Some(v) => v,
                None => x.is_active,
            },
            updated_at: now,
            ..x
        };
        let ghost q = pos_of(old(self).repo.ads.ads(), id);
        let ghost yv = y;
        proof {
            assert(is_job_updated_from(yv, old(self).repo.ads.ads()[q], input, now));
        }
        let out = y.duplicate();
        let _ = self.repo.ads.replace(id, y);
        let resp = to_response(out);
        proof {
            assert(is_job_resp_of(resp, yv));
        }
        Ok(resp)
    }

    /// The admin listing: ads in the asked moderation status (default
    /// `active`) that are not soft-deleted and match the search, newest
    /// first or, with `sort_dir` "asc", oldest first; one page (default
    /// limit 20), with the number of matching ads (zero when the page is
    /// empty).
    pub fn admin_list(&self, query: &AdminListQuery) -> (r: Result<(Vec<AdminIklanPekerjaanResponse>, i64), RepoError>)
        requires
            self.repo.ads.ads().len() <= i64::MAX,
        ensures
            match r {
                Ok((v, total)) => {
                    let all = ordered(
                        self.repo.ads.ads().filter(admin_filter(wanted_status(query.status), job_search_pred(opt_view(query.q)))),
                        sort_ascending(query.sort_dir),
                    );
                    let pg = page(all, admin_limit(*query), admin_offset(*query));
                    &&& admin_limit(*query) >= 0 && admin_offset(*query) >= 0
                    &&& admin_job_resps_of(v@, pg)
                    &&& total == if pg.len() == 0 { 0 } else { all.len() as int }
                },
                Err(e) => (admin_limit(*query) < 0 || admin_offset(*query) < 0) && e == RepoError::NegativePaging,
            },
    {
        let pat = opt_pattern_of(&query.q);
        let f = |x: &IklanPekerjaan| -> (b: bool)
            ensures
                b == job_search_hit(*x, opt_view(query.q)),
            { job_search_exec(x, &pat) };
        let ascending = match &query.sort_dir {
            Some(d) => crate::text::str_eq(d.as_str(), "asc"),
            None => false,
        };
        let limit = match query.limit {
            Some(l) => l,
            None => DEFAULT_LIMIT,
        };
        let offset = match query.offset {
            Some(o) => o,
            None => 0,
        };
        match self.repo.ads.admin_list(&query.status, f, Ghost(job_search_pred(opt_view(query.q))), ascending, limit, offset) {
            Ok((items, total)) => {
                let ghost s = items@;
                let v = to_admin_responses(items);
                proof {
                    let all = ordered(
                        self.repo.ads.ads().filter(admin_filter(wanted_status(query.status), job_search_pred(opt_view(query.q)))),
                        sort_ascending(query.sort_dir),
                    );
                    lemma_admin_job_resps_copies(v@, s, page(all, limit as int, offset as int));
                }
                Ok((v, total))
            },
            Err(e) => Err(e),
        }
    }

    /// The CSV export rows: like the admin listing, newest first, at most
    /// `CSV_MAX` ads.
    pub fn admin_export_csv(&self, query: &AdminListQuery) -> (r: Vec<AdminIklanPekerjaanResponse>)
        ensures
            admin_job_resps_of(
                r@,
                page(
                    self.repo.ads.ads().filter(admin_filter(wanted_status(query.status), job_search_pred(opt_view(query.q)))),
                    CSV_MAX as int,
                    0,
                ),
            ),
    {
        let pat = opt_pattern_of(&query.q);
        let f = |x: &IklanPekerjaan| -> (b: bool)
            ensures
                b == job_search_hit(*x, opt_view(query.q)),
            { job_search_exec(x, &pat) };
        match self.repo.ads.admin_list_all(&query.status, f, Ghost(job_search_pred(opt_view(query.q))), CSV_MAX) {
            Ok(items) => {
                let ghost s = items@;
                let v = to_admin_responses(items);
                proof {
                    lemma_admin_job_resps_copies(v@, s, page(
                        self.repo.ads.ads().filter(admin_filter(wanted_status(query.status), job_search_pred(opt_view(query.q)))),
                        CSV_MAX as int,
                        0,
                    ));
                }
                v
            },
            Err(_) => Vec::new(),
        }
    }

    /// Suspends the listed ads that exist and are not soft-deleted (see
    /// `AdStore::suspend_and_notify`), answering one outcome per request
    /// and the notices for the owners.
    pub fn suspend(&mut self, admin_id: u128, input: &SuspendInput, now: i64) -> (r: (SuspendResponse, Vec<SuspensionNotice>))
        requires
            old(self).repo.wf(),
        ensures
            final(self).repo.wf(),
            final(self).repo.lamarans() == old(self).repo.lamarans(),
            final(self).repo.ads.ads() == suspend_spec(old(self).repo.ads.ads(), input.iklan_ids@, suspended_status(input.is_permanent), now),
            final(self).repo.ads.log().subrange(0, old(self).repo.ads.log().len() as int) == old(self).repo.ads.log(),
            final(self).repo.ads.log().len() == old(self).repo.ads.log().len() + live_ids(old(self).repo.ads.ads(), input.iklan_ids@).len(),
            forall|k: int| 0 <= k < live_ids(old(self).repo.ads.ads(), input.iklan_ids@).len() ==> is_suspension_record(
                #[trigger] final(self).repo.ads.log()[old(self).repo.ads.log().len() + k],
                live_ids(old(self).repo.ads.ads(), input.iklan_ids@)[k],
                input.is_permanent,
                input.reason@,
                Some(input.evidence_object_key@),
                input.expires_at,
                admin_id,
                now,
            ),
            r.0.results@.len() == input.iklan_ids@.len(),
            forall|k: int| 0 <= k < input.iklan_ids@.len() ==> {
                let it = #[trigger] r.0.results@[k];
                &&& it.iklan_id == input.iklan_ids@[k]
                &&& it.success == is_live(old(self).repo.ads.ads(), input.iklan_ids@[k])
                &&& it.success ==> it.error is None
                &&& !it.success ==> opt_view(it.error) == Some(not_suspended_message())
            },
            r.1@.len() == live_ids(old(self).repo.ads.ads(), input.iklan_ids@).len(),
            forall|k: int| 0 <= k < r.1@.len() ==> {
                let id = live_ids(old(self).repo.ads.ads(), input.iklan_ids@)[k];
                let ad = old(self).repo.ads.ads()[pos_of(old(self).repo.ads.ads(), id)];
                &&& (#[trigger] r.1@[k]).owner_id == ad.poster_id
                &&& r.1@[k].iklan_id == id
                &&& r.1@[k].is_permanent == input.is_permanent
                &&& r.1@[k].title@ == notice_title(input.is_permanent)
                &&& r.1@[k].body@ == notice_body(ad.judul@, id, input.reason@)
            },
    {
        let evidence = Some(input.evidence_object_key.clone());
        self.repo.ads.suspend_and_notify(&input.iklan_ids, input.is_permanent, &input.reason, &evidence, input.expires_at, admin_id, now)
    }

    /// Lifts every temporary suspension that has expired by `now`; returns
    /// how many ads became active again.
    pub fn expire_temporary_suspensions(&mut self, now: i64) -> (n: u64)
        requires
            old(self).repo.wf(),
        ensures
            final(self).repo.wf(),
            final(self).repo.lamarans() == old(self).repo.lamarans(),
            final(self).repo.ads.log() == old(self).repo.ads.log(),
            final(self).repo.ads.ads() == expire_spec(old(self).repo.ads.ads(), old(self).repo.ads.log(), now),
            n == old(self).repo.ads.ads().filter(expirable_pred::<IklanPekerjaan>(old(self).repo.ads.log(), now)).len(),
    {
        self.repo.ads.expire_temporary_suspensions(now)
    }

    /// A user applies for a job. Refused, in this order: when there is no
    /// such ad; when it is the user's own; when no worker-ad directory is
    /// configured, it failed, or the user has no active worker ad; when the
    /// user already has accepted or running work that day in overlapping
    /// hours; when the identifier is taken. The application starts out
    /// submitted, taking one worker slot unless told otherwise.
    pub fn lamar(
        &mut self,
        pelamar_id: u128,
        iklan_id: u128,
        input: &LamarInput,
        pekerja: PekerjaCheck,
        id: u128,
        now: i64,
    ) -> (r: Result<LamaranResponse, PekerjaanError>)
        requires
            old(self).repo.wf(),
        ensures
            final(self).repo.wf(),
            final(self).repo.ads == old(self).repo.ads,
            match r {
                Ok(resp) => {
                    let l = new_lamaran(lamaran_params(iklan_id, pelamar_id, *input), id, now);
                    &&& lamar_refusal(old(self).repo.ads.ads(), old(self).repo.lamarans(), pelamar_id, iklan_id, *input, pekerja, id) is None
                    &&& is_lamaran_resp_of(resp, l)
                    &&& one_inserted(old(self).repo.lamarans(), final(self).repo.lamarans(), l)
                },
                Err(e) => lamar_refusal(old(self).repo.ads.ads(), old(self).repo.lamarans(), pelamar_id, iklan_id, *input, pekerja, id) == Some(e)
                    && final(self).repo == old(self).repo,
            },
    {
        let iklan = match self.repo.ads.find_by_id(iklan_id) {
            Some(x) => x,
            None => { return Err(PekerjaanError::IklanNotFound); },
        };
        if iklan.poster_id == pelamar_id {
            return Err(PekerjaanError::OwnAd);
        }
        match pekerja {
            PekerjaCheck::Unconfigured => { return Err(PekerjaanError::PekerjaCheckMissing); },
            PekerjaCheck::Failed(e) => { return Err(PekerjaanError::PekerjaCheckFailed(e)); },
            PekerjaCheck::Answered(active) => {
                if !active {
                    return Err(PekerjaanError::NoActivePekerja);
                }
            },
        }
        if self.repo.has_conflicting_lamaran(pelamar_id, input.tanggal, input.jam_mulai, input.jam_akhir) {
            return Err(PekerjaanError::ScheduleConflict);
        }
        let p = CreateLamaranParams {
            iklan_id,
            pelamar_id,
            tanggal: input.tanggal,
            jam_mulai: input.jam_mulai,
            jam_akhir: input.jam_akhir,
            kuota_diambil: match input.kuota_diambil {
                Some(k) => k,
                None => 1,
            },
        };
        match self.repo.create_lamaran(p, id, now) {
            Ok(l) => Ok(to_lamaran_response(l)),
            Err(e) => Err(PekerjaanError::Repo(e)),
        }
    }

    /// The ad's owner accepts or rejects a submitted application.
    /// `LamaranNotFound` when there is no submitted application for one of
    /// the owner's live ads.
    pub fn review_lamaran(&mut self, iklan_owner_id: u128, lamaran_id: u128, input: &ReviewLamaranInput, now: i64) -> (r: Result<LamaranResponse, PekerjaanError>)
        requires
            old(self).repo.wf(),
        ensures
            final(self).repo.wf(),
            final(self).repo.ads == old(self).repo.ads,
            r is Ok == owner_may_change(old(self).repo.ads.ads(), old(self).repo.lamarans(), lamaran_id, iklan_owner_id, LamaranStatus::Diajukan),
            match r {
                Ok(resp) => {
                    let q = pos_of(old(self).repo.lamarans(), lamaran_id);
                    let l = Lamaran {
                        status: if input.approved { LamaranStatus::Diterima } else { LamaranStatus::Ditolak },
                        updated_at: now,
                        ..old(self).repo.lamarans()[q]
                    };
                    &&& is_lamaran_resp_of(resp, l)
                    &&& final(self).repo.lamarans() == old(self).repo.lamarans().update(q, l)
                },
                Err(e) => e == PekerjaanError::LamaranNotFound && final(self).repo == old(self).repo,
            },
    {
        match self.repo.review_lamaran(lamaran_id, iklan_owner_id, input.approved, now) {
            Some(l) => Ok(to_lamaran_response(l)),
            None => Err(PekerjaanError::LamaranNotFound),
        }
    }

    /// The applicant starts work. Refused, in this order: when there is no
    /// such application of theirs (`LamaranNotFound`); when its ad is gone;
    /// when the ad has no location or the applicant is more than 50 m away;
    /// when the application is not accepted (`CannotStart`). The
    /// application becomes running and an available ad in progress.
    pub fn mulai_bekerja(&mut self, pelamar_id: u128, lamaran_id: u128, geofence: GeofenceCheck, now: i64) -> (r: Result<LamaranResponse, PekerjaanError>)
        requires
            old(self).repo.wf(),
        ensures
            final(self).repo.wf(),
            final(self).repo.ads.log() == old(self).repo.ads.log(),
            match r {
                Ok(resp) => {
                    let q = pos_of(old(self).repo.lamarans(), lamaran_id);
                    let l = Lamaran { status: LamaranStatus::Proses, updated_at: now, ..old(self).repo.lamarans()[q] };
                    &&& mulai_refusal(old(self).repo.ads.ads(), old(self).repo.lamarans(), pelamar_id, lamaran_id, geofence) is None
                    &&& is_lamaran_resp_of(resp, l)
                    &&& final(self).repo.lamarans() == old(self).repo.lamarans().update(q, l)
                    &&& final(self).repo.ads.ads() == job_moved(old(self).repo.ads.ads(), l.iklan_id, PekerjaanStatus::Tersedia, PekerjaanStatus::SedangDikerjakan, now)
                },
                Err(e) => mulai_refusal(old(self).repo.ads.ads(), old(self).repo.lamarans(), pelamar_id, lamaran_id, geofence) == Some(e)
                    && final(self).repo == old(self).repo,
            },
    {
        let lamaran = match self.repo.find_lamaran_by_id(lamaran_id) {
            Some(l) => l,
            None => { return Err(PekerjaanError::LamaranNotFound); },
        };
        if lamaran.pelamar_id != pelamar_id {
            return Err(PekerjaanError::LamaranNotFound);
        }
        if !self.repo.ads.exists_id(lamaran.iklan_id) {
            return Err(PekerjaanError::IklanNotFound);
        }
        match geofence {
            GeofenceCheck::NoJobLocation => { return Err(PekerjaanError::NoJobLocation); },
            GeofenceCheck::Outside => { return Err(PekerjaanError::OutsideGeofence); },
            GeofenceCheck::Inside => {},
        }
        match self.repo.mulai_bekerja(lamaran_id, pelamar_id, now) {
            Some(l) => Ok(to_lamaran_response(l)),
            None => Err(PekerjaanError::CannotStart),
        }
    }

    /// The applicant marks running work as finished: the application and an
    /// in-progress ad become finished. `CannotFinish` when there is no
    /// running application of theirs.
    pub fn tandai_selesai(&mut self, pelamar_id: u128, lamaran_id: u128, now: i64) -> (r: Result<LamaranResponse, PekerjaanError>)
        requires
            old(self).repo.wf(),
        ensures
            final(self).repo.wf(),
            final(self).repo.ads.log() == old(self).repo.ads.log(),
            r is Ok == pelamar_may_change(old(self).repo.lamarans(), lamaran_id, pelamar_id, LamaranStatus::Proses),
            match r {
                Ok(resp) => {
                    let q = pos_of(old(self).repo.lamarans(), lamaran_id);
                    let l = Lamaran { status: LamaranStatus::Selesai, updated_at: now, ..old(self).repo.lamarans()[q] };
                    &&& is_lamaran_resp_of(resp, l)
                    &&& final(self).repo.lamarans() == old(self).repo.lamarans().update(q, l)
                    &&& final(self).repo.ads.ads() == job_moved(old(self).repo.ads.ads(), l.iklan_id, PekerjaanStatus::SedangDikerjakan, PekerjaanStatus::Selesai, now)
                },
                Err(e) => e == PekerjaanError::CannotFinish && final(self).repo == old(self).repo,
            },
    {
        match self.repo.tandai_selesai(lamaran_id, pelamar_id, now) {
            Some(l) => Ok(to_lamaran_response(l)),
            None => Err(PekerjaanError::CannotFinish),
        }
    }

    /// The ad's owner cancels an accepted application, with a reason, at
    /// least 24 hours before the work starts: it becomes rejected. Refused
    /// when there is no such application (`LamaranNotFound`), when less than
    /// 24 hours remain (`TooLateToCancel`), and when it is not an accepted
    /// application of one of the owner's live ads (`LamaranNotFound`).
    pub fn batalkan_lamaran(&mut self, iklan_owner_id: u128, lamaran_id: u128, input: &BatalkanLamaranInput, now: i64) -> (r: Result<LamaranResponse, PekerjaanError>)
        requires
            old(self).repo.wf(),
        ensures
            final(self).repo.wf(),
            final(self).repo.ads == old(self).repo.ads,
            match r {
                Ok(resp) => {
                    let q = pos_of(old(self).repo.lamarans(), lamaran_id);
                    let l0 = old(self).repo.lamarans()[q];
                    &&& batal_refusal(old(self).repo.ads.ads(), old(self).repo.lamarans(), iklan_owner_id, lamaran_id, now) is None
                    &&& resp.id == l0.id && resp.iklan_id == l0.iklan_id && resp.pelamar_id == l0.pelamar_id
                    &&& resp.tanggal == l0.tanggal && resp.jam_mulai == l0.jam_mulai && resp.jam_akhir == l0.jam_akhir
                    &&& resp.kuota_diambil == l0.kuota_diambil && resp.created_at == l0.created_at
                    &&& resp.status == LamaranStatus::Ditolak
                    &&& opt_view(resp.alasan_batal) == Some(input.alasan@)
                    &&& resp.updated_at == now
                    &&& final(self).repo.lamarans().len() == old(self).repo.lamarans().len()
                    &&& forall|k: int| 0 <= k < old(self).repo.lamarans().len() && k != q ==> #[trigger] final(self).repo.lamarans()[k] == old(self).repo.lamarans()[k]
                    &&& final(self).repo.lamarans()[q].status == LamaranStatus::Ditolak
                    &&& opt_view(final(self).repo.lamarans()[q].alasan_batal) == Some(input.alasan@)
                },
                Err(e) => batal_refusal(old(self).repo.ads.ads(), old(self).repo.lamarans(), iklan_owner_id, lamaran_id, now) == Some(e)
                    && final(self).repo == old(self).repo,
            },
    {
        let lamaran = match self.repo.find_lamaran_by_id(lamaran_id) {
            Some(l) => l,
            None => { return Err(PekerjaanError::LamaranNotFound); },
        };
        let start: i128 = (lamaran.tanggal as i128) * 86400 + (lamaran.jam_mulai as i128);
        if start - (now as i128) < (CANCELLATION_CUTOFF_SECS as i128) {
            return Err(PekerjaanError::TooLateToCancel);
        }
        match self.repo.batalkan_lamaran(lamaran_id, iklan_owner_id, input.alasan.as_str(), now) {
            Some(l) => {
                let resp = to_lamaran_response(l);
                Ok(resp)
            },
            None => Err(PekerjaanError::LamaranNotFound),
        }
    }

    /// The applications for one of the owner's ads, newest first, each with
    /// the applicant's active worker ad from `summaries` (the worker-ad
    /// directory's answer for the applicants). `IklanNotFound` when there is
    /// no such ad or it is not the owner's.
    pub fn list_lamaran_for_iklan(
        &self,
        iklan_owner_id: u128,
        iklan_id: u128,
        summaries: &Vec<crate::clients::IklanPekerjaSummary>,
    ) -> (r: Result<Vec<LamaranWithPelamarResponse>, PekerjaanError>)
        requires
            self.repo.wf(),
        ensures
            r is Ok == (has_key(self.repo.ads.ads(), iklan_id) && self.repo.ads.ads()[pos_of(self.repo.ads.ads(), iklan_id)].poster_id == iklan_owner_id),
            match r {
                Ok(v) => {
                    let items = self.repo.lamarans().filter(lamaran_of_pred(iklan_id));
                    &&& v@.len() == items.len()
                    &&& forall|k: int| 0 <= k < v@.len() ==> is_with_pelamar(#[trigger] v@[k], items[k], summaries@)
                },
                Err(e) => e == PekerjaanError::IklanNotFound,
            },
    {
        let iklan = match self.repo.ads.find_by_id(iklan_id) {
            Some(x) => x,
            None => { return Err(PekerjaanError::IklanNotFound); },
        };
        if iklan.poster_id != iklan_owner_id {
            return Err(PekerjaanError::IklanNotFound);
        }
        let items = self.repo.list_lamaran_for_iklan(iklan_id);
        let mut v: Vec<LamaranWithPelamarResponse> = Vec::new();
        let mut i: usize = 0;
        while i < items.len()
            invariant
                i <= items@.len(),
                v@.len() == i,
                forall|k: int| 0 <= k < i ==> is_with_pelamar(#[trigger] v@[k], items@[k], summaries@),
            decreases items@.len() - i,
        {
            let l = items[i].duplicate();
            let pelamar = l.pelamar_id;
            let mut found: Option<usize> = None;
            let mut j: usize = 0;
            while j < summaries.len()
                invariant
                    j <= summaries@.len(),
                    found matches Some(f) ==> f < j && summaries@[f as int].poster_id == pelamar && forall|k: int|
                        f < k < j ==> (#[trigger] summaries@[k]).poster_id != pelamar,
                    found is None ==> forall|k: int| 0 <= k < j ==> (#[trigger] summaries@[k]).poster_id != pelamar,
                decreases summaries@.len() - j,
            {
                if summaries[j].poster_id == pelamar {
                    found = Some(j);
                }
                j = j + 1;
            }
            let item = match found {
                Some(f) => {
                    let s = &summaries[f];
                    proof {
                        assert(crate::clients::last_summary(summaries@, pelamar, f as int));
                    }
                    LamaranWithPelamarResponse {
                        lamaran: to_lamaran_response(l),
                        pelamar_nama: Some(s.nama.clone()),
                        pelamar_iklan_pekerja_id: Some(s.id),
                        pelamar_keahlian: Some(crate::util::clone_strings(&s.keahlian)),
                        pelamar_foto_url: crate::util::clone_opt_string(&s.foto_url),
                    }
                },
                None => LamaranWithPelamarResponse {
                    lamaran: to_lamaran_response(l),
                    pelamar_nama: None,
                    pelamar_iklan_pekerja_id: None,
                    pelamar_keahlian: None,
                    pelamar_foto_url: None,
                },
            };
            v.push(item);
            i = i + 1;
        }
        Ok(v)
    }

    /// The applicant's applications, newest first, each with the ad it is
    /// for when that ad is still stored.
    pub fn list_lamaran_for_pelamar(&self, pelamar_id: u128) -> (r: Vec<LamaranWithIklanResponse>)
        requires
            self.repo.wf(),
        ensures
            r@.len() == self.repo.lamarans().filter(lamaran_by_pred(pelamar_id)).len(),
            forall|k: int| 0 <= k < r@.len() ==> is_with_iklan(
                #[trigger] r@[k],
                self.repo.lamarans().filter(lamaran_by_pred(pelamar_id))[k],
                self.repo.ads.ads(),
            ),
    {
        let items = self.repo.list_lamaran_for_pelamar(pelamar_id);
        let mut ids: Vec<u128> = Vec::new();
        let mut i: usize = 0;
        while i < items.len()
            invariant
                i <= items@.len(),
                ids@.len() == i,
                forall|k: int| 0 <= k < i ==> #[trigger] ids@[k] == items@[k].iklan_id,
            decreases items@.len() - i,
        {
            ids.push(items[i].iklan_id);
            i = i + 1;
        }
        let found = self.repo.ads.find_by_ids(&ids);
        let mut r: Vec<LamaranWithIklanResponse> = Vec::new();
        let mut i: usize = 0;
        while i < items.len()
            invariant
                i <= items@.len(),
                ids@.len() == items@.len(),
                forall|k: int| 0 <= k < items@.len() ==> #[trigger] ids@[k] == items@[k].iklan_id,
                copies(found@, self.repo.ads.ads().filter(among::<IklanPekerjaan>(ids@))),
                self.repo.wf(),
                r@.len() == i,
                forall|k: int| 0 <= k < i ==> is_with_iklan(#[trigger] r@[k], items@[k], self.repo.ads.ads()),
            decreases items@.len() - i,
        {
            let l = items[i].duplicate();
            let pos = crate::store::find_pos(&found, l.iklan_id);
            proof {
                crate::ad_store::lemma_found_is_stored(self.repo.ads.ads(), ids@, found@, i as int);
            }
            let item = match pos {
                Some(j) => {
                    let x = &found[j];
                    LamaranWithIklanResponse {
                        lamaran: to_lamaran_response(l),
                        iklan_judul: Some(x.judul.clone()),
                        iklan_perusahaan: Some(x.perusahaan.clone()),
                        iklan_gaji_min: x.gaji_min,
                        iklan_gaji_max: x.gaji_max,
                        iklan_tipe: Some(x.tipe.clone()),
                        iklan_lokasi: crate::util::clone_opt_string(&x.lokasi),
                        iklan_poster_id: Some(x.poster_id),
                    }
                },
                None => LamaranWithIklanResponse {
                    lamaran: to_lamaran_response(l),
                    iklan_judul: None,
                    iklan_perusahaan: None,
                    iklan_gaji_min: None,
                    iklan_gaji_max: None,
                    iklan_tipe: None,
                    iklan_lokasi: None,
                    iklan_poster_id: None,
                },
            };
            r.push(item);
            i = i + 1;
        }
        r
    }

}

} // verus!
