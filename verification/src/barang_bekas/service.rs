use vstd::prelude::*;

use super::dto::{
    is_admin_resp_of, is_basic_bider_resp, is_resp_of, to_admin_resp, to_admin_resps,
    to_bider_response_basic, to_resp, to_resps, AdminIklanBarangBekasResponse, BiderResponse,
    CreateIklanBarangBekasInput, IklanBarangBekasResponse, ListQuery, SetujuiBiderInput,
    UpdateBarangBekasInput,
};
use super::entity::{AvailabilityStatus, Bider, BiderStatus, IklanBarangBekas, ModerationStatus};
use super::repository::{
    listed_pred, owned_pred, CreateBarangBekasParams, IklanBarangBekasStore, UpdateBarangBekasParams,
};
use crate::moderation::{
    expirable_pred, expire_spec, in_cooldown, is_live, is_suspension_record, live_ids, live_pred, not_suspended_message,
    notice_body, notice_title, opt_view, suspend_spec, suspended_status, suspension_notice, Moderated,
    SuspensionNotice, CSV_MAX, DEFAULT_LIMIT,
};
use super::dto::{AdminListQuery, SuspendInput, SuspendResponse};
use super::repository::{
    admin_order, admin_pred, admin_status, ads_relisted, ads_taken, after_approval, among_pred, approvable,
    bider_by_pred, bider_of_pred, new_bider, pending_pred, withdrawable, AdminListParams,
};
use super::dto::BiderWithIklanResponse;
use crate::remote::{needs_region_check, wants_region_check, RegionCheck};
use super::repository::created_row;
use crate::store::{copies, has_key, lookup_matches, page, pos_of, RepoError, Row};
use crate::text::{clean_text_spec, sanitize, str_eq};

verus! {

/// Why a giveaway-ad request was refused.
#[derive(Debug)]
pub enum BarangBekasError {
    /// The rate limiter refused a new ad.
    TooManyCreates,
    /// The rate limiter refused an edit.
    TooManyUpdates,
    /// The seller had an ad permanently suspended within three days.
    Cooldown,
    /// `jenis_barang` is neither "bekas" nor "baru"; carries the value given.
    InvalidJenisBarang(String),
    /// The region directory does not know the region of a new ad.
    RegionNotFound,
    /// The region directory does not know the region of an edit.
    RegionInvalid,
    /// No such ad, or not the caller's (the two are not told apart).
    NotFound,
    /// The ad is suspended.
    Suspended,
    /// The ad is no longer available for editing.
    NoLongerAvailable,
    /// A user asked to take their own item.
    OwnItem,
    /// The item was already taken.
    ItemTaken,
    /// The user already has a waiting request for the item.
    AlreadyRequested,
    /// No such bider for one of the caller's ads.
    BiderNotFound,
    /// The store refused the operation.
    Repo(RepoError),
}

impl BarangBekasError {
    /// The message the service reports.
    pub open spec fn message(self) -> Seq<char> {
        match self {
            BarangBekasError::TooManyCreates => "terlalu banyak permintaan, coba lagi nanti"@,
            BarangBekasError::TooManyUpdates => "terlalu banyak permintaan"@,
            BarangBekasError::Cooldown => "Anda tidak dapat membuat iklan baru selama 3 hari setelah iklan ditangguhkan secara permanen"@,
            BarangBekasError::InvalidJenisBarang(s) => "jenis_barang harus 'bekas' atau 'baru', bukan: "@ + s@,
            BarangBekasError::RegionNotFound => "region_id tidak ditemukan"@,
            BarangBekasError::RegionInvalid => "region_id tidak valid"@,
            BarangBekasError::NotFound => "tidak ditemukan"@,
            BarangBekasError::Suspended => "iklan sedang ditangguhkan"@,
            BarangBekasError::NoLongerAvailable => "iklan sudah tidak tersedia"@,
            BarangBekasError::OwnItem => "tidak dapat mengambil barang milik sendiri"@,
            BarangBekasError::ItemTaken => "barang sudah tidak tersedia"@,
            BarangBekasError::AlreadyRequested => "Anda sudah mengajukan pengambilan untuk barang ini"@,
            BarangBekasError::BiderNotFound => "bider tidak ditemukan"@,
            BarangBekasError::Repo(e) => e.message(),
        }
    }

    pub fn to_string(&self) -> (r: String)
        ensures
            r@ == self.message(),
    {
        match self {
            BarangBekasError::TooManyCreates => "terlalu banyak permintaan, coba lagi nanti".to_owned(),
            BarangBekasError::TooManyUpdates => "terlalu banyak permintaan".to_owned(),
            BarangBekasError::Cooldown => "Anda tidak dapat membuat iklan baru selama 3 hari setelah iklan ditangguhkan secara permanen".to_owned(),
            BarangBekasError::InvalidJenisBarang(s) => {
                let mut m = "jenis_barang harus 'bekas' atau 'baru', bukan: ".to_owned();
                m.append(s.as_str());
                m
            },
            BarangBekasError::RegionNotFound => "region_id tidak ditemukan".to_owned(),
            BarangBekasError::RegionInvalid => "region_id tidak valid".to_owned(),
            BarangBekasError::NotFound => "tidak ditemukan".to_owned(),
            BarangBekasError::Suspended => "iklan sedang ditangguhkan".to_owned(),
            BarangBekasError::NoLongerAvailable => "iklan sudah tidak tersedia".to_owned(),
            BarangBekasError::OwnItem => "tidak dapat mengambil barang milik sendiri".to_owned(),
            BarangBekasError::ItemTaken => "barang sudah tidak tersedia".to_owned(),
            BarangBekasError::AlreadyRequested => "Anda sudah mengajukan pengambilan untuk barang ini".to_owned(),
            BarangBekasError::BiderNotFound => "bider tidak ditemukan".to_owned(),
            BarangBekasError::Repo(e) => e.to_string(),
        }
    }
}

/// The two kinds of item an ad may offer.
pub open spec fn valid_jenis_barang(s: Seq<char>) -> bool {
    s == "bekas"@ || s == "baru"@
}

/// Whether the kind of item is "bekas" or "baru".
pub fn is_valid_jenis_barang(s: &str) -> (r: bool)
    ensures
        r == valid_jenis_barang(s@),
{
    str_eq(s, "bekas") || str_eq(s, "baru")
}

/// A field-level validation failure of a request body.
pub struct ValidationError {
    pub code: String,
    pub message: String,
}

/// The message of an invalid `jenis_barang` in a request body.
pub open spec fn jenis_barang_message(s: Seq<char>) -> Seq<char> {
    "jenis_barang harus 'bekas' atau 'baru', bukan '"@ + s + "'"@
}

/// Request-body check of `jenis_barang`: only "bekas" and "baru" pass.
pub fn validate_jenis_barang(s: &str) -> (r: Result<(), ValidationError>)
    ensures
        r is Ok == valid_jenis_barang(s@),
        r matches Err(e) ==> e.code@ == "invalid_jenis_barang"@ && e.message@ == jenis_barang_message(s@),
{
    if is_valid_jenis_barang(s) {
        Ok(())
    } else {
        let mut m = "jenis_barang harus 'bekas' atau 'baru', bukan '".to_owned();
        m.append(s);
        m.append("'");
        Err(ValidationError { code: "invalid_jenis_barang".to_owned(), message: m })
    }
}

/// The optional text with `clean_text` applied when present.
pub open spec fn opt_clean(s: Option<String>) -> Option<Seq<char>> {
    match s {
        Some(x) => Some(clean_text_spec(x@)),
        None => None,
    }
}

fn sanitize_opt(s: &Option<String>) -> (r: Option<String>)
    ensures
        crate::moderation::opt_view(r) == opt_clean(*s),
{
    match s {
        Some(x) => Some(sanitize(x.as_str())),
        None => None,
    }
}

/// The row stored for a new ad: sanitized free text, the kind and count as
/// given, no photos when none were given, available and active.
pub open spec fn is_created_from(
    x: IklanBarangBekas,
    seller_id: u128,
    input: CreateIklanBarangBekasInput,
    id: u128,
    now: i64,
) -> bool {
    &&& x.id == id
    &&& x.seller_id == seller_id
    &&& x.judul@ == clean_text_spec(input.judul@)
    &&& x.deskripsi@ == clean_text_spec(input.deskripsi@)
    &&& x.jenis_barang@ == input.jenis_barang@
    &&& x.jumlah == input.jumlah
    &&& x.lokasi_pengambilan@ == clean_text_spec(input.lokasi_pengambilan@)
    &&& crate::moderation::opt_view(x.lokasi) == opt_clean(input.lokasi)
    &&& crate::moderation::opt_view(x.region_id) == crate::moderation::opt_view(input.region_id)
    &&& x.foto_urls@ == match input.foto_urls {
        Some(v) => v@,
        None => Seq::<String>::empty(),
    }
    &&& x.is_active
    &&& x.availability_status == AvailabilityStatus::Tersedia
    &&& x.moderation_status == ModerationStatus::Active
    &&& x.deleted_at is None
    &&& x.created_at == now
    &&& x.updated_at == now
}

/// `after` is `before` with one row inserted.
pub open spec fn one_inserted<T>(before: Seq<T>, after: Seq<T>, x: T) -> bool {
    exists|k: int| 0 <= k <= before.len() && after == before.insert(k, x)
}

/// The listing page a query asks for (default limit 20, offset 0).
pub open spec fn limit_of(q: ListQuery) -> int {
    match q.limit {
        Some(l) => l as int,
        None => DEFAULT_LIMIT as int,
    }
}

pub open spec fn offset_of(q: ListQuery) -> int {
    match q.offset {
        Some(o) => o as int,
        None => 0,
    }
}

/// Responses of a page of ads, in order.
pub open spec fn resps_of(r: Seq<IklanBarangBekasResponse>, items: Seq<IklanBarangBekas>) -> bool {
    r.len() == items.len() && forall|k: int| 0 <= k < r.len() ==> is_resp_of(#[trigger] r[k], items[k])
}

/// Views of copies are views of the originals.
pub proof fn lemma_resps_copies(
    r: Seq<IklanBarangBekasResponse>,
    a: Seq<IklanBarangBekas>,
    b: Seq<IklanBarangBekas>,
)
    requires
        r.len() == a.len(),
        forall|k: int| 0 <= k < r.len() ==> is_resp_of(#[trigger] r[k], a[k]),
        copies(a, b),
    ensures
        resps_of(r, b),
{
    assert forall|k: int| 0 <= k < r.len() implies is_resp_of(#[trigger] r[k], b[k]) by {
        assert(a[k].same(&b[k]));
    }
}

/// Every check of a new ad passes.
pub open spec fn create_allowed(
    repo: IklanBarangBekasStore,
    seller_id: u128,
    input: CreateIklanBarangBekasInput,
    id: u128,
    now: i64,
    rate_allowed: bool,
    region: RegionCheck,
) -> bool {
    &&& rate_allowed
    &&& !in_cooldown(repo.ads(), repo.log(), seller_id, now)
    &&& valid_jenis_barang(input.jenis_barang@)
    &&& !(region == RegionCheck::NotFound && wants_region_check(opt_view(input.region_id)))
    &&& !has_key(repo.ads(), id)
}

/// The error a refused new ad gets: the first check that fails.
pub open spec fn create_refusal(
    repo: IklanBarangBekasStore,
    seller_id: u128,
    input: CreateIklanBarangBekasInput,
    id: u128,
    now: i64,
    rate_allowed: bool,
    region: RegionCheck,
    e: BarangBekasError,
) -> bool {
    if !rate_allowed {
        e == BarangBekasError::TooManyCreates
    } else if in_cooldown(repo.ads(), repo.log(), seller_id, now) {
        e == BarangBekasError::Cooldown
    } else if !valid_jenis_barang(input.jenis_barang@) {
        e matches BarangBekasError::InvalidJenisBarang(s) && s@ == input.jenis_barang@
    } else if region == RegionCheck::NotFound && wants_region_check(opt_view(input.region_id)) {
        e == BarangBekasError::RegionNotFound
    } else {
        has_key(repo.ads(), id) && e == BarangBekasError::Repo(RepoError::DuplicateId)
    }
}

/// The new value of an optional text field: the sanitized input when
/// given, else the stored value.
pub open spec fn edited_text(input: Option<String>, old: Seq<char>) -> Seq<char> {
    match input {
        Some(v) => clean_text_spec(v@),
        None => old,
    }
}

/// The row after an edit: given fields replace stored ones (free text
/// sanitized), the rest stays; stamped as updated at `now`.
pub open spec fn is_updated_from(y: IklanBarangBekas, x: IklanBarangBekas, input: UpdateBarangBekasInput, now: i64) -> bool {
    &&& y.id == x.id
    &&& y.seller_id == x.seller_id
    &&& y.judul@ == edited_text(input.judul, x.judul@)
    &&& y.deskripsi@ == edited_text(input.deskripsi, x.deskripsi@)
    &&& y.jenis_barang@ == match input.jenis_barang {
        Some(v) => v@,
        None => x.jenis_barang@,
    }
    &&& y.jumlah == match input.jumlah {
        Some(v) => v,
        None => x.jumlah,
    }
    &&& y.lokasi_pengambilan@ == edited_text(input.lokasi_pengambilan, x.lokasi_pengambilan@)
    &&& opt_view(y.lokasi) == match input.lokasi {
        Some(v) => Some(clean_text_spec(v@)),
        None => opt_view(x.lokasi),
    }
    &&& opt_view(y.region_id) == match input.region_id {
        Some(v) => Some(v@),
        None => opt_view(x.region_id),
    }
    &&& y.foto_urls@ == match input.foto_urls {
        Some(v) => v@,
        None => x.foto_urls@,
    }
    &&& y.is_active == match input.is_active {
        Some(v) => v,
        None => x.is_active,
    }
    &&& y.availability_status == x.availability_status
    &&& y.moderation_status == x.moderation_status
    &&& y.deleted_at == x.deleted_at
    &&& y.created_at == x.created_at
    &&& y.updated_at == now
}

/// Every check of an edit passes.
pub open spec fn update_allowed(
    ads: Seq<IklanBarangBekas>,
    user_id: u128,
    id: u128,
    input: UpdateBarangBekasInput,
    rate_allowed: bool,
    region: RegionCheck,
) -> bool {
    let x = ads[pos_of(ads, id)];
    &&& rate_allowed
    &&& has_key(ads, id)
    &&& x.seller_id == user_id
    &&& x.moderation_status == ModerationStatus::Active
    &&& x.availability_status == AvailabilityStatus::Tersedia
    &&& !(region == RegionCheck::NotFound && wants_region_check(opt_view(input.region_id)))
    &&& x.deleted_at is None
    &&& jenis_ok(input.jenis_barang)
}

/// A new `jenis_barang`, when given, is "bekas" or "baru" (the store's
/// check on the column).
pub open spec fn jenis_ok(j: Option<String>) -> bool {
    match j {
        Some(s) => valid_jenis_barang(s@),
        None => true,
    }
}

/// The error a refused edit gets: the first check that fails.
pub open spec fn update_refusal(
    ads: Seq<IklanBarangBekas>,
    user_id: u128,
    id: u128,
    input: UpdateBarangBekasInput,
    rate_allowed: bool,
    region: RegionCheck,
) -> BarangBekasError {
    let x = ads[pos_of(ads, id)];
    if !rate_allowed {
        BarangBekasError::TooManyUpdates
    } else if !has_key(ads, id) || x.seller_id != user_id {
        BarangBekasError::NotFound
    } else if x.moderation_status != ModerationStatus::Active {
        BarangBekasError::Suspended
    } else if x.availability_status != AvailabilityStatus::Tersedia {
        BarangBekasError::NoLongerAvailable
    } else if region == RegionCheck::NotFound && wants_region_check(opt_view(input.region_id)) {
        BarangBekasError::RegionInvalid
    } else if x.deleted_at is Some {
        BarangBekasError::NotFound
    } else if !jenis_ok(input.jenis_barang) {
        BarangBekasError::InvalidJenisBarang(input.jenis_barang.unwrap())
    } else {
        BarangBekasError::NotFound
    }
}

/// Admin views of a page of ads, in order.
pub open spec fn admin_resps_of(r: Seq<AdminIklanBarangBekasResponse>, items: Seq<IklanBarangBekas>) -> bool {
    r.len() == items.len() && forall|k: int| 0 <= k < r.len() ==> is_admin_resp_of(#[trigger] r[k], items[k])
}

/// Admin views of copies are views of the originals.
pub proof fn lemma_admin_resps_copies(
    r: Seq<AdminIklanBarangBekasResponse>,
    a: Seq<IklanBarangBekas>,
    b: Seq<IklanBarangBekas>,
)
    requires
        r.len() == a.len(),
        forall|k: int| 0 <= k < r.len() ==> is_admin_resp_of(#[trigger] r[k], a[k]),
        copies(a, b),
    ensures
        admin_resps_of(r, b),
{
    assert forall|k: int| 0 <= k < r.len() implies is_admin_resp_of(#[trigger] r[k], b[k]) by {
        assert(a[k].same(&b[k]));
    }
}

/// The admin listing runs oldest first exactly when `sort_dir` is "asc".
pub open spec fn sort_ascending(sort_dir: Option<String>) -> bool {
    match sort_dir {
        Some(d) => d@ == "asc"@,
        None => false,
    }
}

pub fn is_ascending(sort_dir: &Option<String>) -> (r: bool)
    ensures
        r == sort_ascending(*sort_dir),
{
    match sort_dir {
        Some(d) => str_eq(d.as_str(), "asc"),
        None => false,
    }
}

pub open spec fn admin_limit(q: AdminListQuery) -> int {
    match q.limit {
        Some(l) => l as int,
        None => DEFAULT_LIMIT as int,
    }
}

pub open spec fn admin_offset(q: AdminListQuery) -> int {
    match q.offset {
        Some(o) => o as int,
        None => 0,
    }
}

/// A suspension keeps each ad's identifier, owner and title.
pub proof fn lemma_suspended_keeps_identity(
    ads: Seq<IklanBarangBekas>,
    ids: Seq<u128>,
    m: ModerationStatus,
    now: i64,
    id: u128,
)
    requires
        crate::store::unique_keys(ads),
        is_live(ads, id),
    ensures
        has_key(suspend_spec(ads, ids, m, now), id),
        pos_of(suspend_spec(ads, ids, m, now), id) == pos_of(ads, id),
        suspend_spec(ads, ids, m, now)[pos_of(ads, id)].seller_id == ads[pos_of(ads, id)].seller_id,
        suspend_spec(ads, ids, m, now)[pos_of(ads, id)].judul == ads[pos_of(ads, id)].judul,
{
    let after = suspend_spec(ads, ids, m, now);
    let j = choose|j: int| 0 <= j < ads.len() && ads[j].key() == id && !ads[j].is_deleted();
    assert(after[j].key() == id);
    let p = pos_of(ads, id);
    crate::store::lemma_unique_pos(ads, j, p);
    let q = pos_of(after, id);
    assert(after[q].key() == ads[q].key());
    crate::store::lemma_unique_pos(ads, q, p);
}

/// Every check of a request to take an item passes.
pub open spec fn ambil_allowed(
    ads: Seq<IklanBarangBekas>,
    biders: Seq<Bider>,
    peminat_id: u128,
    iklan_id: u128,
    bider_id: u128,
) -> bool {
    let x = ads[pos_of(ads, iklan_id)];
    &&& has_key(ads, iklan_id)
    &&& x.seller_id != peminat_id
    &&& x.moderation_status == ModerationStatus::Active
    &&& x.availability_status == AvailabilityStatus::Tersedia
    &&& !(exists|j: int| 0 <= j < biders.len() && #[trigger] pending_pred(iklan_id, peminat_id)(biders[j]))
    &&& !has_key(biders, bider_id)
}

/// The error a refused request to take an item gets: the first check
/// that fails.
pub open spec fn ambil_refusal(
    ads: Seq<IklanBarangBekas>,
    biders: Seq<Bider>,
    peminat_id: u128,
    iklan_id: u128,
) -> BarangBekasError {
    let x = ads[pos_of(ads, iklan_id)];
    if !has_key(ads, iklan_id) {
        BarangBekasError::NotFound
    } else if x.seller_id == peminat_id {
        BarangBekasError::OwnItem
    } else if x.moderation_status != ModerationStatus::Active {
        BarangBekasError::Suspended
    } else if x.availability_status != AvailabilityStatus::Tersedia {
        BarangBekasError::ItemTaken
    } else if exists|j: int| 0 <= j < biders.len() && #[trigger] pending_pred(iklan_id, peminat_id)(biders[j]) {
        BarangBekasError::AlreadyRequested
    } else {
        BarangBekasError::Repo(RepoError::DuplicateId)
    }
}

/// A bider of the user with the ad it is for: the ad's fields when an ad
/// with that identifier is stored, else none (and no photos).
pub open spec fn is_bider_with_iklan(r: BiderWithIklanResponse, b: Bider, ads: Seq<IklanBarangBekas>) -> bool {
    let x = ads[pos_of(ads, b.iklan_id)];
    &&& r.id == b.id
    &&& r.iklan_id == b.iklan_id
    &&& r.peminat_id == b.peminat_id
    &&& r.status == b.status
    &&& r.sudah_menghubungi == b.sudah_menghubungi
    &&& r.created_at == b.created_at
    &&& if has_key(ads, b.iklan_id) {
        &&& r.iklan_judul == Some(x.judul)
        &&& r.iklan_deskripsi == Some(x.deskripsi)
        &&& r.iklan_jenis_barang == Some(x.jenis_barang)
        &&& r.iklan_jumlah == Some(x.jumlah)
        &&& r.iklan_lokasi_pengambilan == Some(x.lokasi_pengambilan)
        &&& r.iklan_foto_urls@ == x.foto_urls@
        &&& r.iklan_availability_status == Some(x.availability_status)
    } else {
        &&& r.iklan_judul is None
        &&& r.iklan_deskripsi is None
        &&& r.iklan_jenis_barang is None
        &&& r.iklan_jumlah is None
        &&& r.iklan_lokasi_pengambilan is None
        &&& r.iklan_foto_urls@.len() == 0
        &&& r.iklan_availability_status is None
    }
}

/// In the batch lookup, the ad a listed identifier names is found exactly
/// when it is stored, and what is found is a copy of it.
pub proof fn lemma_found_is_stored(
    ads: Seq<IklanBarangBekas>,
    ids: Seq<u128>,
    found: Seq<IklanBarangBekas>,
    i: int,
)
    requires
        crate::store::unique_keys(ads),
        copies(found, ads.filter(among_pred(ids))),
        0 <= i < ids.len(),
    ensures
        has_key(found, ids[i]) == has_key(ads, ids[i]),
        forall|j: int| 0 <= j < found.len() && found[j].id == ids[i] ==> found[j].same(&ads[pos_of(ads, ids[i])]),
{
    let id = ids[i];
    let flt = ads.filter(among_pred(ids));
    if has_key(ads, id) {
        let p = pos_of(ads, id);
        assert(among_pred(ids)(ads[p]));
        ads.lemma_filter_contains(among_pred(ids), p);
        let m = choose|m: int| 0 <= m < flt.len() && flt[m] == ads[p];
        assert(found[m].same(&flt[m]));
        found[m].lemma_same(&flt[m]);
        flt[m].lemma_same(&found[m]);
        assert(found[m].key() == id);
    }
    assert forall|j: int| 0 <= j < found.len() && found[j].id == ids[i] implies found[j].same(&ads[pos_of(ads, ids[i])]) by {
        assert(found[j].same(&flt[j]));
        found[j].lemma_same(&flt[j]);
        assert(flt.contains(flt[j]));
        ads.lemma_filter_contains_rev(among_pred(ids), flt[j]);
        let q = choose|q: int| 0 <= q < ads.len() && ads[q] == flt[j];
        assert(ads[q].key() == id);
        crate::store::lemma_unique_pos(ads, q, pos_of(ads, id));
    }
    if has_key(found, id) {
        let j = choose|j: int| 0 <= j < found.len() && found[j].key() == id;
        assert(found[j].same(&flt[j]));
        found[j].lemma_same(&flt[j]);
        assert(flt.contains(flt[j]));
        ads.lemma_filter_contains_rev(among_pred(ids), flt[j]);
        let q = choose|q: int| 0 <= q < ads.len() && ads[q] == flt[j];
        assert(ads[q].key() == id);
    }
}

/// The giveaway-ad service over its store.
pub struct IklanBarangBekasService {
    pub repo: IklanBarangBekasStore,
}

impl IklanBarangBekasService {
    pub fn new(repo: IklanBarangBekasStore) -> (r: IklanBarangBekasService)
        ensures
            r.repo == repo,
    {
        IklanBarangBekasService { repo }
    }

    /// The public listing, newest first.
    pub fn list(&self, q: &ListQuery) -> (r: Result<Vec<IklanBarangBekasResponse>, RepoError>)
        ensures
            match r {
                Ok(v) => limit_of(*q) >= 0 && offset_of(*q) >= 0 && resps_of(
                    v@,
                    page(self.repo.ads().filter(listed_pred()), limit_of(*q), offset_of(*q)),
                ),
                Err(e) => (limit_of(*q) < 0 || offset_of(*q) < 0) && e == RepoError::NegativePaging,
            },
    {
        let limit = match q.limit {
            Some(l) => l,
            None => DEFAULT_LIMIT,
        };
        let offset = match q.offset {
            Some(o) => o,
            None => 0,
        };
        match self.repo.list(limit, offset) {
            Ok(items) => {
                let ghost s = items@;
                let v = to_resps(items);
                proof {
                    lemma_resps_copies(v@, s, page(self.repo.ads().filter(listed_pred()), limit as int, offset as int));
                }
                Ok(v)
            },
            Err(e) => Err(e),
        }
    }

    /// "My ads": the seller's ads that are not soft-deleted, whatever their
    /// availability or moderation, newest first.
    pub fn list_my_ads(&self, seller_id: u128, limit: i64, offset: i64) -> (r: Result<
        Vec<IklanBarangBekasResponse>,
        RepoError,
    >)
        ensures
            match r {
                Ok(v) => limit >= 0 && offset >= 0 && resps_of(
                    v@,
                    page(self.repo.ads().filter(owned_pred(seller_id)), limit as int, offset as int),
                ),
                Err(e) => (limit < 0 || offset < 0) && e == RepoError::NegativePaging,
            },
    {
        match self.repo.list_by_seller(seller_id, limit, offset) {
            Ok(items) => {
                let ghost s = items@;
                let v = to_resps(items);
                proof {
                    lemma_resps_copies(v@, s, page(self.repo.ads().filter(owned_pred(seller_id)), limit as int, offset as int));
                }
                Ok(v)
            },
            Err(e) => Err(e),
        }
    }

    /// The ad with the identifier (soft-deleted ones too).
    pub fn get(&self, id: u128) -> (r: Result<IklanBarangBekasResponse, BarangBekasError>)
        requires
            self.repo.wf(),
        ensures
            r is Ok == has_key(self.repo.ads(), id),
            match r {
                Ok(resp) => is_resp_of(resp, self.repo.ads()[pos_of(self.repo.ads(), id)]),
                Err(e) => e == BarangBekasError::NotFound,
            },
    {
        match self.repo.find_by_id(id) {
            Some(x) => {
                let resp = to_resp(x);
                Ok(resp)
            },
            None => Err(BarangBekasError::NotFound),
        }
    }

    /// Whether posting this ad gets as far as the region check: the rate
    /// limiter allowed it, the seller is not in cooldown, `jenis_barang` is
    /// valid, and a region is given. The region directory is asked only then.
    pub fn create_needs_region_check(
        &self,
        seller_id: u128,
        input: &CreateIklanBarangBekasInput,
        now: i64,
        rate_allowed: bool,
    ) -> (r: bool)
        ensures
            r == (rate_allowed && !in_cooldown(self.repo.ads(), self.repo.log(), seller_id, now)
                && valid_jenis_barang(input.jenis_barang@) && wants_region_check(opt_view(input.region_id))),
    {
        rate_allowed && !self.repo.is_poster_in_cooldown(seller_id, now) && is_valid_jenis_barang(
            input.jenis_barang.as_str(),
        ) && needs_region_check(&input.region_id)
    }

    /// Whether editing this ad gets as far as the region check: the rate
    /// limiter allowed it, the ad is the user's own, active and still
    /// available, and a region is given.
    pub fn update_needs_region_check(
        &self,
        user_id: u128,
        id: u128,
        input: &UpdateBarangBekasInput,
        rate_allowed: bool,
    ) -> (r: bool)
        requires
            self.repo.wf(),
        ensures
            r == ({
                let x = self.repo.ads()[pos_of(self.repo.ads(), id)];
                &&& rate_allowed
                &&& has_key(self.repo.ads(), id)
                &&& x.seller_id == user_id
                &&& x.moderation_status == ModerationStatus::Active
                &&& x.availability_status == AvailabilityStatus::Tersedia
                &&& wants_region_check(opt_view(input.region_id))
            }),
    {
        if !rate_allowed {
            return false;
        }
        match self.repo.find_by_id(id) {
            Some(x) => x.seller_id == user_id && x.moderation_status == ModerationStatus::Active
                && x.availability_status == AvailabilityStatus::Tersedia && needs_region_check(&input.region_id),
            None => false,
        }
    }

    /// Posts a new ad. Refused, in this order: when the rate limiter said no;
    /// during the three-day cooldown after a permanent suspension; when
    /// `jenis_barang` is neither "bekas" nor "baru"; when the region
    /// directory does not know the given region; when the identifier is
    /// taken. Free text is stored sanitized.
    pub fn create(
        &mut self,
        seller_id: u128,
        input: CreateIklanBarangBekasInput,
        id: u128,
        now: i64,
        rate_allowed: bool,
        region: RegionCheck,
    ) -> (r: Result<IklanBarangBekasResponse, BarangBekasError>)
        requires
            old(self).repo.wf(),
        ensures
            final(self).repo.wf(),
            final(self).repo.biders() == old(self).repo.biders(),
            final(self).repo.log() == old(self).repo.log(),
            r is Ok == create_allowed(old(self).repo, seller_id, input, id, now, rate_allowed, region),
            match r {
                Ok(resp) => exists|x: IklanBarangBekas|
                    #[trigger] is_created_from(x, seller_id, input, id, now) && is_resp_of(resp, x)
                        && one_inserted(old(self).repo.ads(), final(self).repo.ads(), x),
                Err(e) => create_refusal(old(self).repo, seller_id, input, id, now, rate_allowed, region, e)
                    && final(self).repo == old(self).repo,
            },
    {
        if !rate_allowed {
            return Err(BarangBekasError::TooManyCreates);
        }
        if self.repo.is_poster_in_cooldown(seller_id, now) {
            return Err(BarangBekasError::Cooldown);
        }
        if !is_valid_jenis_barang(input.jenis_barang.as_str()) {
            return Err(BarangBekasError::InvalidJenisBarang(input.jenis_barang));
        }
        let judul = sanitize(input.judul.as_str());
        let deskripsi = sanitize(input.deskripsi.as_str());
        let lokasi_pengambilan = sanitize(input.lokasi_pengambilan.as_str());
        let lokasi = sanitize_opt(&input.lokasi);
        if region == RegionCheck::NotFound && needs_region_check(&input.region_id) {
            return Err(BarangBekasError::RegionNotFound);
        }
        let foto_urls: Vec<String> = match input.foto_urls {
            Some(v) => v,
            None => Vec::new(),
        };
        let p = CreateBarangBekasParams {
            seller_id,
            judul,
            deskripsi,
            jenis_barang: input.jenis_barang,
            jumlah: input.jumlah,
            lokasi_pengambilan,
            lokasi,
            region_id: input.region_id,
            foto_urls,
        };
        let ghost row = created_row(p, id, now);
        match self.repo.create(p, id, now) {
            Ok(x) => {
                let resp = to_resp(x);
                proof {
                    assert(is_created_from(row, seller_id, input, id, now));
                    assert(one_inserted(old(self).repo.ads(), self.repo.ads(), row));
                }
                Ok(resp)
            },
            Err(e) => Err(BarangBekasError::Repo(e)),
        }
    }

    /// Edits the caller's ad. Refused, in this order: when the rate limiter
    /// said no; when there is no such ad or it is not the caller's
    /// (`NotFound`); when it is suspended; when it is no longer available;
    /// when the region directory does not know the new region; when it was
    /// soft-deleted (`NotFound`). Unset fields keep their value; new free
    /// text is stored sanitized.
    pub fn update(
        &mut self,
        user_id: u128,
        id: u128,
        input: UpdateBarangBekasInput,
        now: i64,
        rate_allowed: bool,
        region: RegionCheck,
    ) -> (r: Result<IklanBarangBekasResponse, BarangBekasError>)
        requires
            old(self).repo.wf(),
        ensures
            final(self).repo.wf(),
            final(self).repo.biders() == old(self).repo.biders(),
            final(self).repo.log() == old(self).repo.log(),
            r is Ok == update_allowed(old(self).repo.ads(), user_id, id, input, rate_allowed, region),
            match r {
                Ok(resp) => {
                    let q = pos_of(old(self).repo.ads(), id);
                    exists|y: IklanBarangBekas|
                        #[trigger] is_updated_from(y, old(self).repo.ads()[q], input, now) && is_resp_of(resp, y)
                            && final(self).repo.ads() == old(self).repo.ads().update(q, y)
                },
                Err(e) => e == update_refusal(old(self).repo.ads(), user_id, id, input, rate_allowed, region)
                    && final(self).repo == old(self).repo,
            },
    {
        if !rate_allowed {
            return Err(BarangBekasError::TooManyUpdates);
        }
        let existing = match self.repo.find_by_id(id) {
            Some(x) => x,
            None => { return Err(BarangBekasError::NotFound); },
        };
        if existing.seller_id != user_id {
            return Err(BarangBekasError::NotFound);
        }
        if existing.moderation_status != ModerationStatus::Active {
            return Err(BarangBekasError::Suspended);
        }
        if existing.availability_status != AvailabilityStatus::Tersedia {
            return Err(BarangBekasError::NoLongerAvailable);
        }
        let judul = sanitize_opt(&input.judul);
        let deskripsi = sanitize_opt(&input.deskripsi);
        let lokasi_pengambilan = sanitize_opt(&input.lokasi_pengambilan);
        let lokasi = sanitize_opt(&input.lokasi);
        if region == RegionCheck::NotFound && needs_region_check(&input.region_id) {
            return Err(BarangBekasError::RegionInvalid);
        }
        if existing.deleted_at.is_some() {
            return Err(BarangBekasError::NotFound);
        }
        match &input.jenis_barang {
            Some(j) => {
                if !is_valid_jenis_barang(j.as_str()) {
                    return Err(BarangBekasError::InvalidJenisBarang(j.clone()));
                }
            },
            None => {},
        }
        let p = UpdateBarangBekasParams {
            judul,
            deskripsi,
            jenis_barang: input.jenis_barang,
            jumlah: input.jumlah,
            lokasi_pengambilan,
            lokasi,
            region_id: input.region_id,
            foto_urls: input.foto_urls,
            is_active: input.is_active,
        };
        let ghost q = pos_of(old(self).repo.ads(), id);
        let ghost y = super::repository::updated_row(old(self).repo.ads()[q], p, now);
        match self.repo.update(id, user_id, p, now) {
            Some(x) => {
                let resp = to_resp(x);
                proof {
                    assert(is_updated_from(y, old(self).repo.ads()[q], input, now));
                    assert(is_resp_of(resp, y));
                    assert(self.repo.ads() == old(self).repo.ads().update(q, y));
                }
                Ok(resp)
            },
            None => Err(BarangBekasError::NotFound),
        }
    }

    /// The admin listing: ads in the asked moderation status (default
    /// `active`) that are not soft-deleted, newest first or, with
    /// `sort_dir` "asc", oldest first; one page (default limit 20), with the
    /// number of matching ads (zero when the page is empty).
    pub fn admin_list(&self, query: &AdminListQuery) -> (r: Result<(Vec<AdminIklanBarangBekasResponse>, i64), RepoError>)
        requires
            self.repo.ads().len() <= i64::MAX,
        ensures
            match r {
                Ok((v, total)) => {
                    let all = admin_order(
                        self.repo.ads().filter(admin_pred(admin_status(query.status), opt_view(query.q))),
                        sort_ascending(query.sort_dir),
                    );
                    let pg = page(all, admin_limit(*query), admin_offset(*query));
                    &&& admin_limit(*query) >= 0 && admin_offset(*query) >= 0
                    &&& admin_resps_of(v@, pg)
                    &&& total == if pg.len() == 0 { 0 } else { all.len() as int }
                },
                Err(e) => (admin_limit(*query) < 0 || admin_offset(*query) < 0) && e == RepoError::NegativePaging,
            },
    {
        let params = AdminListParams {
            q: crate::util::clone_opt_string(&query.q),
            moderation_status: crate::util::clone_opt_string(&query.status),
            ascending: is_ascending(&query.sort_dir),
            limit: match query.limit {
                Some(l) => l,
                None => DEFAULT_LIMIT,
            },
            offset: match query.offset {
                Some(o) => o,
                None => 0,
            },
        };
        match self.repo.admin_list(&params) {
            Ok((items, total)) => {
                let ghost s = items@;
                let v = to_admin_resps(items);
                proof {
                    let all = admin_order(
                        self.repo.ads().filter(admin_pred(admin_status(query.status), opt_view(query.q))),
                        sort_ascending(query.sort_dir),
                    );
                    lemma_admin_resps_copies(v@, s, page(all, admin_limit(*query), admin_offset(*query)));
                }
                Ok((v, total))
            },
            Err(e) => Err(e),
        }
    }

    /// The CSV export rows: like the admin listing, newest first, at most
    /// `CSV_MAX` ads.
    pub fn admin_export_csv(&self, query: &AdminListQuery) -> (r: Vec<AdminIklanBarangBekasResponse>)
        ensures
            admin_resps_of(
                r@,
                page(self.repo.ads().filter(admin_pred(admin_status(query.status), opt_view(query.q))), CSV_MAX as int, 0),
            ),
    {
        match self.repo.admin_list_all(&query.q, &query.status, CSV_MAX) {
            Ok(items) => {
                let ghost s = items@;
                let v = to_admin_resps(items);
                proof {
                    lemma_admin_resps_copies(v@, s, page(self.repo.ads().filter(admin_pred(admin_status(query.status), opt_view(query.q))), CSV_MAX as int, 0));
                }
                v
            },
            Err(_) => Vec::new(),
        }
    }

    /// Suspends the listed ads (those that exist and are not soft-deleted),
    /// records one audit entry per suspended ad, answers one outcome per
    /// requested identifier (success exactly for the suspended ones) and
    /// gives the notice for the owner of each suspended ad.
    pub fn suspend(&mut self, admin_id: u128, input: &SuspendInput, now: i64) -> (r: (SuspendResponse, Vec<SuspensionNotice>))
        requires
            old(self).repo.wf(),
        ensures
            final(self).repo.wf(),
            final(self).repo.biders() == old(self).repo.biders(),
            final(self).repo.ads() == suspend_spec(
                old(self).repo.ads(),
                input.iklan_ids@,
                suspended_status(input.is_permanent),
                now,
            ),
            final(self).repo.log().subrange(0, old(self).repo.log().len() as int) == old(self).repo.log(),
            final(self).repo.log().len() == old(self).repo.log().len() + live_ids(old(self).repo.ads(), input.iklan_ids@).len(),
            forall|k: int| 0 <= k < live_ids(old(self).repo.ads(), input.iklan_ids@).len() ==> is_suspension_record(
                #[trigger] final(self).repo.log()[old(self).repo.log().len() + k],
                live_ids(old(self).repo.ads(), input.iklan_ids@)[k],
                input.is_permanent,
                input.reason@,
                Some(input.evidence_object_key@),
                input.expires_at,
                admin_id,
                now,
            ),
            r.0.results@.len() == input.iklan_ids@.len(),
            forall|k: int| 0 <= k < input.iklan_ids@.len() ==> {
                let it = #[trigger] r.0.results@[k];
                &&& it.iklan_id == input.iklan_ids@[k]
                &&& it.success == is_live(old(self).repo.ads(), input.iklan_ids@[k])
                &&& it.success ==> it.error is None
                &&& !it.success ==> opt_view(it.error) == Some(not_suspended_message())
            },
            r.1@.len() == live_ids(old(self).repo.ads(), input.iklan_ids@).len(),
            forall|k: int| 0 <= k < r.1@.len() ==> {
                let id = live_ids(old(self).repo.ads(), input.iklan_ids@)[k];
                let ad = old(self).repo.ads()[pos_of(old(self).repo.ads(), id)];
                &&& (#[trigger] r.1@[k]).owner_id == ad.seller_id
                &&& r.1@[k].iklan_id == id
                &&& r.1@[k].is_permanent == input.is_permanent
                &&& r.1@[k].title@ == notice_title(input.is_permanent)
                &&& r.1@[k].body@ == notice_body(ad.judul@, id, input.reason@)
            },
    {
        let evidence = Some(input.evidence_object_key.clone());
        let ghost a0 = self.repo.ads();
        let ghost ids = input.iklan_ids@;
        let made = self.repo.suspend(
            &input.iklan_ids,
            input.is_permanent,
            input.reason.as_str(),
            &evidence,
            input.expires_at,
            admin_id,
            now,
        );
        let ghost live = live_ids(a0, ids);
        let resp = crate::moderation::suspend_results(&input.iklan_ids, &made);
        proof {
            assert forall|k: int| 0 <= k < ids.len() implies {
                let it = #[trigger] resp.results@[k];
                it.success == is_live(a0, ids[k])
            } by {
                let id = ids[k];
                let it = resp.results@[k];
                assert(crate::moderation::is_result_for(it, id, made@));
                if is_live(a0, id) {
                    ids.lemma_filter_contains(live_pred(a0), k);
                    assert(live.contains(id));
                    let m = choose|m: int| 0 <= m < live.len() && live[m] == id;
                    assert(made@[m].iklan_id == id);
                }
                if it.success {
                    let m = choose|m: int| 0 <= m < made@.len() && #[trigger] made@[m].iklan_id == id;
                    ids.lemma_filter_pred(live_pred(a0), m);
                }
            }
            assert forall|k: int| 0 <= k < live.len() implies is_suspension_record(
                #[trigger] self.repo.log()[old(self).repo.log().len() + k],
                live[k],
                input.is_permanent,
                input.reason@,
                Some(input.evidence_object_key@),
                input.expires_at,
                admin_id,
                now,
            ) by {
                assert(self.repo.log()[old(self).repo.log().len() + k] == made@[k]);
            }
        }
        let mut notices: Vec<SuspensionNotice> = Vec::new();
        let mut i: usize = 0;
        while i < made.len()
            invariant
                i <= made@.len(),
                made@.len() == live.len(),
                live == live_ids(a0, ids),
                forall|k: int| 0 <= k < made@.len() ==> is_suspension_record(
                    #[trigger] made@[k],
                    live[k],
                    input.is_permanent,
                    input.reason@,
                    Some(input.evidence_object_key@),
                    input.expires_at,
                    admin_id,
                    now,
                ),
                self.repo.wf(),
                self.repo.ads() == suspend_spec(a0, ids, suspended_status(input.is_permanent), now),
                crate::store::unique_keys(a0),
                notices@.len() == i,
                forall|k: int| 0 <= k < i ==> {
                    let id = live[k];
                    let ad = a0[pos_of(a0, id)];
                    &&& (#[trigger] notices@[k]).owner_id == ad.seller_id
                    &&& notices@[k].iklan_id == id
                    &&& notices@[k].is_permanent == input.is_permanent
                    &&& notices@[k].title@ == notice_title(input.is_permanent)
                    &&& notices@[k].body@ == notice_body(ad.judul@, id, input.reason@)
                },
            decreases made@.len() - i,
        {
            let s = &made[i];
            let ghost id = live[i as int];
            proof {
                ids.lemma_filter_pred(live_pred(a0), i as int);
                lemma_suspended_keeps_identity(a0, ids, suspended_status(input.is_permanent), now, id);
            }
            match self.repo.find_by_id(s.iklan_id) {
                Some(ad) => {
                    let n = suspension_notice(ad.seller_id, ad.judul.as_str(), s);
                    notices.push(n);
                },
                None => {
                    proof {
                        assert(false);
                    }
                },
            }
            i = i + 1;
        }
        (resp, notices)
    }

    /// Lifts every temporary suspension that has expired by `now`; returns
    /// how many ads became active again.
    pub fn expire_temporary_suspensions(&mut self, now: i64) -> (n: u64)
        requires
            old(self).repo.wf(),
        ensures
            final(self).repo.wf(),
            final(self).repo.biders() == old(self).repo.biders(),
            final(self).repo.log() == old(self).repo.log(),
            final(self).repo.ads() == expire_spec(old(self).repo.ads(), old(self).repo.log(), now),
            n == old(self).repo.ads().filter(expirable_pred::<IklanBarangBekas>(old(self).repo.log(), now)).len(),
    {
        self.repo.expire_temporary_suspensions(now)
    }

    /// A user asks to take an item. Refused, in this order: when there is no
    /// such ad; when it is the user's own; when it is suspended; when it was
    /// already taken; when the user already has a waiting request for it;
    /// when the new identifier is taken. The request starts out waiting.
    pub fn ambil(&mut self, peminat_id: u128, iklan_id: u128, bider_id: u128, now: i64) -> (r: Result<
        BiderResponse,
        BarangBekasError,
    >)
        requires
            old(self).repo.wf(),
        ensures
            final(self).repo.wf(),
            final(self).repo.ads() == old(self).repo.ads(),
            final(self).repo.log() == old(self).repo.log(),
            r is Ok == ambil_allowed(old(self).repo.ads(), old(self).repo.biders(), peminat_id, iklan_id, bider_id),
            match r {
                Ok(resp) => {
                    let b = new_bider(iklan_id, peminat_id, bider_id, now);
                    &&& is_basic_bider_resp(resp, b)
                    &&& one_inserted(old(self).repo.biders(), final(self).repo.biders(), b)
                },
                Err(e) => e == ambil_refusal(old(self).repo.ads(), old(self).repo.biders(), peminat_id, iklan_id)
                    && final(self).repo == old(self).repo,
            },
    {
        let iklan = match self.repo.find_by_id(iklan_id) {
            Some(x) => x,
            None => { return Err(BarangBekasError::NotFound); },
        };
        if iklan.seller_id == peminat_id {
            return Err(BarangBekasError::OwnItem);
        }
        if iklan.moderation_status != ModerationStatus::Active {
            return Err(BarangBekasError::Suspended);
        }
        if iklan.availability_status != AvailabilityStatus::Tersedia {
            return Err(BarangBekasError::ItemTaken);
        }
        if self.repo.has_pending_bider(iklan_id, peminat_id) {
            return Err(BarangBekasError::AlreadyRequested);
        }
        match self.repo.create_bider(iklan_id, peminat_id, bider_id, now) {
            Ok(b) => Ok(to_bider_response_basic(b)),
            Err(e) => Err(BarangBekasError::Repo(e)),
        }
    }

    /// The biders of one of the owner's ads, newest first, without the
    /// interested users' names or areas (see `enrich_biders`). `NotFound`
    /// when there is no such ad or it is not the owner's.
    pub fn list_bider(&self, owner_id: u128, iklan_id: u128) -> (r: Result<Vec<BiderResponse>, BarangBekasError>)
        requires
            self.repo.wf(),
        ensures
            r is Ok == (has_key(self.repo.ads(), iklan_id) && self.repo.ads()[pos_of(self.repo.ads(), iklan_id)].seller_id
                == owner_id),
            match r {
                Ok(v) => {
                    let items = self.repo.biders().filter(bider_of_pred(iklan_id));
                    &&& v@.len() == items.len()
                    &&& forall|k: int| 0 <= k < v@.len() ==> is_basic_bider_resp(#[trigger] v@[k], items[k])
                },
                Err(e) => e == BarangBekasError::NotFound,
            },
    {
        let iklan = match self.repo.find_by_id(iklan_id) {
            Some(x) => x,
            None => { return Err(BarangBekasError::NotFound); },
        };
        if iklan.seller_id != owner_id {
            return Err(BarangBekasError::NotFound);
        }
        let items = self.repo.list_bider_for_iklan(iklan_id);
        let mut v: Vec<BiderResponse> = Vec::new();
        let mut i: usize = 0;
        while i < items.len()
            invariant
                i <= items@.len(),
                v@.len() == i,
                forall|k: int| 0 <= k < i ==> is_basic_bider_resp(#[trigger] v@[k], items@[k]),
            decreases items@.len() - i,
        {
            v.push(to_bider_response_basic(items[i]));
            i = i + 1;
        }
        Ok(v)
    }

    /// The owner approves a waiting bider of one of their live ads: it
    /// becomes approved, the ad is taken, and the ad's other waiting biders
    /// are withdrawn. `BiderNotFound` when there is no such bider.
    pub fn setujui_bider(&mut self, owner_id: u128, bider_id: u128, input: &SetujuiBiderInput, now: i64) -> (r: Result<
        BiderResponse,
        BarangBekasError,
    >)
        requires
            old(self).repo.wf(),
        ensures
            final(self).repo.wf(),
            final(self).repo.log() == old(self).repo.log(),
            r is Ok == approvable(old(self).repo.ads(), old(self).repo.biders(), bider_id, owner_id),
            match r {
                Ok(resp) => {
                    let old_b = old(self).repo.biders()[pos_of(old(self).repo.biders(), bider_id)];
                    &&& is_basic_bider_resp(
                        resp,
                        Bider { status: BiderStatus::Disetujui, sudah_menghubungi: input.sudah_menghubungi, updated_at: now, ..old_b },
                    )
                    &&& final(self).repo.biders() == after_approval(
                        old(self).repo.biders(),
                        bider_id,
                        old_b.iklan_id,
                        input.sudah_menghubungi,
                        now,
                    )
                    &&& final(self).repo.ads() == ads_taken(old(self).repo.ads(), old_b.iklan_id, now)
                },
                Err(e) => e == BarangBekasError::BiderNotFound && final(self).repo == old(self).repo,
            },
    {
        match self.repo.setujui_bider(bider_id, owner_id, input.sudah_menghubungi, now) {
            Some(b) => Ok(to_bider_response_basic(b)),
            None => Err(BarangBekasError::BiderNotFound),
        }
    }

    /// The owner withdraws a waiting or approved bider of one of their live
    /// ads; withdrawing an approved one makes the ad available again.
    /// `BiderNotFound` when there is no such bider.
    pub fn withdraw_bider(&mut self, owner_id: u128, bider_id: u128, now: i64) -> (r: Result<BiderResponse, BarangBekasError>)
        requires
            old(self).repo.wf(),
        ensures
            final(self).repo.wf(),
            final(self).repo.log() == old(self).repo.log(),
            r is Ok == withdrawable(old(self).repo.ads(), old(self).repo.biders(), bider_id, owner_id),
            match r {
                Ok(resp) => {
                    let q = pos_of(old(self).repo.biders(), bider_id);
                    let old_b = old(self).repo.biders()[q];
                    let b = Bider { status: BiderStatus::Withdrawn, updated_at: now, ..old_b };
                    &&& is_basic_bider_resp(resp, b)
                    &&& final(self).repo.biders() == old(self).repo.biders().update(q, b)
                    &&& final(self).repo.ads() == if old_b.status == BiderStatus::Disetujui {
                        ads_relisted(old(self).repo.ads(), old_b.iklan_id, now)
                    } else {
                        old(self).repo.ads()
                    }
                },
                Err(e) => e == BarangBekasError::BiderNotFound && final(self).repo == old(self).repo,
            },
    {
        match self.repo.withdraw_bider(bider_id, owner_id, now) {
            Some(b) => Ok(to_bider_response_basic(b)),
            None => Err(BarangBekasError::BiderNotFound),
        }
    }

    /// "My requests": the user's biders, newest first, each with the ad it
    /// is for when that ad is still stored.
    pub fn list_bider_saya(&self, peminat_id: u128) -> (r: Vec<BiderWithIklanResponse>)
        requires
            self.repo.wf(),
        ensures
            r@.len() == self.repo.biders().filter(bider_by_pred(peminat_id)).len(),
            forall|k: int| 0 <= k < r@.len() ==> is_bider_with_iklan(
                #[trigger] r@[k],
                self.repo.biders().filter(bider_by_pred(peminat_id))[k],
                self.repo.ads(),
            ),
    {
        let items = self.repo.list_bider_for_peminat(peminat_id);
        let mut ids: Vec<u128> = Vec::new();
        let mut i: usize = 0;
        while i < items.len()
            invariant
                i <= items@.len(),
                ids@.len() == i,
                forall|k: int| 0 <= k < i ==> #[trigger] ids@[k] == items@[k].iklan_id,
            decreases items@.len() - i,
        {
            ids.push(items[i].iklan_id);
            i = i + 1;
        }
        let found = self.repo.find_by_ids(&ids);
        let mut r: Vec<BiderWithIklanResponse> = Vec::new();
        let mut i: usize = 0;
        while i < items.len()
            invariant
                i <= items@.len(),
                ids@.len() == items@.len(),
                forall|k: int| 0 <= k < items@.len() ==> #[trigger] ids@[k] == items@[k].iklan_id,
                copies(found@, self.repo.ads().filter(among_pred(ids@))),
                self.repo.wf(),
                r@.len() == i,
                forall|k: int| 0 <= k < i ==> is_bider_with_iklan(#[trigger] r@[k], items@[k], self.repo.ads()),
            decreases items@.len() - i,
        {
            let b = items[i];
            let ad = crate::store::find_pos(&found, b.iklan_id);
            proof {
                lemma_found_is_stored(self.repo.ads(), ids@, found@, i as int);
            }
            let item = match ad {
                Some(j) => {
                    let x = &found[j];
                    BiderWithIklanResponse {
                        id: b.id,
                        iklan_id: b.iklan_id,
                        peminat_id: b.peminat_id,
                        status: b.status,
                        sudah_menghubungi: b.sudah_menghubungi,
                        created_at: b.created_at,
                        iklan_judul: Some(x.judul.clone()),
                        iklan_deskripsi: Some(x.deskripsi.clone()),
                        iklan_jenis_barang: Some(x.jenis_barang.clone()),
                        iklan_jumlah: Some(x.jumlah),
                        iklan_lokasi_pengambilan: Some(x.lokasi_pengambilan.clone()),
                        iklan_foto_urls: crate::util::clone_strings(&x.foto_urls),
                        iklan_availability_status: Some(x.availability_status),
                    }
                },
                None => BiderWithIklanResponse {
                    id: b.id,
                    iklan_id: b.iklan_id,
                    peminat_id: b.peminat_id,
                    status: b.status,
                    sudah_menghubungi: b.sudah_menghubungi,
                    created_at: b.created_at,
                    iklan_judul: None,
                    iklan_deskripsi: None,
                    iklan_jenis_barang: None,
                    iklan_jumlah: None,
                    iklan_lokasi_pengambilan: None,
                    iklan_foto_urls: Vec::new(),
                    iklan_availability_status: None,
                },
            };
            r.push(item);
            i = i + 1;
        }
        r
    }

    /// Marks the seller's available ad as taken; false when there is none
    /// (also when it was already taken).
    pub fn mark_taken(&mut self, id: u128, seller_id: u128, now: i64) -> (r: bool)
        requires
            old(self).repo.wf(),
        ensures
            final(self).repo.wf(),
            final(self).repo.biders() == old(self).repo.biders(),
            final(self).repo.log() == old(self).repo.log(),
            r == super::repository::can_mark_taken(old(self).repo.ads(), id, seller_id),
            r ==> final(self).repo.ads() == old(self).repo.ads().update(
                pos_of(old(self).repo.ads(), id),
                super::repository::taken_row(old(self).repo.ads()[pos_of(old(self).repo.ads(), id)], now),
            ),
            !r ==> final(self).repo.ads() == old(self).repo.ads(),
    {
        self.repo.mark_taken(id, seller_id, now)
    }

    /// Removes the seller's ad; false when the seller has no ad with the
    /// identifier.
    pub fn delete(&mut self, id: u128, seller_id: u128) -> (r: bool)
        requires
            old(self).repo.wf(),
        ensures
            final(self).repo.wf(),
            final(self).repo.biders() == old(self).repo.biders(),
            final(self).repo.log() == old(self).repo.log(),
            r == (has_key(old(self).repo.ads(), id) && old(self).repo.ads()[pos_of(old(self).repo.ads(), id)].seller_id
                == seller_id),
            r ==> final(self).repo.ads() == old(self).repo.ads().remove(pos_of(old(self).repo.ads(), id)),
            !r ==> final(self).repo.ads() == old(self).repo.ads(),
    {
        self.repo.delete(id, seller_id)
    }
}

} // verus!

verus! {

/// What the user directory says of an interested user (its coordinates
/// stay with the caller, which computes distances).
pub struct PeminatLocation {
    pub auth_id: u128,
    pub username: String,
    pub village_id: Option<String>,
    pub district_id: Option<String>,
}

/// The name the region directory gives a region identifier.
pub struct RegionName {
    pub id: String,
    pub name: String,
}

/// Some location names the region (as village or district).
pub open spec fn mentions_region(locs: Seq<PeminatLocation>, id: Seq<char>) -> bool {
    exists|j: int|
        0 <= j < locs.len() && (opt_view(#[trigger] locs[j].village_id) == Some(id) || opt_view(
            locs[j].district_id,
        ) == Some(id))
}

/// One of the first `i` locations names the region.
pub open spec fn mentioned_before(locs: Seq<PeminatLocation>, i: int, id: Seq<char>) -> bool {
    exists|j: int|
        0 <= j < i && (opt_view(#[trigger] locs[j].village_id) == Some(id) || opt_view(locs[j].district_id)
            == Some(id))
}

fn push_if_absent(ids: &mut Vec<String>, id: &String)
    ensures
        final(ids)@.len() >= old(ids)@.len(),
        forall|k: int| 0 <= k < old(ids)@.len() ==> final(ids)@[k] == old(ids)@[k],
        (exists|k: int| 0 <= k < old(ids)@.len() && old(ids)@[k]@ == id@) ==> final(ids)@ == old(ids)@,
        !(exists|k: int| 0 <= k < old(ids)@.len() && old(ids)@[k]@ == id@) ==> final(ids)@.len() == old(ids)@.len() + 1
            && final(ids)@.last()@ == id@,
{
    let mut k: usize = 0;
    while k < ids.len()
        invariant
            k <= ids@.len(),
            forall|x: int| 0 <= x < k ==> ids@[x]@ != id@,
        decreases ids@.len() - k,
    {
        if str_eq(ids[k].as_str(), id.as_str()) {
            return;
        }
        k = k + 1;
    }
    ids.push(id.clone());
}

/// The region identifiers the locations mention, each once, so that each
/// is looked up once however many users share it.
pub fn unique_region_ids(locs: &Vec<PeminatLocation>) -> (r: Vec<String>)
    ensures
        forall|a: int, b: int| 0 <= a < b < r@.len() ==> r@[a]@ != r@[b]@,
        forall|a: int| 0 <= a < r@.len() ==> mentions_region(locs@, #[trigger] r@[a]@),
        forall|id: Seq<char>| mentions_region(locs@, id) ==> exists|a: int| 0 <= a < r@.len() && #[trigger] r@[a]@ == id,
{
    let mut r: Vec<String> = Vec::new();
    let mut i: usize = 0;
    while i < locs.len()
        invariant
            i <= locs@.len(),
            forall|a: int, b: int| 0 <= a < b < r@.len() ==> r@[a]@ != r@[b]@,
            forall|a: int| 0 <= a < r@.len() ==> mentions_region(locs@, #[trigger] r@[a]@),
            forall|id: Seq<char>|
                #[trigger] mentioned_before(locs@, i as int, id) ==> exists|a: int| 0 <= a < r@.len() && #[trigger] r@[a]@ == id,
        decreases locs@.len() - i,
    {
        let ghost r0 = r@;
        let loc = &locs[i];
        match &loc.village_id {
            Some(v) => {
                push_if_absent(&mut r, v);
                proof {
                    assert(mentions_region(locs@, v@)) by {
                        assert(opt_view(locs@[i as int].village_id) == Some(v@));
                    }
                    if r@.len() > r0.len() {
                        assert(r@[r@.len() - 1]@ == v@);
                    }
                }
            },
            None => {},
        }
        let ghost r1 = r@;
        match &loc.district_id {
            Some(d) => {
                push_if_absent(&mut r, d);
                proof {
                    assert(mentions_region(locs@, d@)) by {
                        assert(opt_view(locs@[i as int].district_id) == Some(d@));
                    }
                    if r@.len() > r1.len() {
                        assert(r@[r@.len() - 1]@ == d@);
                    }
                }
            },
            None => {},
        }
        proof {
            assert forall|id: Seq<char>|
                #[trigger] mentioned_before(locs@, i + 1, id) implies exists|a: int| 0 <= a < r@.len() && #[trigger] r@[a]@ == id by {
                let j = choose|j: int|
                    0 <= j < i + 1 && (opt_view(#[trigger] locs@[j].village_id) == Some(id) || opt_view(
                        locs@[j].district_id,
                    ) == Some(id));
                if j < i {
                    assert(mentioned_before(locs@, i as int, id));
                    let a = choose|a: int| 0 <= a < r0.len() && #[trigger] r0[a]@ == id;
                    assert(r@[a] == r0[a]);
                } else if opt_view(locs@[j].village_id) == Some(id) {
                    if exists|a: int| 0 <= a < r0.len() && #[trigger] r0[a]@ == id {
                        let a = choose|a: int| 0 <= a < r0.len() && #[trigger] r0[a]@ == id;
                        assert(r@[a] == r0[a]);
                    } else {
                        assert(r1[r0.len() as int]@ == id);
                        assert(r@[r0.len() as int] == r1[r0.len() as int]);
                    }
                } else {
                    if exists|a: int| 0 <= a < r1.len() && #[trigger] r1[a]@ == id {
                        let a = choose|a: int| 0 <= a < r1.len() && #[trigger] r1[a]@ == id;
                        assert(r@[a] == r1[a]);
                    } else {
                        assert(r@[r1.len() as int]@ == id);
                    }
                }
            }
        }
        i = i + 1;
    }
    proof {
        assert forall|id: Seq<char>| mentions_region(locs@, id) implies exists|a: int| 0 <= a < r@.len() && #[trigger] r@[a]@ == id by {
            assert(mentioned_before(locs@, locs@.len() as int, id));
        }
    }
    r
}

/// The last location given for the user (later answers replace earlier
/// ones), if any.
pub open spec fn last_loc(locs: Seq<PeminatLocation>, user: u128, j: int) -> bool {
    &&& 0 <= j < locs.len()
    &&& locs[j].auth_id == user
    &&& forall|k: int| j < k < locs.len() ==> (#[trigger] locs[k]).auth_id != user
}

/// The last name given for the region, if any.
pub open spec fn last_name(names: Seq<RegionName>, id: Seq<char>, j: int) -> bool {
    &&& 0 <= j < names.len()
    &&& names[j].id@ == id
    &&& forall|k: int| j < k < names.len() ==> (#[trigger] names[k]).id@ != id
}

/// The name a region gets: the last one given for it, or none.
pub open spec fn region_name_is(names: Seq<RegionName>, id: Option<String>, r: Option<String>) -> bool {
    match id {
        Some(v) => match r {
            Some(n) => exists|j: int| #[trigger] last_name(names, v@, j) && names[j].name@ == n@,
            None => forall|j: int| 0 <= j < names.len() ==> (#[trigger] names[j]).id@ != v@,
        },
        None => r is None,
    }
}

fn find_region_name(names: &Vec<RegionName>, id: &Option<String>) -> (r: Option<String>)
    ensures
        region_name_is(names@, *id, r),
{
    match id {
        Some(v) => {
            let mut found: Option<usize> = None;
            let mut j: usize = 0;
            while j < names.len()
                invariant
                    j <= names@.len(),
                    found matches Some(f) ==> f < j && names@[f as int].id@ == v@ && forall|k: int|
                        f < k < j ==> (#[trigger] names@[k]).id@ != v@,
                    found is None ==> forall|k: int| 0 <= k < j ==> (#[trigger] names@[k]).id@ != v@,
                decreases names@.len() - j,
            {
                if str_eq(names[j].id.as_str(), v.as_str()) {
                    found = Some(j);
                }
                j = j + 1;
            }
            match found {
                Some(f) => {
                    assert(last_name(names@, v@, f as int));
                    Some(names[f].name.clone())
                },
                None => None,
            }
        },
        None => None,
    }
}

/// A bider view filled in from the directories: the user's name and the
/// names of their village and district, from the last location given for
/// them; unchanged otherwise.
pub open spec fn is_enriched(
    r: BiderResponse,
    b: BiderResponse,
    locs: Seq<PeminatLocation>,
    names: Seq<RegionName>,
) -> bool {
    &&& r.id == b.id
    &&& r.iklan_id == b.iklan_id
    &&& r.peminat_id == b.peminat_id
    &&& r.status == b.status
    &&& r.sudah_menghubungi == b.sudah_menghubungi
    &&& r.created_at == b.created_at
    &&& if exists|j: int| 0 <= j < locs.len() && (#[trigger] locs[j]).auth_id == b.peminat_id {
        exists|j: int|
            #[trigger] last_loc(locs, b.peminat_id, j) && opt_view(r.peminat_nama) == Some(locs[j].username@)
                && region_name_is(names, locs[j].village_id, r.kelurahan) && region_name_is(
                names,
                locs[j].district_id,
                r.kecamatan,
            )
    } else {
        r.peminat_nama is None && r.kelurahan is None && r.kecamatan is None
    }
}

/// Fills in each bider's name and area from the user directory's answers
/// and the region names looked up for them.
pub fn enrich_biders(
    items: Vec<BiderResponse>,
    locs: &Vec<PeminatLocation>,
    names: &Vec<RegionName>,
) -> (r: Vec<BiderResponse>)
    ensures
        r@.len() == items@.len(),
        forall|k: int| 0 <= k < r@.len() ==> is_enriched(#[trigger] r@[k], items@[k], locs@, names@),
{
    let mut r: Vec<BiderResponse> = Vec::new();
    let mut i: usize = 0;
    while i < items.len()
        invariant
            i <= items@.len(),
            r@.len() == i,
            forall|k: int| 0 <= k < i ==> is_enriched(#[trigger] r@[k], items@[k], locs@, names@),
        decreases items@.len() - i,
    {
        let b = &items[i];
        let mut found: Option<usize> = None;
        let mut j: usize = 0;
        while j < locs.len()
            invariant
                j <= locs@.len(),
                found matches Some(f) ==> f < j && locs@[f as int].auth_id == b.peminat_id && forall|k: int|
                    f < k < j ==> (#[trigger] locs@[k]).auth_id != b.peminat_id,
                found is None ==> forall|k: int| 0 <= k < j ==> (#[trigger] locs@[k]).auth_id != b.peminat_id,
            decreases locs@.len() - j,
        {
            if locs[j].auth_id == b.peminat_id {
                found = Some(j);
            }
            j = j + 1;
        }
        let e = match found {
            Some(f) => {
                let loc = &locs[f];
                let kel = find_region_name(names, &loc.village_id);
                let kec = find_region_name(names, &loc.district_id);
                proof {
                    assert(last_loc(locs@, b.peminat_id, f as int));
                }
                BiderResponse {
                    id: b.id,
                    iklan_id: b.iklan_id,
                    peminat_id: b.peminat_id,
                    peminat_nama: Some(loc.username.clone()),
                    kelurahan: kel,
                    kecamatan: kec,
                    status: b.status,
                    sudah_menghubungi: b.sudah_menghubungi,
                    created_at: b.created_at,
                }
            },
            None => BiderResponse {
                id: b.id,
                iklan_id: b.iklan_id,
                peminat_id: b.peminat_id,
                peminat_nama: None,
                kelurahan: None,
                kecamatan: None,
                status: b.status,
                sudah_menghubungi: b.sudah_menghubungi,
                created_at: b.created_at,
            },
        };
        r.push(e);
        i = i + 1;
    }
    r
}

} // verus!
