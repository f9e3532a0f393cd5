use vstd::prelude::*;

use super::entity::{IklanPekerja, ModerationStatus};

pub use crate::moderation::{
    AdminListQuery, SuspendEvidenceInput, SuspendInput, SuspendResponse, SuspendResultItem,
};

verus! {

/// Public view of a worker ad.
pub struct IklanPekerjaResponse {
    pub id: u128,
    pub poster_id: u128,
    pub nama: String,
    pub keahlian: Vec<String>,
    pub deskripsi: String,
    pub lokasi: Option<String>,
    pub region_id: Option<String>,
    pub tarif_min: Option<i64>,
    pub tarif_max: Option<i64>,
    pub jam_kerja: Option<String>,
    pub phone_number: Option<String>,
    pub foto_urls: Vec<String>,
    pub is_active: bool,
    pub moderation_status: ModerationStatus,
    pub created_at: i64,
}

/// Admin view of a worker ad, with deletion and update times.
pub struct AdminIklanPekerjaResponse {
    pub id: u128,
    pub poster_id: u128,
    pub nama: String,
    pub keahlian: Vec<String>,
    pub deskripsi: String,
    pub lokasi: Option<String>,
    pub region_id: Option<String>,
    pub tarif_min: Option<i64>,
    pub tarif_max: Option<i64>,
    pub jam_kerja: Option<String>,
    pub phone_number: Option<String>,
    pub foto_urls: Vec<String>,
    pub is_active: bool,
    pub moderation_status: ModerationStatus,
    pub deleted_at: Option<i64>,
    pub created_at: i64,
    pub updated_at: i64,
}

/// Admin detail of a worker ad, with which sensitive documents the poster
/// has on file.
pub struct AdminIklanPekerjaDetailResponse {
    pub iklan: AdminIklanPekerjaResponse,
    pub has_nik: bool,
    pub has_ktp: bool,
    pub has_selfie: bool,
}

/// A new worker ad.
pub struct CreateIklanPekerjaInput {
    pub nama: String,
    pub keahlian: Vec<String>,
    pub deskripsi: String,
    pub lokasi: Option<String>,
    pub region_id: Option<String>,
    pub tarif_min: Option<i64>,
    pub tarif_max: Option<i64>,
    pub jam_kerja: Option<String>,
    pub phone_number: Option<String>,
    pub foto_urls: Option<Vec<String>>,
}

/// A partial update of a worker ad.
pub struct UpdatePekerjaInput {
    pub nama: Option<String>,
    pub keahlian: Option<Vec<String>>,
    pub deskripsi: Option<String>,
    pub lokasi: Option<String>,
    pub region_id: Option<String>,
    pub tarif_min: Option<i64>,
    pub tarif_max: Option<i64>,
    pub jam_kerja: Option<String>,
    pub phone_number: Option<String>,
    pub foto_urls: Option<Vec<String>>,
    pub is_active: Option<bool>,
}

/// Paging of a listing.
pub struct ListQuery {
    pub limit: Option<i64>,
    pub offset: Option<i64>,
}

/// The public view shows the ad's fields as stored.
pub open spec fn is_pekerja_resp_of(r: IklanPekerjaResponse, e: IklanPekerja) -> bool {
    &&& r.id == e.id
    &&& r.poster_id == e.poster_id
    &&& r.nama == e.nama
    &&& r.keahlian@ == e.keahlian@
    &&& r.deskripsi == e.deskripsi
    &&& r.lokasi == e.lokasi
    &&& r.region_id == e.region_id
    &&& r.tarif_min == e.tarif_min
    &&& r.tarif_max == e.tarif_max
    &&& r.jam_kerja == e.jam_kerja
    &&& r.phone_number == e.phone_number
    &&& r.foto_urls@ == e.foto_urls@
    &&& r.is_active == e.is_active
    &&& r.moderation_status == e.moderation_status
    &&& r.created_at == e.created_at
}

/// The admin view shows the ad's fields as stored.
pub open spec fn is_admin_pekerja_resp_of(r: AdminIklanPekerjaResponse, e: IklanPekerja) -> bool {
    &&& r.id == e.id
    &&& r.poster_id == e.poster_id
    &&& r.nama == e.nama
    &&& r.keahlian@ == e.keahlian@
    &&& r.deskripsi == e.deskripsi
    &&& r.lokasi == e.lokasi
    &&& r.region_id == e.region_id
    &&& r.tarif_min == e.tarif_min
    &&& r.tarif_max == e.tarif_max
    &&& r.jam_kerja == e.jam_kerja
    &&& r.phone_number == e.phone_number
    &&& r.foto_urls@ == e.foto_urls@
    &&& r.is_active == e.is_active
    &&& r.moderation_status == e.moderation_status
    &&& r.deleted_at == e.deleted_at
    &&& r.created_at == e.created_at
    &&& r.updated_at == e.updated_at
}

pub fn to_response(e: IklanPekerja) -> (r: IklanPekerjaResponse)
    ensures
        is_pekerja_resp_of(r, e),
{
    IklanPekerjaResponse {
        id: e.id,
        poster_id: e.poster_id,
        nama: e.nama,
        keahlian: e.keahlian,
        deskripsi: e.deskripsi,
        lokasi: e.lokasi,
        region_id: e.region_id,
        tarif_min: e.tarif_min,
        tarif_max: e.tarif_max,
        jam_kerja: e.jam_kerja,
        phone_number: e.phone_number,
        foto_urls: e.foto_urls,
        is_active: e.is_active,
        moderation_status: e.moderation_status,
        created_at: e.created_at,
    }
}

pub fn to_admin_response(e: IklanPekerja) -> (r: AdminIklanPekerjaResponse)
    ensures
        is_admin_pekerja_resp_of(r, e),
{
    AdminIklanPekerjaResponse {
        id: e.id,
        poster_id: e.poster_id,
        nama: e.nama,
        keahlian: e.keahlian,
        deskripsi: e.deskripsi,
        lokasi: e.lokasi,
        region_id: e.region_id,
        tarif_min: e.tarif_min,
        tarif_max: e.tarif_max,
        jam_kerja: e.jam_kerja,
        phone_number: e.phone_number,
        foto_urls: e.foto_urls,
        is_active: e.is_active,
        moderation_status: e.moderation_status,
        deleted_at: e.deleted_at,
        created_at: e.created_at,
        updated_at: e.updated_at,
    }
}

/// Public views of a list of ads, in order.
pub fn to_responses(items: Vec<IklanPekerja>) -> (r: Vec<IklanPekerjaResponse>)
    ensures
        r@.len() == items@.len(),
        forall|k: int| 0 <= k < items@.len() ==> is_pekerja_resp_of(#[trigger] r@[k], items@[k]),
{
    let mut items = items;
    let ghost v0 = items@;
    let mut r: Vec<IklanPekerjaResponse> = Vec::new();
    while items.len() > 0
        invariant
            items@ == v0.take(items@.len() as int),
            r@.len() == v0.len() - items@.len(),
            forall|k: int| 0 <= k < r@.len() ==> is_pekerja_resp_of(#[trigger] r@[k], v0[v0.len() - 1 - k]),
        decreases items@.len(),
    {
        let x = items.pop().unwrap();
        proof {
            assert(items@ =~= v0.take(items@.len() as int));
        }
        r.push(to_response(x));
    }
    let r = crate::store::reversed(r);
    proof {
        assert forall|k: int| 0 <= k < v0.len() implies is_pekerja_resp_of(#[trigger] r@[k], v0[k]) by {
            assert(r@[k] == r@.reverse()[v0.len() - 1 - k]);
        }
    }
    r
}

/// Admin views of a list of ads, in order.
pub fn to_admin_responses(items: Vec<IklanPekerja>) -> (r: Vec<AdminIklanPekerjaResponse>)
    ensures
        r@.len() == items@.len(),
        forall|k: int| 0 <= k < items@.len() ==> is_admin_pekerja_resp_of(#[trigger] r@[k], items@[k]),
{
    let mut items = items;
    let ghost v0 = items@;
    let mut r: Vec<AdminIklanPekerjaResponse> = Vec::new();
    while items.len() > 0
        invariant
            items@ == v0.take(items@.len() as int),
            r@.len() == v0.len() - items@.len(),
            forall|k: int| 0 <= k < r@.len() ==> is_admin_pekerja_resp_of(#[trigger] r@[k], v0[v0.len() - 1 - k]),
        decreases items@.len(),
    {
        let x = items.pop().unwrap();
        proof {
            assert(items@ =~= v0.take(items@.len() as int));
        }
        r.push(to_admin_response(x));
    }
    let r = crate::store::reversed(r);
    proof {
        assert forall|k: int| 0 <= k < v0.len() implies is_admin_pekerja_resp_of(#[trigger] r@[k], v0[k]) by {
            assert(r@[k] == r@.reverse()[v0.len() - 1 - k]);
        }
    }
    r
}

} // verus!
