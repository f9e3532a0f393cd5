use vstd::prelude::*;

use super::entity::{IklanPekerjaan, Lamaran, LamaranStatus, ModerationStatus, PekerjaanStatus};

pub use crate::moderation::{
    AdminListQuery, SuspendEvidenceInput, SuspendInput, SuspendResponse, SuspendResultItem,
};

verus! {

/// Public view of a job ad.
pub struct IklanPekerjaanResponse {
    pub id: u128,
    pub poster_id: u128,
    pub judul: String,
    pub perusahaan: String,
    pub deskripsi: String,
    pub lokasi: Option<String>,
    pub region_id: Option<String>,
    pub gaji_min: Option<i64>,
    pub gaji_max: Option<i64>,
    pub tipe: String,
    pub jam_kerja: Option<String>,
    pub foto_urls: Vec<String>,
    pub is_active: bool,
    pub moderation_status: ModerationStatus,
    pub status: PekerjaanStatus,
    pub created_at: i64,
}

/// Admin view of a job ad, with deletion and update times.
pub struct AdminIklanPekerjaanResponse {
    pub id: u128,
    pub poster_id: u128,
    pub judul: String,
    pub perusahaan: String,
    pub deskripsi: String,
    pub lokasi: Option<String>,
    pub region_id: Option<String>,
    pub gaji_min: Option<i64>,
    pub gaji_max: Option<i64>,
    pub tipe: String,
    pub jam_kerja: Option<String>,
    pub foto_urls: Vec<String>,
    pub is_active: bool,
    pub moderation_status: ModerationStatus,
    pub status: PekerjaanStatus,
    pub deleted_at: Option<i64>,
    pub created_at: i64,
    pub updated_at: i64,
}

/// An application as stored.
pub struct LamaranResponse {
    pub id: u128,
    pub iklan_id: u128,
    pub pelamar_id: u128,
    pub status: LamaranStatus,
    pub tanggal: i64,
    pub jam_mulai: u32,
    pub jam_akhir: u32,
    pub kuota_diambil: i32,
    pub alasan_batal: Option<String>,
    pub created_at: i64,
    pub updated_at: i64,
}

/// An application as the ad's owner sees it, with the applicant's active
/// worker ad when there is one.
pub struct LamaranWithPelamarResponse {
    pub lamaran: LamaranResponse,
    pub pelamar_nama: Option<String>,
    pub pelamar_iklan_pekerja_id: Option<u128>,
    pub pelamar_keahlian: Option<Vec<String>>,
    pub pelamar_foto_url: Option<String>,
}

/// An application as the applicant sees it, with the ad it is for.
pub struct LamaranWithIklanResponse {
    pub lamaran: LamaranResponse,
    pub iklan_judul: Option<String>,
    pub iklan_perusahaan: Option<String>,
    pub iklan_gaji_min: Option<i64>,
    pub iklan_gaji_max: Option<i64>,
    pub iklan_tipe: Option<String>,
    pub iklan_lokasi: Option<String>,
    pub iklan_poster_id: Option<u128>,
}

/// An application: the day (days since 1970-01-01), the hours (seconds
/// since midnight) and the worker slots (default 1).
pub struct LamarInput {
    pub tanggal: i64,
    pub jam_mulai: u32,
    pub jam_akhir: u32,
    pub kuota_diambil: Option<i32>,
}

pub struct ReviewLamaranInput {
    pub approved: bool,
}

pub struct BatalkanLamaranInput {
    pub alasan: String,
}

/// A new job ad.
pub struct CreateIklanPekerjaanInput {
    pub judul: String,
    pub perusahaan: String,
    pub deskripsi: String,
    pub lokasi: Option<String>,
    pub region_id: Option<String>,
    pub gaji_min: Option<i64>,
    pub gaji_max: Option<i64>,
    pub tipe: String,
    pub jam_kerja: Option<String>,
    pub foto_urls: Option<Vec<String>>,
}

/// A partial update of a job ad.
pub struct UpdatePekerjaanInput {
    pub judul: Option<String>,
    pub perusahaan: Option<String>,
    pub deskripsi: Option<String>,
    pub lokasi: Option<String>,
    pub region_id: Option<String>,
    pub gaji_min: Option<i64>,
    pub gaji_max: Option<i64>,
    pub tipe: Option<String>,
    pub jam_kerja: Option<String>,
    pub foto_urls: Option<Vec<String>>,
    pub is_active: Option<bool>,
}

/// Paging of a listing.
pub struct ListQuery {
    pub limit: Option<i64>,
    pub offset: Option<i64>,
}

/// The public view shows the ad's fields as stored.
pub open spec fn is_job_resp_of(r: IklanPekerjaanResponse, e: IklanPekerjaan) -> bool {
    &&& r.id == e.id
    &&& r.poster_id == e.poster_id
    &&& r.judul == e.judul
    &&& r.perusahaan == e.perusahaan
    &&& r.deskripsi == e.deskripsi
    &&& r.lokasi == e.lokasi
    &&& r.region_id == e.region_id
    &&& r.gaji_min == e.gaji_min
    &&& r.gaji_max == e.gaji_max
    &&& r.tipe == e.tipe
    &&& r.jam_kerja == e.jam_kerja
    &&& r.foto_urls@ == e.foto_urls@
    &&& r.is_active == e.is_active
    &&& r.moderation_status == e.moderation_status
    &&& r.status == e.status
    &&& r.created_at == e.created_at
}

/// The admin view shows the ad's fields as stored.
pub open spec fn is_admin_job_resp_of(r: AdminIklanPekerjaanResponse, e: IklanPekerjaan) -> bool {
    &&& r.id == e.id
    &&& r.poster_id == e.poster_id
    &&& r.judul == e.judul
    &&& r.perusahaan == e.perusahaan
    &&& r.deskripsi == e.deskripsi
    &&& r.lokasi == e.lokasi
    &&& r.region_id == e.region_id
    &&& r.gaji_min == e.gaji_min
    &&& r.gaji_max == e.gaji_max
    &&& r.tipe == e.tipe
    &&& r.jam_kerja == e.jam_kerja
    &&& r.foto_urls@ == e.foto_urls@
    &&& r.is_active == e.is_active
    &&& r.moderation_status == e.moderation_status
    &&& r.status == e.status
    &&& r.deleted_at == e.deleted_at
    &&& r.created_at == e.created_at
    &&& r.updated_at == e.updated_at
}

/// The view of an application shows its fields as stored.
pub open spec fn is_lamaran_resp_of(r: LamaranResponse, l: Lamaran) -> bool {
    &&& r.id == l.id
    &&& r.iklan_id == l.iklan_id
    &&& r.pelamar_id == l.pelamar_id
    &&& r.status == l.status
    &&& r.tanggal == l.tanggal
    &&& r.jam_mulai == l.jam_mulai
    &&& r.jam_akhir == l.jam_akhir
    &&& r.kuota_diambil == l.kuota_diambil
    &&& r.alasan_batal == l.alasan_batal
    &&& r.created_at == l.created_at
    &&& r.updated_at == l.updated_at
}

pub fn to_response(e: IklanPekerjaan) -> (r: IklanPekerjaanResponse)
    ensures
        is_job_resp_of(r, e),
{
    IklanPekerjaanResponse {
        id: e.id,
        poster_id: e.poster_id,
        judul: e.judul,
        perusahaan: e.perusahaan,
        deskripsi: e.deskripsi,
        lokasi: e.lokasi,
        region_id: e.region_id,
        gaji_min: e.gaji_min,
        gaji_max: e.gaji_max,
        tipe: e.tipe,
        jam_kerja: e.jam_kerja,
        foto_urls: e.foto_urls,
        is_active: e.is_active,
        moderation_status: e.moderation_status,
        status: e.status,
        created_at: e.created_at,
    }
}

pub fn to_admin_response(e: IklanPekerjaan) -> (r: AdminIklanPekerjaanResponse)
    ensures
        is_admin_job_resp_of(r, e),
{
    AdminIklanPekerjaanResponse {
        id: e.id,
        poster_id: e.poster_id,
        judul: e.judul,
        perusahaan: e.perusahaan,
        deskripsi: e.deskripsi,
        lokasi: e.lokasi,
        region_id: e.region_id,
        gaji_min: e.gaji_min,
        gaji_max: e.gaji_max,
        tipe: e.tipe,
        jam_kerja: e.jam_kerja,
        foto_urls: e.foto_urls,
        is_active: e.is_active,
        moderation_status: e.moderation_status,
        status: e.status,
        deleted_at: e.deleted_at,
        created_at: e.created_at,
        updated_at: e.updated_at,
    }
}

pub fn to_lamaran_response(l: Lamaran) -> (r: LamaranResponse)
    ensures
        is_lamaran_resp_of(r, l),
{
    LamaranResponse {
        id: l.id,
        iklan_id: l.iklan_id,
        pelamar_id: l.pelamar_id,
        status: l.status,
        tanggal: l.tanggal,
        jam_mulai: l.jam_mulai,
        jam_akhir: l.jam_akhir,
        kuota_diambil: l.kuota_diambil,
        alasan_batal: l.alasan_batal,
        created_at: l.created_at,
        updated_at: l.updated_at,
    }
}

/// Public views of a list of ads, in order.
pub fn to_responses(items: Vec<IklanPekerjaan>) -> (r: Vec<IklanPekerjaanResponse>)
    ensures
        r@.len() == items@.len(),
        forall|k: int| 0 <= k < items@.len() ==> is_job_resp_of(#[trigger] r@[k], items@[k]),
{
    let mut items = items;
    let ghost v0 = items@;
    let mut r: Vec<IklanPekerjaanResponse> = Vec::new();
    while items.len() > 0
        invariant
            items@ == v0.take(items@.len() as int),
            r@.len() == v0.len() - items@.len(),
            forall|k: int| 0 <= k < r@.len() ==> is_job_resp_of(#[trigger] r@[k], v0[v0.len() - 1 - k]),
        decreases items@.len(),
    {
        let x = items.pop().unwrap();
        proof {
            assert(items@ =~= v0.take(items@.len() as int));
        }
        r.push(to_response(x));
    }
    let r = crate::store::reversed(r);
    proof {
        assert forall|k: int| 0 <= k < v0.len() implies is_job_resp_of(#[trigger] r@[k], v0[k]) by {
            assert(r@[k] == r@.reverse()[v0.len() - 1 - k]);
        }
    }
    r
}

/// Admin views of a list of ads, in order.
pub fn to_admin_responses(items: Vec<IklanPekerjaan>) -> (r: Vec<AdminIklanPekerjaanResponse>)
    ensures
        r@.len() == items@.len(),
        forall|k: int| 0 <= k < items@.len() ==> is_admin_job_resp_of(#[trigger] r@[k], items@[k]),
{
    let mut items = items;
    let ghost v0 = items@;
    let mut r: Vec<AdminIklanPekerjaanResponse> = Vec::new();
    while items.len() > 0
        invariant
            items@ == v0.take(items@.len() as int),
            r@.len() == v0.len() - items@.len(),
            forall|k: int| 0 <= k < r@.len() ==> is_admin_job_resp_of(#[trigger] r@[k], v0[v0.len() - 1 - k]),
        decreases items@.len(),
    {
        let x = items.pop().unwrap();
        proof {
            assert(items@ =~= v0.take(items@.len() as int));
        }
        r.push(to_admin_response(x));
    }
    let r = crate::store::reversed(r);
    proof {
        assert forall|k: int| 0 <= k < v0.len() implies is_admin_job_resp_of(#[trigger] r@[k], v0[k]) by {
            assert(r@[k] == r@.reverse()[v0.len() - 1 - k]);
        }
    }
    r
}

} // verus!
