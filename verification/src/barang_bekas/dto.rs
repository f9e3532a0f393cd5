use vstd::prelude::*;

use super::entity::{AvailabilityStatus, Bider, BiderStatus, IklanBarangBekas, ModerationStatus};

pub use crate::moderation::{
    AdminListQuery, SuspendEvidenceInput, SuspendInput, SuspendResponse, SuspendResultItem,
};

verus! {

/// Public view of a giveaway ad.
pub struct IklanBarangBekasResponse {
    pub id: u128,
    pub seller_id: u128,
    pub judul: String,
    pub deskripsi: String,
    pub jenis_barang: String,
    pub jumlah: i32,
    pub lokasi_pengambilan: String,
    pub lokasi: Option<String>,
    pub region_id: Option<String>,
    pub foto_urls: Vec<String>,
    pub availability_status: AvailabilityStatus,
    pub moderation_status: ModerationStatus,
    pub created_at: i64,
}

/// Admin view of a giveaway ad, with deletion and update times.
pub struct AdminIklanBarangBekasResponse {
    pub id: u128,
    pub seller_id: u128,
    pub judul: String,
    pub deskripsi: String,
    pub jenis_barang: String,
    pub jumlah: i32,
    pub lokasi_pengambilan: String,
    pub lokasi: Option<String>,
    pub region_id: Option<String>,
    pub foto_urls: Vec<String>,
    pub availability_status: AvailabilityStatus,
    pub moderation_status: ModerationStatus,
    pub deleted_at: Option<i64>,
    pub created_at: i64,
    pub updated_at: i64,
}

/// A new giveaway ad.
pub struct CreateIklanBarangBekasInput {
    pub judul: String,
    pub deskripsi: String,
    /// "bekas" or "baru".
    pub jenis_barang: String,
    pub jumlah: i32,
    pub lokasi_pengambilan: String,
    pub lokasi: Option<String>,
    pub region_id: Option<String>,
    pub foto_urls: Option<Vec<String>>,
}

/// A partial update of a giveaway ad.
pub struct UpdateBarangBekasInput {
    pub judul: Option<String>,
    pub deskripsi: Option<String>,
    pub jenis_barang: Option<String>,
    pub jumlah: Option<i32>,
    pub lokasi_pengambilan: Option<String>,
    pub lokasi: Option<String>,
    pub region_id: Option<String>,
    pub foto_urls: Option<Vec<String>>,
    pub is_active: Option<bool>,
}

/// Paging of a listing.
pub struct ListQuery {
    pub limit: Option<i64>,
    pub offset: Option<i64>,
}

/// Approval of a bider, recording whether the owner already contacted them.
pub struct SetujuiBiderInput {
    pub sudah_menghubungi: bool,
}

/// A bider as shown to the ad's owner; the name and area of the
/// interested user are filled in when known.
pub struct BiderResponse {
    pub id: u128,
    pub iklan_id: u128,
    pub peminat_id: u128,
    pub peminat_nama: Option<String>,
    pub kelurahan: Option<String>,
    pub kecamatan: Option<String>,
    pub status: BiderStatus,
    pub sudah_menghubungi: bool,
    pub created_at: i64,
}

/// A bider of the current user with the ad it is for.
pub struct BiderWithIklanResponse {
    pub id: u128,
    pub iklan_id: u128,
    pub peminat_id: u128,
    pub status: BiderStatus,
    pub sudah_menghubungi: bool,
    pub created_at: i64,
    pub iklan_judul: Option<String>,
    pub iklan_deskripsi: Option<String>,
    pub iklan_jenis_barang: Option<String>,
    pub iklan_jumlah: Option<i32>,
    pub iklan_lokasi_pengambilan: Option<String>,
    pub iklan_foto_urls: Vec<String>,
    pub iklan_availability_status: Option<AvailabilityStatus>,
}

/// The public view shows the ad's fields as stored.
pub open spec fn is_resp_of(r: IklanBarangBekasResponse, e: IklanBarangBekas) -> bool {
    &&& r.id == e.id
    &&& r.seller_id == e.seller_id
    &&& r.judul == e.judul
    &&& r.deskripsi == e.deskripsi
    &&& r.jenis_barang == e.jenis_barang
    &&& r.jumlah == e.jumlah
    &&& r.lokasi_pengambilan == e.lokasi_pengambilan
    &&& r.lokasi == e.lokasi
    &&& r.region_id == e.region_id
    &&& r.foto_urls@ == e.foto_urls@
    &&& r.availability_status == e.availability_status
    &&& r.moderation_status == e.moderation_status
    &&& r.created_at == e.created_at
}

/// The admin view shows the ad's fields as stored.
pub open spec fn is_admin_resp_of(r: AdminIklanBarangBekasResponse, e: IklanBarangBekas) -> bool {
    &&& r.id == e.id
    &&& r.seller_id == e.seller_id
    &&& r.judul == e.judul
    &&& r.deskripsi == e.deskripsi
    &&& r.jenis_barang == e.jenis_barang
    &&& r.jumlah == e.jumlah
    &&& r.lokasi_pengambilan == e.lokasi_pengambilan
    &&& r.lokasi == e.lokasi
    &&& r.region_id == e.region_id
    &&& r.foto_urls@ == e.foto_urls@
    &&& r.availability_status == e.availability_status
    &&& r.moderation_status == e.moderation_status
    &&& r.deleted_at == e.deleted_at
    &&& r.created_at == e.created_at
    &&& r.updated_at == e.updated_at
}

/// The view of a bider with nothing looked up.
pub open spec fn is_basic_bider_resp(r: BiderResponse, b: Bider) -> bool {
    &&& r.id == b.id
    &&& r.iklan_id == b.iklan_id
    &&& r.peminat_id == b.peminat_id
    &&& r.peminat_nama is None
    &&& r.kelurahan is None
    &&& r.kecamatan is None
    &&& r.status == b.status
    &&& r.sudah_menghubungi == b.sudah_menghubungi
    &&& r.created_at == b.created_at
}

pub fn to_resp(e: IklanBarangBekas) -> (r: IklanBarangBekasResponse)
    ensures
        is_resp_of(r, e),
{
    IklanBarangBekasResponse {
        id: e.id,
        seller_id: e.seller_id,
        judul: e.judul,
        deskripsi: e.deskripsi,
        jenis_barang: e.jenis_barang,
        jumlah: e.jumlah,
        lokasi_pengambilan: e.lokasi_pengambilan,
        lokasi: e.lokasi,
        region_id: e.region_id,
        foto_urls: e.foto_urls,
        availability_status: e.availability_status,
        moderation_status: e.moderation_status,
        created_at: e.created_at,
    }
}

pub fn to_admin_resp(e: IklanBarangBekas) -> (r: AdminIklanBarangBekasResponse)
    ensures
        is_admin_resp_of(r, e),
{
    AdminIklanBarangBekasResponse {
        id: e.id,
        seller_id: e.seller_id,
        judul: e.judul,
        deskripsi: e.deskripsi,
        jenis_barang: e.jenis_barang,
        jumlah: e.jumlah,
        lokasi_pengambilan: e.lokasi_pengambilan,
        lokasi: e.lokasi,
        region_id: e.region_id,
        foto_urls: e.foto_urls,
        availability_status: e.availability_status,
        moderation_status: e.moderation_status,
        deleted_at: e.deleted_at,
        created_at: e.created_at,
        updated_at: e.updated_at,
    }
}

/// The view of a bider without the interested user's name or area (the
/// caller already knows who they are).
pub fn to_bider_response_basic(b: Bider) -> (r: BiderResponse)
    ensures
        is_basic_bider_resp(r, b),
{
    BiderResponse {
        id: b.id,
        iklan_id: b.iklan_id,
        peminat_id: b.peminat_id,
        peminat_nama: None,
        kelurahan: None,
        kecamatan: None,
        status: b.status,
        sudah_menghubungi: b.sudah_menghubungi,
        created_at: b.created_at,
    }
}

/// Public views of a list of ads, in order.
pub fn to_resps(items: Vec<IklanBarangBekas>) -> (r: Vec<IklanBarangBekasResponse>)
    ensures
        r@.len() == items@.len(),
        forall|k: int| 0 <= k < items@.len() ==> is_resp_of(#[trigger] r@[k], items@[k]),
{
    let mut items = items;
    let ghost v0 = items@;
    let mut r: Vec<IklanBarangBekasResponse> = Vec::new();
    while items.len() > 0
        invariant
            items@ == v0.take(items@.len() as int),
            r@.len() == v0.len() - items@.len(),
            forall|k: int| 0 <= k < r@.len() ==> is_resp_of(#[trigger] r@[k], v0[v0.len() - 1 - k]),
        decreases items@.len(),
    {
        let x = items.pop().unwrap();
        proof {
            assert(items@ =~= v0.take(items@.len() as int));
        }
        r.push(to_resp(x));
    }
    let r = crate::store::reversed(r);
    proof {
        assert forall|k: int| 0 <= k < v0.len() implies is_resp_of(#[trigger] r@[k], v0[k]) by {
            assert(r@[k] == r@.reverse()[v0.len() - 1 - k]);
        }
    }
    r
}

/// Admin views of a list of ads, in order.
pub fn to_admin_resps(items: Vec<IklanBarangBekas>) -> (r: Vec<AdminIklanBarangBekasResponse>)
    ensures
        r@.len() == items@.len(),
        forall|k: int| 0 <= k < items@.len() ==> is_admin_resp_of(#[trigger] r@[k], items@[k]),
{
    let mut items = items;
    let ghost v0 = items@;
    let mut r: Vec<AdminIklanBarangBekasResponse> = Vec::new();
    while items.len() > 0
        invariant
            items@ == v0.take(items@.len() as int),
            r@.len() == v0.len() - items@.len(),
            forall|k: int| 0 <= k < r@.len() ==> is_admin_resp_of(#[trigger] r@[k], v0[v0.len() - 1 - k]),
        decreases items@.len(),
    {
        let x = items.pop().unwrap();
        proof {
            assert(items@ =~= v0.take(items@.len() as int));
        }
        r.push(to_admin_resp(x));
    }
    let r = crate::store::reversed(r);
    proof {
        assert forall|k: int| 0 <= k < v0.len() implies is_admin_resp_of(#[trigger] r@[k], v0[k]) by {
            assert(r@[k] == r@.reverse()[v0.len() - 1 - k]);
        }
    }
    r
}

} // verus!
