use vstd::prelude::*;

use crate::store::Row;
use crate::util::{clone_opt_string, clone_strings};

pub use crate::moderation::{IklanSuspension, ModerationStatus};

verus! {

/// A worker's ad offering their skills.
#[derive(Debug)]
pub struct IklanPekerja {
    pub id: u128,
    pub poster_id: u128,
    pub nama: String,
    pub keahlian: Vec<String>,
    pub deskripsi: String,
    pub lokasi: Option<String>,
    pub region_id: Option<String>,
    pub tarif_min: Option<i64>,
    pub tarif_max: Option<i64>,
    pub jam_kerja: Option<String>,
    pub phone_number: Option<String>,
    pub foto_urls: Vec<String>,
    pub is_active: bool,
    pub moderation_status: ModerationStatus,
    pub deleted_at: Option<i64>,
    pub created_at: i64,
    pub updated_at: i64,
}

impl Row for IklanPekerja {
    open spec fn key(&self) -> u128 {
        self.id
    }

    open spec fn stamp(&self) -> i64 {
        self.created_at
    }

    open spec fn same(&self, o: &Self) -> bool {
        &&& o.id == self.id
        &&& o.poster_id == self.poster_id
        &&& o.nama == self.nama
        &&& o.keahlian@ == self.keahlian@
        &&& o.deskripsi == self.deskripsi
        &&& o.lokasi == self.lokasi
        &&& o.region_id == self.region_id
        &&& o.tarif_min == self.tarif_min
        &&& o.tarif_max == self.tarif_max
        &&& o.jam_kerja == self.jam_kerja
        &&& o.phone_number == self.phone_number
        &&& o.foto_urls@ == self.foto_urls@
        &&& o.is_active == self.is_active
        &&& o.moderation_status == self.moderation_status
        &&& o.deleted_at == self.deleted_at
        &&& o.created_at == self.created_at
        &&& o.updated_at == self.updated_at
    }

    proof fn lemma_same(&self, o: &Self) {
    }

    proof fn lemma_same_trans(&self, o: &Self, o2: &Self) {
    }

    fn row_id(&self) -> (r: u128) {
        self.id
    }

    fn row_created(&self) -> (r: i64) {
        self.created_at
    }

    fn duplicate(&self) -> (r: Self) {
        IklanPekerja {
            id: self.id,
            poster_id: self.poster_id,
            nama: self.nama.clone(),
            keahlian: clone_strings(&self.keahlian),
            deskripsi: self.deskripsi.clone(),
            lokasi: clone_opt_string(&self.lokasi),
            region_id: clone_opt_string(&self.region_id),
            tarif_min: self.tarif_min,
            tarif_max: self.tarif_max,
            jam_kerja: clone_opt_string(&self.jam_kerja),
            phone_number: clone_opt_string(&self.phone_number),
            foto_urls: clone_strings(&self.foto_urls),
            is_active: self.is_active,
            moderation_status: self.moderation_status,
            deleted_at: self.deleted_at,
            created_at: self.created_at,
            updated_at: self.updated_at,
        }
    }
}

impl crate::moderation::Moderated for IklanPekerja {
    open spec fn owner(&self) -> u128 {
        self.poster_id
    }

    open spec fn moderation(&self) -> ModerationStatus {
        self.moderation_status
    }

    open spec fn is_deleted(&self) -> bool {
        self.deleted_at is Some
    }

    open spec fn moderated(&self, m: ModerationStatus, now: i64) -> Self {
        IklanPekerja { moderation_status: m, updated_at: now, ..*self }
    }

    fn owner_id(&self) -> (r: u128) {
        self.poster_id
    }

    fn moderation_of(&self) -> (r: ModerationStatus) {
        self.moderation_status
    }

    fn deleted(&self) -> (r: bool) {
        self.deleted_at.is_some()
    }

    fn set_moderation(&mut self, m: ModerationStatus, now: i64) {
        self.moderation_status = m;
        self.updated_at = now;
    }

    open spec fn soft_deleted(&self, now: i64) -> Self {
        IklanPekerja { deleted_at: Some(now), ..*self }
    }

    fn mark_deleted(&mut self, now: i64) {
        self.deleted_at = Some(now);
    }

    proof fn lemma_soft_deleted(&self, now: i64) {
    }

    proof fn lemma_moderated(&self, m: ModerationStatus, now: i64) {
    }
}

impl crate::ad_store::Titled for IklanPekerja {
    open spec fn title(&self) -> Seq<char> {
        self.nama@
    }

    fn title_str(&self) -> (r: &str) {
        self.nama.as_str()
    }

    proof fn lemma_title_kept(&self, m: ModerationStatus, now: i64) {
    }

    proof fn lemma_same_titled(&self, o: &Self) {
    }
}

} // verus!
