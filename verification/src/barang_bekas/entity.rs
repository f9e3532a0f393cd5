use vstd::prelude::*;

use crate::store::Row;
use crate::text::str_eq;
use crate::util::{clone_opt_string, clone_strings};

pub use crate::moderation::{IklanSuspension, ModerationStatus};

verus! {

/// Availability of a giveaway item, kept apart from its moderation status.
#[derive(Debug, Clone, Copy, PartialEq, Eq, Structural)]
pub enum AvailabilityStatus {
    Tersedia,
    SudahDiambil,
}

impl AvailabilityStatus {
    pub open spec fn name(self) -> Seq<char> {
        match self {
            AvailabilityStatus::Tersedia => seq!['t', 'e', 'r', 's', 'e', 'd', 'i', 'a'],
            AvailabilityStatus::SudahDiambil => seq![
                's', 'u', 'd', 'a', 'h', '_', 'd', 'i', 'a', 'm', 'b', 'i', 'l',
            ],
        }
    }

    pub open spec fn from_name(s: Seq<char>) -> Option<AvailabilityStatus> {
        if s == AvailabilityStatus::Tersedia.name() {
            Some(AvailabilityStatus::Tersedia)
        } else if s == AvailabilityStatus::SudahDiambil.name() {
            Some(AvailabilityStatus::SudahDiambil)
        } else {
            None
        }
    }

    pub fn as_str(&self) -> (r: &'static str)
        ensures
            r@ == self.name(),
    {
        match self {
            AvailabilityStatus::Tersedia => {
                proof {
                    reveal_strlit("tersedia");
                }
                "tersedia"
            },
            AvailabilityStatus::SudahDiambil => {
                proof {
                    reveal_strlit("sudah_diambil");
                }
                "sudah_diambil"
            },
        }
    }

    pub fn parse(s: &str) -> (r: Option<AvailabilityStatus>)
        ensures
            r == AvailabilityStatus::from_name(s@),
    {
        if str_eq(s, AvailabilityStatus::Tersedia.as_str()) {
            Some(AvailabilityStatus::Tersedia)
        } else if str_eq(s, AvailabilityStatus::SudahDiambil.as_str()) {
            Some(AvailabilityStatus::SudahDiambil)
        } else {
            None
        }
    }

    /// The name as an owned string (what `Display` prints).
    pub fn to_string(&self) -> (r: String)
        ensures
            r@ == self.name(),
    {
        self.as_str().to_owned()
    }
}

impl Default for AvailabilityStatus {
    fn default() -> (r: AvailabilityStatus)
        ensures
            r == AvailabilityStatus::Tersedia,
    {
        AvailabilityStatus::Tersedia
    }
}

/// Parsing an availability's own name gives it back.
pub proof fn lemma_availability_name_roundtrip(a: AvailabilityStatus)
    ensures
        AvailabilityStatus::from_name(a.name()) == Some(a),
{
    assert(AvailabilityStatus::Tersedia.name().len() != AvailabilityStatus::SudahDiambil.name().len());
}

/// State of a request to take an item ("bider").
#[derive(Debug, Clone, Copy, PartialEq, Eq, Structural)]
pub enum BiderStatus {
    Menunggu,
    Disetujui,
    Withdrawn,
}

impl BiderStatus {
    pub open spec fn name(self) -> Seq<char> {
        match self {
            BiderStatus::Menunggu => seq!['m', 'e', 'n', 'u', 'n', 'g', 'g', 'u'],
            BiderStatus::Disetujui => seq!['d', 'i', 's', 'e', 't', 'u', 'j', 'u', 'i'],
            BiderStatus::Withdrawn => seq!['w', 'i', 't', 'h', 'd', 'r', 'a', 'w', 'n'],
        }
    }

    pub open spec fn from_name(s: Seq<char>) -> Option<BiderStatus> {
        if s == BiderStatus::Menunggu.name() {
            Some(BiderStatus::Menunggu)
        } else if s == BiderStatus::Disetujui.name() {
            Some(BiderStatus::Disetujui)
        } else if s == BiderStatus::Withdrawn.name() {
            Some(BiderStatus::Withdrawn)
        } else {
            None
        }
    }

    pub fn as_str(&self) -> (r: &'static str)
        ensures
            r@ == self.name(),
    {
        match self {
            BiderStatus::Menunggu => {
                proof {
                    reveal_strlit("menunggu");
                }
                "menunggu"
            },
            BiderStatus::Disetujui => {
                proof {
                    reveal_strlit("disetujui");
                }
                "disetujui"
            },
            BiderStatus::Withdrawn => {
                proof {
                    reveal_strlit("withdrawn");
                }
                "withdrawn"
            },
        }
    }

    pub fn parse(s: &str) -> (r: Option<BiderStatus>)
        ensures
            r == BiderStatus::from_name(s@),
    {
        if str_eq(s, BiderStatus::Menunggu.as_str()) {
            Some(BiderStatus::Menunggu)
        } else if str_eq(s, BiderStatus::Disetujui.as_str()) {
            Some(BiderStatus::Disetujui)
        } else if str_eq(s, BiderStatus::Withdrawn.as_str()) {
            Some(BiderStatus::Withdrawn)
        } else {
            None
        }
    }
}

impl Default for BiderStatus {
    fn default() -> (r: BiderStatus)
        ensures
            r == BiderStatus::Menunggu,
    {
        BiderStatus::Menunggu
    }
}

/// Parsing a bider status's own name gives it back.
pub proof fn lemma_bider_name_roundtrip(b: BiderStatus)
    ensures
        BiderStatus::from_name(b.name()) == Some(b),
{
    assert(BiderStatus::Menunggu.name() != BiderStatus::Disetujui.name()) by {
        assert(BiderStatus::Menunggu.name().len() != BiderStatus::Disetujui.name().len());
    }
    assert(BiderStatus::Menunggu.name() != BiderStatus::Withdrawn.name()) by {
        assert(BiderStatus::Menunggu.name().len() != BiderStatus::Withdrawn.name().len());
    }
    assert(BiderStatus::Disetujui.name()[0] != BiderStatus::Withdrawn.name()[0]);
}

/// A giveaway ad (free second-hand or new items).
#[derive(Debug)]
pub struct IklanBarangBekas {
    pub id: u128,
    pub seller_id: u128,
    pub judul: String,
    pub deskripsi: String,
    /// "bekas" or "baru".
    pub jenis_barang: String,
    pub jumlah: i32,
    pub lokasi_pengambilan: String,
    pub lokasi: Option<String>,
    pub region_id: Option<String>,
    pub foto_urls: Vec<String>,
    pub is_active: bool,
    pub availability_status: AvailabilityStatus,
    pub moderation_status: ModerationStatus,
    pub deleted_at: Option<i64>,
    pub created_at: i64,
    pub updated_at: i64,
}

impl Row for IklanBarangBekas {
    open spec fn key(&self) -> u128 {
        self.id
    }

    open spec fn stamp(&self) -> i64 {
        self.created_at
    }

    open spec fn same(&self, o: &Self) -> bool {
        &&& o.id == self.id
        &&& o.seller_id == self.seller_id
        &&& o.judul == self.judul
        &&& o.deskripsi == self.deskripsi
        &&& o.jenis_barang == self.jenis_barang
        &&& o.jumlah == self.jumlah
        &&& o.lokasi_pengambilan == self.lokasi_pengambilan
        &&& o.lokasi == self.lokasi
        &&& o.region_id == self.region_id
        &&& o.foto_urls@ == self.foto_urls@
        &&& o.is_active == self.is_active
        &&& o.availability_status == self.availability_status
        &&& o.moderation_status == self.moderation_status
        &&& o.deleted_at == self.deleted_at
        &&& o.created_at == self.created_at
        &&& o.updated_at == self.updated_at
    }

    proof fn lemma_same(&self, o: &Self) {
    }

    proof fn lemma_same_trans(&self, o: &Self, o2: &Self) {
    }

    fn row_id(&self) -> (r: u128) {
        self.id
    }

    fn row_created(&self) -> (r: i64) {
        self.created_at
    }

    fn duplicate(&self) -> (r: Self) {
        IklanBarangBekas {
            id: self.id,
            seller_id: self.seller_id,
            judul: self.judul.clone(),
            deskripsi: self.deskripsi.clone(),
            jenis_barang: self.jenis_barang.clone(),
            jumlah: self.jumlah,
            lokasi_pengambilan: self.lokasi_pengambilan.clone(),
            lokasi: clone_opt_string(&self.lokasi),
            region_id: clone_opt_string(&self.region_id),
            foto_urls: clone_strings(&self.foto_urls),
            is_active: self.is_active,
            availability_status: self.availability_status,
            moderation_status: self.moderation_status,
            deleted_at: self.deleted_at,
            created_at: self.created_at,
            updated_at: self.updated_at,
        }
    }
}

/// A request by an interested user (`peminat`) to take an item.
#[derive(Debug, Clone, Copy, PartialEq, Eq, Structural)]
pub struct Bider {
    pub id: u128,
    pub iklan_id: u128,
    pub peminat_id: u128,
    pub status: BiderStatus,
    pub sudah_menghubungi: bool,
    pub created_at: i64,
    pub updated_at: i64,
}

impl Row for Bider {
    open spec fn key(&self) -> u128 {
        self.id
    }

    open spec fn stamp(&self) -> i64 {
        self.created_at
    }

    open spec fn same(&self, o: &Self) -> bool {
        *o == *self
    }

    proof fn lemma_same(&self, o: &Self) {
    }

    proof fn lemma_same_trans(&self, o: &Self, o2: &Self) {
    }

    fn row_id(&self) -> (r: u128) {
        self.id
    }

    fn row_created(&self) -> (r: i64) {
        self.created_at
    }

    fn duplicate(&self) -> (r: Self) {
        *self
    }
}

} // verus!

verus! {

impl crate::moderation::Moderated for IklanBarangBekas {
    open spec fn owner(&self) -> u128 {
        self.seller_id
    }

    open spec fn moderation(&self) -> ModerationStatus {
        self.moderation_status
    }

    open spec fn is_deleted(&self) -> bool {
        self.deleted_at is Some
    }

    open spec fn moderated(&self, m: ModerationStatus, now: i64) -> Self {
        IklanBarangBekas { moderation_status: m, updated_at: now, ..*self }
    }

    fn owner_id(&self) -> (r: u128) {
        self.seller_id
    }

    fn moderation_of(&self) -> (r: ModerationStatus) {
        self.moderation_status
    }

    fn deleted(&self) -> (r: bool) {
        self.deleted_at.is_some()
    }

    fn set_moderation(&mut self, m: ModerationStatus, now: i64) {
        self.moderation_status = m;
        self.updated_at = now;
    }

    open spec fn soft_deleted(&self, now: i64) -> Self {
        IklanBarangBekas { deleted_at: Some(now), ..*self }
    }

    fn mark_deleted(&mut self, now: i64) {
        self.deleted_at = Some(now);
    }

    proof fn lemma_soft_deleted(&self, now: i64) {
    }

    proof fn lemma_moderated(&self, m: ModerationStatus, now: i64) {
    }
}

} // verus!
