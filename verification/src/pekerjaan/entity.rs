use vstd::prelude::*;

use crate::store::Row;
use crate::text::str_eq;
use crate::util::{clone_opt_string, clone_strings};

pub use crate::moderation::{IklanSuspension, ModerationStatus};

verus! {

/// Work cycle of a job ad, apart from its moderation and visibility: it
/// changes only through the application flow.
#[derive(Debug, Clone, Copy, PartialEq, Eq, Structural)]
pub enum PekerjaanStatus {
    Tersedia,
    SedangDikerjakan,
    Selesai,
}

impl PekerjaanStatus {
    pub open spec fn name(self) -> Seq<char> {
        match self {
            PekerjaanStatus::Tersedia => "tersedia"@,
            PekerjaanStatus::SedangDikerjakan => "sedang_dikerjakan"@,
            PekerjaanStatus::Selesai => "selesai"@,
        }
    }

    pub open spec fn from_name(s: Seq<char>) -> Option<PekerjaanStatus> {
        if s == PekerjaanStatus::Tersedia.name() {
            Some(PekerjaanStatus::Tersedia)
        } else if s == PekerjaanStatus::SedangDikerjakan.name() {
            Some(PekerjaanStatus::SedangDikerjakan)
        } else if s == PekerjaanStatus::Selesai.name() {
            Some(PekerjaanStatus::Selesai)
        } else {
            None
        }
    }

    pub fn as_str(&self) -> (r: &'static str)
        ensures
            r@ == self.name(),
    {
        match self {
            PekerjaanStatus::Tersedia => "tersedia",
            PekerjaanStatus::SedangDikerjakan => "sedang_dikerjakan",
            PekerjaanStatus::Selesai => "selesai",
        }
    }

    pub fn parse(s: &str) -> (r: Option<PekerjaanStatus>)
        ensures
            r == PekerjaanStatus::from_name(s@),
    {
        if str_eq(s, "tersedia") {
            Some(PekerjaanStatus::Tersedia)
        } else if str_eq(s, "sedang_dikerjakan") {
            Some(PekerjaanStatus::SedangDikerjakan)
        } else if str_eq(s, "selesai") {
            Some(PekerjaanStatus::Selesai)
        } else {
            None
        }
    }

    /// The name as an owned string (what `Display` prints).
    pub fn to_string(&self) -> (r: String)
        ensures
            r@ == self.name(),
    {
        self.as_str().to_owned()
    }
}

impl Default for PekerjaanStatus {
    fn default() -> (r: PekerjaanStatus)
        ensures
            r == PekerjaanStatus::Tersedia,
    {
        PekerjaanStatus::Tersedia
    }
}

/// Parsing a work status's own name gives it back.
pub proof fn lemma_pekerjaan_name_roundtrip(s: PekerjaanStatus)
    ensures
        PekerjaanStatus::from_name(s.name()) == Some(s),
{
    reveal_strlit("tersedia");
    reveal_strlit("sedang_dikerjakan");
    reveal_strlit("selesai");
    assert(PekerjaanStatus::Tersedia.name().len() != PekerjaanStatus::SedangDikerjakan.name().len());
    assert(PekerjaanStatus::Tersedia.name()[0] != PekerjaanStatus::Selesai.name()[0]);
    assert(PekerjaanStatus::SedangDikerjakan.name().len() != PekerjaanStatus::Selesai.name().len());
}

/// State of a job application. `Ditolak` also records an accepted
/// application that the ad's owner cancelled.
#[derive(Debug, Clone, Copy, PartialEq, Eq, Structural)]
pub enum LamaranStatus {
    Diajukan,
    Diterima,
    Ditolak,
    Proses,
    Selesai,
}

impl LamaranStatus {
    pub open spec fn name(self) -> Seq<char> {
        match self {
            LamaranStatus::Diajukan => "diajukan"@,
            LamaranStatus::Diterima => "diterima"@,
            LamaranStatus::Ditolak => "ditolak"@,
            LamaranStatus::Proses => "proses"@,
            LamaranStatus::Selesai => "selesai"@,
        }
    }

    pub open spec fn from_name(s: Seq<char>) -> Option<LamaranStatus> {
        if s == LamaranStatus::Diajukan.name() {
            Some(LamaranStatus::Diajukan)
        } else if s == LamaranStatus::Diterima.name() {
            Some(LamaranStatus::Diterima)
        } else if s == LamaranStatus::Ditolak.name() {
            Some(LamaranStatus::Ditolak)
        } else if s == LamaranStatus::Proses.name() {
            Some(LamaranStatus::Proses)
        } else if s == LamaranStatus::Selesai.name() {
            Some(LamaranStatus::Selesai)
        } else {
            None
        }
    }

    /// Terminal states admit no further transition.
    pub open spec fn terminal(self) -> bool {
        self == LamaranStatus::Ditolak || self == LamaranStatus::Selesai
    }

    pub fn as_str(&self) -> (r: &'static str)
        ensures
            r@ == self.name(),
    {
        match self {
            LamaranStatus::Diajukan => "diajukan",
            LamaranStatus::Diterima => "diterima",
            LamaranStatus::Ditolak => "ditolak",
            LamaranStatus::Proses => "proses",
            LamaranStatus::Selesai => "selesai",
        }
    }

    pub fn parse(s: &str) -> (r: Option<LamaranStatus>)
        ensures
            r == LamaranStatus::from_name(s@),
    {
        if str_eq(s, "diajukan") {
            Some(LamaranStatus::Diajukan)
        } else if str_eq(s, "diterima") {
            Some(LamaranStatus::Diterima)
        } else if str_eq(s, "ditolak") {
            Some(LamaranStatus::Ditolak)
        } else if str_eq(s, "proses") {
            Some(LamaranStatus::Proses)
        } else if str_eq(s, "selesai") {
            Some(LamaranStatus::Selesai)
        } else {
            None
        }
    }

    /// Whether the status is terminal (rejected or finished).
    pub fn is_terminal(&self) -> (r: bool)
        ensures
            r == self.terminal(),
    {
        match self {
            LamaranStatus::Ditolak | LamaranStatus::Selesai => true,
            _ => false,
        }
    }

    /// The name as an owned string (what `Display` prints).
    pub fn to_string(&self) -> (r: String)
        ensures
            r@ == self.name(),
    {
        self.as_str().to_owned()
    }
}

impl Default for LamaranStatus {
    fn default() -> (r: LamaranStatus)
        ensures
            r == LamaranStatus::Diajukan,
    {
        LamaranStatus::Diajukan
    }
}

/// Parsing an application status's own name gives it back.
pub proof fn lemma_lamaran_name_roundtrip(s: LamaranStatus)
    ensures
        LamaranStatus::from_name(s.name()) == Some(s),
{
    reveal_strlit("diajukan");
    reveal_strlit("diterima");
    reveal_strlit("ditolak");
    reveal_strlit("proses");
    reveal_strlit("selesai");
    let a = LamaranStatus::Diajukan.name();
    let b = LamaranStatus::Diterima.name();
    let c = LamaranStatus::Ditolak.name();
    let d = LamaranStatus::Proses.name();
    let e = LamaranStatus::Selesai.name();
    assert(a[2] != b[2]);
    assert(a[2] != c[2]);
    assert(a[0] != d[0] && a[0] != e[0]);
    assert(b[3] != c[3]);
    assert(b[0] != d[0] && b[0] != e[0]);
    assert(c[0] != d[0] && c[0] != e[0]);
    assert(d[0] != e[0]);
}

/// A job ad.
#[derive(Debug)]
pub struct IklanPekerjaan {
    pub id: u128,
    pub poster_id: u128,
    pub judul: String,
    pub perusahaan: String,
    pub deskripsi: String,
    pub lokasi: Option<String>,
    pub region_id: Option<String>,
    pub gaji_min: Option<i64>,
    pub gaji_max: Option<i64>,
    /// "full_time", "part_time", "freelance" or "internship".
    pub tipe: String,
    /// Working hours as free text, e.g. "08:00-17:00".
    pub jam_kerja: Option<String>,
    pub foto_urls: Vec<String>,
    pub is_active: bool,
    pub moderation_status: ModerationStatus,
    pub status: PekerjaanStatus,
    pub deleted_at: Option<i64>,
    pub created_at: i64,
    pub updated_at: i64,
}

impl Row for IklanPekerjaan {
    open spec fn key(&self) -> u128 {
        self.id
    }

    open spec fn stamp(&self) -> i64 {
        self.created_at
    }

    open spec fn same(&self, o: &Self) -> bool {
        &&& o.id == self.id
        &&& o.poster_id == self.poster_id
        &&& o.judul == self.judul
        &&& o.perusahaan == self.perusahaan
        &&& o.deskripsi == self.deskripsi
        &&& o.lokasi == self.lokasi
        &&& o.region_id == self.region_id
        &&& o.gaji_min == self.gaji_min
        &&& o.gaji_max == self.gaji_max
        &&& o.tipe == self.tipe
        &&& o.jam_kerja == self.jam_kerja
        &&& o.foto_urls@ == self.foto_urls@
        &&& o.is_active == self.is_active
        &&& o.moderation_status == self.moderation_status
        &&& o.status == self.status
        &&& o.deleted_at == self.deleted_at
        &&& o.created_at == self.created_at
        &&& o.updated_at == self.updated_at
    }

    proof fn lemma_same(&self, o: &Self) {
    }

    proof fn lemma_same_trans(&self, o: &Self, o2: &Self) {
    }

    fn row_id(&self) -> (r: u128) {
        self.id
    }

    fn row_created(&self) -> (r: i64) {
        self.created_at
    }

    fn duplicate(&self) -> (r: Self) {
        IklanPekerjaan {
            id: self.id,
            poster_id: self.poster_id,
            judul: self.judul.clone(),
            perusahaan: self.perusahaan.clone(),
            deskripsi: self.deskripsi.clone(),
            lokasi: clone_opt_string(&self.lokasi),
            region_id: clone_opt_string(&self.region_id),
            gaji_min: self.gaji_min,
            gaji_max: self.gaji_max,
            tipe: self.tipe.clone(),
            jam_kerja: clone_opt_string(&self.jam_kerja),
            foto_urls: clone_strings(&self.foto_urls),
            is_active: self.is_active,
            moderation_status: self.moderation_status,
            status: self.status,
            deleted_at: self.deleted_at,
            created_at: self.created_at,
            updated_at: self.updated_at,
        }
    }
}

impl crate::moderation::Moderated for IklanPekerjaan {
    open spec fn owner(&self) -> u128 {
        self.poster_id
    }

    open spec fn moderation(&self) -> ModerationStatus {
        self.moderation_status
    }

    open spec fn is_deleted(&self) -> bool {
        self.deleted_at is Some
    }

    open spec fn moderated(&self, m: ModerationStatus, now: i64) -> Self {
        IklanPekerjaan { moderation_status: m, updated_at: now, ..*self }
    }

    fn owner_id(&self) -> (r: u128) {
        self.poster_id
    }

    fn moderation_of(&self) -> (r: ModerationStatus) {
        self.moderation_status
    }

    fn deleted(&self) -> (r: bool) {
        self.deleted_at.is_some()
    }

    fn set_moderation(&mut self, m: ModerationStatus, now: i64) {
        self.moderation_status = m;
        self.updated_at = now;
    }

    open spec fn soft_deleted(&self, now: i64) -> Self {
        IklanPekerjaan { deleted_at: Some(now), ..*self }
    }

    fn mark_deleted(&mut self, now: i64) {
        self.deleted_at = Some(now);
    }

    proof fn lemma_soft_deleted(&self, now: i64) {
    }

    proof fn lemma_moderated(&self, m: ModerationStatus, now: i64) {
    }
}

/// An application for a job ad, with the agreed date and hours. The date is
/// a day number (days since 1970-01-01) and the hours are seconds since
/// midnight.
#[derive(Debug)]
pub struct Lamaran {
    pub id: u128,
    pub iklan_id: u128,
    pub pelamar_id: u128,
    pub status: LamaranStatus,
    pub tanggal: i64,
    pub jam_mulai: u32,
    pub jam_akhir: u32,
    /// Worker slots this application takes (default 1).
    pub kuota_diambil: i32,
    /// Reason given when the owner cancels an accepted application.
    pub alasan_batal: Option<String>,
    pub created_at: i64,
    pub updated_at: i64,
}

impl Row for Lamaran {
    open spec fn key(&self) -> u128 {
        self.id
    }

    open spec fn stamp(&self) -> i64 {
        self.created_at
    }

    open spec fn same(&self, o: &Self) -> bool {
        *o == *self
    }

    proof fn lemma_same(&self, o: &Self) {
    }

    proof fn lemma_same_trans(&self, o: &Self, o2: &Self) {
    }

    fn row_id(&self) -> (r: u128) {
        self.id
    }

    fn row_created(&self) -> (r: i64) {
        self.created_at
    }

    fn duplicate(&self) -> (r: Self) {
        Lamaran {
            id: self.id,
            iklan_id: self.iklan_id,
            pelamar_id: self.pelamar_id,
            status: self.status,
            tanggal: self.tanggal,
            jam_mulai: self.jam_mulai,
            jam_akhir: self.jam_akhir,
            kuota_diambil: self.kuota_diambil,
            alasan_batal: clone_opt_string(&self.alasan_batal),
            created_at: self.created_at,
            updated_at: self.updated_at,
        }
    }
}

} // verus!

verus! {

impl crate::ad_store::Titled for IklanPekerjaan {
    open spec fn title(&self) -> Seq<char> {
        self.judul@
    }

    fn title_str(&self) -> (r: &str) {
        self.judul.as_str()
    }

    proof fn lemma_title_kept(&self, m: ModerationStatus, now: i64) {
    }

    proof fn lemma_same_titled(&self, o: &Self) {
    }
}

} // verus!
