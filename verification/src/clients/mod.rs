use vstd::prelude::*;

use crate::text::str_eq;

pub mod category_name;

verus! {

/// Category of a corporate article.
#[derive(Debug, Clone, Copy, PartialEq, Eq, Structural)]
pub enum ArticleCategory {
    Informasi,
}

impl ArticleCategory {
    pub open spec fn name(self) -> Seq<char> {
        match self {
            ArticleCategory::Informasi => "informasi"@,
        }
    }

    pub open spec fn from_name(s: Seq<char>) -> Option<ArticleCategory> {
        if s == ArticleCategory::Informasi.name() {
            Some(ArticleCategory::Informasi)
        } else {
            None
        }
    }

    pub fn as_str(&self) -> (r: &'static str)
        ensures
            r@ == self.name(),
    {
        match self {
            ArticleCategory::Informasi => "informasi",
        }
    }

    pub fn parse(s: &str) -> (r: Option<ArticleCategory>)
        ensures
            r == ArticleCategory::from_name(s@),
    {
        if str_eq(s, "informasi") {
            Some(ArticleCategory::Informasi)
        } else {
            None
        }
    }

    /// The name as an owned string (what `Display` prints).
    pub fn to_string(&self) -> (r: String)
        ensures
            r@ == self.name(),
    {
        self.as_str().to_owned()
    }
}

impl Default for ArticleCategory {
    fn default() -> (r: ArticleCategory)
        ensures
            r == ArticleCategory::Informasi,
    {
        ArticleCategory::Informasi
    }
}

/// Parsing a category's own name gives it back.
pub proof fn lemma_category_name_roundtrip(c: ArticleCategory)
    ensures
        ArticleCategory::from_name(c.name()) == Some(c),
{
}

/// What other services see of an article.
pub struct ArticleSummary {
    pub id: u128,
    pub title: String,
    pub category: ArticleCategory,
    pub created_at: i64,
}

/// Why the article directory could not answer.
#[derive(Debug, Clone, Copy, PartialEq, Eq, Structural)]
pub enum CommsClientError {
    NotFound,
    Unavailable,
}

impl CommsClientError {
    pub open spec fn message(self) -> Seq<char> {
        match self {
            CommsClientError::NotFound => "article not found"@,
            CommsClientError::Unavailable => "service unavailable"@,
        }
    }

    pub fn to_string(&self) -> (r: String)
        ensures
            r@ == self.message(),
    {
        match self {
            CommsClientError::NotFound => "article not found".to_owned(),
            CommsClientError::Unavailable => "service unavailable".to_owned(),
        }
    }
}

/// What other services see of a worker ad.
pub struct IklanPekerjaSummary {
    pub id: u128,
    /// The owner, by which batch lookups are matched back.
    pub poster_id: u128,
    pub nama: String,
    pub keahlian: Vec<String>,
    /// The first photo, if any.
    pub foto_url: Option<String>,
}

/// The last summary given for a poster (later answers replace earlier ones).
pub open spec fn last_summary(s: Seq<IklanPekerjaSummary>, poster_id: u128, j: int) -> bool {
    &&& 0 <= j < s.len()
    &&& s[j].poster_id == poster_id
    &&& forall|k: int| j < k < s.len() ==> (#[trigger] s[k]).poster_id != poster_id
}

/// Why the worker-ad directory could not answer.
#[derive(Debug, Clone, Copy, PartialEq, Eq, Structural)]
pub enum IklanPekerjaClientError {
    NotFound,
    Unavailable,
}

impl IklanPekerjaClientError {
    pub open spec fn message(self) -> Seq<char> {
        match self {
            IklanPekerjaClientError::NotFound => "iklan pekerja not found"@,
            IklanPekerjaClientError::Unavailable => "service unavailable"@,
        }
    }

    pub fn to_string(&self) -> (r: String)
        ensures
            r@ == self.message(),
    {
        match self {
            IklanPekerjaClientError::NotFound => "iklan pekerja not found".to_owned(),
            IklanPekerjaClientError::Unavailable => "service unavailable".to_owned(),
        }
    }
}

/// What other services see of a job ad.
pub struct IklanPekerjaanSummary {
    pub id: u128,
    pub judul: String,
    pub perusahaan: String,
    pub poster_id: u128,
}

/// Why the job-ad directory could not answer.
#[derive(Debug, Clone, Copy, PartialEq, Eq, Structural)]
pub enum IklanPekerjaanClientError {
    NotFound,
    Unavailable,
}

impl IklanPekerjaanClientError {
    pub open spec fn message(self) -> Seq<char> {
        match self {
            IklanPekerjaanClientError::NotFound => "iklan pekerjaan not found"@,
            IklanPekerjaanClientError::Unavailable => "service unavailable"@,
        }
    }

    pub fn to_string(&self) -> (r: String)
        ensures
            r@ == self.message(),
    {
        match self {
            IklanPekerjaanClientError::NotFound => "iklan pekerjaan not found".to_owned(),
            IklanPekerjaanClientError::Unavailable => "service unavailable".to_owned(),
        }
    }
}

/// What other services see of a giveaway ad.
pub struct IklanBarangBekasSummary {
    pub id: u128,
    pub judul: String,
    pub harga: i64,
}

/// Why the giveaway-ad directory could not answer.
#[derive(Debug, Clone, Copy, PartialEq, Eq, Structural)]
pub enum IklanBarangBekasClientError {
    NotFound,
    Unavailable,
}

impl IklanBarangBekasClientError {
    pub open spec fn message(self) -> Seq<char> {
        match self {
            IklanBarangBekasClientError::NotFound => "iklan barang bekas not found"@,
            IklanBarangBekasClientError::Unavailable => "service unavailable"@,
        }
    }

    pub fn to_string(&self) -> (r: String)
        ensures
            r@ == self.message(),
    {
        match self {
            IklanBarangBekasClientError::NotFound => "iklan barang bekas not found".to_owned(),
            IklanBarangBekasClientError::Unavailable => "service unavailable".to_owned(),
        }
    }
}

/// What other services see of a training ad.
pub struct IklanPelatihanSummary {
    pub id: u128,
    pub judul: String,
    pub penyelenggara: String,
}

/// Why the training-ad directory could not answer.
#[derive(Debug, Clone, Copy, PartialEq, Eq, Structural)]
pub enum IklanPelatihanClientError {
    NotFound,
    Unavailable,
}

impl IklanPelatihanClientError {
    pub open spec fn message(self) -> Seq<char> {
        match self {
            IklanPelatihanClientError::NotFound => "iklan pelatihan not found"@,
            IklanPelatihanClientError::Unavailable => "service unavailable"@,
        }
    }

    pub fn to_string(&self) -> (r: String)
        ensures
            r@ == self.message(),
    {
        match self {
            IklanPelatihanClientError::NotFound => "iklan pelatihan not found".to_owned(),
            IklanPelatihanClientError::Unavailable => "service unavailable".to_owned(),
        }
    }
}

} // verus!
