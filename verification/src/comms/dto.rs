use vstd::prelude::*;

use super::entity::CorporateArticle;
use crate::clients::ArticleCategory;

verus! {

/// Admin view of an article.
pub struct AdminArticleResponse {
    pub id: u128,
    pub author_id: u128,
    pub category: ArticleCategory,
    pub title: String,
    pub body: String,
    pub photo_object_key: Option<String>,
    pub deleted_at: Option<i64>,
    pub created_at: i64,
    pub updated_at: i64,
}

/// A new article (category defaults to information).
pub struct CreateArticleInput {
    pub title: String,
    pub body: String,
    pub category: ArticleCategory,
}

/// A replacement of an article's text; the photo is kept when none is
/// given.
pub struct UpdateArticleInput {
    pub title: String,
    pub body: String,
    pub category: ArticleCategory,
    pub photo_object_key: Option<String>,
}

/// Request for an upload slot for an article photo.
pub struct ArticlePhotoInput {
    pub mime: String,
    pub size_bytes: u64,
}

/// Query of the admin listing.
pub struct ArticleListQuery {
    pub q: Option<String>,
    pub category: Option<String>,
    pub sort_dir: Option<String>,
    pub limit: Option<i64>,
    pub offset: Option<i64>,
}

/// The category of an article that does not name one.
pub fn default_category() -> (r: ArticleCategory)
    ensures
        r == ArticleCategory::Informasi,
{
    ArticleCategory::Informasi
}

/// The admin view shows the article's fields as stored.
pub open spec fn is_article_resp_of(r: AdminArticleResponse, e: CorporateArticle) -> bool {
    &&& r.id == e.id
    &&& r.author_id == e.author_id
    &&& r.category == e.category
    &&& r.title == e.title
    &&& r.body == e.body
    &&& r.photo_object_key == e.photo_object_key
    &&& r.deleted_at == e.deleted_at
    &&& r.created_at == e.created_at
    &&& r.updated_at == e.updated_at
}

pub fn to_admin_resp(e: CorporateArticle) -> (r: AdminArticleResponse)
    ensures
        is_article_resp_of(r, e),
{
    AdminArticleResponse {
        id: e.id,
        author_id: e.author_id,
        category: e.category,
        title: e.title,
        body: e.body,
        photo_object_key: e.photo_object_key,
        deleted_at: e.deleted_at,
        created_at: e.created_at,
        updated_at: e.updated_at,
    }
}

} // verus!
