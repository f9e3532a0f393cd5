use vstd::prelude::*;

use crate::clients::ArticleCategory;
use crate::store::Row;
use crate::util::clone_opt_string;

verus! {

/// A corporate communication article.
#[derive(Debug)]
pub struct CorporateArticle {
    pub id: u128,
    pub author_id: u128,
    pub category: ArticleCategory,
    pub title: String,
    pub body: String,
    pub photo_object_key: Option<String>,
    pub deleted_at: Option<i64>,
    pub created_at: i64,
    pub updated_at: i64,
}

impl CorporateArticle {
    /// A copy of the article.
    pub fn clone_article(&self) -> (r: CorporateArticle)
        ensures
            r == *self,
    {
        CorporateArticle {
            id: self.id,
            author_id: self.author_id,
            category: self.category,
            title: self.title.clone(),
            body: self.body.clone(),
            photo_object_key: clone_opt_string(&self.photo_object_key),
            deleted_at: self.deleted_at,
            created_at: self.created_at,
            updated_at: self.updated_at,
        }
    }
}

impl Row for CorporateArticle {
    open spec fn key(&self) -> u128 {
        self.id
    }

    open spec fn stamp(&self) -> i64 {
        self.created_at
    }

    open spec fn same(&self, o: &Self) -> bool {
        *o == *self
    }

    proof fn lemma_same(&self, o: &Self) {
    }

    proof fn lemma_same_trans(&self, o: &Self, o2: &Self) {
    }

    fn row_id(&self) -> (r: u128) {
        self.id
    }

    fn row_created(&self) -> (r: i64) {
        self.created_at
    }

    fn duplicate(&self) -> (r: Self) {
        self.clone_article()
    }
}

} // verus!
