use vstd::prelude::*;

use super::entity::CorporateArticle;
use crate::clients::ArticleCategory;
use crate::search::{ilike, opt_chars, pattern_of, search_pattern, text_matches, trim};
use crate::store::{
    copies, find_pos, has_key, insert_newest_first, lemma_unique_pos, lookup, lookup_matches, newest_first, page,
    pos_of, select, unique_keys, RepoError, Row,
};

verus! {

/// Default page size of the article listing.
pub const DEFAULT_LIMIT: i64 = 20;

/// Fields of a new article.
pub struct CreateArticleParams {
    pub author_id: u128,
    pub title: String,
    pub body: String,
    pub category: ArticleCategory,
    pub photo_object_key: Option<String>,
}

/// A replacement of an article's text, category and photo.
pub struct UpdateArticleParams {
    pub id: u128,
    pub title: String,
    pub body: String,
    pub category: ArticleCategory,
    pub photo_object_key: Option<String>,
}

/// The admin listing: title search, category filter, sort direction and
/// page.
pub struct ArticleListParams {
    pub q: Option<String>,
    pub category: Option<ArticleCategory>,
    pub sort_dir: Option<String>,
    pub limit: i64,
    pub offset: i64,
}

/// The title search applies when the trimmed query is not empty.
pub open spec fn title_search_hit(x: CorporateArticle, q: Option<Seq<char>>) -> bool {
    match q {
        Some(s) => trim(s).len() == 0 || ilike(x.title@, search_pattern(s)),
        None => true,
    }
}

/// Articles in the listing: not soft-deleted, matching the search and the
/// category.
pub open spec fn article_listed(q: Option<Seq<char>>, category: Option<ArticleCategory>) -> spec_fn(CorporateArticle) -> bool {
    |x: CorporateArticle|
        x.deleted_at is None && title_search_hit(x, q) && match category {
            Some(c) => x.category == c,
            None => true,
        }
}

/// The row stored for a new article.
pub open spec fn new_article(p: CreateArticleParams, id: u128, now: i64) -> CorporateArticle {
    CorporateArticle {
        id,
        author_id: p.author_id,
        category: p.category,
        title: p.title,
        body: p.body,
        photo_object_key: p.photo_object_key,
        deleted_at: None,
        created_at: now,
        updated_at: now,
    }
}

/// Corporate articles, kept newest first.
pub struct ArticleStore {
    rows: Vec<CorporateArticle>,
}

impl ArticleStore {
    pub closed spec fn articles(&self) -> Seq<CorporateArticle> {
        self.rows@
    }

    pub open spec fn wf(&self) -> bool {
        unique_keys(self.articles()) && newest_first(self.articles())
    }

    pub fn new() -> (r: ArticleStore)
        ensures
            r.wf(),
            r.articles() == Seq::<CorporateArticle>::empty(),
    {
        ArticleStore { rows: Vec::new() }
    }

    /// The article with the identifier, soft-deleted or not.
    pub fn find_by_id(&self, id: u128) -> (r: Option<CorporateArticle>)
        requires
            self.wf(),
        ensures
            match r {
                Some(x) => has_key(self.articles(), id) && x == self.articles()[pos_of(self.articles(), id)],
                None => !has_key(self.articles(), id),
            },
    {
        let r = lookup(&self.rows, id);
        r
    }

    /// Whether an article with the identifier exists and is not
    /// soft-deleted.
    pub fn article_exists(&self, id: u128) -> (r: bool)
        requires
            self.wf(),
        ensures
            r == (has_key(self.articles(), id) && self.articles()[pos_of(self.articles(), id)].deleted_at is None),
    {
        match self.find_by_id(id) {
            Some(x) => x.deleted_at.is_none(),
            None => false,
        }
    }

    /// The listing: matching articles that are not soft-deleted, newest
    /// first (there is one category, so ordering by category changes
    /// nothing), one page, with the number of all matching articles.
    pub fn list(&self, params: &ArticleListParams) -> (r: Result<(Vec<CorporateArticle>, i64), RepoError>)
        requires
            self.articles().len() <= i64::MAX,
        ensures
            match r {
                Ok((items, total)) => {
                    let all = self.articles().filter(article_listed(crate::moderation::opt_view(params.q), params.category));
                    &&& params.limit >= 0 && params.offset >= 0
                    &&& items@ == page(all, params.limit as int, params.offset as int)
                    &&& total == all.len()
                },
                Err(e) => (params.limit < 0 || params.offset < 0) && e == RepoError::NegativePaging,
            },
    {
        let pat: Option<Vec<char>> = match &params.q {
            Some(s) => Some(pattern_of(s.as_str())),
            None => None,
        };
        let f = |x: &CorporateArticle| -> (b: bool)
            ensures
                b == article_listed(crate::moderation::opt_view(params.q), params.category)(*x),
            {
                let hit = match &pat {
                    Some(p) => p.len() == 2 || text_matches(x.title.as_str(), p),
                    None => true,
                };
                let cat = match params.category {
                    Some(c) => x.category == c,
                    None => true,
                };
                x.deleted_at.is_none() && hit && cat
            };
        let all = select(&self.rows, f, Ghost(article_listed(crate::moderation::opt_view(params.q), params.category)));
        let ghost want = self.articles().filter(article_listed(crate::moderation::opt_view(params.q), params.category));
        proof {
            assert(all@ =~= want) by {
                assert forall|k: int| 0 <= k < all@.len() implies all@[k] == want[k] by {
                    assert(all@[k].same(&want[k]));
                }
            }
            self.articles().lemma_filter_len(article_listed(crate::moderation::opt_view(params.q), params.category));
        }
        let total = all.len() as i64;
        match crate::store::page_of(&all, params.limit, params.offset) {
            Ok(items) => {
                proof {
                    let pg = page(want, params.limit as int, params.offset as int);
                    assert forall|k: int| 0 <= k < items@.len() implies items@[k] == pg[k] by {
                        assert(items@[k].same(&pg[k]));
                    }
                    assert(items@ =~= pg);
                }
                Ok((items, total))
            },
            Err(e) => Err(e),
        }
    }

    /// Stores a new article; refused when the identifier is taken.
    pub fn create(&mut self, p: CreateArticleParams, id: u128, now: i64) -> (r: Result<CorporateArticle, RepoError>)
        requires
            old(self).wf(),
        ensures
            final(self).wf(),
            match r {
                Ok(x) => {
                    &&& !has_key(old(self).articles(), id)
                    &&& x == new_article(p, id, now)
                    &&& exists|k: int| 0 <= k <= old(self).articles().len() && final(self).articles() == old(self).articles().insert(k, x)
                },
                Err(e) => has_key(old(self).articles(), id) && e == RepoError::DuplicateId && *final(self) == *old(self),
            },
    {
        if find_pos(&self.rows, id).is_some() {
            return Err(RepoError::DuplicateId);
        }
        let x = CorporateArticle {
            id,
            author_id: p.author_id,
            category: p.category,
            title: p.title,
            body: p.body,
            photo_object_key: p.photo_object_key,
            deleted_at: None,
            created_at: now,
            updated_at: now,
        };
        let out = x.clone_article();
        let ghost before = self.rows@;
        let ghost xv = x;
        let k = insert_newest_first(&mut self.rows, x);
        proof {
            crate::store::lemma_insert_fresh_unique(before, k as int, xv);
        }
        Ok(out)
    }

    /// Replaces the text, category and photo of an article that is not
    /// soft-deleted; none, and nothing changes, when there is no such
    /// article.
    pub fn update(&mut self, p: UpdateArticleParams, now: i64) -> (r: Option<CorporateArticle>)
        requires
            old(self).wf(),
        ensures
            final(self).wf(),
            r is Some == (has_key(old(self).articles(), p.id) && old(self).articles()[pos_of(old(self).articles(), p.id)].deleted_at is None),
            match r {
                Some(x) => {
                    let q = pos_of(old(self).articles(), p.id);
                    &&& x == CorporateArticle {
                        title: p.title,
                        body: p.body,
                        category: p.category,
                        photo_object_key: p.photo_object_key,
                        updated_at: now,
                        ..old(self).articles()[q]
                    }
                    &&& final(self).articles() == old(self).articles().update(q, x)
                },
                None => *final(self) == *old(self),
            },
    {
        let ghost pv = p;
        match find_pos(&self.rows, p.id) {
            Some(q) => {
                proof {
                    lemma_unique_pos(self.rows@, q as int, pos_of(self.rows@, p.id));
                }
                if self.rows[q].deleted_at.is_none() {
                    let ghost before = self.rows@;
                    let old_row = self.rows.remove(q);
                    let x = CorporateArticle {
                        title: p.title,
                        body: p.body,
                        category: p.category,
                        photo_object_key: p.photo_object_key,
                        updated_at: now,
                        ..old_row
                    };
                    let out = x.clone_article();
                    self.rows.insert(q, x);
                    proof {
                        assert(self.rows@ =~= before.update(q as int, out));
                        crate::store::lemma_same_keys_keeps(before, self.rows@);
                    }
                    Some(out)
                } else {
                    None
                }
            },
            None => None,
        }
    }

    /// Soft-deletes an article that is not yet soft-deleted.
    pub fn soft_delete(&mut self, id: u128, now: i64) -> (r: bool)
        requires
            old(self).wf(),
        ensures
            final(self).wf(),
            r == (has_key(old(self).articles(), id) && old(self).articles()[pos_of(old(self).articles(), id)].deleted_at is None),
            r ==> final(self).articles() == old(self).articles().update(
                pos_of(old(self).articles(), id),
                CorporateArticle { deleted_at: Some(now), ..old(self).articles()[pos_of(old(self).articles(), id)] },
            ),
            !r ==> *final(self) == *old(self),
    {
        match find_pos(&self.rows, id) {
            Some(q) => {
                proof {
                    lemma_unique_pos(self.rows@, q as int, pos_of(self.rows@, id));
                }
                if self.rows[q].deleted_at.is_none() {
                    let ghost before = self.rows@;
                    let mut x = self.rows.remove(q);
                    x.deleted_at = Some(now);
                    self.rows.insert(q, x);
                    proof {
                        assert(self.rows@ =~= before.update(q as int, CorporateArticle { deleted_at: Some(now), ..before[q as int] }));
                        crate::store::lemma_same_keys_keeps(before, self.rows@);
                    }
                    true
                } else {
                    false
                }
            },
            None => false,
        }
    }
}

} // verus!
