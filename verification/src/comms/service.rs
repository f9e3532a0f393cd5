use vstd::prelude::*;

use super::dto::{is_article_resp_of, to_admin_resp, AdminArticleResponse, ArticleListQuery, CreateArticleInput, UpdateArticleInput};
use super::entity::CorporateArticle;
use super::repository::{
    article_listed, new_article, ArticleListParams, ArticleStore, CreateArticleParams, UpdateArticleParams, DEFAULT_LIMIT,
};
use crate::clients::ArticleCategory;
use crate::moderation::opt_view;
use crate::store::{has_key, page, pos_of, unique_keys, RepoError, Row};
use crate::text::{clean_text_spec, sanitize};

verus! {

/// Why an article request was refused.
#[derive(Debug, Clone, Copy, PartialEq, Eq, Structural)]
pub enum CommsError {
    /// The rate limiter refused a new article.
    TooManyRequests,
    /// No such article.
    NotFound,
    /// The store refused the operation.
    Repo(RepoError),
}

impl CommsError {
    pub open spec fn message(self) -> Seq<char> {
        match self {
            CommsError::TooManyRequests => "terlalu banyak permintaan, coba lagi nanti"@,
            CommsError::NotFound => "artikel tidak ditemukan"@,
            CommsError::Repo(e) => e.message(),
        }
    }

    pub fn to_string(&self) -> (r: String)
        ensures
            r@ == self.message(),
    {
        match self {
            CommsError::TooManyRequests => "terlalu banyak permintaan, coba lagi nanti".to_owned(),
            CommsError::NotFound => "artikel tidak ditemukan".to_owned(),
            CommsError::Repo(e) => e.to_string(),
        }
    }
}

/// Paging metadata of a listing response.
#[derive(Debug, Clone, Copy, PartialEq, Eq, Structural)]
pub struct PageMeta {
    pub page: u32,
    pub per_page: u32,
}

/// The category a listing query names, if it names a known one (an unknown
/// name filters nothing).
pub open spec fn query_category(q: ArticleListQuery) -> Option<ArticleCategory> {
    match q.category {
        Some(c) => ArticleCategory::from_name(c@),
        None => None,
    }
}

pub open spec fn list_limit(q: ArticleListQuery) -> int {
    match q.limit {
        Some(l) => l as int,
        None => DEFAULT_LIMIT as int,
    }
}

pub open spec fn list_offset(q: ArticleListQuery) -> int {
    match q.offset {
        Some(o) => o as int,
        None => 0,
    }
}

/// Integer division rounding toward zero (as `i64` division does), for a
/// positive divisor.
pub open spec fn div_toward_zero(a: int, b: int) -> int {
    if a >= 0 {
        a / b
    } else {
        -((-a) / b)
    }
}

/// The page number and size a listing reports: the page is
/// `offset / limit + 1` (1 when the limit is not positive) and the size is
/// the limit, at least 1; both narrowed to 32 bits as the response carries
/// them (the page wraps to 0 past the largest 32-bit value).
pub open spec fn page_meta_spec(limit: i64, offset: i64) -> PageMeta {
    let q = (div_toward_zero(offset as int, limit as int) as u32) as int;
    PageMeta {
        page: if limit > 0 { if q == u32::MAX { 0u32 } else { (q + 1) as u32 } } else { 1u32 },
        per_page: if limit > 1 { limit as u32 } else { 1u32 },
    }
}

/// Paging metadata for a listing with the given limit and offset.
pub fn page_meta(limit: i64, offset: i64) -> (r: PageMeta)
    ensures
        r == page_meta_spec(limit, offset),
{
    let page: u32 = if limit > 0 {
        let a = offset as i128;
        let b = limit as i128;
        let q: i128 = if a >= 0 { a / b } else { -((-a) / b) };
        #[verifier::truncate]
        let p = q as u32;
        if p == u32::MAX { 0 } else { p + 1 }
    } else {
        1
    };
    let per_page: u32 = if limit > 1 {
        #[verifier::truncate]
        let n = limit as u32;
        n
    } else {
        1
    };
    PageMeta { page, per_page }
}

/// The text of the notice broadcast when an article is created or updated.
pub open spec fn broadcast_body_spec(action: Seq<char>, title: Seq<char>) -> Seq<char> {
    "Artikel "@ + action + ": "@ + title
}

/// The text of the broadcast notice ("baru" for a new article,
/// "diperbarui" for an update).
pub fn broadcast_body(action: &str, title: &str) -> (r: String)
    ensures
        r@ == broadcast_body_spec(action@, title@),
{
    let mut s = "Artikel ".to_owned();
    s.append(action);
    s.append(": ");
    s.append(title);
    s
}

/// The corporate article service over its store.
pub struct CorporateCommsService {
    pub repo: ArticleStore,
}

impl CorporateCommsService {
    pub fn new(repo: ArticleStore) -> (r: CorporateCommsService)
        ensures
            r.repo == repo,
    {
        CorporateCommsService { repo }
    }

    /// The admin listing: articles that are not soft-deleted, matching the
    /// title search and the named category, newest first, one page (default
    /// limit 20), with the number of all matching articles.
    pub fn admin_list(&self, query: &ArticleListQuery) -> (r: Result<(Vec<AdminArticleResponse>, i64), RepoError>)
        requires
            self.repo.articles().len() <= i64::MAX,
        ensures
            match r {
                Ok((v, total)) => {
                    let all = self.repo.articles().filter(article_listed(opt_view(query.q), query_category(*query)));
                    let pg = page(all, list_limit(*query), list_offset(*query));
                    &&& list_limit(*query) >= 0 && list_offset(*query) >= 0
                    &&& v@.len() == pg.len()
                    &&& forall|k: int| 0 <= k < v@.len() ==> is_article_resp_of(#[trigger] v@[k], pg[k])
                    &&& total == all.len()
                },
                Err(e) => (list_limit(*query) < 0 || list_offset(*query) < 0) && e == RepoError::NegativePaging,
            },
    {
        let category = match &query.category {
            Some(c) => ArticleCategory::parse(c.as_str()),
            None => None,
        };
        let params = ArticleListParams {
            q: crate::util::clone_opt_string(&query.q),
            category,
            sort_dir: crate::util::clone_opt_string(&query.sort_dir),
            limit: match query.limit {
                Some(l) => l,
                None => DEFAULT_LIMIT,
            },
            offset: match query.offset {
                Some(o) => o,
                None => 0,
            },
        };
        match self.repo.list(&params) {
            Ok((items, total)) => {
                let ghost s = items@;
                let mut items = items;
                let mut v: Vec<AdminArticleResponse> = Vec::new();
                while items.len() > 0
                    invariant
                        items@ == s.take(items@.len() as int),
                        v@.len() == s.len() - items@.len(),
                        forall|k: int| 0 <= k < v@.len() ==> is_article_resp_of(#[trigger] v@[k], s[s.len() - 1 - k]),
                    decreases items@.len(),
                {
                    let x = items.pop().unwrap();
                    proof {
                        assert(items@ =~= s.take(items@.len() as int));
                    }
                    v.push(to_admin_resp(x));
                }
                let v = crate::store::reversed(v);
                proof {
                    assert forall|k: int| 0 <= k < s.len() implies is_article_resp_of(#[trigger] v@[k], s[k]) by {
                        assert(v@[k] == v@.reverse()[s.len() - 1 - k]);
                    }
                }
                Ok((v, total))
            },
            Err(e) => Err(e),
        }
    }

    /// The article with the identifier; `NotFound` when there is none or it
    /// has been soft-deleted.
    pub fn admin_get(&self, id: u128) -> (r: Result<AdminArticleResponse, CommsError>)
        requires
            self.repo.wf(),
        ensures
            r is Ok == (has_key(self.repo.articles(), id)
                && self.repo.articles()[pos_of(self.repo.articles(), id)].deleted_at is None),
            match r {
                Ok(resp) => is_article_resp_of(resp, self.repo.articles()[pos_of(self.repo.articles(), id)]),
                Err(e) => e == CommsError::NotFound,
            },
    {
        match self.repo.find_by_id(id) {
            Some(x) => {
                if x.deleted_at.is_some() {
                    Err(CommsError::NotFound)
                } else {
                    Ok(to_admin_resp(x))
                }
            },
            None => Err(CommsError::NotFound),
        }
    }

    /// Publishes a new article with sanitized title and body and no photo.
    /// Refused when the rate limiter said no, or the identifier is taken.
    pub fn admin_create(&mut self, author_id: u128, input: &CreateArticleInput, id: u128, now: i64, rate_allowed: bool) -> (r: Result<CorporateArticle, CommsError>)
        requires
            old(self).repo.wf(),
        ensures
            final(self).repo.wf(),
            r is Ok == (rate_allowed && !has_key(old(self).repo.articles(), id)),
            match r {
                Ok(x) => {
                    &&& x.id == id && x.author_id == author_id && x.category == input.category
                    &&& x.title@ == clean_text_spec(input.title@) && x.body@ == clean_text_spec(input.body@)
                    &&& x.photo_object_key is None && x.deleted_at is None
                    &&& x.created_at == now && x.updated_at == now
                    &&& exists|k: int| 0 <= k <= old(self).repo.articles().len() && final(self).repo.articles() == old(self).repo.articles().insert(k, x)
                },
                Err(e) => final(self).repo == old(self).repo && if !rate_allowed {
                    e == CommsError::TooManyRequests
                } else {
                    e == CommsError::Repo(RepoError::DuplicateId)
                },
            },
    {
        if !rate_allowed {
            return Err(CommsError::TooManyRequests);
        }
        let p = CreateArticleParams {
            author_id,
            title: sanitize(input.title.as_str()),
            body: sanitize(input.body.as_str()),
            category: input.category,
            photo_object_key: None,
        };
        match self.repo.create(p, id, now) {
            Ok(x) => Ok(x),
            Err(e) => Err(CommsError::Repo(e)),
        }
    }

    /// Replaces an article's title and body (sanitized) and category; the
    /// photo becomes the given one, or stays when none is given. `NotFound`
    /// when there is no such article or it was soft-deleted.
    pub fn admin_update(&mut self, id: u128, input: &UpdateArticleInput, now: i64) -> (r: Result<CorporateArticle, CommsError>)
        requires
            old(self).repo.wf(),
        ensures
            final(self).repo.wf(),
            r is Ok == (has_key(old(self).repo.articles(), id) && old(self).repo.articles()[pos_of(old(self).repo.articles(), id)].deleted_at is None),
            match r {
                Ok(x) => {
                    let q = pos_of(old(self).repo.articles(), id);
                    let x0 = old(self).repo.articles()[q];
                    &&& x.id == x0.id && x.author_id == x0.author_id && x.created_at == x0.created_at && x.deleted_at == x0.deleted_at
                    &&& x.title@ == clean_text_spec(input.title@) && x.body@ == clean_text_spec(input.body@)
                    &&& x.category == input.category
                    &&& opt_view(x.photo_object_key) == match input.photo_object_key {
                        Some(k) => Some(k@),
                        None => opt_view(x0.photo_object_key),
                    }
                    &&& x.updated_at == now
                    &&& final(self).repo.articles() == old(self).repo.articles().update(q, x)
                },
                Err(e) => e == CommsError::NotFound && final(self).repo == old(self).repo,
            },
    {
        let existing = match self.repo.find_by_id(id) {
            Some(x) => x,
            None => { return Err(CommsError::NotFound); },
        };
        let photo = match &input.photo_object_key {
            Some(k) => Some(k.clone()),
            None => existing.photo_object_key,
        };
        let p = UpdateArticleParams {
            id,
            title: sanitize(input.title.as_str()),
            body: sanitize(input.body.as_str()),
            category: input.category,
            photo_object_key: photo,
        };
        match self.repo.update(p, now) {
            Some(x) => Ok(x),
            None => Err(CommsError::NotFound),
        }
    }

    /// Soft-deletes an article; false when there is no article to delete.
    pub fn admin_delete(&mut self, id: u128, now: i64) -> (r: bool)
        requires
            old(self).repo.wf(),
        ensures
            final(self).repo.wf(),
            r == (has_key(old(self).repo.articles(), id) && old(self).repo.articles()[pos_of(old(self).repo.articles(), id)].deleted_at is None),
            r ==> final(self).repo.articles() == old(self).repo.articles().update(
                pos_of(old(self).repo.articles(), id),
                CorporateArticle { deleted_at: Some(now), ..old(self).repo.articles()[pos_of(old(self).repo.articles(), id)] },
            ),
            !r ==> final(self).repo == old(self).repo,
    {
        self.repo.soft_delete(id, now)
    }
}

} // verus!

verus! {

/// Soft deletion is final: the deleted article stays stored, leaves every
/// listing, and reading it, deleting it again or editing it is refused.
pub proof fn law_deleted_article_stays_deleted(
    before: Seq<CorporateArticle>,
    id: u128,
    now: i64,
    q: Option<Seq<char>>,
    category: Option<ArticleCategory>,
)
    requires
        unique_keys(before),
        has_key(before, id),
    ensures
        ({
            let after = before.update(
                pos_of(before, id),
                CorporateArticle { deleted_at: Some(now), ..before[pos_of(before, id)] },
            );
            &&& has_key(after, id)
            &&& after[pos_of(after, id)].deleted_at == Some(now)
            &&& !(has_key(after, id) && after[pos_of(after, id)].deleted_at is None)
            &&& !article_listed(q, category)(after[pos_of(after, id)])
        }),
{
    let p = pos_of(before, id);
    let after = before.update(p, CorporateArticle { deleted_at: Some(now), ..before[p] });
    assert(after[p].key() == id);
    assert(has_key(after, id));
    assert forall|i: int, j: int| 0 <= i < after.len() && 0 <= j < after.len() && i != j implies after[i].key()
        != after[j].key() by {
        assert(before[i].key() != before[j].key());
    }
    crate::store::lemma_unique_pos(after, pos_of(after, id), p);
}

} // verus!
