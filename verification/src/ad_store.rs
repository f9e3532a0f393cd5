use vstd::prelude::*;

use crate::moderation::{
    cooldown, expirable_pred, expire_ads, expire_spec, in_cooldown, is_suspension_record, live_ids, opt_view,
    suspend_ads, suspend_spec, suspended_status, IklanSuspension, Moderated, ModerationStatus,
};
use crate::store::{
    copies, find_pos, has_key, insert_newest_first, lemma_unique_pos, lookup, lookup_matches, newest_first, page,
    pos_of, select, select_page, unique_keys, RepoError, Row,
};

verus! {

/// Ads of one kind with their suspension audit log, kept newest first.
pub struct AdStore<T> {
    rows: Vec<T>,
    suspensions: Vec<IklanSuspension>,
}

/// One owner's ads that are not soft-deleted.
pub open spec fn owned_by<T: Moderated>(owner: u128) -> spec_fn(T) -> bool {
    |x: T| x.owner() == owner && !x.is_deleted()
}

/// Ads whose identifier is among `ids`.
pub open spec fn among<T: Moderated>(ids: Seq<u128>) -> spec_fn(T) -> bool {
    |x: T| ids.contains(x.key())
}

/// The moderation status an admin listing asks for (`active` when unset).
pub open spec fn wanted_status(s: Option<String>) -> Seq<char> {
    match s {
        Some(v) => v@,
        None => ModerationStatus::Active.name(),
    }
}

/// Newest first, or reversed to oldest first.
pub open spec fn ordered<T>(s: Seq<T>, ascending: bool) -> Seq<T> {
    if ascending {
        s.reverse()
    } else {
        s
    }
}

impl<T: Moderated> AdStore<T> {
    pub closed spec fn ads(&self) -> Seq<T> {
        self.rows@
    }

    pub closed spec fn log(&self) -> Seq<IklanSuspension> {
        self.suspensions@
    }

    /// Identifiers are unique and rows are kept newest first.
    pub open spec fn wf(&self) -> bool {
        &&& unique_keys(self.ads())
        &&& newest_first(self.ads())
    }

    pub fn new() -> (r: AdStore<T>)
        ensures
            r.wf(),
            r.ads() == Seq::<T>::empty(),
            r.log() == Seq::<IklanSuspension>::empty(),
    {
        AdStore { rows: Vec::new(), suspensions: Vec::new() }
    }

    /// The ad with the identifier, soft-deleted or not.
    pub fn find_by_id(&self, id: u128) -> (r: Option<T>)
        requires
            self.wf(),
        ensures
            lookup_matches(self.ads(), id, r),
    {
        lookup(&self.rows, id)
    }

    /// Whether an ad with the identifier is stored.
    pub fn exists_id(&self, id: u128) -> (r: bool)
        ensures
            r == has_key(self.ads(), id),
    {
        find_pos(&self.rows, id).is_some()
    }

    /// The ads that satisfy `p`, newest first, one page. `f` decides `p`.
    pub fn list_where<F: Fn(&T) -> bool>(&self, f: F, Ghost(p): Ghost<spec_fn(T) -> bool>, limit: i64, offset: i64) -> (r: Result<Vec<T>, RepoError>)
        requires
            forall|x: &T| #[trigger] f.requires((x,)),
            forall|x: &T, b: bool| f.ensures((x,), b) ==> b == p(*x),
        ensures
            match r {
                Ok(items) => limit >= 0 && offset >= 0 && copies(items@, page(self.ads().filter(p), limit as int, offset as int)),
                Err(e) => (limit < 0 || offset < 0) && e == RepoError::NegativePaging,
            },
    {
        select_page(&self.rows, f, Ghost(p), limit, offset)
    }

    /// All ads that satisfy `p`, newest first. `f` decides `p`.
    pub fn all_where<F: Fn(&T) -> bool>(&self, f: F, Ghost(p): Ghost<spec_fn(T) -> bool>) -> (r: Vec<T>)
        requires
            forall|x: &T| #[trigger] f.requires((x,)),
            forall|x: &T, b: bool| f.ensures((x,), b) ==> b == p(*x),
        ensures
            copies(r@, self.ads().filter(p)),
    {
        select(&self.rows, f, Ghost(p))
    }

    /// One owner's ads that are not soft-deleted, newest first, one page.
    pub fn list_by_owner(&self, owner: u128, limit: i64, offset: i64) -> (r: Result<Vec<T>, RepoError>)
        ensures
            match r {
                Ok(items) => limit >= 0 && offset >= 0 && copies(items@, page(self.ads().filter(owned_by::<T>(owner)), limit as int, offset as int)),
                Err(e) => (limit < 0 || offset < 0) && e == RepoError::NegativePaging,
            },
    {
        let f = |x: &T| -> (b: bool)
            ensures
                b == (x.owner() == owner && !x.is_deleted()),
            { x.owner_id() == owner && !x.deleted() };
        select_page(&self.rows, f, Ghost(owned_by::<T>(owner)), limit, offset)
    }

    /// The ads whose identifiers are listed (batch lookup).
    pub fn find_by_ids(&self, ids: &Vec<u128>) -> (r: Vec<T>)
        ensures
            copies(r@, self.ads().filter(among::<T>(ids@))),
    {
        let f = |x: &T| -> (b: bool)
            ensures
                b == ids@.contains(x.key()),
            { crate::util::contains_id(ids, x.row_id()) };
        select(&self.rows, f, Ghost(among::<T>(ids@)))
    }

    /// Stores a new ad; refused when its identifier is taken.
    pub fn insert(&mut self, x: T) -> (r: Result<T, RepoError>)
        requires
            old(self).wf(),
        ensures
            final(self).wf(),
            final(self).log() == old(self).log(),
            match r {
                Ok(y) => !has_key(old(self).ads(), x.key()) && y.same(&x) && exists|k: int|
                    0 <= k <= old(self).ads().len() && final(self).ads() == old(self).ads().insert(k, x),
                Err(e) => has_key(old(self).ads(), x.key()) && e == RepoError::DuplicateId && *final(self) == *old(self),
            },
    {
        if find_pos(&self.rows, x.row_id()).is_some() {
            return Err(RepoError::DuplicateId);
        }
        let out = x.duplicate();
        proof {
            out.lemma_same(&x);
        }
        let ghost before = self.rows@;
        let ghost xv = x;
        let k = insert_newest_first(&mut self.rows, x);
        proof {
            crate::store::lemma_insert_fresh_unique(before, k as int, xv);
        }
        Ok(out)
    }

    /// Removes the owner's ad. False when the owner has no ad with the
    /// identifier.
    pub fn delete(&mut self, id: u128, owner: u128) -> (r: bool)
        requires
            old(self).wf(),
        ensures
            final(self).wf(),
            final(self).log() == old(self).log(),
            r == (has_key(old(self).ads(), id) && old(self).ads()[pos_of(old(self).ads(), id)].owner() == owner),
            r ==> final(self).ads() == old(self).ads().remove(pos_of(old(self).ads(), id)),
            !r ==> *final(self) == *old(self),
    {
        match find_pos(&self.rows, id) {
            Some(q) => {
                proof {
                    lemma_unique_pos(self.rows@, q as int, pos_of(self.rows@, id));
                }
                if self.rows[q].owner_id() == owner {
                    let _ = self.rows.remove(q);
                    proof {
                        crate::store::lemma_remove_keeps(old(self).rows@, q as int);
                    }
                    true
                } else {
                    false
                }
            },
            None => false,
        }
    }

    /// Replaces the ad at the identifier by `x`, which keeps its identifier
    /// and creation time. False, and nothing changes, when no ad has the
    /// identifier.
    pub fn replace(&mut self, id: u128, x: T) -> (r: bool)
        requires
            old(self).wf(),
            x.key() == id,
            has_key(old(self).ads(), id) ==> x.stamp() == old(self).ads()[pos_of(old(self).ads(), id)].stamp(),
        ensures
            final(self).wf(),
            final(self).log() == old(self).log(),
            r == has_key(old(self).ads(), id),
            r ==> final(self).ads() == old(self).ads().update(pos_of(old(self).ads(), id), x),
            !r ==> *final(self) == *old(self),
    {
        match find_pos(&self.rows, id) {
            Some(q) => {
                proof {
                    lemma_unique_pos(self.rows@, q as int, pos_of(self.rows@, id));
                }
                let ghost before = self.rows@;
                let _ = self.rows.remove(q);
                self.rows.insert(q, x);
                proof {
                    assert(self.rows@ =~= before.update(q as int, x));
                    crate::store::lemma_same_keys_keeps(before, self.rows@);
                }
                true
            },
            None => false,
        }
    }

    /// Applies `f` (which computes `g`, keeping identifier and creation
    /// time) to the ad with the identifier. False, and nothing changes, when
    /// no ad has the identifier.
    pub fn update_with<F: Fn(T) -> T>(&mut self, id: u128, f: F, Ghost(g): Ghost<spec_fn(T) -> T>) -> (r: bool)
        requires
            old(self).wf(),
            forall|x: T| #[trigger] f.requires((x,)),
            forall|x: T, y: T| f.ensures((x,), y) ==> y == g(x),
            forall|x: T| (#[trigger] g(x)).key() == x.key() && g(x).stamp() == x.stamp(),
        ensures
            final(self).wf(),
            final(self).log() == old(self).log(),
            r == has_key(old(self).ads(), id),
            r ==> final(self).ads() == old(self).ads().update(
                pos_of(old(self).ads(), id),
                g(old(self).ads()[pos_of(old(self).ads(), id)]),
            ),
            !r ==> *final(self) == *old(self),
    {
        match find_pos(&self.rows, id) {
            Some(q) => {
                proof {
                    lemma_unique_pos(self.rows@, q as int, pos_of(self.rows@, id));
                }
                let ghost before = self.rows@;
                let x = self.rows.remove(q);
                let y = f(x);
                self.rows.insert(q, y);
                proof {
                    assert(self.rows@ =~= before.update(q as int, g(before[q as int])));
                    crate::store::lemma_same_keys_keeps(before, self.rows@);
                }
                true
            },
            None => false,
        }
    }

    /// The admin listing: ads in the wanted moderation status (default
    /// `active`) that are not soft-deleted and that `p` admits (the search),
    /// oldest or newest first, one page, with the number of matching ads
    /// (zero when the page is empty).
    pub fn admin_list<F: Fn(&T) -> bool>(
        &self,
        status: &Option<String>,
        f: F,
        Ghost(p): Ghost<spec_fn(T) -> bool>,
        ascending: bool,
        limit: i64,
        offset: i64,
    ) -> (r: Result<(Vec<T>, i64), RepoError>)
        requires
            self.ads().len() <= i64::MAX,
            forall|x: &T| #[trigger] f.requires((x,)),
            forall|x: &T, b: bool| f.ensures((x,), b) ==> b == p(*x),
        ensures
            match r {
                Ok((items, total)) => {
                    let all = ordered(self.ads().filter(admin_filter(wanted_status(*status), p)), ascending);
                    &&& limit >= 0 && offset >= 0
                    &&& copies(items@, page(all, limit as int, offset as int))
                    &&& total == if items@.len() == 0 { 0 } else { all.len() as int }
                },
                Err(e) => (limit < 0 || offset < 0) && e == RepoError::NegativePaging,
            },
    {
        let want: String = match status {
            Some(s) => s.clone(),
            None => ModerationStatus::Active.to_string(),
        };
        let ghost pw = admin_filter(wanted_status(*status), p);
        let g = |x: &T| -> (b: bool)
            ensures
                b == (x.moderation().name() == want@ && !x.is_deleted() && p(*x)),
            { crate::text::str_eq(x.moderation_of().as_str(), want.as_str()) && !x.deleted() && f(x) };
        let all = select(&self.rows, g, Ghost(pw));
        let ordered_rows = if ascending { crate::store::reversed(all) } else { all };
        proof {
            if ascending {
                crate::store::lemma_copies_reverse(all@, self.ads().filter(pw));
            }
            self.ads().lemma_filter_len(pw);
        }
        let total_all = ordered_rows.len();
        match crate::store::page_of(&ordered_rows, limit, offset) {
            Ok(items) => {
                proof {
                    let target = ordered(self.ads().filter(pw), ascending);
                    crate::store::lemma_copies_page(ordered_rows@, target, limit as int, offset as int);
                    crate::store::lemma_copies_trans(items@, page(ordered_rows@, limit as int, offset as int), page(target, limit as int, offset as int));
                }
                let total: i64 = if items.len() == 0 { 0 } else { total_all as i64 };
                Ok((items, total))
            },
            Err(e) => Err(e),
        }
    }

    /// The CSV export: like the admin listing, newest first, at most
    /// `limit` ads from the start.
    pub fn admin_list_all<F: Fn(&T) -> bool>(
        &self,
        status: &Option<String>,
        f: F,
        Ghost(p): Ghost<spec_fn(T) -> bool>,
        limit: i64,
    ) -> (r: Result<Vec<T>, RepoError>)
        requires
            forall|x: &T| #[trigger] f.requires((x,)),
            forall|x: &T, b: bool| f.ensures((x,), b) ==> b == p(*x),
        ensures
            match r {
                Ok(items) => limit >= 0 && copies(items@, page(self.ads().filter(admin_filter(wanted_status(*status), p)), limit as int, 0)),
                Err(e) => limit < 0 && e == RepoError::NegativePaging,
            },
    {
        let want: String = match status {
            Some(s) => s.clone(),
            None => ModerationStatus::Active.to_string(),
        };
        let g = |x: &T| -> (b: bool)
            ensures
                b == (x.moderation().name() == want@ && !x.is_deleted() && p(*x)),
            { crate::text::str_eq(x.moderation_of().as_str(), want.as_str()) && !x.deleted() && f(x) };
        select_page(&self.rows, g, Ghost(admin_filter(wanted_status(*status), p)), limit, 0)
    }

    /// Soft-deletes an ad that is not yet soft-deleted.
    pub fn soft_delete(&mut self, id: u128, now: i64) -> (r: bool)
        requires
            old(self).wf(),
        ensures
            final(self).wf(),
            final(self).log() == old(self).log(),
            r == (has_key(old(self).ads(), id) && !old(self).ads()[pos_of(old(self).ads(), id)].is_deleted()),
            r ==> final(self).ads() == old(self).ads().update(
                pos_of(old(self).ads(), id),
                old(self).ads()[pos_of(old(self).ads(), id)].soft_deleted(now),
            ),
            !r ==> *final(self) == *old(self),
    {
        match find_pos(&self.rows, id) {
            Some(q) => {
                proof {
                    lemma_unique_pos(self.rows@, q as int, pos_of(self.rows@, id));
                }
                if !self.rows[q].deleted() {
                    let ghost before = self.rows@;
                    proof {
                        before[q as int].lemma_soft_deleted(now);
                    }
                    let mut x = self.rows.remove(q);
                    x.mark_deleted(now);
                    self.rows.insert(q, x);
                    proof {
                        assert(self.rows@ =~= before.update(q as int, before[q as int].soft_deleted(now)));
                        crate::store::lemma_same_keys_keeps(before, self.rows@);
                    }
                    true
                } else {
                    false
                }
            },
            None => false,
        }
    }

    /// Suspends the listed ads (see `suspend_ads`).
    pub fn suspend(
        &mut self,
        iklan_ids: &Vec<u128>,
        is_permanent: bool,
        reason: &str,
        evidence_object_key: &Option<String>,
        expires_at: Option<i64>,
        created_by: u128,
        now: i64,
    ) -> (made: Vec<IklanSuspension>)
        requires
            old(self).wf(),
        ensures
            final(self).wf(),
            final(self).ads() == suspend_spec(old(self).ads(), iklan_ids@, suspended_status(is_permanent), now),
            made@.len() == live_ids(old(self).ads(), iklan_ids@).len(),
            forall|k: int|
                0 <= k < made@.len() ==> is_suspension_record(
                    #[trigger] made@[k],
                    live_ids(old(self).ads(), iklan_ids@)[k],
                    is_permanent,
                    reason@,
                    opt_view(*evidence_object_key),
                    expires_at,
                    created_by,
                    now,
                ),
            final(self).log() == old(self).log() + made@,
    {
        let made = suspend_ads(&mut self.rows, &mut self.suspensions, iklan_ids, is_permanent, reason, evidence_object_key, expires_at, created_by, now);
        proof {
            let a0 = old(self).rows@;
            assert forall|j: int| 0 <= j < a0.len() implies (#[trigger] self.rows@[j]).key() == a0[j].key()
                && self.rows@[j].stamp() == a0[j].stamp() by {
                a0[j].lemma_moderated(suspended_status(is_permanent), now);
            }
            crate::moderation::lemma_moderate_keeps_order(old(self).rows@, self.rows@);
        }
        made
    }

    /// Lifts lapsed temporary suspensions; returns how many ads changed.
    pub fn expire_temporary_suspensions(&mut self, now: i64) -> (n: u64)
        requires
            old(self).wf(),
        ensures
            final(self).wf(),
            final(self).log() == old(self).log(),
            final(self).ads() == expire_spec(old(self).ads(), old(self).log(), now),
            n == old(self).ads().filter(expirable_pred::<T>(old(self).log(), now)).len(),
    {
        let n = expire_ads(&mut self.rows, &self.suspensions, now);
        proof {
            let a0 = old(self).rows@;
            assert forall|j: int| 0 <= j < a0.len() implies (#[trigger] self.rows@[j]).key() == a0[j].key()
                && self.rows@[j].stamp() == a0[j].stamp() by {
                a0[j].lemma_moderated(ModerationStatus::Active, now);
            }
            crate::moderation::lemma_moderate_keeps_order(old(self).rows@, self.rows@);
        }
        n
    }

    /// Whether the owner is in the three-day cooldown after a permanent
    /// suspension.
    pub fn is_poster_in_cooldown(&self, poster_id: u128, now: i64) -> (r: bool)
        ensures
            r == in_cooldown(self.ads(), self.log(), poster_id, now),
    {
        cooldown(&self.rows, &self.suspensions, poster_id, now)
    }
}

/// The admin listing's filter: the wanted status, not soft-deleted, and
/// admitted by the search.
pub open spec fn admin_filter<T: Moderated>(status: Seq<char>, p: spec_fn(T) -> bool) -> spec_fn(T) -> bool {
    |x: T| x.moderation().name() == status && !x.is_deleted() && p(x)
}

} // verus!

verus! {

/// An ad with a title that owners are told about.
pub trait Titled: Moderated {
    spec fn title(&self) -> Seq<char>;

    fn title_str(&self) -> (r: &str)
        ensures
            r@ == self.title(),
    ;

    proof fn lemma_title_kept(&self, m: ModerationStatus, now: i64)
        ensures
            self.moderated(m, now).title() == self.title(),
    ;

    proof fn lemma_same_titled(&self, o: &Self)
        ensures
            self.same(o) ==> o.title() == self.title() && o.owner() == self.owner(),
    ;
}

/// A suspension keeps each ad's identifier, owner and title.
pub proof fn lemma_suspended_keeps<T: Titled>(ads: Seq<T>, ids: Seq<u128>, m: ModerationStatus, now: i64, id: u128)
    requires
        unique_keys(ads),
        crate::moderation::is_live(ads, id),
    ensures
        has_key(suspend_spec(ads, ids, m, now), id),
        pos_of(suspend_spec(ads, ids, m, now), id) == pos_of(ads, id),
        suspend_spec(ads, ids, m, now)[pos_of(ads, id)].owner() == ads[pos_of(ads, id)].owner(),
        suspend_spec(ads, ids, m, now)[pos_of(ads, id)].title() == ads[pos_of(ads, id)].title(),
{
    let after = suspend_spec(ads, ids, m, now);
    let j = choose|j: int| 0 <= j < ads.len() && ads[j].key() == id && !ads[j].is_deleted();
    ads[j].lemma_moderated(m, now);
    assert(after[j].key() == id);
    let p = pos_of(ads, id);
    lemma_unique_pos(ads, j, p);
    let q = pos_of(after, id);
    ads[q].lemma_moderated(m, now);
    assert(after[q].key() == ads[q].key());
    lemma_unique_pos(ads, q, p);
    ads[p].lemma_moderated(m, now);
    ads[p].lemma_title_kept(m, now);
}

impl<T: Titled> AdStore<T> {
    /// Suspends the listed ads that exist and are not soft-deleted, records
    /// one audit entry per suspended ad, answers one outcome per requested
    /// identifier (success exactly for the suspended ones) and gives the
    /// notice for the owner of each suspended ad.
    pub fn suspend_and_notify(
        &mut self,
        iklan_ids: &Vec<u128>,
        is_permanent: bool,
        reason: &String,
        evidence: &Option<String>,
        expires_at: Option<i64>,
        admin_id: u128,
        now: i64,
    ) -> (r: (crate::moderation::SuspendResponse, Vec<crate::moderation::SuspensionNotice>))
        requires
            old(self).wf(),
        ensures
            final(self).wf(),
            final(self).ads() == suspend_spec(old(self).ads(), iklan_ids@, suspended_status(is_permanent), now),
            final(self).log().subrange(0, old(self).log().len() as int) == old(self).log(),
            final(self).log().len() == old(self).log().len() + live_ids(old(self).ads(), iklan_ids@).len(),
            forall|k: int| 0 <= k < live_ids(old(self).ads(), iklan_ids@).len() ==> is_suspension_record(
                #[trigger] final(self).log()[old(self).log().len() + k],
                live_ids(old(self).ads(), iklan_ids@)[k],
                is_permanent,
                reason@,
                opt_view(*evidence),
                expires_at,
                admin_id,
                now,
            ),
            r.0.results@.len() == iklan_ids@.len(),
            forall|k: int| 0 <= k < iklan_ids@.len() ==> {
                let it = #[trigger] r.0.results@[k];
                &&& it.iklan_id == iklan_ids@[k]
                &&& it.success == crate::moderation::is_live(old(self).ads(), iklan_ids@[k])
                &&& it.success ==> it.error is None
                &&& !it.success ==> opt_view(it.error) == Some(crate::moderation::not_suspended_message())
            },
            r.1@.len() == live_ids(old(self).ads(), iklan_ids@).len(),
            forall|k: int| 0 <= k < r.1@.len() ==> {
                let id = live_ids(old(self).ads(), iklan_ids@)[k];
                let ad = old(self).ads()[pos_of(old(self).ads(), id)];
                &&& (#[trigger] r.1@[k]).owner_id == ad.owner()
                &&& r.1@[k].iklan_id == id
                &&& r.1@[k].is_permanent == is_permanent
                &&& r.1@[k].title@ == crate::moderation::notice_title(is_permanent)
                &&& r.1@[k].body@ == crate::moderation::notice_body(ad.title(), id, reason@)
            },
    {
        let ghost a0 = self.ads();
        let ghost ids = iklan_ids@;
        let made = self.suspend(iklan_ids, is_permanent, reason.as_str(), evidence, expires_at, admin_id, now);
        let ghost live = live_ids(a0, ids);
        let resp = crate::moderation::suspend_results(iklan_ids, &made);
        proof {
            assert forall|k: int| 0 <= k < ids.len() implies {
                let it = #[trigger] resp.results@[k];
                it.success == crate::moderation::is_live(a0, ids[k])
            } by {
                let id = ids[k];
                let it = resp.results@[k];
                assert(crate::moderation::is_result_for(it, id, made@));
                if crate::moderation::is_live(a0, id) {
                    ids.lemma_filter_contains(crate::moderation::live_pred(a0), k);
                    assert(live.contains(id));
                    let m = choose|m: int| 0 <= m < live.len() && live[m] == id;
                    assert(made@[m].iklan_id == id);
                }
                if it.success {
                    let m = choose|m: int| 0 <= m < made@.len() && #[trigger] made@[m].iklan_id == id;
                    ids.lemma_filter_pred(crate::moderation::live_pred(a0), m);
                }
            }
            assert forall|k: int| 0 <= k < live.len() implies is_suspension_record(
                #[trigger] self.log()[old(self).log().len() + k],
                live[k],
                is_permanent,
                reason@,
                opt_view(*evidence),
                expires_at,
                admin_id,
                now,
            ) by {
                assert(self.log()[old(self).log().len() + k] == made@[k]);
            }
        }
        let mut notices: Vec<crate::moderation::SuspensionNotice> = Vec::new();
        let mut i: usize = 0;
        while i < made.len()
            invariant
                i <= made@.len(),
                made@.len() == live.len(),
                live == live_ids(a0, ids),
                forall|k: int| 0 <= k < made@.len() ==> is_suspension_record(
                    #[trigger] made@[k],
                    live[k],
                    is_permanent,
                    reason@,
                    opt_view(*evidence),
                    expires_at,
                    admin_id,
                    now,
                ),
                self.wf(),
                self.ads() == suspend_spec(a0, ids, suspended_status(is_permanent), now),
                unique_keys(a0),
                notices@.len() == i,
                forall|k: int| 0 <= k < i ==> {
                    let id = live[k];
                    let ad = a0[pos_of(a0, id)];
                    &&& (#[trigger] notices@[k]).owner_id == ad.owner()
                    &&& notices@[k].iklan_id == id
                    &&& notices@[k].is_permanent == is_permanent
                    &&& notices@[k].title@ == crate::moderation::notice_title(is_permanent)
                    &&& notices@[k].body@ == crate::moderation::notice_body(ad.title(), id, reason@)
                },
            decreases made@.len() - i,
        {
            let s = &made[i];
            let ghost id = live[i as int];
            proof {
                ids.lemma_filter_pred(crate::moderation::live_pred(a0), i as int);
                lemma_suspended_keeps(a0, ids, suspended_status(is_permanent), now, id);
            }
            match self.find_by_id(s.iklan_id) {
                Some(ad) => {
                    proof {
                        ad.lemma_same(&self.ads()[pos_of(self.ads(), id)]);
                        ad.lemma_same_titled(&self.ads()[pos_of(self.ads(), id)]);
                    }
                    let n = crate::moderation::suspension_notice(ad.owner_id(), ad.title_str(), s);
                    notices.push(n);
                },
                None => {
                    proof {
                        assert(false);
                    }
                },
            }
            i = i + 1;
        }
        (resp, notices)
    }
}

} // verus!

verus! {

/// In a batch lookup, the ad a listed identifier names is found exactly
/// when it is stored, and what is found is a copy of it.
pub proof fn lemma_found_is_stored<T: Moderated>(ads: Seq<T>, ids: Seq<u128>, found: Seq<T>, i: int)
    requires
        unique_keys(ads),
        copies(found, ads.filter(among::<T>(ids))),
        0 <= i < ids.len(),
    ensures
        has_key(found, ids[i]) == has_key(ads, ids[i]),
        forall|j: int| 0 <= j < found.len() && found[j].key() == ids[i] ==> found[j].same(&ads[pos_of(ads, ids[i])]),
{
    let id = ids[i];
    let flt = ads.filter(among::<T>(ids));
    if has_key(ads, id) {
        let p = pos_of(ads, id);
        assert(among::<T>(ids)(ads[p]));
        ads.lemma_filter_contains(among::<T>(ids), p);
        let m = choose|m: int| 0 <= m < flt.len() && flt[m] == ads[p];
        assert(found[m].same(&flt[m]));
        found[m].lemma_same(&flt[m]);
        assert(found[m].key() == id);
    }
    assert forall|j: int| 0 <= j < found.len() && found[j].key() == ids[i] implies found[j].same(&ads[pos_of(ads, ids[i])]) by {
        assert(found[j].same(&flt[j]));
        found[j].lemma_same(&flt[j]);
        assert(flt.contains(flt[j]));
        ads.lemma_filter_contains_rev(among::<T>(ids), flt[j]);
        let q = choose|q: int| 0 <= q < ads.len() && ads[q] == flt[j];
        assert(ads[q].key() == id);
        lemma_unique_pos(ads, q, pos_of(ads, id));
    }
    if has_key(found, id) {
        let j = choose|j: int| 0 <= j < found.len() && found[j].key() == id;
        assert(found[j].same(&flt[j]));
        found[j].lemma_same(&flt[j]);
        assert(flt.contains(flt[j]));
        ads.lemma_filter_contains_rev(among::<T>(ids), flt[j]);
        let q = choose|q: int| 0 <= q < ads.len() && ads[q] == flt[j];
        assert(ads[q].key() == id);
    }
}

} // verus!
