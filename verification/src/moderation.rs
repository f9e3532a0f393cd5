use vstd::prelude::*;

use crate::text::str_eq;

verus! {

/// Moderation state of an ad (the admin's state machine).
#[derive(Debug, Clone, Copy, PartialEq, Eq, Structural)]
pub enum ModerationStatus {
    Active,
    SuspendedTemp,
    SuspendedPermanent,
}

impl ModerationStatus {
    /// The name stored in the database and shown to clients.
    pub open spec fn name(self) -> Seq<char> {
        match self {
            ModerationStatus::Active => seq!['a', 'c', 't', 'i', 'v', 'e'],
            ModerationStatus::SuspendedTemp => seq![
                's', 'u', 's', 'p', 'e', 'n', 'd', 'e', 'd', '_', 't', 'e', 'm', 'p',
            ],
            ModerationStatus::SuspendedPermanent => seq![
                's', 'u', 's', 'p', 'e', 'n', 'd', 'e', 'd', '_', 'p', 'e', 'r', 'm', 'a', 'n',
                'e', 'n', 't',
            ],
        }
    }

    /// The status a name denotes, if any.
    pub open spec fn from_name(s: Seq<char>) -> Option<ModerationStatus> {
        if s == ModerationStatus::Active.name() {
            Some(ModerationStatus::Active)
        } else if s == ModerationStatus::SuspendedTemp.name() {
            Some(ModerationStatus::SuspendedTemp)
        } else if s == ModerationStatus::SuspendedPermanent.name() {
            Some(ModerationStatus::SuspendedPermanent)
        } else {
            None
        }
    }

    pub fn as_str(&self) -> (r: &'static str)
        ensures
            r@ == self.name(),
    {
        match self {
            ModerationStatus::Active => {
                proof {
                    reveal_strlit("active");
                }
                "active"
            },
            ModerationStatus::SuspendedTemp => {
                proof {
                    reveal_strlit("suspended_temp");
                }
                "suspended_temp"
            },
            ModerationStatus::SuspendedPermanent => {
                proof {
                    reveal_strlit("suspended_permanent");
                }
                "suspended_permanent"
            },
        }
    }

    pub fn parse(s: &str) -> (r: Option<ModerationStatus>)
        ensures
            r == ModerationStatus::from_name(s@),
    {
        if str_eq(s, ModerationStatus::Active.as_str()) {
            Some(ModerationStatus::Active)
        } else if str_eq(s, ModerationStatus::SuspendedTemp.as_str()) {
            Some(ModerationStatus::SuspendedTemp)
        } else if str_eq(s, ModerationStatus::SuspendedPermanent.as_str()) {
            Some(ModerationStatus::SuspendedPermanent)
        } else {
            None
        }
    }

    /// The name as an owned string (what `Display` prints).
    pub fn to_string(&self) -> (r: String)
        ensures
            r@ == self.name(),
    {
        self.as_str().to_owned()
    }
}

impl Default for ModerationStatus {
    fn default() -> (r: ModerationStatus)
        ensures
            r == ModerationStatus::Active,
    {
        ModerationStatus::Active
    }
}

/// Parsing a status's own name gives the status back.
pub proof fn lemma_moderation_name_roundtrip(m: ModerationStatus)
    ensures
        ModerationStatus::from_name(m.name()) == Some(m),
{
    assert(ModerationStatus::Active.name() != ModerationStatus::SuspendedTemp.name());
    assert(ModerationStatus::Active.name().len() != ModerationStatus::SuspendedPermanent.name().len());
    assert(ModerationStatus::SuspendedTemp.name().len() != ModerationStatus::SuspendedPermanent.name().len());
}

} // verus!

verus! {

/// Audit record of one suspension.
#[derive(Debug)]
pub struct IklanSuspension {
    pub iklan_id: u128,
    pub is_permanent: bool,
    pub reason: String,
    pub evidence_object_key: Option<String>,
    pub expires_at: Option<i64>,
    pub created_by: u128,
    pub created_at: i64,
}

impl IklanSuspension {
    pub fn duplicate(&self) -> (r: IklanSuspension)
        ensures
            r == *self,
    {
        IklanSuspension {
            iklan_id: self.iklan_id,
            is_permanent: self.is_permanent,
            reason: self.reason.clone(),
            evidence_object_key: crate::util::clone_opt_string(&self.evidence_object_key),
            expires_at: self.expires_at,
            created_by: self.created_by,
            created_at: self.created_at,
        }
    }
}

/// The view of an optional string.
pub open spec fn opt_view(s: Option<String>) -> Option<Seq<char>> {
    match s {
        Some(x) => Some(x@),
        None => None,
    }
}

/// An ad that the moderation rules apply to.
pub trait Moderated: crate::store::Row {
    spec fn owner(&self) -> u128;

    spec fn moderation(&self) -> ModerationStatus;

    spec fn is_deleted(&self) -> bool;

    /// The same ad with a new moderation status, stamped as updated at `now`.
    spec fn moderated(&self, m: ModerationStatus, now: i64) -> Self;

    fn owner_id(&self) -> (r: u128)
        ensures
            r == self.owner(),
    ;

    fn moderation_of(&self) -> (r: ModerationStatus)
        ensures
            r == self.moderation(),
    ;

    fn deleted(&self) -> (r: bool)
        ensures
            r == self.is_deleted(),
    ;

    fn set_moderation(&mut self, m: ModerationStatus, now: i64)
        ensures
            *final(self) == old(self).moderated(m, now),
    ;

    /// The same ad marked as soft-deleted at `now`.
    spec fn soft_deleted(&self, now: i64) -> Self;

    fn mark_deleted(&mut self, now: i64)
        ensures
            *final(self) == old(self).soft_deleted(now),
    ;

    proof fn lemma_soft_deleted(&self, now: i64)
        ensures
            self.soft_deleted(now).key() == self.key(),
            self.soft_deleted(now).stamp() == self.stamp(),
            self.soft_deleted(now).owner() == self.owner(),
            self.soft_deleted(now).is_deleted(),
    ;

    proof fn lemma_moderated(&self, m: ModerationStatus, now: i64)
        ensures
            self.moderated(m, now).key() == self.key(),
            self.moderated(m, now).stamp() == self.stamp(),
            self.moderated(m, now).owner() == self.owner(),
            self.moderated(m, now).is_deleted() == self.is_deleted(),
            self.moderated(m, now).moderation() == m,
            self.moderated(m, now).moderated(m, now) == self.moderated(m, now),
    ;
}

/// The moderation status a suspension puts an ad in.
pub open spec fn suspended_status(is_permanent: bool) -> ModerationStatus {
    if is_permanent {
        ModerationStatus::SuspendedPermanent
    } else {
        ModerationStatus::SuspendedTemp
    }
}

/// There is a stored, not soft-deleted ad with the identifier.
pub open spec fn is_live<T: Moderated>(ads: Seq<T>, id: u128) -> bool {
    exists|j: int| 0 <= j < ads.len() && ads[j].key() == id && !ads[j].is_deleted()
}

/// The requested identifiers that name a live ad, in request order.
pub open spec fn live_ids<T: Moderated>(ads: Seq<T>, ids: Seq<u128>) -> Seq<u128> {
    ids.filter(live_pred(ads))
}

/// `is_live` as a predicate on identifiers.
pub open spec fn live_pred<T: Moderated>(ads: Seq<T>) -> spec_fn(u128) -> bool {
    |id: u128| is_live(ads, id)
}

/// The ads after suspending the requested ones.
pub open spec fn suspend_spec<T: Moderated>(
    ads: Seq<T>,
    ids: Seq<u128>,
    m: ModerationStatus,
    now: i64,
) -> Seq<T> {
    Seq::new(
        ads.len(),
        |j: int|
            if ids.contains(ads[j].key()) && !ads[j].is_deleted() {
                ads[j].moderated(m, now)
            } else {
                ads[j]
            },
    )
}

/// The audit record written for one suspended ad.
pub open spec fn is_suspension_record(
    s: IklanSuspension,
    id: u128,
    is_permanent: bool,
    reason: Seq<char>,
    evidence: Option<Seq<char>>,
    expires_at: Option<i64>,
    created_by: u128,
    now: i64,
) -> bool {
    &&& s.iklan_id == id
    &&& s.is_permanent == is_permanent
    &&& s.reason@ == reason
    &&& opt_view(s.evidence_object_key) == evidence
    &&& s.expires_at == expires_at
    &&& s.created_by == created_by
    &&& s.created_at == now
}

proof fn lemma_filter_step<A>(s: Seq<A>, p: spec_fn(A) -> bool, i: int)
    requires
        0 <= i < s.len(),
    ensures
        s.take(i + 1).filter(p) == if p(s[i]) {
            s.take(i).filter(p).push(s[i])
        } else {
            s.take(i).filter(p)
        },
{
    reveal(Seq::filter);
    assert(s.take(i + 1).drop_last() =~= s.take(i));
}

/// Suspends every requested ad that exists and is not soft-deleted: its
/// moderation status becomes temporary or permanent suspension and one
/// audit record per suspended request is appended. Identifiers that name no
/// live ad are skipped.
pub fn suspend_ads<T: Moderated>(
    ads: &mut Vec<T>,
    log: &mut Vec<IklanSuspension>,
    ids: &Vec<u128>,
    is_permanent: bool,
    reason: &str,
    evidence: &Option<String>,
    expires_at: Option<i64>,
    created_by: u128,
    now: i64,
) -> (made: Vec<IklanSuspension>)
    requires
        crate::store::unique_keys(old(ads)@),
    ensures
        final(ads)@ == suspend_spec(old(ads)@, ids@, suspended_status(is_permanent), now),
        made@.len() == live_ids(old(ads)@, ids@).len(),
        forall|k: int|
            0 <= k < made@.len() ==> is_suspension_record(
                #[trigger] made@[k],
                live_ids(old(ads)@, ids@)[k],
                is_permanent,
                reason@,
                opt_view(*evidence),
                expires_at,
                created_by,
                now,
            ),
        final(log)@ == old(log)@ + made@,
{
    let m = if is_permanent {
        ModerationStatus::SuspendedPermanent
    } else {
        ModerationStatus::SuspendedTemp
    };
    let ghost a0 = ads@;
    let ghost l0 = log@;
    let ghost p = live_pred(a0);
    let mut made: Vec<IklanSuspension> = Vec::new();
    let mut i: usize = 0;
    while i < ids.len()
        invariant
            i <= ids@.len(),
            crate::store::unique_keys(a0),
            ads@.len() == a0.len(),
            forall|j: int|
                0 <= j < a0.len() ==> #[trigger] ads@[j] == if ids@.take(i as int).contains(
                    a0[j].key(),
                ) && !a0[j].is_deleted() {
                    a0[j].moderated(m, now)
                } else {
                    a0[j]
                },
            made@.len() == ids@.take(i as int).filter(p).len(),
            forall|k: int|
                0 <= k < made@.len() ==> is_suspension_record(
                    #[trigger] made@[k],
                    ids@.take(i as int).filter(p)[k],
                    is_permanent,
                    reason@,
                    opt_view(*evidence),
                    expires_at,
                    created_by,
                    now,
                ),
            log@ == l0 + made@,
            m == suspended_status(is_permanent),
            p == live_pred(a0),
        decreases ids@.len() - i,
    {
        let id = ids[i];
        proof {
            lemma_filter_step(ids@, p, i as int);
            assert forall|j: int| 0 <= j < a0.len() implies ads@[j].key() == a0[j].key()
                && ads@[j].is_deleted() == a0[j].is_deleted() by {
                a0[j].lemma_moderated(m, now);
            }
        }
        let pos = crate::store::find_pos(ads, id);
        let mut hit = false;
        match pos {
            Some(q) => {
                if !ads[q].deleted() {
                    hit = true;
                    proof {
                        assert(a0[q as int].key() == id && !a0[q as int].is_deleted());
                        assert(is_live(a0, id));
                        a0[q as int].lemma_moderated(m, now);
                    }
                    ads[q].set_moderation(m, now);
                } else {
                    proof {
                        if is_live(a0, id) {
                            let j = choose|j: int|
                                0 <= j < a0.len() && a0[j].key() == id && !a0[j].is_deleted();
                            crate::store::lemma_unique_pos(a0, j, q as int);
                            assert(false);
                        }
                        assert(!is_live(a0, id));
                    }
                }
            },
            None => {
                proof {
                    if is_live(a0, id) {
                        let j = choose|j: int|
                            0 <= j < a0.len() && a0[j].key() == id && !a0[j].is_deleted();
                        assert(ads@[j].key() == id);
                        assert(false);
                    }
                    assert(!is_live(a0, id));
                }
            },
        }
        proof {
            assert(ids@.take(i + 1) =~= ids@.take(i as int).push(id));
            assert(hit == p(id));
        }
        if hit {
            let rec = IklanSuspension {
                iklan_id: id,
                is_permanent,
                reason: reason.to_owned(),
                evidence_object_key: crate::util::clone_opt_string(evidence),
                expires_at,
                created_by,
                created_at: now,
            };
            log.push(rec.duplicate());
            made.push(rec);
        }
        proof {
            assert forall|j: int| 0 <= j < a0.len() implies #[trigger] ads@[j] == if ids@.take(
                i + 1,
            ).contains(a0[j].key()) && !a0[j].is_deleted() {
                a0[j].moderated(m, now)
            } else {
                a0[j]
            } by {
                a0[j].lemma_moderated(m, now);
                if a0[j].key() == id {
                    assert(ids@.take(i + 1).contains(a0[j].key())) by {
                        assert(ids@.take(i + 1)[i as int] == id);
                    }
                } else {
                    assert(ids@.take(i + 1).contains(a0[j].key()) == ids@.take(i as int).contains(
                        a0[j].key(),
                    )) by {
                        if ids@.take(i + 1).contains(a0[j].key()) {
                            let k = choose|k: int| 0 <= k < i + 1 && #[trigger] ids@.take(i + 1)[k] == a0[j].key();
                            assert(ids@.take(i as int)[k] == a0[j].key());
                        }
                        if ids@.take(i as int).contains(a0[j].key()) {
                            let k = choose|k: int| 0 <= k < i && #[trigger] ids@.take(i as int)[k] == a0[j].key();
                            assert(ids@.take(i + 1)[k] == a0[j].key());
                        }
                    }
                }
            }
        }
        i = i + 1;
    }
    proof {
        assert(ids@.take(ids@.len() as int) =~= ids@);
        assert(ads@ =~= suspend_spec(a0, ids@, m, now));
    }
    made
}

} // verus!

verus! {

/// An audit record that lets a temporary suspension of `id` lapse by `now`.
pub open spec fn has_lapsed_record(log: Seq<IklanSuspension>, id: u128, now: i64) -> bool {
    exists|k: int| 0 <= k < log.len() && #[trigger] lapses(log[k], id, now)
}

/// A temporary suspension record of `id` whose expiry is at or before `now`.
pub open spec fn lapses(s: IklanSuspension, id: u128, now: i64) -> bool {
    &&& s.iklan_id == id
    &&& !s.is_permanent
    &&& match s.expires_at {
        Some(e) => e <= now,
        None => false,
    }
}

/// A live, temporarily suspended ad whose suspension has lapsed.
pub open spec fn expirable<T: Moderated>(ad: T, log: Seq<IklanSuspension>, now: i64) -> bool {
    &&& ad.moderation() == ModerationStatus::SuspendedTemp
    &&& !ad.is_deleted()
    &&& has_lapsed_record(log, ad.key(), now)
}

pub open spec fn expirable_pred<T: Moderated>(log: Seq<IklanSuspension>, now: i64) -> spec_fn(T) -> bool {
    |ad: T| expirable(ad, log, now)
}

/// The ads after lifting every lapsed temporary suspension.
pub open spec fn expire_spec<T: Moderated>(ads: Seq<T>, log: Seq<IklanSuspension>, now: i64) -> Seq<T> {
    Seq::new(
        ads.len(),
        |j: int|
            if expirable(ads[j], log, now) {
                ads[j].moderated(ModerationStatus::Active, now)
            } else {
                ads[j]
            },
    )
}

fn has_lapsed(log: &Vec<IklanSuspension>, id: u128, now: i64) -> (r: bool)
    ensures
        r == has_lapsed_record(log@, id, now),
{
    let mut k: usize = 0;
    while k < log.len()
        invariant
            k <= log@.len(),
            forall|x: int| 0 <= x < k ==> !#[trigger] lapses(log@[x], id, now),
        decreases log@.len() - k,
    {
        let s = &log[k];
        if s.iklan_id == id && !s.is_permanent {
            match s.expires_at {
                Some(e) => {
                    if e <= now {
                        assert(lapses(log@[k as int], id, now));
                        return true;
                    }
                },
                None => {},
            }
        }
        k = k + 1;
    }
    false
}

/// Lifts every temporary suspension whose expiry has passed: a live ad in
/// `suspended_temp` with a non-permanent audit record that expired at or
/// before `now` becomes active again. Returns how many ads changed.
pub fn expire_ads<T: Moderated>(ads: &mut Vec<T>, log: &Vec<IklanSuspension>, now: i64) -> (n: u64)
    ensures
        final(ads)@ == expire_spec(old(ads)@, log@, now),
        n == old(ads)@.filter(expirable_pred::<T>(log@, now)).len(),
{
    let ghost a0 = ads@;
    let ghost p = expirable_pred::<T>(log@, now);
    let mut n: u64 = 0;
    let mut j: usize = 0;
    while j < ads.len()
        invariant
            ads@.len() == a0.len(),
            j <= a0.len(),
            forall|x: int|
                0 <= x < a0.len() ==> #[trigger] ads@[x] == if x < j && expirable(a0[x], log@, now) {
                    a0[x].moderated(ModerationStatus::Active, now)
                } else {
                    a0[x]
                },
            n == a0.take(j as int).filter(p).len(),
            p == expirable_pred::<T>(log@, now),
        decreases a0.len() - j,
    {
        proof {
            lemma_filter_step(a0, p, j as int);
            a0.take(j as int).lemma_filter_len(p);
        }
        let hit = ads[j].moderation_of() == ModerationStatus::SuspendedTemp && !ads[j].deleted()
            && has_lapsed(log, ads[j].row_id(), now);
        if hit {
            proof {
                a0[j as int].lemma_moderated(ModerationStatus::Active, now);
            }
            ads[j].set_moderation(ModerationStatus::Active, now);
            n = n + 1;
        }
        j = j + 1;
    }
    proof {
        assert(a0.take(a0.len() as int) =~= a0);
        assert(ads@ =~= expire_spec(a0, log@, now));
    }
    n
}

/// Seconds in the three days after a permanent suspension during which the
/// owner may not post a new ad.
pub const COOLDOWN_SECS: i64 = 259200;

/// The owner had one of their ads permanently suspended within the last
/// three days.
pub open spec fn in_cooldown<T: Moderated>(
    ads: Seq<T>,
    log: Seq<IklanSuspension>,
    owner: u128,
    now: i64,
) -> bool {
    exists|k: int, j: int|
        0 <= k < log.len() && 0 <= j < ads.len() && #[trigger] log[k].is_permanent
            && log[k].created_at > now - COOLDOWN_SECS && #[trigger] ads[j].key() == log[k].iklan_id
            && ads[j].owner() == owner
}

/// Whether `owner` is inside the three-day cooldown after a permanent
/// suspension of one of their ads.
pub fn cooldown<T: Moderated>(ads: &Vec<T>, log: &Vec<IklanSuspension>, owner: u128, now: i64) -> (r: bool)
    ensures
        r == in_cooldown(ads@, log@, owner, now),
{
    let mut k: usize = 0;
    while k < log.len()
        invariant
            k <= log@.len(),
            forall|x: int, j: int|
                0 <= x < k && 0 <= j < ads@.len() ==> !(#[trigger] log@[x].is_permanent
                    && log@[x].created_at > now - COOLDOWN_SECS && #[trigger] ads@[j].key()
                    == log@[x].iklan_id && ads@[j].owner() == owner),
        decreases log@.len() - k,
    {
        let s = &log[k];
        if s.is_permanent && (s.created_at as i128) > (now as i128) - (COOLDOWN_SECS as i128) {
            let mut j: usize = 0;
            while j < ads.len()
                invariant
                    j <= ads@.len(),
                    k < log@.len(),
                    *s == log@[k as int],
                    s.is_permanent,
                    s.created_at > now - COOLDOWN_SECS,
                    forall|x: int, y: int|
                        0 <= x < k && 0 <= y < ads@.len() ==> !(#[trigger] log@[x].is_permanent
                            && log@[x].created_at > now - COOLDOWN_SECS && #[trigger] ads@[y].key()
                            == log@[x].iklan_id && ads@[y].owner() == owner),
                    forall|y: int|
                        0 <= y < j ==> !(#[trigger] ads@[y].key() == s.iklan_id && ads@[y].owner() == owner),
                decreases ads@.len() - j,
            {
                if ads[j].row_id() == s.iklan_id && ads[j].owner_id() == owner {
                    assert(log@[k as int].is_permanent && ads@[j as int].key() == log@[k as int].iklan_id);
                    return true;
                }
                j = j + 1;
            }
        }
        k = k + 1;
    }
    false
}

} // verus!

verus! {

/// Changing only moderation keeps keys and creation times, hence the store
/// invariants.
pub proof fn lemma_moderate_keeps_order<T: Moderated>(before: Seq<T>, after: Seq<T>)
    requires
        before.len() == after.len(),
        forall|j: int|
            0 <= j < before.len() ==> (#[trigger] after[j]).key() == before[j].key()
                && after[j].stamp() == before[j].stamp(),
    ensures
        crate::store::unique_keys(before) ==> crate::store::unique_keys(after),
        crate::store::newest_first(before) ==> crate::store::newest_first(after),
{
    if crate::store::unique_keys(before) {
        assert forall|i: int, j: int|
            0 <= i < after.len() && 0 <= j < after.len() && i != j implies after[i].key() != after[j].key() by {
            assert(before[i].key() != before[j].key());
        }
    }
    if crate::store::newest_first(before) {
        assert forall|i: int, j: int| 0 <= i <= j < after.len() implies after[i].stamp() >= after[j].stamp() by {
            assert(before[i].stamp() >= before[j].stamp());
        }
    }
}

} // verus!

verus! {

/// Default page size of listings.
pub const DEFAULT_LIMIT: i64 = 20;

/// Most rows a CSV export holds.
pub const CSV_MAX: i64 = 10000;

/// Query of the admin listing and CSV export.
pub struct AdminListQuery {
    pub q: Option<String>,
    pub status: Option<String>,
    pub sort_by: Option<String>,
    pub sort_dir: Option<String>,
    pub limit: Option<i64>,
    pub offset: Option<i64>,
}

/// Request for an upload slot for suspension evidence.
pub struct SuspendEvidenceInput {
    pub mime: String,
    pub size_bytes: u64,
}

/// Suspension of one or more ads by an admin.
pub struct SuspendInput {
    pub iklan_ids: Vec<u128>,
    pub is_permanent: bool,
    pub reason: String,
    pub evidence_object_key: String,
    pub expires_at: Option<i64>,
}

/// Outcome for one requested ad.
pub struct SuspendResultItem {
    pub iklan_id: u128,
    pub success: bool,
    pub error: Option<String>,
}

pub struct SuspendResponse {
    pub results: Vec<SuspendResultItem>,
}

/// What an owner is told about a suspension of their ad.
pub struct SuspensionNotice {
    pub owner_id: u128,
    pub iklan_id: u128,
    pub is_permanent: bool,
    pub title: String,
    pub body: String,
}

/// The error reported for a requested ad that was not suspended.
pub open spec fn not_suspended_message() -> Seq<char> {
    "iklan tidak ditemukan atau sudah tersuspensi"@
}

/// The per-ad outcome: success exactly for ads that got an audit record.
pub open spec fn is_result_for(r: SuspendResultItem, id: u128, made: Seq<IklanSuspension>) -> bool {
    let ok = exists|k: int| 0 <= k < made.len() && #[trigger] made[k].iklan_id == id;
    &&& r.iklan_id == id
    &&& r.success == ok
    &&& ok ==> r.error is None
    &&& !ok ==> opt_view(r.error) == Some(not_suspended_message())
}

/// One outcome per requested ad, in request order.
pub fn suspend_results(ids: &Vec<u128>, made: &Vec<IklanSuspension>) -> (r: SuspendResponse)
    ensures
        r.results@.len() == ids@.len(),
        forall|k: int| 0 <= k < ids@.len() ==> is_result_for(#[trigger] r.results@[k], ids@[k], made@),
{
    let mut results: Vec<SuspendResultItem> = Vec::new();
    let mut i: usize = 0;
    while i < ids.len()
        invariant
            i <= ids@.len(),
            results@.len() == i,
            forall|k: int| 0 <= k < i ==> is_result_for(#[trigger] results@[k], ids@[k], made@),
        decreases ids@.len() - i,
    {
        let id = ids[i];
        let mut found = false;
        let mut k: usize = 0;
        while k < made.len()
            invariant
                k <= made@.len(),
                !found ==> forall|x: int| 0 <= x < k ==> made@[x].iklan_id != id,
                found ==> exists|x: int| 0 <= x < made@.len() && #[trigger] made@[x].iklan_id == id,
            decreases made@.len() - k,
        {
            if made[k].iklan_id == id {
                found = true;
            }
            k = k + 1;
        }
        let item = if found {
            SuspendResultItem { iklan_id: id, success: true, error: None }
        } else {
            SuspendResultItem {
                iklan_id: id,
                success: false,
                error: Some("iklan tidak ditemukan atau sudah tersuspensi".to_owned()),
            }
        };
        results.push(item);
        i = i + 1;
    }
    SuspendResponse { results }
}

/// The notice title for a temporary or permanent suspension.
pub open spec fn notice_title(is_permanent: bool) -> Seq<char> {
    if is_permanent {
        "Iklan Anda telah ditangguhkan secara permanen"@
    } else {
        "Iklan Anda telah ditangguhkan sementara"@
    }
}

/// The notice body naming the ad, its identifier and the reason.
pub open spec fn notice_body(judul: Seq<char>, iklan_id: u128, reason: Seq<char>) -> Seq<char> {
    "Iklan \""@ + judul + "\" (ID: "@ + crate::wrap::uuid_text(iklan_id) + ") telah ditangguhkan karena: "@
        + reason + ". Silakan hubungi admin untuk informasi lebih lanjut."@
}

/// The notice to the owner of a suspended ad.
pub fn suspension_notice(owner_id: u128, judul: &str, s: &IklanSuspension) -> (r: SuspensionNotice)
    ensures
        r.owner_id == owner_id,
        r.iklan_id == s.iklan_id,
        r.is_permanent == s.is_permanent,
        r.title@ == notice_title(s.is_permanent),
        r.body@ == notice_body(judul@, s.iklan_id, s.reason@),
{
    let title = if s.is_permanent {
        "Iklan Anda telah ditangguhkan secara permanen".to_owned()
    } else {
        "Iklan Anda telah ditangguhkan sementara".to_owned()
    };
    let mut body = "Iklan \"".to_owned();
    body.append(judul);
    body.append("\" (ID: ");
    let idt = crate::wrap::uuid_string(s.iklan_id);
    body.append(idt.as_str());
    body.append(") telah ditangguhkan karena: ");
    body.append(s.reason.as_str());
    body.append(". Silakan hubungi admin untuk informasi lebih lanjut.");
    SuspensionNotice { owner_id, iklan_id: s.iklan_id, is_permanent: s.is_permanent, title, body }
}

} // verus!

verus! {

/// After a suspension every requested live ad carries the suspension
/// status, and every other ad is unchanged.
pub proof fn law_suspend_applies<T: Moderated>(ads: Seq<T>, ids: Seq<u128>, is_permanent: bool, now: i64)
    ensures
        forall|j: int|
            0 <= j < ads.len() ==> {
                let after = #[trigger] suspend_spec(ads, ids, suspended_status(is_permanent), now)[j];
                if ids.contains(ads[j].key()) && !ads[j].is_deleted() {
                    after.moderation() == suspended_status(is_permanent) && after.key() == ads[j].key()
                } else {
                    after == ads[j]
                }
            },
{
    assert forall|j: int| 0 <= j < ads.len() implies {
        let after = #[trigger] suspend_spec(ads, ids, suspended_status(is_permanent), now)[j];
        if ids.contains(ads[j].key()) && !ads[j].is_deleted() {
            after.moderation() == suspended_status(is_permanent) && after.key() == ads[j].key()
        } else {
            after == ads[j]
        }
    } by {
        ads[j].lemma_moderated(suspended_status(is_permanent), now);
    }
}

/// A permanent suspension of a live ad puts its owner in the three-day
/// cooldown: from the moment of the suspension until three days later the
/// owner may not post a new ad.
pub proof fn law_permanent_suspension_starts_cooldown<T: Moderated>(
    ads: Seq<T>,
    log: Seq<IklanSuspension>,
    ids: Seq<u128>,
    made: Seq<IklanSuspension>,
    reason: Seq<char>,
    evidence: Option<Seq<char>>,
    expires_at: Option<i64>,
    created_by: u128,
    j: int,
    now: i64,
    t: i64,
)
    requires
        0 <= j < ads.len(),
        ids.contains(ads[j].key()),
        !ads[j].is_deleted(),
        made.len() == live_ids(ads, ids).len(),
        forall|k: int|
            0 <= k < made.len() ==> is_suspension_record(
                #[trigger] made[k],
                live_ids(ads, ids)[k],
                true,
                reason,
                evidence,
                expires_at,
                created_by,
                now,
            ),
        now <= t < now + COOLDOWN_SECS,
    ensures
        in_cooldown(suspend_spec(ads, ids, ModerationStatus::SuspendedPermanent, now), log + made, ads[j].owner(), t),
{
    let id = ads[j].key();
    let p = live_pred(ads);
    assert(p(id));
    let i = choose|i: int| 0 <= i < ids.len() && ids[i] == id;
    ids.lemma_filter_contains(p, i);
    let live = live_ids(ads, ids);
    assert(live.contains(id));
    let k = choose|k: int| 0 <= k < live.len() && live[k] == id;
    assert(is_suspension_record(made[k], live[k], true, reason, evidence, expires_at, created_by, now));
    let after = suspend_spec(ads, ids, ModerationStatus::SuspendedPermanent, now);
    ads[j].lemma_moderated(ModerationStatus::SuspendedPermanent, now);
    assert(after[j].key() == id && after[j].owner() == ads[j].owner());
    let l2 = log + made;
    assert(l2[log.len() + k] == made[k]);
    assert(l2[log.len() + k].is_permanent && l2[log.len() + k].created_at > t - COOLDOWN_SECS
        && after[j].key() == l2[log.len() + k].iklan_id && after[j].owner() == ads[j].owner());
}

/// After lifting lapsed suspensions, no ad is left whose temporary
/// suspension has lapsed.
pub proof fn law_expire_clears<T: Moderated>(ads: Seq<T>, log: Seq<IklanSuspension>, now: i64)
    ensures
        forall|j: int| 0 <= j < ads.len() ==> !expirable(#[trigger] expire_spec(ads, log, now)[j], log, now),
{
    assert forall|j: int| 0 <= j < ads.len() implies !expirable(#[trigger] expire_spec(ads, log, now)[j], log, now) by {
        ads[j].lemma_moderated(ModerationStatus::Active, now);
    }
}

} // verus!

verus! {

/// Only one's own ads start a cooldown: an owner in cooldown had an ad of
/// their own permanently suspended within the last three days, so a
/// permanent suspension of someone else's ad never blocks them.
pub proof fn law_cooldown_only_for_own_ads<T: Moderated>(
    ads: Seq<T>,
    log: Seq<IklanSuspension>,
    owner: u128,
    now: i64,
)
    requires
        in_cooldown(ads, log, owner, now),
    ensures
        exists|k: int, j: int|
            0 <= k < log.len() && 0 <= j < ads.len() && #[trigger] log[k].iklan_id == #[trigger] ads[j].key()
                && log[k].is_permanent && now - COOLDOWN_SECS < log[k].created_at && ads[j].owner() == owner,
{
    let (k, j) = choose|k: int, j: int|
        0 <= k < log.len() && 0 <= j < ads.len() && #[trigger] log[k].is_permanent
            && log[k].created_at > now - COOLDOWN_SECS && #[trigger] ads[j].key() == log[k].iklan_id
            && ads[j].owner() == owner;
    assert(log[k].iklan_id == ads[j].key());
}

/// The expiry sweep lifts only what has an expiry date: an ad it changes was
/// temporarily suspended, and a temporary suspension record of it carries an
/// expiry time at or before `now`. A suspension without an expiry date is
/// never lifted.
pub proof fn law_expiry_needs_an_expiry_date<T: Moderated>(
    ads: Seq<T>,
    log: Seq<IklanSuspension>,
    now: i64,
    j: int,
)
    requires
        0 <= j < ads.len(),
        expire_spec(ads, log, now)[j] != ads[j],
    ensures
        ads[j].moderation() == ModerationStatus::SuspendedTemp,
        exists|k: int|
            0 <= k < log.len() && (#[trigger] log[k]).iklan_id == ads[j].key() && !log[k].is_permanent
                && log[k].expires_at is Some && log[k].expires_at->0 <= now,
{
    assert(expirable(ads[j], log, now));
    let k = choose|k: int| 0 <= k < log.len() && #[trigger] lapses(log[k], ads[j].key(), now);
    assert(log[k].iklan_id == ads[j].key());
}

} // verus!
