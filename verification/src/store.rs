use vstd::prelude::*;

verus! {

/// A stored row: it has an identifier and a creation time, and can be
/// copied out of the store.
pub trait Row: Sized {
    spec fn key(&self) -> u128;

    spec fn stamp(&self) -> i64;

    /// `o` holds the same values as `self` (a copy of it).
    spec fn same(&self, o: &Self) -> bool;

    proof fn lemma_same(&self, o: &Self)
        ensures
            self.same(self),
            self.same(o) ==> o.same(self) && o.key() == self.key() && o.stamp() == self.stamp(),
    ;

    proof fn lemma_same_trans(&self, o: &Self, o2: &Self)
        ensures
            self.same(o) && o.same(o2) ==> self.same(o2),
    ;

    fn row_id(&self) -> (r: u128)
        ensures
            r == self.key(),
    ;

    fn row_created(&self) -> (r: i64)
        ensures
            r == self.stamp(),
    ;

    fn duplicate(&self) -> (r: Self)
        ensures
            r.same(self),
            r.key() == self.key(),
            r.stamp() == self.stamp(),
    ;
}

/// No two rows share an identifier.
pub open spec fn unique_keys<T: Row>(s: Seq<T>) -> bool {
    forall|i: int, j: int| 0 <= i < s.len() && 0 <= j < s.len() && i != j ==> s[i].key() != s[j].key()
}

/// Rows are kept newest first (`ORDER BY created_at DESC`).
pub open spec fn newest_first<T: Row>(s: Seq<T>) -> bool {
    forall|i: int, j: int| 0 <= i <= j < s.len() ==> s[i].stamp() >= s[j].stamp()
}

/// Some row has the identifier.
pub open spec fn has_key<T: Row>(s: Seq<T>, id: u128) -> bool {
    exists|i: int| 0 <= i < s.len() && s[i].key() == id
}

/// Element by element, `a` holds copies of the rows of `b`.
pub open spec fn copies<T: Row>(a: Seq<T>, b: Seq<T>) -> bool {
    a.len() == b.len() && forall|k: int| 0 <= k < a.len() ==> #[trigger] a[k].same(&b[k])
}

/// The rows of one page: `OFFSET offset LIMIT limit` over `s`.
pub open spec fn page<T>(s: Seq<T>, limit: int, offset: int) -> Seq<T> {
    let lo = if offset < s.len() { offset } else { s.len() as int };
    let hi = if offset + limit < s.len() { offset + limit } else { s.len() as int };
    s.subrange(lo, hi)
}

/// Position of the row with the identifier, if any.
pub fn find_pos<T: Row>(v: &Vec<T>, id: u128) -> (r: Option<usize>)
    ensures
        r matches Some(i) ==> i < v@.len() && v@[i as int].key() == id,
        r is None ==> !has_key(v@, id),
{
    let mut i: usize = 0;
    while i < v.len()
        invariant
            i <= v@.len(),
            forall|j: int| 0 <= j < i ==> v@[j].key() != id,
        decreases v@.len() - i,
    {
        if v[i].row_id() == id {
            return Some(i);
        }
        i = i + 1;
    }
    None
}

/// With unique keys, a position holding the key is the only one.
pub proof fn lemma_unique_pos<T: Row>(s: Seq<T>, i: int, j: int)
    requires
        unique_keys(s),
        0 <= i < s.len(),
        0 <= j < s.len(),
        s[i].key() == s[j].key(),
    ensures
        i == j,
{
}

/// Inserts a row before the first strictly older one, so the sequence stays
/// newest first.
pub fn insert_newest_first<T: Row>(v: &mut Vec<T>, x: T) -> (k: usize)
    requires
        newest_first(old(v)@),
    ensures
        k <= old(v)@.len(),
        final(v)@ == old(v)@.insert(k as int, x),
        newest_first(final(v)@),
{
    let ts = x.row_created();
    let mut k: usize = 0;
    while k < v.len() && v[k].row_created() >= ts
        invariant
            k <= v@.len(),
            forall|j: int| 0 <= j < k ==> v@[j].stamp() >= ts,
        decreases v@.len() - k,
    {
        k = k + 1;
    }
    let ghost before = v@;
    v.insert(k, x);
    proof {
        let after = v@;
        assert forall|i: int, j: int| 0 <= i <= j < after.len() implies after[i].stamp()
            >= after[j].stamp() by {
            if i < k && j < k {
                assert(after[i] == before[i] && after[j] == before[j]);
            } else if i < k && j == k {
            } else if i < k {
                assert(after[i] == before[i] && after[j] == before[j - 1]);
            } else if i == k && j == k {
            } else if i == k {
                assert(after[j] == before[j - 1]);
                assert(before[k as int].stamp() < ts);
                assert(before[k as int].stamp() >= before[j - 1].stamp());
            } else {
                assert(after[i] == before[i - 1] && after[j] == before[j - 1]);
            }
        }
    }
    k
}

/// `OFFSET offset LIMIT limit` over the rows; both must be non-negative.
pub fn paginate<T: Row>(v: &Vec<T>, limit: i64, offset: i64) -> (r: Vec<T>)
    requires
        limit >= 0,
        offset >= 0,
    ensures
        copies(r@, page(v@, limit as int, offset as int)),
{
    let n = v.len();
    let lo: usize = if (offset as u128) < (n as u128) { offset as usize } else { n };
    let hi: usize = if (offset as u128) + (limit as u128) < (n as u128) {
        ((offset as u128) + (limit as u128)) as usize
    } else {
        n
    };
    let mut r: Vec<T> = Vec::new();
    let mut i: usize = lo;
    while i < hi
        invariant
            lo <= i <= hi,
            hi <= n,
            n == v@.len(),
            copies(r@, v@.subrange(lo as int, i as int)),
        decreases hi - i,
    {
        r.push(v[i].duplicate());
        proof {
            assert(v@.subrange(lo as int, i + 1) =~= v@.subrange(lo as int, i as int).push(v@[i as int]));
        }
        i = i + 1;
    }
    r
}

} // verus!

verus! {

/// The rows that satisfy `p`, copied, in store order. `f` decides `p`.
pub fn select<T: Row, F: Fn(&T) -> bool>(v: &Vec<T>, f: F, Ghost(p): Ghost<spec_fn(T) -> bool>) -> (r: Vec<T>)
    requires
        forall|x: &T| #[trigger] f.requires((x,)),
        forall|x: &T, b: bool| f.ensures((x,), b) ==> b == p(*x),
    ensures
        copies(r@, v@.filter(p)),
{
    let mut r: Vec<T> = Vec::new();
    let mut i: usize = 0;
    while i < v.len()
        invariant
            i <= v@.len(),
            forall|x: &T| #[trigger] f.requires((x,)),
            forall|x: &T, b: bool| f.ensures((x,), b) ==> b == p(*x),
            copies(r@, v@.take(i as int).filter(p)),
        decreases v@.len() - i,
    {
        proof {
            reveal(Seq::filter);
            assert(v@.take(i + 1).drop_last() =~= v@.take(i as int));
            assert(v@.take(i + 1).last() == v@[i as int]);
        }
        if f(&v[i]) {
            let c = v[i].duplicate();
            r.push(c);
        }
        i = i + 1;
    }
    proof {
        assert(v@.take(v@.len() as int) =~= v@);
    }
    r
}

/// Whether some row satisfies `p`. `f` decides `p`.
pub fn any_row<T: Row, F: Fn(&T) -> bool>(v: &Vec<T>, f: F, Ghost(p): Ghost<spec_fn(T) -> bool>) -> (r: bool)
    requires
        forall|x: &T| #[trigger] f.requires((x,)),
        forall|x: &T, b: bool| f.ensures((x,), b) ==> b == p(*x),
    ensures
        r == exists|j: int| 0 <= j < v@.len() && #[trigger] p(v@[j]),
{
    let mut i: usize = 0;
    while i < v.len()
        invariant
            i <= v@.len(),
            forall|x: &T| #[trigger] f.requires((x,)),
            forall|x: &T, b: bool| f.ensures((x,), b) ==> b == p(*x),
            forall|j: int| 0 <= j < i ==> !#[trigger] p(v@[j]),
        decreases v@.len() - i,
    {
        if f(&v[i]) {
            assert(p(v@[i as int]));
            return true;
        }
        i = i + 1;
    }
    false
}

/// The position a key has in the rows (meaningful when it has one).
pub open spec fn pos_of<T: Row>(s: Seq<T>, id: u128) -> int {
    choose|j: int| 0 <= j < s.len() && s[j].key() == id
}

/// The row a key names, if any, as a copy.
pub open spec fn lookup_matches<T: Row>(s: Seq<T>, id: u128, r: Option<T>) -> bool {
    match r {
        Some(x) => has_key(s, id) && x.same(&s[pos_of(s, id)]),
        None => !has_key(s, id),
    }
}

/// The row with the identifier, copied, if there is one.
pub fn lookup<T: Row>(v: &Vec<T>, id: u128) -> (r: Option<T>)
    requires
        unique_keys(v@),
    ensures
        lookup_matches(v@, id, r),
{
    match find_pos(v, id) {
        Some(i) => {
            proof {
                let j = pos_of(v@, id);
                lemma_unique_pos(v@, i as int, j);
            }
            Some(v[i].duplicate())
        },
        None => None,
    }
}

} // verus!

verus! {

/// Why a repository call was refused, as the database would refuse it.
#[derive(Debug, Clone, Copy, PartialEq, Eq, Structural)]
pub enum RepoError {
    /// A row with the new identifier already exists (primary key).
    DuplicateId,
    /// `LIMIT` or `OFFSET` was negative.
    NegativePaging,
}

impl RepoError {
    pub open spec fn message(self) -> Seq<char> {
        match self {
            RepoError::DuplicateId => "duplicate key value violates unique constraint"@,
            RepoError::NegativePaging => "LIMIT and OFFSET must not be negative"@,
        }
    }

    pub fn to_string(&self) -> (r: String)
        ensures
            r@ == self.message(),
    {
        match self {
            RepoError::DuplicateId => "duplicate key value violates unique constraint".to_owned(),
            RepoError::NegativePaging => "LIMIT and OFFSET must not be negative".to_owned(),
        }
    }
}

/// One page of rows, refused when the limit or offset is negative.
pub fn page_of<T: Row>(v: &Vec<T>, limit: i64, offset: i64) -> (r: Result<Vec<T>, RepoError>)
    ensures
        match r {
            Ok(items) => limit >= 0 && offset >= 0 && copies(items@, page(v@, limit as int, offset as int)),
            Err(e) => (limit < 0 || offset < 0) && e == RepoError::NegativePaging,
        },
{
    if limit < 0 || offset < 0 {
        Err(RepoError::NegativePaging)
    } else {
        Ok(paginate(v, limit, offset))
    }
}

} // verus!

verus! {

/// Copies of copies are copies.
pub proof fn lemma_copies_trans<T: Row>(a: Seq<T>, b: Seq<T>, c: Seq<T>)
    requires
        copies(a, b),
        copies(b, c),
    ensures
        copies(a, c),
{
    assert forall|k: int| 0 <= k < a.len() implies #[trigger] a[k].same(&c[k]) by {
        a[k].lemma_same_trans(&b[k], &c[k]);
    }
}

/// A page of copies is a copy of the page.
pub proof fn lemma_copies_page<T: Row>(a: Seq<T>, b: Seq<T>, limit: int, offset: int)
    requires
        copies(a, b),
        limit >= 0,
        offset >= 0,
    ensures
        copies(page(a, limit, offset), page(b, limit, offset)),
{
    let pa = page(a, limit, offset);
    let pb = page(b, limit, offset);
    let lo = if offset < a.len() { offset } else { a.len() as int };
    assert forall|k: int| 0 <= k < pa.len() implies #[trigger] pa[k].same(&pb[k]) by {
        assert(pa[k] == a[lo + k]);
        assert(pb[k] == b[lo + k]);
    }
}

/// The rows that satisfy `p`, then one page of them.
pub fn select_page<T: Row, F: Fn(&T) -> bool>(
    v: &Vec<T>,
    f: F,
    Ghost(p): Ghost<spec_fn(T) -> bool>,
    limit: i64,
    offset: i64,
) -> (r: Result<Vec<T>, RepoError>)
    requires
        forall|x: &T| #[trigger] f.requires((x,)),
        forall|x: &T, b: bool| f.ensures((x,), b) ==> b == p(*x),
    ensures
        match r {
            Ok(items) => limit >= 0 && offset >= 0 && copies(
                items@,
                page(v@.filter(p), limit as int, offset as int),
            ),
            Err(e) => (limit < 0 || offset < 0) && e == RepoError::NegativePaging,
        },
{
    let all = select(v, f, Ghost(p));
    let r = page_of(&all, limit, offset);
    proof {
        if r is Ok {
            let items = r->Ok_0;
            lemma_copies_page(all@, v@.filter(p), limit as int, offset as int);
            lemma_copies_trans(items@, page(all@, limit as int, offset as int), page(v@.filter(p), limit as int, offset as int));
        }
    }
    r
}

} // verus!

verus! {

/// Inserting a row whose key is new keeps keys unique.
pub proof fn lemma_insert_fresh_unique<T: Row>(before: Seq<T>, k: int, x: T)
    requires
        unique_keys(before),
        !has_key(before, x.key()),
        0 <= k <= before.len(),
    ensures
        unique_keys(before.insert(k, x)),
{
    let after = before.insert(k, x);
    assert forall|i: int, j: int|
        0 <= i < after.len() && 0 <= j < after.len() && i != j implies after[i].key()
        != after[j].key() by {
        if i != k && j != k {
            let bi = if i < k { i } else { i - 1 };
            let bj = if j < k { j } else { j - 1 };
            assert(after[i] == before[bi] && after[j] == before[bj]);
        } else if i == k {
            let bj = if j < k { j } else { j - 1 };
            assert(after[j] == before[bj]);
        } else {
            let bi = if i < k { i } else { i - 1 };
            assert(after[i] == before[bi]);
        }
    }
}

} // verus!

verus! {

/// Removing a row keeps keys unique and the order newest first.
pub proof fn lemma_remove_keeps<T: Row>(before: Seq<T>, k: int)
    requires
        unique_keys(before),
        newest_first(before),
        0 <= k < before.len(),
    ensures
        unique_keys(before.remove(k)),
        newest_first(before.remove(k)),
{
    let after = before.remove(k);
    assert forall|i: int, j: int|
        0 <= i < after.len() && 0 <= j < after.len() && i != j implies after[i].key()
        != after[j].key() by {
        let bi = if i < k { i } else { i + 1 };
        let bj = if j < k { j } else { j + 1 };
        assert(after[i] == before[bi] && after[j] == before[bj]);
    }
    assert forall|i: int, j: int| 0 <= i <= j < after.len() implies after[i].stamp()
        >= after[j].stamp() by {
        let bi = if i < k { i } else { i + 1 };
        let bj = if j < k { j } else { j + 1 };
        assert(after[i] == before[bi] && after[j] == before[bj]);
    }
}

} // verus!

verus! {

/// The rows in reverse order.
pub fn reversed<T>(v: Vec<T>) -> (r: Vec<T>)
    ensures
        r@ == v@.reverse(),
{
    let mut v = v;
    let mut r: Vec<T> = Vec::new();
    let ghost v0 = v@;
    while v.len() > 0
        invariant
            v@ == v0.take(v@.len() as int),
            v@.len() <= v0.len(),
            r@ == v0.skip(v@.len() as int).reverse(),
        decreases v@.len(),
    {
        let x = v.pop().unwrap();
        proof {
            assert(v@ =~= v0.take(v@.len() as int));
            assert(v0.skip(v@.len() as int).reverse() =~= v0.skip(v@.len() + 1int).reverse().push(x));
        }
        r.push(x);
    }
    proof {
        assert(v0.skip(0) =~= v0);
    }
    r
}

/// Reversing keeps copies element by element.
pub proof fn lemma_copies_reverse<T: Row>(a: Seq<T>, b: Seq<T>)
    requires
        copies(a, b),
    ensures
        copies(a.reverse(), b.reverse()),
{
    assert forall|k: int| 0 <= k < a.len() implies #[trigger] a.reverse()[k].same(&b.reverse()[k]) by {
        assert(a.reverse()[k] == a[a.len() - 1 - k]);
        assert(b.reverse()[k] == b[b.len() - 1 - k]);
    }
}

} // verus!

verus! {

/// Rows that keep their keys and creation times keep the store invariants.
pub proof fn lemma_same_keys_keeps<T: Row>(before: Seq<T>, after: Seq<T>)
    requires
        before.len() == after.len(),
        forall|j: int|
            0 <= j < before.len() ==> (#[trigger] after[j]).key() == before[j].key()
                && after[j].stamp() == before[j].stamp(),
    ensures
        unique_keys(before) ==> unique_keys(after),
        newest_first(before) ==> newest_first(after),
{
    if unique_keys(before) {
        assert forall|i: int, j: int|
            0 <= i < after.len() && 0 <= j < after.len() && i != j implies after[i].key() != after[j].key() by {
            assert(before[i].key() != before[j].key());
        }
    }
    if newest_first(before) {
        assert forall|i: int, j: int| 0 <= i <= j < after.len() implies after[i].stamp() >= after[j].stamp() by {
            assert(before[i].stamp() >= before[j].stamp());
        }
    }
}

} // verus!

verus! {

/// What a lookup reads back after an insertion: the inserted row under its
/// own key, and, under every other key, what was stored there before.
pub proof fn law_insert_reads_back<T: Row>(before: Seq<T>, after: Seq<T>, x: T, id: u128)
    requires
        exists|k: int| 0 <= k <= before.len() && after == before.insert(k, x),
        unique_keys(after),
    ensures
        has_key(after, x.key()),
        after[pos_of(after, x.key())] == x,
        id != x.key() ==> has_key(after, id) == has_key(before, id),
        id != x.key() && has_key(before, id) ==> after[pos_of(after, id)] == before[pos_of(before, id)],
{
    let k = choose|k: int| 0 <= k <= before.len() && after == before.insert(k, x);
    assert(after[k] == x);
    assert(has_key(after, x.key()));
    let p = pos_of(after, x.key());
    lemma_unique_pos(after, p, k);
    // Index `i` of `before` is index `up(i)` of `after`.
    assert forall|i: int| 0 <= i < before.len() implies #[trigger] before[i] == after[if i < k { i } else { i + 1 }] by {}
    if id != x.key() {
        if has_key(before, id) {
            let i = choose|i: int| 0 <= i < before.len() && before[i].key() == id;
            let ai = if i < k { i } else { i + 1 };
            assert(before[i] == after[ai]);
            assert(has_key(after, id));
            let q = pos_of(after, id);
            lemma_unique_pos(after, q, ai);
            let pb = pos_of(before, id);
            let apb = if pb < k { pb } else { pb + 1 };
            assert(before[pb] == after[apb]);
            lemma_unique_pos(after, apb, ai);
        }
        if has_key(after, id) {
            let j = choose|j: int| 0 <= j < after.len() && after[j].key() == id;
            assert(j != k);
            let bj = if j < k { j } else { j - 1 };
            assert(before[bj] == after[j]);
            assert(has_key(before, id));
        }
    }
}

} // verus!
