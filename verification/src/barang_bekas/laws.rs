use vstd::prelude::*;

use super::entity::{AvailabilityStatus, Bider, BiderStatus, IklanBarangBekas};
use super::repository::{
    ads_relisted, ads_taken, after_approval, approvable, can_mark_taken, new_bider, pending_pred,
    taken_row, withdrawable,
};
use super::dto::{is_resp_of, CreateIklanBarangBekasInput, IklanBarangBekasResponse};
use super::entity::ModerationStatus;
use super::repository::{listed_pred, IklanBarangBekasStore};
use super::service::{ambil_refusal, create_refusal, resps_of, BarangBekasError};
use crate::moderation::COOLDOWN_SECS;
use crate::remote::RegionCheck;
use crate::store::{has_key, page, pos_of, unique_keys, Row};

verus! {

/// Takers and availability agree: while an ad has an approved bider, the
/// ad is taken and every other bider of it is withdrawn.
pub open spec fn bider_consistent(ads: Seq<IklanBarangBekas>, biders: Seq<Bider>) -> bool {
    forall|i: int, j: int|
        0 <= i < ads.len() && 0 <= j < biders.len() && #[trigger] biders[j].iklan_id == #[trigger] ads[i].id
            && biders[j].status == BiderStatus::Disetujui ==> approved_holds(ads[i], biders, j)
}

/// What an approved bider at position `j` implies for its ad.
pub open spec fn approved_holds(ad: IklanBarangBekas, biders: Seq<Bider>, j: int) -> bool {
    &&& ad.availability_status == AvailabilityStatus::SudahDiambil
    &&& forall|k: int|
        0 <= k < biders.len() && k != j && (#[trigger] biders[k]).iklan_id == ad.id ==> biders[k].status
            == BiderStatus::Withdrawn
}

/// Marking an ad as taken twice: the second call finds nothing to do.
pub proof fn law_mark_taken_idempotent(ads: Seq<IklanBarangBekas>, id: u128, seller_id: u128, now: i64)
    requires
        unique_keys(ads),
    ensures
        ({
            let after = if can_mark_taken(ads, id, seller_id) {
                ads.update(pos_of(ads, id), taken_row(ads[pos_of(ads, id)], now))
            } else {
                ads
            };
            !can_mark_taken(after, id, seller_id)
        }),
{
    if can_mark_taken(ads, id, seller_id) {
        let p = pos_of(ads, id);
        let after = ads.update(p, taken_row(ads[p], now));
        assert(after[p].key() == id);
        let q = pos_of(after, id);
        assert(after[q].key() == ads[q].key());
        crate::store::lemma_unique_pos(ads, p, q);
    }
}

/// After a request to take an item, the same user asking again for the
/// same item finds a waiting request of theirs.
pub proof fn law_second_request_is_pending(
    biders: Seq<Bider>,
    k: int,
    iklan_id: u128,
    peminat_id: u128,
    id: u128,
    now: i64,
)
    requires
        0 <= k <= biders.len(),
    ensures
        exists|j: int|
            0 <= j < biders.insert(k, new_bider(iklan_id, peminat_id, id, now)).len()
                && #[trigger] pending_pred(iklan_id, peminat_id)(
                biders.insert(k, new_bider(iklan_id, peminat_id, id, now))[j],
            ),
{
    let after = biders.insert(k, new_bider(iklan_id, peminat_id, id, now));
    assert(pending_pred(iklan_id, peminat_id)(after[k]));
}

/// Approving a bider: it is approved, the ad is no longer available, and
/// no other bider of that ad is still waiting.
pub proof fn law_approval_closes_ad(
    ads: Seq<IklanBarangBekas>,
    biders: Seq<Bider>,
    bider_id: u128,
    owner: u128,
    sudah_menghubungi: bool,
    now: i64,
)
    requires
        unique_keys(biders),
        approvable(ads, biders, bider_id, owner),
    ensures
        ({
            let q = pos_of(biders, bider_id);
            let iklan_id = biders[q].iklan_id;
            let bs = after_approval(biders, bider_id, iklan_id, sudah_menghubungi, now);
            let xs = ads_taken(ads, iklan_id, now);
            &&& bs[q].status == BiderStatus::Disetujui
            &&& forall|j: int|
                0 <= j < bs.len() && j != q && (#[trigger] bs[j]).iklan_id == iklan_id ==> bs[j].status
                    != BiderStatus::Menunggu
            &&& forall|i: int| 0 <= i < xs.len() && (#[trigger] xs[i]).id == iklan_id ==> xs[i].availability_status
                == AvailabilityStatus::SudahDiambil
        }),
{
    let q = pos_of(biders, bider_id);
    let iklan_id = biders[q].iklan_id;
    let bs = after_approval(biders, bider_id, iklan_id, sudah_menghubungi, now);
    assert forall|j: int|
        0 <= j < bs.len() && j != q && (#[trigger] bs[j]).iklan_id == iklan_id implies bs[j].status
            != BiderStatus::Menunggu by {
        if biders[j].id == bider_id {
            crate::store::lemma_unique_pos(biders, j, q);
        }
    }
}

/// Withdrawing an approved bider makes its ad available again.
pub proof fn law_withdraw_approved_relists(ads: Seq<IklanBarangBekas>, iklan_id: u128, now: i64)
    ensures
        forall|i: int|
            0 <= i < ads.len() && (#[trigger] ads_relisted(ads, iklan_id, now)[i]).id == iklan_id
                ==> ads_relisted(ads, iklan_id, now)[i].availability_status == AvailabilityStatus::Tersedia,
{
}

/// A new waiting request, made while the ad is available, keeps takers and
/// availability in agreement.
pub proof fn law_request_keeps_consistency(
    ads: Seq<IklanBarangBekas>,
    biders: Seq<Bider>,
    k: int,
    iklan_id: u128,
    peminat_id: u128,
    id: u128,
    now: i64,
)
    requires
        bider_consistent(ads, biders),
        0 <= k <= biders.len(),
        has_key(ads, iklan_id),
        unique_keys(ads),
        ads[pos_of(ads, iklan_id)].availability_status == AvailabilityStatus::Tersedia,
    ensures
        bider_consistent(ads, biders.insert(k, new_bider(iklan_id, peminat_id, id, now))),
{
    let nb = new_bider(iklan_id, peminat_id, id, now);
    let after = biders.insert(k, nb);
    assert forall|i: int, j: int|
        0 <= i < ads.len() && 0 <= j < after.len() && #[trigger] after[j].iklan_id == #[trigger] ads[i].id
            && after[j].status == BiderStatus::Disetujui implies approved_holds(ads[i], after, j) by {
        let bj = if j < k { j } else { j - 1 };
        assert(after[j] == biders[bj]);
        assert(biders[bj].iklan_id == ads[i].id && biders[bj].status == BiderStatus::Disetujui);
        assert(approved_holds(ads[i], biders, bj));
        if ads[i].id == iklan_id {
            crate::store::lemma_unique_pos(ads, i, pos_of(ads, iklan_id));
        }
        assert forall|m: int|
            0 <= m < after.len() && m != j && (#[trigger] after[m]).iklan_id == ads[i].id implies after[m].status
                == BiderStatus::Withdrawn by {
            if m != k {
                let bm = if m < k { m } else { m - 1 };
                assert(after[m] == biders[bm]);
            }
        }
    }
}

/// Approving a bider keeps takers and availability in agreement.
pub proof fn law_approval_keeps_consistency(
    ads: Seq<IklanBarangBekas>,
    biders: Seq<Bider>,
    bider_id: u128,
    owner: u128,
    sudah_menghubungi: bool,
    now: i64,
)
    requires
        bider_consistent(ads, biders),
        unique_keys(ads),
        unique_keys(biders),
        approvable(ads, biders, bider_id, owner),
    ensures
        ({
            let iklan_id = biders[pos_of(biders, bider_id)].iklan_id;
            bider_consistent(
                ads_taken(ads, iklan_id, now),
                after_approval(biders, bider_id, iklan_id, sudah_menghubungi, now),
            )
        }),
{
    let q = pos_of(biders, bider_id);
    let iklan_id = biders[q].iklan_id;
    let bs = after_approval(biders, bider_id, iklan_id, sudah_menghubungi, now);
    let xs = ads_taken(ads, iklan_id, now);
    // The chosen bider was waiting, so its ad had no approved bider.
    assert forall|j: int| 0 <= j < biders.len() && biders[j].iklan_id == iklan_id implies biders[j].status
        != BiderStatus::Disetujui by {
        let w = choose|w: int| 0 <= w < ads.len() && #[trigger] super::repository::live_owned_pred(iklan_id, owner)(ads[w]);
        if biders[j].status == BiderStatus::Disetujui {
            assert(biders[j].iklan_id == ads[w].id);
            assert(approved_holds(ads[w], biders, j));
            assert(biders[q].iklan_id == ads[w].id);
            if j != q {
                assert(biders[q].status == BiderStatus::Withdrawn);
            }
        }
    }
    assert forall|i: int, j: int|
        0 <= i < xs.len() && 0 <= j < bs.len() && #[trigger] bs[j].iklan_id == #[trigger] xs[i].id
            && bs[j].status == BiderStatus::Disetujui implies approved_holds(xs[i], bs, j) by {
        if xs[i].id == iklan_id {
            if j != q {
                if biders[j].id == bider_id {
                    crate::store::lemma_unique_pos(biders, j, q);
                }
                assert(biders[j].status != BiderStatus::Disetujui);
            }
            assert(j == q);
            assert forall|m: int|
                0 <= m < bs.len() && m != j && (#[trigger] bs[m]).iklan_id == xs[i].id implies bs[m].status
                    == BiderStatus::Withdrawn by {
                if biders[m].id == bider_id {
                    crate::store::lemma_unique_pos(biders, m, q);
                }
                assert(biders[m].status != BiderStatus::Disetujui);
                if biders[m].status == BiderStatus::Menunggu {
                } else {
                    assert(biders[m].status == BiderStatus::Withdrawn);
                }
            }
        } else {
            if biders[j].id == bider_id {
                crate::store::lemma_unique_pos(biders, j, q);
            }
            assert(biders[j].status == BiderStatus::Disetujui);
            assert(biders[j].iklan_id == ads[i].id);
            assert(approved_holds(ads[i], biders, j));
            assert forall|m: int|
                0 <= m < bs.len() && m != j && (#[trigger] bs[m]).iklan_id == xs[i].id implies bs[m].status
                    == BiderStatus::Withdrawn by {
                assert(biders[m].iklan_id == ads[i].id);
                if biders[m].id == bider_id {
                    crate::store::lemma_unique_pos(biders, m, q);
                }
            }
        }
    }
}

/// Withdrawing a bider keeps takers and availability in agreement.
pub proof fn law_withdraw_keeps_consistency(
    ads: Seq<IklanBarangBekas>,
    biders: Seq<Bider>,
    bider_id: u128,
    owner: u128,
    now: i64,
)
    requires
        bider_consistent(ads, biders),
        unique_keys(biders),
        withdrawable(ads, biders, bider_id, owner),
    ensures
        ({
            let q = pos_of(biders, bider_id);
            let old_b = biders[q];
            let b = Bider { status: BiderStatus::Withdrawn, updated_at: now, ..old_b };
            bider_consistent(
                if old_b.status == BiderStatus::Disetujui {
                    ads_relisted(ads, old_b.iklan_id, now)
                } else {
                    ads
                },
                biders.update(q, b),
            )
        }),
{
    let q = pos_of(biders, bider_id);
    let old_b = biders[q];
    let b = Bider { status: BiderStatus::Withdrawn, updated_at: now, ..old_b };
    let bs = biders.update(q, b);
    let xs = if old_b.status == BiderStatus::Disetujui {
        ads_relisted(ads, old_b.iklan_id, now)
    } else {
        ads
    };
    assert forall|i: int, j: int|
        0 <= i < xs.len() && 0 <= j < bs.len() && #[trigger] bs[j].iklan_id == #[trigger] xs[i].id
            && bs[j].status == BiderStatus::Disetujui implies approved_holds(xs[i], bs, j) by {
        assert(j != q);
        assert(bs[j] == biders[j]);
        assert(xs[i].id == ads[i].id);
        assert(approved_holds(ads[i], biders, j));
        if old_b.status == BiderStatus::Disetujui && ads[i].id == old_b.iklan_id {
            assert(biders[q].iklan_id == ads[i].id);
            assert(biders[q].status == BiderStatus::Withdrawn);
            assert(false);
        }
        assert(xs[i] == ads[i]);
        assert forall|m: int|
            0 <= m < bs.len() && m != j && (#[trigger] bs[m]).iklan_id == xs[i].id implies bs[m].status
                == BiderStatus::Withdrawn by {
            if m != q {
                assert(bs[m] == biders[m]);
            }
        }
    }
}

/// Marking an ad as taken keeps takers and availability in agreement.
pub proof fn law_mark_taken_keeps_consistency(
    ads: Seq<IklanBarangBekas>,
    biders: Seq<Bider>,
    id: u128,
    seller_id: u128,
    now: i64,
)
    requires
        bider_consistent(ads, biders),
        can_mark_taken(ads, id, seller_id),
    ensures
        bider_consistent(ads.update(pos_of(ads, id), taken_row(ads[pos_of(ads, id)], now)), biders),
{
    let p = pos_of(ads, id);
    let xs = ads.update(p, taken_row(ads[p], now));
    assert forall|i: int, j: int|
        0 <= i < xs.len() && 0 <= j < biders.len() && #[trigger] biders[j].iklan_id == #[trigger] xs[i].id
            && biders[j].status == BiderStatus::Disetujui implies approved_holds(xs[i], biders, j) by {
        assert(xs[i].id == ads[i].id);
        assert(approved_holds(ads[i], biders, j));
    }
}

/// Rows whose identifiers and availability stay the same keep takers and
/// availability in agreement (edits, suspensions, expiries).
pub proof fn law_same_availability_keeps_consistency(
    ads: Seq<IklanBarangBekas>,
    after: Seq<IklanBarangBekas>,
    biders: Seq<Bider>,
)
    requires
        bider_consistent(ads, biders),
        ads.len() == after.len(),
        forall|i: int|
            0 <= i < ads.len() ==> (#[trigger] after[i]).id == ads[i].id && after[i].availability_status
                == ads[i].availability_status,
    ensures
        bider_consistent(after, biders),
{
    assert forall|i: int, j: int|
        0 <= i < after.len() && 0 <= j < biders.len() && #[trigger] biders[j].iklan_id == #[trigger] after[i].id
            && biders[j].status == BiderStatus::Disetujui implies approved_holds(after[i], biders, j) by {
        assert(biders[j].iklan_id == ads[i].id);
        assert(approved_holds(ads[i], biders, j));
    }
}

/// Removing an ad keeps takers and availability in agreement.
pub proof fn law_delete_keeps_consistency(ads: Seq<IklanBarangBekas>, biders: Seq<Bider>, k: int)
    requires
        bider_consistent(ads, biders),
        0 <= k < ads.len(),
    ensures
        bider_consistent(ads.remove(k), biders),
{
    let xs = ads.remove(k);
    assert forall|i: int, j: int|
        0 <= i < xs.len() && 0 <= j < biders.len() && #[trigger] biders[j].iklan_id == #[trigger] xs[i].id
            && biders[j].status == BiderStatus::Disetujui implies approved_holds(xs[i], biders, j) by {
        let bi = if i < k { i } else { i + 1 };
        assert(xs[i] == ads[bi]);
        assert(approved_holds(ads[bi], biders, j));
    }
}

/// A new ad keeps takers and availability in agreement when no bider
/// names its identifier.
pub proof fn law_create_keeps_consistency(ads: Seq<IklanBarangBekas>, biders: Seq<Bider>, k: int, x: IklanBarangBekas)
    requires
        bider_consistent(ads, biders),
        0 <= k <= ads.len(),
        forall|j: int| 0 <= j < biders.len() ==> (#[trigger] biders[j]).iklan_id != x.id,
    ensures
        bider_consistent(ads.insert(k, x), biders),
{
    let xs = ads.insert(k, x);
    assert forall|i: int, j: int|
        0 <= i < xs.len() && 0 <= j < biders.len() && #[trigger] biders[j].iklan_id == #[trigger] xs[i].id
            && biders[j].status == BiderStatus::Disetujui implies approved_holds(xs[i], biders, j) by {
        assert(i != k);
        let bi = if i < k { i } else { i - 1 };
        assert(xs[i] == ads[bi]);
        assert(approved_holds(ads[bi], biders, j));
    }
}

} // verus!

verus! {

/// The public listing shows only ads that can still be taken: every
/// response on a page of the listing is of an available, active ad.
pub proof fn law_public_listing_shows_only_available(
    ads: Seq<IklanBarangBekas>,
    v: Seq<IklanBarangBekasResponse>,
    limit: int,
    offset: int,
)
    requires
        limit >= 0,
        offset >= 0,
        resps_of(v, page(ads.filter(listed_pred()), limit, offset)),
    ensures
        forall|k: int|
            0 <= k < v.len() ==> (#[trigger] v[k]).availability_status == AvailabilityStatus::Tersedia
                && v[k].moderation_status == ModerationStatus::Active,
{
    let f = ads.filter(listed_pred());
    let p = page(f, limit, offset);
    assert forall|k: int| 0 <= k < v.len() implies (#[trigger] v[k]).availability_status
        == AvailabilityStatus::Tersedia && v[k].moderation_status == ModerationStatus::Active by {
        assert(is_resp_of(v[k], p[k]));
        let lo = if offset < f.len() { offset } else { f.len() as int };
        assert(p[k] == f[lo + k]);
        ads.lemma_filter_pred(listed_pred(), lo + k);
    }
}

/// A request counts as a duplicate only for the same item: when taking an
/// item is refused as already requested, the user has a waiting request
/// for that very item.
pub proof fn law_duplicate_request_is_for_the_same_item(
    ads: Seq<IklanBarangBekas>,
    biders: Seq<Bider>,
    peminat_id: u128,
    iklan_id: u128,
)
    requires
        ambil_refusal(ads, biders, peminat_id, iklan_id) == BarangBekasError::AlreadyRequested,
    ensures
        exists|j: int|
            0 <= j < biders.len() && (#[trigger] biders[j]).iklan_id == iklan_id && biders[j].peminat_id == peminat_id
                && biders[j].status == BiderStatus::Menunggu,
{
    let j = choose|j: int| 0 <= j < biders.len() && #[trigger] pending_pred(iklan_id, peminat_id)(biders[j]);
    assert(biders[j].iklan_id == iklan_id);
}

/// A new ad is refused for cooldown only after a permanent suspension of
/// one of the seller's own ads within the last three days.
pub proof fn law_create_cooldown_is_for_own_ads(
    repo: IklanBarangBekasStore,
    seller_id: u128,
    input: CreateIklanBarangBekasInput,
    id: u128,
    now: i64,
    region: RegionCheck,
)
    requires
        create_refusal(repo, seller_id, input, id, now, true, region, BarangBekasError::Cooldown),
    ensures
        exists|k: int, j: int|
            0 <= k < repo.log().len() && 0 <= j < repo.ads().len() && #[trigger] repo.log()[k].iklan_id
                == #[trigger] repo.ads()[j].id && repo.log()[k].is_permanent && now - COOLDOWN_SECS
                < repo.log()[k].created_at && repo.ads()[j].seller_id == seller_id,
{
    crate::moderation::law_cooldown_only_for_own_ads(repo.ads(), repo.log(), seller_id, now);
}

} // verus!
