//! How much manifest text a catalog can put in front of a model.

use vstd::prelude::*;

use super::rules::Check;
use super::{rules, MAX_MODEL_VISIBLE_MANIFEST_BYTES, MAX_MODEL_VISIBLE_MANIFEST_MODELS};
use crate::models::{ModelInfo, ModelServiceTier, ReasoningEffortPreset};
use crate::text;
use crate::text::{byte_len, decimal_text};

verus! {

/// The length of all the texts together, in UTF-8 bytes.
pub open spec fn total_bytes(texts: Seq<Seq<char>>) -> nat
    decreases texts.len(),
{
    if texts.len() == 0 {
        0
    } else {
        total_bytes(texts.drop_last()) + text::byte_count(texts.last())
    }
}

/// The ids of the reasoning efforts of an entry.
pub open spec fn level_ids(levels: Seq<ReasoningEffortPreset>) -> Seq<Seq<char>> {
    levels.map_values(|level: ReasoningEffortPreset| level.effort.id())
}

/// The ids of the service tiers of an entry.
pub open spec fn entry_tier_ids(tiers: Seq<ModelServiceTier>) -> Seq<Seq<char>> {
    tiers.map_values(|tier: ModelServiceTier| tier.id@)
}

/// What an entry puts in front of a model: its id and the ids of its reasoning
/// efforts and service tiers.
pub open spec fn visible_bytes(model: ModelInfo) -> nat {
    text::byte_count(model.slug@) + total_bytes(level_ids(model.supported_reasoning_levels@))
        + total_bytes(entry_tier_ids(model.service_tiers@))
}

/// The visible bytes of each entry.
pub open spec fn visible_sizes(models: Seq<ModelInfo>) -> Seq<nat> {
    models.map_values(|model: ModelInfo| visible_bytes(model))
}

/// The places pick out distinct items of `n`, as many as are described at once
/// or fewer.
pub open spec fn is_pick(n: nat, places: Seq<int>) -> bool {
    &&& places.len() <= MAX_MODEL_VISIBLE_MANIFEST_MODELS
    &&& are_places(n, places)
}

/// The places are distinct places of `n` items.
pub open spec fn are_places(n: nat, places: Seq<int>) -> bool {
    &&& places.no_duplicates()
    &&& forall|i: int| 0 <= i < places.len() ==> 0 <= #[trigger] places[i] < n
}

/// The sizes at the places, together.
pub open spec fn picked_total(sizes: Seq<nat>, places: Seq<int>) -> nat
    decreases places.len(),
{
    if places.len() == 0 {
        0
    } else {
        picked_total(sizes, places.drop_last()) + sizes[places.last()]
    }
}

/// Some pick adds up to more than `limit`.
pub open spec fn some_pick_exceeds(sizes: Seq<nat>, limit: nat) -> bool {
    exists|places: Seq<int>|
        is_pick(sizes.len(), places) && #[trigger] picked_total(sizes, places) > limit
}

/// No choice of entries that can be described together holds more text than is
/// allowed.
pub open spec fn budget_check(sizes: Seq<nat>) -> Check {
    if some_pick_exceeds(sizes, usize::MAX as nat) {
        Err("provider manifest model-visible metadata size overflowed"@)
    } else if some_pick_exceeds(sizes, MAX_MODEL_VISIBLE_MANIFEST_BYTES as nat) {
        Err(
            "provider manifest model-visible metadata must be no more than "@ + text::decimal(
                MAX_MODEL_VISIBLE_MANIFEST_BYTES as nat,
            ) + " bytes across any "@ + text::decimal(MAX_MODEL_VISIBLE_MANIFEST_MODELS as nat)
                + " models"@,
        )
    } else {
        Ok(())
    }
}

proof fn lemma_total_bytes_grows(texts: Seq<Seq<char>>, k: int)
    requires
        0 <= k <= texts.len(),
    ensures
        total_bytes(texts.take(k)) <= total_bytes(texts),
    decreases texts.len(),
{
    if k < texts.len() {
        assert(texts.drop_last().take(k) =~= texts.take(k));
        lemma_total_bytes_grows(texts.drop_last(), k);
    } else {
        assert(texts.take(k) =~= texts);
    }
}

/// What the entry puts in front of a model, in bytes.
pub fn model_visible_manifest_bytes(model: &ModelInfo) -> (bytes: usize)
    requires
        visible_bytes(*model) <= usize::MAX,
    ensures
        bytes == visible_bytes(*model),
{
    let levels = &model.supported_reasoning_levels;
    let tiers = &model.service_tiers;
    let ghost levels_text = level_ids(levels@);
    let ghost tiers_text = entry_tier_ids(tiers@);
    let mut bytes: usize = byte_len(model.slug.as_str());
    let mut i: usize = 0;
    while i < levels.len()
        invariant
            *levels == model.supported_reasoning_levels,
            *tiers == model.service_tiers,
            levels_text == level_ids(levels@),
            visible_bytes(*model) <= usize::MAX,
            i <= levels@.len(),
            bytes == text::byte_count(model.slug@) + total_bytes(levels_text.take(i as int)),
        decreases levels@.len() - i,
    {
        proof {
            let now = levels_text.take(i + 1);
            assert(now.drop_last() =~= levels_text.take(i as int));
            assert(now.last() == levels@[i as int].effort.id());
            lemma_total_bytes_grows(levels_text, i + 1);
        }
        bytes += byte_len(levels[i].effort.as_str());
        i += 1;
    }
    assert(levels_text.take(i as int) =~= levels_text);
    let mut i: usize = 0;
    while i < tiers.len()
        invariant
            *levels == model.supported_reasoning_levels,
            *tiers == model.service_tiers,
            levels_text == level_ids(levels@),
            tiers_text == entry_tier_ids(tiers@),
            visible_bytes(*model) <= usize::MAX,
            i <= tiers@.len(),
            bytes == text::byte_count(model.slug@) + total_bytes(levels_text) + total_bytes(
                tiers_text.take(i as int),
            ),
        decreases tiers@.len() - i,
    {
        proof {
            let now = tiers_text.take(i + 1);
            assert(now.drop_last() =~= tiers_text.take(i as int));
            assert(now.last() == tiers@[i as int].id@);
            lemma_total_bytes_grows(tiers_text, i + 1);
        }
        bytes += byte_len(tiers[i].id.as_str());
        i += 1;
    }
    assert(tiers_text.take(i as int) =~= tiers_text);
    bytes
}

/// The first `k` sizes together.
spec fn leading_total(sizes: Seq<nat>, k: nat) -> nat
    decreases k,
{
    if k == 0 {
        0
    } else {
        leading_total(sizes, (k - 1) as nat) + sizes[k - 1]
    }
}

proof fn lemma_leading_total_grows(sizes: Seq<nat>, j: nat, k: nat)
    requires
        j <= k,
    ensures
        leading_total(sizes, j) <= leading_total(sizes, k),
    decreases k,
{
    if j < k {
        lemma_leading_total_grows(sizes, j, (k - 1) as nat);
    }
}

proof fn lemma_picked_total_remove(sizes: Seq<nat>, places: Seq<int>, t: int)
    requires
        0 <= t < places.len(),
    ensures
        picked_total(sizes, places) == picked_total(sizes, places.remove(t)) + sizes[places[t]],
    decreases places.len(),
{
    if t == places.len() - 1 {
        assert(places.remove(t) =~= places.drop_last());
    } else {
        assert(places.remove(t).drop_last() =~= places.drop_last().remove(t));
        lemma_picked_total_remove(sizes, places.drop_last(), t);
    }
}

/// Among sizes in descending order, no places hold more than the leading ones.
proof fn lemma_leading_is_largest(sizes: Seq<nat>, places: Seq<int>, n: nat)
    requires
        n <= sizes.len(),
        forall|i: int, j: int| 0 <= i <= j < sizes.len() ==> sizes[i] >= sizes[j],
        are_places(n, places),
    ensures
        places.len() <= n,
        picked_total(sizes, places) <= leading_total(sizes, places.len()),
    decreases n,
{
    if n == 0 {
        if places.len() > 0 {
            assert(places[0] < n);
        }
    } else if places.contains(n - 1) {
        let t = choose|t: int| 0 <= t < places.len() && places[t] == n - 1;
        let rest = places.remove(t);
        assert forall|i: int| 0 <= i < rest.len() implies 0 <= #[trigger] rest[i] < n - 1 by {
            let from = if i < t {
                i
            } else {
                i + 1
            };
            assert(rest[i] == places[from]);
        }
        lemma_leading_is_largest(sizes, rest, (n - 1) as nat);
        lemma_picked_total_remove(sizes, places, t);
    } else {
        assert forall|i: int| 0 <= i < places.len() implies 0 <= #[trigger] places[i] < n - 1 by {
            assert(places.contains(places[i]));
        }
        lemma_leading_is_largest(sizes, places, (n - 1) as nat);
    }
}

/// `order` lists all places of `n` items, each once.
spec fn is_order(n: nat, order: Seq<int>) -> bool {
    &&& order.len() == n
    &&& are_places(n, order)
    &&& forall|m: int| 0 <= m < n ==> #[trigger] order.contains(m)
}

/// The same pick, over the items put in order.
proof fn lemma_pick_in_order(sizes: Seq<nat>, sorted: Seq<nat>, order: Seq<int>, places: Seq<int>)
    -> (moved: Seq<int>)
    requires
        is_order(sizes.len(), order),
        sorted.len() == sizes.len(),
        forall|i: int| 0 <= i < sorted.len() ==> #[trigger] sorted[i] == sizes[order[i]],
        are_places(sizes.len(), places),
    ensures
        moved.len() == places.len(),
        are_places(sizes.len(), moved),
        forall|i: int| 0 <= i < moved.len() ==> order[#[trigger] moved[i]] == places[i],
        picked_total(sorted, moved) == picked_total(sizes, places),
    decreases places.len(),
{
    if places.len() == 0 {
        Seq::empty()
    } else {
        let rest = places.drop_last();
        let before = lemma_pick_in_order(sizes, sorted, order, rest);
        let last = places.last();
        assert(0 <= places[places.len() - 1] < sizes.len());
        assert(order.contains(last));
        let at = choose|at: int| 0 <= at < order.len() && order[at] == last;
        let moved = before.push(at);
        assert(moved.drop_last() =~= before);
        assert forall|i: int| 0 <= i < moved.len() implies order[#[trigger] moved[i]]
            == places[i] by {
            if i < before.len() {
                assert(moved[i] == before[i]);
            }
        }
        assert forall|i: int, j: int|
            0 <= i < moved.len() && 0 <= j < moved.len() && i != j implies moved[i] != moved[j] by {
            assert(order[moved[i]] == places[i]);
            assert(order[moved[j]] == places[j]);
        }
        moved
    }
}

proof fn lemma_leading_is_picked(sizes: Seq<nat>, sorted: Seq<nat>, order: Seq<int>, k: nat)
    requires
        k <= order.len() == sorted.len(),
        forall|i: int| 0 <= i < sorted.len() ==> #[trigger] sorted[i] == sizes[order[i]],
    ensures
        picked_total(sizes, order.take(k as int)) == leading_total(sorted, k),
    decreases k,
{
    if k > 0 {
        assert(order.take(k as int).drop_last() =~= order.take(k - 1));
        assert(sorted[k - 1] == sizes[order[k - 1]]);
        lemma_leading_is_picked(sizes, sorted, order, (k - 1) as nat);
    }
}

/// The leading sizes, in descending order, decide what any pick can reach.
proof fn lemma_leading_decides(
    sizes: Seq<nat>,
    sorted: Seq<nat>,
    order: Seq<int>,
    k: nat,
    limit: nat,
)
    requires
        is_order(sizes.len(), order),
        sorted.len() == sizes.len(),
        forall|i: int| 0 <= i < sorted.len() ==> #[trigger] sorted[i] == sizes[order[i]],
        forall|i: int, j: int| 0 <= i <= j < sorted.len() ==> sorted[i] >= sorted[j],
        k <= sizes.len(),
        k <= MAX_MODEL_VISIBLE_MANIFEST_MODELS,
        k == sizes.len() || k == MAX_MODEL_VISIBLE_MANIFEST_MODELS,
    ensures
        some_pick_exceeds(sizes, limit) == (leading_total(sorted, k) > limit),
{
    lemma_leading_is_picked(sizes, sorted, order, k);
    let leading = order.take(k as int);
    assert(is_pick(sizes.len(), leading)) by {
        assert forall|i: int| 0 <= i < leading.len() implies 0 <= #[trigger] leading[i]
            < sizes.len() by {
            assert(leading[i] == order[i]);
        }
    }
    if some_pick_exceeds(sizes, limit) {
        let places = choose|places: Seq<int>|
            is_pick(sizes.len(), places) && #[trigger] picked_total(sizes, places) > limit;
        let moved = lemma_pick_in_order(sizes, sorted, order, places);
        lemma_leading_is_largest(sorted, moved, sizes.len());
        lemma_leading_total_grows(sorted, moved.len(), k);
    }
}

/// Puts the sizes in descending order, and says where each came from.
fn sort_descending(sizes: &Vec<usize>) -> (result: (Vec<usize>, Ghost<Seq<int>>))
    ensures
        result.0@.len() == sizes@.len(),
        is_order(sizes@.len(), result.1@),
        forall|i: int| 0 <= i < result.0@.len() ==> #[trigger] result.0@[i] == sizes@[result.1@[i]],
        forall|i: int, j: int| 0 <= i <= j < result.0@.len() ==> result.0@[i] >= result.0@[j],
{
    let mut sorted: Vec<usize> = Vec::new();
    let ghost mut order: Seq<int> = Seq::empty();
    let mut n: usize = 0;
    while n < sizes.len()
        invariant
            n <= sizes@.len(),
            sorted@.len() == n,
            is_order(n as nat, order),
            forall|i: int| 0 <= i < n ==> #[trigger] sorted@[i] == sizes@[order[i]],
            forall|i: int, j: int| 0 <= i <= j < n ==> sorted@[i] >= sorted@[j],
        decreases sizes@.len() - n,
    {
        let size: usize = sizes[n];
        let mut at: usize = 0;
        while at < n && sorted[at] >= size
            invariant
                at <= n == sorted@.len(),
                forall|i: int| 0 <= i < at ==> sorted@[i] >= size,
            decreases n - at,
        {
            at += 1;
        }
        let ghost before = sorted@;
        let ghost earlier = order;
        sorted.insert(at, size);
        proof {
            order = earlier.insert(at as int, n as int);
            assert forall|m: int| 0 <= m < n + 1 implies #[trigger] order.contains(m) by {
                if m == n {
                    assert(order[at as int] == m);
                } else {
                    assert(earlier.contains(m));
                    let i = choose|i: int| 0 <= i < earlier.len() && earlier[i] == m;
                    assert(order[if i < at { i } else { i + 1 }] == m);
                }
            }
            assert forall|i: int| 0 <= i < order.len() implies 0 <= #[trigger] order[i] < n + 1 by {
                if i < at {
                    assert(order[i] == earlier[i]);
                } else if i > at {
                    assert(order[i] == earlier[i - 1]);
                }
            }
            assert(order.no_duplicates()) by {
                assert forall|i: int, j: int|
                    0 <= i < order.len() && 0 <= j < order.len() && i != j implies order[i]
                    != order[j] by {
                    let a = if i < at {
                        i
                    } else {
                        i - 1
                    };
                    let b = if j < at {
                        j
                    } else {
                        j - 1
                    };
                    if i != at {
                        assert(order[i] == earlier[a]);
                    }
                    if j != at {
                        assert(order[j] == earlier[b]);
                    }
                }
            }
            assert forall|i: int| 0 <= i < n + 1 implies #[trigger] sorted@[i]
                == sizes@[order[i]] by {
                if i < at {
                    assert(sorted@[i] == before[i]);
                } else if i > at {
                    assert(sorted@[i] == before[i - 1]);
                }
            }
        }
        n += 1;
    }
    (sorted, Ghost(order))
}

/// Keeps what a manifest can put in front of a model small.
///
/// A description lists a few models at a time, chosen elsewhere. The largest
/// ones are measured here, so that no later change of that choice can bring up
/// a larger combination than was checked.
pub fn validate_model_visible_catalog_budget(models: &[ModelInfo]) -> (result: Result<(), String>)
    requires
        forall|i: int| 0 <= i < models@.len() ==> visible_bytes(#[trigger] models@[i]) <= usize::MAX,
    ensures
        rules::reported(result) == budget_check(visible_sizes(models@)),
{
    let ghost sizes = visible_sizes(models@);
    let mut bytes: Vec<usize> = Vec::new();
    let mut i: usize = 0;
    while i < models.len()
        invariant
            forall|j: int|
                0 <= j < models@.len() ==> visible_bytes(#[trigger] models@[j]) <= usize::MAX,
            sizes == visible_sizes(models@),
            i <= models@.len(),
            bytes@.len() == i,
            forall|j: int| 0 <= j < i ==> #[trigger] bytes@[j] == sizes[j],
        decreases models@.len() - i,
    {
        bytes.push(model_visible_manifest_bytes(&models[i]));
        i += 1;
    }
    let (sorted, order) = sort_descending(&bytes);
    let ghost largest = sorted@.map_values(|size: usize| size as nat);
    let count: usize = if sorted.len() < MAX_MODEL_VISIBLE_MANIFEST_MODELS {
        sorted.len()
    } else {
        MAX_MODEL_VISIBLE_MANIFEST_MODELS
    };
    proof {
        assert forall|i: int| 0 <= i < largest.len() implies #[trigger] largest[i]
            == sizes[order@[i]] by {
            assert(sorted@[i] == bytes@[order@[i]]);
            assert(0 <= order@[i] < bytes@.len());
        }
        lemma_leading_decides(sizes, largest, order@, count as nat, usize::MAX as nat);
        lemma_leading_decides(
            sizes,
            largest,
            order@,
            count as nat,
            MAX_MODEL_VISIBLE_MANIFEST_BYTES as nat,
        );
    }
    let mut total: usize = 0;
    let mut i: usize = 0;
    while i < count
        invariant
            i <= count <= sorted@.len(),
            largest == sorted@.map_values(|size: usize| size as nat),
            total == leading_total(largest, i as nat),
            sizes == visible_sizes(models@),
            some_pick_exceeds(sizes, usize::MAX as nat) == (leading_total(largest, count as nat)
                > usize::MAX),
        decreases count - i,
    {
        assert(largest[i as int] == sorted@[i as int]);
        match total.checked_add(sorted[i]) {
            Some(sum) => {
                total = sum;
            },
            None => {
                proof {
                    lemma_leading_total_grows(largest, (i + 1) as nat, count as nat);
                }
                return Err("provider manifest model-visible metadata size overflowed".to_owned());
            },
        }
        i += 1;
    }
    if total > MAX_MODEL_VISIBLE_MANIFEST_BYTES {
        let most = decimal_text(MAX_MODEL_VISIBLE_MANIFEST_BYTES as u64);
        let at_once = decimal_text(MAX_MODEL_VISIBLE_MANIFEST_MODELS as u64);
        return Err(
            "provider manifest model-visible metadata must be no more than ".to_owned().concat(
                most.as_str(),
            ).concat(" bytes across any ").concat(at_once.as_str()).concat(" models"),
        );
    }
    Ok(())
}

} // verus!
