//! Item catalogs for the 0/1 knapsack problem: an item is a positive value
//! paired with a positive weight, and a catalog is an ordered sequence of
//! items whose index order links each item to a gene position.

use vstd::prelude::*;

verus! {

/// One catalog entry: a value to collect and a weight to carry.
#[derive(Debug, Clone)]
pub struct Item {
    pub value: u32,
    pub weight: u32,
}

/// A catalog of items together with the maximum total weight a selection
/// may reach.
#[derive(Debug)]
pub struct Knapsack {
    pub items: Vec<Item>,
    pub capacity: u32,
}

/// Sum of `items[i].value` over the first `n` indices.
pub open spec fn sum_value_prefix(items: Seq<Item>, n: int) -> int
    decreases n,
{
    if n <= 0 {
        0
    } else {
        sum_value_prefix(items, n - 1) + items[n - 1].value
    }
}

/// Sum of the values of all items in the catalog.
pub open spec fn sum_value(items: Seq<Item>) -> int {
    sum_value_prefix(items, items.len() as int)
}

/// Sum of `items[i].weight` over the first `n` indices.
pub open spec fn sum_weight_prefix(items: Seq<Item>, n: int) -> int
    decreases n,
{
    if n <= 0 {
        0
    } else {
        sum_weight_prefix(items, n - 1) + items[n - 1].weight
    }
}

/// Sum of the weights of all items in the catalog.
pub open spec fn sum_weight(items: Seq<Item>) -> int {
    sum_weight_prefix(items, items.len() as int)
}

/// A shorter value prefix never sums to more than a longer one: every
/// value is non-negative.
proof fn lemma_sum_value_prefix_mono(items: Seq<Item>, m: int, n: int)
    requires
        0 <= m <= n,
    ensures
        sum_value_prefix(items, m) <= sum_value_prefix(items, n),
    decreases n,
{
    if m < n {
        lemma_sum_value_prefix_mono(items, m, n - 1);
    }
}

/// A shorter weight prefix never sums to more than a longer one: every
/// weight is non-negative.
proof fn lemma_sum_weight_prefix_mono(items: Seq<Item>, m: int, n: int)
    requires
        0 <= m <= n,
    ensures
        sum_weight_prefix(items, m) <= sum_weight_prefix(items, n),
    decreases n,
{
    if m < n {
        lemma_sum_weight_prefix_mono(items, m, n - 1);
    }
}

/// Total value of a catalog.
pub fn total_value(items: &Vec<Item>) -> (r: u32)
    requires
        sum_value(items@) <= u32::MAX,
    ensures
        r == sum_value(items@),
{
    let mut sum: u32 = 0;
    let mut idx: usize = 0;
    while idx < items.len()
        invariant
            idx <= items@.len(),
            sum == sum_value_prefix(items@, idx as int),
            sum_value(items@) <= u32::MAX,
        decreases items@.len() - idx,
    {
        proof {
            lemma_sum_value_prefix_mono(items@, idx + 1, items@.len() as int);
        }
        sum = sum + items[idx].value;
        idx = idx + 1;
    }
    sum
}

/// Total weight of a catalog.
pub fn total_weight(items: &Vec<Item>) -> (r: u32)
    requires
        sum_weight(items@) <= u32::MAX,
    ensures
        r == sum_weight(items@),
{
    let mut sum: u32 = 0;
    let mut idx: usize = 0;
    while idx < items.len()
        invariant
            idx <= items@.len(),
            sum == sum_weight_prefix(items@, idx as int),
            sum_weight(items@) <= u32::MAX,
        decreases items@.len() - idx,
    {
        proof {
            lemma_sum_weight_prefix_mono(items@, idx + 1, items@.len() as int);
        }
        sum = sum + items[idx].weight;
        idx = idx + 1;
    }
    sum
}

/// Relies on `rand::random`: a draw from the standard distribution of `T`.
/// Nothing is promised of a random draw.
pub assume_specification<T>[ rand::random::<T> ]() -> (r: T)
    where
        rand::distributions::Standard: rand::distributions::Distribution<T>,
;

/// Bounds every randomly generated item respects: a value in `1..=100` and
/// a weight in `1..=50`.
pub open spec fn generated_item_bounds(item: Item) -> bool {
    &&& 1 <= item.value <= 100
    &&& 1 <= item.weight <= 50
}

/// A catalog of `n` random items, each with a value in `1..=100` and a
/// weight in `1..=50`.
pub fn generate_items(n: usize) -> (items: Vec<Item>)
    ensures
        items@.len() == n,
        forall|i: int| 0 <= i < n ==> generated_item_bounds(#[trigger] items@[i]),
{
    let mut items: Vec<Item> = Vec::new();
    let mut idx: usize = 0;
    while idx < n
        invariant
            idx <= n,
            items@.len() == idx,
            forall|i: int| 0 <= i < idx ==> generated_item_bounds(#[trigger] items@[i]),
        decreases n - idx,
    {
        let item = Item { value: rand::random::<u32>() % 100 + 1, weight: rand::random::<u32>() % 50
            + 1 };
        items.push(item);
        idx = idx + 1;
    }
    items
}

/// A capacity bound derived from the catalog: the average item weight
/// (integer division) scaled by a multiplier. The catalog must be non-empty.
pub fn calculate_capacity_by_average(items: &[Item], multiplier: u32) -> (capacity: u32)
    requires
        items@.len() > 0,
        items@.len() <= u32::MAX,
        sum_weight(items@) <= u32::MAX,
        (sum_weight(items@) / items@.len() as int) * multiplier <= u32::MAX,
    ensures
        capacity == (sum_weight(items@) / items@.len() as int) * multiplier,
{
    let mut sum: u32 = 0;
    let mut idx: usize = 0;
    while idx < items.len()
        invariant
            idx <= items@.len(),
            sum == sum_weight_prefix(items@, idx as int),
            sum_weight(items@) <= u32::MAX,
        decreases items@.len() - idx,
    {
        proof {
            lemma_sum_weight_prefix_mono(items@, idx + 1, items@.len() as int);
        }
        sum = sum + items[idx].weight;
        idx = idx + 1;
    }
    let avg_weight: u32 = sum / (items.len() as u32);
    avg_weight * multiplier
}

} // verus!
