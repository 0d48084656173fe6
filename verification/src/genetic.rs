//! Chromosomes for the knapsack optimizer: a fixed-length genome of boolean
//! genes, one per catalog item, with weight and feasibility-gated fitness
//! evaluation.

use vstd::prelude::*;

use rand::distributions::Bernoulli;
use rand::distributions::Distribution;
use rand::rngs::ThreadRng;

use crate::knapsack::Item;

verus! {

/// `rand::distributions::Bernoulli`, the weighted coin the sampling loop
/// draws from; opaque here, constructed by the caller.
#[verifier::external_type_specification]
#[verifier::external_body]
pub struct ExBernoulli(Bernoulli);

/// `rand::rngs::ThreadRng`, the caller-supplied randomness source.
#[verifier::external_type_specification]
#[verifier::external_body]
pub struct ExThreadRng(ThreadRng);

/// Relies on rand's `Distribution::<bool>::sample` for `Bernoulli`: draws
/// one boolean from the distribution. Nothing is promised of a random draw.
#[verifier::external_body]
fn sample_gene(distribution: &Bernoulli, rng: &mut ThreadRng) -> bool {
    distribution.sample(rng)
}

/// A candidate solution: `genes[i]` selects or deselects catalog item `i`.
/// `fitness` is a memo slot; it carries no semantics of its own.
pub struct Chromosome {
    pub genes: Vec<bool>,
    pub fitness: u32,
}

/// Sum of `items[i].weight` over the first `n` indices whose gene is set.
pub open spec fn selected_weight_prefix(genes: Seq<bool>, items: Seq<Item>, n: int) -> int
    decreases n,
{
    if n <= 0 {
        0
    } else {
        selected_weight_prefix(genes, items, n - 1) + if genes[n - 1] {
            items[n - 1].weight as int
        } else {
            0
        }
    }
}

/// Total weight of the items a genome selects.
pub open spec fn selected_weight(genes: Seq<bool>, items: Seq<Item>) -> int {
    selected_weight_prefix(genes, items, items.len() as int)
}

/// Sum of `items[i].value` over the first `n` indices whose gene is set.
pub open spec fn selected_value_prefix(genes: Seq<bool>, items: Seq<Item>, n: int) -> int
    decreases n,
{
    if n <= 0 {
        0
    } else {
        selected_value_prefix(genes, items, n - 1) + if genes[n - 1] {
            items[n - 1].value as int
        } else {
            0
        }
    }
}

/// Total value of the items a genome selects.
pub open spec fn selected_value(genes: Seq<bool>, items: Seq<Item>) -> int {
    selected_value_prefix(genes, items, items.len() as int)
}

/// The scoring rule: a genome whose selected weight exceeds the capacity is
/// infeasible and scores zero; a feasible genome scores its selected value.
pub open spec fn spec_fitness(genes: Seq<bool>, items: Seq<Item>, capacity: u32) -> int {
    if selected_weight(genes, items) > capacity {
        0
    } else {
        selected_value(genes, items)
    }
}

/// A shorter selected-weight prefix never sums to more than a longer one:
/// every contribution is non-negative.
proof fn lemma_selected_weight_prefix_mono(genes: Seq<bool>, items: Seq<Item>, m: int, n: int)
    requires
        0 <= m <= n,
    ensures
        selected_weight_prefix(genes, items, m) <= selected_weight_prefix(genes, items, n),
    decreases n,
{
    if m < n {
        lemma_selected_weight_prefix_mono(genes, items, m, n - 1);
    }
}

/// A shorter selected-value prefix never sums to more than a longer one:
/// every contribution is non-negative.
proof fn lemma_selected_value_prefix_mono(genes: Seq<bool>, items: Seq<Item>, m: int, n: int)
    requires
        0 <= m <= n,
    ensures
        selected_value_prefix(genes, items, m) <= selected_value_prefix(genes, items, n),
    decreases n,
{
    if m < n {
        lemma_selected_value_prefix_mono(genes, items, m, n - 1);
    }
}

/// Infeasible genomes score zero: whenever the selected weight exceeds the
/// capacity, the fitness is zero, whatever the item values are.
pub proof fn lemma_infeasible_scores_zero(genes: Seq<bool>, items: Seq<Item>, capacity: u32)
    requires
        selected_weight(genes, items) > capacity,
    ensures
        spec_fitness(genes, items, capacity) == 0,
{
}

/// A prefix over unset genes contributes neither weight nor value.
proof fn lemma_all_false_prefix_zero(genes: Seq<bool>, items: Seq<Item>, n: int)
    requires
        n <= genes.len(),
        forall|i: int| 0 <= i < genes.len() ==> !genes[i],
    ensures
        selected_weight_prefix(genes, items, n) == 0,
        selected_value_prefix(genes, items, n) == 0,
    decreases n,
{
    if n > 0 {
        lemma_all_false_prefix_zero(genes, items, n - 1);
    }
}

/// An all-false genome selects nothing: its weight is zero and its fitness
/// is zero under any capacity.
pub proof fn lemma_all_false_genome(genes: Seq<bool>, items: Seq<Item>, capacity: u32)
    requires
        genes.len() == items.len(),
        forall|i: int| 0 <= i < genes.len() ==> !genes[i],
    ensures
        selected_weight(genes, items) == 0,
        spec_fitness(genes, items, capacity) == 0,
{
    lemma_all_false_prefix_zero(genes, items, items.len() as int);
}

impl Chromosome {
    /// Number of genes in the genome.
    pub fn count_genes(&self) -> (n: usize)
        ensures
            n == self.genes@.len(),
    {
        self.genes.len()
    }

    /// A fresh chromosome of `genes_num` independent draws from the given
    /// Bernoulli distribution, in index order, with an unset fitness memo.
    pub fn new(distribution: &Bernoulli, rng: &mut ThreadRng, genes_num: usize) -> (chromosome:
        Self)
        ensures
            chromosome.genes@.len() == genes_num,
            chromosome.fitness == 0,
    {
        let mut genes: Vec<bool> = Vec::new();
        let mut idx: usize = 0;
        while idx < genes_num
            invariant
                idx <= genes_num,
                genes@.len() == idx,
            decreases genes_num - idx,
        {
            let gene = sample_gene(distribution, rng);
            genes.push(gene);
            idx = idx + 1;
        }
        Chromosome { genes, fitness: 0 }
    }

    /// Weight of the items a genome selects from the catalog. The genome
    /// must be exactly as long as the catalog: a mismatch is caller misuse.
    pub fn calculate_weight(genes: &Vec<bool>, items: &Vec<Item>) -> (weight: u32)
        requires
            genes@.len() == items@.len(),
            selected_weight(genes@, items@) <= u32::MAX,
        ensures
            weight == selected_weight(genes@, items@),
    {
        let mut weight: u32 = 0;
        let mut idx: usize = 0;
        while idx < items.len()
            invariant
                idx <= items@.len(),
                genes@.len() == items@.len(),
                weight == selected_weight_prefix(genes@, items@, idx as int),
                selected_weight(genes@, items@) <= u32::MAX,
            decreases items@.len() - idx,
        {
            if genes[idx] {
                proof {
                    lemma_selected_weight_prefix_mono(genes@, items@, idx + 1, items@.len() as int);
                }
                weight = weight + items[idx].weight;
            }
            idx = idx + 1;
        }
        weight
    }

    /// Fitness of a genome against a catalog and a capacity: zero when the
    /// selected weight exceeds the capacity, the selected value otherwise.
    pub fn calculate_fitness(genes: &Vec<bool>, items: &Vec<Item>, capacity: u32) -> (fitness: u32)
        requires
            genes@.len() == items@.len(),
            selected_weight(genes@, items@) <= u32::MAX,
            selected_weight(genes@, items@) <= capacity ==> selected_value(genes@, items@)
                <= u32::MAX,
        ensures
            fitness == spec_fitness(genes@, items@, capacity),
    {
        let weight: u32 = Self::calculate_weight(genes, items);
        let mut fitness: u32 = 0;
        if weight <= capacity {
            let mut idx: usize = 0;
            while idx < items.len()
                invariant
                    idx <= items@.len(),
                    genes@.len() == items@.len(),
                    fitness == selected_value_prefix(genes@, items@, idx as int),
                    selected_value(genes@, items@) <= u32::MAX,
                decreases items@.len() - idx,
            {
                if genes[idx] {
                    proof {
                        lemma_selected_value_prefix_mono(
                            genes@,
                            items@,
                            idx + 1,
                            items@.len() as int,
                        );
                    }
                    fitness = fitness + items[idx].value;
                }
                idx = idx + 1;
            }
        }
        fitness
    }
}

} // verus!

