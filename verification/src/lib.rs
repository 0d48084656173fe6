//! Chromosome representation and fitness evaluation for the 0/1 knapsack
//! problem: random genome generation under a fixed allele probability, and
//! the feasibility-gated weight/value scoring rule.

pub mod genetic;
pub mod knapsack;
