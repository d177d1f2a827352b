//! The smallest instantiation of the engine's operator hooks: a genome that
//! is a bare 64-bit value and a fitness that is the same for every genome.
//! With fitness 0 every run converges on generation 0; with any positive
//! fitness a run can only exhaust its budget. Useful for exercising the
//! engine's terminal states independently of any real problem.

use vstd::prelude::*;

use crate::genetic_algo::GenomeOps;
use crate::rnglib::XorRng64;

verus! {

/// A problem in which every genome scores the same fixed fitness.
pub struct UniformFitness {
    pub fitness: u64,
}

impl GenomeOps for UniformFitness {
    type Genome = u64;

    open spec fn genome_wf(&self, g: u64) -> bool {
        true
    }

    /// A fresh genome is the sub-stream's seed itself.
    open spec fn gen_post(&self, rng: XorRng64, r: u64) -> bool {
        r == rng.state
    }

    open spec fn fitness_spec(&self, g: u64) -> u64 {
        self.fitness
    }

    /// The child is the first parent unchanged.
    open spec fn crossover_post(&self, a: u64, b: u64, r: u64) -> bool {
        r == a
    }

    /// The mutant is the source unchanged.
    open spec fn mutation_post(&self, rng: XorRng64, g: u64, r: u64) -> bool {
        r == g
    }

    open spec fn clone_post(&self, g: u64, r: u64) -> bool {
        r == g
    }

    fn data_generator(&self, rng: XorRng64) -> (r: u64) {
        rng.state
    }

    fn fitness_function(&self, g: &u64) -> (r: u64) {
        self.fitness
    }

    fn crossover_function(&self, a: &u64, b: &u64) -> (r: u64) {
        *a
    }

    fn mutation_function(&self, rng: XorRng64, g: &u64) -> (r: u64) {
        *g
    }

    fn clone_genome(&self, g: &u64) -> (r: u64) {
        *g
    }
}

} // verus!
