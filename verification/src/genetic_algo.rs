//! The evolutionary engine: owns the population, drives the generation loop
//! (evaluate, select, breed, mutate, preserve elites, replace), and detects
//! convergence (best fitness 0) or run-count exhaustion.
//!
//! The engine is polymorphic over any genome type equipped with the
//! operator hooks of [`GenomeOps`]; it never inspects a genome's internals.

use vstd::prelude::*;

use crate::ranking::{
    sorted_by_fitness, rank_sort, lemma_rank_sort_len, lemma_rank_sort_sorted,
    lemma_rank_sort_membership, lemma_ranked_first_is_minimal, sort_ranked,
};
use crate::rnglib::{
    XorRng64, RngGenerator64, xor_step, xor_nth_state, xor_nth_value, gen_step, gen_nth_state,
    xor_rng_with_seed,
};

verus! {

/// The problem-specific collaborators of the engine: a genome type, its four
/// operator hooks (generate, score, combine, mutate) and a copy operation.
/// Each executable hook is pinned to a spec-level account of its behaviour,
/// so that every run of the engine is a pure function of its seeds.
pub trait GenomeOps {
    type Genome;

    /// Well-formedness of a genome, as this problem defines it. The engine
    /// only ever hands well-formed genomes to the hooks.
    spec fn genome_wf(&self, g: Self::Genome) -> bool;

    /// What `data_generator` returns for a given fresh sub-stream.
    spec fn gen_post(&self, rng: XorRng64, r: Self::Genome) -> bool;

    /// The fitness of a genome: a pure, non-negative score where 0 means a
    /// perfect match. Lower is always better.
    spec fn fitness_spec(&self, g: Self::Genome) -> u64;

    /// What `crossover_function` returns for two given parents.
    spec fn crossover_post(&self, a: Self::Genome, b: Self::Genome, r: Self::Genome) -> bool;

    /// What `mutation_function` returns for a given sub-stream and source.
    spec fn mutation_post(&self, rng: XorRng64, g: Self::Genome, r: Self::Genome) -> bool;

    /// What `clone_genome` returns: a copy indistinguishable from the
    /// original as far as this problem observes genomes.
    spec fn clone_post(&self, g: Self::Genome, r: Self::Genome) -> bool;

    /// Produce one genome from a fresh bounded random sub-stream.
    fn data_generator(&self, rng: XorRng64) -> (r: Self::Genome)
        ensures
            self.genome_wf(r),
            self.gen_post(rng, r),
    ;

    /// Score one genome. The score is exactly `fitness_spec`, so evaluating
    /// the same genome twice always yields the same fitness.
    fn fitness_function(&self, g: &Self::Genome) -> (r: u64)
        requires
            self.genome_wf(*g),
        ensures
            r == self.fitness_spec(*g),
    ;

    /// Combine two genomes into a new one.
    fn crossover_function(&self, a: &Self::Genome, b: &Self::Genome) -> (r: Self::Genome)
        requires
            self.genome_wf(*a),
            self.genome_wf(*b),
        ensures
            self.genome_wf(r),
            self.crossover_post(*a, *b, r),
    ;

    /// Perturb one genome using the supplied bounded random sub-stream.
    fn mutation_function(&self, rng: XorRng64, g: &Self::Genome) -> (r: Self::Genome)
        requires
            self.genome_wf(*g),
        ensures
            self.genome_wf(r),
            self.mutation_post(rng, *g, r),
    ;

    /// A copy of a genome, used by elitism and when returning the winner.
    /// The copy scores exactly as the original does.
    fn clone_genome(&self, g: &Self::Genome) -> (r: Self::Genome)
        requires
            self.genome_wf(*g),
        ensures
            self.genome_wf(r),
            self.clone_post(*g, r),
            self.fitness_spec(r) == self.fitness_spec(*g),
    ;
}

/// The two fatal misconfigurations a run can meet. Both indicate a caller
/// bug, not a recoverable runtime condition.
#[derive(Debug, Clone, Copy, PartialEq, Eq, Structural)]
pub enum EngineError {
    /// The crossover, mutation and elitism counts, each computed by
    /// percentage with integer truncation, do not sum to the configured
    /// population size.
    PopulationSizeMismatch { expected: u64, actual: u64 },
    /// A bounded random draw would be requested with bound 0: a phase must
    /// produce genomes but its selection pool is empty.
    InvalidRange,
}

/// The evolutionary engine: operator hooks plus the five percentage
/// configuration values (each an integer 0 to 100).
pub struct GeneticAlgorithm<Ops: GenomeOps> {
    pub ops: Ops,
    /// Top fraction of the ranked population eligible as crossover parents.
    pub crossover_selection_threshold_percent: u64,
    /// Fraction of each new population produced by crossover.
    pub crossover_resulting_percent: u64,
    /// Top fraction of the ranked population eligible as mutation sources.
    pub mutation_selection_threshold_percent: u64,
    /// Fraction of each new population produced by mutation.
    pub mutation_resulting_percent: u64,
    /// Fraction of each new population copied directly from the current best
    /// performers, in rank order.
    pub elitism_percent: u64,
}

impl<Ops: GenomeOps> GeneticAlgorithm<Ops> {
    /// All five operator percentages lie in 0 to 100.
    pub open spec fn percentages_valid(&self) -> bool {
        &&& self.crossover_selection_threshold_percent <= 100
        &&& self.crossover_resulting_percent <= 100
        &&& self.mutation_selection_threshold_percent <= 100
        &&& self.mutation_resulting_percent <= 100
        &&& self.elitism_percent <= 100
    }

    /// Genomes produced by crossover per generation.
    pub open spec fn crossover_count(&self, num_pop: u64) -> int {
        (self.crossover_resulting_percent * num_pop) / 100
    }

    /// Size of the top-ranked pool eligible as crossover parents.
    pub open spec fn crossover_pool(&self, num_pop: u64) -> int {
        (self.crossover_selection_threshold_percent * num_pop) / 100
    }

    /// Genomes produced by mutation per generation.
    pub open spec fn mutation_count(&self, num_pop: u64) -> int {
        (self.mutation_resulting_percent * num_pop) / 100
    }

    /// Size of the top-ranked pool eligible as mutation sources.
    pub open spec fn mutation_pool(&self, num_pop: u64) -> int {
        (self.mutation_selection_threshold_percent * num_pop) / 100
    }

    /// Genomes copied unchanged from the current best performers.
    pub open spec fn elitism_count(&self, num_pop: u64) -> int {
        (self.elitism_percent * num_pop) / 100
    }

    /// Total genomes one generation step produces.
    pub open spec fn total_count(&self, num_pop: u64) -> int {
        self.crossover_count(num_pop) + self.mutation_count(num_pop) + self.elitism_count(num_pop)
    }

    /// Every random index draw a generation makes has a positive bound: a
    /// phase that must produce genomes has a non-empty selection pool.
    pub open spec fn ranges_valid(&self, num_pop: u64) -> bool {
        &&& self.crossover_count(num_pop) > 0 ==> self.crossover_pool(num_pop) > 0
        &&& self.mutation_count(num_pop) > 0 ==> self.mutation_pool(num_pop) > 0
    }

    /// The three phase counts partition the population exactly.
    pub open spec fn counts_partition(&self, num_pop: u64) -> bool {
        self.total_count(num_pop) == num_pop
    }

    /// A configuration under which every generation step succeeds.
    pub open spec fn config_ok(&self, num_pop: u64) -> bool {
        &&& self.percentages_valid()
        &&& self.ranges_valid(num_pop)
        &&& self.counts_partition(num_pop)
    }

    /// The population paired with its fitnesses, in original order.
    pub open spec fn scored(&self, pop: Seq<Ops::Genome>) -> Seq<(Ops::Genome, u64)> {
        Seq::new(pop.len(), |k: int| (pop[k], self.ops.fitness_spec(pop[k])))
    }

    /// Produce `num` genomes by deriving `num` independent sub-streams from
    /// the given stream generator, in derivation order, and applying the
    /// data generator hook to each.
    pub fn generate_initial_data(&self, rng_generator: &mut RngGenerator64, num: u64) -> (r: Vec<
        Ops::Genome,
    >)
        requires
            num <= usize::MAX as u64,
        ensures
            r@.len() == num as int,
            forall|k: int| 0 <= k < num as int ==> self.ops.genome_wf(#[trigger] r@[k]),
            forall|k: int|
                0 <= k < num as int ==> self.ops.gen_post(
                    xor_rng_with_seed(gen_nth_state(old(rng_generator).state, (k + 1) as nat)),
                    #[trigger] r@[k],
                ),
            final(rng_generator).state == gen_nth_state(old(rng_generator).state, num as nat),
            final(rng_generator).initial_seed == old(rng_generator).initial_seed,
    {
        let ghost s0 = rng_generator.state;
        let ghost seed0 = rng_generator.initial_seed;
        let mut initial_population: Vec<Ops::Genome> = Vec::new();

        let mut i: u64 = 0;
        while i < num
            invariant
                i <= num,
                initial_population@.len() == i as int,
                rng_generator.state == gen_nth_state(s0, i as nat),
                rng_generator.initial_seed == seed0,
                forall|k: int|
                    0 <= k < i as int ==> self.ops.genome_wf(#[trigger] initial_population@[k]),
                forall|k: int|
                    0 <= k < i as int ==> self.ops.gen_post(
                        xor_rng_with_seed(gen_nth_state(s0, (k + 1) as nat)),
                        #[trigger] initial_population@[k],
                    ),
            decreases num - i,
        {
            let rng = rng_generator.next();
            proof {
                assert(gen_nth_state(s0, (i + 1) as nat) == gen_step(gen_nth_state(s0, i as nat)));
            }
            let new_member = self.ops.data_generator(rng);
            initial_population.push(new_member);
            i = i + 1;
        }

        initial_population
    }

    /// Measure the fitness of the entire population, zip each genome with
    /// its score, and stable-sort ascending by fitness (best first, ties in
    /// original order). The ranked population has exactly the size of the
    /// population it came from.
    pub fn rank_population(&self, population: Vec<Ops::Genome>) -> (r: Vec<(Ops::Genome, u64)>)
        requires
            forall|k: int|
                0 <= k < population@.len() ==> self.ops.genome_wf(#[trigger] population@[k]),
        ensures
            r@ == rank_sort(self.scored(population@)),
            r@.len() == population@.len(),
            sorted_by_fitness(r@),
            forall|k: int|
                0 <= k < r@.len() ==> self.ops.genome_wf((#[trigger] r@[k]).0) && r@[k].1
                    == self.ops.fitness_spec(r@[k].0),
            r@.len() > 0 ==> forall|k: int|
                0 <= k < population@.len() ==> r@[0].1 <= self.ops.fitness_spec(
                    #[trigger] population@[k],
                ),
    {
        let ghost orig = population@;
        let mut pop = population;
        let mut scored_vec: Vec<(Ops::Genome, u64)> = Vec::new();

        while pop.len() > 0
            invariant
                scored_vec@.len() + pop@.len() == orig.len(),
                pop@ == orig.subrange(orig.len() - pop@.len(), orig.len() as int),
                forall|k: int| 0 <= k < orig.len() ==> self.ops.genome_wf(#[trigger] orig[k]),
                forall|k: int|
                    0 <= k < scored_vec@.len() ==> #[trigger] scored_vec@[k] == (
                    orig[k],
                    self.ops.fitness_spec(orig[k]),
                ),
            decreases pop@.len(),
        {
            let ghost k = orig.len() - pop@.len();
            let g = pop.remove(0);
            proof {
                assert(g == orig[k as int]);
                assert(pop@ =~= orig.subrange(orig.len() - pop@.len(), orig.len() as int));
            }
            let f = self.ops.fitness_function(&g);
            scored_vec.push((g, f));
        }

        proof {
            assert(scored_vec@ =~= self.scored(orig));
            lemma_rank_sort_len(self.scored(orig));
            lemma_rank_sort_sorted(self.scored(orig));
        }
        let r = sort_ranked(scored_vec);
        proof {
            if r@.len() > 0 {
                lemma_ranked_first_is_minimal(self.scored(orig));
                assert forall|k: int| 0 <= k < orig.len() implies r@[0].1 <= self.ops.fitness_spec(
                    #[trigger] orig[k],
                ) by {
                    assert(self.scored(orig)[k].1 == self.ops.fitness_spec(orig[k]));
                }
            }
            assert forall|k: int| 0 <= k < r@.len() implies self.ops.genome_wf(
                (#[trigger] r@[k]).0,
            ) && r@[k].1 == self.ops.fitness_spec(r@[k].0) by {
                lemma_rank_sort_membership(self.scored(orig), k);
                let pair = r@[k];
                let j = choose|j: int|
                    0 <= j < self.scored(orig).len() && self.scored(orig)[j] == pair;
                assert(pair == (orig[j], self.ops.fitness_spec(orig[j])));
            }
        }
        r
    }

    /// Breed one new population from the ranked current one.
    ///
    /// Crossover fills the first `crossover_count` slots: slot `j` combines
    /// the `j`-th ranked genome with one drawn from the eligible top pool by
    /// the shared bounded stream. Mutation fills the next `mutation_count`
    /// slots: each draws its source from the eligible top pool with the same
    /// shared stream and perturbs it with a freshly derived sub-stream.
    /// Elitism then copies the top `elitism_count` ranked genomes unchanged,
    /// in rank order.
    ///
    /// Fails fast — touching neither stream — when a needed selection pool
    /// is empty (`InvalidRange`) or when the three counts do not partition
    /// `num_pop` exactly (`PopulationSizeMismatch`).
    pub fn next_generation(
        &self,
        ranked: &Vec<(Ops::Genome, u64)>,
        rng: &mut XorRng64,
        rng_generator: &mut RngGenerator64,
        num_pop: u64,
    ) -> (r: Result<Vec<Ops::Genome>, EngineError>)
        requires
            self.percentages_valid(),
            num_pop > 0,
            num_pop <= u64::MAX / 100,
            num_pop <= usize::MAX as u64,
            ranked@.len() == num_pop as int,
            forall|k: int|
                0 <= k < ranked@.len() ==> self.ops.genome_wf((#[trigger] ranked@[k]).0),
        ensures
            r is Ok <==> self.ranges_valid(num_pop) && self.counts_partition(num_pop),
            r == Err::<Vec<Ops::Genome>, EngineError>(EngineError::InvalidRange) <==> !self.ranges_valid(num_pop),
            !self.counts_partition(num_pop) && self.ranges_valid(num_pop) ==> r == Err::<
                Vec<Ops::Genome>,
                EngineError,
            >(
                EngineError::PopulationSizeMismatch {
                    expected: num_pop,
                    actual: self.total_count(num_pop) as u64,
                },
            ),
            r is Err ==> *final(rng) == *old(rng) && *final(rng_generator) == *old(rng_generator),
            r matches Ok(newpop) ==> {
                &&& newpop@.len() == num_pop as int
                &&& forall|k: int|
                    0 <= k < newpop@.len() ==> self.ops.genome_wf(#[trigger] newpop@[k])
                &&& forall|j: int|
                    0 <= j < self.crossover_count(num_pop) ==> self.ops.crossover_post(
                        ranked@[j].0,
                        ranked@[xor_nth_value(
                            old(rng).state,
                            j as nat,
                            self.crossover_pool(num_pop) as u64,
                        ) as int].0,
                        #[trigger] newpop@[j],
                    )
                &&& forall|j: int|
                    0 <= j < self.mutation_count(num_pop) ==> self.ops.mutation_post(
                        xor_rng_with_seed(gen_nth_state(old(rng_generator).state, (j + 1) as nat)),
                        ranked@[xor_nth_value(
                            old(rng).state,
                            (self.crossover_count(num_pop) + j) as nat,
                            self.mutation_pool(num_pop) as u64,
                        ) as int].0,
                        #[trigger] newpop@[self.crossover_count(num_pop) + j],
                    )
                &&& forall|j: int|
                    0 <= j < self.elitism_count(num_pop) ==> self.ops.clone_post(
                        ranked@[j].0,
                        #[trigger] newpop@[self.crossover_count(num_pop) + self.mutation_count(
                            num_pop,
                        ) + j],
                    )
                &&& final(rng).state == xor_nth_state(
                    old(rng).state,
                    (self.crossover_count(num_pop) + self.mutation_count(num_pop)) as nat,
                )
                &&& final(rng).initial_seed == old(rng).initial_seed
                &&& final(rng_generator).state == gen_nth_state(
                    old(rng_generator).state,
                    self.mutation_count(num_pop) as nat,
                )
                &&& final(rng_generator).initial_seed == old(rng_generator).initial_seed
            },
    {
        proof {
            lemma_percent_bound(self.crossover_resulting_percent, num_pop);
            lemma_percent_bound(self.crossover_selection_threshold_percent, num_pop);
            lemma_percent_bound(self.mutation_resulting_percent, num_pop);
            lemma_percent_bound(self.mutation_selection_threshold_percent, num_pop);
            lemma_percent_bound(self.elitism_percent, num_pop);
            assert(100 * num_pop <= u64::MAX);
        }
        let num_to_crossover = (self.crossover_resulting_percent * num_pop) / 100;
        let max_index_to_crossover = (self.crossover_selection_threshold_percent * num_pop) / 100;
        let num_to_mutate = (self.mutation_resulting_percent * num_pop) / 100;
        let max_index_to_mutate = (self.mutation_selection_threshold_percent * num_pop) / 100;
        let num_for_elitism = (self.elitism_percent * num_pop) / 100;

        if num_to_crossover > 0 && max_index_to_crossover == 0 {
            return Err(EngineError::InvalidRange);
        }
        if num_to_mutate > 0 && max_index_to_mutate == 0 {
            return Err(EngineError::InvalidRange);
        }
        let actual = num_to_crossover + num_to_mutate + num_for_elitism;
        if actual != num_pop {
            return Err(EngineError::PopulationSizeMismatch { expected: num_pop, actual });
        }

        let ghost r0 = rng.state;
        let ghost rseed0 = rng.initial_seed;
        let ghost g0 = rng_generator.state;
        let ghost gseed0 = rng_generator.initial_seed;
        let ghost cc = self.crossover_count(num_pop);
        let ghost mc = self.mutation_count(num_pop);
        let ghost ec = self.elitism_count(num_pop);

        let mut new_population: Vec<Ops::Genome> = Vec::new();

        let mut j: u64 = 0;
        while j < num_to_crossover
            invariant
                j <= num_to_crossover,
                num_to_crossover as int == cc,
                max_index_to_crossover as int == self.crossover_pool(num_pop),
                num_to_crossover > 0 ==> max_index_to_crossover > 0,
                max_index_to_crossover <= num_pop,
                num_to_crossover <= num_pop,
                num_pop <= usize::MAX as u64,
                ranked@.len() == num_pop as int,
                forall|k: int|
                    0 <= k < ranked@.len() ==> self.ops.genome_wf((#[trigger] ranked@[k]).0),
                rng.state == xor_nth_state(r0, j as nat),
                rng.initial_seed == rseed0,
                new_population@.len() == j as int,
                forall|t: int|
                    0 <= t < j as int ==> self.ops.genome_wf(#[trigger] new_population@[t]),
                forall|t: int|
                    0 <= t < j as int ==> self.ops.crossover_post(
                        ranked@[t].0,
                        ranked@[xor_nth_value(r0, t as nat, max_index_to_crossover) as int].0,
                        #[trigger] new_population@[t],
                    ),
            decreases num_to_crossover - j,
        {
            let idx = rng.next(max_index_to_crossover);
            proof {
                assert(xor_nth_state(r0, (j + 1) as nat) == xor_step(xor_nth_state(r0, j as nat)));
            }
            let first = &ranked[j as usize];
            let second = &ranked[idx as usize];
            let crossed_genome = self.ops.crossover_function(&first.0, &second.0);
            new_population.push(crossed_genome);
            j = j + 1;
        }

        let mut j: u64 = 0;
        while j < num_to_mutate
            invariant
                j <= num_to_mutate,
                num_to_crossover as int == cc,
                num_to_mutate as int == mc,
                max_index_to_mutate as int == self.mutation_pool(num_pop),
                num_to_mutate > 0 ==> max_index_to_mutate > 0,
                max_index_to_mutate <= num_pop,
                num_to_crossover <= num_pop,
                num_to_mutate <= num_pop,
                num_pop <= usize::MAX as u64,
                ranked@.len() == num_pop as int,
                forall|k: int|
                    0 <= k < ranked@.len() ==> self.ops.genome_wf((#[trigger] ranked@[k]).0),
                rng.state == xor_nth_state(r0, (cc + j) as nat),
                rng.initial_seed == rseed0,
                rng_generator.state == gen_nth_state(g0, j as nat),
                rng_generator.initial_seed == gseed0,
                new_population@.len() == cc + j as int,
                forall|t: int|
                    0 <= t < cc + j as int ==> self.ops.genome_wf(#[trigger] new_population@[t]),
                forall|t: int|
                    0 <= t < cc ==> self.ops.crossover_post(
                        ranked@[t].0,
                        ranked@[xor_nth_value(r0, t as nat, max_index_to_crossover) as int].0,
                        #[trigger] new_population@[t],
                    ),
                forall|t: int|
                    0 <= t < j as int ==> self.ops.mutation_post(
                        xor_rng_with_seed(gen_nth_state(g0, (t + 1) as nat)),
                        ranked@[xor_nth_value(r0, (cc + t) as nat, max_index_to_mutate) as int].0,
                        #[trigger] new_population@[cc + t],
                    ),
            decreases num_to_mutate - j,
        {
            let idx = rng.next(max_index_to_mutate);
            proof {
                assert(xor_nth_state(r0, (cc + j + 1) as nat) == xor_step(
                    xor_nth_state(r0, (cc + j) as nat),
                ));
            }
            let sub_stream = rng_generator.next();
            proof {
                assert(gen_nth_state(g0, (j + 1) as nat) == gen_step(gen_nth_state(g0, j as nat)));
            }
            let source = &ranked[idx as usize];
            let mutated_genome = self.ops.mutation_function(sub_stream, &source.0);
            new_population.push(mutated_genome);
            j = j + 1;
        }

        let mut j: u64 = 0;
        while j < num_for_elitism
            invariant
                j <= num_for_elitism,
                num_to_crossover as int == cc,
                num_to_mutate as int == mc,
                num_for_elitism as int == ec,
                num_to_crossover <= num_pop,
                num_to_mutate <= num_pop,
                num_for_elitism <= num_pop,
                num_pop <= usize::MAX as u64,
                ranked@.len() == num_pop as int,
                forall|k: int|
                    0 <= k < ranked@.len() ==> self.ops.genome_wf((#[trigger] ranked@[k]).0),
                new_population@.len() == cc + mc + j as int,
                forall|t: int|
                    0 <= t < cc + mc + j as int ==> self.ops.genome_wf(
                        #[trigger] new_population@[t],
                    ),
                forall|t: int|
                    0 <= t < cc ==> self.ops.crossover_post(
                        ranked@[t].0,
                        ranked@[xor_nth_value(r0, t as nat, max_index_to_crossover) as int].0,
                        #[trigger] new_population@[t],
                    ),
                forall|t: int|
                    0 <= t < mc ==> self.ops.mutation_post(
                        xor_rng_with_seed(gen_nth_state(g0, (t + 1) as nat)),
                        ranked@[xor_nth_value(r0, (cc + t) as nat, max_index_to_mutate) as int].0,
                        #[trigger] new_population@[cc + t],
                    ),
                forall|t: int|
                    0 <= t < j as int ==> self.ops.clone_post(
                        ranked@[t].0,
                        #[trigger] new_population@[cc + mc + t],
                    ),
            decreases num_for_elitism - j,
        {
            let elite = self.ops.clone_genome(&ranked[j as usize].0);
            new_population.push(elite);
            j = j + 1;
        }

        Ok(new_population)
    }

    /// The main loop: build the initial population of size `num_pop` from
    /// `init_generator`, then repeat — evaluate and rank, stop with the best
    /// genome and fitness 0 when converged, breed the next generation — until
    /// `num_runs` generations have been bred without convergence, in which
    /// case the best of the last evaluated population is returned with its
    /// (then positive) fitness. `rng_generator` supplies one shared bounded
    /// stream for the whole run's index draws plus one fresh sub-stream per
    /// mutation. A run fails only on a misconfiguration that breeding
    /// detects; with a partitioning configuration it always succeeds, and
    /// with a run budget of 0 no breeding happens at all.
    pub fn run_n_times(
        &self,
        init_generator: RngGenerator64,
        rng_generator: RngGenerator64,
        num_pop: u64,
        num_runs: u64,
    ) -> (r: Result<(Ops::Genome, u64), EngineError>)
        requires
            self.percentages_valid(),
            0 < num_pop,
            num_pop <= u64::MAX / 100,
            num_pop <= usize::MAX as u64,
        ensures
            r matches Ok(best) ==> self.ops.genome_wf(best.0) && best.1 == self.ops.fitness_spec(
                best.0,
            ),
            self.config_ok(num_pop) ==> r is Ok,
            num_runs == 0 ==> r is Ok,
            r == Err::<(Ops::Genome, u64), EngineError>(EngineError::InvalidRange) ==> num_runs > 0
                && !self.ranges_valid(num_pop),
            r matches Err(EngineError::PopulationSizeMismatch { expected, actual }) ==> num_runs > 0
                && self.ranges_valid(num_pop) && !self.counts_partition(num_pop) && expected
                == num_pop && actual == self.total_count(num_pop) as u64,
    {
        let mut init_generator = init_generator;
        let mut rng_generator = rng_generator;

        let mut current_population = self.generate_initial_data(&mut init_generator, num_pop);

        let mut i: u64 = 0;

        let mut rng = rng_generator.next();

        loop
            invariant
                self.percentages_valid(),
                0 < num_pop,
                num_pop <= u64::MAX / 100,
                num_pop <= usize::MAX as u64,
                current_population@.len() == num_pop as int,
                forall|k: int|
                    0 <= k < current_population@.len() ==> self.ops.genome_wf(
                        #[trigger] current_population@[k],
                    ),
                i <= num_runs,
            decreases num_runs - i,
        {
            let genome_data = self.rank_population(current_population);

            let best_fitness = genome_data[0].1;
            if best_fitness == 0 {
                let winner = self.ops.clone_genome(&genome_data[0].0);
                return Ok((winner, 0));
            }

            if i >= num_runs {
                let winner = self.ops.clone_genome(&genome_data[0].0);
                return Ok((winner, best_fitness));
            }

            let new_population = match self.next_generation(
                &genome_data,
                &mut rng,
                &mut rng_generator,
                num_pop,
            ) {
                Ok(p) => p,
                Err(e) => return Err(e),
            };

            i = i + 1;
            if i >= num_runs {
                let winner = self.ops.clone_genome(&genome_data[0].0);
                return Ok((winner, best_fitness));
            }

            current_population = new_population;
        }
    }
}

/// Idempotence of convergence: a best genome returned by a run carries
/// exactly its spec-level fitness (`run_n_times` ensures this), and every
/// later evaluation returns exactly that same spec-level fitness
/// (`fitness_function` ensures this). So once a run converges with fitness
/// 0, re-evaluating the returned genome yields fitness 0 again.
pub proof fn lemma_convergence_idempotent<Ops: GenomeOps>(
    ops: &Ops,
    best: (Ops::Genome, u64),
    re_evaluated: u64,
)
    requires
        best.1 == ops.fitness_spec(best.0),
        best.1 == 0,
        re_evaluated == ops.fitness_spec(best.0),
    ensures
        re_evaluated == 0,
{
}

/// For percentages up to 100, the truncated share `(p * n) / 100` lies
/// between 0 and `n`.
proof fn lemma_percent_bound(p: u64, n: u64)
    requires
        p <= 100,
    ensures
        0 <= (p * n) / 100 <= n,
        p * n <= 100 * n,
{
    vstd::arithmetic::mul::lemma_mul_inequality(p as int, 100, n as int);
    vstd::arithmetic::div_mod::lemma_div_is_ordered(0, p as int * n as int, 100);
    vstd::arithmetic::div_mod::lemma_div_is_ordered(p as int * n as int, 100 * n as int, 100);
    vstd::arithmetic::div_mod::lemma_div_multiples_vanish(n as int, 100);
}

} // verus!
