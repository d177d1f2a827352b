use evosearch::basket::BasketProblem;
use evosearch::genetic_algo::{EngineError, GeneticAlgorithm, GenomeOps};
use evosearch::rnglib::{RngGenerator64, XorRng64};
use evosearch::uniform::UniformFitness;

fn basket_algo() -> GeneticAlgorithm<BasketProblem> {
    GeneticAlgorithm {
        ops: BasketProblem {},
        crossover_selection_threshold_percent: 50,
        crossover_resulting_percent: 50,
        mutation_selection_threshold_percent: 100,
        mutation_resulting_percent: 30,
        elitism_percent: 20,
    }
}

fn uniform_algo(fitness: u64) -> GeneticAlgorithm<UniformFitness> {
    GeneticAlgorithm {
        ops: UniformFitness { fitness },
        crossover_selection_threshold_percent: 50,
        crossover_resulting_percent: 50,
        mutation_selection_threshold_percent: 100,
        mutation_resulting_percent: 30,
        elitism_percent: 20,
    }
}

#[test]
fn fitness_exact_values() {
    let ops = BasketProblem {};
    // 6 + 9 + 15 hits the target 30 exactly
    let perfect: Vec<u64> = vec![1, 1, 0, 0, 1, 0, 0, 0, 0, 0];
    assert_eq!(ops.fitness_function(&perfect), 0);
    let none: Vec<u64> = vec![0; 10];
    assert_eq!(ops.fitness_function(&none), 30);
    // all weights sum to 200, so distance is 170
    let all: Vec<u64> = vec![1; 10];
    assert_eq!(ops.fitness_function(&all), 170);
}

#[test]
fn crossover_takes_first_and_last_halves() {
    let ops = BasketProblem {};
    let g1: Vec<u64> = vec![1; 10];
    let g2: Vec<u64> = vec![0; 10];
    let child = ops.crossover_function(&g1, &g2);
    assert_eq!(child, vec![1, 1, 1, 1, 1, 0, 0, 0, 0, 0]);
}

#[test]
fn mutation_flips_exactly_one_entry() {
    let ops = BasketProblem {};
    let g: Vec<u64> = vec![0; 10];
    let mut probe = XorRng64::new(5);
    let idx = probe.next(10) as usize;
    let mutated = ops.mutation_function(XorRng64::new(5), &g);
    for k in 0..10 {
        if k == idx {
            assert_eq!(mutated[k], 1);
        } else {
            assert_eq!(mutated[k], 0);
        }
    }
}

#[test]
fn data_generator_matches_its_stream() {
    let ops = BasketProblem {};
    let genome = ops.data_generator(XorRng64::new(99));
    let mut probe = XorRng64::new(99);
    assert_eq!(genome.len(), 10);
    for k in 0..10 {
        let expected: u64 = if probe.next(10) >= 5 { 1 } else { 0 };
        assert_eq!(genome[k], expected);
    }
}

#[test]
fn ranking_keeps_size_and_sorts_ascending() {
    let algo = basket_algo();
    let mut gen = RngGenerator64::new(4242);
    let pop = algo.generate_initial_data(&mut gen, 8);
    let snapshot = pop.clone();
    let ranked = algo.rank_population(pop);
    assert_eq!(ranked.len(), snapshot.len());
    for w in ranked.windows(2) {
        assert!(w[0].1 <= w[1].1);
    }
    for pair in &ranked {
        assert_eq!(pair.1, algo.ops.fitness_function(&pair.0));
    }
}

#[test]
fn ranking_an_empty_population_yields_nothing() {
    let algo = basket_algo();
    let ranked = algo.rank_population(Vec::new());
    assert!(ranked.is_empty());
}

#[test]
fn ranking_breaks_ties_by_original_order() {
    let algo = basket_algo();
    // both score |30 - 15| = 15; the all-zero genome scores 30
    let a: Vec<u64> = vec![1, 1, 0, 0, 0, 0, 0, 0, 0, 0];
    let b: Vec<u64> = vec![0, 0, 0, 0, 1, 0, 0, 0, 0, 0];
    let c: Vec<u64> = vec![0; 10];
    let ranked = algo.rank_population(vec![c.clone(), a.clone(), b.clone()]);
    assert_eq!(ranked[0], (a, 15));
    assert_eq!(ranked[1], (b, 15));
    assert_eq!(ranked[2], (c, 30));
}

#[test]
fn generation_step_produces_exactly_num_pop() {
    let algo = basket_algo();
    let mut init = RngGenerator64::new(11);
    let pop = algo.generate_initial_data(&mut init, 10);
    let ranked = algo.rank_population(pop);
    let mut rng = XorRng64::new(22);
    let mut gen = RngGenerator64::new(33);
    let next = algo.next_generation(&ranked, &mut rng, &mut gen, 10);
    // crossover 5 + mutation 3 + elitism 2 partition the population
    let next = next.expect("a partitioning configuration must succeed");
    assert_eq!(next.len(), 10);
}

#[test]
fn mismatched_counts_fail_the_generation_step() {
    let mut algo = basket_algo();
    algo.elitism_percent = 30;
    let mut init = RngGenerator64::new(11);
    let pop = algo.generate_initial_data(&mut init, 10);
    let ranked = algo.rank_population(pop);
    let mut rng = XorRng64::new(22);
    let mut gen = RngGenerator64::new(33);
    let next = algo.next_generation(&ranked, &mut rng, &mut gen, 10);
    // crossover 5 + mutation 3 + elitism 3 overshoot the population of 10
    assert_eq!(
        next,
        Err(EngineError::PopulationSizeMismatch { expected: 10, actual: 11 })
    );
}

#[test]
fn mismatched_counts_fail_the_run() {
    let mut algo = uniform_algo(1);
    algo.elitism_percent = 30;
    let r = algo.run_n_times(RngGenerator64::new(1), RngGenerator64::new(2), 10, 1);
    assert_eq!(
        r,
        Err(EngineError::PopulationSizeMismatch { expected: 10, actual: 11 })
    );
}

#[test]
fn empty_selection_pool_is_an_invalid_range() {
    let mut algo = uniform_algo(1);
    algo.crossover_selection_threshold_percent = 0;
    let r = algo.run_n_times(RngGenerator64::new(1), RngGenerator64::new(2), 10, 1);
    assert_eq!(r, Err(EngineError::InvalidRange));
}

#[test]
fn always_perfect_fitness_converges_on_generation_zero() {
    let algo = uniform_algo(0);
    // the single initial genome is the seed of the first derived sub-stream
    let mut probe = RngGenerator64::new(4040);
    let expected = probe.next().state;
    let r = algo.run_n_times(RngGenerator64::new(4040), RngGenerator64::new(5050), 1, 5);
    assert_eq!(r, Ok((expected, 0)));
}

#[test]
fn zero_run_budget_returns_best_of_initial_population() {
    let algo = uniform_algo(7);
    // equal fitnesses everywhere, so the stable ranking keeps the first
    // initial genome in front
    let mut probe = RngGenerator64::new(808);
    let expected = probe.next().state;
    let r = algo.run_n_times(RngGenerator64::new(808), RngGenerator64::new(909), 3, 0);
    let (genome, fitness) = r.expect("a run with budget 0 never breeds, so it cannot fail");
    assert!(fitness > 0);
    assert_eq!(fitness, 7);
    assert_eq!(genome, expected);
}

#[test]
fn reference_run_is_reproducible() {
    let algo1 = basket_algo();
    let algo2 = basket_algo();
    let r1 = algo1.run_n_times(RngGenerator64::new(1234), RngGenerator64::new(5678), 10, 10);
    let r2 = algo2.run_n_times(RngGenerator64::new(1234), RngGenerator64::new(5678), 10, 10);
    assert!(r1.is_ok());
    assert_eq!(r1, r2);
}

#[test]
fn converged_genome_re_evaluates_to_zero() {
    let algo = uniform_algo(0);
    let r = algo.run_n_times(RngGenerator64::new(6), RngGenerator64::new(7), 4, 3);
    let (genome, fitness) = r.expect("convergence on generation zero cannot fail");
    assert_eq!(fitness, 0);
    assert_eq!(algo.ops.fitness_function(&genome), 0);
}

#[test]
fn initial_population_is_sized_and_reproducible() {
    let algo = basket_algo();
    let mut gen1 = RngGenerator64::new(321);
    let mut gen2 = RngGenerator64::new(321);
    let pop1 = algo.generate_initial_data(&mut gen1, 7);
    let pop2 = algo.generate_initial_data(&mut gen2, 7);
    assert_eq!(pop1.len(), 7);
    assert_eq!(pop1, pop2);
    for g in &pop1 {
        assert_eq!(g.len(), 10);
        assert!(g.iter().all(|&bit| bit <= 1));
    }
}

#[test]
fn returned_fitness_matches_returned_genome() {
    let algo = basket_algo();
    let r = algo.run_n_times(RngGenerator64::new(97), RngGenerator64::new(98), 20, 200);
    let (genome, fitness) = r.expect("a partitioning configuration must succeed");
    assert_eq!(fitness, algo.ops.fitness_function(&genome));
}
