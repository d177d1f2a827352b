//! The reference problem instantiation: a 10-element binary selection vector
//! scored against a fixed target sum over a fixed weight vector. Each genome
//! entry picks (1) or skips (0) the basket item of that position, and the
//! fitness is the absolute distance between the selected weight sum and the
//! target — 0 means the selection hits the target exactly.

use vstd::prelude::*;

use crate::genetic_algo::GenomeOps;
use crate::rnglib::{XorRng64, xor_step, xor_nth_state, xor_nth_value};

verus! {

/// The weight of basket item `i`.
pub open spec fn weight(i: int) -> u64 {
    if i == 0 {
        6
    } else if i == 1 {
        9
    } else if i == 2 {
        10
    } else if i == 3 {
        3
    } else if i == 4 {
        15
    } else if i == 5 {
        17
    } else if i == 6 {
        40
    } else if i == 7 {
        20
    } else if i == 8 {
        50
    } else {
        30
    }
}

/// The weight sum of the items selected by the first `n` genome entries.
pub open spec fn weighted_sum(g: Seq<u64>, n: int) -> int
    decreases n,
{
    if n <= 0 {
        0
    } else {
        weighted_sum(g, n - 1) + weight(n - 1) * g[n - 1]
    }
}

/// The basket selection problem with its fixed weights and target sum 30.
pub struct BasketProblem {}

impl BasketProblem {
    /// The weight of basket item `i`, as `weight` gives it.
    pub fn weight_at(i: usize) -> (r: u64)
        requires
            i < 10,
        ensures
            r == weight(i as int),
    {
        if i == 0 {
            6
        } else if i == 1 {
            9
        } else if i == 2 {
            10
        } else if i == 3 {
            3
        } else if i == 4 {
            15
        } else if i == 5 {
            17
        } else if i == 6 {
            40
        } else if i == 7 {
            20
        } else if i == 8 {
            50
        } else {
            30
        }
    }
}

impl GenomeOps for BasketProblem {
    type Genome = Vec<u64>;

    /// Ten entries, each 0 or 1.
    open spec fn genome_wf(&self, g: Vec<u64>) -> bool {
        &&& g@.len() == 10
        &&& forall|k: int| 0 <= k < g@.len() ==> g@[k] <= 1
    }

    /// Entry `k` selects its item exactly when the `k`-th bounded draw of
    /// the sub-stream (bound 10) is at least 5.
    open spec fn gen_post(&self, rng: XorRng64, r: Vec<u64>) -> bool {
        &&& r@.len() == 10
        &&& forall|k: int|
            0 <= k < 10 ==> r@[k] == (if xor_nth_value(rng.state, k as nat, 10) >= 5 {
                1u64
            } else {
                0u64
            })
    }

    /// The absolute distance between the selected weight sum and the target.
    open spec fn fitness_spec(&self, g: Vec<u64>) -> u64 {
        let s = weighted_sum(g@, 10);
        if s >= 30 {
            (s - 30) as u64
        } else {
            (30 - s) as u64
        }
    }

    /// The child takes its first five entries from the first parent and its
    /// last five from the second.
    open spec fn crossover_post(&self, a: Vec<u64>, b: Vec<u64>, r: Vec<u64>) -> bool {
        &&& r@.len() == 10
        &&& forall|k: int| 0 <= k < 5 ==> r@[k] == a@[k]
        &&& forall|k: int| 5 <= k < 10 ==> r@[k] == b@[k]
    }

    /// One entry, chosen by the sub-stream's first bounded draw (bound 10),
    /// is flipped; the rest are kept.
    open spec fn mutation_post(&self, rng: XorRng64, g: Vec<u64>, r: Vec<u64>) -> bool {
        r@ == g@.update(
            xor_nth_value(rng.state, 0, 10) as int,
            if g@[xor_nth_value(rng.state, 0, 10) as int] == 0 {
                1u64
            } else {
                0u64
            },
        )
    }

    /// An entry-for-entry copy.
    open spec fn clone_post(&self, g: Vec<u64>, r: Vec<u64>) -> bool {
        r@ == g@
    }

    fn data_generator(&self, rng: XorRng64) -> (r: Vec<u64>) {
        let mut rng = rng;
        let ghost s0 = rng.state;
        let mut new_genome: Vec<u64> = Vec::new();
        let mut i: usize = 0;
        while i < 10
            invariant
                i <= 10,
                rng.state == xor_nth_state(s0, i as nat),
                new_genome@.len() == i as int,
                forall|k: int|
                    0 <= k < i as int ==> #[trigger] new_genome@[k] == (if xor_nth_value(
                        s0,
                        k as nat,
                        10,
                    ) >= 5 {
                        1u64
                    } else {
                        0u64
                    }),
            decreases 10 - i,
        {
            let randint = rng.next(10);
            proof {
                assert(xor_nth_state(s0, (i + 1) as nat) == xor_step(xor_nth_state(s0, i as nat)));
            }
            if randint >= 5 {
                new_genome.push(1);
            } else {
                new_genome.push(0);
            }
            i = i + 1;
        }
        new_genome
    }

    fn fitness_function(&self, g: &Vec<u64>) -> (r: u64) {
        let mut genome_value: u64 = 0;
        let mut i: usize = 0;
        while i < 10
            invariant
                i <= 10,
                g@.len() == 10,
                forall|k: int| 0 <= k < g@.len() ==> g@[k] <= 1,
                genome_value == weighted_sum(g@, i as int),
                genome_value <= 50 * i as int,
            decreases 10 - i,
        {
            let wi = BasketProblem::weight_at(i);
            let bit = g[i];
            proof {
                assert(weight(i as int) <= 50);
                if bit == 0 {
                    assert(wi * bit == 0);
                } else {
                    assert(bit == 1);
                    assert(wi * bit == wi);
                }
            }
            genome_value = genome_value + wi * bit;
            i = i + 1;
        }
        if genome_value >= 30 {
            genome_value - 30
        } else {
            30 - genome_value
        }
    }

    fn crossover_function(&self, g1: &Vec<u64>, g2: &Vec<u64>) -> (r: Vec<u64>) {
        let mut new_genome: Vec<u64> = Vec::new();
        let mut i: usize = 0;
        while i < 5
            invariant
                i <= 5,
                g1@.len() == 10,
                forall|k: int| 0 <= k < g1@.len() ==> g1@[k] <= 1,
                new_genome@.len() == i as int,
                forall|k: int| 0 <= k < i as int ==> #[trigger] new_genome@[k] == g1@[k],
            decreases 5 - i,
        {
            new_genome.push(g1[i]);
            i = i + 1;
        }
        while i < 10
            invariant
                5 <= i <= 10,
                g1@.len() == 10,
                g2@.len() == 10,
                forall|k: int| 0 <= k < g1@.len() ==> g1@[k] <= 1,
                forall|k: int| 0 <= k < g2@.len() ==> g2@[k] <= 1,
                new_genome@.len() == i as int,
                forall|k: int| 0 <= k < 5 ==> #[trigger] new_genome@[k] == g1@[k],
                forall|k: int| 5 <= k < i as int ==> #[trigger] new_genome@[k] == g2@[k],
            decreases 10 - i,
        {
            new_genome.push(g2[i]);
            i = i + 1;
        }
        new_genome
    }

    fn mutation_function(&self, rng: XorRng64, old_genome: &Vec<u64>) -> (r: Vec<u64>) {
        let mut rng = rng;
        let ghost s0 = rng.state;
        let i = rng.next(10);
        proof {
            assert(xor_nth_state(s0, 1) == xor_step(xor_nth_state(s0, 0)));
        }
        let flipped: u64 = if old_genome[i as usize] == 0 {
            1
        } else {
            0
        };
        let mut new_genome: Vec<u64> = Vec::new();
        let mut k: usize = 0;
        while k < 10
            invariant
                k <= 10,
                i < 10,
                old_genome@.len() == 10,
                forall|t: int| 0 <= t < old_genome@.len() ==> old_genome@[t] <= 1,
                flipped <= 1,
                flipped == (if old_genome@[i as int] == 0 {
                    1u64
                } else {
                    0u64
                }),
                new_genome@.len() == k as int,
                forall|t: int|
                    0 <= t < k as int && t != i as int ==> #[trigger] new_genome@[t]
                        == old_genome@[t],
                i < k ==> new_genome@[i as int] == flipped,
            decreases 10 - k,
        {
            if k == i as usize {
                new_genome.push(flipped);
            } else {
                new_genome.push(old_genome[k]);
            }
            k = k + 1;
        }
        proof {
            assert(new_genome@ =~= old_genome@.update(i as int, flipped));
        }
        new_genome
    }

    fn clone_genome(&self, g: &Vec<u64>) -> (r: Vec<u64>) {
        let mut new_genome: Vec<u64> = Vec::new();
        let mut k: usize = 0;
        while k < g.len()
            invariant
                k <= g@.len(),
                new_genome@.len() == k as int,
                forall|t: int| 0 <= t < k as int ==> #[trigger] new_genome@[t] == g@[t],
            decreases g@.len() - k,
        {
            new_genome.push(g[k]);
            k = k + 1;
        }
        proof {
            assert(new_genome@ =~= g@);
        }
        new_genome
    }
}

} // verus!
