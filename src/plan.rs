use vstd::arithmetic::div_mod::{lemma_fundamental_div_mod, lemma_fundamental_div_mod_converse};
use vstd::prelude::*;

use crate::naming::{output_path, output_path_spec, stem, stem_of, StemError};

verus! {

/// One unit of work: paste foreground `fg` onto background `bg` (indices
/// into the two enumerations) and write the result to `output`.
#[derive(Debug, PartialEq, Eq)]
pub struct Job {
    pub bg: usize,
    pub fg: usize,
    pub output: String,
}

impl View for Job {
    type V = (nat, nat, Seq<char>);

    open spec fn view(&self) -> (nat, nat, Seq<char>) {
        (self.bg as nat, self.fg as nat, self.output@)
    }
}

/// Every path of `paths` has a stem.
pub open spec fn all_stems(paths: Seq<String>) -> bool {
    forall|i: int| 0 <= i < paths.len() ==> (#[trigger] stem_of(paths[i]@)).is_some()
}

/// Whether a plan can be made: every pair that exists has two stems. With no
/// background or no foreground there is no pair, and nothing to name.
pub open spec fn plan_ok(bgs: Seq<String>, fgs: Seq<String>) -> bool {
    bgs.len() == 0 || fgs.len() == 0 || (all_stems(bgs) && all_stems(fgs))
}

/// The job at position `k` of the plan, in the order background-major: the
/// backgrounds drive the outer iteration, the foregrounds the inner one.
pub open spec fn job_spec(
    dir: Seq<char>,
    bgs: Seq<String>,
    fgs: Seq<String>,
    ext: Seq<char>,
    k: int,
) -> (nat, nat, Seq<char>) {
    let i = k / fgs.len() as int;
    let j = k % fgs.len() as int;
    (
        i as nat,
        j as nat,
        output_path_spec(dir, stem_of(bgs[i]@).unwrap(), stem_of(fgs[j]@).unwrap(), ext),
    )
}

/// `jobs` is the plan for the run: one job for each pair of the cross product.
pub open spec fn is_plan(
    dir: Seq<char>,
    bgs: Seq<String>,
    fgs: Seq<String>,
    ext: Seq<char>,
    jobs: Seq<Job>,
) -> bool {
    &&& jobs.len() == bgs.len() * fgs.len()
    &&& forall|k: int| 0 <= k < jobs.len() ==> #[trigger] jobs[k]@ == job_spec(dir, bgs, fgs, ext, k)
}

proof fn lemma_index_split(i: int, j: int, n: int)
    requires
        0 <= i,
        0 <= j < n,
    ensures
        (i * n + j) / n == i,
        (i * n + j) % n == j,
{
    lemma_fundamental_div_mod_converse(i * n + j, n, i, j);
}

/// Where the pair of background `i` and foreground `j` stands in a plan with
/// `n` foregrounds.
pub open spec fn pair_position(n: int, i: int, j: int) -> int {
    i * n + j
}

/// A plan holds exactly one job for each (background, foreground) pair: there
/// are `m * n` jobs, the pair `(i, j)` is the job at `pair_position(n, i, j)`, every job
/// names a pair of the two enumerations, and no two jobs name the same pair.
pub proof fn lemma_one_job_per_pair(
    dir: Seq<char>,
    bgs: Seq<String>,
    fgs: Seq<String>,
    ext: Seq<char>,
    jobs: Seq<Job>,
)
    requires
        is_plan(dir, bgs, fgs, ext, jobs),
    ensures
        jobs.len() == bgs.len() * fgs.len(),
        forall|i: int, j: int|
            0 <= i < bgs.len() && 0 <= j < fgs.len() ==> 0 <= #[trigger] pair_position(
                fgs.len() as int,
                i,
                j,
            ) < jobs.len() && jobs[pair_position(fgs.len() as int, i, j)].bg == i
                && jobs[pair_position(fgs.len() as int, i, j)].fg == j,
        forall|k: int|
            0 <= k < jobs.len() ==> (#[trigger] jobs[k]).bg < bgs.len() && jobs[k].fg < fgs.len(),
        forall|k1: int, k2: int|
            0 <= k1 < jobs.len() && 0 <= k2 < jobs.len() && (#[trigger] jobs[k1]).bg
                == (#[trigger] jobs[k2]).bg && jobs[k1].fg == jobs[k2].fg ==> k1 == k2,
{
    let m = bgs.len() as int;
    let n = fgs.len() as int;
    assert forall|i: int, j: int| 0 <= i < m && 0 <= j < n implies 0 <= #[trigger] pair_position(
        n,
        i,
        j,
    ) < jobs.len() && jobs[pair_position(n, i, j)].bg == i && jobs[pair_position(n, i, j)].fg
        == j by {
        assert(0 <= i * n + j < m * n) by (nonlinear_arith)
            requires
                0 <= i < m,
                0 <= j < n,
        ;
        lemma_index_split(i, j, n);
        assert(jobs[i * n + j]@ == job_spec(dir, bgs, fgs, ext, i * n + j));
    }
    assert forall|k: int| 0 <= k < jobs.len() implies (#[trigger] jobs[k]).bg < m && jobs[k].fg
        < n by {
        assert(jobs[k]@ == job_spec(dir, bgs, fgs, ext, k));
        lemma_fundamental_div_mod(k, n);
        assert(k / n < m) by (nonlinear_arith)
            requires
                0 <= k < m * n,
                n > 0,
                k == n * (k / n) + k % n,
                0 <= k % n,
        ;
    }
    assert forall|k1: int, k2: int|
        0 <= k1 < jobs.len() && 0 <= k2 < jobs.len() && (#[trigger] jobs[k1]).bg
            == (#[trigger] jobs[k2]).bg && jobs[k1].fg == jobs[k2].fg implies k1 == k2 by {
        assert(jobs[k1]@ == job_spec(dir, bgs, fgs, ext, k1));
        assert(jobs[k2]@ == job_spec(dir, bgs, fgs, ext, k2));
        lemma_fundamental_div_mod(k1, n);
        lemma_fundamental_div_mod(k2, n);
    }
}

/// The plan is a function of the run's inputs: two plans made from the same
/// directories, paths and extension hold the same jobs in the same order, so
/// a repeated run writes the same pairs to the same files.
pub proof fn lemma_plan_repeatable(
    dir: Seq<char>,
    bgs: Seq<String>,
    fgs: Seq<String>,
    ext: Seq<char>,
    first: Seq<Job>,
    second: Seq<Job>,
)
    requires
        is_plan(dir, bgs, fgs, ext, first),
        is_plan(dir, bgs, fgs, ext, second),
    ensures
        first.len() == second.len(),
        forall|k: int| 0 <= k < first.len() ==> (#[trigger] first[k])@ == second[k]@,
{
    assert forall|k: int| 0 <= k < first.len() implies (#[trigger] first[k])@ == second[k]@ by {
        assert(first[k]@ == job_spec(dir, bgs, fgs, ext, k));
        assert(second[k]@ == job_spec(dir, bgs, fgs, ext, k));
    }
}

/// With no foreground there is nothing to do, and that is no failure: the
/// plan can always be made, and it is empty.
pub proof fn lemma_no_foregrounds(
    dir: Seq<char>,
    bgs: Seq<String>,
    ext: Seq<char>,
    jobs: Seq<Job>,
)
    ensures
        plan_ok(bgs, Seq::<String>::empty()),
        is_plan(dir, bgs, Seq::<String>::empty(), ext, jobs) ==> jobs.len() == 0,
{
    assert(bgs.len() * 0 == 0) by (nonlinear_arith);
}

/// The plan of a run: for each background path, in order, and for each
/// foreground path, in order, the job that writes
/// `<dir>/<bg_stem>-<fg_stem>.<ext>`. Fails, naming the path, where a path
/// of some pair has no stem.
pub fn plan_jobs(dir: &str, bg_paths: &Vec<String>, fg_paths: &Vec<String>, ext: &str) -> (r:
    Result<Vec<Job>, StemError>)
    requires
        bg_paths.len() * fg_paths.len() <= usize::MAX,
    ensures
        r.is_ok() == plan_ok(bg_paths@, fg_paths@),
        r.is_ok() ==> is_plan(dir@, bg_paths@, fg_paths@, ext@, r.unwrap()@),
        r.is_err() ==> (exists|i: int|
            0 <= i < bg_paths.len() && stem_of(bg_paths@[i]@).is_none()
                && r.unwrap_err().path@ == bg_paths@[i]@) || (exists|j: int|
            0 <= j < fg_paths.len() && stem_of(fg_paths@[j]@).is_none()
                && r.unwrap_err().path@ == fg_paths@[j]@),
{
    let m = bg_paths.len();
    let n = fg_paths.len();
    let mut jobs: Vec<Job> = Vec::new();
    if m == 0 || n == 0 {
        proof {
            assert(m * n == 0) by (nonlinear_arith)
                requires
                    m == 0 || n == 0,
            ;
        }
        return Ok(jobs);
    }
    let mut i: usize = 0;
    while i < m
        invariant
            m == bg_paths.len(),
            n == fg_paths.len(),
            n > 0,
            m * n <= usize::MAX,
            0 <= i <= m,
            jobs.len() == i * n,
            forall|i2: int| 0 <= i2 < i ==> (#[trigger] stem_of(bg_paths@[i2]@)).is_some(),
            i > 0 ==> all_stems(fg_paths@),
            forall|k: int|
                0 <= k < jobs.len() ==> #[trigger] jobs@[k]@ == job_spec(
                    dir@,
                    bg_paths@,
                    fg_paths@,
                    ext@,
                    k,
                ),
        decreases m - i,
    {
        let bg_stem = match stem(bg_paths[i].as_str()) {
            Ok(s) => s,
            Err(err) => {
                return Err(err);
            },
        };
        let mut j: usize = 0;
        while j < n
            invariant
                m == bg_paths.len(),
                n == fg_paths.len(),
                n > 0,
                m * n <= usize::MAX,
                0 <= i < m,
                0 <= j <= n,
                jobs.len() == i * n + j,
                bg_stem@ == stem_of(bg_paths@[i as int]@).unwrap(),
                stem_of(bg_paths@[i as int]@).is_some(),
                forall|i2: int| 0 <= i2 < i ==> (#[trigger] stem_of(bg_paths@[i2]@)).is_some(),
                forall|j2: int|
                    0 <= j2 < j || (i > 0 && 0 <= j2 < n) ==> (#[trigger] stem_of(
                        fg_paths@[j2]@,
                    )).is_some(),
                forall|k: int|
                    0 <= k < jobs.len() ==> #[trigger] jobs@[k]@ == job_spec(
                        dir@,
                        bg_paths@,
                        fg_paths@,
                        ext@,
                        k,
                    ),
            decreases n - j,
        {
            let fg_stem = match stem(fg_paths[j].as_str()) {
                Ok(s) => s,
                Err(err) => {
                    return Err(err);
                },
            };
            proof {
                assert(i * n + j < m * n) by (nonlinear_arith)
                    requires
                        i < m,
                        j < n,
                ;
                lemma_index_split(i as int, j as int, n as int);
            }
            let out = output_path(dir, bg_stem.as_str(), fg_stem.as_str(), ext);
            let ghost before = jobs@;
            jobs.push(Job { bg: i, fg: j, output: out });
            proof {
                assert forall|k: int| 0 <= k < jobs.len() implies #[trigger] jobs@[k]@ == job_spec(
                    dir@,
                    bg_paths@,
                    fg_paths@,
                    ext@,
                    k,
                ) by {
                    if k < before.len() {
                        assert(jobs@[k] == before[k]);
                    } else {
                        assert(k == i * n + j);
                        assert(k / n as int == i);
                        assert(k % n as int == j);
                        assert(jobs@[k]@ == (i as nat, j as nat, out@));
                    }
                }
            }
            j += 1;
        }
        proof {
            assert((i + 1) * n == i * n + n) by (nonlinear_arith);
        }
        i += 1;
    }
    proof {
        assert(all_stems(bg_paths@));
    }
    Ok(jobs)
}

} // verus!
