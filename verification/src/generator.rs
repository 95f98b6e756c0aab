//! Target generation: the full cartesian product of hosts and path suffixes,
//! in host-major, path-minor order. Pure, no I/O, no normalization.

use vstd::prelude::*;
use vstd::arithmetic::div_mod::lemma_fundamental_div_mod_converse;
use crate::task::Task;
use crate::task::TaskView;

verus! {

/// The full probe task set for the given hosts and path suffixes: task
/// `i * paths.len() + j` pairs host `i` with path `j` (host-major,
/// path-minor order). Empty hosts or empty paths yield the empty sequence.
pub open spec fn product(hosts: Seq<Seq<char>>, paths: Seq<Seq<char>>) -> Seq<TaskView> {
    Seq::new(
        hosts.len() * paths.len(),
        |k: int| TaskView { host: hosts[k / paths.len() as int], path: paths[k % paths.len() as int] },
    )
}

/// Position `i * paths.len() + j` of the product is exactly the pair of
/// host `i` and path `j`: the product covers the full cartesian product.
pub proof fn lemma_product_covers(hosts: Seq<Seq<char>>, paths: Seq<Seq<char>>, i: int, j: int)
    requires
        0 <= i < hosts.len(),
        0 <= j < paths.len(),
    ensures
        0 <= i * paths.len() + j < product(hosts, paths).len(),
        product(hosts, paths)[i * paths.len() + j] == (TaskView { host: hosts[i], path: paths[j] }),
{
    let p = paths.len() as int;
    assert(i * p + j < hosts.len() * p) by (nonlinear_arith)
        requires 0 <= i < hosts.len() && 0 <= j < p;
    assert(0 <= i * p + j) by (nonlinear_arith)
        requires 0 <= i && 0 <= j && 0 < p;
    lemma_fundamental_div_mod_converse(i * p + j, p, i, j);
}

/// Distinct (host index, path index) pairs occupy distinct positions of the
/// product: no task is generated twice for the same index pair.
pub proof fn lemma_product_index_injective(paths_len: int, i1: int, j1: int, i2: int, j2: int)
    requires
        0 <= i1,
        0 <= i2,
        0 <= j1 < paths_len,
        0 <= j2 < paths_len,
        i1 * paths_len + j1 == i2 * paths_len + j2,
    ensures
        i1 == i2,
        j1 == j2,
{
    lemma_fundamental_div_mod_converse(i1 * paths_len + j1, paths_len, i1, j1);
    lemma_fundamental_div_mod_converse(i2 * paths_len + j2, paths_len, i2, j2);
}

/// Generate the full probe task set: the cartesian product of `hosts` and
/// `paths` in host-major, path-minor order.
pub fn generate_tasks(hosts: &Vec<String>, paths: &Vec<String>) -> (tasks: Vec<Task>)
    ensures
        tasks.deep_view() == product(hosts.deep_view(), paths.deep_view()),
        tasks@.len() == hosts@.len() * paths@.len(),
{
    let ghost hs = hosts.deep_view();
    let ghost ps = paths.deep_view();
    let ghost p = paths@.len() as int;
    let mut tasks: Vec<Task> = Vec::new();
    let mut i: usize = 0;
    while i < hosts.len()
        invariant
            hs == hosts.deep_view(),
            ps == paths.deep_view(),
            p == paths@.len() as int,
            i <= hosts@.len(),
            tasks@.len() == i * p,
            forall|k: int| 0 <= k < tasks@.len() ==> #[trigger] tasks@[k]@ == product(hs, ps)[k],
        decreases hosts@.len() - i,
    {
        let mut j: usize = 0;
        while j < paths.len()
            invariant
                hs == hosts.deep_view(),
                ps == paths.deep_view(),
                p == paths@.len() as int,
                i < hosts@.len(),
                j <= paths@.len(),
                tasks@.len() == i * p + j,
                forall|k: int| 0 <= k < tasks@.len() ==> #[trigger] tasks@[k]@ == product(hs, ps)[k],
            decreases paths@.len() - j,
        {
            let task = Task::new(hosts[i].clone(), paths[j].clone());
            proof {
                lemma_product_covers(hs, ps, i as int, j as int);
            }
            tasks.push(task);
            j = j + 1;
        }
        proof {
            assert(i * p + p == (i + 1) * p) by (nonlinear_arith);
        }
        i = i + 1;
    }
    proof {
        assert(tasks.deep_view() =~= product(hs, ps));
    }
    tasks
}

} // verus!
