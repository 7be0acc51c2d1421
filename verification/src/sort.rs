//! Ordering of listed repositories.
//!
//! A drained listing is handed over in ascending size order, so small
//! repositories migrate first. The order is specified as a deterministic
//! insertion sort at the spec level, and the exec sort is proved to compute
//! exactly that sequence.

use vstd::prelude::*;
use vstd::seq_lib::*;

use crate::github::{GithubRepository, GithubRepositoryView};
use crate::text::clone_opt_string;

verus! {

/// The ordering the listings are handed over in: ascending by size.
pub open spec fn sorted_by_size(s: Seq<GithubRepositoryView>) -> bool {
    forall|i: int, j: int| 0 <= i <= j < s.len() ==> #[trigger] s[i].size <= #[trigger] s[j].size
}

/// `x` placed into `s` behind every element no larger than it, so that
/// insertion keeps equal sizes in arrival order.
pub open spec fn spec_sorted_insert(
    s: Seq<GithubRepositoryView>,
    x: GithubRepositoryView,
) -> Seq<GithubRepositoryView>
    decreases s.len(),
{
    if s.len() == 0 {
        seq![x]
    } else if s.last().size <= x.size {
        s.push(x)
    } else {
        spec_sorted_insert(s.drop_last(), x).push(s.last())
    }
}

/// The repositories in ascending size order: each element of `s`, taken
/// left to right, inserted into the sorted image of what came before it.
pub open spec fn spec_sort_repos(s: Seq<GithubRepositoryView>) -> Seq<GithubRepositoryView>
    decreases s.len(),
{
    if s.len() == 0 {
        Seq::empty()
    } else {
        spec_sorted_insert(spec_sort_repos(s.drop_last()), s.last())
    }
}

proof fn lemma_sorted_insert_ensures(s: Seq<GithubRepositoryView>, x: GithubRepositoryView)
    requires
        sorted_by_size(s),
    ensures
        sorted_by_size(spec_sorted_insert(s, x)),
        spec_sorted_insert(s, x).to_multiset() == s.to_multiset().insert(x),
        spec_sorted_insert(s, x).len() == s.len() + 1,
    decreases s.len(),
{
    broadcast use group_to_multiset_ensures;

    if s.len() == 0 {
        assert(seq![x] =~= Seq::<GithubRepositoryView>::empty().push(x));
        assert(seq![x].to_multiset() =~= s.to_multiset().insert(x));
    } else if s.last().size <= x.size {
        assert(s.push(x).to_multiset() =~= s.to_multiset().insert(x));
        assert forall|i: int, j: int|
            0 <= i <= j < s.push(x).len() implies #[trigger] s.push(x)[i].size
            <= #[trigger] s.push(x)[j].size by {
            if j < s.len() {
                assert(s[i].size <= s[j].size);
            } else if i < s.len() {
                assert(s[i].size <= s.last().size);
            }
        }
    } else {
        let t = s.drop_last();
        assert forall|i: int, j: int| 0 <= i <= j < t.len() implies #[trigger] t[i].size
            <= #[trigger] t[j].size by {
            assert(s[i].size <= s[j].size);
        }
        lemma_sorted_insert_ensures(t, x);
        let u = spec_sorted_insert(t, x);
        // multiset: s == t.push(s.last())
        assert(t.push(s.last()) =~= s);
        assert(u.push(s.last()).to_multiset() =~= u.to_multiset().insert(s.last()));
        assert(u.to_multiset().insert(s.last()) =~= t.to_multiset().insert(x).insert(s.last()));
        assert(t.to_multiset().insert(s.last()).insert(x) =~= s.to_multiset().insert(x));
        assert(u.push(s.last()).to_multiset() =~= s.to_multiset().insert(x));
        // sortedness: every element of u is at most x or came from t,
        // and everything in t is at most s.last(); x < s.last() as well.
        assert forall|i: int, j: int|
            0 <= i <= j < u.push(s.last()).len() implies #[trigger] u.push(s.last())[i].size
            <= #[trigger] u.push(s.last())[j].size by {
            if j < u.len() {
                assert(u[i].size <= u[j].size);
            } else if i < u.len() {
                // u[i] is either x or an element of t; both are <= s.last()
                assert(u.to_multiset().count(u[i]) > 0);
                assert(u.to_multiset().contains(u[i]));
                assert(t.to_multiset().insert(x).contains(u[i]));
                if u[i] == x {
                    assert(u[i].size <= s.last().size);
                } else {
                    assert(t.to_multiset().contains(u[i]));
                    assert(t.contains(u[i]));
                    let k = choose|k: int| 0 <= k < t.len() && t[k] == u[i];
                    assert(s[k].size <= s.last().size);
                }
            }
        }
    }
}

/// The law the batch flows rely on: sorting a listing keeps exactly its
/// repositories, as a multiset, and leaves them in ascending size order.
pub proof fn lemma_sort_repos_ensures(s: Seq<GithubRepositoryView>)
    ensures
        sorted_by_size(spec_sort_repos(s)),
        spec_sort_repos(s).to_multiset() == s.to_multiset(),
        spec_sort_repos(s).len() == s.len(),
    decreases s.len(),
{
    broadcast use group_to_multiset_ensures;

    if s.len() == 0 {
        assert(spec_sort_repos(s).to_multiset() =~= s.to_multiset());
    } else {
        let t = s.drop_last();
        lemma_sort_repos_ensures(t);
        lemma_sorted_insert_ensures(spec_sort_repos(t), s.last());
        assert(t.push(s.last()) =~= s);
        assert(spec_sort_repos(t).to_multiset().insert(s.last()) =~= s.to_multiset());
    }
}

/// Inserting at the position the exec scan finds is the same as the
/// recursive insertion: everything from the position on is larger than
/// `x`, and the element just before it, if any, is not.
proof fn lemma_sorted_insert_at(s: Seq<GithubRepositoryView>, x: GithubRepositoryView, idx: int)
    requires
        0 <= idx <= s.len(),
        forall|k: int| idx <= k < s.len() ==> s[k].size > x.size,
        idx > 0 ==> s[idx - 1].size <= x.size,
    ensures
        spec_sorted_insert(s, x) == s.insert(idx, x),
    decreases s.len(),
{
    if s.len() == 0 {
        assert(spec_sorted_insert(s, x) =~= s.insert(0, x));
    } else if idx == s.len() {
        assert(s.last().size <= x.size);
        assert(s.push(x) =~= s.insert(idx, x));
    } else {
        assert(s.last().size > x.size);
        let t = s.drop_last();
        assert forall|k: int| idx <= k < t.len() implies t[k].size > x.size by {
            assert(t[k] == s[k]);
        }
        lemma_sorted_insert_at(t, x, idx);
        assert(t.insert(idx, x).push(s.last()) =~= s.insert(idx, x));
    }
}

/// A copy of a repository snapshot, preserving the value exactly.
pub fn clone_repository(r: &GithubRepository) -> (res: GithubRepository)
    ensures
        res == *r,
{
    GithubRepository {
        name: r.name.clone(),
        clone_url: r.clone_url.clone(),
        html_url: r.html_url.clone(),
        description: clone_opt_string(&r.description),
        size: r.size,
    }
}

/// Place one repository into an accumulator already built by
/// [`spec_sorted_insert`], scanning from the back for its position.
fn insert_by_size(acc: &mut Vec<GithubRepository>, x: GithubRepository)
    ensures
        final(acc).deep_view() == spec_sorted_insert(old(acc).deep_view(), x@),
{
    let mut idx: usize = acc.len();
    while idx > 0 && acc[idx - 1].size > x.size
        invariant
            0 <= idx <= acc.len(),
            forall|k: int| idx <= k < acc.len() ==> acc.deep_view()[k].size > x@.size,
        decreases idx,
    {
        idx -= 1;
    }
    proof {
        lemma_sorted_insert_at(acc.deep_view(), x@, idx as int);
    }
    acc.insert(idx, x);
    proof {
        assert(acc.deep_view() =~= old(acc).deep_view().insert(idx as int, x@));
    }
}

/// The listing in ascending size order: exactly [`spec_sort_repos`] of the
/// input.
pub fn sort_repositories_by_size(repos: &Vec<GithubRepository>) -> (r: Vec<GithubRepository>)
    ensures
        r.deep_view() == spec_sort_repos(repos.deep_view()),
{
    let mut acc: Vec<GithubRepository> = Vec::new();
    let mut i: usize = 0;
    while i < repos.len()
        invariant
            0 <= i <= repos.len(),
            acc.deep_view() == spec_sort_repos(repos.deep_view().take(i as int)),
        decreases repos.len() - i,
    {
        let x = clone_repository(&repos[i]);
        insert_by_size(&mut acc, x);
        proof {
            let p = repos.deep_view().take(i + 1);
            assert(p.drop_last() =~= repos.deep_view().take(i as int));
            assert(p.last() == repos.deep_view()[i as int]);
        }
        i += 1;
    }
    proof {
        assert(repos.deep_view().take(repos.len() as int) =~= repos.deep_view());
    }
    acc
}

} // verus!
