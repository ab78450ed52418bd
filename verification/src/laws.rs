//! What holds of every traversal, proved from the definitions in the other
//! modules.

use vstd::prelude::*;
use vstd::seq_lib::{commutative_foldl, lemma_fold_left_permutation};
use crate::counters::{lemma_with_directory, lemma_with_file, Counters, Tally};
use crate::failure::Failure;
use crate::report::summary_text;
use crate::tree::{forest_listable, forest_tally, Node};

verus! {

impl Node {
    /// `self` and `other` are the same tree up to the order in which each
    /// directory lists its entries.
    pub open spec fn same_up_to_order(self, other: Node) -> bool
        decreases self,
    {
        match self {
            Node::File { size } => other == self,
            Node::Unlistable => other is Unlistable,
            Node::Directory { entries } => {
                &&& other is Directory
                &&& exists|shuffled: Seq<Node>|
                    {
                        &&& #[trigger] shuffled.to_multiset() == other->entries@.to_multiset()
                        &&& shuffled.len() == entries@.len()
                        &&& forall|i: int|
                            0 <= i < entries@.len() ==> (#[trigger] entries@[i]).same_up_to_order(
                                shuffled[i],
                            )
                    }
            },
        }
    }
}

/// Adds the totals of one more tree.
spec fn add_tally(sum: Tally, node: Node) -> Tally {
    sum.plus(node.tally())
}

/// Keeps track of whether every tree so far can be listed.
spec fn and_listable(all: bool, node: Node) -> bool {
    all && node.listable()
}

proof fn lemma_forest_as_fold(nodes: Seq<Node>)
    ensures
        forest_tally(nodes) == nodes.fold_left(Tally::zero(), |sum: Tally, node: Node| add_tally(sum, node)),
        forest_listable(nodes) == nodes.fold_left(true, |all: bool, node: Node| and_listable(all, node)),
    decreases nodes.len(),
{
    if nodes.len() > 0 {
        lemma_forest_as_fold(nodes.drop_last());
    }
}

/// The totals of a forest, and whether all of it can be listed, do not depend
/// on the order of its trees.
pub proof fn forest_ignores_order(a: Seq<Node>, b: Seq<Node>)
    requires
        a.to_multiset() == b.to_multiset(),
    ensures
        forest_tally(a) == forest_tally(b),
        forest_listable(a) == forest_listable(b),
{
    let sum_up = |sum: Tally, node: Node| add_tally(sum, node);
    let all_of = |all: bool, node: Node| and_listable(all, node);
    assert(commutative_foldl(sum_up));
    assert(commutative_foldl(all_of));
    lemma_forest_as_fold(a);
    lemma_forest_as_fold(b);
    lemma_fold_left_permutation(a, b, sum_up, Tally::zero());
    lemma_fold_left_permutation(a, b, all_of, true);
}

proof fn lemma_forest_pointwise(a: Seq<Node>, b: Seq<Node>)
    requires
        a.len() == b.len(),
        forall|i: int| 0 <= i < a.len() ==> (#[trigger] a[i]).tally() == b[i].tally(),
        forall|i: int| 0 <= i < a.len() ==> (#[trigger] a[i]).listable() == b[i].listable(),
    ensures
        forest_tally(a) == forest_tally(b),
        forest_listable(a) == forest_listable(b),
    decreases a.len(),
{
    if a.len() > 0 {
        lemma_forest_pointwise(a.drop_last(), b.drop_last());
    }
}

/// Two trees that differ only in the order of their listings have the same
/// totals, and either both can be listed throughout or neither.
pub proof fn tally_ignores_order(a: Node, b: Node)
    requires
        a.same_up_to_order(b),
    ensures
        a.tally() == b.tally(),
        a.listable() == b.listable(),
        (a is File) == (b is File),
    decreases a,
{
    match a {
        Node::Directory { entries } => {
            let shuffled = choose|shuffled: Seq<Node>|
                {
                    &&& #[trigger] shuffled.to_multiset() == b->entries@.to_multiset()
                    &&& shuffled.len() == entries@.len()
                    &&& forall|i: int|
                        0 <= i < entries@.len() ==> (#[trigger] entries@[i]).same_up_to_order(
                            shuffled[i],
                        )
                };
            assert forall|i: int| 0 <= i < entries@.len() implies (#[trigger] entries@[i]).tally()
                == shuffled[i].tally() && entries@[i].listable() == shuffled[i].listable() by {
                tally_ignores_order(entries@[i], shuffled[i]);
            }
            lemma_forest_pointwise(entries@, shuffled);
            forest_ignores_order(shuffled, b->entries@);
        },
        _ => {},
    }
}

/// Running twice on a tree that has not changed gives the same result, in
/// whatever order the host lists each directory the second time.
pub proof fn outcome_ignores_order(a: Node, b: Node)
    requires
        a.same_up_to_order(b),
    ensures
        a.outcome() == b.outcome(),
{
    tally_ignores_order(a, b);
}

/// Every tree is the same as itself up to order.
pub proof fn same_up_to_order_reflexive(a: Node)
    ensures
        a.same_up_to_order(a),
    decreases a,
{
    match a {
        Node::Directory { entries } => {
            assert forall|i: int| 0 <= i < entries@.len() implies (#[trigger] entries@[i]).same_up_to_order(
                entries@[i],
            ) by {
                same_up_to_order_reflexive(entries@[i]);
            }
            assert(entries@.to_multiset() == a->entries@.to_multiset());
        },
        _ => {},
    }
}

/// One visit of a traversal: a directory that was entered, or a file that
/// was met, with its size where that could be read.
pub enum Visit {
    Directory,
    File { size: Option<u64> },
}

/// The exact totals of a sequence of visits.
pub open spec fn visits_tally(visits: Seq<Visit>) -> Tally
    decreases visits.len(),
{
    if visits.len() == 0 {
        Tally::zero()
    } else {
        visits_tally(visits.drop_last()).plus(
            match visits.last() {
                Visit::Directory => Tally::directory(),
                Visit::File { size } => Tally::file(size),
            },
        )
    }
}

/// The counters after a sequence of visits, each counted as it happens.
pub open spec fn visits_counters(visits: Seq<Visit>) -> Counters
    decreases visits.len(),
{
    if visits.len() == 0 {
        Counters::of(Tally::zero())
    } else {
        match visits.last() {
            Visit::Directory => visits_counters(visits.drop_last()).with_directory(),
            Visit::File { size } => visits_counters(visits.drop_last()).with_file(size),
        }
    }
}

/// At every moment of a traversal the counters hold the totals of what was
/// visited so far: files and directories together are as many as the
/// visits, and the size is the sum of the sizes that could be read.
pub proof fn counters_follow_visits(visits: Seq<Visit>)
    ensures
        visits_counters(visits) == Counters::of(visits_tally(visits)),
        visits_tally(visits).files + visits_tally(visits).dirs == visits.len(),
    decreases visits.len(),
{
    if visits.len() > 0 {
        counters_follow_visits(visits.drop_last());
        match visits.last() {
            Visit::Directory => lemma_with_directory(visits_tally(visits.drop_last())),
            Visit::File { size } => lemma_with_file(visits_tally(visits.drop_last()), size),
        }
    }
}

/// A tree with `n` files and `m` directories, the root among them, is
/// reported with file count `n` and directory count `m`, as long as both fit
/// in 64 bits and every directory can be listed.
pub proof fn walk_counts_every_entry(root: Node)
    requires
        !(root is File),
        root.listable(),
        root.tally().files <= u64::MAX,
        root.tally().dirs <= u64::MAX,
    ensures
        root.outcome() is Ok,
        root.outcome()->Ok_0.files == root.tally().files,
        root.outcome()->Ok_0.dirs == root.tally().dirs,
{
}

/// The reported size is the sum of the sizes of all files of the tree whose
/// size can be read, as long as the sum fits in 64 bits and every directory
/// can be listed.
pub proof fn walk_sums_every_size(root: Node)
    requires
        !(root is File),
        root.listable(),
        root.tally().bytes <= u64::MAX,
    ensures
        root.outcome() is Ok,
        root.outcome()->Ok_0.bytes == root.tally().bytes,
{
}

/// A directory without entries is reported as no file, one directory and no
/// bytes.
pub proof fn empty_directory_counts_itself(root: Node)
    requires
        root is Directory,
        root->entries@.len() == 0,
    ensures
        root.outcome() == Ok::<Counters, Failure>(
            Counters { files: 0, dirs: 1, bytes: 0 },
        ),
{
}

/// A traversal reports counters or fails, and it fails exactly on a root
/// that is not a directory and on a tree with a directory that cannot be
/// listed.
pub proof fn walk_fails_without_counters(root: Node)
    ensures
        root.outcome() is Err <==> root is File || !root.listable(),
        root is File ==> root.outcome() == Err::<Counters, Failure>(
            Failure::NotADirectory,
        ),
{
}

/// Two reports on the same counters differ at most in the line that gives the
/// execution time.
pub proof fn report_differs_only_in_time(
    counters: Counters,
    size: Seq<char>,
    first: Seq<char>,
    second: Seq<char>,
)
    ensures
        forall|i: int|
            0 <= i < 3 ==> summary_text(counters, size, first)[i] == summary_text(
                counters,
                size,
                second,
            )[i],
{
}

} // verus!
