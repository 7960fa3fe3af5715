//! Focus resolver: pre-order depth-first search over a container tree for
//! the focused window.
//!
//! The executable search keeps an explicit LIFO work-list instead of native
//! recursion, so its stack use does not grow with the depth of the tree.

use vstd::prelude::*;
use crate::container::{Container, is_focused_window};

verus! {

/// The earlier of two optional findings, in search order.
pub open spec fn first_found(a: Option<Container>, b: Option<Container>) -> Option<Container> {
    if a is Some {
        a
    } else {
        b
    }
}

/// Pre-order depth-first search: the node itself first, then its children in
/// order, first match wins.
pub open spec fn spec_find_focused(c: Container) -> Option<Container>
    decreases c,
{
    if is_focused_window(c) {
        Some(c)
    } else {
        spec_find_in_forest(c.children@)
    }
}

/// Pre-order search over a forest, left to right.
pub open spec fn spec_find_in_forest(s: Seq<Container>) -> Option<Container>
    decreases s,
{
    if s.len() == 0 {
        None
    } else {
        first_found(spec_find_focused(s[0]), spec_find_in_forest(s.drop_first()))
    }
}

/// Search over a work stack, top of the stack (the end) first.
spec fn spec_find_in_stack(s: Seq<Container>) -> Option<Container>
    decreases s,
{
    if s.len() == 0 {
        None
    } else {
        first_found(spec_find_focused(s.last()), spec_find_in_stack(s.drop_last()))
    }
}

/// The number of nodes in a tree; the measure that bounds the work-list
/// search.
pub open spec fn size_of(c: Container) -> nat
    decreases c,
{
    1 + size_of_forest(c.children@)
}

/// The number of nodes in a forest, peeled from the right so that pushes and
/// pops at the end of a work list unfold it directly.
pub open spec fn size_of_forest(s: Seq<Container>) -> nat
    decreases s,
{
    if s.len() == 0 {
        0
    } else {
        size_of_forest(s.drop_last()) + size_of(s.last())
    }
}

/// A forest search can also be peeled from the right: everything but the
/// last tree first, then the last tree.
proof fn lemma_forest_peel_right(s: Seq<Container>)
    requires
        s.len() > 0,
    ensures
        spec_find_in_forest(s) == first_found(
            spec_find_in_forest(s.drop_last()),
            spec_find_focused(s.last()),
        ),
    decreases s.len(),
{
    if s.len() == 1 {
        assert(s.drop_first() =~= Seq::<Container>::empty());
        assert(s.drop_last() =~= Seq::<Container>::empty());
    } else {
        lemma_forest_peel_right(s.drop_first());
        assert(s.drop_first().drop_last() =~= s.drop_last().drop_first());
        assert(s.drop_first().last() == s.last());
        assert(s.drop_last()[0] == s[0]);
        assert(s.drop_last().len() > 0);
    }
}

/// Finds the focused window in the given tree: the first window node in
/// pre-order that carries `has_focus = true`, or nothing when no such node
/// exists.  Iterative, so arbitrarily deep trees cannot exhaust the call
/// stack.
#[verifier::loop_isolation(false)]
pub fn find_focused_window(root: Container) -> (r: Option<Container>)
    ensures
        r == spec_find_focused(root),
{
    let ghost target = spec_find_focused(root);
    let mut stack: Vec<Container> = Vec::new();
    stack.push(root);
    proof {
        let empty = Seq::<Container>::empty();
        assert(spec_find_in_stack(empty) is None);
        assert(stack@.last() == root);
        assert(stack@.drop_last() =~= empty);
        assert(stack@.len() == 1);
    }
    loop
        invariant
            spec_find_in_stack(stack@) == target,
        decreases size_of_forest(stack@),
    {
        let ghost pre_stack = stack@;
        let c = match stack.pop() {
            Some(c) => c,
            None => {
                return None;
            },
        };
        proof {
            assert(stack@ =~= pre_stack.drop_last());
        }
        if c.focused_window() {
            return Some(c);
        }
        let ghost budget: nat = size_of_forest(stack@) + size_of_forest(c.children@);
        proof {
            assert(pre_stack.last() == c);
            assert(size_of(c) == 1 + size_of_forest(c.children@));
            assert(size_of_forest(pre_stack) == size_of_forest(stack@) + size_of(c));
            assert(budget < size_of_forest(pre_stack));
        }
        let Container { mut children, .. } = c;
        while children.len() > 0
            invariant
                first_found(spec_find_in_forest(children@), spec_find_in_stack(stack@))
                    == target,
                size_of_forest(stack@) + size_of_forest(children@) == budget,
            decreases children@.len(),
        {
            let ghost pre_children = children@;
            let ghost inner_stack = stack@;
            proof {
                lemma_forest_peel_right(pre_children);
            }
            let child = match children.pop() {
                Some(child) => child,
                None => vstd::pervasive::unreached(),
            };
            stack.push(child);
            proof {
                assert(children@ =~= pre_children.drop_last());
                assert(stack@.drop_last() =~= inner_stack);
            }
        }
    }
}

/// Membership: `w` is a node of the tree rooted at `c`.
pub open spec fn in_tree(c: Container, w: Container) -> bool
    decreases c,
{
    c == w || in_forest(c.children@, w)
}

/// Membership in a forest: `w` is a node of one of the trees of `s`.
pub open spec fn in_forest(s: Seq<Container>, w: Container) -> bool
    decreases s,
{
    exists|i: int| 0 <= i < s.len() && in_tree(#[trigger] s[i], w)
}

/// How many focused window nodes a tree holds.
pub open spec fn focused_count(c: Container) -> nat
    decreases c,
{
    (if is_focused_window(c) {
        1nat
    } else {
        0nat
    }) + focused_count_in_forest(c.children@)
}

/// How many focused window nodes a forest holds.
pub open spec fn focused_count_in_forest(s: Seq<Container>) -> nat
    decreases s,
{
    if s.len() == 0 {
        0
    } else {
        focused_count(s[0]) + focused_count_in_forest(s.drop_first())
    }
}

/// A forest holds at least as many focused windows as any one of its trees.
proof fn lemma_forest_count_bounds_tree(s: Seq<Container>, i: int)
    requires
        0 <= i < s.len(),
    ensures
        focused_count_in_forest(s) >= focused_count(s[i]),
    decreases s,
{
    if i > 0 {
        lemma_forest_count_bounds_tree(s.drop_first(), i - 1);
        assert(s.drop_first()[i - 1] == s[i]);
    }
}

/// A tree that holds a focused window node counts at least one.
proof fn lemma_member_counts(c: Container, w: Container)
    requires
        in_tree(c, w),
        is_focused_window(w),
    ensures
        focused_count(c) >= 1,
    decreases c,
{
    if c == w {
    } else {
        let i = choose|i: int| 0 <= i < c.children@.len() && in_tree(#[trigger] c.children@[i], w);
        lemma_member_counts(c.children@[i], w);
        lemma_forest_count_bounds_tree(c.children@, i);
    }
}

/// Soundness: whatever the search returns is a focused window node of the
/// tree it searched.
pub proof fn lemma_resolver_returns_focused_window(c: Container)
    ensures
        match spec_find_focused(c) {
            Some(w) => is_focused_window(w) && in_tree(c, w),
            None => true,
        },
    decreases c,
{
    if !is_focused_window(c) {
        lemma_resolver_forest_sound(c.children@);
        if spec_find_in_forest(c.children@) is Some {
            let w = spec_find_in_forest(c.children@)->Some_0;
            assert(in_forest(c.children@, w));
        }
    }
}

proof fn lemma_resolver_forest_sound(s: Seq<Container>)
    ensures
        match spec_find_in_forest(s) {
            Some(w) => is_focused_window(w) && in_forest(s, w),
            None => true,
        },
    decreases s,
{
    if s.len() > 0 {
        lemma_resolver_returns_focused_window(s[0]);
        lemma_resolver_forest_sound(s.drop_first());
        match spec_find_focused(s[0]) {
            Some(w) => {
                assert(in_tree(s[0], w));
            },
            None => {
                match spec_find_in_forest(s.drop_first()) {
                    Some(w) => {
                        let i = choose|i: int|
                            0 <= i < s.drop_first().len() && in_tree(
                                #[trigger] s.drop_first()[i],
                                w,
                            );
                        assert(s.drop_first()[i] == s[i + 1]);
                        assert(in_tree(s[i + 1], w));
                    },
                    None => {},
                }
            },
        }
    }
}

/// The search comes back empty exactly when the tree holds no focused
/// window node at all.
pub proof fn lemma_resolver_none_iff_no_focused_window(c: Container)
    ensures
        (spec_find_focused(c) is None) <==> focused_count(c) == 0,
    decreases c,
{
    if !is_focused_window(c) {
        lemma_resolver_forest_none_iff(c.children@);
    }
}

proof fn lemma_resolver_forest_none_iff(s: Seq<Container>)
    ensures
        (spec_find_in_forest(s) is None) <==> focused_count_in_forest(s) == 0,
    decreases s,
{
    if s.len() > 0 {
        lemma_resolver_none_iff_no_focused_window(s[0]);
        lemma_resolver_forest_none_iff(s.drop_first());
    }
}

/// Exactness: in a tree with at most one focused window node, the search
/// returns precisely that node whenever one exists.  Together with
/// `lemma_resolver_none_iff_no_focused_window` this pins the resolver down
/// on every tree that respects the window manager's focus invariant.
pub proof fn lemma_resolver_finds_the_focused_window(c: Container, w: Container)
    requires
        focused_count(c) <= 1,
        in_tree(c, w),
        is_focused_window(w),
    ensures
        spec_find_focused(c) == Some(w),
    decreases c,
{
    if is_focused_window(c) {
        if c != w {
            let i = choose|i: int|
                0 <= i < c.children@.len() && in_tree(#[trigger] c.children@[i], w);
            lemma_member_counts(c.children@[i], w);
            lemma_forest_count_bounds_tree(c.children@, i);
            assert(false);
        }
    } else {
        assert(c != w);
        lemma_resolver_forest_finds(c.children@, w);
    }
}

proof fn lemma_resolver_forest_finds(s: Seq<Container>, w: Container)
    requires
        focused_count_in_forest(s) <= 1,
        in_forest(s, w),
        is_focused_window(w),
    ensures
        spec_find_in_forest(s) == Some(w),
    decreases s,
{
    let i = choose|i: int| 0 <= i < s.len() && in_tree(#[trigger] s[i], w);
    if in_tree(s[0], w) {
        lemma_resolver_finds_the_focused_window(s[0], w);
        lemma_forest_count_bounds_tree(s, 0);
    } else {
        assert(i > 0);
        assert(s.drop_first()[i - 1] == s[i]);
        assert(in_forest(s.drop_first(), w));
        lemma_member_counts(s[i], w);
        lemma_forest_count_bounds_tree(s.drop_first(), i - 1);
        lemma_resolver_none_iff_no_focused_window(s[0]);
        lemma_resolver_forest_finds(s.drop_first(), w);
    }
}

} // verus!
