//! The dependency relation between workflows as a directed graph: search
//! for cycles and the order in which dependencies have to run.
//!
//! A graph is a map from the identifier of a workflow to the identifiers it
//! depends on. An identifier that is no key of the map has no dependencies.

use vstd::prelude::*;
use vstd::set_lib::lemma_len_subset;
use crate::text::{texts, holds_text};
use crate::text_map::TextMap;

verus! {

/// The identifiers that `a` depends on, in the order in which they are
/// declared.
pub open spec fn deps_of(g: Map<Seq<char>, Vec<String>>, a: Seq<char>) -> Seq<Seq<char>> {
    if g.contains_key(a) {
        texts(g[a]@)
    } else {
        Seq::empty()
    }
}

/// A chain of identifiers in which each depends on the next.
pub open spec fn is_path(g: Map<Seq<char>, Vec<String>>, p: Seq<Seq<char>>) -> bool {
    &&& p.len() >= 1
    &&& forall|i: int| 0 <= i < p.len() - 1 ==> deps_of(g, #[trigger] p[i]).contains(p[i + 1])
}

/// `b` can be reached from `a` along dependencies (every identifier
/// reaches itself).
pub open spec fn reachable(g: Map<Seq<char>, Vec<String>>, a: Seq<char>, b: Seq<char>) -> bool {
    exists|p: Seq<Seq<char>>| is_path(g, p) && p[0] == a && p.last() == b
}

/// Some chain that starts at `a` comes back to an identifier it has already
/// passed.
pub open spec fn reaches_cycle(g: Map<Seq<char>, Vec<String>>, a: Seq<char>) -> bool {
    exists|p: Seq<Seq<char>>| cycle_witness(g, Seq::empty(), a, p)
}

/// Some chain that starts at `a` meets `trail` or itself a second time.
pub open spec fn closes_cycle(g: Map<Seq<char>, Vec<String>>, trail: Seq<Seq<char>>, a: Seq<char>)
    -> bool {
    exists|p: Seq<Seq<char>>| cycle_witness(g, trail, a, p)
}

/// `p` is a chain from `a` such that `trail` followed by `p` repeats an
/// identifier.
pub open spec fn cycle_witness(
    g: Map<Seq<char>, Vec<String>>,
    trail: Seq<Seq<char>>,
    a: Seq<char>,
    p: Seq<Seq<char>>,
) -> bool {
    &&& is_path(g, p)
    &&& p[0] == a
    &&& !(trail + p).no_duplicates()
}

/// No dependency cycle can be reached from any key of the graph.
pub open spec fn acyclic(g: Map<Seq<char>, Vec<String>>) -> bool {
    forall|a: Seq<char>| g.contains_key(a) ==> !reaches_cycle(g, a)
}

/// In `order`, whatever an entry depends on stands before it.
pub open spec fn dependencies_first(g: Map<Seq<char>, Vec<String>>, order: Seq<Seq<char>>) -> bool {
    forall|j: int, d: Seq<char>|
        0 <= j < order.len() && deps_of(g, order[j]).contains(d) ==> exists|i: int|
            0 <= i < j && order[i] == d
}

/// The keys of the graph that are not on the trail: what a search can
/// still enter.
pub open spec fn open_keys(g: Map<Seq<char>, Vec<String>>, trail: Seq<Seq<char>>) -> Set<Seq<char>> {
    g.dom().difference(trail.to_set())
}

proof fn lemma_open_keys_shrink(
    g: Map<Seq<char>, Vec<String>>,
    trail: Seq<Seq<char>>,
    longer: Seq<Seq<char>>,
    a: Seq<char>,
)
    requires
        g.dom().finite(),
        g.contains_key(a),
        !trail.contains(a),
        longer.contains(a),
        forall|x: Seq<char>| trail.contains(x) ==> longer.contains(x),
    ensures
        open_keys(g, longer).len() < open_keys(g, trail).len(),
        open_keys(g, trail).finite(),
{
    let before = open_keys(g, trail);
    let after = open_keys(g, longer);
    assert(before.finite());
    assert(before.contains(a));
    assert(after.subset_of(before.remove(a)));
    lemma_len_subset(after, before.remove(a));
}

/// A chain of one identifier, then a chain from one of its dependencies,
/// is a chain.
proof fn lemma_path_cons(g: Map<Seq<char>, Vec<String>>, a: Seq<char>, p: Seq<Seq<char>>)
    requires
        is_path(g, p),
        deps_of(g, a).contains(p[0]),
    ensures
        is_path(g, seq![a] + p),
{
    let q = seq![a] + p;
    assert forall|i: int| 0 <= i < q.len() - 1 implies deps_of(g, #[trigger] q[i]).contains(
        q[i + 1],
    ) by {
        if i == 0 {
            assert(q[0] == a);
            assert(q[1] == p[0]);
        } else {
            assert(q[i] == p[i - 1]);
            assert(q[i + 1] == p[i]);
        }
    }
}

/// What is left of a chain of two or more after its first identifier is a
/// chain from a dependency of the first.
proof fn lemma_path_tail(g: Map<Seq<char>, Vec<String>>, p: Seq<Seq<char>>)
    requires
        is_path(g, p),
        p.len() >= 2,
    ensures
        is_path(g, p.drop_first()),
        deps_of(g, p[0]).contains(p[1]),
        p.drop_first()[0] == p[1],
{
    let q = p.drop_first();
    assert forall|i: int| 0 <= i < q.len() - 1 implies deps_of(g, #[trigger] q[i]).contains(
        q[i + 1],
    ) by {
        assert(q[i] == p[i + 1]);
        assert(q[i + 1] == p[i + 2]);
    }
    assert(deps_of(g, p[0int]).contains(p[0int + 1]));
}

/// Depth-first search for a cycle. `trail` holds the identifiers between
/// the start of the search and `node`; it is handed back as it was.
fn cycle_search(graph: &TextMap<Vec<String>>, node: &String, trail: &mut Vec<String>) -> (found:
    bool)
    requires
        texts(old(trail)@).no_duplicates(),
        forall|x: Seq<char>| texts(old(trail)@).contains(x) ==> graph@.contains_key(x),
    ensures
        found == closes_cycle(graph@, texts(old(trail)@), node@),
        texts(final(trail)@) == texts(old(trail)@),
    decreases open_keys(graph@, texts(old(trail)@)).len(),
{
    let ghost g = graph@;
    let ghost t0 = texts(trail@);
    if holds_text(trail, node.as_str()) {
        proof {
            let p = seq![node@];
            let i = t0.index_of(node@);
            assert(t0[i] == node@);
            assert((t0 + p)[i] == node@);
            assert((t0 + p)[t0.len() as int] == node@);
            assert(cycle_witness(g, t0, node@, p));
        }
        return true;
    }
    let _ = graph.len();
    match graph.get(node.as_str()) {
        None => {
            proof {
                assert forall|p: Seq<Seq<char>>| !cycle_witness(g, t0, node@, p) by {
                    if is_path(g, p) && p[0] == node@ {
                        if p.len() >= 2 {
                            lemma_path_tail(g, p);
                            assert(false);
                        }
                        assert(p =~= seq![node@]);
                        lemma_no_duplicates_push(t0, node@);
                        assert(t0 + p =~= t0.push(node@));
                    }
                }
            }
            false
        },
        Some(deps) => {
            trail.push(node.clone());
            let ghost t1 = texts(trail@);
            proof {
                assert(t1 =~= t0.push(node@));
                lemma_no_duplicates_push(t0, node@);
                assert forall|x: Seq<char>| t1.contains(x) implies g.contains_key(x) by {
                    let i = t1.index_of(x);
                    assert(t1[i] == x);
                    if i < t0.len() {
                        assert(t0[i] == x);
                        assert(t0.contains(x));
                    }
                }
                assert(t1.contains(node@)) by {
                    assert(t1[t0.len() as int] == node@);
                }
                assert forall|x: Seq<char>| t0.contains(x) implies t1.contains(x) by {
                    let i = t0.index_of(x);
                    assert(t0[i] == x);
                    assert(t1[i] == x);
                }
                lemma_open_keys_shrink(g, t0, t1, node@);
            }
            let mut found = false;
            let mut k: usize = 0;
            while k < deps.len() && !found
                invariant
                    k <= deps.len(),
                    g == graph@,
                    g.contains_key(node@),
                    deps@ == g[node@]@,
                    t1 == texts(trail@),
                    t1 == t0.push(node@),
                    t0 == texts(old(trail)@),
                    t1.no_duplicates(),
                    forall|x: Seq<char>| t1.contains(x) ==> g.contains_key(x),
                    open_keys(g, t1).len() < open_keys(g, t0).len(),
                    found ==> closes_cycle(g, t0, node@),
                    !found ==> forall|j: int|
                        0 <= j < k ==> !closes_cycle(g, t1, #[trigger] texts(deps@)[j]),
                decreases deps.len() - k + (if found { 0int } else { 1int }),
            {
                let hit = cycle_search(graph, &deps[k], trail);
                proof {
                    let d = deps@[k as int]@;
                    assert(texts(deps@)[k as int] == d);
                    if hit {
                        let p = choose|p: Seq<Seq<char>>| cycle_witness(g, t1, d, p);
                        let q = seq![node@] + p;
                        assert(deps_of(g, node@).contains(d)) by {
                            assert(deps_of(g, node@)[k as int] == d);
                        }
                        lemma_path_cons(g, node@, p);
                        assert(t0 + q =~= t1 + p);
                        assert(cycle_witness(g, t0, node@, q));
                    }
                }
                if hit {
                    found = true;
                } else {
                    k = k + 1;
                }
            }
            let ghost full = trail@;
            let _ = trail.pop();
            proof {
                assert(trail@ =~= full.drop_last());
                assert(texts(full.drop_last()) =~= texts(full).drop_last());
                assert(t1.drop_last() =~= t0);
                assert(texts(trail@) =~= t0);
                if !found {
                    assert forall|p: Seq<Seq<char>>| !cycle_witness(g, t0, node@, p) by {
                        if is_path(g, p) && p[0] == node@ {
                            if p.len() >= 2 {
                                lemma_path_tail(g, p);
                                let rest = p.drop_first();
                                let j = deps_of(g, node@).index_of(p[1]);
                                assert(texts(deps@)[j] == p[1]);
                                assert(!closes_cycle(g, t1, texts(deps@)[j]));
                                assert(!cycle_witness(g, t1, p[1], rest));
                                assert(t1 + rest =~= t0 + p);
                            } else {
                                assert(p =~= seq![node@]);
                                assert(t0 + p =~= t1);
                            }
                        }
                    }
                }
            }
            found
        },
    }
}

/// A text that is new to a sequence without repeats can be added at the end
/// without making one.
proof fn lemma_no_duplicates_push(s: Seq<Seq<char>>, x: Seq<char>)
    requires
        s.no_duplicates(),
        !s.contains(x),
    ensures
        s.push(x).no_duplicates(),
{
    let t = s.push(x);
    assert forall|i: int, j: int| 0 <= i < t.len() && 0 <= j < t.len() && i != j implies t[i]
        != t[j] by {
        if i < s.len() && j < s.len() {
        } else if i < s.len() {
            assert(s.contains(s[i]));
        } else {
            assert(s.contains(s[j]));
        }
    }
}

/// Every text of `a` is a text of `b`.
pub open spec fn within(a: Seq<Seq<char>>, b: Seq<Seq<char>>) -> bool {
    forall|x: Seq<char>| a.contains(x) ==> b.contains(x)
}

/// The texts of `list` are those of `a` and those of `b`.
pub open spec fn is_union(list: Seq<Seq<char>>, a: Seq<Seq<char>>, b: Seq<Seq<char>>) -> bool {
    forall|x: Seq<char>| list.contains(x) <==> (a.contains(x) || b.contains(x))
}

/// The entries of `order` from place `from` on have all their dependencies
/// in `seen`.
pub open spec fn closed_from(
    g: Map<Seq<char>, Vec<String>>,
    order: Seq<Seq<char>>,
    from: int,
    seen: Seq<Seq<char>>,
) -> bool {
    forall|j: int, d: Seq<char>|
        from <= j < order.len() && deps_of(g, order[j]).contains(d) ==> seen.contains(d)
}

proof fn lemma_push_contains(s: Seq<Seq<char>>, x: Seq<char>)
    ensures
        forall|y: Seq<char>| s.push(x).contains(y) <==> (s.contains(y) || y == x),
{
    let t = s.push(x);
    assert forall|y: Seq<char>| t.contains(y) <==> (s.contains(y) || y == x) by {
        if t.contains(y) {
            let i = t.index_of(y);
            assert(t[i] == y);
            if i < s.len() {
                assert(s[i] == y);
            }
        }
        if s.contains(y) {
            let i = s.index_of(y);
            assert(s[i] == y);
            assert(t[i] == y);
        }
        if y == x {
            assert(t[s.len() as int] == y);
        }
    }
}

/// What can be reached from a dependency of `a` can be reached from `a`.
proof fn lemma_reachable_step(
    g: Map<Seq<char>, Vec<String>>,
    a: Seq<char>,
    d: Seq<char>,
    x: Seq<char>,
)
    requires
        deps_of(g, a).contains(d),
        reachable(g, d, x),
    ensures
        reachable(g, a, x),
{
    let p = choose|p: Seq<Seq<char>>| is_path(g, p) && p[0] == d && p.last() == x;
    lemma_path_cons(g, a, p);
    let q = seq![a] + p;
    assert(q[0] == a);
    assert(q.last() == p.last());
}

proof fn lemma_reachable_self(g: Map<Seq<char>, Vec<String>>, a: Seq<char>)
    ensures
        reachable(g, a, a),
{
    let p = seq![a];
    assert(is_path(g, p));
    assert(p[0] == a && p.last() == a);
}

/// A chain that closes a cycle from a dependency of `a`, with `a` on the
/// trail, closes one from `a`.
proof fn lemma_cycle_step(
    g: Map<Seq<char>, Vec<String>>,
    trail: Seq<Seq<char>>,
    a: Seq<char>,
    d: Seq<char>,
)
    requires
        deps_of(g, a).contains(d),
        closes_cycle(g, trail.push(a), d),
    ensures
        closes_cycle(g, trail, a),
{
    let p = choose|p: Seq<Seq<char>>| cycle_witness(g, trail.push(a), d, p);
    lemma_path_cons(g, a, p);
    let q = seq![a] + p;
    assert(trail + q =~= trail.push(a) + p);
    assert(cycle_witness(g, trail, a, q));
}

/// An identifier on the trail closes a cycle at once.
proof fn lemma_cycle_on_trail(g: Map<Seq<char>, Vec<String>>, trail: Seq<Seq<char>>, a: Seq<char>)
    requires
        trail.contains(a),
    ensures
        closes_cycle(g, trail, a),
{
    let p = seq![a];
    let i = trail.index_of(a);
    assert(trail[i] == a);
    assert((trail + p)[i] == a);
    assert((trail + p)[trail.len() as int] == a);
    assert(is_path(g, p));
    assert(cycle_witness(g, trail, a, p));
}

/// Depth-first walk that appends to `resolved`, each after its
/// dependencies, what can be reached from `node` and was not visited
/// before. `trail` names the identifiers whose walk is under way.
fn resolve(
    graph: &TextMap<Vec<String>>,
    node: &String,
    resolved: &mut Vec<String>,
    visited: &mut Vec<String>,
    Ghost(trail): Ghost<Seq<Seq<char>>>,
)
    requires
        texts(old(resolved)@).no_duplicates(),
        texts(old(visited)@).no_duplicates(),
        is_union(texts(old(visited)@), texts(old(resolved)@), trail),
    ensures
        texts(final(resolved)@).no_duplicates(),
        texts(final(visited)@).no_duplicates(),
        texts(old(resolved)@).len() <= texts(final(resolved)@).len(),
        texts(final(resolved)@).subrange(0, texts(old(resolved)@).len() as int) == texts(
            old(resolved)@,
        ),
        is_union(texts(final(visited)@), texts(old(visited)@), texts(final(resolved)@)),
        forall|j: int|
            texts(old(resolved)@).len() <= j < texts(final(resolved)@).len() ==> !texts(
                old(visited)@,
            ).contains(#[trigger] texts(final(resolved)@)[j]),
        texts(final(visited)@).contains(node@),
        !texts(old(visited)@).contains(node@) ==> texts(final(resolved)@).len() > texts(
            old(resolved)@,
        ).len() && texts(final(resolved)@).last() == node@,
        closed_from(
            graph@,
            texts(final(resolved)@),
            texts(old(resolved)@).len() as int,
            texts(final(visited)@),
        ),
        forall|j: int|
            texts(old(resolved)@).len() <= j < texts(final(resolved)@).len() ==> reachable(
                graph@,
                node@,
                #[trigger] texts(final(resolved)@)[j],
            ),
        !closes_cycle(graph@, trail, node@) && dependencies_first(graph@, texts(old(resolved)@))
            ==> dependencies_first(graph@, texts(final(resolved)@)),
    decreases open_keys(graph@, texts(old(visited)@)).len(),
{
    let ghost g = graph@;
    let ghost r0 = texts(resolved@);
    let ghost v0 = texts(visited@);
    if holds_text(visited, node.as_str()) {
        assert(r0.subrange(0, r0.len() as int) =~= r0);
        return ;
    }
    let _ = graph.len();
    let none: Vec<String> = Vec::new();
    let deps: &Vec<String> = match graph.get(node.as_str()) {
        Some(d) => d,
        None => &none,
    };
    assert(texts(deps@) =~= deps_of(g, node@));
    visited.push(node.clone());
    let ghost v_s = texts(visited@);
    let ghost trail1 = trail.push(node@);
    proof {
        assert(v_s =~= v0.push(node@));
        lemma_no_duplicates_push(v0, node@);
        lemma_push_contains(v0, node@);
        lemma_push_contains(trail, node@);
        assert(r0.subrange(0, r0.len() as int) =~= r0);
        if g.contains_key(node@) {
            lemma_open_keys_shrink(g, v0, v_s, node@);
        }
    }
    let mut k: usize = 0;
    while k < deps.len()
        invariant
            k <= deps.len(),
            g == graph@,
            r0 == texts(old(resolved)@),
            v0 == texts(old(visited)@),
            v_s == v0.push(node@),
            trail1 == trail.push(node@),
            !v0.contains(node@),
            is_union(v0, r0, trail),
            texts(deps@) == deps_of(g, node@),
            deps@.len() > 0 ==> g.contains_key(node@),
            g.dom().finite(),
            g.contains_key(node@) ==> open_keys(g, v_s).len() < open_keys(g, v0).len(),
            texts(resolved@).no_duplicates(),
            texts(visited@).no_duplicates(),
            r0.len() <= texts(resolved@).len(),
            texts(resolved@).subrange(0, r0.len() as int) == r0,
            is_union(texts(visited@), v_s, texts(resolved@)),
            is_union(texts(visited@), texts(resolved@), trail1),
            forall|j: int|
                r0.len() <= j < texts(resolved@).len() ==> !v_s.contains(
                    #[trigger] texts(resolved@)[j],
                ),
            closed_from(g, texts(resolved@), r0.len() as int, texts(visited@)),
            forall|j: int|
                r0.len() <= j < texts(resolved@).len() ==> reachable(
                    g,
                    node@,
                    #[trigger] texts(resolved@)[j],
                ),
            forall|i: int| 0 <= i < k ==> texts(visited@).contains(#[trigger] texts(deps@)[i]),
            !closes_cycle(g, trail, node@) && dependencies_first(g, r0) ==> dependencies_first(
                g,
                texts(resolved@),
            ),
            !closes_cycle(g, trail, node@) ==> forall|i: int|
                0 <= i < k ==> texts(resolved@).contains(#[trigger] texts(deps@)[i]),
        decreases deps.len() - k,
    {
        let ghost r_a = texts(resolved@);
        let ghost v_a = texts(visited@);
        let ghost d = texts(deps@)[k as int];
        proof {
            assert(deps@[k as int]@ == d);
            assert(deps_of(g, node@).contains(d));
            lemma_push_contains(v0, node@);
            assert(within(v0, v_a)) by {
                assert forall|x: Seq<char>| v0.contains(x) implies v_a.contains(x) by {
                    assert(v_s.contains(x));
                }
            }
            assert(v_a.contains(node@));
            lemma_open_keys_shrink(g, v0, v_a, node@);
        }
        resolve(graph, &deps[k], resolved, visited, Ghost(trail1));
        let ghost r_b = texts(resolved@);
        let ghost v_b = texts(visited@);
        proof {
            assert(r_b.subrange(0, r0.len() as int) =~= r_b.subrange(0, r_a.len() as int).subrange(
                0,
                r0.len() as int,
            ));
            assert forall|x: Seq<char>| v_b.contains(x) <==> (v_s.contains(x) || r_b.contains(
                x,
            )) by {
                if r_a.contains(x) {
                    let i = r_a.index_of(x);
                    assert(r_a[i] == x);
                    assert(r_b.subrange(0, r_a.len() as int)[i] == x);
                    assert(r_b[i] == x);
                }
            }
            assert forall|x: Seq<char>| v_b.contains(x) <==> (r_b.contains(x) || trail1.contains(
                x,
            )) by {
                if r_a.contains(x) {
                    let i = r_a.index_of(x);
                    assert(r_a[i] == x);
                    assert(r_b.subrange(0, r_a.len() as int)[i] == x);
                    assert(r_b[i] == x);
                }
            }
            assert forall|j: int| r0.len() <= j < r_b.len() implies !v_s.contains(
                #[trigger] r_b[j],
            ) by {
                if j < r_a.len() {
                    assert(r_b.subrange(0, r_a.len() as int)[j] == r_b[j]);
                } else {
                    assert(!v_a.contains(r_b[j]));
                }
            }
            assert forall|j: int, e: Seq<char>|
                r0.len() <= j < r_b.len() && deps_of(g, r_b[j]).contains(e) implies v_b.contains(
                e,
            ) by {
                if j < r_a.len() {
                    assert(r_b.subrange(0, r_a.len() as int)[j] == r_b[j]);
                    assert(v_a.contains(e));
                }
            }
            assert forall|j: int| r0.len() <= j < r_b.len() implies reachable(
                g,
                node@,
                #[trigger] r_b[j],
            ) by {
                if j < r_a.len() {
                    assert(r_b.subrange(0, r_a.len() as int)[j] == r_b[j]);
                } else {
                    lemma_reachable_step(g, node@, d, r_b[j]);
                }
            }
            assert forall|i: int| 0 <= i < k + 1 implies v_b.contains(
                #[trigger] texts(deps@)[i],
            ) by {
                if i < k {
                    assert(v_a.contains(texts(deps@)[i]));
                }
            }
            if !closes_cycle(g, trail, node@) {
                if closes_cycle(g, trail1, d) {
                    lemma_cycle_step(g, trail, node@, d);
                }
                if trail1.contains(d) {
                    lemma_cycle_on_trail(g, trail1, d);
                }
                assert(r_b.contains(d));
                assert forall|i: int| 0 <= i < k + 1 implies r_b.contains(
                    #[trigger] texts(deps@)[i],
                ) by {
                    if i < k {
                        let x = texts(deps@)[i];
                        assert(r_a.contains(x));
                        let m = r_a.index_of(x);
                        assert(r_a[m] == x);
                        assert(r_b.subrange(0, r_a.len() as int)[m] == x);
                        assert(r_b[m] == x);
                    }
                }
            }
        }
        k = k + 1;
    }
    let ghost r_l = texts(resolved@);
    let ghost v_l = texts(visited@);
    resolved.push(node.clone());
    proof {
        let r1 = texts(resolved@);
        assert(r1 =~= r_l.push(node@));
        lemma_push_contains(r_l, node@);
        assert(!r_l.contains(node@)) by {
            if r_l.contains(node@) {
                let i = r_l.index_of(node@);
                assert(r_l[i] == node@);
                if i < r0.len() {
                    assert(r_l.subrange(0, r0.len() as int)[i] == node@);
                    assert(r0.contains(node@));
                } else {
                    assert(v_s.contains(node@));
                }
            }
        }
        lemma_no_duplicates_push(r_l, node@);
        assert(r1.subrange(0, r0.len() as int) =~= r_l.subrange(0, r0.len() as int));
        assert(v_l.contains(node@));
        assert forall|j: int| r0.len() <= j < r1.len() implies !v0.contains(#[trigger] r1[j]) by {
            if j < r_l.len() {
                assert(r1[j] == r_l[j]);
                assert(!v_s.contains(r_l[j]));
            }
        }
        assert forall|j: int, e: Seq<char>|
            r0.len() <= j < r1.len() && deps_of(g, r1[j]).contains(e) implies v_l.contains(e) by {
            if j < r_l.len() {
                assert(r1[j] == r_l[j]);
            } else {
                let i = texts(deps@).index_of(e);
                assert(texts(deps@)[i] == e);
            }
        }
        lemma_reachable_self(g, node@);
        assert forall|j: int| r0.len() <= j < r1.len() implies reachable(
            g,
            node@,
            #[trigger] r1[j],
        ) by {
            if j < r_l.len() {
                assert(r1[j] == r_l[j]);
            }
        }
        if !closes_cycle(g, trail, node@) && dependencies_first(g, r0) {
            assert forall|j: int, e: Seq<char>|
                0 <= j < r1.len() && deps_of(g, r1[j]).contains(e) implies exists|i: int|
                0 <= i < j && r1[i] == e by {
                if j < r_l.len() {
                    assert(r1[j] == r_l[j]);
                    let i = choose|i: int| 0 <= i < j && r_l[i] == e;
                    assert(r1[i] == e);
                } else {
                    let m = texts(deps@).index_of(e);
                    assert(texts(deps@)[m] == e);
                    assert(r_l.contains(e));
                    let i = r_l.index_of(e);
                    assert(r_l[i] == e);
                    assert(r1[i] == e);
                }
            }
        }
    }
}

/// A set of texts that holds `p[0]` and, with each of its texts, what that
/// text depends on, holds every identifier of the chain `p`.
proof fn lemma_closed_holds_path(
    g: Map<Seq<char>, Vec<String>>,
    order: Seq<Seq<char>>,
    p: Seq<Seq<char>>,
    n: int,
)
    requires
        is_path(g, p),
        order.contains(p[0]),
        closed_from(g, order, 0, order),
        0 <= n < p.len(),
    ensures
        order.contains(p[n]),
    decreases n,
{
    if n > 0 {
        lemma_closed_holds_path(g, order, p, n - 1);
        let j = order.index_of(p[n - 1]);
        assert(order[j] == p[n - 1]);
        assert(deps_of(g, p[n - 1]).contains(p[n - 1 + 1]));
    }
}

/// The identifiers that can be reached from `start`, each once, each after
/// whatever it depends on where no cycle is in reach, and `start` last.
pub fn dependency_order(graph: &TextMap<Vec<String>>, start: &String) -> (order: Vec<String>)
    ensures
        texts(order@).no_duplicates(),
        texts(order@).len() >= 1,
        texts(order@).last() == start@,
        forall|x: Seq<char>| texts(order@).contains(x) <==> reachable(graph@, start@, x),
        !reaches_cycle(graph@, start@) ==> dependencies_first(graph@, texts(order@)),
{
    let mut resolved: Vec<String> = Vec::new();
    let mut visited: Vec<String> = Vec::new();
    let ghost empty = Seq::<Seq<char>>::empty();
    proof {
        assert(texts(resolved@) =~= empty);
        assert(texts(visited@) =~= empty);
    }
    resolve(graph, start, &mut resolved, &mut visited, Ghost(empty));
    proof {
        let g = graph@;
        let l = texts(resolved@);
        let v = texts(visited@);
        assert(within(v, l) && within(l, v));
        assert(closed_from(g, l, 0, l));
        assert forall|x: Seq<char>| l.contains(x) <==> reachable(g, start@, x) by {
            if l.contains(x) {
                let j = l.index_of(x);
                assert(l[j] == x);
            }
            if reachable(g, start@, x) {
                let p = choose|p: Seq<Seq<char>>| is_path(g, p) && p[0] == start@ && p.last() == x;
                lemma_closed_holds_path(g, l, p, p.len() - 1);
            }
        }
        assert(dependencies_first(g, empty));
    }
    resolved
}

/// Whether a dependency cycle can be reached from `start`.
pub fn has_cycle(graph: &TextMap<Vec<String>>, start: &String) -> (found: bool)
    ensures
        found == reaches_cycle(graph@, start@),
{
    let mut trail: Vec<String> = Vec::new();
    assert(texts(trail@) =~= Seq::<Seq<char>>::empty());
    cycle_search(graph, start, &mut trail)
}

} // verus!
