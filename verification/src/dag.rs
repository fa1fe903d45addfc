use vstd::prelude::*;

use crate::models::{DependencyType, EventDependency, EventDependencyView};

verus! {

/// `d` is a `blocks` edge of the graph that leaves out the dependency with id `exclude`.
pub open spec fn counts_as_block(d: EventDependencyView, exclude: Option<Seq<char>>) -> bool {
    d.dependency_type == DependencyType::Blocks && exclude != Some(d.id)
}

/// The blocks graph of `deps` (minus `exclude`) has an edge from `a` to `b`.
pub open spec fn block_edge(
    deps: Seq<EventDependencyView>,
    exclude: Option<Seq<char>>,
    a: Seq<char>,
    b: Seq<char>,
) -> bool {
    exists|i: int|
        0 <= i < deps.len() && counts_as_block(#[trigger] deps[i], exclude) && deps[i].from_event_id
            == a && deps[i].to_event_id == b
}

/// The blocks graph of `deps` (minus `exclude`) as an edge relation.
pub open spec fn blocks_graph(
    deps: Seq<EventDependencyView>,
    exclude: Option<Seq<char>>,
) -> spec_fn(Seq<char>, Seq<char>) -> bool {
    |a: Seq<char>, b: Seq<char>| block_edge(deps, exclude, a, b)
}

/// The edge relation `e` with one more edge, from `from` to `to`.
pub open spec fn with_edge(
    e: spec_fn(Seq<char>, Seq<char>) -> bool,
    from: Seq<char>,
    to: Seq<char>,
) -> spec_fn(Seq<char>, Seq<char>) -> bool {
    |a: Seq<char>, b: Seq<char>| e(a, b) || (a == from && b == to)
}

/// `p` is a walk in `e`: consecutive nodes are joined by an edge.
pub open spec fn is_walk(e: spec_fn(Seq<char>, Seq<char>) -> bool, p: Seq<Seq<char>>) -> bool {
    &&& p.len() >= 1
    &&& forall|i: int| 0 <= i < p.len() - 1 ==> e(#[trigger] p[i], p[i + 1])
}

/// `b` can be reached from `a` in `e` (in zero or more steps).
pub open spec fn reaches(e: spec_fn(Seq<char>, Seq<char>) -> bool, a: Seq<char>, b: Seq<char>) -> bool {
    exists|p: Seq<Seq<char>>| #[trigger] is_walk(e, p) && p[0] == a && p.last() == b
}

/// No walk of one or more steps in `e` returns to where it started.
pub open spec fn acyclic(e: spec_fn(Seq<char>, Seq<char>) -> bool) -> bool {
    forall|p: Seq<Seq<char>>| #[trigger] is_walk(e, p) && p.len() >= 2 ==> p[0] != p.last()
}

proof fn lemma_walk_prefix(e: spec_fn(Seq<char>, Seq<char>) -> bool, p: Seq<Seq<char>>, k: int)
    requires
        is_walk(e, p),
        0 <= k < p.len(),
    ensures
        is_walk(e, p.subrange(0, k + 1)),
{
    let q = p.subrange(0, k + 1);
    assert forall|i: int| 0 <= i < q.len() - 1 implies e(#[trigger] q[i], q[i + 1]) by {
        assert(q[i] == p[i] && q[i + 1] == p[i + 1]);
    }
}

proof fn lemma_walk_suffix(e: spec_fn(Seq<char>, Seq<char>) -> bool, p: Seq<Seq<char>>, k: int)
    requires
        is_walk(e, p),
        0 <= k < p.len(),
    ensures
        is_walk(e, p.subrange(k, p.len() as int)),
{
    let q = p.subrange(k, p.len() as int);
    assert forall|i: int| 0 <= i < q.len() - 1 implies e(#[trigger] q[i], q[i + 1]) by {
        assert(q[i] == p[k + i] && q[i + 1] == p[k + i + 1]);
    }
}

/// Reachability is transitive.
pub proof fn lemma_reaches_trans(
    e: spec_fn(Seq<char>, Seq<char>) -> bool,
    a: Seq<char>,
    b: Seq<char>,
    c: Seq<char>,
)
    requires
        reaches(e, a, b),
        reaches(e, b, c),
    ensures
        reaches(e, a, c),
{
    let p = choose|p: Seq<Seq<char>>| #[trigger] is_walk(e, p) && p[0] == a && p.last() == b;
    let q = choose|q: Seq<Seq<char>>| #[trigger] is_walk(e, q) && q[0] == b && q.last() == c;
    let r = p + q.drop_first();
    assert forall|i: int| 0 <= i < r.len() - 1 implies e(#[trigger] r[i], r[i + 1]) by {
        if i < p.len() - 1 {
            assert(r[i] == p[i] && r[i + 1] == p[i + 1]);
        } else if i == p.len() - 1 {
            assert(r[i] == b && r[i + 1] == q[1]);
            assert(e(q[0], q[1]));
        } else {
            let j = i - p.len() + 1;
            assert(r[i] == q[j] && r[i + 1] == q[j + 1]);
        }
    }
    if q.len() == 1 {
        assert(r.last() == p.last());
    } else {
        assert(r.last() == q.last());
    }
    assert(is_walk(e, r) && r[0] == a && r.last() == c);
}

/// A walk that may use the added edge either avoids it, or its start reaches `from` without it.
proof fn lemma_walk_before_added_edge(
    e: spec_fn(Seq<char>, Seq<char>) -> bool,
    from: Seq<char>,
    to: Seq<char>,
    p: Seq<Seq<char>>,
)
    requires
        is_walk(with_edge(e, from, to), p),
    ensures
        is_walk(e, p) || reaches(e, p[0], from),
    decreases p.len(),
{
    let f = with_edge(e, from, to);
    if p.len() > 1 {
        let n = p.len() as int;
        let q = p.subrange(0, n - 1);
        lemma_walk_prefix(f, p, n - 2);
        lemma_walk_before_added_edge(e, from, to, q);
        assert(q[0] == p[0]);
        if is_walk(e, q) {
            assert(f(p[n - 2], p[n - 1]));
            if e(p[n - 2], p[n - 1]) {
                assert forall|i: int| 0 <= i < p.len() - 1 implies e(#[trigger] p[i], p[i + 1]) by {
                    if i < n - 2 {
                        assert(q[i] == p[i] && q[i + 1] == p[i + 1]);
                    }
                }
            } else {
                assert(p[n - 2] == from);
                assert(q.last() == from);
                assert(reaches(e, p[0], from));
            }
        }
    }
}

/// A walk that may use the added edge either avoids it, or `to` reaches its end without it.
proof fn lemma_walk_after_added_edge(
    e: spec_fn(Seq<char>, Seq<char>) -> bool,
    from: Seq<char>,
    to: Seq<char>,
    p: Seq<Seq<char>>,
)
    requires
        is_walk(with_edge(e, from, to), p),
    ensures
        is_walk(e, p) || reaches(e, to, p.last()),
    decreases p.len(),
{
    let f = with_edge(e, from, to);
    if p.len() > 1 {
        let n = p.len() as int;
        let q = p.subrange(1, n);
        lemma_walk_suffix(f, p, 1);
        lemma_walk_after_added_edge(e, from, to, q);
        assert(q.last() == p.last());
        if is_walk(e, q) {
            assert(f(p[0], p[1]));
            if e(p[0], p[1]) {
                assert forall|i: int| 0 <= i < p.len() - 1 implies e(#[trigger] p[i], p[i + 1]) by {
                    if i > 0 {
                        assert(q[i - 1] == p[i] && q[i] == p[i + 1]);
                    }
                }
            } else {
                assert(p[1] == to);
                assert(q[0] == to);
                assert(reaches(e, to, p.last()));
            }
        }
    }
}

/// Adding an edge from `from` to `to` to an acyclic relation keeps it acyclic
/// when `from` cannot be reached from `to`.
pub proof fn lemma_added_edge_keeps_acyclic(
    e: spec_fn(Seq<char>, Seq<char>) -> bool,
    from: Seq<char>,
    to: Seq<char>,
)
    requires
        acyclic(e),
        !reaches(e, to, from),
    ensures
        acyclic(with_edge(e, from, to)),
{
    let f = with_edge(e, from, to);
    assert forall|p: Seq<Seq<char>>| #[trigger] is_walk(f, p) && p.len() >= 2 implies p[0] != p.last() by {
        if p[0] == p.last() {
            lemma_walk_before_added_edge(e, from, to, p);
            lemma_walk_after_added_edge(e, from, to, p);
            if !is_walk(e, p) {
                lemma_reaches_trans(e, to, p.last(), from);
            }
        }
    }
}

/// The texts of a sequence of strings.
pub open spec fn strings_view(v: Seq<String>) -> Seq<Seq<char>> {
    v.map_values(|x: String| x@)
}

fn contains_string(v: &Vec<String>, s: &String) -> (b: bool)
    ensures
        b == strings_view(v@).contains(s@),
{
    let mut i: usize = 0;
    while i < v.len()
        invariant
            i <= v.len(),
            forall|j: int| 0 <= j < i ==> v@[j]@ != s@,
        decreases v.len() - i,
    {
        if v[i] == *s {
            assert(strings_view(v@)[i as int] == s@);
            return true;
        }
        i = i + 1;
    }
    proof {
        if strings_view(v@).contains(s@) {
            let k = choose|k: int|
                0 <= k < v@.len() && #[trigger] strings_view(v@)[k] == s@;
            assert(v@[k]@ == s@);
        }
    }
    false
}

proof fn lemma_walk_extend(
    e: spec_fn(Seq<char>, Seq<char>) -> bool,
    p: Seq<Seq<char>>,
    b: Seq<char>,
)
    requires
        is_walk(e, p),
        e(p.last(), b),
    ensures
        is_walk(e, p.push(b)),
        p.push(b)[0] == p[0],
        p.push(b).last() == b,
{
    let q = p.push(b);
    assert forall|i: int| 0 <= i < q.len() - 1 implies e(#[trigger] q[i], q[i + 1]) by {
        if i < p.len() - 1 {
            assert(q[i] == p[i] && q[i + 1] == p[i + 1]);
        } else {
            assert(q[i] == p.last() && q[i + 1] == b);
        }
    }
}

/// A closed set that holds `start` holds every node reachable from `start`.
proof fn lemma_closed_holds_walk(
    e: spec_fn(Seq<char>, Seq<char>) -> bool,
    seen: Seq<Seq<char>>,
    p: Seq<Seq<char>>,
)
    requires
        is_walk(e, p),
        seen.contains(p[0]),
        forall|a: Seq<char>, b: Seq<char>|
            #![trigger seen.contains(a), seen.contains(b)]
            seen.contains(a) && e(a, b) ==> seen.contains(b),
    ensures
        seen.contains(p.last()),
    decreases p.len(),
{
    if p.len() > 1 {
        let q = p.drop_last();
        assert(is_walk(e, q)) by {
            assert forall|i: int| 0 <= i < q.len() - 1 implies e(#[trigger] q[i], q[i + 1]) by {
                assert(q[i] == p[i] && q[i + 1] == p[i + 1]);
            }
        }
        lemma_closed_holds_walk(e, seen, q);
        assert(e(p[p.len() - 2], p[p.len() - 1]));
        assert(seen.contains(p[p.len() - 2]));
    }
}

/// Whether `target` can be reached from `start` along the blocks edges of `deps`,
/// not counting the dependency whose id is `exclude`.
pub fn blocks_path_exists(
    deps: &Vec<EventDependency>,
    exclude: Option<&str>,
    start: &str,
    target: &str,
) -> (b: bool)
    ensures
        b == reaches(blocks_graph(deps.deep_view(), opt_str_view(exclude)), start@, target@),
{
    let ghost g = deps.deep_view();
    let ghost ex = opt_str_view(exclude);
    let ghost e = blocks_graph(g, ex);
    let start_s = string_of(start);
    let target_s = string_of(target);
    let mut seen: Vec<String> = Vec::new();
    seen.push(start_s);
    let ghost cand: Seq<Seq<char>> = seq![start@] + g.map_values(|d: EventDependencyView| d.to_event_id);
    let mut k: usize = 0;
    proof {
        let w = seq![start@];
        assert(is_walk(e, w));
        assert(w[0] == start@ && w.last() == start@);
        assert(reaches(e, start@, start@));
        assert(seen@[0]@ == start@);
        assert(cand[0] == start@);
        assert(strings_view(seen@) =~= seq![start@]);
    }
    while k < seen.len()
        invariant
            g == deps.deep_view(),
            ex == opt_str_view(exclude),
            e == blocks_graph(g, ex),
            cand == seq![start@] + g.map_values(|d: EventDependencyView| d.to_event_id),
            k <= seen.len(),
            seen.len() >= 1,
            seen.len() <= deps.len() + 1,
            seen@[0]@ == start@,
            strings_view(seen@).no_duplicates(),
            forall|j: int| 0 <= j < seen.len() ==> cand.contains(#[trigger] seen@[j]@),
            forall|j: int| 0 <= j < seen.len() ==> reaches(e, start@, #[trigger] seen@[j]@),
            forall|j: int, i: int|
                #![trigger seen@[j], deps@[i]]
                0 <= j < k && 0 <= i < deps.len() && counts_as_block(g[i], ex)
                    && g[i].from_event_id == seen@[j]@ ==> strings_view(seen@).contains(g[i].to_event_id),
        decreases deps.len() + 1 - seen.len(), seen.len() - k,
    {
        let node = seen[k].clone();
        let ghost before = seen@;
        let mut i: usize = 0;
        while i < deps.len()
            invariant
                g == deps.deep_view(),
                ex == opt_str_view(exclude),
                e == blocks_graph(g, ex),
            e == blocks_graph(g, ex),
                cand == seq![start@] + g.map_values(|d: EventDependencyView| d.to_event_id),
                k < before.len() <= seen.len() <= deps.len() + 1,
                forall|j: int| 0 <= j < before.len() ==> #[trigger] seen@[j] == before[j],
                node@ == seen@[k as int]@,
                i <= deps.len(),
                seen@[0]@ == start@,
                strings_view(seen@).no_duplicates(),
                forall|j: int| 0 <= j < seen.len() ==> cand.contains(#[trigger] seen@[j]@),
                forall|j: int| 0 <= j < seen.len() ==> reaches(e, start@, #[trigger] seen@[j]@),
                forall|j: int, m: int|
                    #![trigger before[j], deps@[m]]
                    0 <= j < k && 0 <= m < deps.len() && counts_as_block(g[m], ex)
                        && g[m].from_event_id == before[j]@ ==> strings_view(before).contains(g[m].to_event_id),
                forall|m: int|
                    #![trigger deps@[m]]
                    0 <= m < i && counts_as_block(g[m], ex) && g[m].from_event_id == node@
                        ==> strings_view(seen@).contains(g[m].to_event_id),
            decreases deps.len() - i,
        {
            let d = &deps[i];
            assert(g[i as int] == deps@[i as int]@);
            let is_block = match d.dependency_type {
                DependencyType::Blocks => true,
                DependencyType::Related => false,
            };
            let excluded = match exclude {
                Some(x) => str_eq(d.id.as_str(), x),
                None => false,
            };
            assert(is_block && !excluded <==> counts_as_block(g[i as int], ex));
            if is_block && !excluded && d.from_event_id == node {
                if !contains_string(&seen, &d.to_event_id) {
                    proof {
                        let w = choose|p: Seq<Seq<char>>| is_walk(e, p) && p[0] == start@ && p.last() == node@;
                        assert(block_edge(g, ex, node@, g[i as int].to_event_id));
                        assert(e(node@, g[i as int].to_event_id));
                        lemma_walk_extend(e, w, g[i as int].to_event_id);
                        assert(cand[i + 1] == g[i as int].to_event_id);
                    }
                    let ghost old_seen = seen@;
                    seen.push(d.to_event_id.clone());
                    proof {
                        assert(strings_view(seen@) =~= strings_view(old_seen).push(g[i as int].to_event_id));
                        assert forall|y: Seq<char>| strings_view(old_seen).contains(y) implies strings_view(seen@).contains(y) by {
                            let j = choose|j: int| 0 <= j < strings_view(old_seen).len() && strings_view(old_seen)[j] == y;
                            assert(strings_view(seen@)[j] == y);
                        }
                        assert(strings_view(seen@)[old_seen.len() as int] == g[i as int].to_event_id);
                        assert(cand.contains(g[i as int].to_event_id));
                        lemma_seen_bound(strings_view(seen@), cand);
                    }
                }
            }
            i = i + 1;
        }
        proof {
            assert forall|y: Seq<char>| strings_view(before).contains(y) implies strings_view(seen@).contains(y) by {
                let j = choose|j: int| 0 <= j < strings_view(before).len() && strings_view(before)[j] == y;
                assert(seen@[j] == before[j]);
                assert(strings_view(seen@)[j] == y);
            }
            assert forall|j: int, m: int|
                #![trigger seen@[j], deps@[m]]
                0 <= j < k + 1 && 0 <= m < deps.len() && counts_as_block(g[m], ex)
                    && g[m].from_event_id == seen@[j]@ implies strings_view(seen@).contains(g[m].to_event_id) by {
                if j < k {
                    assert(seen@[j] == before[j]);
                    assert(strings_view(before).contains(g[m].to_event_id));
                }
            }
        }
        k = k + 1;
    }
    let found = contains_string(&seen, &target_s);
    proof {
        let sv = strings_view(seen@);
        if found {
            let j = choose|j: int| 0 <= j < sv.len() && sv[j] == target@;
            assert(reaches(e, start@, seen@[j]@));
        } else {
            if reaches(e, start@, target@) {
                let p = choose|p: Seq<Seq<char>>| is_walk(e, p) && p[0] == start@ && p.last() == target@;
                assert(sv[0] == start@);
                assert forall|a: Seq<char>, b: Seq<char>|
                    #![trigger sv.contains(a), sv.contains(b)]
                    sv.contains(a) && e(a, b) implies sv.contains(b) by {
                    assert(block_edge(g, ex, a, b));
                    let j = choose|j: int| 0 <= j < sv.len() && sv[j] == a;
                    let m = choose|m: int|
                        0 <= m < g.len() && counts_as_block(#[trigger] g[m], ex) && g[m].from_event_id == a
                            && g[m].to_event_id == b;
                    assert(seen@[j]@ == a);
                    assert(deps@[m]@ == g[m]);
                }
                lemma_closed_holds_walk(e, sv, p);
            }
        }
    }
    found
}

/// A `String` holding the text of `s`.
pub fn string_of(s: &str) -> (r: String)
    ensures
        r@ == s@,
{
    let chars = crate::text::chars_of(s);
    crate::text::string_from_range(&chars, 0, chars.len())
}

proof fn lemma_seen_bound(sv: Seq<Seq<char>>, cand: Seq<Seq<char>>)
    requires
        sv.no_duplicates(),
        forall|j: int| 0 <= j < sv.len() ==> cand.contains(#[trigger] sv[j]),
    ensures
        sv.len() <= cand.len(),
{
    sv.unique_seq_to_set();
    cand.lemma_cardinality_of_set();
    assert(sv.to_set().subset_of(cand.to_set()));
    vstd::set_lib::lemma_len_subset(sv.to_set(), cand.to_set());
}

/// Optional string slice viewed as an optional character sequence.
pub open spec fn opt_str_view(o: Option<&str>) -> Option<Seq<char>> {
    match o {
        Some(s) => Some(s@),
        None => None,
    }
}

/// Whether two string slices hold the same text.
pub fn str_eq(a: &str, b: &str) -> (r: bool)
    ensures
        r == (a@ == b@),
{
    let x = crate::text::chars_of(a);
    let y = crate::text::chars_of(b);
    if x.len() != y.len() {
        return false;
    }
    let mut i: usize = 0;
    while i < x.len()
        invariant
            x@ == a@,
            y@ == b@,
            x.len() == y.len(),
            i <= x.len(),
            forall|j: int| 0 <= j < i ==> x@[j] == y@[j],
        decreases x.len() - i,
    {
        if x[i] != y[i] {
            return false;
        }
        i = i + 1;
    }
    assert(x@ =~= y@);
    true
}

} // verus!
