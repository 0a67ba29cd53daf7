//! What a walk comes to as a whole, on a tree that stays as it is while it is
//! walked.

use vstd::prelude::*;

use crate::dir::EntryView;
use crate::error::ErrorView;
use crate::walk::{AnswerView, FrameView, ItemView, PhaseView, RequestView, WalkView};
use crate::walk;

verus! {

/// A directory tree: what listing each path gives.
pub type Tree = spec_fn(Seq<char>) -> Result<Seq<EntryView>, ErrorView>;

/// The items of the entries of `dir` from the `i`th on: each entry's path,
/// followed, where the entry is a directory, by what lies below it. Directories
/// nested deeper than `depth` are cut off.
pub open spec fn entry_items(
    tree: Tree,
    dir: Seq<char>,
    entries: Seq<EntryView>,
    i: nat,
    depth: nat,
) -> Seq<ItemView>
    decreases depth, entries.len() - i,
{
    if i >= entries.len() {
        seq![]
    } else if walk::is_dot(entries[i as int].name) {
        entry_items(tree, dir, entries, i + 1, depth)
    } else {
        let path = walk::child_path(dir, entries[i as int].name);
        let below = if entries[i as int].is_dir {
            items_below(tree, path, depth)
        } else {
            seq![]
        };
        seq![Ok::<Seq<char>, ErrorView>(path)] + below + entry_items(
            tree,
            dir,
            entries,
            i + 1,
            depth,
        )
    }
}

/// The items below the directory `path`, which the walk came upon: those of
/// its entries, or the error that kept it from being listed.
pub open spec fn items_below(tree: Tree, path: Seq<char>, depth: nat) -> Seq<ItemView>
    decreases depth, 0int,
{
    if depth == 0 {
        seq![]
    } else {
        match tree(path) {
            Ok(entries) => entry_items(tree, path, entries, 0, (depth - 1) as nat),
            Err(e) => seq![Err::<Seq<char>, ErrorView>(e)],
        }
    }
}

/// The items of a walk of `root`.
pub open spec fn walk_items(tree: Tree, root: Seq<char>, depth: nat) -> Seq<ItemView> {
    match tree(root) {
        Ok(entries) => entry_items(tree, root, entries, 0, depth),
        Err(e) => seq![],
    }
}

/// Whether the directories among the entries of `dir` nest no deeper than
/// `depth`.
pub open spec fn nests_within(
    tree: Tree,
    dir: Seq<char>,
    entries: Seq<EntryView>,
    depth: nat,
) -> bool
    decreases depth,
{
    forall|j: int|
        0 <= j < entries.len() && (#[trigger] entries[j]).is_dir && !walk::is_dot(entries[j].name)
            ==> {
            &&& depth > 0
            &&& match tree(walk::child_path(dir, entries[j].name)) {
                Ok(sub) => depth > 0 && nests_within(
                    tree,
                    walk::child_path(dir, entries[j].name),
                    sub,
                    (depth - 1) as nat,
                ),
                Err(_) => true,
            }
        }
}

/// Whether the tree below `root` is no deeper than `depth`.
pub open spec fn tree_within(tree: Tree, root: Seq<char>, depth: nat) -> bool {
    match tree(root) {
        Ok(entries) => nests_within(tree, root, entries, depth),
        Err(_) => true,
    }
}

/// A walk in progress: where it stands, the items that were taken so far, and
/// how many more the consumer will take.
pub struct Run {
    pub state: WalkView,
    pub taken: Seq<ItemView>,
    pub left: nat,
}

/// One request of the walk and its answer.
pub open spec fn tick(tree: Tree, r: Run) -> Run {
    match walk::walk_request(r.state) {
        RequestView::List(dir) => Run {
            state: walk::walk_answer(r.state, AnswerView::Listed(tree(dir))),
            ..r
        },
        RequestView::Send(item) => if r.left > 0 {
            Run {
                state: walk::walk_answer(r.state, AnswerView::Sent(true)),
                taken: r.taken.push(item),
                left: (r.left - 1) as nat,
            }
        } else {
            Run { state: walk::walk_answer(r.state, AnswerView::Sent(false)), ..r }
        },
        RequestView::Finish(_) => r,
    }
}

/// `n` requests of the walk and their answers.
pub open spec fn ticks(tree: Tree, r: Run, n: nat) -> Run
    decreases n,
{
    if n == 0 {
        r
    } else {
        ticks(tree, tick(tree, r), (n - 1) as nat)
    }
}

/// As many of the items as a consumer takes who takes `k`.
pub open spec fn first(items: Seq<ItemView>, k: nat) -> Seq<ItemView> {
    if k < items.len() {
        items.take(k as int)
    } else {
        items
    }
}

/// How many more a consumer takes who took what it would of `items`.
pub open spec fn rest(items: Seq<ItemView>, k: nat) -> nat {
    if k < items.len() {
        0
    } else {
        (k - items.len()) as nat
    }
}

proof fn lemma_ticks_add(tree: Tree, r: Run, a: nat, b: nat)
    ensures
        ticks(tree, r, a + b) == ticks(tree, ticks(tree, r, a), b),
    decreases a,
{
    if a > 0 {
        lemma_ticks_add(tree, tick(tree, r), (a - 1) as nat, b);
    }
}

proof fn lemma_ticks_one(tree: Tree, r: Run)
    ensures
        ticks(tree, r, 1) == tick(tree, r),
{
    reveal_with_fuel(ticks, 2);
}

proof fn lemma_first_add(a: Seq<ItemView>, b: Seq<ItemView>, k: nat)
    ensures
        first(a + b, k) == first(a, k) + first(b, rest(a, k)),
        rest(a + b, k) == rest(b, rest(a, k)),
{
    assert(first(a + b, k) =~= first(a, k) + first(b, rest(a, k)));
}

/// The run `r` after the consumer was offered `items`, with the walk back
/// inside of `frames`.
spec fn offered(r: Run, frames: Seq<FrameView>, items: Seq<ItemView>) -> Run {
    Run {
        state: walk::settle(frames),
        taken: r.taken + first(items, r.left),
        left: rest(items, r.left),
    }
}

proof fn lemma_offered_twice(
    r: Run,
    f: Seq<FrameView>,
    g: Seq<FrameView>,
    a: Seq<ItemView>,
    b: Seq<ItemView>,
)
    ensures
        offered(offered(r, f, a), g, b) == offered(r, g, a + b),
{
    lemma_first_add(a, b, r.left);
    assert(r.taken + first(a, r.left) + first(b, rest(a, r.left)) =~= r.taken + (first(a, r.left)
        + first(b, rest(a, r.left))));
}

/// Inside of a directory, the walk offers the items of the entries that are
/// left, and is then done with the directory.
proof fn lemma_entries(
    tree: Tree,
    r: Run,
    frames: Seq<FrameView>,
    dir: Seq<char>,
    entries: Seq<EntryView>,
    i: nat,
    depth: nat,
) -> (n: nat)
    requires
        i <= entries.len(),
        nests_within(tree, dir, entries, depth),
        r.state == walk::settle(frames.push(FrameView { dir, entries, next: i as int })),
    ensures
        ticks(tree, r, n) == offered(r, frames, entry_items(tree, dir, entries, i, depth)),
    decreases depth, entries.len() - i,
{
    let frame = FrameView { dir, entries, next: i as int };
    let here = frames.push(frame);
    assert(here.drop_last() =~= frames);
    let items = entry_items(tree, dir, entries, i, depth);
    if i >= entries.len() {
        assert(r.taken + first(items, r.left) =~= r.taken);
        0
    } else if walk::is_dot(entries[i as int].name) {
        let later = frames.push(FrameView { next: i as int + 1, ..frame });
        assert(later.drop_last() =~= frames);
        assert(walk::settle(here) == walk::settle(later));
        lemma_entries(tree, r, frames, dir, entries, i + 1, depth)
    } else {
        assert(walk::skip_dots(entries, i as int) == i);
        assert(r.state.frames =~= here);
        assert(r.state.phase is SendingPath);
        let entry = entries[i as int];
        let path = walk::child_path(dir, entry.name);
        let one: Seq<ItemView> = seq![Ok::<Seq<char>, ErrorView>(path)];
        let tail = entry_items(tree, dir, entries, i + 1, depth);
        let r1 = tick(tree, r);
        lemma_ticks_one(tree, r);
        if r.left == 0 {
            assert(r.taken + first(items, r.left) =~= r.taken);
            1
        } else {
            let later = frames.push(FrameView { next: i as int + 1, ..frame });
            assert(r1.taken == r.taken.push(Ok(path)));
            assert(r.taken + first(one, r.left) =~= r.taken.push(Ok(path)));
            if !entry.is_dir {
                assert(r1 == offered(r, later, one));
                let n = lemma_entries(tree, r1, frames, dir, entries, i + 1, depth);
                lemma_ticks_add(tree, r, 1, n);
                lemma_offered_twice(r, later, frames, one, tail);
                assert(items =~= one + tail);
                1 + n
            } else {
                assert(depth > 0);
                let below = items_below(tree, path, depth);
                let r2 = tick(tree, r1);
                lemma_ticks_one(tree, r1);
                lemma_ticks_add(tree, r, 1, 1);
                assert(ticks(tree, r, 2) == r2);
                assert(items =~= one + (below + tail));
                assert(r1.state == (WalkView { frames: later, phase: PhaseView::Reading(path) }));
                // The run of `r1`, had the walk settled after the path was sent.
                let s1 = offered(r, later, one);
                match tree(path) {
                    Ok(sub) => {
                        let inside = FrameView { dir: path, entries: sub, next: 0 };
                        assert(r2.state == walk::settle(later.push(inside)));
                        let n = lemma_entries(tree, r2, later, path, sub, 0, (depth - 1) as nat);
                        let r3 = ticks(tree, r2, n);
                        assert(r3 == offered(s1, later, below));
                        let m = lemma_entries(tree, r3, frames, dir, entries, i + 1, depth);
                        lemma_offered_twice(s1, later, frames, below, tail);
                        lemma_offered_twice(r, later, frames, one, below + tail);
                        lemma_ticks_add(tree, r2, n, m);
                        lemma_ticks_add(tree, r, 2, n + m);
                        2 + (n + m)
                    },
                    Err(e) => {
                        assert(r2.state == (WalkView {
                            frames: later,
                            phase: PhaseView::SendingError(e),
                        }));
                        let r3 = tick(tree, r2);
                        lemma_ticks_one(tree, r2);
                        lemma_ticks_add(tree, r, 2, 1);
                        lemma_offered_twice(r, later, frames, one, below + tail);
                        if r2.left == 0 {
                            assert(later.drop_last() =~= frames);
                            assert(s1.taken + first(below + tail, s1.left) =~= s1.taken);
                            assert(r3 == offered(s1, frames, below + tail));
                            3
                        } else {
                            assert(s1.taken + first(below, s1.left) =~= s1.taken.push(Err(e)));
                            assert(r3 == offered(s1, later, below));
                            let m = lemma_entries(tree, r3, frames, dir, entries, i + 1, depth);
                            lemma_offered_twice(s1, later, frames, below, tail);
                            lemma_ticks_add(tree, r, 3, m);
                            3 + m
                        }
                    },
                }
            }
        }
    }
}

/// A walk comes to an end, and what its consumer got is the sequence of the
/// tree's items, as far as the consumer took them: every entry before what lies
/// below it, in the order in which the directories list them, and an error in
/// the place of what lies below a directory that cannot be listed. Where the
/// root itself cannot be listed, nothing is sent and the walk ends with the
/// error.
pub proof fn law_walk_yields_the_tree(tree: Tree, root: Seq<char>, depth: nat, takes: nat) -> (n:
    nat)
    requires
        tree_within(tree, root, depth),
    ensures
        ({
            let start = Run { state: walk::walk_start(root), taken: seq![], left: takes };
            let end = ticks(tree, start, n);
            &&& end.taken == first(walk_items(tree, root, depth), takes)
            &&& end.left == rest(walk_items(tree, root, depth), takes)
            &&& end.state.phase == match tree(root) {
                Ok(_) => PhaseView::Finished(Ok(())),
                Err(e) => PhaseView::Finished(Err(e)),
            }
        }),
{
    let start = Run { state: walk::walk_start(root), taken: seq![], left: takes };
    let r1 = tick(tree, start);
    lemma_ticks_one(tree, start);
    match tree(root) {
        Ok(entries) => {
            let none: Seq<FrameView> = seq![];
            let n = lemma_entries(tree, r1, none, root, entries, 0, depth);
            lemma_ticks_add(tree, start, 1, n);
            let items = walk_items(tree, root, depth);
            assert(start.taken + first(items, takes) =~= first(items, takes));
            1 + n
        },
        Err(e) => {
            assert(first(walk_items(tree, root, depth), takes) =~= seq![]);
            1
        },
    }
}

/// Whether `path` is that of an entry of `dir`, from the `i`th on, or lies below
/// a directory among them, down to `depth`.
pub open spec fn lies_in(
    tree: Tree,
    dir: Seq<char>,
    entries: Seq<EntryView>,
    i: nat,
    path: Seq<char>,
    depth: nat,
) -> bool
    decreases depth,
{
    exists|j: int|
        i <= j < entries.len() && !walk::is_dot((#[trigger] entries[j]).name) && {
            let child = walk::child_path(dir, entries[j].name);
            ||| path == child
            ||| {
                &&& entries[j].is_dir
                &&& depth > 0
                &&& match tree(child) {
                    Ok(sub) => depth > 0 && lies_in(
                        tree,
                        child,
                        sub,
                        0,
                        path,
                        (depth - 1) as nat,
                    ),
                    Err(_) => false,
                }
            }
        }
}

/// Whether `path` is that of something below `root`, down to `depth`.
pub open spec fn lies_below(tree: Tree, root: Seq<char>, path: Seq<char>, depth: nat) -> bool {
    match tree(root) {
        Ok(entries) => lies_in(tree, root, entries, 0, path, depth),
        Err(_) => false,
    }
}

proof fn lemma_contains_add(a: Seq<ItemView>, b: Seq<ItemView>, x: ItemView)
    ensures
        (a + b).contains(x) <==> a.contains(x) || b.contains(x),
{
    if a.contains(x) {
        let i = choose|i: int| 0 <= i < a.len() && a[i] == x;
        assert((a + b)[i] == x);
    }
    if b.contains(x) {
        let i = choose|i: int| 0 <= i < b.len() && b[i] == x;
        assert((a + b)[a.len() + i] == x);
    }
    if (a + b).contains(x) {
        let i = choose|i: int| 0 <= i < (a + b).len() && (a + b)[i] == x;
        if i < a.len() {
            assert(a[i] == x);
        } else {
            assert(b[i - a.len()] == x);
        }
    }
}

proof fn lemma_complete(
    tree: Tree,
    dir: Seq<char>,
    entries: Seq<EntryView>,
    i: nat,
    path: Seq<char>,
    depth: nat,
)
    ensures
        entry_items(tree, dir, entries, i, depth).contains(Ok(path)) <==> lies_in(
            tree,
            dir,
            entries,
            i,
            path,
            depth,
        ),
    decreases depth, entries.len() - i,
{
    let x: ItemView = Ok(path);
    if i < entries.len() {
        lemma_complete(tree, dir, entries, i + 1, path, depth);
        let entry = entries[i as int];
        if walk::is_dot(entry.name) {
            if lies_in(tree, dir, entries, i, path, depth) {
                assert(lies_in(tree, dir, entries, i + 1, path, depth));
            }
        } else {
            let child = walk::child_path(dir, entry.name);
            let one: Seq<ItemView> = seq![Ok::<Seq<char>, ErrorView>(child)];
            let below = if entry.is_dir {
                items_below(tree, child, depth)
            } else {
                seq![]
            };
            let tail = entry_items(tree, dir, entries, i + 1, depth);
            lemma_contains_add(one + below, tail, x);
            lemma_contains_add(one, below, x);
            assert(one.contains(x) <==> path == child) by {
                if path == child {
                    assert(one[0] == x);
                }
            }
            let inside = entry.is_dir && depth > 0 && match tree(child) {
                Ok(sub) => lies_in(tree, child, sub, 0, path, (depth - 1) as nat),
                Err(_) => false,
            };
            assert(below.contains(x) <==> inside) by {
                if entry.is_dir && depth > 0 {
                    match tree(child) {
                        Ok(sub) => {
                            lemma_complete(tree, child, sub, 0, path, (depth - 1) as nat);
                        },
                        Err(e) => {
                            assert(below[0] == Err::<Seq<char>, ErrorView>(e));
                        },
                    }
                }
            }
            if path == child || inside {
                assert(entries[i as int] == entry);
                assert(lies_in(tree, dir, entries, i, path, depth));
            }
            if lies_in(tree, dir, entries, i + 1, path, depth) {
                assert(lies_in(tree, dir, entries, i, path, depth));
            }
            if lies_in(tree, dir, entries, i, path, depth) {
                assert(path == child || inside || lies_in(
                    tree,
                    dir,
                    entries,
                    i + 1,
                    path,
                    depth,
                ));
            }
        }
    }
}

/// A walk yields all paths below its root and no others.
pub proof fn law_walk_is_complete(tree: Tree, root: Seq<char>, path: Seq<char>, depth: nat)
    ensures
        walk_items(tree, root, depth).contains(Ok(path)) <==> lies_below(tree, root, path, depth),
{
    match tree(root) {
        Ok(entries) => lemma_complete(tree, root, entries, 0, path, depth),
        Err(e) => {},
    }
}

/// Whether `path` names something in the directory `dir` or deeper.
pub open spec fn is_under(dir: Seq<char>, path: Seq<char>) -> bool {
    if dir == "/"@ {
        "/"@.is_prefix_of(path)
    } else {
        (dir + "/"@).is_prefix_of(path)
    }
}

proof fn lemma_under(
    tree: Tree,
    dir: Seq<char>,
    entries: Seq<EntryView>,
    i: nat,
    path: Seq<char>,
    depth: nat,
)
    requires
        lies_in(tree, dir, entries, i, path, depth),
    ensures
        is_under(dir, path),
    decreases depth,
{
    let j = choose|j: int|
        i <= j < entries.len() && !walk::is_dot((#[trigger] entries[j]).name) && {
            let child = walk::child_path(dir, entries[j].name);
            ||| path == child
            ||| {
                &&& entries[j].is_dir
                &&& depth > 0
                &&& match tree(child) {
                    Ok(sub) => depth > 0 && lies_in(
                        tree,
                        child,
                        sub,
                        0,
                        path,
                        (depth - 1) as nat,
                    ),
                    Err(_) => false,
                }
            }
        };
    let child = walk::child_path(dir, entries[j].name);
    let stem = if dir == "/"@ {
        "/"@
    } else {
        dir + "/"@
    };
    assert(child =~= stem + entries[j].name);
    if path == child {
        assert(stem =~= path.subrange(0, stem.len() as int));
    } else {
        match tree(child) {
            Ok(sub) => {
                lemma_under(tree, child, sub, 0, path, (depth - 1) as nat);
                let inner = if child == "/"@ {
                    "/"@
                } else {
                    child + "/"@
                };
                assert(inner =~= path.subrange(0, inner.len() as int));
                assert(stem =~= inner.subrange(0, stem.len() as int));
                assert(stem =~= path.subrange(0, stem.len() as int)) by {
                    assert forall|k: int| 0 <= k < stem.len() implies stem[k] == path[k] by {
                        assert(stem[k] == inner[k]);
                        assert(inner[k] == path[k]);
                    }
                }
            },
            Err(_) => {},
        }
    }
}

/// Every path of a walk begins with the path of its root.
pub proof fn law_walk_stays_below_its_root(
    tree: Tree,
    root: Seq<char>,
    path: Seq<char>,
    depth: nat,
)
    requires
        walk_items(tree, root, depth).contains(Ok(path)),
    ensures
        is_under(root, path),
{
    law_walk_is_complete(tree, root, path, depth);
    match tree(root) {
        Ok(entries) => lemma_under(tree, root, entries, 0, path, depth),
        Err(_) => {},
    }
}

proof fn lemma_settle_lists_nothing(frames: Seq<FrameView>)
    ensures
        !(walk::settle(frames).phase is Reading),
        !(walk::settle(frames).phase is SendingError),
    decreases frames.len(),
{
    if frames.len() > 0 {
        lemma_settle_lists_nothing(frames.drop_last());
    }
}

/// Once the consumer takes nothing more, no directory is listed any more and
/// nothing more is taken.
pub proof fn law_refusal_ends_the_listing(tree: Tree, r: Run, n: nat)
    requires
        r.left == 0,
        walk::walk_request(r.state) is Send,
    ensures
        !(walk::walk_request(ticks(tree, r, n).state) is List),
        ticks(tree, r, n).taken == r.taken,
    decreases n,
{
    if n > 0 {
        let s = tick(tree, r);
        lemma_settle_lists_nothing(r.state.frames.drop_last());
        if walk::walk_request(s.state) is Send {
            law_refusal_ends_the_listing(tree, s, (n - 1) as nat);
        } else {
            lemma_finished_stays(tree, s, (n - 1) as nat);
        }
    }
}

proof fn lemma_finished_stays(tree: Tree, r: Run, n: nat)
    requires
        walk::walk_request(r.state) is Finish,
    ensures
        ticks(tree, r, n) == r,
    decreases n,
{
    if n > 0 {
        lemma_finished_stays(tree, r, (n - 1) as nat);
    }
}

// ── What is walked ──────────────────────────────────────────────────────────

/// What one more entry at the end of a listing adds to a walk. An entry whose name
/// is one dot or two dots adds nothing. Any other adds its path and, where it is a
/// directory, all that the walk of this path yields, or the error that kept it
/// from being listed.
pub proof fn law_one_more_entry(
    tree: Tree,
    dir: Seq<char>,
    entries: Seq<EntryView>,
    entry: EntryView,
    i: nat,
    depth: nat,
)
    requires
        i <= entries.len(),
        depth > 0,
    ensures
        ({
            let path = if dir == "/"@ {
                "/"@ + entry.name
            } else {
                dir + "/"@ + entry.name
            };
            let below = if !entry.is_dir {
                seq![]
            } else {
                match tree(path) {
                    Ok(_) => walk_items(tree, path, (depth - 1) as nat),
                    Err(e) => seq![Err::<Seq<char>, ErrorView>(e)],
                }
            };
            &&& entry.name == "."@ || entry.name == ".."@ ==> entry_items(
                tree,
                dir,
                entries.push(entry),
                i,
                depth,
            ) == entry_items(tree, dir, entries, i, depth)
            &&& entry.name != "."@ && entry.name != ".."@ ==> entry_items(
                tree,
                dir,
                entries.push(entry),
                i,
                depth,
            ) == entry_items(tree, dir, entries, i, depth) + seq![Ok::<Seq<char>, ErrorView>(path)]
                + below
        }),
    decreases entries.len() - i,
{
    let longer = entries.push(entry);
    let path = walk::child_path(dir, entry.name);
    let below = if !entry.is_dir {
        seq![]
    } else {
        match tree(path) {
            Ok(_) => walk_items(tree, path, (depth - 1) as nat),
            Err(e) => seq![Err::<Seq<char>, ErrorView>(e)],
        }
    };
    let nothing: Seq<ItemView> = seq![];
    if i == entries.len() {
        assert(longer[i as int] == entry);
        assert(entry_items(tree, dir, entries, i, depth) =~= nothing);
        assert(entry_items(tree, dir, longer, i + 1, depth) =~= nothing);
        if entry.is_dir {
            assert(below =~= items_below(tree, path, depth));
        }
        assert(entry.name != "."@ && entry.name != ".."@ ==> entry_items(tree, dir, longer, i, depth)
            =~= nothing + seq![Ok::<Seq<char>, ErrorView>(path)] + below);
    } else {
        assert(longer[i as int] == entries[i as int]);
        law_one_more_entry(tree, dir, entries, entry, i + 1, depth);
        let here = entries[i as int];
        if !walk::is_dot(here.name) {
            let p = walk::child_path(dir, here.name);
            let b = if here.is_dir {
                items_below(tree, p, depth)
            } else {
                seq![]
            };
            let head = seq![Ok::<Seq<char>, ErrorView>(p)] + b;
            let tail = entry_items(tree, dir, entries, i + 1, depth);
            assert(head + (tail + seq![Ok::<Seq<char>, ErrorView>(path)] + below) =~= head + tail
                + seq![Ok::<Seq<char>, ErrorView>(path)] + below);
        }
    }
}

/// The walk of a directory yields what its listing gives, from the first entry on;
/// an empty listing gives nothing, and neither does a root that cannot be listed.
pub proof fn law_walk_follows_the_listing(tree: Tree, root: Seq<char>, depth: nat)
    ensures
        match tree(root) {
            Ok(entries) => walk_items(tree, root, depth) == entry_items(
                tree,
                root,
                entries,
                0,
                depth,
            ),
            Err(_) => walk_items(tree, root, depth).len() == 0,
        },
        entry_items(tree, root, seq![], 0, depth).len() == 0,
{
}

/// Which trees the laws of a walk speak of: every tree that has a depth. One whose
/// root cannot be listed, or lists no directory but itself and its parent, has any
/// depth; and one is no deeper than one more than the trees of the directories
/// that its root lists.
pub proof fn law_trees_that_have_a_depth(
    tree: Tree,
    root: Seq<char>,
    entries: Seq<EntryView>,
    depth: nat,
)
    ensures
        tree(root) is Err ==> tree_within(tree, root, depth),
        tree(root) == Ok::<Seq<EntryView>, ErrorView>(entries) && (forall|j: int|
            0 <= j < entries.len() && (#[trigger] entries[j]).is_dir ==> entries[j].name == "."@
                || entries[j].name == ".."@) ==> tree_within(tree, root, depth),
        tree(root) == Ok::<Seq<EntryView>, ErrorView>(entries) && (forall|j: int|
            0 <= j < entries.len() && (#[trigger] entries[j]).is_dir && entries[j].name != "."@
                && entries[j].name != ".."@ ==> tree_within(
                tree,
                if root == "/"@ {
                    "/"@ + entries[j].name
                } else {
                    root + "/"@ + entries[j].name
                },
                depth,
            )) ==> tree_within(tree, root, depth + 1),
{
}

/// Every entry of a directory that is walked has its path among the items, unless
/// its name is one dot or two dots: a name that only begins with a dot is a name
/// like any other. And what the walk of a directory among the entries yields, the
/// walk yields too, or else the error that kept it from being listed.
pub proof fn law_every_entry_is_walked(
    tree: Tree,
    root: Seq<char>,
    entries: Seq<EntryView>,
    i: int,
    depth: nat,
    x: ItemView,
)
    requires
        tree(root) == Ok::<Seq<EntryView>, ErrorView>(entries),
        tree_within(tree, root, depth),
        0 <= i < entries.len(),
        entries[i].name != "."@,
        entries[i].name != ".."@,
    ensures
        ({
            let path = if root == "/"@ {
                "/"@ + entries[i].name
            } else {
                root + "/"@ + entries[i].name
            };
            let items = walk_items(tree, root, depth);
            &&& items.contains(Ok(path))
            &&& entries[i].is_dir ==> depth > 0
            &&& entries[i].is_dir && tree(path) is Ok && walk_items(
                tree,
                path,
                (depth - 1) as nat,
            ).contains(x) ==> items.contains(x)
            &&& entries[i].is_dir && tree(path) is Err ==> items.contains(Err(tree(path)->Err_0))
        }),
{
    lemma_entry_is_walked(tree, root, entries, 0, i, depth, x);
}

proof fn lemma_entry_is_walked(
    tree: Tree,
    dir: Seq<char>,
    entries: Seq<EntryView>,
    from: nat,
    i: int,
    depth: nat,
    x: ItemView,
)
    requires
        nests_within(tree, dir, entries, depth),
        from <= i < entries.len(),
        !walk::is_dot(entries[i].name),
    ensures
        ({
            let path = walk::child_path(dir, entries[i].name);
            let items = entry_items(tree, dir, entries, from, depth);
            &&& items.contains(Ok(path))
            &&& entries[i].is_dir ==> depth > 0
            &&& entries[i].is_dir && items_below(tree, path, depth).contains(x) ==> items.contains(x)
            &&& entries[i].is_dir && tree(path) is Err ==> items.contains(Err(tree(path)->Err_0))
        }),
    decreases entries.len() - from,
{
    let items = entry_items(tree, dir, entries, from, depth);
    let here = entries[from as int];
    let path = walk::child_path(dir, entries[i].name);
    if from < i {
        lemma_entry_is_walked(tree, dir, entries, from + 1, i, depth, x);
    }
    if !walk::is_dot(here.name) {
        let p = walk::child_path(dir, here.name);
        let one: Seq<ItemView> = seq![Ok::<Seq<char>, ErrorView>(p)];
        let below = if here.is_dir {
            items_below(tree, p, depth)
        } else {
            seq![]
        };
        let tail = entry_items(tree, dir, entries, from + 1, depth);
        let sent: ItemView = Ok(path);
        lemma_contains_add(one + below, tail, sent);
        lemma_contains_add(one, below, sent);
        lemma_contains_add(one + below, tail, x);
        lemma_contains_add(one, below, x);
        if from == i {
            assert(one[0] == sent);
        }
        if tree(path) is Err {
            let failure: ItemView = Err(tree(path)->Err_0);
            lemma_contains_add(one + below, tail, failure);
            lemma_contains_add(one, below, failure);
            if from == i && here.is_dir {
                assert(below[0] == failure);
            }
        }
    }
}

/// Whoever takes all that a walk sends has, once it is over, the path of every
/// entry of its root but those whose names are one dot or two dots.
pub proof fn law_finished_walk_sent_every_entry(
    tree: Tree,
    root: Seq<char>,
    entries: Seq<EntryView>,
    i: int,
    depth: nat,
    takes: nat,
    n: nat,
)
    requires
        tree(root) == Ok::<Seq<EntryView>, ErrorView>(entries),
        tree_within(tree, root, depth),
        0 <= i < entries.len(),
        entries[i].name != "."@,
        entries[i].name != ".."@,
        ({
            let start = Run { state: walk::walk_start(root), taken: seq![], left: takes };
            let end = ticks(tree, start, n);
            walk::walk_request(end.state) is Finish && end.left > 0
        }),
    ensures
        ({
            let start = Run { state: walk::walk_start(root), taken: seq![], left: takes };
            let path = if root == "/"@ {
                "/"@ + entries[i].name
            } else {
                root + "/"@ + entries[i].name
            };
            ticks(tree, start, n).taken.contains(Ok(path))
        }),
{
    let start = Run { state: walk::walk_start(root), taken: seq![], left: takes };
    let m = law_walk_yields_the_tree(tree, root, depth, takes);
    if m <= n {
        lemma_ticks_add(tree, start, m, (n - m) as nat);
        lemma_finished_stays(tree, ticks(tree, start, m), (n - m) as nat);
    } else {
        lemma_ticks_add(tree, start, n, (m - n) as nat);
        lemma_finished_stays(tree, ticks(tree, start, n), (m - n) as nat);
    }
    law_every_entry_is_walked(tree, root, entries, i, depth, Ok(root));
}

// ── The walk and its consumer ───────────────────────────────────────────────

/// A walk and its consumer: the items that were sent and wait, the oldest first,
/// and those that the consumer received, in the order in which it did.
pub struct Delivery {
    pub state: WalkView,
    pub buffer: Seq<ItemView>,
    pub received: Seq<ItemView>,
}

/// Whose turn it is.
pub enum Turn {
    /// That of the walk: it has one request answered. An item that finds no room
    /// among those that wait is not sent yet.
    Walk,
    /// That of the consumer: it receives the oldest item, where there is one.
    Next,
}

/// The walk and its consumer after a turn. The consumer does not go away.
pub open spec fn take_turn(tree: Tree, d: Delivery, turn: Turn) -> Delivery {
    match turn {
        Turn::Walk => match walk::walk_request(d.state) {
            RequestView::List(dir) => Delivery {
                state: walk::walk_answer(d.state, AnswerView::Listed(tree(dir))),
                ..d
            },
            RequestView::Send(item) => if d.buffer.len() < walk::WALK_BUFFER {
                Delivery {
                    state: walk::walk_answer(d.state, AnswerView::Sent(true)),
                    buffer: d.buffer.push(item),
                    ..d
                }
            } else {
                d
            },
            RequestView::Finish(_) => d,
        },
        Turn::Next => if d.buffer.len() > 0 {
            Delivery {
                buffer: d.buffer.drop_first(),
                received: d.received.push(d.buffer[0]),
                ..d
            }
        } else {
            d
        },
    }
}

/// The walk of `root` and its consumer after the turns.
pub open spec fn take_turns(tree: Tree, root: Seq<char>, turns: Seq<Turn>) -> Delivery
    decreases turns.len(),
{
    if turns.len() == 0 {
        Delivery { state: walk::walk_start(root), buffer: seq![], received: seq![] }
    } else {
        take_turn(tree, take_turns(tree, root, turns.drop_last()), turns.last())
    }
}

/// Whether there is nothing more to receive: the walk is over and no item waits.
pub open spec fn is_over(d: Delivery) -> bool {
    walk::walk_request(d.state) is Finish && d.buffer.len() == 0
}

/// What was sent so far is what a consumer would have taken who takes at least as
/// many items as there are turns.
proof fn lemma_delivery(tree: Tree, root: Seq<char>, turns: Seq<Turn>, takes: nat) -> (n: nat)
    requires
        turns.len() <= takes,
    ensures
        ({
            let d = take_turns(tree, root, turns);
            let start = Run { state: walk::walk_start(root), taken: seq![], left: takes };
            let r = ticks(tree, start, n);
            &&& r.state == d.state
            &&& r.taken == d.received + d.buffer
            &&& r.left >= takes - turns.len()
            &&& d.buffer.len() <= walk::WALK_BUFFER
        }),
    decreases turns.len(),
{
    let start = Run { state: walk::walk_start(root), taken: seq![], left: takes };
    let d = take_turns(tree, root, turns);
    if turns.len() == 0 {
        assert(d.received + d.buffer =~= start.taken);
        0
    } else {
        let n = lemma_delivery(tree, root, turns.drop_last(), takes);
        let before = take_turns(tree, root, turns.drop_last());
        let r = ticks(tree, start, n);
        lemma_ticks_add(tree, start, n, 1);
        lemma_ticks_one(tree, r);
        match turns.last() {
            Turn::Walk => match walk::walk_request(before.state) {
                RequestView::List(_) => n + 1,
                RequestView::Send(item) => if before.buffer.len() < walk::WALK_BUFFER {
                    assert(d.received + d.buffer =~= (before.received + before.buffer).push(item));
                    n + 1
                } else {
                    n
                },
                RequestView::Finish(_) => n,
            },
            Turn::Next => {
                assert(d.received + d.buffer =~= before.received + before.buffer);
                n
            },
        }
    }
}

proof fn lemma_taken_grows(tree: Tree, r: Run, n: nat)
    ensures
        r.taken.is_prefix_of(ticks(tree, r, n).taken),
    decreases n,
{
    if n > 0 {
        lemma_taken_grows(tree, tick(tree, r), (n - 1) as nat);
        let more = tick(tree, r).taken;
        let all = ticks(tree, r, n).taken;
        assert(r.taken =~= more.subrange(0, r.taken.len() as int));
        assert(r.taken =~= all.subrange(0, r.taken.len() as int)) by {
            assert forall|i: int| 0 <= i < r.taken.len() implies r.taken[i] == all[i] by {
                assert(more[i] == all.subrange(0, more.len() as int)[i]);
                assert(more.subrange(0, r.taken.len() as int)[i] == more[i]);
            }
        }
    }
}

/// However the walk and its consumer take turns, the consumer receives the items
/// of the walk, in their order: at first a beginning of them, and all of them by
/// the time that there is nothing more to receive. As long as that time has not
/// come, one of the two can go on.
pub proof fn law_consumer_receives_the_walk(
    tree: Tree,
    root: Seq<char>,
    depth: nat,
    turns: Seq<Turn>,
)
    requires
        tree_within(tree, root, depth),
    ensures
        ({
            let d = take_turns(tree, root, turns);
            let items = walk_items(tree, root, depth);
            &&& (d.received + d.buffer).is_prefix_of(items)
            &&& d.buffer.len() <= 64
            &&& is_over(d) ==> d.received == items
            &&& !is_over(d) ==> take_turn(tree, d, Turn::Walk) != d || take_turn(
                tree,
                d,
                Turn::Next,
            ) != d
        }),
{
    let d = take_turns(tree, root, turns);
    let items = walk_items(tree, root, depth);
    let takes = turns.len() + items.len();
    let start = Run { state: walk::walk_start(root), taken: seq![], left: takes };
    let m = lemma_delivery(tree, root, turns, takes);
    let n = law_walk_yields_the_tree(tree, root, depth, takes);
    let now = ticks(tree, start, m);
    let end = ticks(tree, start, n);
    if m <= n {
        lemma_ticks_add(tree, start, m, (n - m) as nat);
        lemma_taken_grows(tree, now, (n - m) as nat);
        if walk::walk_request(d.state) is Finish {
            lemma_finished_stays(tree, now, (n - m) as nat);
        }
    } else {
        lemma_ticks_add(tree, start, n, (m - n) as nat);
        lemma_finished_stays(tree, end, (m - n) as nat);
        assert(items =~= items.subrange(0, items.len() as int));
    }
    if is_over(d) {
        assert(d.received + d.buffer =~= d.received);
    } else if d.buffer.len() > 0 {
        assert(take_turn(tree, d, Turn::Next).received.len() == d.received.len() + 1);
    } else {
        match walk::walk_request(d.state) {
            RequestView::List(dir) => {
                match tree(dir) {
                    Ok(entries) => {
                        lemma_settle_lists_nothing(
                            d.state.frames.push(FrameView { dir, entries, next: 0 }),
                        );
                    },
                    Err(_) => {},
                }
                assert(!(take_turn(tree, d, Turn::Walk).state.phase is Reading));
            },
            _ => {
                assert(take_turn(tree, d, Turn::Walk).buffer.len() == 1);
            },
        }
    }
}

} // verus!
