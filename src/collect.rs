use vstd::prelude::*;

verus! {

/// The type of a directory entry, as the walk reports it without following
/// symbolic links.
#[derive(Clone, Copy, Debug, PartialEq, Eq, Structural)]
pub enum EntryKind {
    File,
    Dir,
    Other,
}

/// One entry met while walking a directory root. `id` names the entry's path
/// in the caller's table; `depth` is 0 for the root itself, 1 for its
/// children, and so on.
#[derive(Clone, Copy, Debug, PartialEq, Eq, Structural)]
pub struct WalkEntry {
    pub id: usize,
    pub depth: usize,
    pub kind: EntryKind,
}

/// A root path handed to a run.
#[derive(Debug)]
pub enum Root {
    /// A regular file, with the id of its path.
    File(usize),
    /// A directory, with the entries that walking it produced.
    Dir(Vec<WalkEntry>),
    /// Neither: missing, unreadable or special. It yields nothing.
    Other,
}

/// How deep a directory root is walked: only its children unless the run
/// is recursive, in which case there is no limit.
pub open spec fn depth_limit_of(recursive: bool) -> Option<usize> {
    if recursive {
        None
    } else {
        Some(1)
    }
}

/// The depth to which a directory root is walked (`None` for no limit).
pub fn walk_depth_limit(recursive: bool) -> (r: Option<usize>)
    ensures
        r == depth_limit_of(recursive),
{
    if recursive {
        None
    } else {
        Some(1)
    }
}

/// Whether a walked entry becomes a task: a regular file within the depth.
pub open spec fn selects(e: WalkEntry, recursive: bool) -> bool {
    e.kind == EntryKind::File && (recursive || e.depth <= 1)
}

/// The tasks that a list of walked entries yields, in walk order.
pub open spec fn entry_tasks(es: Seq<WalkEntry>, recursive: bool) -> Seq<usize>
    decreases es.len(),
{
    if es.len() == 0 {
        Seq::empty()
    } else {
        let rest = entry_tasks(es.drop_last(), recursive);
        if selects(es.last(), recursive) {
            rest.push(es.last().id)
        } else {
            rest
        }
    }
}

/// The tasks that one root yields.
pub open spec fn root_tasks(r: Root, recursive: bool) -> Seq<usize> {
    match r {
        Root::File(id) => seq![id],
        Root::Dir(es) => entry_tasks(es@, recursive),
        Root::Other => Seq::empty(),
    }
}

/// The tasks of all roots, root by root, in order.
pub open spec fn tasks_of(roots: Seq<Root>, recursive: bool) -> Seq<usize>
    decreases roots.len(),
{
    if roots.len() == 0 {
        Seq::empty()
    } else {
        tasks_of(roots.drop_last(), recursive) + root_tasks(roots.last(), recursive)
    }
}

fn collect_entries(es: &Vec<WalkEntry>, recursive: bool, out: &mut Vec<usize>)
    ensures
        final(out)@ == old(out)@ + entry_tasks(es@, recursive),
{
    let mut i: usize = 0;
    while i < es.len()
        invariant
            i <= es@.len(),
            out@ == old(out)@ + entry_tasks(es@.subrange(0, i as int), recursive),
        decreases es@.len() - i,
    {
        let e = es[i];
        proof {
            assert(es@.subrange(0, i as int + 1).drop_last() =~= es@.subrange(0, i as int));
        }
        if e.kind == EntryKind::File && (recursive || e.depth <= 1) {
            out.push(e.id);
        }
        i = i + 1;
    }
    proof {
        assert(es@.subrange(0, es@.len() as int) =~= es@);
    }
}

/// Expands the roots of a run into its file tasks: a file root is a task
/// of its own, and a directory root gives each regular file met within the
/// depth limit. No path is dropped for appearing twice.
pub fn collect_tasks(roots: &Vec<Root>, recursive: bool) -> (r: Vec<usize>)
    ensures
        r@ == tasks_of(roots@, recursive),
{
    let mut out: Vec<usize> = Vec::new();
    let mut i: usize = 0;
    while i < roots.len()
        invariant
            i <= roots@.len(),
            out@ == tasks_of(roots@.subrange(0, i as int), recursive),
        decreases roots@.len() - i,
    {
        proof {
            assert(roots@.subrange(0, i as int + 1).drop_last() =~= roots@.subrange(0, i as int));
        }
        match &roots[i] {
            Root::File(id) => {
                out.push(*id);
                proof {
                    assert(out@ =~= tasks_of(roots@.subrange(0, i as int + 1), recursive));
                }
            },
            Root::Dir(es) => {
                collect_entries(es, recursive, &mut out);
            },
            Root::Other => {
                proof {
                    assert(out@ =~= tasks_of(roots@.subrange(0, i as int + 1), recursive));
                }
            },
        }
        i = i + 1;
    }
    proof {
        assert(roots@.subrange(0, roots@.len() as int) =~= roots@);
    }
    out
}

} // verus!

verus! {

/// Whether the entry list holds a selected entry for `id`.
pub open spec fn entry_reaches(es: Seq<WalkEntry>, recursive: bool, id: usize) -> bool {
    exists|j: int| 0 <= j < es.len() && es[j].id == id && selects(#[trigger] es[j], recursive)
}

/// Whether `id` is reached from the roots: it is a file root, or a regular
/// file within the depth limit under a directory root.
pub open spec fn reaches(roots: Seq<Root>, recursive: bool, id: usize) -> bool {
    exists|i: int|
        0 <= i < roots.len() && match #[trigger] roots[i] {
            Root::File(f) => f == id,
            Root::Dir(es) => entry_reaches(es@, recursive, id),
            Root::Other => false,
        }
}

proof fn lemma_entry_tasks_complete(es: Seq<WalkEntry>, recursive: bool, id: usize)
    ensures
        entry_tasks(es, recursive).contains(id) <==> entry_reaches(es, recursive, id),
    decreases es.len(),
{
    if es.len() > 0 {
        let prev = es.drop_last();
        lemma_entry_tasks_complete(prev, recursive, id);
        let rest = entry_tasks(prev, recursive);
        let t = entry_tasks(es, recursive);
        let n = es.len() - 1;
        if t.contains(id) {
            let k = choose|k: int| 0 <= k < t.len() && t[k] == id;
            if k < rest.len() {
                assert(rest[k] == id);
                assert(rest.contains(id));
                let j = choose|j: int| 0 <= j < prev.len() && prev[j].id == id && selects(#[trigger] prev[j], recursive);
                assert(es[j] == prev[j]);
            } else {
                assert(es[n] == es.last());
            }
        }
        if entry_reaches(es, recursive, id) {
            let j = choose|j: int| 0 <= j < es.len() && es[j].id == id && selects(#[trigger] es[j], recursive);
            if j < n {
                assert(prev[j] == es[j]);
                assert(entry_reaches(prev, recursive, id));
                let k = choose|k: int| 0 <= k < rest.len() && rest[k] == id;
                assert(t[k] == rest[k]);
            } else {
                assert(t[rest.len() as int] == id);
            }
        }
    }
}

proof fn lemma_root_tasks_complete(r: Root, recursive: bool, id: usize)
    ensures
        root_tasks(r, recursive).contains(id) <==> match r {
            Root::File(f) => f == id,
            Root::Dir(es) => entry_reaches(es@, recursive, id),
            Root::Other => false,
        },
{
    match r {
        Root::File(f) => {
            assert(root_tasks(r, recursive)[0] == f);
        },
        Root::Dir(es) => {
            lemma_entry_tasks_complete(es@, recursive, id);
        },
        Root::Other => {},
    }
}

/// Collection is complete and exact for the depth: a path is among the
/// tasks of a run if and only if it is a file root, or a regular file under
/// a directory root at depth 1 (or at any depth when the run is recursive).
/// Directories, links and deeper files of a non-recursive run never are.
pub proof fn law_depth_control(roots: Seq<Root>, recursive: bool, id: usize)
    ensures
        tasks_of(roots, recursive).contains(id) <==> reaches(roots, recursive, id),
    decreases roots.len(),
{
    if roots.len() > 0 {
        let prev = roots.drop_last();
        let n = roots.len() - 1;
        law_depth_control(prev, recursive, id);
        lemma_root_tasks_complete(roots.last(), recursive, id);
        let rest = tasks_of(prev, recursive);
        let last = root_tasks(roots.last(), recursive);
        let t = tasks_of(roots, recursive);
        assert(t == rest + last);
        if t.contains(id) {
            let k = choose|k: int| 0 <= k < t.len() && t[k] == id;
            if k < rest.len() {
                assert(rest[k] == id);
                assert(rest.contains(id));
                let i = choose|i: int|
                    0 <= i < prev.len() && match #[trigger] prev[i] {
                        Root::File(f) => f == id,
                        Root::Dir(es) => entry_reaches(es@, recursive, id),
                        Root::Other => false,
                    };
                assert(roots[i] == prev[i]);
            } else {
                assert(last[k - rest.len()] == id);
                assert(last.contains(id));
                assert(roots[n] == roots.last());
            }
        }
        if reaches(roots, recursive, id) {
            let i = choose|i: int|
                0 <= i < roots.len() && match #[trigger] roots[i] {
                    Root::File(f) => f == id,
                    Root::Dir(es) => entry_reaches(es@, recursive, id),
                    Root::Other => false,
                };
            if i < n {
                assert(prev[i] == roots[i]);
                assert(reaches(prev, recursive, id));
                let k = choose|k: int| 0 <= k < rest.len() && rest[k] == id;
                assert(t[k] == rest[k]);
            } else {
                assert(roots[i] == roots.last());
                let k = choose|k: int| 0 <= k < last.len() && last[k] == id;
                assert(t[rest.len() + k] == last[k]);
            }
        }
    }
}

/// A recursive run reaches every path that a non-recursive one does.
pub proof fn law_recursive_covers(roots: Seq<Root>, id: usize)
    ensures
        tasks_of(roots, false).contains(id) ==> tasks_of(roots, true).contains(id),
{
    law_depth_control(roots, false, id);
    law_depth_control(roots, true, id);
    if reaches(roots, false, id) {
        let i = choose|i: int|
            0 <= i < roots.len() && match #[trigger] roots[i] {
                Root::File(f) => f == id,
                Root::Dir(es) => entry_reaches(es@, false, id),
                Root::Other => false,
            };
        match roots[i] {
            Root::Dir(es) => {
                let j = choose|j: int| 0 <= j < es@.len() && es@[j].id == id && selects(#[trigger] es@[j], false);
                assert(selects(es@[j], true));
            },
            _ => {},
        }
    }
}

} // verus!
