//! The copy engine: what to do to copy a bundle directory under a
//! destination root, and a model of the directory tree in which the
//! engine's guarantees are stated and proved.
//!
//! The caller probes the disk, asks `plan_copy` for the steps, and performs
//! them in order, stopping at the first that fails.

use vstd::prelude::*;
use crate::location::{base_name, base_name_of, join, joined};

verus! {

#[derive(Clone, Debug)]
pub enum SaveManagerError {
    /// The destination directory exists and overwriting was not allowed.
    SaveExists,
    /// A filesystem operation failed; the text says why.
    IOError(String),
    /// Copying the directory's contents failed; the text says why.
    FsExtraError(String),
}

/// One filesystem operation of a copy.
#[derive(PartialEq, Eq, Structural, Clone, Copy, Debug)]
pub enum CopyStep {
    /// Create the destination root and its parents.
    CreateRoot,
    /// Remove the destination directory and all it holds.
    RemoveDestination,
    /// Create the empty destination directory.
    CreateDestination,
    /// Copy every file and directory of the source into the destination.
    CopyContents,
}

/// The steps that copy a directory under a root, given whether the root and
/// the destination directory exist; `SaveExists` where the destination
/// exists and may not be overwritten.
pub open spec fn copy_plan(overwrite: bool, root_exists: bool, destination_exists: bool) -> Result<
    Seq<CopyStep>,
    SaveManagerError,
> {
    if destination_exists && !overwrite {
        Err(SaveManagerError::SaveExists)
    } else {
        let create_root = if root_exists {
            Seq::empty()
        } else {
            seq![CopyStep::CreateRoot]
        };
        let remove = if destination_exists {
            seq![CopyStep::RemoveDestination]
        } else {
            Seq::empty()
        };
        Ok(create_root + remove + seq![CopyStep::CreateDestination, CopyStep::CopyContents])
    }
}

/// The directory that copying `source` under `destination_root` creates.
pub open spec fn destination_of(source: Seq<char>, destination_root: Seq<char>) -> Option<Seq<char>> {
    match base_name(source) {
        Some(name) => Some(joined(destination_root, name)),
        None => None,
    }
}

/// The directory that copying `source` under `destination_root` creates:
/// the root joined with the source's name; none where the source has no
/// name.
pub fn destination_dir(source: &str, destination_root: &str) -> (r: Option<String>)
    ensures
        match destination_of(source@, destination_root@) {
            Some(d) => r matches Some(s) && s@ == d,
            None => r is None,
        },
{
    match base_name_of(source) {
        Some(name) => Some(join(destination_root, name.as_str())),
        None => None,
    }
}

/// The steps of a copy, as `copy_plan` states them.
pub fn plan_copy(overwrite: bool, root_exists: bool, destination_exists: bool) -> (r: Result<
    Vec<CopyStep>,
    SaveManagerError,
>)
    ensures
        match copy_plan(overwrite, root_exists, destination_exists) {
            Ok(steps) => r matches Ok(v) && v@ == steps,
            Err(e) => r == Err::<Vec<CopyStep>, SaveManagerError>(e),
        },
{
    if destination_exists && !overwrite {
        return Err(SaveManagerError::SaveExists);
    }
    let mut steps: Vec<CopyStep> = Vec::new();
    if !root_exists {
        steps.push(CopyStep::CreateRoot);
    }
    if destination_exists {
        steps.push(CopyStep::RemoveDestination);
    }
    steps.push(CopyStep::CreateDestination);
    steps.push(CopyStep::CopyContents);
    proof {
        let create_root = if root_exists {
            Seq::empty()
        } else {
            seq![CopyStep::CreateRoot]
        };
        let remove = if destination_exists {
            seq![CopyStep::RemoveDestination]
        } else {
            Seq::<CopyStep>::empty()
        };
        assert(steps@ =~= create_root + remove + seq![
            CopyStep::CreateDestination,
            CopyStep::CopyContents,
        ]);
    }
    Ok(steps)
}

/// The first candidate that was found to be an existing directory.
pub open spec fn first_existing(candidates: Seq<(String, bool)>) -> Option<Seq<char>>
    decreases candidates.len(),
{
    if candidates.len() == 0 {
        None
    } else if candidates[0].1 {
        Some(candidates[0].0@)
    } else {
        first_existing(candidates.drop_first())
    }
}

/// The first path that exists and is a directory, given each candidate path
/// with whether it is one; none where no candidate is.
pub fn first_existing_dir(candidates: Vec<(String, bool)>) -> (r: Option<String>)
    ensures
        match first_existing(candidates@) {
            Some(p) => r matches Some(s) && s@ == p,
            None => r is None,
        },
{
    let mut i: usize = 0;
    assert(candidates@.skip(0) =~= candidates@);
    while i < candidates.len()
        invariant
            i <= candidates@.len(),
            first_existing(candidates@) == first_existing(candidates@.skip(i as int)),
        decreases candidates@.len() - i,
    {
        assert(candidates@.skip(i as int).drop_first() =~= candidates@.skip(i + 1));
        if candidates[i].1 {
            return Some(candidates[i].0.clone());
        }
        i = i + 1;
    }
    None
}

// The model. A directory tree maps the path of each entry below its top,
// as the sequence of names leading to it, to what the entry is.

pub enum Node {
    File(Seq<u8>),
    Dir,
}

/// The destination root of a copy and everything below it.
pub struct RootModel {
    pub exists: bool,
    pub entries: Map<Seq<Seq<char>>, Node>,
}

/// Every entry sits in a directory that is there too.
pub open spec fn wf_tree(t: Map<Seq<Seq<char>>, Node>) -> bool {
    forall|k: Seq<Seq<char>>|
        #![trigger t.contains_key(k)]
        t.contains_key(k) ==> k.len() > 0 && forall|j: int|
            1 <= j < k.len() ==> t.contains_key(k.subrange(0, j)) && t[k.subrange(0, j)] is Dir
}

pub open spec fn under(k: Seq<Seq<char>>, name: Seq<char>) -> bool {
    k.len() > 0 && k[0] == name
}

/// What the directory `name` of a tree holds, by path below it.
pub open spec fn subtree(t: Map<Seq<Seq<char>>, Node>, name: Seq<char>) -> Map<Seq<Seq<char>>, Node> {
    Map::new(
        |p: Seq<Seq<char>>| p.len() > 0 && t.contains_key(seq![name] + p),
        |p: Seq<Seq<char>>| t[seq![name] + p],
    )
}

/// What one step does to the root, copying `source` to the directory `name`.
pub open spec fn apply_step(
    root: RootModel,
    name: Seq<char>,
    source: Map<Seq<Seq<char>>, Node>,
    step: CopyStep,
) -> RootModel {
    match step {
        CopyStep::CreateRoot => RootModel { exists: true, entries: root.entries },
        CopyStep::RemoveDestination => RootModel {
            exists: root.exists,
            entries: root.entries.restrict(
                root.entries.dom().filter(|k: Seq<Seq<char>>| !under(k, name)),
            ),
        },
        CopyStep::CreateDestination => RootModel {
            exists: true,
            entries: root.entries.insert(seq![name], Node::Dir),
        },
        CopyStep::CopyContents => RootModel {
            exists: root.exists,
            entries: root.entries.union_prefer_right(
                Map::new(
                    |k: Seq<Seq<char>>| under(k, name) && source.contains_key(k.drop_first()),
                    |k: Seq<Seq<char>>| source[k.drop_first()],
                ),
            ),
        },
    }
}

pub open spec fn apply_steps(
    root: RootModel,
    name: Seq<char>,
    source: Map<Seq<Seq<char>>, Node>,
    steps: Seq<CopyStep>,
) -> RootModel
    decreases steps.len(),
{
    if steps.len() == 0 {
        root
    } else {
        apply_steps(apply_step(root, name, source, steps[0]), name, source, steps.drop_first())
    }
}

/// The root after copying `source` to its directory `name`, with every step
/// succeeding, and what the copy returns.
pub open spec fn copy_effect(
    root: RootModel,
    name: Seq<char>,
    source: Map<Seq<Seq<char>>, Node>,
    overwrite: bool,
) -> (RootModel, Result<(), SaveManagerError>) {
    match copy_plan(overwrite, root.exists, root.entries.contains_key(seq![name])) {
        Err(e) => (root, Err(e)),
        Ok(steps) => (apply_steps(root, name, source, steps), Ok(())),
    }
}

/// Whatever lies under `name`, the directory `name` itself is there.
pub open spec fn destination_consistent(t: Map<Seq<Seq<char>>, Node>, name: Seq<char>) -> bool {
    forall|k: Seq<Seq<char>>|
        #![trigger t.contains_key(k)]
        t.contains_key(k) && under(k, name) ==> t.contains_key(seq![name])
}

proof fn lemma_wf_tree_consistent(t: Map<Seq<Seq<char>>, Node>, name: Seq<char>)
    requires
        wf_tree(t),
    ensures
        destination_consistent(t, name),
{
    assert forall|k: Seq<Seq<char>>| t.contains_key(k) && under(k, name) implies t.contains_key(
        seq![name],
    ) by {
        if k.len() > 1 {
            assert(t.contains_key(k.subrange(0, 1)));
            assert(k.subrange(0, 1) =~= seq![name]);
        } else {
            assert(k =~= seq![name]);
        }
    }
}

proof fn lemma_copy_over(
    root: RootModel,
    name: Seq<char>,
    source: Map<Seq<Seq<char>>, Node>,
)
    requires
        destination_consistent(root.entries, name),
    ensures
        copy_effect(root, name, source, true).1 is Ok,
        subtree(copy_effect(root, name, source, true).0.entries, name) =~= source.restrict(
            source.dom().filter(|p: Seq<Seq<char>>| p.len() > 0),
        ),
        copy_effect(root, name, source, true).0.entries.contains_key(seq![name]),
{
    let exists = root.entries.contains_key(seq![name]);
    let steps = copy_plan(true, root.exists, exists)->Ok_0;
    let r0 = if root.exists {
        root
    } else {
        apply_step(root, name, source, CopyStep::CreateRoot)
    };
    let r1 = if exists {
        apply_step(r0, name, source, CopyStep::RemoveDestination)
    } else {
        r0
    };
    let r2 = apply_step(r1, name, source, CopyStep::CreateDestination);
    let r3 = apply_step(r2, name, source, CopyStep::CopyContents);
    let tail = seq![CopyStep::CreateDestination, CopyStep::CopyContents];
    assert(apply_steps(r1, name, source, tail) == r3) by {
        let last = seq![CopyStep::CopyContents];
        assert(tail.drop_first() =~= last);
        assert(last.drop_first() =~= Seq::<CopyStep>::empty());
        assert(apply_steps(r3, name, source, Seq::<CopyStep>::empty()) == r3);
        assert(apply_steps(r2, name, source, last) == r3);
    }
    let remove = if exists {
        seq![CopyStep::RemoveDestination]
    } else {
        Seq::<CopyStep>::empty()
    };
    assert(apply_steps(r0, name, source, remove + tail) == r3) by {
        if exists {
            assert((remove + tail).drop_first() =~= tail);
        } else {
            assert(remove + tail =~= tail);
        }
    }
    assert(apply_steps(root, name, source, steps) == r3) by {
        if root.exists {
            assert(steps =~= remove + tail);
        } else {
            assert(steps.drop_first() =~= remove + tail);
        }
    }
    // Nothing lies under `name` once the destination is cleared.
    assert forall|k: Seq<Seq<char>>| r1.entries.contains_key(k) implies !under(k, name) by {
        if !exists && under(k, name) {
            assert(root.entries.contains_key(k));
        }
    }
    let expected = source.restrict(source.dom().filter(|p: Seq<Seq<char>>| p.len() > 0));
    let got = subtree(r3.entries, name);
    assert forall|p: Seq<Seq<char>>| got.contains_key(p) <==> expected.contains_key(p) by {
        let k = seq![name] + p;
        assert(k.drop_first() =~= p);
        assert(under(k, name));
        assert(!r1.entries.contains_key(k));
        if p.len() > 0 {
            assert(k != seq![name]);
        }
    }
    assert forall|p: Seq<Seq<char>>| got.contains_key(p) implies got[p] == expected[p] by {
        let k = seq![name] + p;
        assert(k.drop_first() =~= p);
    }
}

/// Copying without overwrite onto an existing destination fails with
/// `SaveExists` and leaves the root, and so the destination, as it was.
pub proof fn lemma_copy_without_overwrite_keeps_destination(
    root: RootModel,
    name: Seq<char>,
    source: Map<Seq<Seq<char>>, Node>,
)
    requires
        root.entries.contains_key(seq![name]),
    ensures
        copy_effect(root, name, source, false) == (
        root,
        Err::<(), SaveManagerError>(SaveManagerError::SaveExists),
        ),
{
}

/// Copying with overwrite succeeds, and the destination directory then
/// holds exactly what the source holds, whatever it held before.
pub proof fn lemma_copy_with_overwrite_replaces_destination(
    root: RootModel,
    name: Seq<char>,
    source: Map<Seq<Seq<char>>, Node>,
)
    requires
        wf_tree(root.entries),
        wf_tree(source),
    ensures
        copy_effect(root, name, source, true).1 is Ok,
        subtree(copy_effect(root, name, source, true).0.entries, name) == source,
{
    lemma_wf_tree_consistent(root.entries, name);
    lemma_copy_over(root, name, source);
    assert(source.restrict(source.dom().filter(|p: Seq<Seq<char>>| p.len() > 0)) =~= source);
}

/// Backing up the same directory twice in a row leaves the same backup as
/// backing it up once.
pub proof fn lemma_backup_twice_same_as_once(
    root: RootModel,
    name: Seq<char>,
    source: Map<Seq<Seq<char>>, Node>,
)
    requires
        wf_tree(root.entries),
        wf_tree(source),
    ensures
        subtree(
            copy_effect(copy_effect(root, name, source, true).0, name, source, true).0.entries,
            name,
        ) == subtree(copy_effect(root, name, source, true).0.entries, name),
{
    let once = copy_effect(root, name, source, true).0;
    lemma_wf_tree_consistent(root.entries, name);
    lemma_copy_over(root, name, source);
    lemma_copy_over(once, name, source);
}

} // verus!
