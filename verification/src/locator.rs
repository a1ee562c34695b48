//! Where the managed application lives.
//!
//! The root of the application is the first directory, in a fixed search
//! order, that holds the manifest file: the bundled-resource directory when
//! the host names one, then the directories above the running executable up
//! to a fixed number of levels, then the working directory. Without a
//! readable executable path the search ends after the bundled-resource
//! directory.

use crate::path::{path_views, FsPath, PathModel};
use vstd::prelude::*;

verus! {

/// How many directories above the executable are searched.
pub const MAX_WALK_DEPTH: usize = 5;

/// Where a search starts from, as path models.
pub struct ContextModel {
    pub bundled_hint: Option<PathModel>,
    pub executable: Option<PathModel>,
    pub working_dir: Option<PathModel>,
}

/// What the host knows when the search starts. Each entry is `None` where
/// the host could not find it out.
#[derive(Debug)]
pub struct SearchContext {
    /// The directory of bundled resources, in a packaged deployment.
    pub bundled_hint: Option<FsPath>,
    /// The path of the running executable.
    pub executable: Option<FsPath>,
    /// The working directory of the process.
    pub working_dir: Option<FsPath>,
}

/// The model of an optional path.
pub open spec fn optional_path(path: Option<FsPath>) -> Option<PathModel> {
    match path {
        Some(path) => Some(path@),
        None => None,
    }
}

impl View for SearchContext {
    type V = ContextModel;

    open spec fn view(&self) -> ContextModel {
        ContextModel {
            bundled_hint: optional_path(self.bundled_hint),
            executable: optional_path(self.executable),
            working_dir: optional_path(self.working_dir),
        }
    }
}

/// The directories above `executable`, nearest first: its own directory,
/// then that directory's parent, and so on for `depth` levels. Above the
/// topmost directory the walk stays where it is.
pub open spec fn walk(executable: PathModel, depth: nat) -> Seq<PathModel> {
    Seq::new(depth, |level: int| executable.ancestor((level + 1) as nat))
}

/// One candidate, or none.
pub open spec fn optional_candidate(path: Option<PathModel>) -> Seq<PathModel> {
    match path {
        Some(path) => seq![path],
        None => Seq::empty(),
    }
}

/// The directories to search, in search order.
pub open spec fn candidates(context: ContextModel) -> Seq<PathModel> {
    match context.executable {
        Some(executable) => optional_candidate(context.bundled_hint) + walk(
            executable,
            MAX_WALK_DEPTH as nat,
        ) + optional_candidate(context.working_dir),
        None => optional_candidate(context.bundled_hint),
    }
}

/// The first of `candidates` that `layout` holds. A layout is the set of
/// directories in which the manifest file exists.
pub open spec fn first_match(candidates: Seq<PathModel>, layout: Set<PathModel>) -> Option<
    PathModel,
>
    decreases candidates.len(),
{
    if candidates.len() == 0 {
        None
    } else if layout.contains(candidates[0]) {
        Some(candidates[0])
    } else {
        first_match(candidates.skip(1), layout)
    }
}

/// The root that a search from `context` finds in `layout`.
pub open spec fn resolve(context: ContextModel, layout: Set<PathModel>) -> Option<PathModel> {
    first_match(candidates(context), layout)
}

/// The directories to search, in search order.
pub fn search_plan(context: &SearchContext) -> (plan: Vec<FsPath>)
    ensures
        path_views(plan@) == candidates(context@),
{
    let mut plan: Vec<FsPath> = Vec::new();
    assert(path_views(plan@) =~= Seq::<PathModel>::empty());
    match &context.bundled_hint {
        Some(hint) => {
            plan.push(hint.clone());
            assert(path_views(plan@) =~= seq![hint@]);
        },
        None => {},
    }
    match &context.executable {
        Some(executable) => {
            let ghost hinted = path_views(plan@);
            let mut current = executable.clone();
            let mut level: usize = 0;
            assert(path_views(plan@) =~= hinted + walk(executable@, 0));
            while level < MAX_WALK_DEPTH
                invariant
                    level <= MAX_WALK_DEPTH,
                    current@ == executable@.ancestor(level as nat),
                    path_views(plan@) == hinted + walk(executable@, level as nat),
                decreases MAX_WALK_DEPTH - level,
            {
                let ghost searched = path_views(plan@);
                current.pop();
                plan.push(current.clone());
                level += 1;
                proof {
                    assert(current@ == executable@.ancestor(level as nat));
                    assert(path_views(plan@) =~= searched.push(current@));
                    assert(walk(executable@, level as nat) =~= walk(
                        executable@,
                        (level - 1) as nat,
                    ).push(current@));
                    assert(path_views(plan@) =~= hinted + walk(executable@, level as nat));
                }
            }
            match &context.working_dir {
                Some(dir) => {
                    let ghost walked = path_views(plan@);
                    plan.push(dir.clone());
                    assert(path_views(plan@) =~= walked + seq![dir@]);
                },
                None => {
                    assert(path_views(plan@) =~= path_views(plan@) + Seq::<PathModel>::empty());
                },
            }
        },
        None => {},
    }
    plan
}

/// Whether `dirs` lists `path`.
pub fn lists_path(dirs: &Vec<FsPath>, path: &FsPath) -> (listed: bool)
    ensures
        listed == path_views(dirs@).to_set().contains(path@),
{
    let mut i: usize = 0;
    while i < dirs.len()
        invariant
            i <= dirs.len(),
            forall|j: int| 0 <= j < i ==> dirs@[j]@ != path@,
        decreases dirs.len() - i,
    {
        if dirs[i].same_as(path) {
            assert(path_views(dirs@)[i as int] == path@);
            return true;
        }
        i += 1;
    }
    assert forall|j: int| 0 <= j < path_views(dirs@).len() implies path_views(dirs@)[j]
        != path@ by {
        assert(path_views(dirs@)[j] == dirs@[j]@);
    }
    false
}

/// The root that a search from `context` finds when exactly the directories
/// in `manifest_dirs` hold the manifest file.
pub fn resolve_in(context: &SearchContext, manifest_dirs: &Vec<FsPath>) -> (root: Option<FsPath>)
    ensures
        optional_path(root) == resolve(context@, path_views(manifest_dirs@).to_set()),
{
    let plan = search_plan(context);
    let ghost layout = path_views(manifest_dirs@).to_set();
    let ghost all = path_views(plan@);
    let mut i: usize = 0;
    assert(all.skip(0) =~= all);
    while i < plan.len()
        invariant
            i <= plan.len(),
            all == path_views(plan@),
            all == candidates(context@),
            layout == path_views(manifest_dirs@).to_set(),
            first_match(all, layout) == first_match(all.skip(i as int), layout),
        decreases plan.len() - i,
    {
        proof {
            assert(all.skip(i as int)[0] == plan@[i as int]@);
            assert(all.skip(i as int).skip(1) =~= all.skip(i + 1));
        }
        if lists_path(manifest_dirs, &plan[i]) {
            let root = plan[i].clone();
            assert(first_match(all.skip(i as int), layout) == Some(root@));
            return Some(root);
        }
        i += 1;
    }
    assert(all.skip(i as int) =~= Seq::<PathModel>::empty());
    None
}

/// A candidate that the layout holds, with none before it that the layout
/// holds, is what the search finds.
pub proof fn lemma_first_match_at(candidates: Seq<PathModel>, layout: Set<PathModel>, index: int)
    requires
        0 <= index < candidates.len(),
        layout.contains(candidates[index]),
        forall|j: int| 0 <= j < index ==> !layout.contains(#[trigger] candidates[j]),
    ensures
        first_match(candidates, layout) == Some(candidates[index]),
    decreases index,
{
    if index > 0 {
        let rest = candidates.skip(1);
        assert(rest[index - 1] == candidates[index]);
        assert forall|j: int| 0 <= j < index - 1 implies !layout.contains(#[trigger] rest[j]) by {
            assert(rest[j] == candidates[j + 1]);
        }
        lemma_first_match_at(rest, layout, index - 1);
    }
}

/// Where the layout holds no candidate, the search finds nothing.
pub proof fn lemma_first_match_none(candidates: Seq<PathModel>, layout: Set<PathModel>)
    requires
        forall|j: int| 0 <= j < candidates.len() ==> !layout.contains(#[trigger] candidates[j]),
    ensures
        first_match(candidates, layout) is None,
    decreases candidates.len(),
{
    if candidates.len() > 0 {
        let rest = candidates.skip(1);
        assert forall|j: int| 0 <= j < rest.len() implies !layout.contains(#[trigger] rest[j]) by {
            assert(rest[j] == candidates[j + 1]);
        }
        lemma_first_match_none(rest, layout);
    }
}

/// What the search finds is a candidate that the layout holds, and the
/// layout holds no candidate before it; it finds nothing only where the
/// layout holds no candidate.
pub proof fn law_first_match_is_first(candidates: Seq<PathModel>, layout: Set<PathModel>)
    ensures
        match first_match(candidates, layout) {
            Some(found) => exists|index: int|
                0 <= index < candidates.len() && #[trigger] candidates[index] == found
                    && layout.contains(found) && forall|j: int|
                    0 <= j < index ==> !layout.contains(#[trigger] candidates[j]),
            None => forall|j: int|
                0 <= j < candidates.len() ==> !layout.contains(#[trigger] candidates[j]),
        },
    decreases candidates.len(),
{
    if candidates.len() > 0 && !layout.contains(candidates[0]) {
        let rest = candidates.skip(1);
        law_first_match_is_first(rest, layout);
        match first_match(rest, layout) {
            Some(found) => {
                let k = choose|index: int|
                    0 <= index < rest.len() && #[trigger] rest[index] == found && layout.contains(
                        found,
                    ) && forall|j: int| 0 <= j < index ==> !layout.contains(#[trigger] rest[j]);
                assert(candidates[k + 1] == found);
                assert forall|j: int| 0 <= j < k + 1 implies !layout.contains(
                    #[trigger] candidates[j],
                ) by {
                    if j > 0 {
                        assert(rest[j - 1] == candidates[j]);
                    }
                }
            },
            None => {
                assert forall|j: int| 0 <= j < candidates.len() implies !layout.contains(
                    #[trigger] candidates[j],
                ) by {
                    if j > 0 {
                        assert(rest[j - 1] == candidates[j]);
                    }
                }
            },
        }
    } else if candidates.len() > 0 {
        assert(candidates[0] == candidates[0]);
    }
}

/// A bundled-resource directory that holds the manifest is the root,
/// whatever the executable path and the working directory are, and whatever
/// else the layout holds.
pub proof fn law_hint_wins(context: ContextModel, layout: Set<PathModel>)
    requires
        context.bundled_hint is Some,
        layout.contains(context.bundled_hint->Some_0),
    ensures
        resolve(context, layout) == context.bundled_hint,
{
    let all = candidates(context);
    assert(all[0] == context.bundled_hint->Some_0);
}

/// Where the bundled-resource directory does not decide, the root is the
/// nearest directory above the executable that holds the manifest, provided
/// it lies within the searched levels.
pub proof fn law_walk_finds_nearest(context: ContextModel, layout: Set<PathModel>, levels: nat)
    requires
        context.bundled_hint is Some ==> !layout.contains(context.bundled_hint->Some_0),
        context.executable is Some,
        1 <= levels <= MAX_WALK_DEPTH,
        layout.contains(context.executable->Some_0.ancestor(levels)),
        forall|nearer: nat|
            1 <= nearer < levels ==> !layout.contains(
                #[trigger] context.executable->Some_0.ancestor(nearer),
            ),
    ensures
        resolve(context, layout) == Some(context.executable->Some_0.ancestor(levels)),
{
    let all = candidates(context);
    let executable = context.executable->Some_0;
    let offset = optional_candidate(context.bundled_hint).len() as int;
    let index = offset + levels - 1;
    assert(all[index] == executable.ancestor(levels));
    assert forall|j: int| 0 <= j < index implies !layout.contains(#[trigger] all[j]) by {
        if j >= offset {
            assert(all[j] == executable.ancestor((j - offset + 1) as nat));
        }
    }
    lemma_first_match_at(all, layout, index);
}

/// Where no searched directory holds the manifest, there is no root: a
/// manifest that lies only beyond the searched levels is not found.
pub proof fn law_beyond_bound_not_found(context: ContextModel, layout: Set<PathModel>)
    requires
        context.bundled_hint is Some ==> !layout.contains(context.bundled_hint->Some_0),
        context.working_dir is Some ==> !layout.contains(context.working_dir->Some_0),
        context.executable is Some ==> forall|levels: nat|
            1 <= levels <= MAX_WALK_DEPTH ==> !layout.contains(
                #[trigger] context.executable->Some_0.ancestor(levels),
            ),
    ensures
        resolve(context, layout) is None,
{
    let all = candidates(context);
    let offset = optional_candidate(context.bundled_hint).len() as int;
    assert forall|j: int| 0 <= j < all.len() implies !layout.contains(#[trigger] all[j]) by {
        if context.executable is Some {
            let executable = context.executable->Some_0;
            if offset <= j < offset + MAX_WALK_DEPTH {
                assert(all[j] == executable.ancestor((j - offset + 1) as nat));
            }
        }
    }
    lemma_first_match_none(all, layout);
}

/// Without a readable executable path only the bundled-resource directory
/// is searched.
pub proof fn law_missing_executable(context: ContextModel, layout: Set<PathModel>)
    requires
        context.executable is None,
    ensures
        resolve(context, layout) == match context.bundled_hint {
            Some(hint) => if layout.contains(hint) {
                Some(hint)
            } else {
                None
            },
            None => None,
        },
{
    let all = candidates(context);
    if all.len() > 0 {
        assert(all[0] == context.bundled_hint->Some_0);
        assert(all.skip(1) =~= Seq::<PathModel>::empty());
        assert(first_match(all.skip(1), layout) is None);
    }
}

} // verus!
