//! The symlink-aware look at one path: does it exist, is it a symbolic
//! link, and does the link lead out of the repository. The facts come from
//! whoever read the file system; the judgement is made here.

use vstd::prelude::*;
use crate::path::is_absolute;
use crate::path::is_absolute_path;
use crate::path::join;
use crate::path::joined;
use crate::path::lies_under;
use crate::path::parent;
use crate::path::parent_path;
use crate::path::starts_with;
use crate::text::optional_text;

verus! {

/// What a look at a path that does not follow links found there.
#[derive(Debug, Clone, Copy, PartialEq, Eq, Structural)]
pub enum LinkStatus {
    /// Nothing could be read there: no entry, or no permission.
    Missing,
    /// An entry that is not a symbolic link.
    Entry,
    /// A symbolic link.
    Symlink,
}

/// What a path leads to once links are followed.
#[derive(Debug, Clone, Copy, PartialEq, Eq, Structural)]
pub enum TargetKind {
    /// Nothing that can be read: a missing entry, a dangling link.
    Nothing,
    /// A regular file.
    File,
    /// A directory.
    Directory,
    /// Anything else.
    Other,
}

/// The facts that reading the file system gave about one path and the
/// repository it is checked against.
#[derive(Debug, Clone)]
pub struct PathFacts {
    /// The entry itself, links not followed.
    pub status: LinkStatus,
    /// The target of the link as it is written in the link, where the path
    /// is a link and its target could be read.
    pub link_target: Option<String>,
    /// The canonical form of the repository root, where it could be had.
    pub canonical_root: Option<String>,
    /// The canonical form of the resolved link target, where it could be had
    /// (it cannot for a dangling link).
    pub canonical_target: Option<String>,
    /// What the path leads to, links followed.
    pub leads_to: TargetKind,
}

/// What [`PathFacts`] say.
#[verifier::ext_equal]
pub struct FactsView {
    pub status: LinkStatus,
    pub link_target: Option<Seq<char>>,
    pub canonical_root: Option<Seq<char>>,
    pub canonical_target: Option<Seq<char>>,
    pub leads_to: TargetKind,
}

impl View for PathFacts {
    type V = FactsView;

    open spec fn view(&self) -> FactsView {
        FactsView {
            status: self.status,
            link_target: optional_text(self.link_target),
            canonical_root: optional_text(self.canonical_root),
            canonical_target: optional_text(self.canonical_target),
            leads_to: self.leads_to,
        }
    }
}

impl FactsView {
    /// The facts about a path where nothing is.
    pub open spec fn missing() -> FactsView {
        FactsView {
            status: LinkStatus::Missing,
            link_target: None,
            canonical_root: None,
            canonical_target: None,
            leads_to: TargetKind::Nothing,
        }
    }

    /// The facts about an entry of `kind` that is no link.
    pub open spec fn plain(kind: TargetKind) -> FactsView {
        FactsView {
            status: LinkStatus::Entry,
            link_target: None,
            canonical_root: None,
            canonical_target: None,
            leads_to: kind,
        }
    }
}

impl PathFacts {
    /// The facts about a path where nothing is.
    pub fn missing() -> (facts: Self)
        ensures
            facts@ == FactsView::missing(),
    {
        PathFacts {
            status: LinkStatus::Missing,
            link_target: None,
            canonical_root: None,
            canonical_target: None,
            leads_to: TargetKind::Nothing,
        }
    }

    /// The facts about a regular file that is no link.
    pub fn file() -> (facts: Self)
        ensures
            facts@ == FactsView::plain(TargetKind::File),
    {
        PathFacts {
            status: LinkStatus::Entry,
            link_target: None,
            canonical_root: None,
            canonical_target: None,
            leads_to: TargetKind::File,
        }
    }

    /// The facts about a directory that is no link.
    pub fn directory() -> (facts: Self)
        ensures
            facts@ == FactsView::plain(TargetKind::Directory),
    {
        PathFacts {
            status: LinkStatus::Entry,
            link_target: None,
            canonical_root: None,
            canonical_target: None,
            leads_to: TargetKind::Directory,
        }
    }

    /// The same facts, in a value of their own.
    pub fn duplicate(&self) -> (facts: Self)
        ensures
            facts@ == self@,
    {
        PathFacts {
            status: self.status,
            link_target: duplicate_text(&self.link_target),
            canonical_root: duplicate_text(&self.canonical_root),
            canonical_target: duplicate_text(&self.canonical_target),
            leads_to: self.leads_to,
        }
    }
}

fn duplicate_text(text: &Option<String>) -> (copy: Option<String>)
    ensures
        optional_text(copy) == optional_text(*text),
{
    match text {
        Some(text) => Some(text.clone()),
        None => None,
    }
}

/// The result of one symlink-aware inspection of a path.
#[derive(Debug, Clone)]
pub struct PathCheckResult {
    /// Something is at the path, be it a link.
    pub exists: bool,
    /// It is a symbolic link.
    pub is_symlink: bool,
    /// It is a link whose target lies outside the repository.
    pub escapes_repo: bool,
    /// The resolved target of the link, before canonicalisation.
    pub target: Option<String>,
}

/// What a [`PathCheckResult`] says.
#[verifier::ext_equal]
pub struct PathCheckView {
    pub exists: bool,
    pub is_symlink: bool,
    pub escapes_repo: bool,
    pub target: Option<Seq<char>>,
}

impl View for PathCheckResult {
    type V = PathCheckView;

    open spec fn view(&self) -> PathCheckView {
        PathCheckView {
            exists: self.exists,
            is_symlink: self.is_symlink,
            escapes_repo: self.escapes_repo,
            target: optional_text(self.target),
        }
    }
}

/// Where a link at `path` with the written target `target` points: an
/// absolute target as it is, a relative one from the directory that holds
/// the link.
pub open spec fn resolved_target(path: Seq<char>, target: Seq<char>) -> Seq<char> {
    if is_absolute_path(target) {
        target
    } else {
        match parent_path(path) {
            Some(dir) => joined(dir, target),
            None => target,
        }
    }
}

/// The path that stands for the link's target in the boundary test: its
/// canonical form, or the resolved target where that could not be had.
pub open spec fn compared_target(path: Seq<char>, target: Seq<char>, facts: FactsView) -> Seq<
    char,
> {
    match facts.canonical_target {
        Some(canonical) => canonical,
        None => resolved_target(path, target),
    }
}

/// The path that stands for the repository in the boundary test: its
/// canonical form, or the root as given where that could not be had.
pub open spec fn compared_root(repo_root: Seq<char>, facts: FactsView) -> Seq<char> {
    match facts.canonical_root {
        Some(canonical) => canonical,
        None => repo_root,
    }
}

/// What the inspection of `path` finds, given the facts read about it.
///
/// A path of which nothing could be read does not exist. An entry that is
/// no link exists and nothing more. A link whose target could not be read
/// is a link that is not held to escape: what cannot be determined is not
/// flagged, which is the lenient choice of the two. Any other link escapes
/// exactly when its target, compared by [`compared_target`], does not lie
/// under the repository, compared by [`compared_root`].
pub open spec fn inspection(path: Seq<char>, repo_root: Seq<char>, facts: FactsView)
    -> PathCheckView {
    match facts.status {
        LinkStatus::Missing => PathCheckView {
            exists: false,
            is_symlink: false,
            escapes_repo: false,
            target: None,
        },
        LinkStatus::Entry => PathCheckView {
            exists: true,
            is_symlink: false,
            escapes_repo: false,
            target: None,
        },
        LinkStatus::Symlink => match facts.link_target {
            None => PathCheckView {
                exists: true,
                is_symlink: true,
                escapes_repo: false,
                target: None,
            },
            Some(target) => PathCheckView {
                exists: true,
                is_symlink: true,
                escapes_repo: !lies_under(
                    compared_target(path, target, facts),
                    compared_root(repo_root, facts),
                ),
                target: Some(resolved_target(path, target)),
            },
        },
    }
}

/// Where a link at `path` with the written target `target` points, before
/// canonicalisation.
pub fn resolve_link_target(path: &str, target: &str) -> (resolved: String)
    ensures
        resolved@ == resolved_target(path@, target@),
{
    if is_absolute(target) {
        target.to_owned()
    } else {
        match parent(path) {
            Some(dir) => join(dir.as_str(), target),
            None => target.to_owned(),
        }
    }
}

/// Check if a path is a symlink and if it escapes the repository root.
pub fn check_path_security(path: &str, repo_root: &str, facts: &PathFacts) -> (result:
    PathCheckResult)
    ensures
        result@ == inspection(path@, repo_root@, facts@),
{
    match facts.status {
        LinkStatus::Missing => PathCheckResult {
            exists: false,
            is_symlink: false,
            escapes_repo: false,
            target: None,
        },
        LinkStatus::Entry => PathCheckResult {
            exists: true,
            is_symlink: false,
            escapes_repo: false,
            target: None,
        },
        LinkStatus::Symlink => match &facts.link_target {
            None => PathCheckResult {
                exists: true,
                is_symlink: true,
                escapes_repo: false,
                target: None,
            },
            Some(target) => {
                let resolved = resolve_link_target(path, target.as_str());
                let inside = match &facts.canonical_target {
                    Some(canonical) => within_root(canonical.as_str(), repo_root, facts),
                    None => within_root(resolved.as_str(), repo_root, facts),
                };
                PathCheckResult {
                    exists: true,
                    is_symlink: true,
                    escapes_repo: !inside,
                    target: Some(resolved),
                }
            },
        },
    }
}

fn within_root(target: &str, repo_root: &str, facts: &PathFacts) -> (inside: bool)
    ensures
        inside == lies_under(target@, compared_root(repo_root@, facts@)),
{
    match &facts.canonical_root {
        Some(canonical) => starts_with(target, canonical.as_str()),
        None => starts_with(target, repo_root),
    }
}

} // verus!
