//! Which paths the engine may touch: those below the configured roots.

use vstd::prelude::*;

use crate::storage_path::{parent_dir, PathParts, StoragePath};
use crate::text::{join2, join4, join5};

verus! {

/// The directories below which payload may be stored, each in canonical form.
#[derive(Debug)]
pub struct ServerStorageRoots {
    roots: Vec<StoragePath>,
}

/// Why a root or a path was refused. Paths are given as they are shown.
#[derive(Debug)]
pub enum StorageAuthorityError {
    NoConfiguredRoots,
    InvalidRoot { path: String, source: String },
    InvalidPath { path: String, reason: String },
    OutsideRoots { path: String, canonical_ancestor: String },
}

/// A refusal as a mathematical value.
pub enum Refusal {
    NoConfiguredRoots,
    InvalidRoot { path: Seq<char>, source: Seq<char> },
    InvalidPath { path: Seq<char>, reason: Seq<char> },
    OutsideRoots { path: Seq<char>, canonical_ancestor: Seq<char> },
}

impl View for StorageAuthorityError {
    type V = Refusal;

    open spec fn view(&self) -> Refusal {
        match self {
            StorageAuthorityError::NoConfiguredRoots => Refusal::NoConfiguredRoots,
            StorageAuthorityError::InvalidRoot { path, source } => Refusal::InvalidRoot {
                path: path@,
                source: source@,
            },
            StorageAuthorityError::InvalidPath { path, reason } => Refusal::InvalidPath {
                path: path@,
                reason: reason@,
            },
            StorageAuthorityError::OutsideRoots { path, canonical_ancestor } =>
                Refusal::OutsideRoots {
                path: path@,
                canonical_ancestor: canonical_ancestor@,
            },
        }
    }
}

/// A refusal in words.
pub open spec fn refusal_text(refusal: Refusal) -> Seq<char> {
    match refusal {
        Refusal::NoConfiguredRoots => "no configured storage roots are available for execution"@,
        Refusal::InvalidRoot { path, source } => "invalid configured storage root "@ + path + ": "@
            + source,
        Refusal::InvalidPath { path, reason } => "invalid storage path "@ + path + ": "@ + reason,
        Refusal::OutsideRoots { path, canonical_ancestor } => "storage path "@ + path
            + " resolves outside configured storage roots (ancestor "@ + canonical_ancestor + ")"@,
    }
}

impl StorageAuthorityError {
    /// The refusal in words.
    pub fn to_text(&self) -> (r: String)
        ensures
            r@ == refusal_text(self@),
    {
        match self {
            StorageAuthorityError::NoConfiguredRoots => {
                "no configured storage roots are available for execution".to_owned()
            },
            StorageAuthorityError::InvalidRoot { path, source } => join4(
                "invalid configured storage root ",
                path.as_str(),
                ": ",
                source.as_str(),
            ),
            StorageAuthorityError::InvalidPath { path, reason } => join4(
                "invalid storage path ",
                path.as_str(),
                ": ",
                reason.as_str(),
            ),
            StorageAuthorityError::OutsideRoots { path, canonical_ancestor } => join5(
                "storage path ",
                path.as_str(),
                " resolves outside configured storage roots (ancestor ",
                canonical_ancestor.as_str(),
                ")",
            ),
        }
    }
}

/// A configured root, as configured and as the filesystem resolves it.
#[derive(Debug)]
pub struct ConfiguredRoot {
    pub path: String,
    pub canonical: Result<StoragePath, String>,
}

/// The views of a list of paths.
pub open spec fn path_views(paths: Seq<StoragePath>) -> Seq<PathParts> {
    paths.map_values(|p: StoragePath| p@)
}

/// The distinct paths that the roots resolve to, in the order of their first
/// mention.
pub open spec fn distinct_roots(configured: Seq<ConfiguredRoot>) -> Seq<PathParts>
    decreases configured.len(),
{
    if configured.len() == 0 {
        seq![]
    } else {
        let before = distinct_roots(configured.drop_last());
        match configured.last().canonical {
            Ok(path) => if before.contains(path@) {
                before
            } else {
                before.push(path@)
            },
            Err(_) => before,
        }
    }
}

/// A resolved path with the text that it is shown by.
pub open spec fn shown_path(path: StoragePath) -> (PathParts, Seq<char>) {
    (path@, path.text@)
}

/// The paths of a list with their texts.
pub open spec fn shown_paths(paths: Seq<StoragePath>) -> Seq<(PathParts, Seq<char>)> {
    paths.map_values(|p: StoragePath| shown_path(p))
}

/// The resolved roots with their texts: of roots that resolve to the same path
/// the text of the first.
pub open spec fn shown_roots(configured: Seq<ConfiguredRoot>) -> Seq<(PathParts, Seq<char>)>
    decreases configured.len(),
{
    if configured.len() == 0 {
        Seq::empty()
    } else {
        let before = shown_roots(configured.drop_last());
        match configured.last().canonical {
            Ok(path) => if distinct_roots(configured.drop_last()).contains(path@) {
                before
            } else {
                before.push(shown_path(path))
            },
            Err(_) => before,
        }
    }
}

/// The first root that does not resolve.
pub open spec fn first_invalid_root(configured: Seq<ConfiguredRoot>) -> Option<Refusal>
    decreases configured.len(),
{
    if configured.len() == 0 {
        None
    } else {
        match first_invalid_root(configured.drop_last()) {
            Some(refusal) => Some(refusal),
            None => match configured.last().canonical {
                Ok(_) => None,
                Err(source) => Some(
                    Refusal::InvalidRoot { path: configured.last().path@, source: source@ },
                ),
            },
        }
    }
}

proof fn lemma_first_invalid_stays(configured: Seq<ConfiguredRoot>, n: int)
    requires
        0 <= n <= configured.len(),
        first_invalid_root(configured.take(n)) is Some,
    ensures
        first_invalid_root(configured) == first_invalid_root(configured.take(n)),
    decreases configured.len() - n,
{
    if n < configured.len() {
        assert(configured.take(n + 1).drop_last() =~= configured.take(n));
        lemma_first_invalid_stays(configured, n + 1);
    } else {
        assert(configured.take(n) =~= configured);
    }
}

impl ServerStorageRoots {
    /// The roots, in order.
    pub closed spec fn paths(&self) -> Seq<StoragePath> {
        self.roots@
    }

    /// There is a root, and no root twice.
    pub open spec fn wf(&self) -> bool {
        let roots = path_views(self.paths());
        &&& roots.len() > 0
        &&& forall|i: int, j: int| 0 <= i < j < roots.len() ==> roots[i] != roots[j]
    }

    /// Takes the roots that are configured. Each must resolve; one that
    /// resolves to the same path as an earlier one is left out.
    pub fn from_configured_paths(configured: Vec<ConfiguredRoot>) -> (r: Result<
        Self,
        StorageAuthorityError,
    >)
        ensures
            match first_invalid_root(configured@) {
                Some(refusal) => r matches Err(e) && e@ == refusal,
                None => if configured@.len() == 0 {
                    r matches Err(e) && e@ == Refusal::NoConfiguredRoots
                } else {
                    r matches Ok(roots) && path_views(roots.paths()) == distinct_roots(
                        configured@,
                    ) && shown_paths(roots.paths()) == shown_roots(configured@) && roots.wf()
                },
            },
    {
        let mut rest = configured;
        let ghost all = configured@;
        let mut roots: Vec<StoragePath> = Vec::new();
        let ghost mut n: int = 0;
        assert(all.take(0) =~= Seq::<ConfiguredRoot>::empty());
        assert(all.skip(0) =~= all);
        while rest.len() > 0
            invariant
                0 <= n <= all.len(),
                all == configured@,
                rest@ == all.skip(n),
                first_invalid_root(all.take(n)) is None,
                path_views(roots@) == distinct_roots(all.take(n)),
                shown_paths(roots@) == shown_roots(all.take(n)),
                n > 0 ==> roots@.len() > 0,
                forall|i: int, j: int|
                    0 <= i < j < roots@.len() ==> (#[trigger] roots@[i])@ != (#[trigger] roots@[j])@,
            decreases rest@.len(),
        {
            let root = rest.remove(0);
            proof {
                assert(root == all[n]);
                assert(rest@ =~= all.skip(n + 1));
                assert(all.take(n + 1).drop_last() =~= all.take(n));
                assert(all.take(n + 1).last() == all[n]);
            }
            let canonical = match root.canonical {
                Ok(path) => path,
                Err(source) => {
                    proof {
                        lemma_first_invalid_stays(all, n + 1);
                    }
                    return Err(StorageAuthorityError::InvalidRoot { path: root.path, source });
                },
            };
            let mut known = false;
            let mut i: usize = 0;
            while i < roots.len()
                invariant
                    i <= roots@.len(),
                    known <==> exists|k: int|
                        0 <= k < i && (#[trigger] roots@[k])@ == canonical@,
                decreases roots@.len() - i,
            {
                if roots[i].same_as(&canonical) {
                    known = true;
                }
                i = i + 1;
            }
            proof {
                let views = path_views(roots@);
                if known {
                    let k = choose|k: int|
                        0 <= k < roots@.len() && (#[trigger] roots@[k])@ == canonical@;
                    assert(views[k] == canonical@);
                } else if views.contains(canonical@) {
                    let k = choose|k: int| 0 <= k < views.len() && views[k] == canonical@;
                    assert(roots@[k]@ == canonical@);
                }
            }
            if !known {
                let ghost before = roots@;
                roots.push(canonical);
                assert(path_views(roots@) =~= path_views(before).push(canonical@));
                assert(shown_paths(roots@) =~= shown_paths(before).push(shown_path(canonical)));
            }
            proof {
                n = n + 1;
            }
        }
        assert(all.take(n) =~= all);
        if roots.len() == 0 {
            return Err(StorageAuthorityError::NoConfiguredRoots);
        }
        Ok(ServerStorageRoots { roots })
    }

    /// The roots, in order.
    pub fn roots(&self) -> (r: &[StoragePath])
        ensures
            r@ == self.paths(),
    {
        self.roots.as_slice()
    }

    /// The roots, in order.
    pub fn into_roots(self) -> (r: Vec<StoragePath>)
        ensures
            r@ == self.paths(),
    {
        self.roots
    }

    /// `path` is a root or lies below one.
    pub open spec fn covers(&self, path: PathParts) -> bool {
        exists|i: int| 0 <= i < self.paths().len() && path.is_under((#[trigger] self.paths()[i])@)
    }

    /// Whether `path` is a root or lies below one.
    pub fn covers_path(&self, path: &StoragePath) -> (r: bool)
        ensures
            r == self.covers(path@),
    {
        let mut i: usize = 0;
        while i < self.roots.len()
            invariant
                i <= self.roots@.len(),
                forall|k: int| 0 <= k < i ==> !path@.is_under((#[trigger] self.roots@[k])@),
            decreases self.roots@.len() - i,
        {
            if path.is_under(&self.roots[i]) {
                assert(path@.is_under(self.paths()[i as int]@));
                return true;
            }
            i = i + 1;
        }
        false
    }

    /// Why a path is refused, if it is. `existing` tells of the path and of
    /// each directory above it whether it exists, the path itself first;
    /// `canonical` is what the filesystem resolves the first existing one to.
    pub open spec fn refusal(
        &self,
        path: StoragePath,
        existing: Seq<bool>,
        canonical: Result<StoragePath, String>,
    ) -> Option<Refusal> {
        let invalid = |reason: Seq<char>| Some(Refusal::InvalidPath { path: path.text@, reason });
        if !path.absolute {
            invalid("path must be absolute"@)
        } else if path@.climbs() {
            invalid("path must not contain parent-directory components"@)
        } else if !existing.contains(true) {
            invalid("path has no existing ancestor"@)
        } else {
            match canonical {
                Err(source) => invalid("canonicalizing existing ancestor: "@ + source@),
                Ok(resolved) => if self.covers(resolved@) {
                    None
                } else {
                    Some(
                        Refusal::OutsideRoots {
                            path: path.text@,
                            canonical_ancestor: resolved.text@,
                        },
                    )
                },
            }
        }
    }

    /// Admits a path for storage. The path need not exist, but the nearest
    /// directory above it that does must resolve to a place below a root.
    pub fn authorize_path(
        &self,
        path: &StoragePath,
        existing: &[bool],
        canonical: Result<StoragePath, String>,
    ) -> (r: Result<(), StorageAuthorityError>)
        ensures
            match self.refusal(*path, existing@, canonical) {
                None => r is Ok,
                Some(refusal) => r matches Err(e) && e@ == refusal,
            },
    {
        if !path.absolute {
            return Err(
                StorageAuthorityError::InvalidPath {
                    path: path.text.clone(),
                    reason: "path must be absolute".to_owned(),
                },
            );
        }
        if path.climbs() {
            return Err(
                StorageAuthorityError::InvalidPath {
                    path: path.text.clone(),
                    reason: "path must not contain parent-directory components".to_owned(),
                },
            );
        }
        if nearest_existing(existing).is_none() {
            return Err(
                StorageAuthorityError::InvalidPath {
                    path: path.text.clone(),
                    reason: "path has no existing ancestor".to_owned(),
                },
            );
        }
        match canonical {
            Err(source) => Err(
                StorageAuthorityError::InvalidPath {
                    path: path.text.clone(),
                    reason: join2("canonicalizing existing ancestor: ", source.as_str()),
                },
            ),
            Ok(resolved) => {
                if self.covers_path(&resolved) {
                    Ok(())
                } else {
                    Err(
                        StorageAuthorityError::OutsideRoots {
                            path: path.text.clone(),
                            canonical_ancestor: resolved.text,
                        },
                    )
                }
            },
        }
    }
}

/// The first directory, from the path upwards, that exists.
pub fn nearest_existing(existing: &[bool]) -> (r: Option<usize>)
    ensures
        match r {
            Some(i) => i < existing@.len() && existing@[i as int] && (forall|k: int|
                0 <= k < i ==> !(#[trigger] existing@[k])),
            None => !existing@.contains(true),
        },
{
    let mut i: usize = 0;
    while i < existing.len()
        invariant
            i <= existing@.len(),
            forall|k: int| 0 <= k < i ==> !(#[trigger] existing@[k]),
        decreases existing@.len() - i,
    {
        if existing[i] {
            return Some(i);
        }
        i = i + 1;
    }
    None
}

/// A path that is authorized resolves to a root or below one, and nothing
/// above a root is ever authorized by it.
pub proof fn law_authorized_paths_stay_below_a_root(
    roots: ServerStorageRoots,
    path: StoragePath,
    existing: Seq<bool>,
    resolved: StoragePath,
)
    requires
        roots.wf(),
        roots.refusal(path, existing, Ok(resolved)) is None,
    ensures
        path.absolute,
        !path@.climbs(),
        exists|i: int|
            0 <= i < roots.paths().len() && resolved@.components.len() >= (
            #[trigger] roots.paths()[i])@.components.len() && resolved@.components.take(
                roots.paths()[i]@.components.len() as int,
            ) == roots.paths()[i]@.components,
{
    let i = choose|i: int|
        0 <= i < roots.paths().len() && resolved@.is_under((#[trigger] roots.paths()[i])@);
    assert(resolved@.is_under(roots.paths()[i]@));
}

/// Whatever lies below an authorized place is below a root as well.
pub proof fn law_coverage_extends_downwards(
    roots: ServerStorageRoots,
    upper: PathParts,
    lower: PathParts,
)
    requires
        roots.covers(upper),
        lower.is_under(upper),
    ensures
        roots.covers(lower),
{
    let i = choose|i: int|
        0 <= i < roots.paths().len() && upper.is_under((#[trigger] roots.paths()[i])@);
    let root = roots.paths()[i]@;
    assert(lower.components.take(root.components.len() as int) =~= lower.components.take(
        upper.components.len() as int,
    ).take(root.components.len() as int));
    assert(lower.is_under(root));
}

/// Roots are taken exactly where there is one and each of them resolves.
pub proof fn law_every_root_must_resolve(
    configured: Vec<ConfiguredRoot>,
    r: Result<ServerStorageRoots, StorageAuthorityError>,
)
    requires
        call_ensures(ServerStorageRoots::from_configured_paths, (configured,), r),
    ensures
        r is Ok <==> configured@.len() > 0 && forall|i: int|
            0 <= i < configured@.len() ==> (#[trigger] configured@[i]).canonical is Ok,
        configured@.len() == 0 ==> (r matches Err(e) && e@ is NoConfiguredRoots),
{
    lemma_first_invalid_root(configured@);
}

proof fn lemma_first_invalid_root(configured: Seq<ConfiguredRoot>)
    ensures
        first_invalid_root(configured) is None <==> forall|i: int|
            0 <= i < configured.len() ==> (#[trigger] configured[i]).canonical is Ok,
    decreases configured.len(),
{
    if configured.len() > 0 {
        let front = configured.drop_last();
        lemma_first_invalid_root(front);
        assert forall|i: int| 0 <= i < front.len() implies #[trigger] front[i]
            == configured[i] by {}
        assert(configured.last() == configured[configured.len() - 1]);
        if forall|i: int|
            0 <= i < configured.len() ==> (#[trigger] configured[i]).canonical is Ok {
            assert forall|i: int| 0 <= i < front.len() implies (
            #[trigger] front[i]).canonical is Ok by {
                assert(front[i] == configured[i]);
            }
        }
        if first_invalid_root(configured) is None {
            assert forall|i: int| 0 <= i < configured.len() implies (
            #[trigger] configured[i]).canonical is Ok by {
                if i < front.len() {
                    assert(front[i] == configured[i]);
                }
            }
        }
    }
}

/// The first root that does not resolve is told, with the reason.
pub proof fn law_first_broken_root_is_told(configured: Seq<ConfiguredRoot>, i: int)
    requires
        0 <= i < configured.len(),
        configured[i].canonical is Err,
        forall|k: int| 0 <= k < i ==> (#[trigger] configured[k]).canonical is Ok,
    ensures
        configured[i].canonical matches Err(source) ==> first_invalid_root(configured) == Some(
            (Refusal::InvalidRoot { path: configured[i].path@, source: source@ }),
        ),
{
    let before = configured.take(i);
    lemma_first_invalid_root(before);
    let upto = configured.take(i + 1);
    assert(upto.drop_last() =~= before);
    assert(upto.last() == configured[i]);
    lemma_first_invalid_stays(configured, i + 1);
}

/// The roots are the places that the configured ones resolve to, each once, the text
/// that is shown of it that of its first mention.
pub proof fn law_roots_are_kept_once(configured: Seq<ConfiguredRoot>, place: PathParts)
    ensures
        distinct_roots(configured).no_duplicates(),
        distinct_roots(configured).contains(place) <==> exists|i: int|
            0 <= i < configured.len() && ((#[trigger] configured[i]).canonical matches Ok(path)
                && path@ == place),
        shown_roots(configured).len() == distinct_roots(configured).len(),
        forall|i: int|
            0 <= i < shown_roots(configured).len() ==> (#[trigger] shown_roots(configured)[i]).0
                == distinct_roots(configured)[i],
    decreases configured.len(),
{
    if configured.len() > 0 {
        let front = configured.drop_last();
        let before = distinct_roots(front);
        let last = configured.last();
        law_roots_are_kept_once(front, place);
        assert(configured[configured.len() - 1] == last);
        let now = distinct_roots(configured);
        if last.canonical is Ok {
            law_roots_are_kept_once(front, (last.canonical->Ok_0)@);
            if !before.contains((last.canonical->Ok_0)@) {
                assert(now[before.len() as int] == (last.canonical->Ok_0)@);
                assert forall|k: int| 0 <= k < before.len() implies now[k] == #[trigger] before[k] by {}
            }
        }
        if now.contains(place) {
            let k = choose|k: int| 0 <= k < now.len() && now[k] == place;
            if k < before.len() {
                assert(before[k] == place);
                let i = choose|i: int|
                    0 <= i < front.len() && ((#[trigger] front[i]).canonical matches Ok(path)
                        && path@ == place);
                assert(configured[i] == front[i]);
            }
        }
        if exists|i: int|
            0 <= i < configured.len() && ((#[trigger] configured[i]).canonical matches Ok(path)
                && path@ == place) {
            let i = choose|i: int|
                0 <= i < configured.len() && ((#[trigger] configured[i]).canonical matches Ok(path)
                    && path@ == place);
            if i < front.len() {
                assert(front[i] == configured[i]);
                assert(before.contains(place));
                let k = choose|k: int| 0 <= k < before.len() && before[k] == place;
                assert(now[k] == place);
            }
        }
    }
}

/// A path is admitted exactly where it is absolute, leads nowhere upwards, something
/// above it exists, and that resolves to a root or below one. What is outside all
/// roots is told apart from what is no valid path.
pub proof fn law_only_places_below_a_root_are_admitted(
    roots: ServerStorageRoots,
    path: StoragePath,
    existing: Seq<bool>,
    canonical: Result<StoragePath, String>,
)
    ensures
        ({
            let sound = path.absolute && !path@.components.contains(seq![0x2eu8, 0x2eu8])
                && existing.contains(true) && canonical is Ok;
            let below = canonical matches Ok(resolved) && exists|i: int|
                0 <= i < roots.paths().len() && resolved@.absolute == (
                #[trigger] roots.paths()[i])@.absolute && roots.paths()[i]@.components.is_prefix_of(
                    resolved@.components,
                );
            &&& roots.refusal(path, existing, canonical) is None <==> sound && below
            &&& (roots.refusal(path, existing, canonical) matches Some(refusal) && refusal
                is OutsideRoots) <==> sound && !below
            &&& (roots.refusal(path, existing, canonical) matches Some(refusal) && refusal
                is InvalidPath) <==> !sound
        }),
{
    let dots = seq![0x2eu8, 0x2eu8];
    assert(parent_dir() =~= dots);
    if path@.components.contains(dots) {
        let i = choose|i: int| 0 <= i < path@.components.len() && path@.components[i] == dots;
        assert(path@.components[i] == parent_dir());
    }
    if let Ok(resolved) = canonical {
        assert forall|i: int| 0 <= i < roots.paths().len() implies resolved@.is_under(
            (#[trigger] roots.paths()[i])@,
        ) == (resolved@.absolute == roots.paths()[i]@.absolute
            && roots.paths()[i]@.components.is_prefix_of(resolved@.components)) by {
            let r = roots.paths()[i]@.components;
            if r.len() <= resolved@.components.len() {
                assert(resolved@.components.take(r.len() as int) =~= resolved@.components.subrange(
                    0,
                    r.len() as int,
                ));
            }
        }
    }
}

/// The nearest thing that exists is the first that does.
pub proof fn law_nearest_ancestor_is_the_first(existing: &[bool], r: Option<usize>)
    requires
        call_ensures(nearest_existing, (existing,), r),
    ensures
        r is None <==> !existing@.contains(true),
        r matches Some(i) ==> existing@[i as int] && !existing@.take(i as int).contains(true),
{
}

} // verus!
