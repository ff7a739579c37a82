//! Filesystem paths as plain values.

use vstd::prelude::*;

verus! {

/// A path, one component after another. The parent directory is written with
/// two dots, as it is in the filesystem.
#[derive(Debug)]
pub struct StoragePath {
    pub absolute: bool,
    pub components: Vec<Vec<u8>>,
    /// The path as it is shown to people.
    pub text: String,
}

/// What tells two paths apart.
pub struct PathParts {
    pub absolute: bool,
    pub components: Seq<Seq<u8>>,
}

impl View for StoragePath {
    type V = PathParts;

    open spec fn view(&self) -> PathParts {
        PathParts { absolute: self.absolute, components: component_views(self.components@) }
    }
}

/// The components of a path as byte sequences.
pub open spec fn component_views(components: Seq<Vec<u8>>) -> Seq<Seq<u8>> {
    components.map_values(|c: Vec<u8>| c@)
}

/// The component that leads to the parent directory.
pub open spec fn parent_dir() -> Seq<u8> {
    seq![0x2eu8, 0x2eu8]
}

impl PathParts {
    /// Some component leads out of the directory before it.
    pub open spec fn climbs(self) -> bool {
        exists|i: int| 0 <= i < self.components.len() && #[trigger] self.components[i]
            == parent_dir()
    }

    /// This path is `root` or lies below it.
    pub open spec fn is_under(self, root: PathParts) -> bool {
        &&& self.absolute == root.absolute
        &&& root.components.len() <= self.components.len()
        &&& self.components.take(root.components.len() as int) == root.components
    }

    /// The directory that holds this path.
    pub open spec fn parent(self) -> Option<PathParts> {
        if self.components.len() == 0 {
            None
        } else {
            Some(PathParts { absolute: self.absolute, components: self.components.drop_last() })
        }
    }
}

/// Whether two byte strings are the same.
pub fn same_bytes(a: &Vec<u8>, b: &Vec<u8>) -> (r: bool)
    ensures
        r == (a@ == b@),
{
    if a.len() != b.len() {
        return false;
    }
    let mut i: usize = 0;
    while i < a.len()
        invariant
            i <= a@.len() == b@.len(),
            forall|k: int| 0 <= k < i ==> a@[k] == b@[k],
        decreases a@.len() - i,
    {
        if a[i] != b[i] {
            return false;
        }
        i = i + 1;
    }
    assert(a@ =~= b@);
    true
}

fn copied_bytes(bytes: &Vec<u8>) -> (r: Vec<u8>)
    ensures
        r@ == bytes@,
{
    let mut r: Vec<u8> = Vec::with_capacity(bytes.len());
    let mut i: usize = 0;
    while i < bytes.len()
        invariant
            i <= bytes@.len(),
            r@ == bytes@.take(i as int),
        decreases bytes@.len() - i,
    {
        r.push(bytes[i]);
        assert(bytes@.take(i + 1) =~= bytes@.take(i as int).push(bytes@[i as int]));
        i = i + 1;
    }
    assert(bytes@.take(i as int) =~= bytes@);
    r
}

impl StoragePath {
    /// Whether some component leads out of the directory before it.
    pub fn climbs(&self) -> (r: bool)
        ensures
            r == self@.climbs(),
    {
        let mut i: usize = 0;
        while i < self.components.len()
            invariant
                i <= self.components@.len(),
                forall|k: int| 0 <= k < i ==> #[trigger] self@.components[k] != parent_dir(),
            decreases self.components@.len() - i,
        {
            let c = &self.components[i];
            assert(self@.components[i as int] == c@);
            if c.len() == 2 && c[0] == 0x2e && c[1] == 0x2e {
                assert(c@ =~= parent_dir());
                return true;
            }
            i = i + 1;
        }
        false
    }

    /// Whether this path is `root` or lies below it.
    pub fn is_under(&self, root: &StoragePath) -> (r: bool)
        ensures
            r == self@.is_under(root@),
    {
        if self.absolute != root.absolute || root.components.len() > self.components.len() {
            return false;
        }
        let ghost mine = self@.components;
        let ghost theirs = root@.components;
        let mut i: usize = 0;
        while i < root.components.len()
            invariant
                i <= root.components@.len() <= self.components@.len(),
                mine == self@.components,
                theirs == root@.components,
                forall|k: int| 0 <= k < i ==> mine[k] == theirs[k],
            decreases root.components@.len() - i,
        {
            if !same_bytes(&self.components[i], &root.components[i]) {
                assert(mine[i as int] != theirs[i as int]);
                assert(mine.take(theirs.len() as int)[i as int] == mine[i as int]);
                return false;
            }
            i = i + 1;
        }
        assert(mine.take(theirs.len() as int) =~= theirs);
        true
    }

    /// A copy of this path.
    pub fn copied(&self) -> (r: StoragePath)
        ensures
            r@ == self@,
            r.text@ == self.text@,
    {
        let mut components: Vec<Vec<u8>> = Vec::with_capacity(self.components.len());
        let mut i: usize = 0;
        while i < self.components.len()
            invariant
                i <= self.components@.len(),
                component_views(components@) == self@.components.take(i as int),
            decreases self.components@.len() - i,
        {
            let component = copied_bytes(&self.components[i]);
            let ghost before = components@;
            components.push(component);
            assert(component_views(components@) =~= component_views(before).push(component@));
            assert(self@.components.take(i + 1) =~= self@.components.take(i as int).push(
                self@.components[i as int],
            ));
            i = i + 1;
        }
        assert(self@.components.take(i as int) =~= self@.components);
        StoragePath { absolute: self.absolute, components, text: self.text.clone() }
    }

    /// Whether two paths are the same.
    pub fn same_as(&self, other: &StoragePath) -> (r: bool)
        ensures
            r == (self@ == other@),
    {
        let same = self.components.len() == other.components.len() && self.is_under(other);
        proof {
            if same {
                assert(self@.components =~= self@.components.take(
                    other@.components.len() as int,
                ));
            } else if self@ == other@ {
                assert(self@.components.take(other@.components.len() as int)
                    =~= other@.components);
            }
        }
        same
    }
}

/// A path is under itself, under its directory, and under whatever that is under;
/// two paths that are under each other are the same.
pub proof fn law_paths_are_nested(a: PathParts, b: PathParts, c: PathParts)
    ensures
        a.is_under(a),
        a.parent() matches Some(up) ==> a.is_under(up) && !up.is_under(a),
        a.parent() is None <==> a.components.len() == 0,
        a.is_under(b) && b.is_under(c) ==> a.is_under(c),
        a.is_under(b) && b.is_under(a) ==> a == b,
{
    assert(a.components.take(a.components.len() as int) =~= a.components);
    if a.components.len() > 0 {
        assert(a.components.take(a.components.len() - 1) =~= a.components.drop_last());
    }
    if a.is_under(b) && b.is_under(c) {
        assert(a.components.take(c.components.len() as int) =~= a.components.take(
            b.components.len() as int,
        ).take(c.components.len() as int));
    }
    if a.is_under(b) && b.is_under(a) {
        assert(a.components.take(b.components.len() as int) =~= a.components);
    }
}

} // verus!
