//! Absolute filesystem paths, held as their components from the root.

use vstd::prelude::*;

verus! {

/// An absolute path: the sequence of its non-empty components, root first.
/// The filesystem root itself is the empty sequence.
#[derive(Debug)]
pub struct AbsPath {
    components: Vec<String>,
}

impl View for AbsPath {
    type V = Seq<Seq<char>>;

    closed spec fn view(&self) -> Seq<Seq<char>> {
        self.components.deep_view()
    }
}

/// Every component of a path is a non-empty name.
pub open spec fn path_wf(p: Seq<Seq<char>>) -> bool {
    forall|i: int| 0 <= i < p.len() ==> #[trigger] p[i].len() > 0
}

/// Copy a vector of strings, preserving the string values exactly.
fn clone_components(v: &Vec<String>) -> (r: Vec<String>)
    ensures
        r@ == v@,
{
    let mut r: Vec<String> = Vec::new();
    let mut i: usize = 0;
    while i < v.len()
        invariant
            i <= v.len(),
            r@ =~= v@.subrange(0, i as int),
        decreases v.len() - i,
    {
        r.push(v[i].clone());
        i = i + 1;
    }
    proof {
        assert(r@ =~= v@);
    }
    r
}

impl Clone for AbsPath {
    fn clone(&self) -> (r: Self)
        ensures
            r@ == self@,
    {
        let r = AbsPath { components: clone_components(&self.components) };
        proof {
            assert(r@ =~= self@);
        }
        r
    }
}

impl AbsPath {
    pub open spec fn wf(&self) -> bool {
        path_wf(self@)
    }

    /// The filesystem root: the path with no components.
    pub fn root() -> (r: AbsPath)
        ensures
            r@ == Seq::<Seq<char>>::empty(),
            r.wf(),
    {
        let r = AbsPath { components: Vec::new() };
        proof {
            assert(r@ =~= Seq::<Seq<char>>::empty());
        }
        r
    }

    /// Build a path directly from its components.
    pub fn from_components(components: Vec<String>) -> (r: AbsPath)
        ensures
            r@ == components.deep_view(),
    {
        AbsPath { components }
    }

    /// How many components the path has; the root has zero.
    pub fn depth(&self) -> (r: usize)
        ensures
            r == self@.len(),
    {
        self.components.len()
    }

    pub fn is_root(&self) -> (r: bool)
        ensures
            r == (self@.len() == 0),
    {
        self.components.len() == 0
    }

    /// The path of the entry named `name` inside this directory.
    pub fn child(&self, name: String) -> (r: AbsPath)
        ensures
            r@ == self@.push(name@),
    {
        let mut c = clone_components(&self.components);
        c.push(name);
        let r = AbsPath { components: c };
        proof {
            assert(r@ =~= self@.push(name@));
        }
        r
    }

    /// The directory containing this path, or none at the root.
    pub fn parent(&self) -> (r: Option<AbsPath>)
        ensures
            self@.len() == 0 ==> r is None,
            self@.len() > 0 ==> (r matches Some(p) && p@ == self@.drop_last()),
    {
        if self.components.len() == 0 {
            None
        } else {
            let mut c = clone_components(&self.components);
            c.pop();
            let p = AbsPath { components: c };
            proof {
                assert(p@ =~= self@.drop_last());
            }
            Some(p)
        }
    }

    /// The final component: the name of the object the path points at.
    pub fn last_component(&self) -> (r: Option<&String>)
        ensures
            self@.len() == 0 ==> r is None,
            self@.len() > 0 ==> (r matches Some(s) && s@ == self@.last()),
    {
        if self.components.len() == 0 {
            None
        } else {
            Some(&self.components[self.components.len() - 1])
        }
    }

    /// Whether two paths name the same filesystem location.
    pub fn same_as(&self, other: &AbsPath) -> (r: bool)
        ensures
            r == (self@ == other@),
    {
        if self.components.len() != other.components.len() {
            proof {
                assert(self@.len() != other@.len());
            }
            return false;
        }
        let mut i: usize = 0;
        while i < self.components.len()
            invariant
                i <= self.components.len(),
                self.components.len() == other.components.len(),
                self@.len() == other@.len() == self.components.len(),
                forall|j: int| 0 <= j < i ==> self@[j] == other@[j],
            decreases self.components.len() - i,
        {
            if !(self.components[i] == other.components[i]) {
                proof {
                    assert(self@[i as int] != other@[i as int]);
                }
                return false;
            }
            i = i + 1;
        }
        proof {
            assert(self@ =~= other@);
        }
        true
    }
}

} // verus!
