use vstd::prelude::*;

verus! {

/// An absolute path, held as its root (such as `/` or `C:\`), the separator
/// that joins its components, and the components below the root.
pub struct Location {
    pub root: String,
    pub sep: String,
    pub parts: Vec<String>,
}

/// The mathematical value of a `Location`.
pub struct LocView {
    pub root: Seq<char>,
    pub sep: Seq<char>,
    pub parts: Seq<Seq<char>>,
}

impl View for Location {
    type V = LocView;

    open spec fn view(&self) -> LocView {
        LocView { root: self.root@, sep: self.sep@, parts: self.parts@.map_values(|p: String| p@) }
    }
}

impl LocView {
    /// The path of the child called `name`.
    pub open spec fn child(self, name: Seq<char>) -> LocView {
        LocView { parts: self.parts.push(name), ..self }
    }

    /// The enclosing directory; a root has none.
    pub open spec fn parent(self) -> Option<LocView> {
        if self.parts.len() == 0 {
            None
        } else {
            Some(LocView { parts: self.parts.drop_last(), ..self })
        }
    }

    /// The last component, or the root itself where there is none.
    pub open spec fn base_name(self) -> Seq<char> {
        if self.parts.len() == 0 {
            self.root
        } else {
            self.parts.last()
        }
    }

    /// The path as text: the root, then the components joined by the separator.
    pub open spec fn text(self) -> Seq<char> {
        self.root + join(self.parts, self.sep)
    }
}

/// The components `p` joined by `sep`.
pub open spec fn join(p: Seq<Seq<char>>, sep: Seq<char>) -> Seq<char>
    decreases p.len(),
{
    if p.len() == 0 {
        Seq::empty()
    } else if p.len() == 1 {
        p[0]
    } else {
        join(p.drop_last(), sep) + sep + p.last()
    }
}

/// Ascending from a child leads back to the directory it was entered from.
pub proof fn lemma_child_parent(l: LocView, name: Seq<char>)
    ensures
        l.child(name).parent() == Some(l),
{
    assert(l.child(name).parts.drop_last() =~= l.parts);
}

pub fn copy_strings(v: &Vec<String>) -> (r: Vec<String>)
    ensures
        r@ == v@,
{
    let mut r: Vec<String> = Vec::new();
    let mut i: usize = 0;
    while i < v.len()
        invariant
            i <= v.len(),
            r@ == v@.take(i as int),
        decreases v.len() - i,
    {
        r.push(v[i].clone());
        i += 1;
        assert(r@ =~= v@.take(i as int));
    }
    assert(v@.take(v.len() as int) =~= v@);
    r
}

impl Location {
    /// A location made of a root, a separator and the components below the root.
    pub fn new(root: String, sep: String, parts: Vec<String>) -> (r: Location)
        ensures
            r.root@ == root@,
            r.sep@ == sep@,
            r.parts@ == parts@,
    {
        Location { root, sep, parts }
    }

    /// The path of the child called `name`.
    pub fn child(&self, name: &String) -> (r: Location)
        ensures
            r@ == self@.child(name@),
    {
        let mut parts = copy_strings(&self.parts);
        parts.push(name.clone());
        let r = Location { root: self.root.clone(), sep: self.sep.clone(), parts };
        assert(r@.parts =~= self@.parts.push(name@));
        r
    }

    /// The enclosing directory, or `None` at a root.
    pub fn parent(&self) -> (r: Option<Location>)
        ensures
            r matches Some(p) ==> self@.parent() == Some(p@),
            r is None <==> self@.parent() is None,
    {
        if self.parts.len() == 0 {
            None
        } else {
            let mut parts = copy_strings(&self.parts);
            parts.pop();
            let r = Location { root: self.root.clone(), sep: self.sep.clone(), parts };
            assert(r@.parts =~= self@.parts.drop_last());
            Some(r)
        }
    }

    pub fn has_parent(&self) -> (r: bool)
        ensures
            r == (self@.parent() is Some),
    {
        self.parts.len() > 0
    }

    /// The last component, or the root itself where there is none.
    pub fn base_name(&self) -> (r: String)
        ensures
            r@ == self@.base_name(),
    {
        if self.parts.len() == 0 {
            self.root.clone()
        } else {
            self.parts[self.parts.len() - 1].clone()
        }
    }

    /// Whether `self` is the child called `name` of `dir`.
    pub fn is_child_of(&self, dir: &Location, name: &String) -> (r: bool)
        ensures
            r == (self@ == dir@.child(name@)),
    {
        if self.root != dir.root || self.sep != dir.sep || self.parts.len() == 0
            || self.parts.len() - 1 != dir.parts.len() {
            assert(self@ != dir@.child(name@) || self@.parts.len() == dir@.parts.len() + 1);
            return false;
        }
        let n = dir.parts.len();
        let mut i: usize = 0;
        while i < n
            invariant
                n == dir.parts.len(),
                self.parts.len() == n + 1,
                i <= n,
                forall|k: int| 0 <= k < i ==> self.parts@[k]@ == dir.parts@[k]@,
            decreases n - i,
        {
            if self.parts[i] != dir.parts[i] {
                assert(self@.parts[i as int] != dir@.child(name@).parts[i as int]);
                return false;
            }
            i += 1;
        }
        if self.parts[n] != *name {
            assert(self@.parts[n as int] != dir@.child(name@).parts[n as int]);
            return false;
        }
        assert(self@.parts =~= dir@.child(name@).parts);
        true
    }

    /// The path as text.
    pub fn text(&self) -> (r: String)
        ensures
            r@ == self@.text(),
    {
        let mut r = self.root.clone();
        let mut i: usize = 0;
        while i < self.parts.len()
            invariant
                i <= self.parts.len(),
                r@ == self.root@ + join(self@.parts.take(i as int), self.sep@),
            decreases self.parts.len() - i,
        {
            if i > 0 {
                r.append(self.sep.as_str());
            }
            r.append(self.parts[i].as_str());
            proof {
                let t = self@.parts.take(i as int + 1);
                assert(t.drop_last() =~= self@.parts.take(i as int));
                if i == 0 {
                    assert(join(self@.parts.take(0), self.sep@) =~= Seq::empty());
                }
                assert(r@ =~= self.root@ + join(t, self.sep@));
            }
            i += 1;
        }
        assert(self@.parts.take(self.parts.len() as int) =~= self@.parts);
        r
    }
}

} // verus!
