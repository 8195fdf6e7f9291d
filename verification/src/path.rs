use vstd::prelude::*;

verus! {

/// A file-system path: a root (a drive or `/`, empty for a relative path)
/// followed by its components in order.
pub struct FsPath {
    pub root: String,
    pub parts: Vec<String>,
}

/// The mathematical value of an [`FsPath`].
#[verifier::ext_equal]
pub struct PathView {
    pub root: Seq<char>,
    pub parts: Seq<Seq<char>>,
}

impl PathView {
    /// The empty relative path.
    pub open spec fn empty() -> PathView {
        PathView { root: Seq::empty(), parts: Seq::empty() }
    }

    /// This path with one more component at its end.
    pub open spec fn child(self, name: Seq<char>) -> PathView {
        PathView { root: self.root, parts: self.parts.push(name) }
    }

    /// This path joined with `rel`: `rel` appended when it is relative,
    /// `rel` itself when it has a root.
    pub open spec fn join(self, rel: PathView) -> PathView {
        if rel.root.len() > 0 {
            rel
        } else {
            PathView { root: self.root, parts: self.parts + rel.parts }
        }
    }

    /// The path that holds this one, when there is one.
    pub open spec fn parent(self) -> Option<PathView> {
        if self.parts.len() > 0 {
            Some(PathView { root: self.root, parts: self.parts.drop_last() })
        } else {
            None
        }
    }

    /// This path with its last component taken off; unchanged when it has none.
    pub open spec fn popped(self) -> PathView {
        match self.parent() {
            Some(p) => p,
            None => self,
        }
    }
}

/// How far below its start a walk along the components `parts` ends: `..`
/// goes up one level, `.` stays, any other component goes down one; -1 once
/// the walk has gone above its start, which it then never comes back from.
pub open spec fn walk_depth(parts: Seq<Seq<char>>) -> int
    decreases parts.len(),
{
    if parts.len() == 0 {
        0
    } else {
        let before = walk_depth(parts.drop_last());
        if before < 0 {
            -1
        } else if parts.last() == ".."@ {
            before - 1
        } else if parts.last() == "."@ {
            before
        } else {
            before + 1
        }
    }
}

/// A relative path that never leads above the directory it is taken from.
pub open spec fn is_enclosed(p: PathView) -> bool {
    p.root.len() == 0 && walk_depth(p.parts) >= 0
}

/// `p` is `base` followed by components that never lead above `base`.
pub open spec fn lies_below(base: PathView, p: PathView) -> bool {
    &&& p.root == base.root
    &&& base.parts.len() <= p.parts.len()
    &&& p.parts.subrange(0, base.parts.len() as int) == base.parts
    &&& walk_depth(p.parts.subrange(base.parts.len() as int, p.parts.len() as int)) >= 0
}

/// A path that is enclosed, joined below any base, lies below that base.
pub proof fn lemma_join_enclosed_lies_below(base: PathView, rel: PathView)
    requires
        is_enclosed(rel),
    ensures
        lies_below(base, base.join(rel)),
{
    let j = base.join(rel);
    assert(j.parts.subrange(0, base.parts.len() as int) =~= base.parts);
    assert(j.parts.subrange(base.parts.len() as int, j.parts.len() as int) =~= rel.parts);
}

/// Once a walk has gone above its start, no further component brings it back.
proof fn lemma_walk_depth_sticky(parts: Seq<Seq<char>>, k: int)
    requires
        0 <= k <= parts.len(),
        walk_depth(parts.subrange(0, k)) < 0,
    ensures
        walk_depth(parts) < 0,
    decreases parts.len(),
{
    if k < parts.len() {
        assert(parts.drop_last().subrange(0, k) =~= parts.subrange(0, k));
        lemma_walk_depth_sticky(parts.drop_last(), k);
    } else {
        assert(parts.subrange(0, k) =~= parts);
    }
}

impl View for FsPath {
    type V = PathView;

    open spec fn view(&self) -> PathView {
        PathView { root: self.root@, parts: self.parts.deep_view() }
    }
}

impl DeepView for FsPath {
    type V = PathView;

    open spec fn deep_view(&self) -> PathView {
        self@
    }
}

/// A copy of `v`, string by string.
pub fn copy_strings(v: &Vec<String>) -> (res: Vec<String>)
    ensures
        res.deep_view() == v.deep_view(),
{
    let mut res: Vec<String> = Vec::new();
    let mut i: usize = 0;
    while i < v.len()
        invariant
            i <= v.len(),
            res.len() == i,
            forall|j: int| 0 <= j < i ==> #[trigger] res@[j]@ == v@[j]@,
        decreases v.len() - i,
    {
        res.push(v[i].clone());
        i = i + 1;
    }
    assert(res.deep_view() =~= v.deep_view());
    res
}

impl FsPath {
    /// The path made of `root` and `parts`.
    pub fn new(root: String, parts: Vec<String>) -> (p: FsPath)
        ensures
            p@.root == root@,
            p@.parts == parts.deep_view(),
    {
        FsPath { root, parts }
    }

    /// The empty relative path, as `PathBuf::new()` gives.
    pub fn empty() -> (p: FsPath)
        ensures
            p@ == PathView::empty(),
    {
        let p = FsPath { root: String::new(), parts: Vec::new() };
        assert(p@.parts =~= Seq::<Seq<char>>::empty());
        p
    }

    /// A relative path of the one component `name`, as `PathBuf::from(name)` gives.
    pub fn relative(name: &str) -> (p: FsPath)
        ensures
            p@ == PathView::empty().child(name@),
    {
        let mut p = FsPath::empty();
        p.push(name);
        p
    }

    /// A copy of this path.
    pub fn duplicate(&self) -> (p: FsPath)
        ensures
            p@ == self@,
    {
        FsPath { root: self.root.clone(), parts: copy_strings(&self.parts) }
    }

    /// Adds the component `name` at the end, as `PathBuf::push` does with a plain name.
    pub fn push(&mut self, name: &str)
        ensures
            final(self)@ == old(self)@.child(name@),
    {
        let ghost before = self.parts.deep_view();
        self.parts.push(String::from_str(name));
        assert(self.parts.deep_view() =~= before.push(name@));
    }

    /// This path with the component `name` added at the end.
    pub fn child(&self, name: &str) -> (p: FsPath)
        ensures
            p@ == self@.child(name@),
    {
        let mut p = self.duplicate();
        p.push(name);
        p
    }

    /// This path joined with `rel`, as `Path::join` does.
    pub fn join(&self, rel: &FsPath) -> (p: FsPath)
        ensures
            p@ == self@.join(rel@),
    {
        if rel.root.unicode_len() > 0 {
            return rel.duplicate();
        }
        let mut parts = copy_strings(&self.parts);
        let ghost before = parts.deep_view();
        let mut i: usize = 0;
        while i < rel.parts.len()
            invariant
                i <= rel.parts.len(),
                parts.deep_view() == before + rel.parts.deep_view().subrange(0, i as int),
            decreases rel.parts.len() - i,
        {
            let ghost prev = parts.deep_view();
            parts.push(rel.parts[i].clone());
            assert(parts.deep_view() =~= prev.push(rel.parts@[i as int]@));
            assert(rel.parts.deep_view().subrange(0, i + 1) =~= rel.parts.deep_view().subrange(
                0,
                i as int,
            ).push(rel.parts@[i as int]@));
            i = i + 1;
        }
        assert(rel.parts.deep_view().subrange(0, i as int) =~= rel.parts.deep_view());
        FsPath { root: self.root.clone(), parts }
    }

    /// Takes the last component off, as `PathBuf::pop` does; `false` when
    /// there was none, the path then being left as it is.
    pub fn pop(&mut self) -> (removed: bool)
        ensures
            removed == (old(self)@.parts.len() > 0),
            final(self)@ == old(self)@.popped(),
    {
        let ghost before = self.parts.deep_view();
        if self.parts.len() == 0 {
            return false;
        }
        self.parts.pop();
        assert(self.parts.deep_view() =~= before.drop_last());
        true
    }

    /// Whether this path is relative and never leads above the directory it
    /// is taken from.
    pub fn is_enclosed(&self) -> (res: bool)
        ensures
            res == is_enclosed(self@),
    {
        if self.root.unicode_len() > 0 {
            return false;
        }
        let up = String::from_str("..");
        let here = String::from_str(".");
        let ghost parts = self.parts.deep_view();
        let mut depth: usize = 0;
        let mut i: usize = 0;
        while i < self.parts.len()
            invariant
                i <= self.parts.len(),
                parts == self.parts.deep_view(),
                up@ == ".."@,
                here@ == "."@,
                depth <= i,
                walk_depth(parts.subrange(0, i as int)) == depth as int,
            decreases self.parts.len() - i,
        {
            assert(parts.subrange(0, i + 1).drop_last() =~= parts.subrange(0, i as int));
            assert(parts[i as int] == self.parts@[i as int]@);
            if self.parts[i] == up {
                if depth == 0 {
                    proof {
                        lemma_walk_depth_sticky(parts, i + 1);
                    }
                    return false;
                }
                depth = depth - 1;
            } else if self.parts[i] == here {
            } else {
                depth = depth + 1;
            }
            i = i + 1;
        }
        assert(parts.subrange(0, i as int) =~= parts);
        true
    }

    /// The path that holds this one, as `Path::parent` gives it.
    pub fn parent(&self) -> (p: Option<FsPath>)
        ensures
            p.deep_view() == self@.parent(),
    {
        if self.parts.len() == 0 {
            return None;
        }
        let mut p = self.duplicate();
        p.pop();
        Some(p)
    }
}

} // verus!
