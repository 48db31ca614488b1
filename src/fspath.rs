use vstd::prelude::*;

verus! {

/// A path held as its sequence of components (`/`, `home`, `notes.txt`).
#[derive(Debug, Clone, PartialEq, Eq)]
pub struct FsPath {
    pub parts: Vec<String>,
}

impl View for FsPath {
    type V = Seq<Seq<char>>;

    open spec fn view(&self) -> Seq<Seq<char>> {
        self.parts@.map_values(|s: String| s@)
    }
}

/// The path one level up: the last component dropped, or the path itself
/// when it has no component to drop.
pub open spec fn parent_of(p: Seq<Seq<char>>) -> Seq<Seq<char>> {
    if p.len() > 0 {
        p.drop_last()
    } else {
        p
    }
}

impl FsPath {
    pub fn new(parts: Vec<String>) -> (r: FsPath)
        ensures
            r.parts@ == parts@,
    {
        FsPath { parts }
    }

    /// An equal, independent copy of the path.
    pub fn duplicate(&self) -> (r: FsPath)
        ensures
            r@ == self@,
    {
        let parts = self.parts.clone();
        assert(parts@ =~= self.parts@);
        FsPath { parts }
    }

    /// The directory that holds this path.
    pub fn parent(&self) -> (r: FsPath)
        ensures
            r@ == parent_of(self@),
    {
        let mut r = self.duplicate();
        if r.parts.len() > 0 {
            r.parts.pop();
        }
        proof {
            if self@.len() > 0 {
                assert(r@ =~= self@.drop_last());
            }
        }
        r
    }

    /// The path of `name` inside this directory.
    pub fn join(&self, name: &String) -> (r: FsPath)
        ensures
            r@ == self@.push(name@),
    {
        let mut r = self.duplicate();
        r.parts.push(name.clone());
        assert(r@ =~= self@.push(name@));
        r
    }

    /// The last component, when there is one.
    pub fn file_name(&self) -> (r: Option<String>)
        ensures
            self@.len() == 0 <==> r is None,
            r matches Some(n) ==> n@ == self@.last(),
    {
        let n = self.parts.len();
        if n == 0 {
            None
        } else {
            Some(self.parts[n - 1].clone())
        }
    }
}

/// The working directory, `.`.
pub open spec fn default_path() -> Seq<Seq<char>> {
    seq![seq!['.']]
}

/// The directory listed when the application starts: the working directory.
pub fn default_file() -> (r: FsPath)
    ensures
        r@ == default_path(),
{
    let dot = String::from_str(".");
    proof {
        reveal_strlit(".");
    }
    assert(dot@ =~= seq!['.']);
    let mut parts: Vec<String> = Vec::new();
    parts.push(dot);
    let r = FsPath { parts };
    assert(r@ =~= seq![seq!['.']]);
    r
}

} // verus!
