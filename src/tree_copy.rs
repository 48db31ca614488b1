use vstd::prelude::*;

use crate::entry::{entry_name, FileType};
use crate::fspath::FsPath;

verus! {

/// Whether `b` stands under `dst_root` where `a` stands under `src_root`:
/// `a` lies inside `src_root`, and `b` is `dst_root` followed by the same
/// relative components.
pub open spec fn mirrors(
    src_root: Seq<Seq<char>>,
    dst_root: Seq<Seq<char>>,
    a: Seq<Seq<char>>,
    b: Seq<Seq<char>>,
) -> bool {
    &&& src_root.len() <= a.len()
    &&& a.subrange(0, src_root.len() as int) == src_root
    &&& b == dst_root + a.subrange(src_root.len() as int, a.len() as int)
}

/// Descending into a child of the same name keeps two mirrored paths mirrored.
pub proof fn lemma_child_mirrors(
    src_root: Seq<Seq<char>>,
    dst_root: Seq<Seq<char>>,
    a: Seq<Seq<char>>,
    b: Seq<Seq<char>>,
    name: Seq<char>,
)
    requires
        mirrors(src_root, dst_root, a, b),
    ensures
        mirrors(src_root, dst_root, a.push(name), b.push(name)),
{
    let n = src_root.len() as int;
    assert(a.push(name).subrange(0, n) =~= a.subrange(0, n));
    assert(a.push(name).subrange(n, a.len() + 1 as int) =~= a.subrange(n, a.len() as int).push(name));
    assert(b.push(name) =~= dst_root + a.push(name).subrange(n, a.len() + 1 as int));
}

/// A tree copy keeps the shape of the tree: for a directory `from` copied to
/// its mirror `to`, every child is created or copied at its mirror (the same
/// path relative to the destination root as the child has relative to the
/// source root), and every subdirectory queued is paired with its mirror.
pub proof fn lemma_copy_keeps_relative_paths(
    src_root: Seq<Seq<char>>,
    dst_root: Seq<Seq<char>>,
    from: Seq<Seq<char>>,
    to: Seq<Seq<char>>,
    es: Seq<FileType>,
)
    requires
        mirrors(src_root, dst_root, from, to),
    ensures
        forall|i: int|
            0 <= i < es.len() ==> mirrors(
                src_root,
                dst_root,
                from.push(entry_name(#[trigger] es[i])),
                to.push(entry_name(es[i])),
            ),
        forall|k: int|
            0 <= k < queued_dirs(from, to, es).len() ==> mirrors(
                src_root,
                dst_root,
                (#[trigger] queued_dirs(from, to, es)[k]).0,
                queued_dirs(from, to, es)[k].1,
            ),
    decreases es.len(),
{
    assert forall|i: int| 0 <= i < es.len() implies mirrors(
        src_root,
        dst_root,
        from.push(entry_name(#[trigger] es[i])),
        to.push(entry_name(es[i])),
    ) by {
        lemma_child_mirrors(src_root, dst_root, from, to, entry_name(es[i]));
    }
    if es.len() > 0 {
        lemma_copy_keeps_relative_paths(src_root, dst_root, from, to, es.drop_last());
        lemma_child_mirrors(src_root, dst_root, from, to, entry_name(es.last()));
        let rest = queued_dirs(from, to, es.drop_last());
        let q = queued_dirs(from, to, es);
        assert forall|k: int| 0 <= k < q.len() implies mirrors(
            src_root,
            dst_root,
            (#[trigger] q[k]).0,
            q[k].1,
        ) by {
            if k < rest.len() {
                assert(q[k] == rest[k]);
            }
        }
    }
}

/// Where a copy of `file` into the directory `destination` goes: `destination`
/// followed by the file's last component. `None` when `file` has none.
pub fn copy_file_target(file: &FsPath, destination: &FsPath) -> (r: Option<FsPath>)
    ensures
        file@.len() == 0 <==> r is None,
        r matches Some(p) ==> p@ == destination@.push(file@.last()),
{
    match file.file_name() {
        Some(name) => Some(destination.join(&name)),
        None => None,
    }
}

/// One unit of work of a tree copy.
#[derive(Debug)]
pub enum CopyStep {
    /// Create this directory.
    MakeDir(FsPath),
    /// Copy the first file to the second path, overwriting it.
    CopyFile(FsPath, FsPath),
}

/// What a step does for `e`, a child of `from` copied into `to`.
pub open spec fn step_matches(
    s: CopyStep,
    from: Seq<Seq<char>>,
    to: Seq<Seq<char>>,
    e: FileType,
) -> bool {
    match e {
        FileType::Dir(n) => s matches CopyStep::MakeDir(d) && d@ == to.push(n@),
        FileType::File(n) => match s {
            CopyStep::CopyFile(a, b) => a@ == from.push(n@) && b@ == to.push(n@),
            _ => false,
        },
    }
}

/// The directories that the children `es` of `from` add to the work queue,
/// paired with their copies under `to`, in listing order.
pub open spec fn queued_dirs(
    from: Seq<Seq<char>>,
    to: Seq<Seq<char>>,
    es: Seq<FileType>,
) -> Seq<(Seq<Seq<char>>, Seq<Seq<char>>)>
    decreases es.len(),
{
    if es.len() == 0 {
        seq![]
    } else {
        let rest = queued_dirs(from, to, es.drop_last());
        match es.last() {
            FileType::Dir(n) => rest.push((from.push(n@), to.push(n@))),
            FileType::File(_) => rest,
        }
    }
}

/// A breadth-first copy of the tree at `source` into a new directory `root`:
/// a FIFO queue of (source directory, destination directory) pairs, where every
/// destination in the queue already exists.
#[derive(Debug)]
pub struct FolderCopy {
    source: FsPath,
    root: FsPath,
    queue: Vec<(FsPath, FsPath)>,
    head: usize,
}

impl FolderCopy {
    pub closed spec fn source_path(&self) -> Seq<Seq<char>> {
        self.source@
    }

    pub closed spec fn root_path(&self) -> Seq<Seq<char>> {
        self.root@
    }

    /// The pairs still to be listed, front first.
    pub closed spec fn pending(&self) -> Seq<(Seq<Seq<char>>, Seq<Seq<char>>)> {
        self.queue@.subrange(self.head as int, self.queue@.len() as int).map_values(
            |q: (FsPath, FsPath)| (q.0@, q.1@),
        )
    }

    /// Every pair in the queue mirrors the source tree into the destination tree.
    pub closed spec fn wf(&self) -> bool {
        &&& self.head <= self.queue@.len()
        &&& forall|i: int|
            0 <= i < self.queue@.len() ==> mirrors(
                self.source@,
                self.root@,
                #[trigger] self.queue@[i].0@,
                self.queue@[i].1@,
            )
    }

    /// Starts the copy of `source` into `destination`: the new root is
    /// `destination` followed by the last component of `source`, and the first
    /// pair to list is the source with that root. `None` when `source` has no
    /// last component.
    pub fn new(source: &FsPath, destination: &FsPath) -> (r: Option<FolderCopy>)
        ensures
            source@.len() == 0 <==> r is None,
            r matches Some(c) ==> {
                &&& c.wf()
                &&& c.source_path() == source@
                &&& c.root_path() == destination@.push(source@.last())
                &&& c.pending() == seq![(source@, destination@.push(source@.last()))]
            },
    {
        match source.file_name() {
            None => None,
            Some(name) => {
                let root = destination.join(&name);
                let mut queue: Vec<(FsPath, FsPath)> = Vec::new();
                queue.push((source.duplicate(), root.duplicate()));
                let c = FolderCopy { source: source.duplicate(), root, queue, head: 0 };
                proof {
                    assert(source@.subrange(0, source@.len() as int) =~= source@);
                    assert(source@.subrange(source@.len() as int, source@.len() as int)
                        =~= Seq::<Seq<char>>::empty());
                    assert(c.root@ + Seq::<Seq<char>>::empty() =~= c.root@);
                    assert(c.pending() =~= seq![(source@, destination@.push(source@.last()))]);
                }
                Some(c)
            },
        }
    }

    /// The destination directory that the copy creates first and returns.
    pub fn root(&self) -> (r: FsPath)
        ensures
            r@ == self.root_path(),
    {
        self.root.duplicate()
    }

    /// Takes the front pair off the queue; `None` once the queue is empty.
    pub fn next_dir(&mut self) -> (r: Option<(FsPath, FsPath)>)
        requires
            old(self).wf(),
        ensures
            final(self).wf(),
            final(self).source_path() == old(self).source_path(),
            final(self).root_path() == old(self).root_path(),
            old(self).pending().len() == 0 ==> (r is None && final(self).pending() == old(
                self,
            ).pending()),
            old(self).pending().len() > 0 ==> (r matches Some(p) && (p.0@, p.1@) == old(
                self,
            ).pending()[0] && final(self).pending() == old(self).pending().drop_first()),
            r matches Some(p) ==> mirrors(old(self).source_path(), old(self).root_path(), p.0@, p.1@),
    {
        if self.head >= self.queue.len() {
            return None;
        }
        let h = self.head;
        let pair = (self.queue[h].0.duplicate(), self.queue[h].1.duplicate());
        self.head = h + 1;
        proof {
            assert(final(self).pending() =~= old(self).pending().drop_first());
            assert(mirrors(self.source@, self.root@, self.queue@[h as int].0@, self.queue@[h as int].1@));
        }
        Some(pair)
    }

    /// Plans the children `entries` of `from`, a directory being copied to
    /// `to`: one step per entry in listing order, a `MakeDir` for each
    /// directory (also queued, to be listed later) and a `CopyFile` for each file.
    pub fn expand(&mut self, from: &FsPath, to: &FsPath, entries: &Vec<FileType>) -> (r: Vec<
        CopyStep,
    >)
        requires
            old(self).wf(),
            mirrors(old(self).source_path(), old(self).root_path(), from@, to@),
        ensures
            final(self).wf(),
            final(self).source_path() == old(self).source_path(),
            final(self).root_path() == old(self).root_path(),
            final(self).pending() == old(self).pending() + queued_dirs(from@, to@, entries@),
            r@.len() == entries@.len(),
            forall|i: int|
                0 <= i < entries@.len() ==> step_matches(#[trigger] r@[i], from@, to@, entries@[i]),
    {
        let mut steps: Vec<CopyStep> = Vec::new();
        let mut i: usize = 0;
        while i < entries.len()
            invariant
                0 <= i <= entries@.len(),
                self.wf(),
                self.source@ == old(self).source@,
                self.root@ == old(self).root@,
                self.head == old(self).head,
                mirrors(self.source@, self.root@, from@, to@),
                self.pending() == old(self).pending() + queued_dirs(
                    from@,
                    to@,
                    entries@.subrange(0, i as int),
                ),
                steps@.len() == i,
                forall|j: int|
                    0 <= j < i ==> step_matches(#[trigger] steps@[j], from@, to@, entries@[j]),
            decreases entries@.len() - i,
        {
            let ghost before = self.pending();
            let ghost es = entries@.subrange(0, i + 1);
            proof {
                assert(es.drop_last() =~= entries@.subrange(0, i as int));
                assert(es.last() == entries@[i as int]);
            }
            match &entries[i] {
                FileType::Dir(name) => {
                    let src = from.join(name);
                    let dst = to.join(name);
                    proof {
                        lemma_child_mirrors(self.source@, self.root@, from@, to@, name@);
                    }
                    steps.push(CopyStep::MakeDir(dst.duplicate()));
                    self.queue.push((src, dst));
                    proof {
                        assert(self.pending() =~= before.push((from@.push(name@), to@.push(name@))));
                    }
                },
                FileType::File(name) => {
                    steps.push(CopyStep::CopyFile(from.join(name), to.join(name)));
                },
            }
            proof {
                assert(self.pending() =~= old(self).pending() + queued_dirs(from@, to@, es));
            }
            i = i + 1;
        }
        assert(entries@.subrange(0, entries@.len() as int) =~= entries@);
        steps
    }
}

} // verus!
