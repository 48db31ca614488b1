use vstd::prelude::*;

use crate::entry::{Error, FileType};
use crate::fspath::FsPath;

verus! {

broadcast use vstd::std_specs::vec::group_vec_axioms;

/// A node of a tree of directory entries, with an identifier of its own.
#[derive(Debug)]
pub struct TreeNode {
    pub id: u128,
    pub value: FileType,
    pub children: Vec<TreeNode>,
}

/// An event of a tree view: a node is picked by its identifier.
#[derive(Debug)]
pub enum Message {
    NodeClicked(u128),
    AddChild(u128),
    RemoveNode(u128),
    LoadFolder(Result<(FsPath, Vec<FileType>), Error>),
    OpenFolder,
}

/// Whether `t` or a node below it has the identifier `id`.
pub open spec fn has_id(t: TreeNode, id: u128) -> bool
    decreases t,
{
    t.id == id || exists|i: int|
        0 <= i < t.children@.len() && has_id(#[trigger] t.children@[i], id)
}

/// Relies on uuid::Uuid::new_v4 and Uuid::as_u128: a fresh random
/// identifier, handed over as its 128-bit integer.
#[verifier::external_body]
fn new_id() -> u128 {
    uuid::Uuid::new_v4().as_u128()
}

impl TreeNode {
    /// A leaf holding `value`, under a fresh identifier.
    pub fn new(value: FileType) -> (r: TreeNode)
        ensures
            r.value == value,
            r.children@.len() == 0,
    {
        TreeNode { id: new_id(), value, children: Vec::new() }
    }

    /// Appends `child` as the last child of this node.
    pub fn add_child(&mut self, child: TreeNode)
        ensures
            final(self).id == old(self).id,
            final(self).value == old(self).value,
            final(self).children@ == old(self).children@.push(child),
    {
        self.children.push(child);
    }

    /// Whether this node or one below it has the identifier `id`.
    pub fn contains_id(&self, id: u128) -> (r: bool)
        ensures
            r == has_id(*self, id),
        decreases self,
    {
        if self.id == id {
            return true;
        }
        let mut i: usize = 0;
        while i < self.children.len()
            invariant
                0 <= i <= self.children@.len(),
                forall|j: int| 0 <= j < i ==> !has_id(#[trigger] self.children@[j], id),
            decreases self.children@.len() - i,
        {
            if self.children[i].contains_id(id) {
                assert(has_id(self.children@[i as int], id));
                return true;
            }
            i = i + 1;
        }
        false
    }

    /// Adds `child` as the last child of the first node, in depth-first order,
    /// whose identifier is `parent_id`. Returns whether there was such a node;
    /// when there was none, nothing changes.
    pub fn add_child_to_node(&mut self, parent_id: u128, child: TreeNode) -> (r: bool)
        ensures
            r == has_id(*old(self), parent_id),
            !r ==> *final(self) == *old(self),
            r ==> has_id(*final(self), child.id),
            final(self).id == old(self).id,
            final(self).value == old(self).value,
            forall|x: u128| has_id(*old(self), x) ==> has_id(*final(self), x),
        decreases *old(self),
    {
        if self.id == parent_id {
            self.children.push(child);
            proof {
                let n = old(self).children@.len() as int;
                assert(self.children@[n] == child);
                assert(has_id(child, child.id));
                assert forall|x: u128| has_id(*old(self), x) implies has_id(*self, x) by {
                    if self.id != x {
                        let m = choose|m: int|
                            0 <= m < old(self).children@.len() && has_id(
                                #[trigger] old(self).children@[m],
                                x,
                            );
                        assert(self.children@[m] == old(self).children@[m]);
                    }
                }
            }
            return true;
        }
        let mut i: usize = 0;
        while i < self.children.len()
            invariant
                0 <= i <= self.children@.len(),
                *self == *old(self),
                forall|j: int| 0 <= j < i ==> !has_id(#[trigger] self.children@[j], parent_id),
            decreases self.children@.len() - i,
        {
            if self.children[i].contains_id(parent_id) {
                let ghost before = *self;
                let mut kid = self.children.remove(i);
                let ghost kid0 = kid;
                assert(kid0 == old(self).children@[i as int]);
                let added = kid.add_child_to_node(parent_id, child);
                self.children.insert(i, kid);
                proof {
                    assert(self.children@ =~= before.children@.update(i as int, kid));
                    assert(has_id(self.children@[i as int], child.id));
                    assert forall|x: u128| has_id(*old(self), x) implies has_id(*self, x) by {
                        if self.id != x {
                            let m = choose|m: int|
                                0 <= m < old(self).children@.len() && has_id(
                                    #[trigger] old(self).children@[m],
                                    x,
                                );
                            if m == i {
                                assert(has_id(self.children@[i as int], x));
                            } else {
                                assert(self.children@[m] == old(self).children@[m]);
                            }
                        }
                    }
                }
                return true;
            }
            i = i + 1;
        }
        false
    }

    /// Removes every node below this one whose identifier is `id`, with its
    /// subtree. Returns whether this node itself has the identifier `id`, in
    /// which case nothing changes and removing it is the caller's part.
    pub fn remove_node(&mut self, id: u128) -> (r: bool)
        ensures
            r == (old(self).id == id),
            r ==> *final(self) == *old(self),
            !r ==> !has_id(*final(self), id),
            final(self).id == old(self).id,
            final(self).value == old(self).value,
            forall|x: u128| has_id(*final(self), x) ==> has_id(*old(self), x),
        decreases *old(self),
    {
        if self.id == id {
            return true;
        }
        let mut i: usize = 0;
        let ghost mut k: int = 0;
        while i < self.children.len()
            invariant
                0 <= i <= self.children@.len(),
                0 <= k <= old(self).children@.len(),
                self.id == old(self).id,
                self.value == old(self).value,
                self.id != id,
                self.children@.subrange(i as int, self.children@.len() as int)
                    == old(self).children@.subrange(k, old(self).children@.len() as int),
                forall|j: int| 0 <= j < i ==> !has_id(#[trigger] self.children@[j], id),
                forall|j: int, x: u128|
                    0 <= j < i && #[trigger] has_id(self.children@[j], x) ==> has_id(
                        *old(self),
                        x,
                    ),
            decreases self.children@.len() - i,
        {
            let ghost before = self.children@;
            let mut kid = self.children.remove(i);
            let ghost kid0 = kid;
            proof {
                let oc = old(self).children@;
                assert(before.subrange(i as int, before.len() as int)[0] == kid0);
                assert(before.subrange(i as int, before.len() as int).len() == oc.subrange(
                    k,
                    oc.len() as int,
                ).len());
                assert(k < oc.len());
                assert(oc.subrange(k, oc.len() as int)[0] == oc[k]);
                assert(kid0 == oc[k]);
            }
            let gone = kid.remove_node(id);
            if gone {
                proof {
                    assert(self.children@.subrange(i as int, self.children@.len() as int)
                        =~= before.subrange(i + 1, before.len() as int));
                    let oc = old(self).children@;
                    assert(oc.subrange(k + 1, oc.len() as int) =~= oc.subrange(k, oc.len() as int).subrange(1, oc.len() - k));
                    k = k + 1;
                }
            } else {
                self.children.insert(i, kid);
                proof {
                    assert(self.children@ =~= before.update(i as int, kid));
                    assert forall|x: u128| has_id(kid, x) implies has_id(*old(self), x) by {
                        assert(has_id(old(self).children@[k], x));
                    }
                    assert(self.children@.subrange(i + 1, self.children@.len() as int)
                        =~= before.subrange(i + 1, before.len() as int));
                    let oc = old(self).children@;
                    assert(oc.subrange(k + 1, oc.len() as int) =~= oc.subrange(k, oc.len() as int).subrange(1, oc.len() - k));
                    k = k + 1;
                }
                i = i + 1;
            }
        }
        proof {
            assert forall|x: u128| has_id(*self, x) implies has_id(*old(self), x) by {
                if self.id != x {
                    let m = choose|m: int|
                        0 <= m < self.children@.len() && has_id(#[trigger] self.children@[m], x);
                    assert(has_id(self.children@[m], x));
                }
            }
        }
        false
    }

    /// Appends a leaf for each entry of `files`, in order.
    pub fn load_folder_into_tree(&mut self, files: Vec<FileType>)
        ensures
            final(self).id == old(self).id,
            final(self).value == old(self).value,
            final(self).children@.len() == old(self).children@.len() + files@.len(),
            forall|j: int|
                0 <= j < old(self).children@.len() ==> #[trigger] final(self).children@[j]
                    == old(self).children@[j],
            forall|j: int|
                0 <= j < files@.len() ==> {
                    let c = #[trigger] final(self).children@[old(self).children@.len() + j];
                    c.value == files@[j] && c.children@.len() == 0
                },
    {
        let ghost orig = files@;
        let mut rest = files;
        let total: usize = rest.len();
        let ghost n = old(self).children@.len();
        let mut t: usize = 0;
        while rest.len() > 0
            invariant
                self.id == old(self).id,
                self.value == old(self).value,
                t + rest@.len() == orig.len(),
                orig.len() == total,
                rest@ == orig.subrange(t as int, orig.len() as int),
                self.children@.len() == n + t,
                forall|j: int| 0 <= j < n ==> #[trigger] self.children@[j] == old(self).children@[j],
                forall|j: int|
                    0 <= j < t ==> {
                        let c = #[trigger] self.children@[n + j];
                        c.value == orig[j] && c.children@.len() == 0
                    },
            decreases rest@.len(),
        {
            let file = rest.remove(0);
            assert(file == orig[t as int]);
            let child = TreeNode::new(file);
            self.add_child(child);
            t = t + 1;
        }
    }
}

} // verus!
