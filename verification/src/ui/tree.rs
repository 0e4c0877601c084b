//! A compact tree of payloads, built bottom-up: a node is added together with
//! the list of its (already added) children.
use vstd::prelude::*;

verus! {

/// Why a node could not be added to a [`Tree`].
#[derive(Debug, PartialEq, Eq, Clone, Copy, Structural)]
pub enum Error {
    /// Could not add a new layout node to the tree.
    TooManyNodes,
    /// Attempted to add more than `u16::MAX` children to a node in the tree.
    TooManyChildren,
    /// A node can only have one parent.
    MoreThanOneParent,
}

impl Error {
    /// The message that describes the error.
    pub fn message(&self) -> (r: &'static str)
        ensures
            r@ == (match self {
                Error::TooManyNodes => "Could not add a new layout node to the tree."@,
                Error::TooManyChildren => "Attempted to add more than u16::MAX children to a node in the tree."@,
                Error::MoreThanOneParent => "A node can only have one parent."@,
            }),
    {
        match self {
            Error::TooManyNodes => "Could not add a new layout node to the tree.",
            Error::TooManyChildren => "Attempted to add more than u16::MAX children to a node in the tree.",
            Error::MoreThanOneParent => "A node can only have one parent.",
        }
    }
}

/// A node of a linked tree: its payload, its first child and its next
/// sibling.
#[derive(Clone, Copy)]
pub struct Node<Payload> where Payload: Clone {
    payload: Payload,
    first_child: Index,
    next: Index,
}

impl<Payload> Node<Payload> where Payload: Clone {
    /// A node without children or siblings.
    fn new(payload: Payload) -> (r: Self)
        ensures
            r.payload == payload,
            r.first_child.0 == u16::MAX,
            r.next.0 == u16::MAX,
    {
        Self { payload, first_child: Index::null(), next: Index::null() }
    }
}

/// The position of a node in a [`Tree`]. `u16::MAX` is the null index.
#[derive(Clone, Copy, Debug, PartialEq, Eq, Structural)]
pub struct Index(pub u16);

/// The largest index a node can have.
pub const MAX_INDEX: u16 = 65534;

impl Default for Index {
    fn default() -> (r: Self)
        ensures
            r.0 == u16::MAX,
    {
        Self::null()
    }
}

impl Index {
    /// The null index, which names no node.
    pub fn null() -> (r: Self)
        ensures
            r.0 == u16::MAX,
    {
        Index(u16::MAX)
    }

    pub fn is_null(self) -> (r: bool)
        ensures
            r == (self.0 == u16::MAX),
    {
        self.0 == u16::MAX
    }

    /// The index as a plain number.
    pub fn get(self) -> (r: usize)
        ensures
            r == self.0,
    {
        self.0 as usize
    }
}

/// The raw numbers of a list of indices.
pub open spec fn raw_indices(s: Seq<Index>) -> Seq<u16> {
    s.map_values(|x: Index| x.0)
}

/// A tree whose nodes each hold a payload and a list of children.
pub struct Tree<Payload> where Payload: Clone {
    /// Data stored per-node in the tree.
    data: Vec<Payload>,
    /// One entry per node: the position in `children_array` of the node's
    /// list of children, or `0` if the node has none.
    children: Vec<u16>,
    /// Lists of children, each a length followed by that many indices. Entry
    /// `0` is reserved, so that no list starts there.
    children_array: Vec<u16>,
}

impl<Payload> Tree<Payload> where Payload: Clone {
    /// The payload of every node, by index.
    pub closed spec fn data(&self) -> Seq<Payload> {
        self.data@
    }

    /// Where each node's list of children starts, or `0`.
    pub closed spec fn children_starts(&self) -> Seq<u16> {
        self.children@
    }

    /// The lists of children, one after the other.
    pub closed spec fn children_array(&self) -> Seq<u16> {
        self.children_array@
    }

    /// The children of `node`, in the order they were given.
    pub open spec fn children_of(&self, node: int) -> Seq<Index> {
        let p = self.children_starts()[node] as int;
        if p == 0 {
            Seq::empty()
        } else {
            let len = self.children_array()[p] as int;
            self.children_array().subrange(p + 1, p + 1 + len).map_values(|x: u16| Index(x))
        }
    }

    /// The tree's invariant: one start per node, at most `MAX_INDEX + 1`
    /// nodes, the reserved entry present, and every list within the array.
    pub open spec fn wf(&self) -> bool {
        &&& self.data().len() == self.children_starts().len()
        &&& self.data().len() <= MAX_INDEX + 1
        &&& self.children_array().len() >= 1
        &&& forall|n: int|
            0 <= n < self.children_starts().len() && #[trigger] self.children_starts()[n] != 0
                ==> {
                let p = self.children_starts()[n] as int;
                p + 1 <= self.children_array().len() && p + 1 + self.children_array()[p]
                    <= self.children_array().len()
            }
    }

    /// Whether some node of the tree lists `c` among its children.
    pub open spec fn has_parent(&self, c: Index) -> bool {
        exists|n: int| 0 <= n < self.data().len() && #[trigger] self.children_of(n).contains(c)
    }

    /// Whether some node of `children` already has a parent in the tree.
    pub open spec fn any_has_parent(&self, children: Seq<Index>) -> bool {
        exists|k: int| 0 <= k < children.len() && #[trigger] self.has_parent(children[k])
    }

    /// Whether a node with `n` children can be added without an error.
    pub open spec fn can_add(&self, n: nat) -> bool {
        &&& self.data().len() <= MAX_INDEX
        &&& n <= u16::MAX
        &&& n > 0 ==> self.children_array().len() <= u16::MAX
    }

    /// Whether `after` is this tree with a node holding `payload` and
    /// `children` added.
    pub open spec fn added(&self, after: Self, payload: Payload, children: Seq<Index>) -> bool {
        let ca = self.children_array();
        &&& after.data() == self.data().push(payload)
        &&& if children.len() == 0 {
            &&& after.children_starts() == self.children_starts().push(0)
            &&& after.children_array() == ca
        } else {
            &&& after.children_starts() == self.children_starts().push(ca.len() as u16)
            &&& after.children_array() == ca + (seq![children.len() as u16] + raw_indices(children))
        }
    }

    /// An empty tree.
    pub fn new() -> (r: Self)
        ensures
            r.wf(),
            r.data().len() == 0,
            r.children_starts().len() == 0,
            r.children_array() == seq![0u16],
    {
        let mut children_array = Vec::new();
        children_array.push(0);
        let r = Self { data: Vec::new(), children: Vec::new(), children_array };
        assert(r.children_array() =~= seq![0u16]);
        r
    }

    /// The number of nodes.
    pub fn len(&self) -> (r: usize)
        ensures
            r == self.data().len(),
    {
        self.data.len()
    }

    /// The number of children-list starts: one per node.
    pub fn children_starts_len(&self) -> (r: usize)
        ensures
            r == self.children_starts().len(),
    {
        self.children.len()
    }

    /// The length of the array of children lists, the reserved entry
    /// included.
    pub fn children_array_len(&self) -> (r: usize)
        ensures
            r == self.children_array().len(),
    {
        self.children_array.len()
    }

    /// The payload of `node`.
    pub fn get(&self, node: Index) -> (r: &Payload)
        requires
            node.0 < self.data().len(),
        ensures
            *r == self.data()[node.0 as int],
    {
        &self.data[node.0 as usize]
    }

    /// The payload of `node`, to change in place.
    pub fn get_mut(&mut self, node: Index) -> (r: &mut Payload)
        requires
            node.0 < old(self).data().len(),
        ensures
            *r == old(self).data()[node.0 as int],
            final(self).data() == old(self).data().update(node.0 as int, *final(r)),
            final(self).children_starts() == old(self).children_starts(),
            final(self).children_array() == old(self).children_array(),
    {
        &mut self.data[node.0 as usize]
    }

    /// The children of `node`, in the order they were given to [`Tree::add`].
    pub fn children(&self, node: Index) -> (r: Vec<Index>)
        requires
            self.wf(),
            node.0 < self.data().len(),
        ensures
            r@ == self.children_of(node.0 as int),
    {
        let mut r: Vec<Index> = Vec::new();
        let p = self.children[node.0 as usize] as usize;
        if p != 0 {
            let len = self.children_array[p] as usize;
            let mut k: usize = 0;
            while k < len
                invariant
                    self.wf(),
                    node.0 < self.data().len(),
                    p == self.children_starts()[node.0 as int],
                    p != 0,
                    len == self.children_array()[p as int],
                    k <= len,
                    r@ == self.children_array().subrange(p + 1, p + 1 + k).map_values(
                        |x: u16| Index(x),
                    ),
                decreases len - k,
            {
                r.push(Index(self.children_array[p + 1 + k]));
                k = k + 1;
                assert(r@ =~= self.children_array().subrange(p + 1, p + 1 + k).map_values(
                    |x: u16| Index(x),
                ));
            }
        } else {
            assert(r@ =~= self.children_of(node.0 as int));
        }
        r
    }

    /// Removes every node.
    pub fn clear(&mut self)
        requires
            old(self).wf(),
        ensures
            final(self).wf(),
            final(self).data().len() == 0,
            final(self).children_starts().len() == 0,
            final(self).children_array() == old(self).children_array().take(1),
    {
        self.data.clear();
        self.children.clear();
        self.children_array.truncate(1);
    }

    /// Reserves room for `additional` more nodes, as far as the tree can
    /// grow. Changes no content. The tree must not be full.
    pub fn reserve(&mut self, additional: usize)
        requires
            old(self).wf(),
            old(self).data().len() <= MAX_INDEX,
        ensures
            final(self).data() == old(self).data(),
            final(self).children_starts() == old(self).children_starts(),
            final(self).children_array() == old(self).children_array(),
            final(self).wf(),
    {
        let room = MAX_INDEX as usize - self.data.len();
        let actual = if additional < room {
            additional
        } else {
            room
        };
        self.data.reserve(actual);
        self.children.reserve(actual);
    }

    /// Whether `node` lists `c` among its children.
    fn lists_child(&self, node: usize, c: Index) -> (r: bool)
        requires
            self.wf(),
            node < self.data().len(),
        ensures
            r == self.children_of(node as int).contains(c),
    {
        let p = self.children[node] as usize;
        if p == 0 {
            return false;
        }
        let len = self.children_array[p] as usize;
        let ghost kids = self.children_of(node as int);
        let mut j: usize = 0;
        while j < len
            invariant
                self.wf(),
                node < self.data().len(),
                p == self.children_starts()[node as int],
                p != 0,
                len == self.children_array()[p as int],
                kids == self.children_of(node as int),
                kids.len() == len,
                j <= len,
                forall|i: int| 0 <= i < j ==> kids[i] != c,
            decreases len - j,
        {
            if self.children_array[p + 1 + j] == c.0 {
                assert(kids[j as int] == c);
                return true;
            }
            assert(kids[j as int] == Index(self.children_array()[p + 1 + j]));
            j = j + 1;
        }
        proof {
            if kids.contains(c) {
                let i = choose|i: int| 0 <= i < kids.len() && kids[i] == c;
                assert(kids[i] != c);
            }
        }
        false
    }

    /// Whether some node of the tree lists `c` among its children.
    fn find_parent(&self, c: Index) -> (r: bool)
        requires
            self.wf(),
        ensures
            r == self.has_parent(c),
    {
        let mut n: usize = 0;
        while n < self.data.len()
            invariant
                self.wf(),
                n <= self.data().len(),
                forall|m: int| 0 <= m < n ==> !#[trigger] self.children_of(m).contains(c),
            decreases self.data().len() - n,
        {
            if self.lists_child(n, c) {
                return true;
            }
            n = n + 1;
        }
        false
    }

    /// Whether some node of `children` already has a parent in the tree.
    fn find_any_parent(&self, children: &[Index]) -> (r: bool)
        requires
            self.wf(),
        ensures
            r == self.any_has_parent(children@),
    {
        let mut k: usize = 0;
        while k < children.len()
            invariant
                self.wf(),
                k <= children@.len(),
                forall|i: int| 0 <= i < k ==> !#[trigger] self.has_parent(children@[i]),
            decreases children@.len() - k,
        {
            if self.find_parent(children[k]) {
                return true;
            }
            k = k + 1;
        }
        false
    }

    /// Adds a node holding `payload` whose children are `children`, and
    /// returns its index, the number of nodes before the call.
    ///
    /// - [`Error::TooManyNodes`] when the tree already holds `MAX_INDEX + 1`
    ///   nodes; nothing changes.
    /// - [`Error::TooManyChildren`] when `children` is longer than
    ///   `u16::MAX`; nothing changes.
    /// - [`Error::MoreThanOneParent`] when a node of `children` already is
    ///   the child of a node in the tree; nothing changes.
    /// - [`Error::TooManyNodes`] when the list of children would start past
    ///   `u16::MAX` in the children array; the list has been appended to the
    ///   array, but no node is added.
    pub fn add(&mut self, payload: Payload, children: &[Index]) -> (r: Result<Index, Error>)
        requires
            old(self).wf(),
        ensures
            final(self).wf(),
            ({
                let n = old(self).data().len();
                let ca = old(self).children_array();
                let list = seq![children@.len() as u16] + raw_indices(children@);
                if n > MAX_INDEX {
                    r == Err::<Index, Error>(Error::TooManyNodes) && final(self).data() == old(self).data()
                        && final(self).children_starts() == old(self).children_starts()
                        && final(self).children_array() == ca
                } else if children@.len() > u16::MAX {
                    r == Err::<Index, Error>(Error::TooManyChildren) && final(self).data() == old(self).data()
                        && final(self).children_starts() == old(self).children_starts()
                        && final(self).children_array() == ca
                } else if old(self).any_has_parent(children@) {
                    r == Err::<Index, Error>(Error::MoreThanOneParent) && final(self).data() == old(self).data()
                        && final(self).children_starts() == old(self).children_starts()
                        && final(self).children_array() == ca
                } else if children@.len() > 0 && ca.len() > u16::MAX {
                    r == Err::<Index, Error>(Error::TooManyNodes) && final(self).data() == old(self).data()
                        && final(self).children_starts() == old(self).children_starts()
                        && final(self).children_array() == ca + list
                } else {
                    &&& r == Ok::<Index, Error>(Index(n as u16))
                    &&& final(self).data() == old(self).data().push(payload)
                    &&& if children@.len() == 0 {
                        &&& final(self).children_starts() == old(self).children_starts().push(0)
                        &&& final(self).children_array() == ca
                    } else {
                        &&& final(self).children_starts() == old(self).children_starts().push(
                            ca.len() as u16,
                        )
                        &&& final(self).children_array() == ca + list
                    }
                }
            }),
    {
        if self.data.len() > MAX_INDEX as usize {
            return Err(Error::TooManyNodes);
        }
        let ghost ca = self.children_array@;
        if children.len() > u16::MAX as usize {
            return Err(Error::TooManyChildren);
        }
        if self.find_any_parent(children) {
            return Err(Error::MoreThanOneParent);
        }
        let first_child: u16 = if children.len() == 0 {
            0
        } else {
            let i = self.children_array.len();
            // Reserve the requisite amount of space to store header + indices.
            self.children_array.reserve(children.len() + 1);
            // Push slice header with length of slice.
            self.children_array.push(children.len() as u16);
            let mut k: usize = 0;
            while k < children.len()
                invariant
                    old(self).wf(),
                    self.data@ == old(self).data@,
                    self.children@ == old(self).children@,
                    ca == old(self).children_array@,
                    k <= children@.len(),
                    children@.len() <= u16::MAX,
                    i == ca.len(),
                    self.children_array@ == ca + seq![children@.len() as u16] + raw_indices(
                        children@.subrange(0, k as int),
                    ),
                decreases children@.len() - k,
            {
                self.children_array.push(children[k].0);
                k = k + 1;
                assert(raw_indices(children@.subrange(0, k as int)) =~= raw_indices(
                    children@.subrange(0, k - 1),
                ).push(children@[k - 1].0));
            }
            assert(children@.subrange(0, children@.len() as int) =~= children@);
            assert(self.children_array@ =~= ca + (seq![children@.len() as u16] + raw_indices(
                children@,
            )));
            if i > u16::MAX as usize {
                proof {
                    let ca2 = self.children_array@;
                    assert forall|m: int|
                        0 <= m < self.children@.len() && #[trigger] self.children@[m] != 0 implies {
                        let p = self.children@[m] as int;
                        p + 1 <= ca2.len() && p + 1 + ca2[p] <= ca2.len()
                    } by {
                        let p = self.children@[m] as int;
                        assert(old(self).children@[m] == self.children@[m]);
                        assert(ca2[p] == ca[p]);
                    }
                }
                return Err(Error::TooManyNodes);
            }
            i as u16
        };
        let index = Index(self.data.len() as u16);
        self.data.push(payload);
        self.children.push(first_child);
        proof {
            let ca2 = self.children_array@;
            assert forall|m: int|
                0 <= m < self.children@.len() && #[trigger] self.children@[m] != 0 implies {
                let p = self.children@[m] as int;
                p + 1 <= ca2.len() && p + 1 + ca2[p] <= ca2.len()
            } by {
                if m < self.children@.len() - 1 {
                    let p = self.children@[m] as int;
                    assert(old(self).children@[m] == self.children@[m]);
                    assert(ca2[p] == ca[p]);
                }
            }
        }
        Ok(index)
    }
}

/// A node added to the tree holds the payload and the children it was added
/// with, and the nodes already there keep theirs.
pub proof fn lemma_add_then_read<Payload: Clone>(
    before: &Tree<Payload>,
    after: &Tree<Payload>,
    payload: Payload,
    children: Seq<Index>,
    index: Index,
)
    requires
        before.wf(),
        index.0 == before.data().len(),
        after.data() == before.data().push(payload),
        children.len() <= u16::MAX,
        before.children_array().len() <= u16::MAX,
        if children.len() == 0 {
            after.children_starts() == before.children_starts().push(0)
                && after.children_array() == before.children_array()
        } else {
            after.children_starts() == before.children_starts().push(
                before.children_array().len() as u16,
            ) && after.children_array() == before.children_array() + (seq![children.len() as u16]
                + raw_indices(children))
        },
    ensures
        after.data()[index.0 as int] == payload,
        after.children_of(index.0 as int) == children,
        forall|n: int|
            0 <= n < before.data().len() ==> after.data()[n] == before.data()[n]
                && #[trigger] after.children_of(n) == before.children_of(n),
{
    let ca = before.children_array();
    if children.len() > 0 {
        let p = ca.len() as int;
        let list = seq![children.len() as u16] + raw_indices(children);
        assert(after.children_array()[p] == children.len());
        assert(after.children_array().subrange(p + 1, p + 1 + children.len()) =~= raw_indices(
            children,
        ));
        assert(raw_indices(children).map_values(|x: u16| Index(x)) =~= children);
    }
    assert forall|n: int| 0 <= n < before.data().len() implies after.data()[n] == before.data()[n]
        && #[trigger] after.children_of(n) == before.children_of(n) by {
        let p = before.children_starts()[n] as int;
        assert(after.children_starts()[n] == before.children_starts()[n]);
        if p != 0 {
            assert(after.children_array().subrange(p + 1, p + 1 + ca[p]) =~= ca.subrange(
                p + 1,
                p + 1 + ca[p],
            ));
        }
    }
}

} // verus!
