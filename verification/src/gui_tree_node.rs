//! A node of the element tree.

use crate::element_id::ElementId;
use vstd::prelude::*;

verus! {

/// What a node holds: its parent, if it has one, and its children in order.
pub struct NodeView {
    pub parent: Option<ElementId>,
    pub children: Seq<ElementId>,
}

/// A node of the element tree: the parent of an element and its children.
#[derive(Clone, Debug)]
pub struct GuiTreeNode {
    parent: Option<ElementId>,
    children: Vec<ElementId>,
}

impl View for GuiTreeNode {
    type V = NodeView;

    closed spec fn view(&self) -> NodeView {
        NodeView { parent: self.parent, children: self.children@ }
    }
}

/// The index of the first occurrence of `c` in `s`, or the length of `s`
/// where `c` does not occur.
pub open spec fn first_index_of(s: Seq<ElementId>, c: ElementId) -> int
    decreases s.len(),
{
    if s.len() == 0 {
        0
    } else if s[0] == c {
        0
    } else {
        1 + first_index_of(s.drop_first(), c)
    }
}

/// `first_index_of` is the least index that holds `c`.
pub proof fn lemma_first_index_of(s: Seq<ElementId>, c: ElementId)
    ensures
        0 <= first_index_of(s, c) <= s.len(),
        first_index_of(s, c) < s.len() ==> s[first_index_of(s, c)] == c,
        forall|i: int| 0 <= i < first_index_of(s, c) ==> s[i] != c,
        !s.contains(c) <==> first_index_of(s, c) == s.len(),
    decreases s.len(),
{
    if s.len() > 0 && s[0] != c {
        let rest = s.drop_first();
        lemma_first_index_of(rest, c);
        assert forall|i: int| 0 <= i < first_index_of(s, c) implies s[i] != c by {
            if i > 0 {
                assert(s[i] == rest[i - 1]);
            }
        }
        if rest.contains(c) {
            let j = choose|j: int| 0 <= j < rest.len() && rest[j] == c;
            assert(s[j + 1] == c);
        }
        if s.contains(c) {
            let j = choose|j: int| 0 <= j < s.len() && s[j] == c;
            assert(rest[j - 1] == c);
        }
    } else if s.len() > 0 {
        assert(s[0] == c);
    }
}

/// `s` without the first occurrence of `c`, the last element moved into its
/// place; `s` itself where `c` does not occur.
pub open spec fn without_first(s: Seq<ElementId>, c: ElementId) -> Seq<ElementId> {
    let at = first_index_of(s, c);
    if at == s.len() {
        s
    } else {
        s.update(at, s.last()).drop_last()
    }
}

impl GuiTreeNode {
    /// A node without parent or children.
    pub fn new() -> (node: GuiTreeNode)
        ensures
            node@.parent.is_none(),
            node@.children == Seq::<ElementId>::empty(),
    {
        GuiTreeNode { parent: None, children: Vec::new() }
    }

    /// Makes `p` the parent, and hands the node back for more changes.
    pub fn with_parent(&mut self, p: ElementId) -> (node: &mut GuiTreeNode)
        ensures
            node@.parent == Some(p),
            node@.children == old(self)@.children,
            *final(self) == *final(node),
    {
        self.parent = Some(p);
        self
    }

    /// Adds `c` behind the children, and hands the node back for more
    /// changes.
    pub fn with_child(&mut self, c: ElementId) -> (node: &mut GuiTreeNode)
        ensures
            node@.parent == old(self)@.parent,
            node@.children == old(self)@.children.push(c),
            *final(self) == *final(node),
    {
        self.children.push(c);
        self
    }

    /// Adds the elements of `cn`, in order, behind the children, and hands
    /// the node back for more changes.
    pub fn with_children(&mut self, cn: &[ElementId]) -> (node: &mut GuiTreeNode)
        ensures
            node@.parent == old(self)@.parent,
            node@.children == old(self)@.children + cn@,
            *final(self) == *final(node),
    {
        self.children.extend_from_slice(cn);
        self
    }

    /// The parent, if there is one.
    pub fn parent(&self) -> (p: &Option<ElementId>)
        ensures
            *p == self@.parent,
    {
        &self.parent
    }

    /// The children, in order.
    pub fn children(&self) -> (cn: &Vec<ElementId>)
        ensures
            cn@ == self@.children,
    {
        &self.children
    }

    /// Removes the first occurrence of `c` among the children, moving the
    /// last child into its place. Without such a child nothing changes.
    pub fn remove_child(&mut self, c: ElementId)
        ensures
            final(self)@.parent == old(self)@.parent,
            final(self)@.children == without_first(old(self)@.children, c),
    {
        let n = self.children.len();
        let mut c_idx: usize = n;
        let mut child: usize = 0;
        while child < n
            invariant_except_break
                child <= n,
                c_idx == n,
                forall|i: int| 0 <= i < child ==> self.children@[i] != c,
            invariant
                n == self.children@.len(),
                *self == *old(self),
            ensures
                *self == *old(self),
                n == self.children@.len(),
                c_idx <= n,
                c_idx < n ==> self.children@[c_idx as int] == c,
                forall|i: int| 0 <= i < c_idx ==> self.children@[i] != c,
            decreases n - child,
        {
            if c == self.children[child] {
                c_idx = child;
                break ;
            }
            child = child + 1;
        }
        proof {
            lemma_first_index_of(self.children@, c);
            assert(first_index_of(self.children@, c) == c_idx) by {
                let at = first_index_of(self.children@, c);
                if at < c_idx {
                    assert(self.children@[at] == c);
                }
            }
        }
        if c_idx != n {
            self.children.swap_remove(c_idx);
        }
    }
}

} // verus!
