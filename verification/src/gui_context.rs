//! The elements of a GUI: which slots are taken, how the elements hang
//! together, and where each is placed.

use crate::bounds::{Bounds, Position, Size};
use crate::element_id::ElementId;
use crate::gui_tree_node::{GuiTreeNode, NodeView};
use std::collections::VecDeque;
use vstd::prelude::*;

verus! {

/// The elements of a GUI, each in a slot.
///
/// A slot holds the identifier of its element, the element's node in the
/// tree, and its bounds. A deleted element leaves its slot with generation
/// 0, and the slot is handed out again under the next generation. The
/// identifiers to hand out wait in a queue, which is never empty: behind the
/// slots that were given back stands the first slot that was never taken.
pub struct GuiContext {
    elements: Vec<ElementId>,
    free_id_queue: VecDeque<ElementId>,
    hierarchy: Vec<GuiTreeNode>,
    bounds: Vec<Bounds>,
}

/// The nodes with the node of slot `parent` given the child `id`, where
/// there is a parent.
pub open spec fn nodes_with_child(
    nodes: Seq<NodeView>,
    parent: Option<ElementId>,
    id: ElementId,
) -> Seq<NodeView> {
    match parent {
        Some(p) => nodes.update(
            p.id as int,
            NodeView {
                parent: nodes[p.id as int].parent,
                children: nodes[p.id as int].children.push(id),
            },
        ),
        None => nodes,
    }
}

/// `s` with `x` in slot `at`: in place of what the slot holds where it
/// exists, behind the last slot where `at` is the next one.
pub open spec fn put<T>(s: Seq<T>, at: int, x: T) -> Seq<T> {
    if at < s.len() {
        s.update(at, x)
    } else {
        s.push(x)
    }
}

/// The identifier under which the slot of a deleted `id` is handed out
/// again: the next generation, and generation 1 after the last one.
pub open spec fn next_generation(id: ElementId) -> ElementId {
    if id.gen == u32::MAX {
        ElementId { id: id.id, gen: 1 }
    } else {
        ElementId { id: id.id, gen: (id.gen + 1) as u32 }
    }
}

impl GuiContext {
    /// The identifier held in each slot.
    pub closed spec fn elements(&self) -> Seq<ElementId> {
        self.elements@
    }

    /// The tree node of each slot.
    pub closed spec fn nodes(&self) -> Seq<NodeView> {
        self.hierarchy@.map_values(|n: GuiTreeNode| n@)
    }

    /// The bounds of each slot.
    pub closed spec fn bounds(&self) -> Seq<Bounds> {
        self.bounds@
    }

    /// The identifiers to hand out, the next one first.
    pub closed spec fn free_ids(&self) -> Seq<ElementId> {
        self.free_id_queue@
    }

    /// The context is well formed: every slot has an identifier, a node
    /// and bounds; there is an identifier to hand out; the last one to hand
    /// out is the first slot never taken, and the others are slots taken
    /// before; every identifier to hand out has a generation of at least 1,
    /// which tells it from a deleted element.
    pub open spec fn wf(&self) -> bool {
        &&& self.nodes().len() == self.elements().len()
        &&& self.bounds().len() == self.elements().len()
        &&& self.free_ids().len() > 0
        &&& self.free_ids().last() == (ElementId { id: self.elements().len() as u32, gen: 1 })
        &&& forall|i: int|
            0 <= i < self.free_ids().len() - 1 ==> (#[trigger] self.free_ids()[i]).id
                < self.elements().len()
        &&& forall|i: int| 0 <= i < self.free_ids().len() ==> (#[trigger] self.free_ids()[i]).gen >= 1
        &&& self.elements().len() <= u32::MAX
    }

    /// `id` names a live element: its slot exists and holds its generation.
    pub open spec fn is_live(&self, id: ElementId) -> bool {
        id.id < self.elements().len() && id.gen == self.elements()[id.id as int].gen
    }

    /// A context without elements, whose first identifier is slot 0 in
    /// generation 1.
    pub fn new() -> (gui: GuiContext)
        ensures
            gui.wf(),
            gui.elements().len() == 0,
            gui.free_ids() == seq![ElementId { id: 0, gen: 1 }],
    {
        let elem: Vec<ElementId> = Vec::new();
        let mut q: VecDeque<ElementId> = VecDeque::new();
        q.push_front(ElementId::new(0, 1));
        let gui = GuiContext {
            elements: elem,
            free_id_queue: q,
            hierarchy: Vec::new(),
            bounds: Vec::new(),
        };
        assert(gui.free_ids() =~= seq![ElementId { id: 0, gen: 1 }]);
        assert(gui.nodes().len() == 0);
        gui
    }

    /// Adds an element with the bounds `b` under `parent`, and gives its
    /// identifier, which is the next one to hand out.
    ///
    /// The element takes the slot of its identifier, with a node that has
    /// the parent given and no children; the parent's node gets the element
    /// as its last child.
    pub fn add_elem(&mut self, parent: Option<ElementId>, b: Bounds) -> (id: ElementId)
        requires
            old(self).wf(),
            parent matches Some(p) ==> p.id < old(self).elements().len(),
            old(self).free_ids().len() == 1 ==> old(self).elements().len() < u32::MAX,
        ensures
            final(self).wf(),
            id == old(self).free_ids()[0],
            id.gen >= 1,
            final(self).is_live(id),
            final(self).elements() == put(old(self).elements(), id.id as int, id),
            final(self).bounds() == put(old(self).bounds(), id.id as int, b),
            final(self).nodes() == put(
                nodes_with_child(old(self).nodes(), parent, id),
                id.id as int,
                NodeView { parent, children: Seq::empty() },
            ),
            final(self).free_ids() == if old(self).free_ids().len() == 1 {
                seq![ElementId { id: final(self).elements().len() as u32, gen: 1 }]
            } else {
                old(self).free_ids().drop_first()
            },
    {
        let id = self.free_id_queue.pop_front().unwrap();
        let mut node = GuiTreeNode::new();
        match parent {
            Some(parent_id) => {
                node.with_parent(parent_id);
                self.hierarchy[parent_id.id as usize].with_child(id);
            },
            None => {},
        };
        assert(self.nodes() =~= nodes_with_child(old(self).nodes(), parent, id));
        assert(node@ == NodeView { parent, children: Seq::empty() });

        if self.elements.len() > id.id as usize {
            self.elements[id.id as usize] = id;
            self.hierarchy[id.id as usize] = node;
            self.bounds[id.id as usize] = b;
        } else {
            self.elements.push(id);
            self.hierarchy.push(node);
            self.bounds.push(b);
        }
        assert(self.nodes() =~= put(
            nodes_with_child(old(self).nodes(), parent, id),
            id.id as int,
            NodeView { parent, children: Seq::empty() },
        ));

        if self.free_id_queue.len() == 0 {
            self.free_id_queue.push_back(ElementId::new(self.elements.len() as u32, 1));
        }
        assert(self.free_ids() =~= if old(self).free_ids().len() == 1 {
            seq![ElementId { id: self.elements().len() as u32, gen: 1 }]
        } else {
            old(self).free_ids().drop_first()
        });
        id
    }

    /// Deletes the live element `id`: its slot gets generation 0, an empty
    /// node and empty bounds, and is the next to be handed out, under the
    /// next generation. For an `id` that names no live element nothing
    /// changes and the error says so.
    pub fn delete(&mut self, id: ElementId) -> (r: Result<(), String>)
        requires
            old(self).wf(),
        ensures
            final(self).wf(),
            r is Ok <==> old(self).is_live(id),
            r matches Err(msg) ==> msg@ == "Not a valid Element ID"@ && *final(self) == *old(self),
            r is Ok ==> {
                &&& final(self).elements() == old(self).elements().update(
                    id.id as int,
                    ElementId { id: old(self).elements()[id.id as int].id, gen: 0 },
                )
                &&& final(self).nodes() == old(self).nodes().update(
                    id.id as int,
                    NodeView { parent: None, children: Seq::empty() },
                )
                &&& final(self).bounds().len() == old(self).bounds().len()
                &&& forall|i: int|
                    0 <= i < old(self).bounds().len() && i != id.id ==> final(self).bounds()[i]
                        == old(self).bounds()[i]
                &&& final(self).bounds()[id.id as int].spec_position() == Position::Absolute(
                    (0, 0),
                )
                &&& final(self).bounds()[id.id as int].spec_size() == Size::Absolute((0, 0))
                &&& final(self).free_ids() == seq![next_generation(id)] + old(self).free_ids()
            },
    {
        if (id.id as usize) < self.elements.len() && id.gen == self.elements[id.id as usize].gen {
            if id.gen == u32::MAX {
                self.free_id_queue.push_front(ElementId::new(id.id, 1));
            } else {
                self.free_id_queue.push_front(ElementId::new(id.id, id.gen + 1));
            }
            assert(self.free_ids() =~= seq![next_generation(id)] + old(self).free_ids());

            self.elements[id.id as usize].gen = 0;
            self.hierarchy[id.id as usize] = GuiTreeNode::new();
            self.bounds[id.id as usize] = Bounds::new(
                Position::Absolute((0, 0)),
                Size::Absolute((0, 0)),
            );
            assert(self.nodes() =~= old(self).nodes().update(
                id.id as int,
                NodeView { parent: None, children: Seq::empty() },
            ));
            Ok(())
        } else {
            Err(String::from_str("Not a valid Element ID"))
        }
    }

    /// The identifier, the tree node and the bounds of each slot.
    pub fn get_data(&self) -> (data: (&Vec<ElementId>, &Vec<GuiTreeNode>, &Vec<Bounds>))
        ensures
            data.0@ == self.elements(),
            data.1@.map_values(|n: GuiTreeNode| n@) == self.nodes(),
            data.2@ == self.bounds(),
    {
        (&self.elements, &self.hierarchy, &self.bounds)
    }
}

} // verus!
