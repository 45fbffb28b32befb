//! Structural edits of a group: inserting and removing children and turning
//! the orientation. Each edit is logged; geometry changes only at the next
//! commit.

use crate::additions::{inserted, removed, strictly_ascending, within};
use crate::geometry::{Axis, Orientation};
use crate::layout::{may_nest, primary_sum, GroupNode, Node, WindowNode};
use vstd::prelude::*;

verus! {

/// Inserting a node adds its primary extent to the sum.
pub proof fn primary_sum_insert<Window>(
    nodes: Seq<Node<Window>>,
    at: int,
    node: Node<Window>,
    axis: Axis,
)
    requires
        0 <= at <= nodes.len(),
    ensures
        primary_sum(nodes.insert(at, node), axis) == primary_sum(nodes, axis) + node.spec_primary(
            axis,
        ),
    decreases nodes.len(),
{
    let grown = nodes.insert(at, node);
    if at == nodes.len() {
        assert(grown.drop_last() =~= nodes);
    } else {
        primary_sum_insert(nodes.drop_last(), at, node, axis);
        assert(grown.drop_last() =~= nodes.drop_last().insert(at, node));
        assert(grown.last() == nodes.last());
    }
}

/// Removing a node takes its primary extent from the sum.
pub proof fn primary_sum_remove<Window>(nodes: Seq<Node<Window>>, at: int, axis: Axis)
    requires
        0 <= at < nodes.len(),
    ensures
        primary_sum(nodes.remove(at), axis) == primary_sum(nodes, axis) - nodes[at].spec_primary(
            axis,
        ),
        primary_sum(nodes.remove(at), axis) >= 0,
    decreases nodes.len(),
{
    let shrunk = nodes.remove(at);
    if at == nodes.len() - 1 {
        assert(shrunk =~= nodes.drop_last());
        primary_sum_not_negative(shrunk, axis);
    } else {
        primary_sum_remove(nodes.drop_last(), at, axis);
        assert(shrunk.drop_last() =~= nodes.drop_last().remove(at));
        assert(shrunk.last() == nodes.last());
    }
}

/// A sum of extents is not negative.
pub proof fn primary_sum_not_negative<Window>(nodes: Seq<Node<Window>>, axis: Axis)
    ensures
        primary_sum(nodes, axis) >= 0,
    decreases nodes.len(),
{
    if nodes.len() > 0 {
        primary_sum_not_negative(nodes.drop_last(), axis);
    }
}

/// A blank node may stand in any group.
pub proof fn blank_may_nest<Window>(node: Node<Window>)
    requires
        GroupNode::<Window>::is_blank(node),
    ensures
        may_nest(node),
{
    if let Node::Group(group) = node {
        assert(group.nodes@.len() == 0);
        assert(primary_sum(group.nodes@, group.orientation.spec_axis()) == 0);
    }
}

impl<Window> GroupNode<Window> {
    /// The storage slot at which a child is inserted to stand at logical
    /// `index` afterwards.
    pub open spec fn insertion_slot(&self, index: int) -> int {
        if self.spec_orientation().spec_reversed() {
            self.nodes.len() - index
        } else {
            index
        }
    }

    /// A node as it is inserted: without a size, and, where it is a group,
    /// empty.
    pub open spec fn is_blank(node: Node<Window>) -> bool {
        match node {
            Node::Window(window) => window.width == 0 && window.height == 0,
            Node::Group(group) => group.is_fresh(group.orientation, 0, 0),
        }
    }

    /// What an insertion of `node` at logical `index` makes of `before`.
    pub open spec fn inserted_into(
        &self,
        before: GroupNode<Window>,
        index: int,
        node: Node<Window>,
    ) -> bool {
        let slot = before.insertion_slot(index);
        &&& self.nodes@ == before.nodes@.insert(slot, node)
        &&& self.children() == before.children().insert(index, node)
        &&& self.additions@ == inserted(before.additions@, slot as usize)
        &&& *self == (GroupNode { nodes: self.nodes, additions: self.additions, ..before })
    }

    /// Turns the effective orientation by `rotations` quarter turns,
    /// clockwise where positive and counter-clockwise where negative. The
    /// result is pending until the next commit.
    pub fn rotate_by(&mut self, rotations: i32)
        ensures
            *final(self) == (GroupNode {
                new_orientation: Some(old(self).spec_orientation().rotated(rotations as int)),
                ..*old(self)
            }),
            final(self).spec_orientation() == old(self).spec_orientation().rotated(
                rotations as int,
            ),
    {
        let turned = self.orientation().rotated_by(rotations);
        self.set_orientation(turned);
    }

    /// Asks for a new orientation, to be taken at the next commit; it is the
    /// effective orientation from now on.
    pub fn set_orientation(&mut self, new: Orientation)
        ensures
            *final(self) == (GroupNode { new_orientation: Some(new), ..*old(self) }),
            final(self).spec_orientation() == new,
    {
        self.new_orientation = Some(new);
    }

    /// Removes the child at logical `index` and returns it. Its primary
    /// extent along the committed axis is added to the removed total.
    pub fn remove(&mut self, index: usize) -> (node: Node<Window>)
        requires
            old(self).wf(),
            index < old(self).nodes.len(),
        ensures
            final(self).wf(),
            node == old(self).children()[index as int],
            node == old(self).nodes[old(self).slot(index as int)],
            final(self).nodes@ == old(self).nodes@.remove(old(self).slot(index as int)),
            final(self).children() == old(self).children().remove(index as int),
            final(self).additions@ == removed(
                old(self).additions@,
                old(self).slot(index as int) as usize,
            ),
            final(self).total_removed_primary == old(self).total_removed_primary
                + node.spec_primary(old(self).orientation.spec_axis()),
            *final(self) == (GroupNode {
                nodes: final(self).nodes,
                additions: final(self).additions,
                total_removed_primary: final(self).total_removed_primary,
                ..*old(self)
            }),
    {
        let len: usize = self.nodes.len();
        let slot: usize = if self.orientation().reversed() {
            len - 1 - index
        } else {
            index
        };
        proof {
            primary_sum_remove(self.nodes@, slot as int, self.orientation.spec_axis());
        }
        let node = self.nodes.remove(slot);
        self.track_remove(slot);
        self.total_removed_primary = self.total_removed_primary + node.primary(
            self.orientation.axis(),
        );
        assert(self.children() =~= old(self).children().remove(index as int));
        node
    }

    /// Appends a window leaf without a size at the logical end of the group.
    pub fn push_window(&mut self, window: Window)
        requires
            old(self).wf(),
            old(self).nodes.len() < usize::MAX,
        ensures
            final(self).wf(),
            final(self).inserted_into(
                *old(self),
                old(self).nodes.len() as int,
                Node::Window(WindowNode { window, width: 0, height: 0 }),
            ),
    {
        self.push_node(Node::new_window(window, 0, 0));
    }

    /// Inserts a window leaf without a size at logical `index`.
    pub fn insert_window(&mut self, index: usize, window: Window)
        requires
            old(self).wf(),
            index <= old(self).nodes.len() < usize::MAX,
        ensures
            final(self).wf(),
            final(self).inserted_into(
                *old(self),
                index as int,
                Node::Window(WindowNode { window, width: 0, height: 0 }),
            ),
    {
        self.insert_node(index, Node::new_window(window, 0, 0));
    }

    /// Appends an empty group of the given orientation, without a size, at
    /// the logical end of the group.
    pub fn push_group(&mut self, orientation: Orientation)
        requires
            old(self).wf(),
            old(self).nodes.len() < usize::MAX,
        ensures
            final(self).wf(),
            exists|node: Node<Window>|
                {
                    &&& node is Group
                    &&& node->Group_0.is_fresh(orientation, 0, 0)
                    &&& #[trigger] final(self).inserted_into(
                        *old(self),
                        old(self).nodes.len() as int,
                        node,
                    )
                },
    {
        self.push_node(Node::new_group(orientation, 0, 0));
    }

    /// Inserts an empty group of the given orientation, without a size, at
    /// logical `index`.
    pub fn insert_group(&mut self, index: usize, orientation: Orientation)
        requires
            old(self).wf(),
            index <= old(self).nodes.len() < usize::MAX,
        ensures
            final(self).wf(),
            exists|node: Node<Window>|
                {
                    &&& node is Group
                    &&& node->Group_0.is_fresh(orientation, 0, 0)
                    &&& #[trigger] final(self).inserted_into(*old(self), index as int, node)
                },
    {
        self.insert_node(index, Node::new_group(orientation, 0, 0));
    }

    /// Inserts a blank node at logical `index`.
    fn insert_node(&mut self, index: usize, node: Node<Window>)
        requires
            old(self).wf(),
            index <= old(self).nodes.len() < usize::MAX,
            Self::is_blank(node),
        ensures
            final(self).wf(),
            final(self).inserted_into(*old(self), index as int, node),
    {
        let len: usize = self.nodes.len();
        let slot: usize = if self.orientation().reversed() {
            len - index
        } else {
            index
        };
        proof {
            primary_sum_insert(self.nodes@, slot as int, node, self.orientation.spec_axis());
            blank_may_nest(node);
        }
        self.nodes.insert(slot, node);
        self.track_insert(slot);
        assert forall|i: int| 0 <= i < self.nodes.len() implies may_nest(
            #[trigger] self.nodes[i],
        ) by {
            if i < slot {
                assert(self.nodes[i] == old(self).nodes[i]);
            } else if i > slot {
                assert(self.nodes[i] == old(self).nodes[i - 1]);
            }
        }
        assert(self.children() =~= old(self).children().insert(index as int, node));
    }

    /// Appends a blank node at the logical end of the group: in the last
    /// storage slot, or in the first where the group is reversed.
    fn push_node(&mut self, node: Node<Window>)
        requires
            old(self).wf(),
            old(self).nodes.len() < usize::MAX,
            Self::is_blank(node),
        ensures
            final(self).wf(),
            final(self).inserted_into(*old(self), old(self).nodes.len() as int, node),
    {
        if !self.orientation().reversed() {
            proof {
                blank_may_nest(node);
                primary_sum_insert(
                    self.nodes@,
                    self.nodes.len() as int,
                    node,
                    self.orientation.spec_axis(),
                );
                assert(self.nodes@.push(node) =~= self.nodes@.insert(
                    self.nodes.len() as int,
                    node,
                ));
            }
            self.nodes.push(node);
            self.track_push();
            assert forall|i: int| 0 <= i < self.nodes.len() implies may_nest(
                #[trigger] self.nodes[i],
            ) by {
                if i < old(self).nodes.len() {
                    assert(self.nodes[i] == old(self).nodes[i]);
                }
            }
            assert(self.children() =~= old(self).children().insert(
                old(self).nodes.len() as int,
                node,
            ));
        } else {
            proof {
                blank_may_nest(node);
                primary_sum_insert(self.nodes@, 0, node, self.orientation.spec_axis());
            }
            self.nodes.insert(0, node);
            self.track_insert(0);
            assert forall|i: int| 0 <= i < self.nodes.len() implies may_nest(
                #[trigger] self.nodes[i],
            ) by {
                if i > 0 {
                    assert(self.nodes[i] == old(self).nodes[i - 1]);
                }
            }
            assert(self.children() =~= old(self).children().insert(
                old(self).nodes.len() as int,
                node,
            ));
        }
    }

    /// Logs the child that was just inserted at storage slot `index`.
    fn track_insert(&mut self, index: usize)
        requires
            strictly_ascending(old(self).additions@),
            within(old(self).additions@, old(self).nodes.len() - 1),
            index < old(self).nodes.len(),
        ensures
            final(self).additions@ == inserted(old(self).additions@, index),
            strictly_ascending(final(self).additions@),
            within(final(self).additions@, final(self).nodes.len() as int),
            *final(self) == (GroupNode { additions: final(self).additions, ..*old(self) }),
    {
        crate::additions::track_insert(&mut self.additions, index);
    }

    /// Logs the child that was just pushed into the last storage slot.
    fn track_push(&mut self)
        requires
            strictly_ascending(old(self).additions@),
            within(old(self).additions@, old(self).nodes.len() - 1),
            old(self).nodes.len() > 0,
        ensures
            final(self).additions@ == inserted(
                old(self).additions@,
                (old(self).nodes.len() - 1) as usize,
            ),
            strictly_ascending(final(self).additions@),
            within(final(self).additions@, final(self).nodes.len() as int),
            *final(self) == (GroupNode { additions: final(self).additions, ..*old(self) }),
    {
        let index: usize = self.nodes.len() - 1;
        crate::additions::track_push(&mut self.additions, index);
    }

    /// Logs the removal of the child that stood at storage slot `index`.
    fn track_remove(&mut self, index: usize)
        requires
            strictly_ascending(old(self).additions@),
            within(old(self).additions@, old(self).nodes.len() + 1),
            index <= old(self).nodes.len(),
        ensures
            final(self).additions@ == removed(old(self).additions@, index),
            strictly_ascending(final(self).additions@),
            within(final(self).additions@, final(self).nodes.len() as int),
            *final(self) == (GroupNode { additions: final(self).additions, ..*old(self) }),
    {
        crate::additions::track_remove(&mut self.additions, index);
    }
}

} // verus!
