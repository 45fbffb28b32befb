//! The node tree: window leaves and groups of nodes, with the geometry each
//! node holds and the invariant that ties a group's bookkeeping to its
//! children.

use crate::additions::{strictly_ascending, within};
use crate::geometry::{Axis, Orientation};
use vstd::prelude::*;

verus! {

/// A leaf: one client window and the size it was last given.
#[derive(Debug, PartialEq, Eq)]
pub struct WindowNode<Window> {
    pub window: Window,
    pub width: u32,
    pub height: u32,
}

/// A node of the tree: a window or a nested group.
#[derive(Debug, PartialEq, Eq)]
pub enum Node<Window> {
    Window(WindowNode<Window>),
    Group(GroupNode<Window>),
}

/// A group: children laid out along one orientation, and the log of what
/// changed since the group was last committed.
#[derive(Debug, PartialEq, Eq)]
pub struct GroupNode<Window> {
    /// The committed orientation.
    pub orientation: Orientation,
    /// The children, in storage order.
    pub nodes: Vec<Node<Window>>,
    /// The primary extents handed out at the last commit, summed.
    pub total_node_primary: u32,
    /// The storage slots of the children inserted since the last commit.
    pub additions: Vec<usize>,
    /// The primary extents of the children removed since the last commit,
    /// summed.
    pub total_removed_primary: u32,
    /// The orientation to take at the next commit, if any.
    pub new_orientation: Option<Orientation>,
    /// The width to take at the next commit, if any.
    pub new_width: Option<u32>,
    /// The height to take at the next commit, if any.
    pub new_height: Option<u32>,
    /// The committed width.
    pub width: u32,
    /// The committed height.
    pub height: u32,
}

/// The root group of a tree of windows.
#[derive(Debug, PartialEq, Eq)]
pub struct TilingLayout<Window> {
    pub root: GroupNode<Window>,
}

/// The extent along `axis` of a `width` by `height` rectangle.
pub open spec fn along(axis: Axis, width: u32, height: u32) -> u32 {
    match axis {
        Axis::Horizontal => width,
        Axis::Vertical => height,
    }
}

/// The primary extents of `nodes` along `axis`, summed.
pub open spec fn primary_sum<Window>(nodes: Seq<Node<Window>>, axis: Axis) -> int
    decreases nodes.len(),
{
    if nodes.len() == 0 {
        0
    } else {
        primary_sum(nodes.drop_last(), axis) + nodes.last().spec_primary(axis)
    }
}

/// Whether `node` may stand in a group: a window may, and a nested group
/// that meets the invariant and has no size pending.
pub open spec fn may_nest<Window>(node: Node<Window>) -> bool {
    match node {
        Node::Window(_) => true,
        Node::Group(group) => group.new_width is None && group.new_height is None && group.wf(),
    }
}

impl<Window> WindowNode<Window> {
    /// Creates a leaf for `window` of the given size.
    pub fn new(window: Window, width: u32, height: u32) -> (out: Self)
        ensures
            out == (WindowNode { window, width, height }),
    {
        WindowNode { window, width, height }
    }
}

impl<Window> Node<Window> {
    /// The node's width.
    pub open spec fn spec_width(&self) -> u32 {
        match *self {
            Node::Window(node) => node.width,
            Node::Group(node) => node.width,
        }
    }

    /// The node's height.
    pub open spec fn spec_height(&self) -> u32 {
        match *self {
            Node::Window(node) => node.height,
            Node::Group(node) => node.height,
        }
    }

    /// The node has no size: it was inserted and not committed yet.
    pub open spec fn is_unsized(&self) -> bool {
        self.spec_width() == 0 && self.spec_height() == 0
    }

    /// The node's extent along `axis`, the axis of the group it is in.
    pub open spec fn spec_primary(&self, axis: Axis) -> u32 {
        along(axis, self.spec_width(), self.spec_height())
    }

    /// The node's extent across `axis`.
    pub open spec fn spec_secondary(&self, axis: Axis) -> u32 {
        along(axis.spec_flipped(), self.spec_width(), self.spec_height())
    }

    /// The node with its width replaced.
    pub open spec fn with_width(self, width: u32) -> Node<Window> {
        match self {
            Node::Window(node) => Node::Window(WindowNode { width, ..node }),
            Node::Group(node) => Node::Group(GroupNode { width, ..node }),
        }
    }

    /// The node with its height replaced.
    pub open spec fn with_height(self, height: u32) -> Node<Window> {
        match self {
            Node::Window(node) => Node::Window(WindowNode { height, ..node }),
            Node::Group(node) => Node::Group(GroupNode { height, ..node }),
        }
    }

    /// The node with its extent along `axis` set to `primary` and its extent
    /// across it set to `secondary`.
    pub open spec fn with_size(self, primary: u32, secondary: u32, axis: Axis) -> Node<Window> {
        match axis {
            Axis::Horizontal => self.with_width(primary).with_height(secondary),
            Axis::Vertical => self.with_height(primary).with_width(secondary),
        }
    }

    /// Creates a window node.
    pub fn new_window(window: Window, width: u32, height: u32) -> (out: Self)
        ensures
            out == Node::Window(WindowNode { window, width, height }),
    {
        Node::Window(WindowNode::new(window, width, height))
    }

    /// Creates an empty group node.
    pub fn new_group(orientation: Orientation, width: u32, height: u32) -> (out: Self)
        ensures
            out is Group,
            out->Group_0.is_fresh(orientation, width, height),
    {
        Node::Group(GroupNode::new(orientation, width, height))
    }

    /// Returns the width of the node.
    #[verifier::when_used_as_spec(spec_width)]
    pub fn width(&self) -> (out: u32)
        ensures
            out == self.spec_width(),
    {
        match self {
            Node::Window(node) => node.width,
            Node::Group(node) => node.width,
        }
    }

    /// Returns the height of the node.
    #[verifier::when_used_as_spec(spec_height)]
    pub fn height(&self) -> (out: u32)
        ensures
            out == self.spec_height(),
    {
        match self {
            Node::Window(node) => node.height,
            Node::Group(node) => node.height,
        }
    }

    /// Sets the width of the node.
    pub fn set_width(&mut self, width: u32)
        ensures
            *final(self) == old(self).with_width(width),
    {
        match self {
            Node::Window(node) => node.width = width,
            Node::Group(node) => node.width = width,
        }
    }

    /// Sets the height of the node.
    pub fn set_height(&mut self, height: u32)
        ensures
            *final(self) == old(self).with_height(height),
    {
        match self {
            Node::Window(node) => node.height = height,
            Node::Group(node) => node.height = height,
        }
    }

    /// Returns the primary extent of the node: the one along `axis`.
    #[verifier::when_used_as_spec(spec_primary)]
    pub fn primary(&self, axis: Axis) -> (out: u32)
        ensures
            out == self.spec_primary(axis),
    {
        match axis {
            Axis::Horizontal => self.width(),
            Axis::Vertical => self.height(),
        }
    }

    /// Returns the secondary extent of the node: the one across `axis`.
    #[verifier::when_used_as_spec(spec_secondary)]
    pub fn secondary(&self, axis: Axis) -> (out: u32)
        ensures
            out == self.spec_secondary(axis),
    {
        match axis {
            Axis::Horizontal => self.height(),
            Axis::Vertical => self.width(),
        }
    }

    /// Sets the primary extent of the node.
    pub fn set_primary(&mut self, primary: u32, axis: Axis)
        ensures
            *final(self) == match axis {
                Axis::Horizontal => old(self).with_width(primary),
                Axis::Vertical => old(self).with_height(primary),
            },
    {
        match axis {
            Axis::Horizontal => self.set_width(primary),
            Axis::Vertical => self.set_height(primary),
        }
    }

    /// Sets the secondary extent of the node.
    pub fn set_secondary(&mut self, secondary: u32, axis: Axis)
        ensures
            *final(self) == match axis {
                Axis::Horizontal => old(self).with_height(secondary),
                Axis::Vertical => old(self).with_width(secondary),
            },
    {
        match axis {
            Axis::Horizontal => self.set_height(secondary),
            Axis::Vertical => self.set_width(secondary),
        }
    }
}

impl<Window> GroupNode<Window> {
    /// An empty group with nothing pending.
    pub open spec fn is_fresh(&self, orientation: Orientation, width: u32, height: u32) -> bool {
        &&& self.orientation == orientation
        &&& self.nodes@ == Seq::<Node<Window>>::empty()
        &&& self.total_node_primary == 0
        &&& self.additions@ == Seq::<usize>::empty()
        &&& self.total_removed_primary == 0
        &&& self.new_orientation is None
        &&& self.new_width is None
        &&& self.new_height is None
        &&& self.width == width
        &&& self.height == height
    }

    /// The effective orientation: the pending one where there is one, else
    /// the committed one.
    pub open spec fn spec_orientation(&self) -> Orientation {
        match self.new_orientation {
            Some(orientation) => orientation,
            None => self.orientation,
        }
    }

    /// The storage slot of the child at logical `index`: the same slot in a
    /// group that is not reversed, counted from the end in one that is.
    pub open spec fn slot(&self, index: int) -> int {
        if self.spec_orientation().spec_reversed() {
            self.nodes.len() - 1 - index
        } else {
            index
        }
    }

    /// The children in logical order.
    pub open spec fn children(&self) -> Seq<Node<Window>> {
        Seq::new(self.nodes.len() as nat, |index: int| self.nodes[self.slot(index)])
    }

    /// The index transform: in a group that is not reversed a logical index
    /// is the storage slot; in a reversed group of `n` children the logical
    /// index `i` is the storage slot `n - 1 - i`. Either way the transform
    /// stays within the group and undoes itself.
    pub proof fn index_transform(&self, index: int)
        requires
            0 <= index < self.nodes.len(),
        ensures
            !self.spec_orientation().spec_reversed() ==> self.slot(index) == index,
            self.spec_orientation().spec_reversed() ==> self.slot(index) == self.nodes.len() - 1
                - index,
            0 <= self.slot(index) < self.nodes.len(),
            self.slot(self.slot(index)) == index,
            self.children()[index] == self.nodes[self.slot(index)],
    {
    }

    /// Whether anything is pending at this group itself.
    pub open spec fn spec_changes_made(&self) -> bool {
        ||| self.additions.len() != 0
        ||| self.total_removed_primary != 0
        ||| self.new_orientation is Some
        ||| self.new_width is Some
        ||| self.new_height is Some
    }

    /// The invariant of a group. The log of additions is sorted, without
    /// duplicates, and names slots of the group; the children in those
    /// slots have no size yet. The primary extents of the children along the
    /// committed axis, with those that were removed since the last commit,
    /// add up to the total of the last commit. Every nested group meets the
    /// invariant too and has no size pending: its size is the one its parent
    /// gave it.
    pub open spec fn wf(&self) -> bool
        decreases self.nodes,
    {
        &&& strictly_ascending(self.additions@)
        &&& within(self.additions@, self.nodes.len() as int)
        &&& forall|j: int|
            0 <= j < self.additions.len() ==> self.nodes[(#[trigger] self.additions[j]) as int].is_unsized()
        &&& primary_sum(self.nodes@, self.orientation.spec_axis()) + self.total_removed_primary
            == self.total_node_primary
        &&& forall|i: int|
            0 <= i < self.nodes.len() ==> match #[trigger] self.nodes[i] {
                Node::Window(_) => true,
                Node::Group(group) => group.new_width is None && group.new_height is None
                    && group.wf(),
            }
    }

    /// Creates an empty group of the given orientation and size.
    pub fn new(orientation: Orientation, width: u32, height: u32) -> (out: Self)
        ensures
            out.is_fresh(orientation, width, height),
            out.wf(),
    {
        GroupNode {
            orientation,
            nodes: Vec::new(),
            total_node_primary: 0,
            additions: Vec::new(),
            total_removed_primary: 0,
            new_orientation: None,
            new_width: None,
            new_height: None,
            width,
            height,
        }
    }

    /// Returns the number of children of the group; their own children are
    /// not counted.
    pub fn len(&self) -> (out: usize)
        ensures
            out == self.nodes.len(),
    {
        self.nodes.len()
    }

    /// Returns whether the group has no children.
    pub fn is_empty(&self) -> (out: bool)
        ensures
            out == (self.nodes.len() == 0),
    {
        self.nodes.len() == 0
    }

    /// Returns the group's effective orientation.
    #[verifier::when_used_as_spec(spec_orientation)]
    pub fn orientation(&self) -> (out: Orientation)
        ensures
            out == self.spec_orientation(),
    {
        match self.new_orientation {
            Some(orientation) => orientation,
            None => self.orientation,
        }
    }

    /// Returns the child at logical `index`, or `None` if there is none.
    pub fn get(&self, index: usize) -> (out: Option<&Node<Window>>)
        ensures
            index < self.nodes.len() ==> out == Some(&self.nodes[self.slot(index as int)]),
            index < self.nodes.len() ==> out == Some(&self.children()[index as int]),
            index >= self.nodes.len() ==> out is None,
    {
        let len: usize = self.nodes.len();
        if index < len {
            let slot: usize = if self.orientation().reversed() {
                len - 1 - index
            } else {
                index
            };
            Some(&self.nodes[slot])
        } else {
            None
        }
    }

    /// Returns a mutable reference to the child at logical `index`, or `None`
    /// if there is none. What is written through it lands in that child and
    /// nowhere else.
    pub fn get_mut(&mut self, index: usize) -> (out: Option<&mut Node<Window>>)
        ensures
            index >= old(self).nodes.len() ==> out is None && *final(self) == *old(self),
            index < old(self).nodes.len() ==> {
                &&& out is Some
                &&& *out->Some_0 == old(self).nodes[old(self).slot(index as int)]
                &&& final(self).nodes@ == old(self).nodes@.update(
                    old(self).slot(index as int),
                    *final(out->Some_0),
                )
                &&& *final(self) == (GroupNode { nodes: final(self).nodes, ..*old(self) })
            },
    {
        let len: usize = self.nodes.len();
        if index < len {
            let slot: usize = if self.orientation().reversed() {
                len - 1 - index
            } else {
                index
            };
            Some(&mut self.nodes[slot])
        } else {
            None
        }
    }

    /// Returns the child at logical `index`, which must be one.
    pub fn index(&self, index: usize) -> (out: &Node<Window>)
        requires
            index < self.nodes.len(),
        ensures
            *out == self.nodes[self.slot(index as int)],
            *out == self.children()[index as int],
    {
        let len: usize = self.nodes.len();
        if self.orientation().reversed() {
            &self.nodes[len - 1 - index]
        } else {
            &self.nodes[index]
        }
    }

    /// Returns a mutable reference to the child at logical `index`, which
    /// must be one. What is written through it lands in that child and
    /// nowhere else.
    pub fn index_mut(&mut self, index: usize) -> (out: &mut Node<Window>)
        requires
            index < old(self).nodes.len(),
        ensures
            *out == old(self).nodes[old(self).slot(index as int)],
            final(self).nodes@ == old(self).nodes@.update(
                old(self).slot(index as int),
                *final(out),
            ),
            *final(self) == (GroupNode { nodes: final(self).nodes, ..*old(self) }),
    {
        let len: usize = self.nodes.len();
        if self.orientation().reversed() {
            &mut self.nodes[len - 1 - index]
        } else {
            &mut self.nodes[index]
        }
    }

    /// Returns the first child in logical order, or `None` if the group is
    /// empty.
    pub fn first(&self) -> (out: Option<&Node<Window>>)
        ensures
            self.nodes.len() > 0 ==> out == Some(&self.children()[0]),
            self.nodes.len() == 0 ==> out is None,
    {
        self.get(0)
    }

    /// Returns the last child in logical order, or `None` if the group is
    /// empty.
    pub fn last(&self) -> (out: Option<&Node<Window>>)
        ensures
            self.nodes.len() > 0 ==> out == Some(&self.children()[self.nodes.len() - 1]),
            self.nodes.len() == 0 ==> out is None,
    {
        let len: usize = self.nodes.len();
        if len == 0 {
            None
        } else {
            self.get(len - 1)
        }
    }

    /// Returns a mutable reference to the first child in logical order, or
    /// `None` if the group is empty.
    pub fn first_mut(&mut self) -> (out: Option<&mut Node<Window>>)
        ensures
            old(self).nodes.len() == 0 ==> out is None && *final(self) == *old(self),
            old(self).nodes.len() > 0 ==> {
                &&& out is Some
                &&& *out->Some_0 == old(self).nodes[old(self).slot(0)]
                &&& final(self).nodes@ == old(self).nodes@.update(
                    old(self).slot(0),
                    *final(out->Some_0),
                )
                &&& *final(self) == (GroupNode { nodes: final(self).nodes, ..*old(self) })
            },
    {
        self.get_mut(0)
    }

    /// Returns a mutable reference to the last child in logical order, or
    /// `None` if the group is empty.
    pub fn last_mut(&mut self) -> (out: Option<&mut Node<Window>>)
        ensures
            old(self).nodes.len() == 0 ==> out is None && *final(self) == *old(self),
            old(self).nodes.len() > 0 ==> {
                &&& out is Some
                &&& *out->Some_0 == old(self).nodes[old(self).slot(old(self).nodes.len() - 1)]
                &&& final(self).nodes@ == old(self).nodes@.update(
                    old(self).slot(old(self).nodes.len() - 1),
                    *final(out->Some_0),
                )
                &&& *final(self) == (GroupNode { nodes: final(self).nodes, ..*old(self) })
            },
    {
        let len: usize = self.nodes.len();
        if len == 0 {
            None
        } else {
            self.get_mut(len - 1)
        }
    }

    /// The committed extent of the group along its effective axis.
    pub open spec fn spec_primary(&self) -> u32 {
        along(self.spec_orientation().spec_axis(), self.width, self.height)
    }

    /// The committed extent of the group across its effective axis.
    pub open spec fn spec_secondary(&self) -> u32 {
        along(self.spec_orientation().spec_axis().spec_flipped(), self.width, self.height)
    }

    /// Returns the committed extent of the group along its effective axis.
    #[verifier::when_used_as_spec(spec_primary)]
    pub fn primary(&self) -> (out: u32)
        ensures
            out == self.spec_primary(),
    {
        match self.orientation().axis() {
            Axis::Horizontal => self.width,
            Axis::Vertical => self.height,
        }
    }

    /// Returns the committed extent of the group across its effective axis.
    #[verifier::when_used_as_spec(spec_secondary)]
    pub fn secondary(&self) -> (out: u32)
        ensures
            out == self.spec_secondary(),
    {
        match self.orientation().axis() {
            Axis::Horizontal => self.height,
            Axis::Vertical => self.width,
        }
    }

    /// Asks for a new width, to be taken at the next commit.
    pub fn set_width(&mut self, width: u32)
        ensures
            *final(self) == (GroupNode { new_width: Some(width), ..*old(self) }),
    {
        self.new_width = Some(width);
    }

    /// Asks for a new height, to be taken at the next commit.
    pub fn set_height(&mut self, height: u32)
        ensures
            *final(self) == (GroupNode { new_height: Some(height), ..*old(self) }),
    {
        self.new_height = Some(height);
    }

    /// Asks for a new extent along the effective axis.
    pub fn set_primary(&mut self, primary: u32)
        ensures
            *final(self) == match old(self).spec_orientation().spec_axis() {
                Axis::Horizontal => (GroupNode { new_width: Some(primary), ..*old(self) }),
                Axis::Vertical => (GroupNode { new_height: Some(primary), ..*old(self) }),
            },
    {
        match self.orientation().axis() {
            Axis::Horizontal => self.set_width(primary),
            Axis::Vertical => self.set_height(primary),
        }
    }

    /// Asks for a new extent across the effective axis.
    pub fn set_secondary(&mut self, secondary: u32)
        ensures
            *final(self) == match old(self).spec_orientation().spec_axis() {
                Axis::Horizontal => (GroupNode { new_height: Some(secondary), ..*old(self) }),
                Axis::Vertical => (GroupNode { new_width: Some(secondary), ..*old(self) }),
            },
    {
        match self.orientation().axis() {
            Axis::Horizontal => self.set_height(secondary),
            Axis::Vertical => self.set_width(secondary),
        }
    }

    /// Returns whether anything is pending at this group itself: an
    /// addition, a removal, or a new orientation, width or height.
    #[verifier::when_used_as_spec(spec_changes_made)]
    pub fn changes_made(&self) -> (out: bool)
        ensures
            out == self.spec_changes_made(),
    {
        self.additions.len() != 0 || self.total_removed_primary != 0
            || self.new_orientation.is_some() || self.new_width.is_some()
            || self.new_height.is_some()
    }
}

impl<Window> TilingLayout<Window> {
    /// Creates an empty layout of the given orientation and size.
    pub fn new(orientation: Orientation, width: u32, height: u32) -> (out: Self)
        ensures
            out.root.is_fresh(orientation, width, height),
            out.root.wf(),
    {
        TilingLayout { root: GroupNode::new(orientation, width, height) }
    }

    /// Returns the root group.
    pub fn borrow(&self) -> (out: &GroupNode<Window>)
        ensures
            *out == self.root,
    {
        &self.root
    }

    /// Returns the root group, to edit it.
    pub fn borrow_mut(&mut self) -> (out: &mut GroupNode<Window>)
        ensures
            *out == old(self).root,
            final(self).root == *final(out),
    {
        &mut self.root
    }
}

impl<Window> std::ops::Deref for TilingLayout<Window> {
    type Target = GroupNode<Window>;

    /// A layout stands for its root group.
    fn deref(&self) -> (out: &GroupNode<Window>)
        ensures
            *out == self.root,
    {
        &self.root
    }
}

impl<Window> std::ops::DerefMut for TilingLayout<Window> {
    /// A layout stands for its root group, for edits too.
    fn deref_mut(&mut self) -> (out: &mut GroupNode<Window>)
        ensures
            *out == old(self).root,
            final(self).root == *final(out),
    {
        &mut self.root
    }
}

} // verus!
