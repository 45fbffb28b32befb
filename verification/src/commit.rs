//! The commit: the pass that turns what is pending in a group and in the
//! groups below it into sizes, and hands each window its new size.

use crate::geometry::Axis;
use crate::layout::{along, may_nest, primary_sum, GroupNode, Node};
use vstd::prelude::*;

verus! {

/// The share of `budget` that falls to an extent of `primary` out of
/// `baseline`, rounded down; nothing where the baseline is nothing.
pub open spec fn scaled(primary: int, budget: int, baseline: int) -> int {
    if baseline <= 0 {
        0
    } else {
        primary * budget / baseline
    }
}

/// The sum over a prefix of a sequence of nodes grows with the prefix.
pub proof fn primary_sum_step<Window>(nodes: Seq<Node<Window>>, upto: int, axis: Axis)
    requires
        0 <= upto < nodes.len(),
    ensures
        primary_sum(nodes.take(upto + 1), axis) == primary_sum(nodes.take(upto), axis)
            + nodes[upto].spec_primary(axis),
        0 <= primary_sum(nodes.take(upto), axis) <= primary_sum(nodes.take(upto + 1), axis)
            <= primary_sum(nodes, axis),
    decreases nodes.len() - upto,
{
    assert(nodes.take(upto + 1).drop_last() =~= nodes.take(upto));
    crate::changes::primary_sum_not_negative(nodes.take(upto), axis);
    if upto + 1 == nodes.len() {
        assert(nodes.take(upto + 1) =~= nodes);
    } else {
        primary_sum_step(nodes, upto + 1, axis);
    }
}

impl<Window> GroupNode<Window> {
    /// The width the group has once committed.
    pub open spec fn next_width(&self) -> u32 {
        match self.new_width {
            Some(width) => width,
            None => self.width,
        }
    }

    /// The height the group has once committed.
    pub open spec fn next_height(&self) -> u32 {
        match self.new_height {
            Some(height) => height,
            None => self.height,
        }
    }

    /// The extent of the committed group along its axis.
    pub open spec fn next_primary(&self) -> u32 {
        along(self.spec_orientation().spec_axis(), self.next_width(), self.next_height())
    }

    /// The extent of the committed group across its axis.
    pub open spec fn next_secondary(&self) -> u32 {
        along(
            self.spec_orientation().spec_axis().spec_flipped(),
            self.next_width(),
            self.next_height(),
        )
    }

    /// The total that the children had at the last commit, less what was
    /// removed since.
    pub open spec fn baseline(&self) -> int {
        self.total_node_primary - self.total_removed_primary
    }

    /// The primary extent that every addition gets: an equal part of the
    /// group, rounded down; nothing in a group without children.
    pub open spec fn addition_share(&self) -> int {
        if self.nodes.len() == 0 {
            0
        } else {
            self.next_primary() as int / self.nodes.len() as int
        }
    }

    /// What is left of the group's primary extent for the children that are
    /// no additions.
    pub open spec fn rescale_budget(&self) -> int {
        self.next_primary() - self.addition_share() * self.additions.len()
    }

    /// The primary extent that the commit gives to the child in storage
    /// slot `slot`: the addition share for an addition; for another child
    /// its old extent along the old axis, scaled by the budget over the
    /// baseline and rounded down.
    pub open spec fn share(&self, slot: int) -> int {
        if self.additions@.contains(slot as usize) {
            self.addition_share()
        } else {
            scaled(
                self.nodes[slot].spec_primary(self.orientation.spec_axis()) as int,
                self.rescale_budget(),
                self.baseline(),
            )
        }
    }

    /// The shares of the children in the first `upto` storage slots, summed.
    pub open spec fn share_sum(&self, upto: int) -> int
        decreases upto,
    {
        if upto <= 0 {
            0
        } else {
            self.share_sum(upto - 1) + self.share(upto - 1)
        }
    }

    /// Computes the primary extent that a commit gives to each child, by
    /// storage slot, and their total. The total never exceeds the primary
    /// extent of the group.
    pub fn shares(&self) -> (out: (Vec<u32>, u32))
        requires
            self.wf(),
        ensures
            out.0.len() == self.nodes.len(),
            forall|slot: int| 0 <= slot < self.nodes.len() ==> out.0[slot] == self.share(slot),
            out.1 == self.share_sum(self.nodes.len() as int),
            out.1 <= self.next_primary(),
    {
        let old_axis = self.orientation.axis();
        let new_axis = self.orientation().axis();
        let width: u32 = match self.new_width {
            Some(width) => width,
            None => self.width,
        };
        let height: u32 = match self.new_height {
            Some(height) => height,
            None => self.height,
        };
        let group_primary: u32 = match new_axis {
            Axis::Horizontal => width,
            Axis::Vertical => height,
        };
        let len: usize = self.nodes.len();
        let count: usize = self.additions.len();
        proof {
            crate::changes::primary_sum_not_negative(self.nodes@, old_axis);
            additions_fit(self.additions@, len as int);
        }
        let baseline: u32 = self.total_node_primary - self.total_removed_primary;
        let new_primary: u32 = if len == 0 {
            0
        } else {
            ((group_primary as u64) / (len as u64)) as u32
        };
        assert(new_primary as int * count as int <= group_primary as int) by (nonlinear_arith)
            requires
                count <= len,
                len == 0 ==> new_primary == 0,
                len > 0 ==> new_primary as int == group_primary as int / len as int,
        ;
        let mut total: u32 = ((new_primary as u64) * (count as u64)) as u32;
        let rescaling_primary: u32 = group_primary - total;
        let mut plan: Vec<u32> = Vec::new();
        let mut next: usize = 0;
        let mut index: usize = 0;
        while index < len
            invariant
                self.wf(),
                len == self.nodes.len(),
                count == self.additions.len(),
                old_axis == self.orientation.spec_axis(),
                baseline == self.baseline(),
                new_primary == self.addition_share(),
                rescaling_primary == self.rescale_budget(),
                group_primary == self.next_primary(),
                baseline == primary_sum(self.nodes@, old_axis),
                index <= len,
                next <= count,
                plan.len() == index,
                forall|j: int| 0 <= j < next ==> self.additions[j] < index,
                forall|j: int| next <= j < count ==> self.additions[j] >= index,
                forall|slot: int| 0 <= slot < index ==> plan[slot] == self.share(slot),
                self.share_sum(index as int) == new_primary * next + (total - new_primary * count),
                new_primary * count <= total <= group_primary,
                (total - new_primary * count) * baseline <= rescaling_primary * primary_sum(
                    self.nodes@.take(index as int),
                    old_axis,
                ),
            decreases len - index,
        {
            proof {
                primary_sum_step(self.nodes@, index as int, old_axis);
            }
            let ghost before_sum = primary_sum(self.nodes@.take(index as int), old_axis);
            let old_primary: u32 = self.nodes[index].primary(old_axis);
            if next < count && self.additions[next] == index {
                assert(self.additions@[next as int] == index);
                assert(self.additions@.contains(index));
                plan.push(new_primary);
                assert(rescaling_primary * before_sum <= rescaling_primary * (before_sum
                    + old_primary)) by (nonlinear_arith)
                    requires
                        rescaling_primary >= 0,
                        old_primary >= 0,
                ;
                assert(new_primary * (next + 1) == new_primary * next + new_primary)
                    by (nonlinear_arith);
                next += 1;
            } else {
                assert(!self.additions@.contains(index)) by {
                    assert forall|j: int| 0 <= j < count implies self.additions@[j] != index by {
                        if j > next {
                            assert(self.additions@[next as int] < self.additions@[j]);
                        }
                    }
                }
                let rescaled: u32 = if baseline == 0 {
                    0
                } else {
                    proof {
                        scaled_within(
                            old_primary as int,
                            rescaling_primary as int,
                            baseline as int,
                            (total - new_primary * count) as int,
                            before_sum,
                        );
                    }
                    assert((old_primary as u64) * (rescaling_primary as u64)
                        <= 0xffff_ffff_0000_0000u64) by (nonlinear_arith)
                        requires
                            old_primary <= 0xffff_ffffu32,
                            rescaling_primary <= 0xffff_ffffu32,
                    ;
                    (((old_primary as u64) * (rescaling_primary as u64)) / (baseline as u64)) as u32
                };
                assert(rescaled == scaled(
                    old_primary as int,
                    rescaling_primary as int,
                    baseline as int,
                ));
                assert(total + rescaled <= group_primary);
                plan.push(rescaled);
                total = total + rescaled;
            }
            index += 1;
        }
        assert(next == count) by {
            if next < count {
                assert(self.additions@[next as int] < len);
            }
        }
        (plan, total)
    }
}

/// Whether storage slot `slot` is among the first `done` children in
/// logical order of a group of `len` children.
pub open spec fn reached(slot: int, done: int, reversed: bool, len: int) -> bool {
    if reversed {
        slot >= len - done
    } else {
        slot < done
    }
}

/// Whether `resize_window` was handed `window` with the two extents and
/// returned without an error.
pub open spec fn accepted<Window, Error, Resize: Fn(&Window, u32, u32) -> Result<(), Error>>(
    resize_window: Resize,
    window: Window,
    primary: u32,
    secondary: u32,
) -> bool {
    exists|done: Result<(), Error>|
        done is Ok && #[trigger] call_ensures(resize_window, (&window, primary, secondary), done)
}

/// What a commit makes of a child of a group with nothing pending: a window
/// stays as it is, a nested group is committed.
pub open spec fn kept<Window, Error, Resize: Fn(&Window, u32, u32) -> Result<(), Error>>(
    before: Node<Window>,
    after: Node<Window>,
    resize_window: Resize,
) -> bool
    decreases before, 1int,
{
    match before {
        Node::Window(_) => after == before,
        Node::Group(group) => after is Group && settles(group, after->Group_0, resize_window),
    }
}

/// What a commit makes of a child of a group with something pending: the
/// child takes the size it is given; a window is handed that size through
/// `resize_window`, which accepted it; a nested group is then committed
/// itself.
pub open spec fn placed<Window, Error, Resize: Fn(&Window, u32, u32) -> Result<(), Error>>(
    before: Node<Window>,
    after: Node<Window>,
    primary: u32,
    secondary: u32,
    axis: Axis,
    resize_window: Resize,
) -> bool
    decreases before, 1int,
{
    match before.with_size(primary, secondary, axis) {
        Node::Window(window) => {
            &&& after == Node::Window(window)
            &&& accepted(resize_window, window.window, primary, secondary)
        },
        Node::Group(group) => {
            &&& after is Group
            &&& before is Group
            &&& group.nodes == before->Group_0.nodes
            &&& settles(group, after->Group_0, resize_window)
        },
    }
}

/// What a commit makes of a group. Where nothing is pending at the group
/// itself, it stays as it is, its windows too, and each nested group is
/// committed. Where something is pending, the group takes its pending
/// orientation, width and height, its log is cleared, each child gets its
/// share along the new axis and the whole extent of the group across it, and
/// the shares are summed into the new total.
pub open spec fn settles<Window, Error, Resize: Fn(&Window, u32, u32) -> Result<(), Error>>(
    before: GroupNode<Window>,
    after: GroupNode<Window>,
    resize_window: Resize,
) -> bool
    decreases before.nodes, 0int,
{
    &&& after.nodes.len() == before.nodes.len()
    &&& if !before.spec_changes_made() {
        &&& after == (GroupNode { nodes: after.nodes, ..before })
        &&& forall|slot: int|
            0 <= slot < before.nodes.len() ==> kept(
                before.nodes[slot],
                #[trigger] after.nodes[slot],
                resize_window,
            )
    } else {
        &&& after.staged_from(before)
        &&& after.total_node_primary == before.share_sum(before.nodes.len() as int)
        &&& forall|slot: int|
            0 <= slot < before.nodes.len() ==> placed(
                before.nodes[slot],
                #[trigger] after.nodes[slot],
                before.share(slot) as u32,
                before.next_secondary(),
                before.spec_orientation().spec_axis(),
                resize_window,
            )
    }
}

/// How a commit that ended in the error `out` left a child of a group with
/// nothing pending: the child is a nested group, and its own commit ended in
/// that error.
pub open spec fn broke_kept<Window, Error, Resize: Fn(&Window, u32, u32) -> Result<(), Error>>(
    before: Node<Window>,
    after: Node<Window>,
    resize_window: Resize,
    out: Result<(), Error>,
) -> bool
    decreases before, 1int,
{
    match before {
        Node::Window(_) => false,
        Node::Group(group) => after is Group && stopped(
            group,
            after->Group_0,
            resize_window,
            out,
        ),
    }
}

/// How a commit that ended in the error `out` left the child it ended at,
/// in a group with something pending: the child has the size it was given;
/// a window was handed that size and `resize_window` returned the error; a
/// nested group's own commit ended in the error.
pub open spec fn broke_placed<Window, Error, Resize: Fn(&Window, u32, u32) -> Result<(), Error>>(
    before: Node<Window>,
    after: Node<Window>,
    primary: u32,
    secondary: u32,
    axis: Axis,
    resize_window: Resize,
    out: Result<(), Error>,
) -> bool
    decreases before, 1int,
{
    match before.with_size(primary, secondary, axis) {
        Node::Window(window) => {
            &&& after == Node::Window(window)
            &&& call_ensures(resize_window, (&window.window, primary, secondary), out)
        },
        Node::Group(group) => {
            &&& after is Group
            &&& before is Group
            &&& group.nodes == before->Group_0.nodes
            &&& stopped(group, after->Group_0, resize_window, out)
        },
    }
}

/// How a commit that ended in the error `out` left a group. Where nothing
/// was pending at the group itself, its own fields are as they were. Where
/// something was, the group has taken its pending orientation, width and
/// height and its log is cleared, but its total is the old one. The error
/// came at one child, in storage slot `at`: the children before it in
/// logical order are committed, those after it are untouched, and the child
/// itself is where the error left it.
pub open spec fn stopped<Window, Error, Resize: Fn(&Window, u32, u32) -> Result<(), Error>>(
    before: GroupNode<Window>,
    after: GroupNode<Window>,
    resize_window: Resize,
    out: Result<(), Error>,
) -> bool
    decreases before.nodes, 0int,
{
    let len = before.nodes.len() as int;
    let reversed = before.spec_orientation().spec_reversed();
    &&& out is Err
    &&& after.nodes.len() == len
    &&& if !before.spec_changes_made() {
        after == (GroupNode { nodes: after.nodes, ..before })
    } else {
        after.staged_from(before) && after.total_node_primary == before.total_node_primary
    }
    &&& exists|at: int|
        #![trigger after.nodes[at]]
        {
            let done = if reversed {
                len - 1 - at
            } else {
                at
            };
            &&& 0 <= at < len
            &&& forall|slot: int|
                0 <= slot < len && reached(slot, done, reversed, len) ==> if before.spec_changes_made() {
                    placed(
                        before.nodes[slot],
                        #[trigger] after.nodes[slot],
                        before.share(slot) as u32,
                        before.next_secondary(),
                        before.spec_orientation().spec_axis(),
                        resize_window,
                    )
                } else {
                    kept(before.nodes[slot], #[trigger] after.nodes[slot], resize_window)
                }
            &&& forall|slot: int|
                0 <= slot < len && !reached(slot, done + 1, reversed, len) ==> (
                #[trigger] after.nodes[slot]) == before.nodes[slot]
            &&& if before.spec_changes_made() {
                broke_placed(
                    before.nodes[at],
                    after.nodes[at],
                    before.share(at) as u32,
                    before.next_secondary(),
                    before.spec_orientation().spec_axis(),
                    resize_window,
                    out,
                )
            } else {
                broke_kept(before.nodes[at], after.nodes[at], resize_window, out)
            }
        }
}

/// Commits a child of a group with nothing pending: a nested group is
/// committed, a window is left as it is.
fn keep<Window, Error, Resize: Fn(&Window, u32, u32) -> Result<(), Error>>(
    node: &mut Node<Window>,
    resize_window: &Resize,
) -> (out: Result<(), Error>)
    requires
        may_nest(*old(node)),
        forall|window: &Window, p: u32, s: u32| call_requires(*resize_window, (window, p, s)),
    ensures
        out is Ok ==> {
            &&& kept(*old(node), *final(node), *resize_window)
            &&& may_nest(*final(node))
            &&& final(node).spec_width() == old(node).spec_width()
            &&& final(node).spec_height() == old(node).spec_height()
        },
        out is Err ==> broke_kept(*old(node), *final(node), *resize_window, out),
    decreases *old(node), 1int,
{
    let out = match node {
        Node::Group(group) => group.apply_changes(resize_window),
        Node::Window(_) => Ok(()),
    };
    out
}

/// Gives `node` its size within its parent and commits it: a window is
/// handed the size through `resize_window`, a nested group is committed with
/// the same callback.
fn place<Window, Error, Resize: Fn(&Window, u32, u32) -> Result<(), Error>>(
    node: &mut Node<Window>,
    primary: u32,
    secondary: u32,
    axis: Axis,
    resize_window: &Resize,
) -> (out: Result<(), Error>)
    requires
        may_nest(*old(node)),
        forall|window: &Window, p: u32, s: u32| call_requires(*resize_window, (window, p, s)),
    ensures
        out is Ok ==> {
            &&& placed(*old(node), *final(node), primary, secondary, axis, *resize_window)
            &&& may_nest(*final(node))
            &&& final(node).spec_primary(axis) == primary
            &&& final(node).spec_secondary(axis) == secondary
        },
        out is Err ==> broke_placed(
            *old(node),
            *final(node),
            primary,
            secondary,
            axis,
            *resize_window,
            out,
        ),
    decreases *old(node), 1int,
{
    node.set_primary(primary, axis);
    node.set_secondary(secondary, axis);
    assert(*node == old(node).with_size(primary, secondary, axis));
    let out = match node {
        Node::Group(group) => group.apply_changes(resize_window),
        Node::Window(window) => resize_window(&window.window, primary, secondary),
    };
    out
}

impl<Window> GroupNode<Window> {
    /// The group has taken what was pending in `before`: its orientation,
    /// width and height are those that `before` was to take, nothing is
    /// pending any more, and the log is cleared.
    pub open spec fn staged_from(&self, before: GroupNode<Window>) -> bool {
        &&& self.orientation == before.spec_orientation()
        &&& self.width == before.next_width()
        &&& self.height == before.next_height()
        &&& self.new_orientation is None
        &&& self.new_width is None
        &&& self.new_height is None
        &&& self.additions@ == Seq::<usize>::empty()
        &&& self.total_removed_primary == 0
    }

    /// Commits the group and the groups below it: realises what is pending
    /// as sizes and hands each resized window to `resize_window`, with its
    /// primary and its secondary extent. Children are visited in logical
    /// order. The first error of `resize_window` ends the commit and is
    /// returned; what was done until then stays done, and what was pending
    /// in the groups that the commit had entered is dropped.
    pub fn apply_changes<Error, Resize: Fn(&Window, u32, u32) -> Result<(), Error>>(
        &mut self,
        resize_window: &Resize,
    ) -> (out: Result<(), Error>)
        requires
            old(self).wf(),
            forall|window: &Window, p: u32, s: u32| call_requires(*resize_window, (window, p, s)),
        ensures
            final(self).nodes.len() == old(self).nodes.len(),
            out is Ok ==> {
                &&& settles(*old(self), *final(self), *resize_window)
                &&& final(self).wf()
                &&& final(self).new_width is None
                &&& final(self).new_height is None
                &&& final(self).width == old(self).next_width()
                &&& final(self).height == old(self).next_height()
            },
            out is Ok && old(self).spec_changes_made() ==> {
                &&& final(self).staged_from(*old(self))
                &&& final(self).total_node_primary == old(self).share_sum(
                    old(self).nodes.len() as int,
                )
                &&& final(self).total_node_primary <= final(self).spec_primary()
                &&& forall|slot: int|
                    0 <= slot < final(self).nodes.len() ==> {
                        &&& (#[trigger] final(self).nodes[slot]).spec_primary(
                            final(self).orientation.spec_axis(),
                        ) == old(self).share(slot)
                        &&& final(self).nodes[slot].spec_secondary(
                            final(self).orientation.spec_axis(),
                        ) == final(self).spec_secondary()
                    }
            },
            out is Err ==> stopped(*old(self), *final(self), *resize_window, out),
        decreases old(self).nodes, 0int,
    {
        let ghost before = *self;
        let len: usize = self.nodes.len();
        if !self.changes_made() {
            let reversed: bool = self.orientation().reversed();
            let mut index: usize = 0;
            while index < len
                invariant
                    index <= len,
                    len == before.nodes.len(),
                    self.nodes.len() == len,
                    before == *old(self),
                    before.wf(),
                    !before.spec_changes_made(),
                    reversed == before.spec_orientation().spec_reversed(),
                    *self == (GroupNode { nodes: self.nodes, ..before }),
                    forall|window: &Window, p: u32, s: u32|
                        call_requires(*resize_window, (window, p, s)),
                    forall|slot: int|
                        0 <= slot < len && reached(slot, index as int, reversed, len as int)
                            ==> kept(
                            before.nodes[slot],
                            #[trigger] self.nodes[slot],
                            *resize_window,
                        ) && may_nest(self.nodes[slot]) && self.nodes[slot].spec_width()
                            == before.nodes[slot].spec_width() && self.nodes[slot].spec_height()
                            == before.nodes[slot].spec_height(),
                    forall|slot: int|
                        0 <= slot < len && !reached(slot, index as int, reversed, len as int)
                            ==> (#[trigger] self.nodes[slot]) == before.nodes[slot],
                decreases len - index,
            {
                let slot: usize = if reversed {
                    len - 1 - index
                } else {
                    index
                };
                assert(self.nodes[slot as int] == before.nodes[slot as int]);
                assert(may_nest(before.nodes[slot as int]));
                let node = &mut self.nodes[slot];
                let out = keep(node, resize_window);
                match out {
                    Ok(()) => {},
                    Err(_) => {
                        assert(broke_kept(
                            before.nodes[slot as int],
                            self.nodes[slot as int],
                            *resize_window,
                            out,
                        ));
                        return out;
                    },
                }
                index += 1;
            }
            proof {
                primary_sum_same(self.nodes@, before.nodes@, before.orientation.spec_axis());
            }
            return Ok(());
        }
        let (plan, total) = self.shares();
        self.additions = Vec::new();
        self.total_removed_primary = 0;
        if let Some(orientation) = self.new_orientation {
            self.orientation = orientation;
        }
        if let Some(width) = self.new_width {
            self.width = width;
        }
        if let Some(height) = self.new_height {
            self.height = height;
        }
        self.new_orientation = None;
        self.new_width = None;
        self.new_height = None;
        let axis = self.orientation.axis();
        let reversed: bool = self.orientation.reversed();
        let secondary: u32 = self.secondary();
        let ghost staged = *self;
        let mut index: usize = 0;
        while index < len
            invariant
                index <= len,
                len == before.nodes.len(),
                self.nodes.len() == len,
                before == *old(self),
                before.wf(),
                before.spec_changes_made(),
                staged.staged_from(before),
                staged.total_node_primary == before.total_node_primary,
                *self == (GroupNode { nodes: self.nodes, ..staged }),
                plan.len() == len,
                forall|slot: int| 0 <= slot < len ==> plan[slot] == before.share(slot),
                axis == before.spec_orientation().spec_axis(),
                reversed == before.spec_orientation().spec_reversed(),
                secondary == before.next_secondary(),
                forall|window: &Window, p: u32, s: u32|
                    call_requires(*resize_window, (window, p, s)),
                forall|slot: int|
                    0 <= slot < len && reached(slot, index as int, reversed, len as int)
                        ==> placed(
                        before.nodes[slot],
                        #[trigger] self.nodes[slot],
                        plan[slot],
                        secondary,
                        axis,
                        *resize_window,
                    ) && may_nest(self.nodes[slot]) && self.nodes[slot].spec_primary(axis)
                        == plan[slot] && self.nodes[slot].spec_secondary(axis) == secondary,
                forall|slot: int|
                    0 <= slot < len && !reached(slot, index as int, reversed, len as int)
                        ==> (#[trigger] self.nodes[slot]) == before.nodes[slot],
            decreases len - index,
        {
            let slot: usize = if reversed {
                len - 1 - index
            } else {
                index
            };
            assert(self.nodes[slot as int] == before.nodes[slot as int]);
            assert(may_nest(before.nodes[slot as int]));
            let share: u32 = plan[slot];
            let node = &mut self.nodes[slot];
            let out = place(node, share, secondary, axis, resize_window);
            match out {
                Ok(()) => {},
                Err(_) => {
                    assert(broke_placed(
                        before.nodes[slot as int],
                        self.nodes[slot as int],
                        plan[slot as int],
                        secondary,
                        axis,
                        *resize_window,
                        out,
                    ));
                    return out;
                },
            }
            index += 1;
        }
        self.total_node_primary = total;
        proof {
            primary_sum_of_shares(self.nodes@, before, axis, len as int);
            assert(self.nodes@.take(len as int) =~= self.nodes@);
        }
        Ok(())
    }
}

/// Two sequences of nodes whose extents agree slot by slot have the same sum.
pub proof fn primary_sum_same<Window>(left: Seq<Node<Window>>, right: Seq<Node<Window>>, axis: Axis)
    requires
        left.len() == right.len(),
        forall|slot: int|
            0 <= slot < left.len() ==> (#[trigger] left[slot]).spec_primary(axis)
                == right[slot].spec_primary(axis),
    ensures
        primary_sum(left, axis) == primary_sum(right, axis),
    decreases left.len(),
{
    if left.len() > 0 {
        assert(left.last() == left[left.len() - 1]);
        assert forall|slot: int| 0 <= slot < left.drop_last().len() implies (
        #[trigger] left.drop_last()[slot]).spec_primary(axis) == right.drop_last()[slot].spec_primary(
            axis,
        ) by {
            assert(left.drop_last()[slot] == left[slot]);
        }
        primary_sum_same(left.drop_last(), right.drop_last(), axis);
    }
}

/// Children that each hold their share hold the sum of the shares together.
pub proof fn primary_sum_of_shares<Window>(
    nodes: Seq<Node<Window>>,
    before: GroupNode<Window>,
    axis: Axis,
    upto: int,
)
    requires
        0 <= upto <= nodes.len(),
        forall|slot: int|
            0 <= slot < nodes.len() ==> (#[trigger] nodes[slot]).spec_primary(axis)
                == before.share(slot),
    ensures
        primary_sum(nodes.take(upto), axis) == before.share_sum(upto),
    decreases upto,
{
    if upto > 0 {
        primary_sum_of_shares(nodes, before, axis, upto - 1);
        primary_sum_step(nodes, upto - 1, axis);
    }
}

/// A sorted log without duplicates that names slots below `len` has at most
/// `len` entries.
pub proof fn additions_fit(log: Seq<usize>, len: int)
    requires
        0 <= len,
        crate::additions::strictly_ascending(log),
        crate::additions::within(log, len),
    ensures
        log.len() <= len,
    decreases log.len(),
{
    if log.len() > 0 {
        let shorter = log.drop_last();
        assert(log.last() == log[log.len() - 1]);
        assert(log[log.len() - 1] < len);
        assert forall|i: int| 0 <= i < shorter.len() implies (#[trigger] shorter[i]) < len - 1 by {
            assert(shorter[i] == log[i]);
            assert(log[i] < log[log.len() - 1]);
        }
        assert forall|i: int, j: int| 0 <= i < j < shorter.len() implies shorter[i]
            < shorter[j] by {
            assert(log[i] < log[j]);
        }
        additions_fit(shorter, len - 1);
    }
}

/// One more scaled share keeps the scaled shares within the budget, as long
/// as the extents scaled so far stay within the baseline.
pub proof fn scaled_within(primary: int, budget: int, baseline: int, given: int, summed: int)
    requires
        0 <= primary,
        0 <= budget,
        0 < baseline,
        0 <= given,
        0 <= summed,
        summed + primary <= baseline,
        given * baseline <= budget * summed,
    ensures
        0 <= primary * budget / baseline,
        (given + primary * budget / baseline) * baseline <= budget * (summed + primary),
        given + primary * budget / baseline <= budget,
        primary * budget <= budget * baseline,
{
    let share = primary * budget / baseline;
    assert(0 <= share && share * baseline <= primary * budget) by (nonlinear_arith)
        requires
            share == primary * budget / baseline,
            0 <= primary,
            0 <= budget,
            0 < baseline,
    ;
    assert((given + share) * baseline <= budget * (summed + primary)) by (nonlinear_arith)
        requires
            share * baseline <= primary * budget,
            given * baseline <= budget * summed,
    ;
    assert(budget * (summed + primary) <= budget * baseline) by (nonlinear_arith)
        requires
            0 <= budget,
            summed + primary <= baseline,
    ;
    assert(given + share <= budget) by (nonlinear_arith)
        requires
            (given + share) * baseline <= budget * baseline,
            0 < baseline,
    ;
    assert(primary * budget <= budget * baseline) by (nonlinear_arith)
        requires
            0 <= budget,
            primary <= baseline,
    ;
}

impl<Window> GroupNode<Window> {
    /// Nothing is pending at the group, nor at any group below it.
    pub open spec fn quiet(&self) -> bool
        decreases self.nodes,
    {
        &&& !self.spec_changes_made()
        &&& forall|slot: int|
            0 <= slot < self.nodes.len() ==> match #[trigger] self.nodes[slot] {
                Node::Window(_) => true,
                Node::Group(group) => group.quiet(),
            }
    }
}

/// `after` is `before` in every field, and its children are the children of
/// `before`, each in its slot and each the same in turn.
pub open spec fn unchanged<Window>(before: GroupNode<Window>, after: GroupNode<Window>) -> bool
    decreases before.nodes,
{
    &&& after == (GroupNode { nodes: after.nodes, ..before })
    &&& after.nodes.len() == before.nodes.len()
    &&& forall|slot: int|
        0 <= slot < before.nodes.len() ==> match before.nodes[slot] {
            Node::Window(_) => (#[trigger] after.nodes[slot]) == before.nodes[slot],
            Node::Group(group) => (#[trigger] after.nodes[slot]) is Group && unchanged(
                group,
                after.nodes[slot]->Group_0,
            ),
        }
}

/// A commit of a group with nothing pending, in itself or below, changes
/// nothing: no size, no orientation and no bookkeeping, at any depth.
pub proof fn commit_of_quiet_group<Window, Error, Resize: Fn(&Window, u32, u32) -> Result<(), Error>>(
    before: GroupNode<Window>,
    after: GroupNode<Window>,
    resize_window: Resize,
)
    requires
        before.quiet(),
        settles(before, after, resize_window),
    ensures
        unchanged(before, after),
    decreases before.nodes,
{
    assert forall|slot: int| 0 <= slot < before.nodes.len() implies match before.nodes[slot] {
        Node::Window(_) => (#[trigger] after.nodes[slot]) == before.nodes[slot],
        Node::Group(group) => (#[trigger] after.nodes[slot]) is Group && unchanged(
            group,
            after.nodes[slot]->Group_0,
        ),
    } by {
        if let Node::Group(group) = before.nodes[slot] {
            commit_of_quiet_group(group, after.nodes[slot]->Group_0, resize_window);
        }
    }
}

impl<Window> GroupNode<Window> {
    /// The primary extents along the committed axis of the children in the
    /// first `upto` storage slots that are no additions, summed.
    pub open spec fn old_primary_sum(&self, upto: int) -> int
        decreases upto,
    {
        if upto <= 0 {
            0
        } else {
            self.old_primary_sum(upto - 1) + if self.additions@.contains((upto - 1) as usize) {
                0
            } else {
                self.nodes[upto - 1].spec_primary(self.orientation.spec_axis()) as int
            }
        }
    }

    /// The extents of the children that are no additions add up to the
    /// extents of all children, over any number of slots: an addition has
    /// no extent yet.
    pub proof fn old_children_hold_the_sum(&self, upto: int)
        requires
            self.wf(),
            0 <= upto <= self.nodes.len(),
        ensures
            self.old_primary_sum(upto) == primary_sum(
                self.nodes@.take(upto),
                self.orientation.spec_axis(),
            ),
        decreases upto,
    {
        if upto > 0 {
            self.old_children_hold_the_sum(upto - 1);
            primary_sum_step(self.nodes@, upto - 1, self.orientation.spec_axis());
            if self.additions@.contains((upto - 1) as usize) {
                let j = choose|j: int|
                    0 <= j < self.additions@.len() && self.additions@[j] == (upto - 1) as usize;
                assert(self.nodes[self.additions[j] as int].is_unsized());
            }
        }
    }

    /// The proportional rescale. In a group of `n` children of which `m`
    /// are additions, that is to have the primary extent `P`, an addition
    /// gets `P / n`, and a child that is no addition and had the extent `p`
    /// gets `p * (P - m * (P / n)) / S`, where `S` is what the children that
    /// are no additions had together; each division rounds down.
    pub proof fn shares_are_proportional(&self, slot: int)
        requires
            self.wf(),
            0 <= slot < self.nodes.len(),
        ensures
            ({
                let n = self.nodes.len() as int;
                let m = self.additions.len() as int;
                let whole = self.next_primary() as int;
                let had = self.nodes[slot].spec_primary(self.orientation.spec_axis()) as int;
                let had_together = self.old_primary_sum(n);
                &&& self.baseline() == had_together
                &&& self.additions@.contains(slot as usize) ==> self.share(slot) == whole / n
                &&& !self.additions@.contains(slot as usize) && had_together > 0 ==> self.share(
                    slot,
                ) == had * (whole - m * (whole / n)) / had_together
            }),
    {
        let n = self.nodes.len() as int;
        let m = self.additions.len() as int;
        let whole = self.next_primary() as int;
        self.old_children_hold_the_sum(n);
        assert(self.nodes@.take(n) =~= self.nodes@);
        assert(self.addition_share() * m == m * (whole / n)) by (nonlinear_arith)
            requires
                self.addition_share() == whole / n,
        ;
    }
}

} // verus!
