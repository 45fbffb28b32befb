//! Layout managers: the policies that decide how windows enter a tiling
//! layout.

use crate::geometry::Orientation;
use crate::layout::TilingLayout;
use vstd::prelude::*;

verus! {

/// A policy that fills a tiling layout. An implementation names the
/// orientation its layouts start with and says how a set of windows is laid
/// into an empty layout of that orientation.
pub trait TilingLayoutManager<Window> {
    /// The orientation that layouts of this manager start with.
    fn orientation() -> Orientation;

    /// Lays `windows` into `layout`, which is empty. The layout it leaves
    /// meets the invariant of a group.
    fn init(layout: &mut TilingLayout<Window>, windows: Vec<Window>)
        requires
            old(layout).root.is_fresh(
                old(layout).root.orientation,
                old(layout).root.width,
                old(layout).root.height,
            ),
        ensures
            final(layout).root.wf(),
    ;
}

/// The layout that is in use.
pub enum CurrentLayout<Window> {
    /// Windows are tiled by a layout manager.
    Tiled(TilingLayout<Window>),
}

impl<Window> CurrentLayout<Window> {
    /// Creates a tiled layout of the given size and lets `Manager` lay
    /// `windows` into it.
    pub fn new_tiled<Manager: TilingLayoutManager<Window>>(
        windows: Vec<Window>,
        width: u32,
        height: u32,
    ) -> (out: Self)
        ensures
            out is Tiled,
            out->Tiled_0.root.wf(),
    {
        let mut layout = TilingLayout::new(Manager::orientation(), width, height);
        Manager::init(&mut layout, windows);
        CurrentLayout::Tiled(layout)
    }
}

/// A manager that keeps its windows in one stack.
pub struct Stack<Window> {
    pub layout: TilingLayout<Window>,
}

} // verus!
