use vstd::prelude::*;

use crate::world::WorldContainer;

verus! {

/// The world of a window: the window's own state, the store of resources and
/// components, and whether the event loop should stop.
pub struct DelphosWorld<W, V> {
    pub window: W,
    container: WorldContainer<V>,
    exit: bool,
}

impl<W, V> DelphosWorld<W, V> {
    /// The store of resources and components.
    pub closed spec fn store(&self) -> WorldContainer<V> {
        self.container
    }

    /// Whether the event loop should stop.
    pub closed spec fn exiting(&self) -> bool {
        self.exit
    }

    /// The window state, for contracts.
    pub closed spec fn window_spec(&self) -> W {
        self.window
    }

    /// A world around `window` with an empty store that keeps running.
    pub fn new(window: W) -> (r: Self)
        ensures
            r.window_spec() == window,
            r.store().wf(),
            r.store().resources().is_empty(),
            r.store().instances().is_empty(),
            r.store().next_entity() == 0,
            forall|ty: core::any::TypeId| #[trigger] r.store().entities_of(ty) == Seq::<crate::ids::EntityId>::empty(),
            !r.exiting(),
    {
        let container = WorldContainer::new();
        proof {
            assert(container.resources().dom() =~= Set::empty());
            assert(container.instances().dom() =~= Set::empty());
        }
        DelphosWorld { window, container, exit: false }
    }

    /// Asks the event loop to stop.
    pub fn exit(&mut self)
        ensures
            final(self).exiting(),
            final(self).store() == old(self).store(),
            final(self).window_spec() == old(self).window_spec(),
    {
        self.exit = true;
    }

    /// Whether the event loop should stop.
    pub fn should_exit(&self) -> (r: bool)
        ensures
            r == self.exiting(),
    {
        self.exit
    }

    /// The window state.
    pub fn window(&self) -> (r: &W)
        ensures
            *r == self.window_spec(),
    {
        &self.window
    }

    /// The window state, for changing it.
    pub fn window_mut(&mut self) -> (r: &mut W)
        ensures
            *r == old(self).window_spec(),
            final(self).window_spec() == *final(r),
            final(self).store() == old(self).store(),
            final(self).exiting() == old(self).exiting(),
    {
        &mut self.window
    }

    /// The store of resources and components.
    pub fn container(&self) -> (r: &WorldContainer<V>)
        ensures
            *r == self.store(),
    {
        &self.container
    }

    /// The store of resources and components, for changing it.
    pub fn container_mut(&mut self) -> (r: &mut WorldContainer<V>)
        ensures
            *r == old(self).store(),
            final(self).store() == *final(r),
            final(self).window_spec() == old(self).window_spec(),
            final(self).exiting() == old(self).exiting(),
    {
        &mut self.container
    }
}

/// Records that the window's surface has been configured, and says whether
/// this was the first configuration, after which the first frame is drawn.
pub fn mark_configured(configured: &mut bool) -> (draw_first_frame: bool)
    ensures
        *final(configured),
        draw_first_frame == !*old(configured),
{
    if !*configured {
        *configured = true;
        true
    } else {
        false
    }
}

} // verus!
