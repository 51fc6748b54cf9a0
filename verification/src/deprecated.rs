//! The plugin type of the older entity-animation interface.
use core::marker::PhantomData;
use vstd::prelude::*;

verus! {

/// The plugin registered once per animation type `A` of the older interface.
pub struct EntityAnimationPlugin<A> {
    _animation: PhantomData<A>,
}

impl<A> Default for EntityAnimationPlugin<A> {
    fn default() -> (p: EntityAnimationPlugin<A>)
        ensures
            p.marker() == PhantomData::<A>,
    {
        EntityAnimationPlugin { _animation: PhantomData }
    }
}

impl<A> EntityAnimationPlugin<A> {
    /// The type marker the plugin carries for its animation type.
    pub closed spec fn marker(&self) -> PhantomData<A> {
        self._animation
    }

    /// The system that runs right before this plugin's tick system; it does
    /// nothing and exists to order other systems against.
    pub fn will_tick() {
    }

    /// The system that runs right after this plugin's tick system; it does
    /// nothing and exists to order other systems against.
    pub fn did_tick() {
    }
}

} // verus!
