//! The capabilities of the objects that live in the world.

use vstd::prelude::*;

verus! {

/// The game-logic side of an object.
pub trait LogicObject {
    /// Whether the object says how it multiplies. One that keeps this
    /// answer keeps the `multiply_object` below as well.
    open spec fn multiplies(&self) -> bool {
        false
    }

    /// Makes `_x` further objects of its own kind out of this one. An
    /// object that does not say how it multiplies yields none.
    fn multiply_object(&self, _x: u32) -> (r: Vec<Self>) where Self: Sized
        ensures
            !self.multiplies() ==> r@ == Seq::<Self>::empty(),
    {
        Vec::new()
    }
}

/// An object of the dynamic collection: one that takes part in the game's
/// logic. The caller adds the drawing side, which works on real-valued
/// coordinates.
pub trait GameObject: LogicObject {

}

} // verus!
