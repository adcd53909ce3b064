//! The screen abstraction of the navigation engine.

use crate::display::color::Rgb565;
use crate::display::surface::RenderBuffer;
use crate::platform::Action;
use vstd::prelude::*;

verus! {

/// What a view asks of the stack after it has handled an action.
#[derive(Debug)]
pub enum ViewResult<V> {
    /// Stay as it is.
    Nothing,
    /// Put a new view on top.
    Push(V),
    /// Remove the view that answered.
    Pop,
    /// Leave the program, whatever lies on the stack.
    Exit,
}

/// A screen: something that can draw itself and that reacts to actions.
pub trait View: Sized {
    /// The view is in a state that `render` and `handle` accept. A view
    /// that says nothing else is always in such a state.
    open spec fn valid(&self) -> bool {
        true
    }

    /// What `handle` may do: the view it leaves behind and the result it
    /// returns, for the action it was given. A view that says nothing else
    /// may do anything.
    open spec fn handled(&self, action: Action, after: Self, result: ViewResult<Self>) -> bool {
        true
    }

    /// What `render` may do to a surface of the given size: the pixels it
    /// finds and the pixels it leaves. A view that says nothing else may
    /// draw anything.
    open spec fn draws(
        &self,
        before: Seq<Rgb565>,
        width: int,
        height: int,
        after: Seq<Rgb565>,
    ) -> bool {
        true
    }

    /// Draws the view on the surface. The surface keeps its size, which is
    /// limited to what signed pixel coordinates can address.
    fn render(&self, buffer: &mut RenderBuffer)
        requires
            self.valid(),
            old(buffer).wf(),
            old(buffer).width <= i32::MAX,
            old(buffer).height <= i32::MAX,
        ensures
            final(buffer).wf(),
            final(buffer).width == old(buffer).width,
            final(buffer).height == old(buffer).height,
            self.draws(
                old(buffer).image(),
                old(buffer).width as int,
                old(buffer).height as int,
                final(buffer).image(),
            ),
    ;

    /// Reacts to one action. The view stays valid, and a view it asks to
    /// push is valid too.
    fn handle(&mut self, action: Action) -> (result: ViewResult<Self>)
        requires
            old(self).valid(),
        ensures
            final(self).valid(),
            old(self).handled(action, *final(self), result),
            result matches ViewResult::Push(pushed) ==> pushed.valid(),
    ;
}

} // verus!
