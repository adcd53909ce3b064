//! One turn of the pager's frame loop: deliver the action, if there is
//! one, then draw the next frame.

use crate::display::color::Rgb565;
use crate::display::raster::painted_all;
use crate::display::surface::RenderBuffer;
use crate::platform::Action;
use crate::ui::stack::{dispatched, ViewStack};
use crate::ui::statusbar::StatusBar;
use vstd::prelude::*;

verus! {

/// Whether `after` is a frame of the pager drawn over `before`: the status
/// bar, and over it the view on top of the stack, if any is left.
pub open spec fn shows<V: crate::ui::view::View>(
    views: Seq<V>,
    status_bar: StatusBar,
    battery: u8,
    charging: bool,
    before: Seq<Rgb565>,
    width: int,
    height: int,
    after: Seq<Rgb565>,
) -> bool {
    let with_bar = painted_all(before, width, height, status_bar.scene(width, battery, charging));
    if views.len() == 0 {
        after == with_bar
    } else {
        views.last().draws(with_bar, width, height, after)
    }
}

/// Runs one turn of the frame loop. The action, if there is one, goes to
/// the view on top of the stack, and what that view asks for is applied
/// before anything is drawn. If it asks to exit, the turn ends there: the
/// surface is not touched and `false` is returned, for the program is over.
/// Otherwise the frame is drawn on the surface, the status bar for the
/// given charge and then the view that is on top now, and `true` is
/// returned. When the last view was popped the frame is the status bar
/// alone, and the caller, who finds the stack empty, stops after showing it.
pub fn step<V: crate::ui::view::View>(
    views: &mut ViewStack<V>,
    status_bar: &StatusBar,
    action: Option<Action>,
    surface: &mut RenderBuffer,
    battery: u8,
    charging: bool,
) -> (drawn: bool)
    requires
        old(views).wf(),
        old(surface).wf(),
        old(surface).width <= i32::MAX,
        old(surface).height <= i32::MAX,
    ensures
        final(views).wf(),
        final(surface).wf(),
        final(surface).width == old(surface).width,
        final(surface).height == old(surface).height,
        action is None ==> final(views).views@ == old(views).views@ && drawn,
        action matches Some(asked) ==> exists|running: bool|
            #![trigger dispatched(old(views).views@, asked, final(views).views@, running)]
            dispatched(old(views).views@, asked, final(views).views@, running) && (!drawn
                <==> !running && final(views).views@.len() > 0),
        !drawn ==> final(surface).pixels@ == old(surface).pixels@,
        drawn ==> shows(
            final(views).views@,
            *status_bar,
            battery,
            charging,
            old(surface).pixels@,
            old(surface).width as int,
            old(surface).height as int,
            final(surface).pixels@,
        ),
{
    match action {
        Some(asked) => {
            let running = views.dispatch(asked);
            if !running && !views.is_empty() {
                return false;
            }
        },
        None => {},
    }
    status_bar.render(surface, battery, charging);
    match views.top() {
        Some(view) => {
            view.render(surface);
        },
        None => {},
    }
    true
}

} // verus!
