//! The view stack: the screens opened so far, of which the last is shown
//! and gets the input.

use crate::platform::Action;
use crate::ui::view::ViewResult;
use vstd::prelude::*;

verus! {

/// The stack and the running flag after a view's result is applied to a
/// stack: a push adds on top, a pop removes the top, if there is one, and
/// ends the program if nothing is left, an exit ends the program at any
/// depth.
pub open spec fn applied<V>(views: Seq<V>, result: ViewResult<V>) -> (Seq<V>, bool) {
    match result {
        ViewResult::Nothing => (views, true),
        ViewResult::Push(view) => (views.push(view), true),
        ViewResult::Pop => (
            if views.len() > 0 {
                views.drop_last()
            } else {
                views
            },
            views.len() > 1,
        ),
        ViewResult::Exit => (views, false),
    }
}

/// Whether handing `action` to the top view of `before` and applying what
/// it asks for can leave the stack `after` and the running flag `running`.
/// Only the top view sees the action. With no view left nothing happens
/// and the program is over.
pub open spec fn dispatched<V: crate::ui::view::View>(
    before: Seq<V>,
    action: Action,
    after: Seq<V>,
    running: bool,
) -> bool {
    if before.len() == 0 {
        !running && after == before
    } else {
        exists|top: V, result: ViewResult<V>|
            #![trigger before.last().handled(action, top, result)]
            before.last().handled(action, top, result) && (after, running) == applied(
                before.drop_last().push(top),
                result,
            )
    }
}

/// The views opened so far, oldest first.
pub struct ViewStack<V> {
    pub views: Vec<V>,
}

impl<V: crate::ui::view::View> ViewStack<V> {
    /// Every view on the stack is valid.
    pub open spec fn wf(&self) -> bool {
        forall|i: int| 0 <= i < self.views@.len() ==> (#[trigger] self.views@[i]).valid()
    }

    /// A stack that holds the root view alone.
    pub fn new(root: V) -> (stack: ViewStack<V>)
        requires
            root.valid(),
        ensures
            stack.wf(),
            stack.views@ == seq![root],
    {
        let mut views: Vec<V> = Vec::new();
        views.push(root);
        ViewStack { views }
    }

    /// How many views are open.
    pub fn depth(&self) -> (depth: usize)
        ensures
            depth == self.views@.len(),
    {
        self.views.len()
    }

    /// Whether no view is left.
    pub fn is_empty(&self) -> (empty: bool)
        ensures
            empty == (self.views@.len() == 0),
    {
        self.views.len() == 0
    }

    /// The view that is shown, if any is left.
    pub fn top(&self) -> (top: Option<&V>)
        ensures
            self.views@.len() == 0 ==> top.is_none(),
            self.views@.len() > 0 ==> top == Some(&self.views@.last()),
    {
        let depth = self.views.len();
        if depth == 0 {
            None
        } else {
            Some(&self.views[depth - 1])
        }
    }

    /// Applies what a view asked for. Returns whether the program goes on.
    pub fn apply(&mut self, result: ViewResult<V>) -> (running: bool)
        ensures
            (final(self).views@, running) == applied(old(self).views@, result),
            old(self).wf() && (result matches ViewResult::Push(pushed) ==> pushed.valid())
                ==> final(self).wf(),
    {
        match result {
            ViewResult::Nothing => true,
            ViewResult::Push(view) => {
                self.views.push(view);
                true
            },
            ViewResult::Pop => {
                self.views.pop();
                assert(old(self).views@.len() > 0 ==> self.views@ =~= old(self).views@.drop_last());
                self.views.len() > 0
            },
            ViewResult::Exit => false,
        }
    }

    /// Hands one action to the view on top and applies what it asks for,
    /// before anything is drawn again. Only the top view sees the action;
    /// the views below it are not touched, so that each is found as it was
    /// left when it comes back to the top. Returns whether the program goes
    /// on: it ends on an exit, and when the last view is popped. With no
    /// view left nothing happens and the program is over.
    pub fn dispatch(&mut self, action: Action) -> (running: bool)
        requires
            old(self).wf(),
        ensures
            final(self).wf(),
            dispatched(old(self).views@, action, final(self).views@, running),
    {
        let depth = self.views.len();
        if depth == 0 {
            return false;
        }
        let result = self.views[depth - 1].handle(action);
        proof {
            assert(self.views@ =~= old(self).views@.drop_last().push(self.views@[depth - 1]));
        }
        let ghost after = self.views@[depth - 1];
        let ghost asked = result;
        let running = self.apply(result);
        proof {
            assert(old(self).views@.last().handled(action, after, asked));
            assert((self.views@, running) == applied(
                old(self).views@.drop_last().push(after),
                asked,
            ));
        }
        running
    }
}

} // verus!
