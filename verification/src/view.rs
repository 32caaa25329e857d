//! Views: the screens of the program, and what each tells the run loop
//! once it has drawn a frame.

use crate::context::Phi;
use vstd::prelude::*;

verus! {

/// What a view tells the run loop to do once it has drawn a frame.
pub enum ViewAction<V> {
    /// Show the frame and go on with the same view.
    Continue,
    /// Leave the run loop.
    Quit,
    /// Go on with another view in place of this one.
    ChangeView(V),
}

/// One screen of the program. The run loop calls `render` once per frame on
/// the view that is active.
pub trait View: Sized {
    /// Whether the view can draw a frame in this context. Unless a view says
    /// otherwise, it can draw in every context.
    open spec fn accepts(&self, context: &Phi) -> bool {
        true
    }

    /// Whether drawing a frame may take the view and the context from
    /// `before` to `after` and end in `action`.
    /// Unless a view says otherwise, nothing is known of what it does.
    open spec fn renders(
        before: (Self, Phi),
        elapsed: i64,
        after: (Self, Phi),
        action: ViewAction<Self>,
    ) -> bool {
        true
    }

    /// Whether the view can draw a frame in this context.
    fn ready(&self, context: &Phi) -> (ready: bool)
        ensures
            ready == self.accepts(context),
    ;

    /// Draws a frame, `elapsed` microseconds after the one before, and says
    /// what the run loop is to do next.
    fn render(&mut self, context: &mut Phi, elapsed: i64) -> (action: ViewAction<Self>)
        requires
            old(self).accepts(old(context)),
        ensures
            Self::renders((*old(self), *old(context)), elapsed, (*final(self), *final(context)), action),
    ;
}

} // verus!
