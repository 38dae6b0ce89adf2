//! A modal dialog's state: open or closed, a title, a body text and an
//! optional confirmation callback that the OK button runs, once. The
//! renderer draws the dialog while it is open and reports which button was
//! clicked; [`Modal::apply_buttons`] decides what that does.

use vstd::prelude::*;

use crate::text::IntoText;

verus! {

/// An action run when a dialog is confirmed.
pub trait ConfirmAction {
    /// Whether the action has run.
    spec fn fired(&self) -> bool;

    /// Whether the action has run.
    fn is_fired(&self) -> (r: bool)
        ensures
            r == self.fired(),
    ;

    /// Run the action (at most once: later calls do nothing).
    fn fire(&mut self)
        ensures
            final(self).fired(),
    ;
}

/// A one-shot closure as a confirmation action.
pub struct ConfirmOnce<F: FnOnce()> {
    f: Option<F>,
}

impl<F: FnOnce()> ConfirmOnce<F> {
    /// The stored closure, while it is still there, may be called.
    #[verifier::type_invariant]
    spec fn callable(self) -> bool {
        self.f matches Some(g) ==> g.requires(())
    }

    /// The closure still waiting to run, if any.
    pub closed spec fn action(&self) -> Option<F> {
        self.f
    }

    /// Wrap a closure that may be called with no precondition.
    pub fn new(f: F) -> (r: Self)
        requires
            f.requires(()),
        ensures
            r.action() == Some(f),
    {
        ConfirmOnce { f: Some(f) }
    }
}

impl<F: FnOnce()> ConfirmAction for ConfirmOnce<F> {
    /// The closure has been taken out and called.
    closed spec fn fired(&self) -> bool {
        self.f is None
    }

    fn is_fired(&self) -> (r: bool) {
        self.f.is_none()
    }

    /// Run the stored closure, if it is still there, and drop it.
    fn fire(&mut self)
        ensures
            final(self).action() is None,
            old(self).action() matches Some(g) ==> g.ensures((), ()),
    {
        proof {
            use_type_invariant(&*self);
        }
        let mut g: Option<F> = None;
        std::mem::swap(&mut g, &mut self.f);
        match g {
            Some(g) => g(),
            None => {},
        }
    }
}

/// A modal dialog.
pub struct Modal {
    /// Whether the dialog is visible.
    is_open: bool,
    /// Title text.
    title: String,
    /// Body text.
    body: String,
    /// Action run by the OK button; it runs once and stays, spent.
    on_confirm: Option<Box<dyn ConfirmAction>>,
}

impl Modal {
    /// Whether the dialog is visible.
    pub closed spec fn open_spec(&self) -> bool {
        self.is_open
    }

    /// The title text.
    pub closed spec fn title_spec(&self) -> Seq<char> {
        self.title@
    }

    /// The body text.
    pub closed spec fn body_spec(&self) -> Seq<char> {
        self.body@
    }

    /// The stored confirmation action, if any (run or not).
    pub closed spec fn stored(&self) -> Option<Box<dyn ConfirmAction>> {
        self.on_confirm
    }

    /// Whether a confirmation action is waiting for the OK button: one is
    /// stored and has not run yet.
    pub closed spec fn confirm_pending(&self) -> bool {
        self.on_confirm matches Some(a) && !a.fired()
    }

    /// A closed dialog with empty title and body and no action.
    pub fn new() -> (r: Self)
        ensures
            !r.open_spec(),
            r.title_spec() == Seq::<char>::empty(),
            r.body_spec() == Seq::<char>::empty(),
            !r.confirm_pending(),
            r.stored() is None,
    {
        Modal { is_open: false, title: String::new(), body: String::new(), on_confirm: None }
    }

    /// Whether the dialog is visible.
    pub fn is_open(&self) -> (r: bool)
        ensures
            r == self.open_spec(),
    {
        self.is_open
    }

    /// The title text.
    pub fn title(&self) -> (r: &str)
        ensures
            r@ == self.title_spec(),
    {
        self.title.as_str()
    }

    /// The body text.
    pub fn body(&self) -> (r: &str)
        ensures
            r@ == self.body_spec(),
    {
        self.body.as_str()
    }

    /// Show the dialog.
    pub fn open(&mut self)
        ensures
            final(self).open_spec(),
            final(self).title_spec() == old(self).title_spec(),
            final(self).body_spec() == old(self).body_spec(),
            final(self).confirm_pending() == old(self).confirm_pending(),
            final(self).stored() == old(self).stored(),
    {
        self.is_open = true;
    }

    /// Hide the dialog.
    pub fn close(&mut self)
        ensures
            !final(self).open_spec(),
            final(self).title_spec() == old(self).title_spec(),
            final(self).body_spec() == old(self).body_spec(),
            final(self).confirm_pending() == old(self).confirm_pending(),
            final(self).stored() == old(self).stored(),
    {
        self.is_open = false;
    }

    /// Show the dialog if hidden, hide it if shown.
    pub fn toggle(&mut self)
        ensures
            final(self).open_spec() == !old(self).open_spec(),
            final(self).title_spec() == old(self).title_spec(),
            final(self).body_spec() == old(self).body_spec(),
            final(self).confirm_pending() == old(self).confirm_pending(),
            final(self).stored() == old(self).stored(),
    {
        self.is_open = !self.is_open;
    }

    /// Set the title text.
    pub fn set_title<T: IntoText>(&mut self, title: T)
        ensures
            final(self).title_spec() == title.text_view(),
            final(self).open_spec() == old(self).open_spec(),
            final(self).body_spec() == old(self).body_spec(),
            final(self).confirm_pending() == old(self).confirm_pending(),
            final(self).stored() == old(self).stored(),
    {
        self.title = title.into_text();
    }

    /// Set the body text.
    pub fn set_body<T: IntoText>(&mut self, body: T)
        ensures
            final(self).body_spec() == body.text_view(),
            final(self).open_spec() == old(self).open_spec(),
            final(self).title_spec() == old(self).title_spec(),
            final(self).confirm_pending() == old(self).confirm_pending(),
            final(self).stored() == old(self).stored(),
    {
        self.body = body.into_text();
    }

    /// Set the action the OK button runs (once).
    pub fn set_on_confirm<F: FnOnce() + 'static>(&mut self, f: F)
        requires
            f.requires(()),
        ensures
            final(self).confirm_pending(),
            final(self).stored() is Some,
            final(self).open_spec() == old(self).open_spec(),
            final(self).title_spec() == old(self).title_spec(),
            final(self).body_spec() == old(self).body_spec(),
    {
        self.on_confirm = Some(Box::new(ConfirmOnce::new(f)));
    }

    /// Apply the buttons clicked in one frame of the open dialog. OK runs
    /// the pending action (once: a spent action is not run again) and
    /// closes; Cancel closes and keeps the action; a closed dialog ignores
    /// both.
    pub fn apply_buttons(&mut self, ok: bool, cancel: bool)
        ensures
            final(self).title_spec() == old(self).title_spec(),
            final(self).body_spec() == old(self).body_spec(),
            !old(self).open_spec() ==> !final(self).open_spec(),
            !old(self).open_spec() ==> final(self).stored() == old(self).stored(),
            old(self).open_spec() ==> final(self).open_spec() == !(ok || cancel),
            old(self).open_spec() && ok && old(self).confirm_pending() ==> final(self).stored() is Some,
            old(self).open_spec() && ok && old(self).confirm_pending() ==> final(self).stored()->Some_0.fired(),
            old(self).open_spec() && ok ==> !final(self).confirm_pending(),
            !(old(self).open_spec() && ok && old(self).confirm_pending()) ==> final(self).stored()
                == old(self).stored(),
    {
        if !self.is_open {
            return;
        }
        if ok {
            match &mut self.on_confirm {
                Some(cb) => {
                    if !cb.is_fired() {
                        cb.fire();
                    }
                },
                None => {},
            }
        }
        if ok || cancel {
            self.is_open = false;
        }
    }
}

impl Default for Modal {
    fn default() -> (r: Self)
        ensures
            !r.open_spec(),
            r.title_spec() == Seq::<char>::empty(),
            r.body_spec() == Seq::<char>::empty(),
            !r.confirm_pending(),
            r.stored() is None,
    {
        Self::new()
    }
}

} // verus!
