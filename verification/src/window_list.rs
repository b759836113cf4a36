//! A short list of windows, held in place while it is short.

use crate::x11::X11Window;
use smallvec::SmallVec;
use vstd::prelude::*;

verus! {

/// A list of windows, kept in a `smallvec::SmallVec` with room for eight of them in place: more
/// than eight transfers of one kind seldom end at once.
#[verifier::external_body]
pub struct WindowList {
    windows: SmallVec<[X11Window; 8]>,
}

/// The windows in the list, in the order in which they were put there.
pub uninterp spec fn listed_windows(list: WindowList) -> Seq<X11Window>;

impl View for WindowList {
    type V = Seq<X11Window>;

    open spec fn view(&self) -> Seq<X11Window> {
        listed_windows(*self)
    }
}

impl WindowList {
    /// `SmallVec::new`. Trusted: the list is empty.
    #[verifier::external_body]
    pub(crate) fn new() -> (list: WindowList)
        ensures
            listed_windows(list) == Seq::<X11Window>::empty(),
    {
        WindowList { windows: SmallVec::new() }
    }

    /// `SmallVec::push`. Trusted: the window is added at the end. (Like any vector, the list cannot
    /// outgrow the memory there is.)
    #[verifier::external_body]
    pub(crate) fn push(&mut self, window: X11Window)
        ensures
            listed_windows(*final(self)) == listed_windows(*old(self)).push(window),
    {
        self.windows.push(window)
    }

    /// `SmallVec::pop`. Trusted: the last window is taken off and returned; an empty list gives
    /// none and stays empty.
    #[verifier::external_body]
    pub(crate) fn pop(&mut self) -> (window: Option<X11Window>)
        ensures
            match window {
                Some(window) => listed_windows(*old(self)) == listed_windows(*final(self)).push(
                    window,
                ),
                None => listed_windows(*old(self)).len() == 0 && listed_windows(*final(self))
                    == listed_windows(*old(self)),
            },
    {
        self.windows.pop()
    }
}

} // verus!
