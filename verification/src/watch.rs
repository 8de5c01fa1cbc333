//! The change-detection decisions of the clipboard polling loop: given
//! what a poll of the system clipboard found, decide whether to broadcast
//! it, and remember what was last seen so one change is broadcast once.
//! The polling cadence and the clipboard reads stay with the caller.

use vstd::prelude::*;
use crate::clipboard::ClipboardContentType;

verus! {

/// What the polling loop last saw on the clipboard.
pub struct ChangeTracker {
    last_text: String,
    last_kind: ClipboardContentType,
}

impl ChangeTracker {
    /// The text last broadcast.
    pub closed spec fn spec_last_text(&self) -> Seq<char> {
        self.last_text@
    }

    /// The kind of content last seen.
    pub closed spec fn spec_last_kind(&self) -> ClipboardContentType {
        self.last_kind
    }

    /// A tracker that has seen nothing.
    pub fn new() -> (r: Self)
        ensures
            r.spec_last_text() == Seq::<char>::empty(),
            r.spec_last_kind() == ClipboardContentType::Empty,
    {
        let r = ChangeTracker { last_text: String::new(), last_kind: ClipboardContentType::Empty };
        assert(r.spec_last_text() =~= Seq::<char>::empty());
        r
    }

    /// Decides whether text found on the clipboard is broadcast: only
    /// non-empty text that differs from the last broadcast text is, and
    /// it is then remembered.
    pub fn observe_text(&mut self, current: &String) -> (b: bool)
        ensures
            b == (current@ != old(self).spec_last_text() && current@.len() != 0),
            b ==> final(self).spec_last_text() == current@ && final(self).spec_last_kind()
                == ClipboardContentType::Text,
            !b ==> *final(self) == *old(self),
    {
        if !(*current == self.last_text) && !current.as_str().is_empty() {
            self.last_text = current.clone();
            self.last_kind = ClipboardContentType::Text;
            true
        } else {
            false
        }
    }

    /// Decides whether an image found on the clipboard is broadcast: only
    /// when the last poll did not already see an image, so one image is
    /// not broadcast again on every poll.
    pub fn observe_image(&mut self) -> (b: bool)
        ensures
            b == (old(self).spec_last_kind() != ClipboardContentType::Image),
            b ==> final(self).spec_last_kind() == ClipboardContentType::Image
                && final(self).spec_last_text() == old(self).spec_last_text(),
            !b ==> *final(self) == *old(self),
    {
        if !(self.last_kind == ClipboardContentType::Image) {
            self.last_kind = ClipboardContentType::Image;
            true
        } else {
            false
        }
    }

    /// Notes an empty clipboard: the remembered text is dropped, so the
    /// same text counts as a change when it appears again.
    pub fn observe_empty(&mut self)
        ensures
            final(self).spec_last_kind() == ClipboardContentType::Empty,
            old(self).spec_last_kind() == ClipboardContentType::Empty ==> *final(self) == *old(self),
            old(self).spec_last_kind() != ClipboardContentType::Empty ==> final(self
            ).spec_last_text() == Seq::<char>::empty(),
    {
        if !(self.last_kind == ClipboardContentType::Empty) {
            self.last_kind = ClipboardContentType::Empty;
            self.last_text = String::new();
            assert(self.spec_last_text() =~= Seq::<char>::empty());
        }
    }
}

} // verus!
