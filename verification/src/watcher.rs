//! Duplicate suppression for track titles announced by the decoded stream.

use vstd::prelude::*;

verus! {

/// Watches the title carried in the stream's metadata and reports only real
/// changes: a tag event repeating the current title is suppressed, so every
/// distinct change is announced exactly once.
#[derive(Debug)]
pub struct MetadataWatcher {
    current: String,
}

impl View for MetadataWatcher {
    type V = Seq<char>;

    closed spec fn view(&self) -> Seq<char> {
        self.current@
    }
}

impl MetadataWatcher {
    /// A fresh watcher knows no title yet.
    pub fn new() -> (w: MetadataWatcher)
        ensures
            w@ == Seq::<char>::empty(),
    {
        MetadataWatcher { current: String::new() }
    }

    /// Feeds one raw tag event.  Returns whether the title really changed;
    /// afterwards the watcher holds the given title either way.
    pub fn on_tag(&mut self, title: &str) -> (changed: bool)
        ensures
            changed == (old(self)@ != title@),
            final(self)@ == title@,
    {
        let incoming = title.to_owned();
        if self.current == incoming {
            false
        } else {
            self.current = incoming;
            true
        }
    }

    /// The title most recently seen in the stream's metadata; empty while
    /// none arrived yet.
    pub fn current_title(&self) -> (t: &String)
        ensures
            t@ == self@,
    {
        &self.current
    }
}

} // verus!
