//! Suppression of frames that repeat the previous one exactly.
use vstd::prelude::*;
use crate::event::{RawEvent, RawEventView};

verus! {

/// Whether a frame `e` gets through when `last` is the frame seen before it.
pub open spec fn accepts(last: Option<RawEventView>, e: RawEventView) -> bool {
    last != Some(e)
}

/// The frame remembered after `e` was offered: always `e` itself.
pub open spec fn after_accept(last: Option<RawEventView>, e: RawEventView) -> Option<RawEventView> {
    Some(e)
}

/// Remembers the last frame and lets through only frames that differ from it.
pub struct Deduplicator {
    last: Option<RawEvent>,
}

impl View for Deduplicator {
    type V = Option<RawEventView>;

    closed spec fn view(&self) -> Option<RawEventView> {
        match self.last {
            Some(e) => Some(e@),
            None => None,
        }
    }
}

impl Deduplicator {
    /// A deduplicator that has seen no frame yet.
    pub fn new() -> (r: Self)
        ensures
            r@ == None::<RawEventView>,
    {
        Deduplicator { last: None }
    }

    /// Offers a frame: returns false exactly when it equals the last frame offered, and
    /// remembers it either way.
    pub fn accept(&mut self, raw: &RawEvent) -> (r: bool)
        ensures
            r == accepts(old(self)@, raw@),
            final(self)@ == after_accept(old(self)@, raw@),
    {
        let repeat = match &self.last {
            Some(prev) => *prev == *raw,
            None => false,
        };
        if repeat {
            false
        } else {
            self.last = Some(raw.clone());
            true
        }
    }
}

/// The same frame offered twice in a row: the first offer gets through (whenever it does
/// not repeat the frame before it) and the second is suppressed.
pub proof fn lemma_repeat_suppressed(last: Option<RawEventView>, e: RawEventView)
    requires
        last != Some(e),
    ensures
        accepts(last, e),
        !accepts(after_accept(last, e), e),
{
}

/// Any frame that differs from the last one gets through.
pub proof fn lemma_change_accepted(e1: RawEventView, e2: RawEventView)
    requires
        e1 != e2,
    ensures
        accepts(after_accept(None, e1), e2),
        accepts(None, e1),
{
}

} // verus!
