//! Instrumented spans: named, timed stretches of work that nest.
//!
//! Without instrumentation, starting and ending spans and logging events do
//! nothing. With it, each span started is pushed on a [`SpanStack`] together
//! with its start time, and ending a span pops the one started last.
use vstd::prelude::*;
use std::time::Instant;

verus! {

/// Start an instrumented span with the given name.
pub fn inst(_name: &str) {
}

/// Ends the last instrumentation span that was started, logging the time it took.
pub fn inst_end() {
}

/// Log an event with the given name.
pub fn evt(_name: &str) {
}

/// The spans that have been started and not yet ended, the last started on top.
pub struct SpanStack {
    spans: Vec<(String, Instant)>,
}

impl SpanStack {
    /// The names of the open spans, the first started first, with their start times.
    pub closed spec fn view(&self) -> Seq<(Seq<char>, Instant)> {
        self.spans@.map_values(|p: (String, Instant)| (p.0@, p.1))
    }

    /// No span is open.
    pub fn new() -> (r: Self)
        ensures
            r.view() == Seq::<(Seq<char>, Instant)>::empty(),
    {
        SpanStack { spans: Vec::new() }
    }

    /// The number of open spans.
    pub fn depth(&self) -> (r: usize)
        ensures
            r == self.view().len(),
    {
        self.spans.len()
    }

    /// Opens a span named `name` that started at `at`.
    pub fn begin(&mut self, name: &str, at: Instant)
        ensures
            final(self).view() == old(self).view().push((name@, at)),
    {
        self.spans.push((name.to_owned(), at));
        proof {
            assert(final(self).view() =~= old(self).view().push((name@, at)));
        }
    }

    /// Closes the span opened last, handing back its name and start time.
    pub fn end(&mut self) -> (r: (String, Instant))
        requires
            old(self).view().len() > 0,
        ensures
            (r.0@, r.1) == old(self).view().last(),
            final(self).view() == old(self).view().drop_last(),
    {
        let r = self.spans.pop().unwrap();
        proof {
            assert(final(self).view() =~= old(self).view().drop_last());
        }
        r
    }
}

/// Ending a span right after starting one hands back that span and leaves the
/// open spans as they were.
pub proof fn lemma_end_undoes_begin(before: Seq<(Seq<char>, Instant)>, name: Seq<char>, at: Instant)
    ensures
        before.push((name, at)).last() == (name, at),
        before.push((name, at)).drop_last() == before,
{
    assert(before.push((name, at)).drop_last() =~= before);
}

} // verus!
