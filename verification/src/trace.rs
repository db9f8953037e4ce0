//! The spans a request emits. A middleware span wraps every request; the
//! greeting handler opens one more inside it, so a routed request yields two
//! strictly nested spans and a routing miss yields one.

use vstd::prelude::*;
use crate::http::{Request, Response, responds, route};

verus! {

/// One edge of a span: it opens, then closes.
#[derive(Clone, Copy, PartialEq, Eq, Structural, Debug)]
pub enum SpanEvent {
    Open,
    Close,
}

/// How many spans a sequence of events opens.
pub open spec fn opens(s: Seq<SpanEvent>) -> int
    decreases s.len(),
{
    if s.len() == 0 {
        0
    } else {
        opens(s.drop_last()) + if s.last() is Open {
            1int
        } else {
            0int
        }
    }
}

/// How many spans a sequence of events closes.
pub open spec fn closes(s: Seq<SpanEvent>) -> int
    decreases s.len(),
{
    if s.len() == 0 {
        0
    } else {
        closes(s.drop_last()) + if s.last() is Close {
            1int
        } else {
            0int
        }
    }
}

/// How many spans are still open after `s`.
pub open spec fn depth(s: Seq<SpanEvent>) -> int {
    opens(s) - closes(s)
}

/// No prefix of `s` closes a span that was never opened.
pub open spec fn prefixes_nonneg(s: Seq<SpanEvent>) -> bool
    decreases s.len(),
{
    if s.len() == 0 {
        true
    } else {
        prefixes_nonneg(s.drop_last()) && depth(s) >= 0
    }
}

/// Every span that opens during `s` closes within `s`, and closes inside
/// every span still open when it opened: each span's lifetime is strictly
/// nested within its enclosing scope.
pub open spec fn well_nested(s: Seq<SpanEvent>) -> bool {
    depth(s) == 0 && prefixes_nonneg(s)
}

/// The events of a routed request: the middleware span opens, the handler
/// span opens and closes inside it, the middleware span closes.
pub open spec fn routed_trace() -> Seq<SpanEvent> {
    seq![SpanEvent::Open, SpanEvent::Open, SpanEvent::Close, SpanEvent::Close]
}

/// The events of a routing miss: only the middleware span.
pub open spec fn miss_trace() -> Seq<SpanEvent> {
    seq![SpanEvent::Open, SpanEvent::Close]
}

/// A routed request emits exactly two spans, and the handler span's whole
/// lifetime lies strictly inside the middleware span's: the middleware span
/// opens first, is the only one open when the handler span opens, and closes
/// last.
pub proof fn lemma_routed_trace_two_nested_spans()
    ensures
        routed_trace().len() == 4,
        routed_trace()[0] is Open,
        routed_trace()[3] is Close,
        routed_trace()[1] is Open,
        routed_trace()[2] is Close,
        opens(routed_trace()) == 2,
        well_nested(routed_trace()),
        depth(routed_trace().take(1)) == 1,
        depth(routed_trace().take(2)) == 2,
        depth(routed_trace().take(3)) == 1,
{
    reveal_with_fuel(opens, 5);
    reveal_with_fuel(closes, 5);
    reveal_with_fuel(prefixes_nonneg, 5);
    let s1 = seq![SpanEvent::Open];
    let s2 = seq![SpanEvent::Open, SpanEvent::Open];
    let s3 = seq![SpanEvent::Open, SpanEvent::Open, SpanEvent::Close];
    let s4 = routed_trace();
    assert(s1.drop_last() =~= Seq::<SpanEvent>::empty());
    assert(s2.drop_last() =~= s1);
    assert(s3.drop_last() =~= s2);
    assert(s4.drop_last() =~= s3);
    assert(s4.take(1) =~= s1);
    assert(s4.take(2) =~= s2);
    assert(s4.take(3) =~= s3);
    assert(opens(s1) == 1 && closes(s1) == 0);
    assert(opens(s2) == 2 && closes(s2) == 0);
    assert(opens(s3) == 2 && closes(s3) == 1);
    assert(opens(s4) == 2 && closes(s4) == 2);
    assert(prefixes_nonneg(s1));
    assert(prefixes_nonneg(s2));
    assert(prefixes_nonneg(s3));
    assert(prefixes_nonneg(s4));
}

/// A routing miss emits exactly one span, well nested.
pub proof fn lemma_miss_trace_one_span()
    ensures
        opens(miss_trace()) == 1,
        well_nested(miss_trace()),
{
    reveal_with_fuel(opens, 3);
    reveal_with_fuel(closes, 3);
    reveal_with_fuel(prefixes_nonneg, 3);
    let s1 = seq![SpanEvent::Open];
    let s2 = miss_trace();
    assert(s1.drop_last() =~= Seq::<SpanEvent>::empty());
    assert(s2.drop_last() =~= s1);
    assert(opens(s1) == 1 && closes(s1) == 0);
    assert(opens(s2) == 1 && closes(s2) == 1);
    assert(prefixes_nonneg(s1));
    assert(prefixes_nonneg(s2));
}

/// The record of every span event emitted so far, in order.
pub struct SpanLog {
    events: Vec<SpanEvent>,
}

impl View for SpanLog {
    type V = Seq<SpanEvent>;

    closed spec fn view(&self) -> Seq<SpanEvent> {
        self.events@
    }
}

impl SpanLog {
    /// An empty log: no request has been handled yet.
    pub fn new() -> (l: SpanLog)
        ensures
            l@ == Seq::<SpanEvent>::empty(),
    {
        SpanLog { events: Vec::new() }
    }

    /// The events recorded so far.
    pub fn events(&self) -> (v: &Vec<SpanEvent>)
        ensures
            v@ == self@,
    {
        &self.events
    }

    fn open_span(&mut self)
        ensures
            final(self)@ == old(self)@.push(SpanEvent::Open),
    {
        self.events.push(SpanEvent::Open);
    }

    fn close_span(&mut self)
        ensures
            final(self)@ == old(self)@.push(SpanEvent::Close),
    {
        self.events.push(SpanEvent::Close);
    }
}

/// Handles one request under tracing: routes it exactly as `route` does, and
/// appends to `log` the spans the request emits. Which response comes back
/// does not depend on the log, so earlier requests leave no mark on later
/// ones.
pub fn handle_traced(req: &Request, log: &mut SpanLog) -> (r: Response)
    ensures
        responds(*req, r),
        r.status == 200 ==> final(log)@ == old(log)@ + routed_trace(),
        r.status != 200 ==> final(log)@ == old(log)@ + miss_trace(),
{
    log.open_span();
    let r = route(req);
    if r.status == 200 {
        log.open_span();
        log.close_span();
    }
    log.close_span();
    proof {
        if r.status == 200 {
            assert(log@ =~= old(log)@ + routed_trace());
        } else {
            assert(log@ =~= old(log)@ + miss_trace());
        }
    }
    r
}

} // verus!
