use mctk::instrumenting::{evt, inst, inst_end, SpanStack};
use std::time::Instant;

#[test]
fn spans_without_instrumentation_do_nothing() {
    inst("draw");
    evt("tick");
    inst_end();
}

#[test]
fn ending_a_span_gives_back_the_last_started() {
    let mut stack = SpanStack::new();
    assert_eq!(stack.depth(), 0);
    let t0 = Instant::now();
    stack.begin("outer", t0);
    let t1 = Instant::now();
    stack.begin("inner", t1);
    assert_eq!(stack.depth(), 2);
    let (name, at) = stack.end();
    assert_eq!(name, "inner");
    assert_eq!(at, t1);
    let (name, at) = stack.end();
    assert_eq!(name, "outer");
    assert_eq!(at, t0);
    assert_eq!(stack.depth(), 0);
}
