use pick_list::http::{route, Method, Request};
use pick_list::trace::{handle_traced, SpanEvent, SpanLog};

fn req(method: Method, path: &str) -> Request {
    Request { method, path: path.to_owned(), query: String::new() }
}

#[test]
fn routed_request_emits_two_nested_spans() {
    let mut log = SpanLog::new();
    let r = handle_traced(&req(Method::Get, "/"), &mut log);
    assert_eq!(r.status, 200);
    assert_eq!(r.body, "Hello, world!");
    assert_eq!(
        *log.events(),
        vec![SpanEvent::Open, SpanEvent::Open, SpanEvent::Close, SpanEvent::Close],
    );
    let opened = log.events().iter().filter(|e| **e == SpanEvent::Open).count();
    assert_eq!(opened, 2);
}

#[test]
fn routing_miss_emits_one_span() {
    let mut log = SpanLog::new();
    let r = handle_traced(&req(Method::Get, "/missing"), &mut log);
    assert_eq!(r.status, 404);
    assert_eq!(*log.events(), vec![SpanEvent::Open, SpanEvent::Close]);
}

#[test]
fn method_miss_emits_one_span() {
    let mut log = SpanLog::new();
    let r = handle_traced(&req(Method::Post, "/"), &mut log);
    assert_eq!(r.status, 405);
    assert_eq!(*log.events(), vec![SpanEvent::Open, SpanEvent::Close]);
}

#[test]
fn spans_accumulate_in_order_across_requests() {
    let mut log = SpanLog::new();
    let _ = handle_traced(&req(Method::Get, "/"), &mut log);
    let _ = handle_traced(&req(Method::Get, "/missing"), &mut log);
    let _ = handle_traced(&req(Method::Get, "/"), &mut log);
    assert_eq!(
        *log.events(),
        vec![
            SpanEvent::Open,
            SpanEvent::Open,
            SpanEvent::Close,
            SpanEvent::Close,
            SpanEvent::Open,
            SpanEvent::Close,
            SpanEvent::Open,
            SpanEvent::Open,
            SpanEvent::Close,
            SpanEvent::Close,
        ],
    );
}

#[test]
fn traced_handling_answers_exactly_as_the_router_does() {
    let mut log = SpanLog::new();
    let cases = vec![(Method::Get, "/"), (Method::Post, "/"), (Method::Get, "/nope")];
    for (m, p) in cases {
        let traced = handle_traced(&req(m, p), &mut log);
        let plain = route(&req(m, p));
        assert_eq!(traced.status, plain.status);
        assert_eq!(traced.body, plain.body);
    }
}
