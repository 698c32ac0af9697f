use zap::http;
use zap::http::{Reply, Unavailable};
use zap::state::{Delete, Get, Handler, Has, List, Put, ZapActor};

fn text(s: &str) -> String {
    s.to_string()
}

fn gone() -> Unavailable {
    Unavailable { reason: text("Mailbox has closed") }
}

fn failed() -> Reply {
    Reply { status: 500, body: text("Mailbox has closed") }
}

#[test]
fn test_ping() {
    let resp = http::ping();
    assert_eq!(resp.status, 200);
    assert_eq!(resp.body, "pong");
}

#[test]
fn test_get_set() {
    let mut actor = ZapActor::new();
    let resp = http::set(Ok(actor.handle(Put(text("foo"), text("bar")))));
    assert_eq!(resp.status, 200);
    let resp = http::get(Ok(actor.handle(Get(text("foo")))));
    assert_eq!(resp.status, 200);
    assert_eq!(resp.body, "bar");
}

#[test]
fn main_test_has() {
    let mut actor = ZapActor::new();
    let resp = http::set(Ok(actor.handle(Put(text("foo"), text("bar")))));
    assert_eq!(resp.status, 200);
    let resp = http::has(Ok(actor.handle(Has(text("foo")))));
    assert_eq!(resp.status, 200);
    assert_eq!(resp.body, "true");
}

#[test]
fn main_test_delete() {
    let mut actor = ZapActor::new();
    let resp = http::set(Ok(actor.handle(Put(text("foo"), text("bar")))));
    assert_eq!(resp.status, 200);
    let resp = http::has(Ok(actor.handle(Has(text("foo")))));
    assert_eq!(resp.status, 200);
    assert_eq!(resp.body, "true");
    let resp = http::delete(Ok(actor.handle(Delete(text("foo")))));
    assert_eq!(resp.status, 200);
    let resp = http::has(Ok(actor.handle(Has(text("foo")))));
    assert_eq!(resp.status, 200);
    assert_eq!(resp.body, "false");
}

#[test]
fn undefined_route_is_not_found() {
    let resp = http::not_found();
    assert_eq!(resp.status, 404);
    assert_eq!(resp.body, "");
}

#[test]
fn status_codes() {
    assert_eq!(http::OK, 200);
    assert_eq!(http::NOT_FOUND, 404);
    assert_eq!(http::INTERNAL_SERVER_ERROR, 500);
}

#[test]
fn new_worker_holds_nothing() {
    let mut actor = ZapActor::new();
    assert_eq!(actor.handle(Get(text("foo"))), None);
    assert_eq!(actor.handle(Has(text("foo"))), false);
    assert_eq!(actor.handle(List), Vec::<(String, String)>::new());
}

#[test]
fn worker_foo_bar_scenario() {
    let mut actor = ZapActor::new();
    actor.handle(Put(text("foo"), text("bar")));
    assert_eq!(actor.handle(Get(text("foo"))), Some(text("bar")));
    assert_eq!(actor.handle(Has(text("foo"))), true);
    actor.handle(Delete(text("foo")));
    assert_eq!(actor.handle(Has(text("foo"))), false);
    assert_eq!(actor.handle(Get(text("foo"))), None);
}

#[test]
fn worker_reads_leave_the_store_alone() {
    let mut actor = ZapActor::new();
    actor.handle(Put(text("a"), text("1")));
    actor.handle(Get(text("a")));
    actor.handle(Get(text("b")));
    actor.handle(Has(text("b")));
    actor.handle(List);
    assert_eq!(actor.handle(List), vec![(text("a"), text("1"))]);
}

#[test]
fn worker_list_is_an_owned_snapshot() {
    let mut actor = ZapActor::new();
    actor.handle(Put(text("a"), text("1")));
    actor.handle(Put(text("b"), text("2")));
    actor.handle(Put(text("a"), text("3")));
    let mut snapshot = actor.handle(List);
    actor.handle(Delete(text("a")));
    actor.handle(Put(text("c"), text("4")));
    snapshot.sort();
    assert_eq!(snapshot, vec![(text("a"), text("3")), (text("b"), text("2"))]);
    let mut later = actor.handle(List);
    later.sort();
    assert_eq!(later, vec![(text("b"), text("2")), (text("c"), text("4"))]);
}

#[test]
fn get_of_absent_key_answers_nil() {
    let mut actor = ZapActor::new();
    let resp = http::get(Ok(actor.handle(Get(text("foo")))));
    assert_eq!(resp, Reply { status: 200, body: text("nil") });
}

#[test]
fn get_of_stored_nil_answers_nil_too() {
    let mut actor = ZapActor::new();
    actor.handle(Put(text("foo"), text("nil")));
    let value = actor.handle(Get(text("foo")));
    assert_eq!(value, Some(text("nil")));
    assert_eq!(http::get(Ok(value)), Reply { status: 200, body: text("nil") });
}

#[test]
fn set_and_delete_answer_with_an_empty_body() {
    assert_eq!(http::set(Ok(())), Reply { status: 200, body: text("") });
    assert_eq!(http::delete(Ok(())), Reply { status: 200, body: text("") });
}

#[test]
fn has_answers_true_or_false() {
    assert_eq!(http::has(Ok(true)), Reply { status: 200, body: text("true") });
    assert_eq!(http::has(Ok(false)), Reply { status: 200, body: text("false") });
}

#[test]
fn unavailable_store_is_a_server_error() {
    assert_eq!(http::unavailable(gone()), failed());
    assert_eq!(http::get(Err(gone())), failed());
    assert_eq!(http::set(Err(gone())), failed());
    assert_eq!(http::delete(Err(gone())), failed());
    assert_eq!(http::has(Err(gone())), failed());
    assert_eq!(http::list(Err(gone())), failed());
}

#[test]
fn unavailable_store_passes_the_reason_on() {
    let cause = Unavailable { reason: text("Message delivery timed out") };
    let resp = http::get(Err(cause));
    assert_eq!(resp.status, 500);
    assert_eq!(resp.body, "Message delivery timed out");
}

#[test]
fn listing_of_nothing_is_empty() {
    assert_eq!(http::render_listing(&Vec::new()), "");
    assert_eq!(http::list(Ok(Vec::new())), Reply { status: 200, body: text("") });
}

#[test]
fn listing_of_one_entry() {
    let entries = vec![(text("foo"), text("bar"))];
    assert_eq!(http::render_listing(&entries), "'foo': 'bar'\r\n");
}

#[test]
fn listing_keeps_the_order_given() {
    let entries = vec![(text("b"), text("2")), (text("a"), text("1")), (text(""), text(""))];
    assert_eq!(http::render_listing(&entries), "'b': '2'\r\n'a': '1'\r\n'': ''\r\n");
    let resp = http::list(Ok(entries));
    assert_eq!(resp.status, 200);
    assert_eq!(resp.body, "'b': '2'\r\n'a': '1'\r\n'': ''\r\n");
}

#[test]
fn listing_of_the_worker() {
    let mut actor = ZapActor::new();
    actor.handle(Put(text("foo"), text("bar")));
    actor.handle(Put(text("baz"), text("qux")));
    let resp = http::list(Ok(actor.handle(List)));
    assert_eq!(resp.status, 200);
    let mut lines: Vec<&str> = resp.body.split_inclusive("\r\n").collect();
    lines.sort();
    assert_eq!(lines, vec!["'baz': 'qux'\r\n", "'foo': 'bar'\r\n"]);
}

fn orders(n: usize) -> Vec<Vec<usize>> {
    if n == 0 {
        return vec![Vec::new()];
    }
    let mut all = Vec::new();
    for shorter in orders(n - 1) {
        for at in 0..n {
            let mut order = shorter.clone();
            order.insert(at, n - 1);
            all.push(order);
        }
    }
    all
}

#[test]
fn sets_on_distinct_keys_are_all_seen_whatever_the_order() {
    let n = 5;
    let all = orders(n);
    assert_eq!(all.len(), 120);
    for (round, writes) in all.iter().enumerate() {
        let mut actor = ZapActor::new();
        for &i in writes {
            actor.handle(Put(format!("k{}", i), format!("v{}", i)));
        }
        let reads = &all[all.len() - 1 - round];
        for &i in reads {
            assert_eq!(actor.handle(Get(format!("k{}", i))), Some(format!("v{}", i)));
        }
        assert_eq!(actor.handle(List).len(), n);
    }
}
