use wallabag_api::aggregate::{
    decode_envelope, fetch_all, AggregationAbort, FeedOutcome, FetchError, PageAggregator,
};
use wallabag_api::json::{Field, JsonValue};
use wallabag_api::types::{DecodeError, Entry, ID};

fn entry_text(id: i64) -> String {
    let tail = r#""content":"c","created_at":"2018-06-03T21:05:54+00:00","updated_at":"2018-06-03T22:06:54+00:00","is_archived":0,"is_public":0,"is_starred":0,"reading_time":1,"tags":[],"user_email":"user@example.com","user_id":5,"user_name":"user"}"#;
    format!(r#"{{"id":{},{}"#, id, tail)
}

fn envelope_text(limit: u32, page: u32, pages: u32, total: u32, ids: &[i64]) -> String {
    let items: Vec<String> = ids.iter().map(|id| entry_text(*id)).collect();
    format!(
        r#"{{"limit":{},"page":{},"pages":{},"total":{},"_embedded":{{"items":[{}]}}}}"#,
        limit,
        page,
        pages,
        total,
        items.join(",")
    )
}

fn ids_of(items: &[Entry]) -> Vec<ID> {
    items.iter().map(|e| e.id).collect()
}

#[test]
fn three_pages_give_three_requests_and_one_ordered_result() {
    let agg = PageAggregator::new(2);
    assert_eq!(agg.next_request(), (1, 2));
    let agg = match agg.feed(envelope_text(2, 1, 3, 6, &[1, 2]).as_bytes()) {
        FeedOutcome::Continue(a) => a,
        other => panic!("page 1 ended the run: {:?}", other),
    };
    assert_eq!(agg.next_request(), (2, 2));
    let agg = match agg.feed(envelope_text(2, 2, 3, 6, &[3, 4]).as_bytes()) {
        FeedOutcome::Continue(a) => a,
        other => panic!("page 2 ended the run: {:?}", other),
    };
    assert_eq!(agg.next_request(), (3, 2));
    match agg.feed(envelope_text(2, 3, 3, 6, &[5, 6]).as_bytes()) {
        FeedOutcome::Done(items) => {
            assert_eq!(items.len(), 6);
            assert_eq!(ids_of(&items), vec![ID(1), ID(2), ID(3), ID(4), ID(5), ID(6)]);
        },
        other => panic!("page 3 did not finish the run: {:?}", other),
    }
}

#[test]
fn zero_pages_end_after_one_request_with_nothing() {
    let agg = PageAggregator::new(10);
    match agg.feed(envelope_text(10, 1, 0, 0, &[]).as_bytes()) {
        FeedOutcome::Done(items) => assert!(items.is_empty()),
        other => panic!("empty collection did not finish at once: {:?}", other),
    }
}

#[test]
fn zero_total_ends_after_one_request_with_nothing() {
    let agg = PageAggregator::new(10);
    match agg.feed(envelope_text(10, 1, 1, 0, &[]).as_bytes()) {
        FeedOutcome::Done(items) => assert!(items.is_empty()),
        other => panic!("empty collection did not finish at once: {:?}", other),
    }
}

#[test]
fn a_single_page_is_the_whole_result() {
    let agg = PageAggregator::new(10);
    match agg.feed(envelope_text(10, 1, 1, 2, &[8, 9]).as_bytes()) {
        FeedOutcome::Done(items) => assert_eq!(ids_of(&items), vec![ID(8), ID(9)]),
        other => panic!("single page did not finish the run: {:?}", other),
    }
}

#[test]
fn garbage_on_page_two_aborts_without_a_partial_list() {
    let agg = PageAggregator::new(2);
    let agg = match agg.feed(envelope_text(2, 1, 3, 6, &[1, 2]).as_bytes()) {
        FeedOutcome::Continue(a) => a,
        other => panic!("page 1 ended the run: {:?}", other),
    };
    match agg.feed(b"** not json **") {
        FeedOutcome::Failed(FetchError::Abort(AggregationAbort::Undecodable { page, cause })) => {
            assert_eq!(page, 2);
            assert_eq!(cause, DecodeError::Malformed);
        },
        other => panic!("undecodable page 2 did not abort the run: {:?}", other),
    }
}

#[test]
fn a_bad_envelope_on_page_two_aborts_with_its_cause() {
    let agg = PageAggregator::new(2);
    let agg = match agg.feed(envelope_text(2, 1, 3, 6, &[1, 2]).as_bytes()) {
        FeedOutcome::Continue(a) => a,
        other => panic!("page 1 ended the run: {:?}", other),
    };
    match agg.feed(br#"{"limit":2,"page":2,"total":6,"_embedded":{"items":[]}}"#) {
        FeedOutcome::Failed(FetchError::Abort(AggregationAbort::Undecodable { page, cause })) => {
            assert_eq!(page, 2);
            assert_eq!(cause, DecodeError::MissingOrInvalidField(Field::Pages));
        },
        other => panic!("rejected envelope did not abort the run: {:?}", other),
    }
}

#[test]
fn a_short_middle_page_aborts_the_run() {
    let agg = PageAggregator::new(2);
    let agg = match agg.feed(envelope_text(2, 1, 3, 5, &[1, 2]).as_bytes()) {
        FeedOutcome::Continue(a) => a,
        other => panic!("page 1 ended the run: {:?}", other),
    };
    match agg.feed(envelope_text(2, 2, 3, 5, &[3]).as_bytes()) {
        FeedOutcome::Failed(FetchError::Abort(AggregationAbort::ShortPage {
            page,
            expected,
            got,
        })) => {
            assert_eq!(page, 2);
            assert_eq!(expected, 2);
            assert_eq!(got, 1);
        },
        other => panic!("short page 2 did not abort the run: {:?}", other),
    }
}

#[test]
fn an_undecodable_first_page_is_a_decode_error() {
    let agg = PageAggregator::new(2);
    match agg.feed(b"nope") {
        FeedOutcome::Failed(FetchError::Decode(DecodeError::Malformed)) => {},
        other => panic!("undecodable page 1 was not a decode error: {:?}", other),
    }
}

#[test]
fn fetch_all_makes_one_request_per_page_and_keeps_order() {
    let calls = std::cell::Cell::new(0u32);
    let endpoint = |page: u32, limit: u32| -> Result<Vec<u8>, String> {
        calls.set(calls.get() + 1);
        let first = (2 * page - 1) as i64;
        let second = (2 * page) as i64;
        Ok(envelope_text(limit, page, 3, 6, &[first, second]).into_bytes())
    };
    let items = fetch_all(&endpoint, 2).unwrap();
    assert_eq!(calls.get(), 3);
    assert_eq!(ids_of(&items), vec![ID(1), ID(2), ID(3), ID(4), ID(5), ID(6)]);
}

#[test]
fn fetch_all_asks_once_for_an_empty_collection() {
    let calls = std::cell::Cell::new(0u32);
    let endpoint = |page: u32, limit: u32| -> Result<Vec<u8>, String> {
        calls.set(calls.get() + 1);
        Ok(envelope_text(limit, page, 0, 0, &[]).into_bytes())
    };
    let items = fetch_all(&endpoint, 30).unwrap();
    assert_eq!(calls.get(), 1);
    assert!(items.is_empty());
}

#[test]
fn fetch_all_surfaces_a_transport_failure() {
    let endpoint = |_page: u32, _limit: u32| -> Result<Vec<u8>, String> {
        Err("connection reset".to_string())
    };
    match fetch_all(&endpoint, 2) {
        Err(FetchError::Transport(msg)) => assert_eq!(msg, "connection reset"),
        other => panic!("transport failure did not surface: {:?}", other),
    }
}

#[test]
fn fetch_all_discards_everything_when_a_later_page_fails() {
    let endpoint = |page: u32, limit: u32| -> Result<Vec<u8>, String> {
        if page == 1 {
            Ok(envelope_text(limit, 1, 3, 6, &[1, 2]).into_bytes())
        } else {
            Ok(b"<broken>".to_vec())
        }
    };
    match fetch_all(&endpoint, 2) {
        Err(FetchError::Abort(AggregationAbort::Undecodable { page, cause })) => {
            assert_eq!(page, 2);
            assert_eq!(cause, DecodeError::Malformed);
        },
        other => panic!("broken page 2 did not abort the fetch: {:?}", other),
    }
}

#[test]
fn feeding_a_parsed_document_matches_the_envelope_reading() {
    let env = decode_envelope(JsonValue::Int(0));
    assert_eq!(env, Err(DecodeError::Malformed));
    let agg = PageAggregator::new(3);
    match agg.feed_parsed(Some(JsonValue::Int(0))) {
        FeedOutcome::Failed(FetchError::Decode(DecodeError::Malformed)) => {},
        other => panic!("a non-object document did not fail the first page: {:?}", other),
    }
    let agg = PageAggregator::new(3);
    match agg.feed_parsed(None) {
        FeedOutcome::Failed(FetchError::Decode(DecodeError::Malformed)) => {},
        other => panic!("an unparsed body did not fail the first page: {:?}", other),
    }
}
