use aragog::query::{QueryCursor, QueryResult};
use aragog::{ArangoHttpError, Error, Update};

#[test]
fn http_codes_round_trip() {
    let known: [(u16, ArangoHttpError); 13] = [
        (400, ArangoHttpError::BadParameter),
        (401, ArangoHttpError::Unauthorized),
        (403, ArangoHttpError::Forbidden),
        (404, ArangoHttpError::NotFound),
        (405, ArangoHttpError::MethodNotAllowed),
        (406, ArangoHttpError::NotAcceptable),
        (409, ArangoHttpError::Conflict),
        (412, ArangoHttpError::PreconditionFailed),
        (500, ArangoHttpError::ServerError),
        (503, ArangoHttpError::ServiceUnavailable),
        (504, ArangoHttpError::GatewayTimeout),
        (600, ArangoHttpError::CorruptedJson),
        (601, ArangoHttpError::SuperfluousSuffices),
    ];
    for (code, error) in known.iter() {
        assert_eq!(ArangoHttpError::from_code(*code), *error);
        assert_eq!(error.http_code(), *code);
    }
    assert_eq!(ArangoHttpError::from_code(418), ArangoHttpError::UnknownError(418));
    assert_eq!(ArangoHttpError::UnknownError(418).http_code(), 418);
}

#[test]
fn uniq_takes_the_only_document() {
    assert_eq!(QueryResult::new(vec![7]).uniq(), Ok(7));
    assert_eq!(QueryResult::<i32>::new(vec![]).uniq(), Err(Error::NotFound { count: 0 }));
    assert_eq!(QueryResult::new(vec![1, 2]).uniq(), Err(Error::NotFound { count: 2 }));
}

#[test]
fn first_record_takes_the_first() {
    assert_eq!(QueryResult::new(vec![3, 4]).first_record(), Some(3));
    assert_eq!(QueryResult::<i32>::new(vec![]).first_record(), None);
    let r: QueryResult<i32> = vec![5].into();
    assert_eq!(r.len(), 1);
    assert!(!r.is_empty());
}

fn drain(batches: Vec<Vec<&'static str>>) -> Vec<&'static str> {
    let mut pages = batches.into_iter();
    let first = pages.next().unwrap();
    let handle = |more: bool| if more { Some("cursor-1".to_string()) } else { None };
    let mut rest: Vec<Vec<&'static str>> = pages.collect();
    rest.reverse();
    let mut cursor = QueryCursor::new(QueryResult::new(first), handle(!rest.is_empty()), 2);
    let mut collected = QueryResult::new(cursor.result().0.clone());
    while let Some((id, size)) = cursor.next_request() {
        assert_eq!(id, "cursor-1");
        assert_eq!(size, 2);
        let page = rest.pop().unwrap();
        let answer: Result<_, ArangoHttpError> = Ok((page, handle(!rest.is_empty())));
        let batch = cursor.receive(answer).unwrap();
        collected.append(batch);
    }
    assert!(!cursor.has_more());
    collected.0
}

#[test]
fn cursor_yields_every_batch_in_order() {
    let all = drain(vec![vec!["a", "b"], vec!["c", "d"], vec!["e"]]);
    assert_eq!(all, vec!["a", "b", "c", "d", "e"]);
    let one = drain(vec![vec!["a"]]);
    assert_eq!(one, vec!["a"]);
    let with_empty = drain(vec![vec![], vec!["x"], vec![]]);
    assert_eq!(with_empty, vec!["x"]);
}

#[test]
fn cursor_failure_is_returned_and_ends_it() {
    let mut cursor = QueryCursor::new(QueryResult::new(vec![1, 2]), Some("c".to_string()), 2);
    assert!(cursor.has_more());
    let answer: Result<(Vec<i32>, Option<String>), ArangoHttpError> =
        Err(ArangoHttpError::GatewayTimeout);
    let r = cursor.receive(answer);
    assert_eq!(r.err(), Some(ArangoHttpError::GatewayTimeout));
    assert!(!cursor.has_more());
    assert!(cursor.next_request().is_none());
    assert_eq!(cursor.result().0, vec![1, 2]);
}

struct Profile {
    name: String,
}

impl Update<Option<String>> for Profile {
    fn update(&mut self, form: &Option<String>) -> Result<(), Error> {
        Self::update_field_from_option(&mut self.name, form);
        Ok(())
    }
}

#[test]
fn update_field_from_option_takes_given_values() {
    let mut p = Profile { name: "old".to_string() };
    p.update(&None).unwrap();
    assert_eq!(p.name, "old");
    p.update(&Some("new".to_string())).unwrap();
    assert_eq!(p.name, "new");
}
