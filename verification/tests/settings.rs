use buzzwords::ampq::rabbitmq_unavailable;
use buzzwords::config::{get_ip, get_port};
use buzzwords::dialogue::Status;
use buzzwords::mongo::{finish_indexing, index_mongo, no_default_database, start_indexing};
use buzzwords::redis::redis_unavailable;
use mongodb::bson::Document;

fn port(text: &str) -> Option<u16> {
    get_port(Some(text.to_string())).ok()
}

#[test]
fn address_defaults_to_every_interface() {
    assert_eq!(get_ip(None), "0.0.0.0");
    assert_eq!(get_ip(Some("127.0.0.1".to_string())), "127.0.0.1");
    assert_eq!(get_ip(Some(String::new())), "");
}

#[test]
fn port_defaults_to_3000() {
    assert_eq!(get_port(None), Ok(3000));
}

#[test]
fn port_is_read_from_decimal_digits() {
    assert_eq!(port("80"), Some(80));
    assert_eq!(port("+80"), Some(80));
    assert_eq!(port("0"), Some(0));
    assert_eq!(port("0080"), Some(80));
    assert_eq!(port("65535"), Some(65535));
}

#[test]
fn other_texts_are_no_ports() {
    assert_eq!(port("65536"), None);
    assert_eq!(port(""), None);
    assert_eq!(port("+"), None);
    assert_eq!(port("-1"), None);
    assert_eq!(port("++1"), None);
    assert_eq!(port(" 80"), None);
    assert_eq!(port("80 "), None);
    assert_eq!(port("eighty"), None);
    assert_eq!(port("99999999999999999999"), None);
}

#[test]
fn indexes_are_unique_and_ascending() {
    let indexes = index_mongo();
    assert_eq!(indexes.len(), 2);
    let mut name = Document::new();
    name.insert("name", 1i32);
    assert_eq!(indexes[0].collection, "user");
    assert_eq!(indexes[0].keys, name);
    assert!(indexes[0].unique);
    let mut title = Document::new();
    title.insert("title", 1i32);
    title.insert("username", 1i32);
    assert_eq!(indexes[1].collection, "post");
    assert_eq!(indexes[1].keys, title);
    let keys: Vec<&String> = indexes[1].keys.keys().collect();
    assert_eq!(keys, ["title", "username"]);
    assert!(indexes[1].unique);
}

#[test]
fn missing_services_are_internal_errors() {
    let failure = no_default_database();
    assert_eq!(failure.status, Status::InternalServerError);
    assert_eq!(failure.message, "No default database specified");
    let failure = redis_unavailable("timeout");
    assert_eq!(failure.status, Status::InternalServerError);
    assert_eq!(failure.message, "failed to obtain redis connection: timeout");
    let failure = rabbitmq_unavailable("closed");
    assert_eq!(failure.status, Status::InternalServerError);
    assert_eq!(failure.message, "failed to obtain rabbitmq connection: closed");
}

#[test]
fn statuses_have_their_codes() {
    assert_eq!(Status::BadRequest.code(), 400);
    assert_eq!(Status::NotFound.code(), 404);
    assert_eq!(Status::InternalServerError.code(), 500);
}

#[test]
fn indexing_needs_a_default_database() {
    assert_eq!(start_indexing(false).unwrap_err(), "no default database");
    let plan = start_indexing(true).unwrap();
    assert_eq!(format!("{:?}", plan), format!("{:?}", index_mongo()));
}

#[test]
fn indexing_succeeds_if_every_creation_does() {
    assert_eq!(finish_indexing::<&str>(vec![Ok(()), Ok(())]), Ok(()));
    assert_eq!(finish_indexing(vec![Ok(()), Err("post")]), Err("post"));
    assert_eq!(finish_indexing(vec![Err("user"), Ok(())]), Err("user"));
    assert_eq!(finish_indexing(vec![Err("user"), Err("post")]), Err("user"));
}
