use embe::embedding::{accept_token, all_numbers, embedding_body, parse_reply, read_token, EmbeddingConfig};
use embe::error::{is_success, status_outcome, ClientError};
use embe::text::to_decimal;
use embe::json::{Json, Member};
use embe::vector_db::{first_hits, hit_id, hit_ids, hits_of, search_body, store_body, VectorDB};

fn config(dimension: Option<usize>) -> EmbeddingConfig {
    EmbeddingConfig::new(
        "id",
        "secret",
        "https://auth.example/token",
        "https://api.example/embed",
        dimension,
    )
}

#[test]
fn decimal_digits() {
    assert_eq!(to_decimal(0), "0");
    assert_eq!(to_decimal(7), "7");
    assert_eq!(to_decimal(10), "10");
    assert_eq!(to_decimal(384), "384");
    assert_eq!(to_decimal(usize::MAX), usize::MAX.to_string());
}

#[test]
fn success_statuses() {
    assert!(is_success(200));
    assert!(is_success(201));
    assert!(is_success(299));
    assert!(!is_success(199));
    assert!(!is_success(300));
    assert!(!is_success(404));
    assert!(!is_success(500));
}

#[test]
fn status_outcome_names_the_step() {
    assert_eq!(status_outcome(200, ClientError::Store), Ok(()));
    assert_eq!(status_outcome(500, ClientError::Store), Err(ClientError::Store));
    assert_eq!(status_outcome(401, ClientError::Auth), Err(ClientError::Auth));
    assert_eq!(status_outcome(400, ClientError::Query), Err(ClientError::Query));
    assert_eq!(status_outcome(503, ClientError::Embedding), Err(ClientError::Embedding));
}

#[test]
fn token_url_carries_credentials() {
    assert_eq!(
        config(None).token_url(),
        "https://auth.example/token?grant_type=client_credentials&client_id=id&client_secret=secret"
    );
}

#[test]
fn embedding_url_carries_token() {
    assert_eq!(config(None).embedding_url("tok"), "https://api.example/embed?access_token=tok");
}

#[test]
fn embedding_body_quotes_the_text() {
    assert_eq!(embedding_body("hello"), "{\"input\":\"hello\"}");
    assert_eq!(embedding_body("say \"hi\"\n"), "{\"input\":\"say \\\"hi\\\"\\n\"}");
    assert_eq!(embedding_body(""), "{\"input\":\"\"}");
}

#[test]
fn token_is_read_from_reply() {
    assert_eq!(read_token(200, "{\"access_token\":\"abc\",\"expires_in\":3600}"), Ok("abc".to_string()));
}

#[test]
fn token_failures_are_auth_errors() {
    assert_eq!(read_token(401, "{\"access_token\":\"abc\"}"), Err(ClientError::Auth));
    assert_eq!(read_token(200, "not json"), Err(ClientError::Auth));
    assert_eq!(read_token(200, "{\"error\":\"invalid_client\"}"), Err(ClientError::Auth));
    assert_eq!(read_token(200, "{\"access_token\":42}"), Err(ClientError::Auth));
}

#[test]
fn parse_reply_reports_the_given_step() {
    assert!(parse_reply("{\"a\":1}", ClientError::Query).is_ok());
    assert_eq!(parse_reply("{", ClientError::Query).err(), Some(ClientError::Query));
    assert_eq!(parse_reply("", ClientError::Embedding).err(), Some(ClientError::Embedding));
}

#[test]
fn embedding_entries_of_required_length() {
    let reply = parse_reply("{\"data\":[{\"embedding\":[0.5,-0.25,1]}]}", ClientError::Embedding).unwrap();
    let entries = config(Some(3)).embedding_entries(&reply).unwrap();
    assert_eq!(entries.len(), 3);
    assert_eq!(entries[1], Json::Number("-0.25".to_string()));
    assert_eq!(entries[2], Json::Number("1".to_string()));
    assert_eq!(config(None).embedding_entries(&reply).unwrap().len(), 3);
}

#[test]
fn embedding_of_wrong_length_is_refused() {
    let reply = parse_reply("{\"data\":[{\"embedding\":[0.5,-0.25,1]}]}", ClientError::Embedding).unwrap();
    assert_eq!(config(Some(384)).embedding_entries(&reply).err(), Some(ClientError::Embedding));
    assert_eq!(config(Some(2)).embedding_entries(&reply).err(), Some(ClientError::Embedding));
}

#[test]
fn malformed_embedding_replies_are_refused() {
    for body in [
        "{}",
        "{\"data\":[]}",
        "{\"data\":[{}]}",
        "{\"data\":[{\"embedding\":\"x\"}]}",
        "{\"data\":[{\"embedding\":[1,\"two\",3]}]}",
    ] {
        let reply = parse_reply(body, ClientError::Embedding).unwrap();
        assert_eq!(config(None).embedding_entries(&reply).err(), Some(ClientError::Embedding), "{}", body);
    }
}

#[test]
fn store_addresses() {
    let db = VectorDB::new("http://localhost:9200", "test_vector_index");
    assert_eq!(db.doc_url("test_vector_1"), "http://localhost:9200/test_vector_index/_doc/test_vector_1");
    assert_eq!(db.search_url(), "http://localhost:9200/test_vector_index/_search");
}

#[test]
fn store_body_wraps_vector() {
    assert_eq!(store_body("[0.1,0.2]"), "{\"vector\":[0.1,0.2]}");
}

#[test]
fn search_body_asks_for_top_k() {
    let body = search_body("[1.0,0.0,0.0]", 2);
    let v: serde_json::Value = serde_json::from_str(&body).unwrap();
    assert_eq!(v["size"].as_u64(), Some(2));
    assert_eq!(
        v["query"]["script_score"]["script"]["source"].as_str(),
        Some("cosineSimilarity(params.query_vector, 'vector') + 1.0")
    );
    assert_eq!(v["query"]["script_score"]["script"]["params"]["query_vector"][0].as_f64(), Some(1.0));
    assert!(v["query"]["script_score"]["query"]["match_all"].is_object());
    let large: serde_json::Value = serde_json::from_str(&search_body("[]", 1000)).unwrap();
    assert_eq!(large["size"].as_u64(), Some(1000));
}

#[test]
fn hits_keep_engine_order() {
    let reply = parse_reply(
        "{\"hits\":{\"hits\":[{\"_id\":\"a\",\"_score\":2.0},{\"_id\":\"b\",\"_score\":1.0}]}}",
        ClientError::Query,
    )
    .unwrap();
    let hits = hits_of(&reply, 2).unwrap();
    let ids: Vec<String> = hits.iter().map(hit_id).collect();
    assert_eq!(ids, vec!["a".to_string(), "b".to_string()]);
}

#[test]
fn empty_hits_are_no_error() {
    let reply = parse_reply("{\"hits\":{\"total\":{\"value\":0},\"hits\":[]}}", ClientError::Query).unwrap();
    assert!(hits_of(&reply, 5).unwrap().is_empty());
}

#[test]
fn malformed_search_replies_are_refused() {
    for body in ["{}", "{\"hits\":{}}", "{\"hits\":{\"hits\":{}}}", "[]"] {
        let reply = parse_reply(body, ClientError::Query).unwrap();
        assert_eq!(hits_of(&reply, 5).err(), Some(ClientError::Query), "{}", body);
    }
}

#[test]
fn hit_without_id_reads_empty() {
    let reply = parse_reply("{\"_score\":1.0}", ClientError::Query).unwrap();
    assert_eq!(hit_id(&reply), "");
    let numeric = parse_reply("{\"_id\":5}", ClientError::Query).unwrap();
    assert_eq!(hit_id(&numeric), "");
}

#[test]
fn hits_beyond_top_k_are_dropped() {
    let reply = parse_reply(
        "{\"hits\":{\"hits\":[{\"_id\":\"a\"},{\"_id\":\"b\"},{\"_id\":\"c\"}]}}",
        ClientError::Query,
    )
    .unwrap();
    let ids: Vec<String> = hits_of(&reply, 2).unwrap().iter().map(hit_id).collect();
    assert_eq!(ids, vec!["a".to_string(), "b".to_string()]);
    assert!(hits_of(&reply, 0).unwrap().is_empty());
    assert_eq!(hits_of(&reply, 10).unwrap().len(), 3);
}

#[test]
fn first_hits_is_a_prefix() {
    let hits: Vec<Json> = (0..4).map(|i: i32| Json::Number(i.to_string())).collect();
    assert_eq!(first_hits(&hits, 2), &hits[..2]);
    assert_eq!(first_hits(&hits, 4), &hits[..]);
    assert_eq!(first_hits(&hits, 9), &hits[..]);
    assert!(first_hits(&hits, 0).is_empty());
    assert!(first_hits(&[], 3).is_empty());
}

#[test]
fn accept_token_needs_a_token() {
    assert_eq!(accept_token(Some("t".to_string())), Ok("t".to_string()));
    assert_eq!(accept_token(None), Err(ClientError::Auth));
}

#[test]
fn check_dimension_compares_lengths() {
    assert_eq!(config(Some(384)).check_dimension(384), Ok(()));
    assert_eq!(config(Some(384)).check_dimension(383), Err(ClientError::Embedding));
    assert_eq!(config(Some(384)).check_dimension(0), Err(ClientError::Embedding));
    assert_eq!(config(None).check_dimension(7), Ok(()));
}

#[test]
fn embedding_request_follows_a_token() {
    let (url, body) = config(None)
        .embedding_request("hi", 200, "{\"access_token\":\"tok\"}")
        .unwrap();
    assert_eq!(url, "https://api.example/embed?access_token=tok");
    assert_eq!(body, "{\"input\":\"hi\"}");
    assert_eq!(config(None).embedding_request("hi", 500, "{\"access_token\":\"tok\"}"), Err(ClientError::Auth));
    assert_eq!(config(None).embedding_request("hi", 200, "{}"), Err(ClientError::Auth));
}

#[test]
fn hit_ids_keep_order() {
    let reply = parse_reply(
        "{\"hits\":{\"hits\":[{\"_id\":\"b\"},{\"_score\":1},{\"_id\":\"a\"}]}}",
        ClientError::Query,
    )
    .unwrap();
    let ids = hit_ids(hits_of(&reply, 10).unwrap());
    assert_eq!(ids, vec!["b".to_string(), String::new(), "a".to_string()]);
    assert!(hit_ids(&[]).is_empty());
}

#[test]
fn all_numbers_checks_every_entry() {
    assert!(all_numbers(&vec![]));
    assert!(all_numbers(&vec![Json::Number("1".to_string()), Json::Number("2.5".to_string())]));
    assert!(!all_numbers(&vec![Json::Number("1".to_string()), Json::Null]));
    assert!(!all_numbers(&vec![Json::Str("1".to_string())]));
}

#[test]
fn parsed_document_is_converted_one_for_one() {
    let doc = parse_reply("{\"a\":[true,null,\"x\",2]}", ClientError::Query).unwrap();
    assert_eq!(
        doc,
        Json::Object(vec![Member {
            key: "a".to_string(),
            value: Json::Array(vec![
                Json::Bool(true),
                Json::Null,
                Json::Str("x".to_string()),
                Json::Number("2".to_string()),
            ]),
        }])
    );
}

#[test]
fn json_accessors() {
    let doc = parse_reply("{\"k\":[\"s\",3]}", ClientError::Query).unwrap();
    let k = doc.member("k").unwrap();
    assert!(doc.member("missing").is_none());
    assert!(k.member("k").is_none());
    assert_eq!(k.element(0).unwrap().text(), Some("s".to_string()));
    assert!(k.element(1).unwrap().is_number());
    assert!(k.element(2).is_none());
    assert_eq!(k.items().unwrap().len(), 2);
    assert!(doc.items().is_none());
    assert!(doc.text().is_none());
}
