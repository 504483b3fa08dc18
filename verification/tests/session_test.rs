use vectcut::client::ClientError;
use vectcut::client::VectCutClient;

fn session_with_draft(id: &str) -> VectCutClient {
    let mut client = VectCutClient::new("http://127.0.0.1:9001".to_string());
    let body = format!("{{\"draft_id\":\"{}\"}}", id);
    let got = client.create_draft(&body).expect("draft creation should succeed");
    assert_eq!(got, id);
    client
}

#[test]
fn default_session_targets_local_server() {
    let client = VectCutClient::default();
    assert_eq!(client.base_url, "http://127.0.0.1:9001");
    assert_eq!(client.draft_id, None);
}

#[test]
fn operations_without_draft_fail_and_build_no_request() {
    let client = VectCutClient::default();
    assert_eq!(
        client.add_video("clip.mp4", 0, 10000, 1000),
        Err(ClientError::NoActiveDraft)
    );
    assert_eq!(client.add_text("Hello", 0, 3000), Err(ClientError::NoActiveDraft));
    assert_eq!(client.save_draft(), Err(ClientError::NoActiveDraft));
}

#[test]
fn create_draft_stores_and_returns_id() {
    let mut client = VectCutClient::new("http://127.0.0.1:9001".to_string());
    let r = client.create_draft("{\"draft_id\":\"abc\"}");
    assert_eq!(r, Ok("abc".to_string()));
    assert_eq!(client.draft_id, Some("abc".to_string()));
}

#[test]
fn create_draft_request_body_is_exact() {
    let client = VectCutClient::default();
    let req = client.create_draft_request(1080, 1920);
    assert_eq!(req.url, "http://127.0.0.1:9001/create_draft");
    assert_eq!(req.body, "{\"canvas_width\":1080,\"canvas_height\":1920}");
}

#[test]
fn add_video_body_is_exact() {
    let client = session_with_draft("abc");
    let req = client.add_video("f.mp4", 0, 10000, 1000).unwrap();
    assert_eq!(req.url, "http://127.0.0.1:9001/add_video");
    assert_eq!(
        req.body,
        "{\"draft_id\":\"abc\",\"video_url\":\"f.mp4\",\"start\":0.0,\"end\":10.0,\"volume\":1.0}"
    );
}

#[test]
fn add_text_body_is_exact() {
    let client = session_with_draft("abc");
    let req = client.add_text("Hello", 0, 3000).unwrap();
    assert_eq!(req.url, "http://127.0.0.1:9001/add_text");
    assert_eq!(
        req.body,
        "{\"draft_id\":\"abc\",\"text\":\"Hello\",\"start\":0.0,\"end\":3.0}"
    );
}

#[test]
fn save_draft_body_is_exact() {
    let client = session_with_draft("abc");
    let req = client.save_draft().unwrap();
    assert_eq!(req.url, "http://127.0.0.1:9001/save_draft");
    assert_eq!(req.body, "{\"draft_id\":\"abc\"}");
}

#[test]
fn save_draft_response_returns_path_unmodified() {
    let r = VectCutClient::save_draft_response("{\"draft_path\":\"/tmp/d1.json\"}");
    assert_eq!(r, Ok("/tmp/d1.json".to_string()));
}

#[test]
fn millisecond_values_render_as_decimal_seconds() {
    let client = session_with_draft("d");
    let req = client.add_video("v", 500, 1234, 10).unwrap();
    assert_eq!(
        req.body,
        "{\"draft_id\":\"d\",\"video_url\":\"v\",\"start\":0.5,\"end\":1.234,\"volume\":0.01}"
    );
    let req = client.add_video("v", 100, 20, 999).unwrap();
    assert_eq!(
        req.body,
        "{\"draft_id\":\"d\",\"video_url\":\"v\",\"start\":0.1,\"end\":0.02,\"volume\":0.999}"
    );
}

#[test]
fn request_strings_are_escaped() {
    let client = session_with_draft("d");
    let req = client.add_text("He said \"hi\"\\\n", 0, 3000).unwrap();
    assert_eq!(
        req.body,
        "{\"draft_id\":\"d\",\"text\":\"He said \\\"hi\\\"\\\\\\n\",\"start\":0.0,\"end\":3.0}"
    );
}

#[test]
fn malformed_responses_are_rejected_and_leave_the_session_unchanged() {
    let mut client = VectCutClient::default();
    for body in [
        "",
        "not json",
        "{",
        "{}",
        "{\"draft_id\":123}",
        "{\"other\":\"x\"}",
        "{\"draft_id\":\"a\"} trailing",
        "[\"draft_id\",\"a\"]",
        "{\"draft_id\":{\"nested\":\"a\"}}",
    ] {
        assert_eq!(client.create_draft(body), Err(ClientError::BadResponse));
        assert_eq!(client.draft_id, None);
        assert_eq!(
            VectCutClient::save_draft_response(body),
            Err(ClientError::BadResponse)
        );
    }
}

#[test]
fn responses_may_carry_whitespace_escapes_and_extra_fields() {
    let mut client = VectCutClient::default();
    let r = client.create_draft(" { \"draft_id\" : \"a\\\"b\" , \"ok\" : true } ");
    assert_eq!(r, Ok("a\"b".to_string()));
    let r = VectCutClient::save_draft_response("{\"n\":1.5,\"draft_path\":\"p q\"}");
    assert_eq!(r, Ok("p q".to_string()));
}

#[test]
fn error_messages_name_the_condition() {
    assert_eq!(ClientError::NoActiveDraft.message(), "no active draft");
    assert_eq!(ClientError::BadResponse.message(), "malformed server response");
}
