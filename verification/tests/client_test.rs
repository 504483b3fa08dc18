use vectcut::client::ClientError;
use vectcut::client::VectCutClient;

#[test]
fn test_get_draft_id_without_creating_draft() {
    let client = VectCutClient::new("http://localhost:9001".to_string());
    assert_eq!(client.draft_id, None);
    assert_eq!(
        client.add_video("f.mp4", 0, 10000, 1000),
        Err(ClientError::NoActiveDraft)
    );
    assert_eq!(client.add_text("hi", 0, 3000), Err(ClientError::NoActiveDraft));
    assert_eq!(client.save_draft(), Err(ClientError::NoActiveDraft));
}

#[test]
fn test_client_creation() {
    let client = VectCutClient::new("http://example.com:9001".to_string());
    assert_eq!(client.base_url, "http://example.com:9001");
    assert_eq!(client.draft_id, None);
    let req = client.create_draft_request(640, 480);
    assert_eq!(req.url, "http://example.com:9001/create_draft");
}
