use vectcut::client::VectCutClient;
use vectcut::workflow::plan_create;
use vectcut::workflow::probe_request;
use vectcut::workflow::probe_verdict;
use vectcut::workflow::ProbeVerdict;
use vectcut::workflow::WorkflowStep;
use vectcut::workflow::CANVAS_HEIGHT;
use vectcut::workflow::CANVAS_WIDTH;
use vectcut::workflow::TITLE_END_MS;
use vectcut::workflow::TITLE_START_MS;
use vectcut::workflow::VIDEO_END_MS;
use vectcut::workflow::VIDEO_START_MS;
use vectcut::workflow::VIDEO_VOLUME_MILLI;

/// Drives one `create` invocation against canned responses and returns the
/// URLs of the requests it would send, with the saved path.
fn run_create(video: &str, title: Option<&str>) -> (Vec<String>, String) {
    let mut client = VectCutClient::new("http://stub:9001".to_string());
    let mut urls: Vec<String> = Vec::new();
    let mut saved = String::new();
    for step in plan_create(title.is_some()) {
        match step {
            WorkflowStep::CreateDraft => {
                let req = client.create_draft_request(CANVAS_WIDTH, CANVAS_HEIGHT);
                urls.push(req.url);
                let id = client.create_draft("{\"draft_id\":\"d1\"}").unwrap();
                assert_eq!(id, "d1");
            }
            WorkflowStep::AddVideo => {
                let req = client
                    .add_video(video, VIDEO_START_MS, VIDEO_END_MS, VIDEO_VOLUME_MILLI)
                    .unwrap();
                urls.push(req.url);
            }
            WorkflowStep::AddText => {
                let req = client
                    .add_text(title.unwrap(), TITLE_START_MS, TITLE_END_MS)
                    .unwrap();
                urls.push(req.url);
            }
            WorkflowStep::SaveDraft => {
                let req = client.save_draft().unwrap();
                urls.push(req.url);
                saved = VectCutClient::save_draft_response("{\"draft_path\":\"/tmp/d1.json\"}")
                    .unwrap();
            }
        }
    }
    (urls, saved)
}

#[test]
fn create_with_title_performs_four_calls_in_order() {
    let (urls, saved) = run_create("clip.mp4", Some("Hello"));
    assert_eq!(
        urls,
        vec![
            "http://stub:9001/create_draft".to_string(),
            "http://stub:9001/add_video".to_string(),
            "http://stub:9001/add_text".to_string(),
            "http://stub:9001/save_draft".to_string(),
        ]
    );
    assert_eq!(saved, "/tmp/d1.json");
}

#[test]
fn create_without_title_omits_the_text_call() {
    let (urls, saved) = run_create("clip.mp4", None);
    assert_eq!(
        urls,
        vec![
            "http://stub:9001/create_draft".to_string(),
            "http://stub:9001/add_video".to_string(),
            "http://stub:9001/save_draft".to_string(),
        ]
    );
    assert_eq!(saved, "/tmp/d1.json");
}

#[test]
fn workflow_constants_match_the_documented_values() {
    assert_eq!((CANVAS_WIDTH, CANVAS_HEIGHT), (1080, 1920));
    assert_eq!((VIDEO_START_MS, VIDEO_END_MS, VIDEO_VOLUME_MILLI), (0, 10000, 1000));
    assert_eq!((TITLE_START_MS, TITLE_END_MS), (0, 3000));
}

#[test]
fn probe_posts_an_empty_object_to_create_draft() {
    let req = probe_request("http://stub:9001");
    assert_eq!(req.url, "http://stub:9001/create_draft");
    assert_eq!(req.body, "{}");
}

#[test]
fn probe_verdict_covers_every_outcome() {
    assert_eq!(probe_verdict(None), ProbeVerdict::Unreachable);
    assert_eq!(probe_verdict(Some(200)), ProbeVerdict::Reachable);
    assert_eq!(probe_verdict(Some(204)), ProbeVerdict::Reachable);
    assert_eq!(probe_verdict(Some(404)), ProbeVerdict::ServerError);
    assert_eq!(probe_verdict(Some(500)), ProbeVerdict::ServerError);
}
