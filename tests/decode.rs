use revbot::client::{merge_request_from_response, pipeline_from_response};
use revbot::common::{
    MergeRequestAttributes, MergeStatus, PipelineAttributes, Project, StatusState, Timestamp,
    User,
};
use revbot::webhook::{
    decode_webhook, MergeRequestWebhook, PipelineWebhook, UnsupportedWebhook, Webhook,
};

fn hds() -> User {
    User {
        email: "hds@example.com".to_owned(),
        id: 1069,
        name: "Hayden Stainsby".to_owned(),
        username: "hds-".to_owned(),
    }
}

fn mr_test_project() -> Project {
    Project {
        id: 17898,
        name: "mr-test".to_owned(),
        path_with_namespace: "hds-/mr-test".to_owned(),
        web_url: "https://gitlab.com/hds-/mr-test".to_owned(),
    }
}

#[test]
fn test_deserialize_merge_request() {
    let json = r#"
        {
          "object_attributes": {
            "created_at": "2021-09-06 10:54:57 -0500",
            "description": "",
            "id": 289144,
            "iid": 3,
            "merge_error": null,
            "merge_status": "unchecked",
            "merge_when_pipeline_succeeds": false,
            "state": "opened",
            "state_id": 1,
            "url": "https://gitlab.com/hds-/mr-test/-/merge_requests/3",
            "title": "Fail pipeline"
          },
          "object_kind": "merge_request",
          "project": {
            "id": 17898,
            "name": "mr-test",
            "path_with_namespace": "hds-/mr-test",
            "web_url": "https://gitlab.com/hds-/mr-test"
          },
          "user": {
            "email": "hds@example.com",
            "id": 1069,
            "name": "Hayden Stainsby",
            "username": "hds-"
          }
        }
        "#;

    let expected = Webhook::MergeRequest(MergeRequestWebhook {
        assignees: None,
        changes: None,
        merge_request: MergeRequestAttributes {
            action: None,
            iid: 3,
            merge_status: MergeStatus::Unchecked,
            title: "Fail pipeline".to_owned(),
            url: "https://gitlab.com/hds-/mr-test/-/merge_requests/3".to_owned(),
        },
        project: mr_test_project(),
        user: hds(),
    });

    println!("{}", json);
    let webhook = decode_webhook(json.as_bytes()).unwrap();
    assert_eq!(expected, webhook);
}

#[test]
fn test_deserialize_pipeline() {
    let json = r#"
        {
          "object_attributes": {
            "finished_at": null,
            "id": 4038106,
            "ref": "fail-pipeline",
            "status": "running"
          },
          "object_kind": "pipeline",
          "project": {
            "id": 17898,
            "name": "mr-test",
            "path_with_namespace": "hds-/mr-test",
            "web_url": "https://gitlab.com/hds-/mr-test"
          },
          "user": {
            "email": "hds@example.com",
            "id": 1069,
            "name": "Hayden Stainsby",
            "username": "hds-"
          }
        }
      "#;

    let expected = Webhook::Pipeline(PipelineWebhook {
        merge_request: None,
        pipeline: PipelineAttributes {
            finished_at: None,
            id: 4038106,
            ref_: "fail-pipeline".to_owned(),
            status: StatusState::Running,
        },
        project: mr_test_project(),
        user: hds(),
    });

    println!("{}", json);
    let webhook = decode_webhook(json.as_bytes()).unwrap();
    assert_eq!(expected, webhook);
}

const PROJECT: &str = r#""project": {"id": 7, "name": "p", "path_with_namespace": "g/p", "web_url": "https://x/g/p"}"#;
const USER: &str = r#""user": {"email": "u@x", "id": 5, "name": "U", "username": "u"}"#;

#[test]
fn unknown_discriminator_is_unsupported() {
    let payload = format!(r#"{{"object_kind": "issue", {}, {}}}"#, PROJECT, USER);
    assert_eq!(decode_webhook(payload.as_bytes()), Err(UnsupportedWebhook));
}

#[test]
fn missing_discriminator_is_unsupported() {
    let payload = format!(
        r#"{{"object_attributes": {{"id": 1, "ref": "main", "status": "running"}}, {}, {}}}"#,
        PROJECT, USER
    );
    assert_eq!(decode_webhook(payload.as_bytes()), Err(UnsupportedWebhook));
}

#[test]
fn malformed_payloads_are_unsupported() {
    assert_eq!(decode_webhook(b"not json"), Err(UnsupportedWebhook));
    assert_eq!(decode_webhook(b"[1, 2]"), Err(UnsupportedWebhook));
    assert_eq!(decode_webhook(b"{\"object_kind\": \"pipeline\"}"), Err(UnsupportedWebhook));
    let invalid_utf8: &[u8] = b"{\"object_kind\": \"pipe\xfflinen\"}";
    assert_eq!(decode_webhook(invalid_utf8), Err(UnsupportedWebhook));
}

#[test]
fn unknown_status_is_unsupported() {
    let payload = format!(
        r#"{{"object_kind": "pipeline", "object_attributes": {{"id": 1, "ref": "main", "status": "exploded"}}, {}, {}}}"#,
        PROJECT, USER
    );
    assert_eq!(decode_webhook(payload.as_bytes()), Err(UnsupportedWebhook));
}

#[test]
fn negative_id_is_unsupported() {
    let payload = format!(
        r#"{{"object_kind": "pipeline", "object_attributes": {{"id": -1, "ref": "main", "status": "running"}}, {}, {}}}"#,
        PROJECT, USER
    );
    assert_eq!(decode_webhook(payload.as_bytes()), Err(UnsupportedWebhook));
}

#[test]
fn pipeline_with_linked_merge_request_decodes() {
    let payload = format!(
        r#"{{"object_kind": "pipeline",
            "merge_request": {{"iid": 3, "merge_status": "can_be_merged", "title": "Fix bug", "url": "https://x/mr/3", "action": "open"}},
            "object_attributes": {{"id": 9, "ref": "main", "status": "waiting_for_resource", "finished_at": "2021-09-06"}},
            {}, {}}}"#,
        PROJECT, USER
    );
    match decode_webhook(payload.as_bytes()).unwrap() {
        Webhook::Pipeline(w) => {
            let mr = w.merge_request.unwrap();
            assert_eq!(mr.iid, 3);
            assert_eq!(mr.merge_status, MergeStatus::CanBeMerged);
            assert_eq!(mr.action, Some("open".to_owned()));
            assert_eq!(w.pipeline.status, StatusState::WaitingForResource);
            assert_eq!(w.pipeline.finished_at, Some("2021-09-06".to_owned()));
            assert_eq!(w.project.path_with_namespace, "g/p");
        }
        other => panic!("unexpected {:?}", other),
    }
}

#[test]
fn merge_request_with_assignee_changes_decodes() {
    let payload = format!(
        r#"{{"object_kind": "merge_request",
            "object_attributes": {{"iid": 3, "merge_status": "checking", "title": "T", "url": "https://x/mr/3"}},
            "changes": {{"assignees": {{
                "previous": [{{"email": "a@x", "id": 1, "name": "A", "username": "a"}}],
                "current": [{{"email": "a@x", "id": 1, "name": "A", "username": "a"}},
                            {{"email": "b@x", "id": 2, "name": "B", "username": "b"}}]}}}},
            {}, {}}}"#,
        PROJECT, USER
    );
    match decode_webhook(payload.as_bytes()).unwrap() {
        Webhook::MergeRequest(w) => {
            let changes = w.get_assignee_changes().unwrap();
            assert_eq!(changes.current.len(), 2);
            assert_eq!(changes.previous.len(), 1);
            assert_eq!(changes.current[1].email, "b@x");
            assert!(w.assignees.is_none());
        }
        other => panic!("unexpected {:?}", other),
    }
}

#[test]
fn bad_assignee_list_is_unsupported() {
    let payload = format!(
        r#"{{"object_kind": "merge_request",
            "object_attributes": {{"iid": 3, "merge_status": "checking", "title": "T", "url": "https://x/mr/3"}},
            "assignees": [{{"email": "a@x", "id": "one", "name": "A", "username": "a"}}],
            {}, {}}}"#,
        PROJECT, USER
    );
    assert_eq!(decode_webhook(payload.as_bytes()), Err(UnsupportedWebhook));
}

#[test]
fn pipeline_response_decodes() {
    let body = br#"{"ref": "main", "status": "success", "web_url": "https://x/p/9", "id": 9}"#;
    let p = pipeline_from_response(body).unwrap();
    assert_eq!(p.web_url, "https://x/p/9");
    assert_eq!(p.status, StatusState::Success);
    assert_eq!(p.ref_, "main");
    assert!(pipeline_from_response(br#"{"ref": "main", "status": "success"}"#).is_none());
}

fn merge_request_body(created_at: &str) -> String {
    format!(
        r#"{{"title": "Fix bug", "created_at": "{}", "updated_at": "1970-01-01T00:00:10.5Z",
            "author": {{"id": 4, "username": "a", "web_url": "https://x/a"}},
            "assignees": [{{"id": 6, "username": "r", "web_url": "https://x/r"}}],
            "id": 77, "iid": 3, "merge_status": "can_be_merged", "work_in_progress": false,
            "web_url": "https://x/mr/3", "pipeline": null}}"#,
        created_at
    )
}

#[test]
fn merge_request_response_decodes() {
    let m = merge_request_from_response(merge_request_body("2021-09-06T10:54:57-05:00").as_bytes())
        .unwrap();
    assert_eq!(m.title, "Fix bug");
    assert_eq!(m.web_url, "https://x/mr/3");
    assert_eq!(m.iid, 3);
    assert_eq!(m.created_at, Timestamp { seconds: 1630943697, nanos: 0 });
    assert_eq!(m.updated_at, Timestamp { seconds: 10, nanos: 500_000_000 });
    assert_eq!(m.assignees.unwrap()[0].username, "r");
    assert!(m.pipeline.is_none());
}

#[test]
fn merge_request_response_with_bad_date_fails() {
    assert!(merge_request_from_response(merge_request_body("yesterday").as_bytes()).is_none());
}
