use revbot::common::{
    MergeRequest, MergeRequestAttributes, MergeStatus, Pipeline, PipelineAttributes, Project,
    StatusState, Timestamp, User, UserBasic,
};
use revbot::webex::{Message as WebexMessage, WebexClient};
use revbot::webhook::{
    get_new_assignees, process_merge_request, process_new_assignee, process_pipeline_status,
    AssigneeChanges, Changes, Lookup, MergeRequestWebhook, PipelineAction, PipelineWebhook,
};

fn user(id: u64, email: &str) -> User {
    User { email: email.to_owned(), id, name: format!("User {}", id), username: format!("user{}", id) }
}

fn project() -> Project {
    Project {
        id: 17898,
        name: "mr-test".to_owned(),
        path_with_namespace: "hds-/mr-test".to_owned(),
        web_url: "https://x/mr-test".to_owned(),
    }
}

fn mr_attributes() -> MergeRequestAttributes {
    MergeRequestAttributes {
        action: None,
        iid: 3,
        merge_status: MergeStatus::Unchecked,
        title: "Fix bug".to_owned(),
        url: "https://x/mr/3".to_owned(),
    }
}

fn mr_webhook(current: Vec<User>, previous: Vec<User>) -> MergeRequestWebhook {
    MergeRequestWebhook {
        assignees: None,
        changes: Some(Changes { assignees: Some(AssigneeChanges { current, previous }) }),
        merge_request: mr_attributes(),
        project: project(),
        user: user(1069, "hds@example.com"),
    }
}

fn pipeline_webhook(status: StatusState, linked: bool) -> PipelineWebhook {
    PipelineWebhook {
        merge_request: if linked { Some(mr_attributes()) } else { None },
        pipeline: PipelineAttributes { finished_at: None, id: 9, ref_: "main".to_owned(), status },
        project: project(),
        user: user(1069, "hds@example.com"),
    }
}

fn pipeline_details() -> Pipeline {
    Pipeline { ref_: "main".to_owned(), status: StatusState::Running, web_url: "https://x/p/9".to_owned() }
}

fn merge_request_details() -> MergeRequest {
    MergeRequest {
        title: "Fix bug".to_owned(),
        created_at: Timestamp { seconds: 0, nanos: 0 },
        updated_at: Timestamp { seconds: 0, nanos: 0 },
        author: UserBasic { id: 4, username: "a".to_owned(), web_url: "https://x/a".to_owned() },
        assignees: None,
        id: 77,
        iid: 3,
        merge_status: "can_be_merged".to_owned(),
        work_in_progress: false,
        web_url: "https://x/mr/3".to_owned(),
        pipeline: None,
    }
}

#[test]
fn diff_keeps_new_users_in_order() {
    let changes = AssigneeChanges {
        current: vec![user(1, "a@x"), user(2, "b@x")],
        previous: vec![user(1, "a@x")],
    };
    let added = get_new_assignees(&changes);
    assert_eq!(added.len(), 1);
    assert_eq!(added[0].id, 2);
    assert_eq!(added[0].email, "b@x");

    let changes = AssigneeChanges {
        current: vec![user(4, "d@x"), user(1, "a@x"), user(3, "c@x")],
        previous: vec![user(1, "other@x"), user(2, "b@x")],
    };
    let ids: Vec<u64> = get_new_assignees(&changes).iter().map(|u| u.id).collect();
    assert_eq!(ids, vec![4, 3]);
}

#[test]
fn diff_of_same_ids_is_empty() {
    let changes = AssigneeChanges {
        current: vec![user(2, "b@x"), user(1, "a@x")],
        previous: vec![user(1, "changed@x"), user(2, "b@x")],
    };
    assert!(get_new_assignees(&changes).is_empty());
    let empty = AssigneeChanges { current: vec![], previous: vec![] };
    assert!(get_new_assignees(&empty).is_empty());
}

#[test]
fn one_new_assignee_gets_one_notification() {
    let w = mr_webhook(vec![user(1, "a@x"), user(2, "b@x")], vec![user(1, "a@x")]);
    let messages = process_merge_request(&w);
    assert_eq!(messages.len(), 1);
    assert_eq!(messages[0].recipient_email, "b@x");
    assert!(messages[0].message.contains("!3"));
    assert!(messages[0].message.contains("Fix bug"));
}

#[test]
fn assignee_text_is_exact() {
    let w = mr_webhook(vec![], vec![]);
    let m = process_new_assignee(&user(2, "b@x"), &w);
    assert_eq!(m.recipient_email, "b@x");
    assert_eq!(
        m.message,
        "[!3 Fix bug](https://x/mr/3) ([mr-test](https://x/mr-test)) by @user1069 \u{1F929} Added as assignee"
    );
}

#[test]
fn two_new_assignees_get_two_notifications() {
    let w = mr_webhook(vec![user(1, "a@x"), user(2, "b@x"), user(3, "c@x")], vec![user(2, "b@x")]);
    let messages = process_merge_request(&w);
    assert_eq!(messages.len(), 2);
    assert_eq!(messages[0].recipient_email, "a@x");
    assert_eq!(messages[1].recipient_email, "c@x");
}

#[test]
fn no_change_record_gives_no_notification() {
    let mut w = mr_webhook(vec![], vec![]);
    w.changes = None;
    assert!(process_merge_request(&w).is_empty());
    w.changes = Some(Changes { assignees: None });
    assert!(process_merge_request(&w).is_empty());
}

#[test]
fn running_pipeline_is_reported() {
    let w = pipeline_webhook(StatusState::Running, true);
    let first = process_pipeline_status(&w, &Lookup::Pending, &Lookup::Pending);
    assert_eq!(first, PipelineAction::FetchPipeline { project_id: 17898, pipeline_id: 9 });
    let second = process_pipeline_status(&w, &Lookup::Found(pipeline_details()), &Lookup::Pending);
    assert_eq!(second, PipelineAction::FetchMergeRequest { project_id: 17898, merge_request_iid: 3 });
    let last = process_pipeline_status(
        &w,
        &Lookup::Found(pipeline_details()),
        &Lookup::Found(merge_request_details()),
    );
    match last {
        PipelineAction::Finish(Some(m)) => {
            assert_eq!(m.recipient_email, "hds@example.com");
            assert_eq!(
                m.message,
                "[!3 Fix bug](https://x/mr/3) ([mr-test](https://x/mr-test)) [#9](https://x/p/9) \u{23F3} Running"
            );
        }
        other => panic!("unexpected {:?}", other),
    }
}

#[test]
fn success_and_failure_are_reported() {
    for (status, marker) in [
        (StatusState::Success, "\u{1F31E} Success"),
        (StatusState::Failed, "\u{26C8}\u{FE0F} Failed"),
    ] {
        let w = pipeline_webhook(status, true);
        match process_pipeline_status(
            &w,
            &Lookup::Found(pipeline_details()),
            &Lookup::Found(merge_request_details()),
        ) {
            PipelineAction::Finish(Some(m)) => assert!(m.message.ends_with(marker)),
            other => panic!("unexpected {:?}", other),
        }
    }
}

#[test]
fn quiet_statuses_are_not_reported() {
    for status in [
        StatusState::Created,
        StatusState::WaitingForResource,
        StatusState::Preparing,
        StatusState::Pending,
        StatusState::Canceled,
        StatusState::Skipped,
        StatusState::Manual,
        StatusState::Scheduled,
    ] {
        let w = pipeline_webhook(status, true);
        assert_eq!(process_pipeline_status(&w, &Lookup::Pending, &Lookup::Pending), PipelineAction::Finish(None));
        assert_eq!(
            process_pipeline_status(&w, &Lookup::Found(pipeline_details()), &Lookup::Found(merge_request_details())),
            PipelineAction::Finish(None)
        );
    }
}

#[test]
fn unlinked_pipeline_is_not_looked_up() {
    let w = pipeline_webhook(StatusState::Success, false);
    assert_eq!(process_pipeline_status(&w, &Lookup::Pending, &Lookup::Pending), PipelineAction::Finish(None));
}

#[test]
fn failed_pipeline_lookup_ends_quietly() {
    let w = pipeline_webhook(StatusState::Running, true);
    assert_eq!(process_pipeline_status(&w, &Lookup::Failed, &Lookup::Pending), PipelineAction::Finish(None));
}

#[test]
fn failed_merge_request_lookup_ends_quietly() {
    let w = pipeline_webhook(StatusState::Failed, true);
    assert_eq!(
        process_pipeline_status(&w, &Lookup::Found(pipeline_details()), &Lookup::Failed),
        PipelineAction::Finish(None)
    );
}

#[test]
fn whoami_link_is_appended() {
    let msg = WebexMessage::new("b@x".to_owned(), "hello".to_owned());
    let with_link = WebexClient::new("SECRET".to_owned(), Some("https://x/who".to_owned()));
    let out = with_link.outgoing_message(msg.clone());
    assert_eq!(out.to_person_email, "b@x");
    assert_eq!(out.markdown, "hello ([who am I?](https://x/who))");
    let without = WebexClient::new("SECRET".to_owned(), None);
    assert_eq!(without.outgoing_message(msg).markdown, "hello");
}

#[test]
fn largest_iid_is_written_in_full() {
    let mut w = mr_webhook(vec![], vec![]);
    w.merge_request.iid = u64::MAX;
    let m = process_new_assignee(&user(2, "b@x"), &w);
    assert!(m.message.starts_with("[!18446744073709551615 Fix bug]"));
}
