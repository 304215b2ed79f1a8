use crate::common::{
    copy_user, MergeRequest, Pipeline, StatusState, decode_merge_request_attributes, decode_pipeline_attributes, decode_project,
    decode_user, decode_users, merge_request_attributes_of, pipeline_attributes_of, project_of,
    user_list_of, user_of, MergeRequestAttributes, PipelineAttributes, Project, User,
};
use crate::json::{find, get_text, is_absent, lookup, parse_json, json_of_bytes, text, Json};
use crate::message::{decimal, decimal_text, Message};
use vstd::prelude::*;

verus! {

/// The payload is not a webhook of a supported kind, or not well-formed.
#[derive(Clone, Copy, Debug, PartialEq, Eq, Structural)]
pub struct UnsupportedWebhook;

/// The assignees of a merge request before and after a change.
#[derive(Clone, Debug, PartialEq)]
pub struct AssigneeChanges {
    pub current: Vec<User>,
    pub previous: Vec<User>,
}

/// The changes that a merge request webhook reports.
#[derive(Clone, Debug, PartialEq)]
pub struct Changes {
    pub assignees: Option<AssigneeChanges>,
}

/// A webhook on a merge request.
#[derive(Clone, Debug, PartialEq)]
pub struct MergeRequestWebhook {
    pub assignees: Option<Vec<User>>,
    pub changes: Option<Changes>,
    pub merge_request: MergeRequestAttributes,
    pub project: Project,
    pub user: User,
}

/// A webhook on a pipeline.
#[derive(Clone, Debug, PartialEq)]
pub struct PipelineWebhook {
    pub merge_request: Option<MergeRequestAttributes>,
    pub pipeline: PipelineAttributes,
    pub project: Project,
    pub user: User,
}

/// The webhooks that are understood.
#[derive(Clone, Debug, PartialEq)]
pub enum Webhook {
    MergeRequest(MergeRequestWebhook),
    Pipeline(PipelineWebhook),
}

/// The content of a merge request webhook, with its lists as sequences.
pub struct MergeRequestWebhookView {
    pub assignees: Option<Seq<User>>,
    pub changes: Option<Option<(Seq<User>, Seq<User>)>>,
    pub merge_request: MergeRequestAttributes,
    pub project: Project,
    pub user: User,
}

/// The content of a webhook.
pub enum WebhookView {
    MergeRequest(MergeRequestWebhookView),
    Pipeline(PipelineWebhook),
}

impl View for AssigneeChanges {
    type V = (Seq<User>, Seq<User>);

    open spec fn view(&self) -> (Seq<User>, Seq<User>) {
        (self.current@, self.previous@)
    }
}

impl View for Changes {
    type V = Option<(Seq<User>, Seq<User>)>;

    open spec fn view(&self) -> Option<(Seq<User>, Seq<User>)> {
        match self.assignees {
            Some(a) => Some(a@),
            None => None,
        }
    }
}

impl View for MergeRequestWebhook {
    type V = MergeRequestWebhookView;

    open spec fn view(&self) -> MergeRequestWebhookView {
        MergeRequestWebhookView {
            assignees: match self.assignees {
                Some(a) => Some(a@),
                None => None,
            },
            changes: match self.changes {
                Some(c) => Some(c@),
                None => None,
            },
            merge_request: self.merge_request,
            project: self.project,
            user: self.user,
        }
    }
}

impl View for Webhook {
    type V = WebhookView;

    open spec fn view(&self) -> WebhookView {
        match self {
            Webhook::MergeRequest(w) => WebhookView::MergeRequest(w@),
            Webhook::Pipeline(w) => WebhookView::Pipeline(*w),
        }
    }
}

/// An optional member: absent or `null` is `Some(None)`, a value that `f`
/// decodes is `Some(Some(..))`, anything else a failure.
pub open spec fn optional<T>(v: Option<Json>, f: spec_fn(Json) -> Option<T>) -> Option<Option<T>> {
    if is_absent(v) {
        Some(None)
    } else {
        match f(v->0) {
            Some(x) => Some(Some(x)),
            None => None,
        }
    }
}

/// A required member that `f` decodes.
pub open spec fn required<T>(v: Option<Json>, f: spec_fn(Json) -> Option<T>) -> Option<T> {
    match v {
        Some(x) => f(x),
        None => None,
    }
}

/// The assignee lists (current, previous) that a JSON value describes.
pub open spec fn assignee_changes_of(j: Json) -> Option<(Seq<User>, Seq<User>)> {
    match j {
        Json::Object(f) => match (
            required(lookup(f@, "current"@), |x: Json| user_list_of(x)),
            required(lookup(f@, "previous"@), |x: Json| user_list_of(x)),
        ) {
            (Some(current), Some(previous)) => Some((current, previous)),
            _ => None,
        },
        _ => None,
    }
}

/// The changes that a JSON value describes.
pub open spec fn changes_of(j: Json) -> Option<Option<(Seq<User>, Seq<User>)>> {
    match j {
        Json::Object(f) => optional(lookup(f@, "assignees"@), |x: Json| assignee_changes_of(x)),
        _ => None,
    }
}

/// The merge request webhook that a JSON object describes.
pub open spec fn merge_request_webhook_of(j: Json) -> Option<MergeRequestWebhookView> {
    match j {
        Json::Object(f) => match (
            optional(lookup(f@, "assignees"@), |x: Json| user_list_of(x)),
            optional(lookup(f@, "changes"@), |x: Json| changes_of(x)),
            required(lookup(f@, "object_attributes"@), |x: Json| merge_request_attributes_of(x)),
            required(lookup(f@, "project"@), |x: Json| project_of(x)),
            required(lookup(f@, "user"@), |x: Json| user_of(x)),
        ) {
            (Some(assignees), Some(changes), Some(merge_request), Some(project), Some(user)) => Some(
                MergeRequestWebhookView { assignees, changes, merge_request, project, user },
            ),
            _ => None,
        },
        _ => None,
    }
}

/// The pipeline webhook that a JSON object describes.
pub open spec fn pipeline_webhook_of(j: Json) -> Option<PipelineWebhook> {
    match j {
        Json::Object(f) => match (
            optional(lookup(f@, "merge_request"@), |x: Json| merge_request_attributes_of(x)),
            required(lookup(f@, "object_attributes"@), |x: Json| pipeline_attributes_of(x)),
            required(lookup(f@, "project"@), |x: Json| project_of(x)),
            required(lookup(f@, "user"@), |x: Json| user_of(x)),
        ) {
            (Some(merge_request), Some(pipeline), Some(project), Some(user)) => Some(
                PipelineWebhook { merge_request, pipeline, project, user },
            ),
            _ => None,
        },
        _ => None,
    }
}

/// The discriminator of a payload: its `object_kind` member, where that is a string.
pub open spec fn kind_of(j: Json) -> Option<Seq<char>> {
    match j {
        Json::Object(f) => match text(lookup(f@, "object_kind"@)) {
            Some(k) => Some(k@),
            None => None,
        },
        _ => None,
    }
}

/// The webhook that a JSON document describes, selected by its discriminator.
pub open spec fn webhook_of(j: Json) -> Option<WebhookView> {
    if kind_of(j) == Some("merge_request"@) {
        match merge_request_webhook_of(j) {
            Some(w) => Some(WebhookView::MergeRequest(w)),
            None => None,
        }
    } else if kind_of(j) == Some("pipeline"@) {
        match pipeline_webhook_of(j) {
            Some(w) => Some(WebhookView::Pipeline(w)),
            None => None,
        }
    } else {
        None
    }
}

/// The webhook that a payload describes.
pub open spec fn webhook_of_bytes(b: Seq<u8>) -> Option<WebhookView> {
    match json_of_bytes(b) {
        Some(j) => webhook_of(j),
        None => None,
    }
}

/// A payload whose discriminator is missing or names no supported kind is
/// rejected as a whole.
pub proof fn lemma_unknown_kind_unsupported(b: Seq<u8>)
    requires
        forall|j: Json|
            json_of_bytes(b) == Some(j) ==> kind_of(j) != Some("merge_request"@) && kind_of(j)
                != Some("pipeline"@),
    ensures
        webhook_of_bytes(b) is None,
{
}

/// Decodes the member named `key` as an optional user list.
fn decode_optional_users(f: &Vec<(String, Json)>, key: &str) -> (r: Option<Option<Vec<User>>>)
    ensures
        match r {
            Some(Some(v)) => optional(lookup(f@, key@), |x: Json| user_list_of(x)) == Some(
                Some(v@),
            ),
            Some(None) => optional(lookup(f@, key@), |x: Json| user_list_of(x)) == Some(
                None::<Seq<User>>,
            ),
            None => optional(lookup(f@, key@), |x: Json| user_list_of(x)) is None,
        },
{
    match find(f, key) {
        Some(i) => match &f[i].1 {
            Json::Null => Some(None),
            v => match decode_users(v) {
                Some(us) => Some(Some(us)),
                None => None,
            },
        },
        None => Some(None),
    }
}

/// Decodes the assignee lists of a change record.
pub fn decode_assignee_changes(j: &Json) -> (r: Option<AssigneeChanges>)
    ensures
        match r {
            Some(c) => assignee_changes_of(*j) == Some(c@),
            None => assignee_changes_of(*j) is None,
        },
{
    match j {
        Json::Object(f) => {
            let current = match find(f, "current") {
                Some(i) => decode_users(&f[i].1),
                None => None,
            };
            let previous = match find(f, "previous") {
                Some(i) => decode_users(&f[i].1),
                None => None,
            };
            match (current, previous) {
                (Some(current), Some(previous)) => Some(AssigneeChanges { current, previous }),
                _ => None,
            }
        },
        _ => None,
    }
}

/// Decodes the changes of a merge request webhook.
pub fn decode_changes(j: &Json) -> (r: Option<Changes>)
    ensures
        match r {
            Some(c) => changes_of(*j) == Some(c@),
            None => changes_of(*j) is None,
        },
{
    match j {
        Json::Object(f) => match find(f, "assignees") {
            Some(i) => match &f[i].1 {
                Json::Null => Some(Changes { assignees: None }),
                v => match decode_assignee_changes(v) {
                    Some(a) => Some(Changes { assignees: Some(a) }),
                    None => None,
                },
            },
            None => Some(Changes { assignees: None }),
        },
        _ => None,
    }
}

/// Decodes a required member with the rule for users.
fn decode_user_member(f: &Vec<(String, Json)>, key: &str) -> (r: Option<User>)
    ensures
        r == required(lookup(f@, key@), |x: Json| user_of(x)),
{
    match find(f, key) {
        Some(i) => decode_user(&f[i].1),
        None => None,
    }
}

/// Decodes a required member with the rule for projects.
fn decode_project_member(f: &Vec<(String, Json)>, key: &str) -> (r: Option<Project>)
    ensures
        r == required(lookup(f@, key@), |x: Json| project_of(x)),
{
    match find(f, key) {
        Some(i) => decode_project(&f[i].1),
        None => None,
    }
}

/// Decodes the body of a merge request webhook.
pub fn decode_merge_request_webhook(j: &Json) -> (r: Option<MergeRequestWebhook>)
    ensures
        match r {
            Some(w) => merge_request_webhook_of(*j) == Some(w@),
            None => merge_request_webhook_of(*j) is None,
        },
{
    match j {
        Json::Object(f) => {
            let assignees = decode_optional_users(f, "assignees");
            let changes = match find(f, "changes") {
                Some(i) => match &f[i].1 {
                    Json::Null => Some(None),
                    v => match decode_changes(v) {
                        Some(c) => Some(Some(c)),
                        None => None,
                    },
                },
                None => Some(None),
            };
            let merge_request = match find(f, "object_attributes") {
                Some(i) => decode_merge_request_attributes(&f[i].1),
                None => None,
            };
            let project = decode_project_member(f, "project");
            let user = decode_user_member(f, "user");
            match (assignees, changes, merge_request, project, user) {
                (Some(assignees), Some(changes), Some(merge_request), Some(project), Some(user)) => {
                    let w = MergeRequestWebhook { assignees, changes, merge_request, project, user };
                    proof {
                        assert(w@.assignees == optional(lookup(f@, "assignees"@), |x: Json| user_list_of(x))->0);
                        assert(w@.changes == optional(lookup(f@, "changes"@), |x: Json| changes_of(x))->0);
                    }
                    Some(w)
                },
                _ => None,
            }
        },
        _ => None,
    }
}

/// Decodes the body of a pipeline webhook.
pub fn decode_pipeline_webhook(j: &Json) -> (r: Option<PipelineWebhook>)
    ensures
        r == pipeline_webhook_of(*j),
{
    match j {
        Json::Object(f) => {
            let merge_request = match find(f, "merge_request") {
                Some(i) => match &f[i].1 {
                    Json::Null => Some(None),
                    v => match decode_merge_request_attributes(v) {
                        Some(m) => Some(Some(m)),
                        None => None,
                    },
                },
                None => Some(None),
            };
            let pipeline = match find(f, "object_attributes") {
                Some(i) => decode_pipeline_attributes(&f[i].1),
                None => None,
            };
            let project = decode_project_member(f, "project");
            let user = decode_user_member(f, "user");
            match (merge_request, pipeline, project, user) {
                (Some(merge_request), Some(pipeline), Some(project), Some(user)) => Some(
                    PipelineWebhook { merge_request, pipeline, project, user },
                ),
                _ => None,
            }
        },
        _ => None,
    }
}

/// Decodes a webhook payload. It is rejected unless it is a JSON object whose
/// `object_kind` names a supported kind and whose members have that kind's shape.
pub fn decode_webhook(payload: &[u8]) -> (r: Result<Webhook, UnsupportedWebhook>)
    ensures
        match r {
            Ok(w) => webhook_of_bytes(payload@) == Some(w@),
            Err(_) => webhook_of_bytes(payload@) is None,
        },
{
    let j = match parse_json(payload) {
        Some(j) => j,
        None => return Err(UnsupportedWebhook),
    };
    let kind = match &j {
        Json::Object(f) => get_text(f, "object_kind"),
        _ => None,
    };
    let kind = match kind {
        Some(k) => k,
        None => return Err(UnsupportedWebhook),
    };
    if kind == String::from_str("merge_request") {
        match decode_merge_request_webhook(&j) {
            Some(w) => Ok(Webhook::MergeRequest(w)),
            None => Err(UnsupportedWebhook),
        }
    } else if kind == String::from_str("pipeline") {
        match decode_pipeline_webhook(&j) {
            Some(w) => Ok(Webhook::Pipeline(w)),
            None => Err(UnsupportedWebhook),
        }
    } else {
        Err(UnsupportedWebhook)
    }
}

/// Whether some user of `us` has the id `id`.
pub open spec fn has_id(us: Seq<User>, id: u64) -> bool {
    exists|i: int| 0 <= i < us.len() && us[i].id == id
}

/// The users of `current` whose id is absent from `previous`, in `current`'s order.
pub open spec fn added_users(current: Seq<User>, previous: Seq<User>) -> Seq<User> {
    current.filter(|u: User| !has_id(previous, u.id))
}

/// When every id of `current` is among those of `previous` (in particular when
/// both hold the same ids), no user has been added.
pub proof fn lemma_same_ids_nothing_added(current: Seq<User>, previous: Seq<User>)
    requires
        forall|i: int| 0 <= i < current.len() ==> has_id(previous, #[trigger] current[i].id),
    ensures
        added_users(current, previous) == Seq::<User>::empty(),
    decreases current.len(),
{
    reveal(Seq::filter);
    if current.len() > 0 {
        let rest = current.drop_last();
        assert forall|i: int| 0 <= i < rest.len() implies has_id(previous, #[trigger] rest[i].id) by {
            assert(rest[i] == current[i]);
        }
        lemma_same_ids_nothing_added(rest, previous);
        assert(has_id(previous, current[current.len() - 1].id));
    }
}

/// Whether some user of `us` has the id `id`.
fn contains_id(us: &Vec<User>, id: u64) -> (r: bool)
    ensures
        r == has_id(us@, id),
{
    let mut i: usize = 0;
    while i < us.len()
        invariant
            i <= us@.len(),
            forall|k: int| 0 <= k < i ==> us@[k].id != id,
        decreases us@.len() - i,
    {
        if us[i].id == id {
            return true;
        }
        i = i + 1;
    }
    false
}

/// The users who have been added as assignees: those of `current` whose id is
/// absent from `previous`, in `current`'s order.
pub fn get_new_assignees(assignee_changes: &AssigneeChanges) -> (r: Vec<User>)
    ensures
        r@ == added_users(assignee_changes.current@, assignee_changes.previous@),
{
    let current = &assignee_changes.current;
    let previous = &assignee_changes.previous;
    let mut out: Vec<User> = Vec::new();
    let mut i: usize = 0;
    while i < current.len()
        invariant
            i <= current@.len(),
            out@ == added_users(current@.take(i as int), previous@),
        decreases current@.len() - i,
    {
        proof {
            reveal(Seq::filter);
            assert(current@.take(i + 1).drop_last() =~= current@.take(i as int));
            assert(current@.take(i + 1).last() == current@[i as int]);
        }
        if !contains_id(previous, current[i].id) {
            out.push(copy_user(&current[i]));
        }
        i = i + 1;
    }
    assert(current@.take(current@.len() as int) =~= current@);
    out
}

impl MergeRequestWebhook {
    /// The assignee lists of the change record, where the webhook has one.
    pub fn get_assignee_changes(&self) -> (r: Option<&AssigneeChanges>)
        ensures
            r is Some <==> (self.changes is Some && self.changes->0.assignees is Some),
            r is Some ==> *r->0 == self.changes->0.assignees->0,
    {
        match &self.changes {
            Some(changes) => match &changes.assignees {
                Some(assignee_changes) => Some(assignee_changes),
                None => None,
            },
            None => None,
        }
    }
}

/// The users whom a merge request webhook adds as assignees.
pub open spec fn new_assignees_of(w: MergeRequestWebhook) -> Seq<User> {
    match w.changes {
        Some(c) => match c.assignees {
            Some(a) => added_users(a.current@, a.previous@),
            None => Seq::empty(),
        },
        None => Seq::empty(),
    }
}

/// The text that tells a user of being added as an assignee of `mr`.
pub open spec fn assignee_text(mr: MergeRequestAttributes, project: Project, by: User) -> Seq<char> {
    "[!"@ + decimal(mr.iid as nat) + " "@ + mr.title@ + "]("@ + mr.url@ + ") (["@ + project.name@
        + "]("@ + project.web_url@ + ")) by @"@ + by.username@ + " \u{1F929} Added as assignee"@
}

/// The notification to a user who has been added as an assignee.
pub fn process_new_assignee(new_assignee: &User, webhook: &MergeRequestWebhook) -> (r: Message)
    ensures
        r.recipient_email == new_assignee.email,
        r.message@ == assignee_text(webhook.merge_request, webhook.project, webhook.user),
{
    let merge_request = &webhook.merge_request;
    let project = &webhook.project;
    let mut text = String::from_str("[!");
    let iid = decimal_text(merge_request.iid);
    text.append(iid.as_str());
    text.append(" ");
    text.append(merge_request.title.as_str());
    text.append("](");
    text.append(merge_request.url.as_str());
    text.append(") ([");
    text.append(project.name.as_str());
    text.append("](");
    text.append(project.web_url.as_str());
    text.append(")) by @");
    text.append(webhook.user.username.as_str());
    text.append(" \u{1F929} Added as assignee");
    Message { recipient_email: new_assignee.email.clone(), message: text }
}

/// One notification for each user whom the webhook adds as an assignee, in order.
pub fn process_merge_request(webhook: &MergeRequestWebhook) -> (r: Vec<Message>)
    ensures
        r@.len() == new_assignees_of(*webhook).len(),
        forall|i: int|
            0 <= i < r@.len() ==> (#[trigger] r@[i]).recipient_email == new_assignees_of(
                *webhook,
            )[i].email && r@[i].message@ == assignee_text(
                webhook.merge_request,
                webhook.project,
                webhook.user,
            ),
{
    let mut messages: Vec<Message> = Vec::new();
    if let Some(assignee_changes) = webhook.get_assignee_changes() {
        let added = get_new_assignees(assignee_changes);
        let mut i: usize = 0;
        while i < added.len()
            invariant
                i <= added@.len(),
                added@ == new_assignees_of(*webhook),
                messages@.len() == i,
                forall|k: int|
                    0 <= k < i ==> (#[trigger] messages@[k]).recipient_email == added@[k].email
                        && messages@[k].message@ == assignee_text(
                        webhook.merge_request,
                        webhook.project,
                        webhook.user,
                    ),
            decreases added@.len() - i,
        {
            let msg = process_new_assignee(&added[i], webhook);
            messages.push(msg);
            i = i + 1;
        }
    }
    messages
}

/// The outcome of a lookup against the source-control API.
pub enum Lookup<T> {
    /// Not made yet.
    Pending,
    /// Made, and it failed.
    Failed,
    /// Made, with this result.
    Found(T),
}

/// What to do next for a pipeline webhook.
#[derive(Debug, PartialEq)]
pub enum PipelineAction {
    /// Look up the pipeline's details.
    FetchPipeline { project_id: u64, pipeline_id: u64 },
    /// Look up the linked merge request's details.
    FetchMergeRequest { project_id: u64, merge_request_iid: u64 },
    /// Done: send this notification, if any.
    Finish(Option<Message>),
}

/// The marker of a pipeline state that is reported; the other states have none.
pub open spec fn status_marker(status: StatusState) -> Option<Seq<char>> {
    match status {
        StatusState::Success => Some("\u{1F31E} Success"@),
        StatusState::Failed => Some("\u{26C8}\u{FE0F} Failed"@),
        StatusState::Running => Some("\u{23F3} Running"@),
        _ => None,
    }
}

/// The states other than success, failure and running have no marker.
pub proof fn lemma_quiet_statuses(status: StatusState)
    requires
        status != StatusState::Success,
        status != StatusState::Failed,
        status != StatusState::Running,
    ensures
        status_marker(status) is None,
{
}

/// Whether a pipeline webhook can lead to a notification: its state is
/// reported and it is linked to a merge request.
pub open spec fn reportable(w: PipelineWebhook) -> bool {
    status_marker(w.pipeline.status) is Some && w.merge_request is Some
}

/// The text that reports the state of a pipeline of a merge request.
pub open spec fn pipeline_text(
    mr: MergeRequest,
    project: Project,
    pipeline_id: u64,
    pipeline_url: String,
    marker: Seq<char>,
) -> Seq<char> {
    "[!"@ + decimal(mr.iid as nat) + " "@ + mr.title@ + "]("@ + mr.web_url@ + ") (["@
        + project.name@ + "]("@ + project.web_url@ + ")) [#"@ + decimal(pipeline_id as nat)
        + "]("@ + pipeline_url@ + ") "@ + marker
}

/// The marker of a pipeline state, where it has one.
pub fn marker_text(status: StatusState) -> (r: Option<&'static str>)
    ensures
        match r {
            Some(t) => status_marker(status) == Some(t@),
            None => status_marker(status) is None,
        },
{
    match status {
        StatusState::Success => Some("\u{1F31E} Success"),
        StatusState::Failed => Some("\u{26C8}\u{FE0F} Failed"),
        StatusState::Running => Some("\u{23F3} Running"),
        _ => None,
    }
}

/// The notification on a pipeline, from the looked-up merge request and pipeline URL.
fn pipeline_message(
    webhook: &PipelineWebhook,
    merge_request: &MergeRequest,
    pipeline_url: &String,
    marker: &str,
) -> (r: Message)
    ensures
        r.recipient_email == webhook.user.email,
        r.message@ == pipeline_text(
            *merge_request,
            webhook.project,
            webhook.pipeline.id,
            *pipeline_url,
            marker@,
        ),
{
    let project = &webhook.project;
    let mut text = String::from_str("[!");
    let iid = decimal_text(merge_request.iid);
    text.append(iid.as_str());
    text.append(" ");
    text.append(merge_request.title.as_str());
    text.append("](");
    text.append(merge_request.web_url.as_str());
    text.append(") ([");
    text.append(project.name.as_str());
    text.append("](");
    text.append(project.web_url.as_str());
    text.append(")) [#");
    let id = decimal_text(webhook.pipeline.id);
    text.append(id.as_str());
    text.append("](");
    text.append(pipeline_url.as_str());
    text.append(") ");
    text.append(marker);
    Message { recipient_email: webhook.user.email.clone(), message: text }
}

/// The next step for a pipeline webhook, given the lookups made so far.
///
/// Only a reported state of a pipeline linked to a merge request leads to
/// lookups: first the pipeline, then, once that succeeded, the merge request.
/// A failed lookup ends the work without a notification; two successful ones
/// end it with one notification to the user who triggered the pipeline.
pub fn process_pipeline_status(
    webhook: &PipelineWebhook,
    pipeline: &Lookup<Pipeline>,
    merge_request: &Lookup<MergeRequest>,
) -> (r: PipelineAction)
    ensures
        status_marker(webhook.pipeline.status) is None ==> r == PipelineAction::Finish(None),
        webhook.merge_request is None ==> r == PipelineAction::Finish(None),
        reportable(*webhook) && *pipeline is Pending ==> r == (PipelineAction::FetchPipeline {
            project_id: webhook.project.id,
            pipeline_id: webhook.pipeline.id,
        }),
        reportable(*webhook) && *pipeline is Failed ==> r == PipelineAction::Finish(None),
        reportable(*webhook) && *pipeline is Found && *merge_request is Pending ==> r == (
        PipelineAction::FetchMergeRequest {
            project_id: webhook.project.id,
            merge_request_iid: webhook.merge_request->0.iid,
        }),
        reportable(*webhook) && *pipeline is Found && *merge_request is Failed ==> r
            == PipelineAction::Finish(None),
        reportable(*webhook) && *pipeline is Found && *merge_request is Found ==> (r matches PipelineAction::Finish(Some(m))
            && m.recipient_email == webhook.user.email && m.message@ == pipeline_text(
            merge_request->Found_0,
            webhook.project,
            webhook.pipeline.id,
            pipeline->Found_0.web_url,
            status_marker(webhook.pipeline.status)->0,
        )),
{
    let marker = match marker_text(webhook.pipeline.status) {
        Some(m) => m,
        None => return PipelineAction::Finish(None),
    };
    // Pipelines that no merge request is linked to are not reported.
    let merge_request_iid = match &webhook.merge_request {
        Some(m) => m.iid,
        None => return PipelineAction::Finish(None),
    };
    let details = match pipeline {
        Lookup::Pending => {
            return PipelineAction::FetchPipeline {
                project_id: webhook.project.id,
                pipeline_id: webhook.pipeline.id,
            };
        },
        Lookup::Failed => return PipelineAction::Finish(None),
        Lookup::Found(p) => p,
    };
    match merge_request {
        Lookup::Pending => PipelineAction::FetchMergeRequest {
            project_id: webhook.project.id,
            merge_request_iid,
        },
        Lookup::Failed => PipelineAction::Finish(None),
        Lookup::Found(m) => PipelineAction::Finish(
            Some(pipeline_message(webhook, m, &details.web_url, marker)),
        ),
    }
}

} // verus!
