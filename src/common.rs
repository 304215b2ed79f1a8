use crate::json::{
    boolean, find, get_number, get_optional_text, get_text, is_absent, lookup, number,
    optional_text, text, Json,
};
use crate::json::get_bool;
use vstd::prelude::*;

verus! {

/// A user of the source-control platform. Two records are the same user when
/// their ids agree.
#[derive(Clone, Debug)]
pub struct User {
    pub email: String,
    pub id: u64,
    pub name: String,
    pub username: String,
}

impl PartialEq for User {
    fn eq(&self, other: &User) -> (r: bool) {
        self.id == other.id
    }
}

impl vstd::std_specs::cmp::PartialEqSpecImpl for User {
    open spec fn obeys_eq_spec() -> bool {
        true
    }

    open spec fn eq_spec(&self, other: &User) -> bool {
        self.id == other.id
    }
}

/// The short form of a user that the API embeds in other records.
#[derive(Clone, Debug, PartialEq)]
pub struct UserBasic {
    pub id: u64,
    pub username: String,
    pub web_url: String,
}

/// Whether a merge request can be merged, as the platform reports it.
#[derive(Clone, Copy, Debug, PartialEq, Eq, Structural)]
pub enum MergeStatus {
    Unchecked,
    Checking,
    CanBeMerged,
    CannotBeMerged,
    CannotBeMergedRecheck,
    CannotBeMergedRechecking,
}

/// The state of a pipeline.
#[derive(Clone, Copy, Debug, PartialEq, Eq, Structural)]
pub enum StatusState {
    Created,
    WaitingForResource,
    Preparing,
    Pending,
    Running,
    Success,
    Failed,
    Canceled,
    Skipped,
    Manual,
    Scheduled,
}

/// The merge request that a webhook is about, as the webhook describes it.
#[derive(Clone, Debug, PartialEq)]
pub struct MergeRequestAttributes {
    pub action: Option<String>,
    pub iid: u64,
    pub merge_status: MergeStatus,
    pub title: String,
    pub url: String,
}

/// The pipeline that a webhook is about, as the webhook describes it.
#[derive(Clone, Debug, PartialEq)]
pub struct PipelineAttributes {
    pub finished_at: Option<String>,
    pub id: u64,
    pub ref_: String,
    pub status: StatusState,
}

/// A project of the platform.
#[derive(Clone, Debug, PartialEq)]
pub struct Project {
    pub id: u64,
    pub name: String,
    pub path_with_namespace: String,
    pub web_url: String,
}

/// A pipeline as the API describes it.
#[derive(Clone, Debug, PartialEq)]
pub struct Pipeline {
    pub ref_: String,
    pub status: StatusState,
    pub web_url: String,
}

/// Whether a string equals a literal.
fn same_text(s: &String, lit: &str) -> (r: bool)
    ensures
        r == (s@ == lit@),
{
    *s == String::from_str(lit)
}

/// The merge status that the platform writes as `s`.
pub open spec fn merge_status_named(s: Seq<char>) -> Option<MergeStatus> {
    if s == "unchecked"@ {
        Some(MergeStatus::Unchecked)
    } else if s == "checking"@ {
        Some(MergeStatus::Checking)
    } else if s == "can_be_merged"@ {
        Some(MergeStatus::CanBeMerged)
    } else if s == "cannot_be_merged"@ {
        Some(MergeStatus::CannotBeMerged)
    } else if s == "cannot_be_merged_recheck"@ {
        Some(MergeStatus::CannotBeMergedRecheck)
    } else if s == "cannot_be_merged_rechecking"@ {
        Some(MergeStatus::CannotBeMergedRechecking)
    } else {
        None
    }
}

/// The pipeline state that the platform writes as `s`.
pub open spec fn status_named(s: Seq<char>) -> Option<StatusState> {
    if s == "created"@ {
        Some(StatusState::Created)
    } else if s == "waiting_for_resource"@ {
        Some(StatusState::WaitingForResource)
    } else if s == "preparing"@ {
        Some(StatusState::Preparing)
    } else if s == "pending"@ {
        Some(StatusState::Pending)
    } else if s == "running"@ {
        Some(StatusState::Running)
    } else if s == "success"@ {
        Some(StatusState::Success)
    } else if s == "failed"@ {
        Some(StatusState::Failed)
    } else if s == "canceled"@ {
        Some(StatusState::Canceled)
    } else if s == "skipped"@ {
        Some(StatusState::Skipped)
    } else if s == "manual"@ {
        Some(StatusState::Manual)
    } else if s == "scheduled"@ {
        Some(StatusState::Scheduled)
    } else {
        None
    }
}

/// Reads a merge status by its name.
pub fn merge_status_from_name(s: &String) -> (r: Option<MergeStatus>)
    ensures
        r == merge_status_named(s@),
{
    if same_text(s, "unchecked") {
        Some(MergeStatus::Unchecked)
    } else if same_text(s, "checking") {
        Some(MergeStatus::Checking)
    } else if same_text(s, "can_be_merged") {
        Some(MergeStatus::CanBeMerged)
    } else if same_text(s, "cannot_be_merged") {
        Some(MergeStatus::CannotBeMerged)
    } else if same_text(s, "cannot_be_merged_recheck") {
        Some(MergeStatus::CannotBeMergedRecheck)
    } else if same_text(s, "cannot_be_merged_rechecking") {
        Some(MergeStatus::CannotBeMergedRechecking)
    } else {
        None
    }
}

/// Reads a pipeline state by its name.
pub fn status_from_name(s: &String) -> (r: Option<StatusState>)
    ensures
        r == status_named(s@),
{
    if same_text(s, "created") {
        Some(StatusState::Created)
    } else if same_text(s, "waiting_for_resource") {
        Some(StatusState::WaitingForResource)
    } else if same_text(s, "preparing") {
        Some(StatusState::Preparing)
    } else if same_text(s, "pending") {
        Some(StatusState::Pending)
    } else if same_text(s, "running") {
        Some(StatusState::Running)
    } else if same_text(s, "success") {
        Some(StatusState::Success)
    } else if same_text(s, "failed") {
        Some(StatusState::Failed)
    } else if same_text(s, "canceled") {
        Some(StatusState::Canceled)
    } else if same_text(s, "skipped") {
        Some(StatusState::Skipped)
    } else if same_text(s, "manual") {
        Some(StatusState::Manual)
    } else if same_text(s, "scheduled") {
        Some(StatusState::Scheduled)
    } else {
        None
    }
}

/// A copy of a user record.
pub fn copy_user(u: &User) -> (r: User)
    ensures
        r == *u,
{
    User { email: u.email.clone(), id: u.id, name: u.name.clone(), username: u.username.clone() }
}

/// The user that a JSON value describes.
pub open spec fn user_of(j: Json) -> Option<User> {
    match j {
        Json::Object(f) => match (
            text(lookup(f@, "email"@)),
            number(lookup(f@, "id"@)),
            text(lookup(f@, "name"@)),
            text(lookup(f@, "username"@)),
        ) {
            (Some(email), Some(id), Some(name), Some(username)) => Some(
                User { email, id, name, username },
            ),
            _ => None,
        },
        _ => None,
    }
}

/// The users that a sequence of JSON values describes, if each describes one.
pub open spec fn users_of(items: Seq<Json>) -> Option<Seq<User>> {
    if forall|i: int| 0 <= i < items.len() ==> (#[trigger] user_of(items[i])) is Some {
        Some(items.map_values(|x: Json| user_of(x)->Some_0))
    } else {
        None
    }
}

/// The users that a JSON array describes.
pub open spec fn user_list_of(j: Json) -> Option<Seq<User>> {
    match j {
        Json::Array(a) => users_of(a@),
        _ => None,
    }
}

/// The project that a JSON value describes.
pub open spec fn project_of(j: Json) -> Option<Project> {
    match j {
        Json::Object(f) => match (
            number(lookup(f@, "id"@)),
            text(lookup(f@, "name"@)),
            text(lookup(f@, "path_with_namespace"@)),
            text(lookup(f@, "web_url"@)),
        ) {
            (Some(id), Some(name), Some(path_with_namespace), Some(web_url)) => Some(
                Project { id, name, path_with_namespace, web_url },
            ),
            _ => None,
        },
        _ => None,
    }
}

/// A merge status written as a string member.
pub open spec fn merge_status_of(v: Option<Json>) -> Option<MergeStatus> {
    match text(v) {
        Some(s) => merge_status_named(s@),
        None => None,
    }
}

/// A pipeline state written as a string member.
pub open spec fn status_of(v: Option<Json>) -> Option<StatusState> {
    match text(v) {
        Some(s) => status_named(s@),
        None => None,
    }
}

/// The merge request attributes that a JSON value describes.
pub open spec fn merge_request_attributes_of(j: Json) -> Option<MergeRequestAttributes> {
    match j {
        Json::Object(f) => match (
            optional_text(lookup(f@, "action"@)),
            number(lookup(f@, "iid"@)),
            merge_status_of(lookup(f@, "merge_status"@)),
            text(lookup(f@, "title"@)),
            text(lookup(f@, "url"@)),
        ) {
            (Some(action), Some(iid), Some(merge_status), Some(title), Some(url)) => Some(
                MergeRequestAttributes { action, iid, merge_status, title, url },
            ),
            _ => None,
        },
        _ => None,
    }
}

/// The pipeline attributes that a JSON value describes.
pub open spec fn pipeline_attributes_of(j: Json) -> Option<PipelineAttributes> {
    match j {
        Json::Object(f) => match (
            optional_text(lookup(f@, "finished_at"@)),
            number(lookup(f@, "id"@)),
            text(lookup(f@, "ref"@)),
            status_of(lookup(f@, "status"@)),
        ) {
            (Some(finished_at), Some(id), Some(ref_), Some(status)) => Some(
                PipelineAttributes { finished_at, id, ref_, status },
            ),
            _ => None,
        },
        _ => None,
    }
}

/// The pipeline that a JSON value describes.
pub open spec fn pipeline_of(j: Json) -> Option<Pipeline> {
    match j {
        Json::Object(f) => match (
            text(lookup(f@, "ref"@)),
            status_of(lookup(f@, "status"@)),
            text(lookup(f@, "web_url"@)),
        ) {
            (Some(ref_), Some(status), Some(web_url)) => Some(Pipeline { ref_, status, web_url }),
            _ => None,
        },
        _ => None,
    }
}

/// The merge status member named `key`.
fn get_merge_status(fields: &Vec<(String, Json)>, key: &str) -> (r: Option<MergeStatus>)
    ensures
        r == merge_status_of(lookup(fields@, key@)),
{
    match get_text(fields, key) {
        Some(s) => merge_status_from_name(&s),
        None => None,
    }
}

/// The pipeline state member named `key`.
fn get_status(fields: &Vec<(String, Json)>, key: &str) -> (r: Option<StatusState>)
    ensures
        r == status_of(lookup(fields@, key@)),
{
    match get_text(fields, key) {
        Some(s) => status_from_name(&s),
        None => None,
    }
}

/// Decodes a user.
pub fn decode_user(j: &Json) -> (r: Option<User>)
    ensures
        r == user_of(*j),
{
    match j {
        Json::Object(f) => {
            let email = get_text(f, "email");
            let id = get_number(f, "id");
            let name = get_text(f, "name");
            let username = get_text(f, "username");
            match (email, id, name, username) {
                (Some(email), Some(id), Some(name), Some(username)) => Some(
                    User { email, id, name, username },
                ),
                _ => None,
            }
        },
        _ => None,
    }
}

/// Decodes an array of users; fails if any element is not a user.
pub fn decode_users(j: &Json) -> (r: Option<Vec<User>>)
    ensures
        match r {
            Some(v) => user_list_of(*j) == Some(v@),
            None => user_list_of(*j) is None,
        },
{
    match j {
        Json::Array(a) => {
            let mut out: Vec<User> = Vec::new();
            let mut i: usize = 0;
            while i < a.len()
                invariant
                    i <= a@.len(),
                    user_list_of(*j) == users_of(a@),
                    forall|k: int| 0 <= k < i ==> (#[trigger] user_of(a@[k])) is Some,
                    out@ =~= a@.take(i as int).map_values(|x: Json| user_of(x)->Some_0),
                decreases a@.len() - i,
            {
                match decode_user(&a[i]) {
                    Some(u) => out.push(u),
                    None => {
                        assert(user_of(a@[i as int]) is None);
                        return None;
                    },
                }
                i = i + 1;
            }
            assert(a@.take(a@.len() as int) =~= a@);
            Some(out)
        },
        _ => None,
    }
}

/// Decodes a project.
pub fn decode_project(j: &Json) -> (r: Option<Project>)
    ensures
        r == project_of(*j),
{
    match j {
        Json::Object(f) => {
            let id = get_number(f, "id");
            let name = get_text(f, "name");
            let path = get_text(f, "path_with_namespace");
            let web_url = get_text(f, "web_url");
            match (id, name, path, web_url) {
                (Some(id), Some(name), Some(path_with_namespace), Some(web_url)) => Some(
                    Project { id, name, path_with_namespace, web_url },
                ),
                _ => None,
            }
        },
        _ => None,
    }
}

/// Decodes the attributes of a merge request.
pub fn decode_merge_request_attributes(j: &Json) -> (r: Option<MergeRequestAttributes>)
    ensures
        r == merge_request_attributes_of(*j),
{
    match j {
        Json::Object(f) => {
            let action = get_optional_text(f, "action");
            let iid = get_number(f, "iid");
            let merge_status = get_merge_status(f, "merge_status");
            let title = get_text(f, "title");
            let url = get_text(f, "url");
            match (action, iid, merge_status, title, url) {
                (Some(action), Some(iid), Some(merge_status), Some(title), Some(url)) => Some(
                    MergeRequestAttributes { action, iid, merge_status, title, url },
                ),
                _ => None,
            }
        },
        _ => None,
    }
}

/// Decodes the attributes of a pipeline.
pub fn decode_pipeline_attributes(j: &Json) -> (r: Option<PipelineAttributes>)
    ensures
        r == pipeline_attributes_of(*j),
{
    match j {
        Json::Object(f) => {
            let finished_at = get_optional_text(f, "finished_at");
            let id = get_number(f, "id");
            let ref_ = get_text(f, "ref");
            let status = get_status(f, "status");
            match (finished_at, id, ref_, status) {
                (Some(finished_at), Some(id), Some(ref_), Some(status)) => Some(
                    PipelineAttributes { finished_at, id, ref_, status },
                ),
                _ => None,
            }
        },
        _ => None,
    }
}

/// Decodes a pipeline as the API describes it.
pub fn decode_pipeline_value(j: &Json) -> (r: Option<Pipeline>)
    ensures
        r == pipeline_of(*j),
{
    match j {
        Json::Object(f) => {
            let ref_ = get_text(f, "ref");
            let status = get_status(f, "status");
            let web_url = get_text(f, "web_url");
            match (ref_, status, web_url) {
                (Some(ref_), Some(status), Some(web_url)) => Some(
                    Pipeline { ref_, status, web_url },
                ),
                _ => None,
            }
        },
        _ => None,
    }
}

/// An instant in UTC: seconds since the Unix epoch and the nanoseconds past that second.
#[derive(Clone, Copy, Debug, PartialEq, Eq, Structural)]
pub struct Timestamp {
    pub seconds: i64,
    pub nanos: u32,
}

/// A merge request as the API describes it.
#[derive(Clone, Debug, PartialEq)]
pub struct MergeRequest {
    pub title: String,
    pub created_at: Timestamp,
    pub updated_at: Timestamp,
    pub author: UserBasic,
    pub assignees: Option<Vec<UserBasic>>,
    pub id: u64,
    pub iid: u64,
    pub merge_status: String,
    pub work_in_progress: bool,
    pub web_url: String,
    pub pipeline: Option<Pipeline>,
}

/// The content of a merge request, with its lists as sequences.
pub struct MergeRequestView {
    pub title: String,
    pub created_at: Timestamp,
    pub updated_at: Timestamp,
    pub author: UserBasic,
    pub assignees: Option<Seq<UserBasic>>,
    pub id: u64,
    pub iid: u64,
    pub merge_status: String,
    pub work_in_progress: bool,
    pub web_url: String,
    pub pipeline: Option<Pipeline>,
}

impl View for MergeRequest {
    type V = MergeRequestView;

    open spec fn view(&self) -> MergeRequestView {
        MergeRequestView {
            title: self.title,
            created_at: self.created_at,
            updated_at: self.updated_at,
            author: self.author,
            assignees: match self.assignees {
                Some(a) => Some(a@),
                None => None,
            },
            id: self.id,
            iid: self.iid,
            merge_status: self.merge_status,
            work_in_progress: self.work_in_progress,
            web_url: self.web_url,
            pipeline: self.pipeline,
        }
    }
}

/// The instant that a date-time text in the relaxed RFC 3339 form names.
pub uninterp spec fn instant_of_text(s: Seq<char>) -> Option<Timestamp>;

/// Relies on chrono's `FromStr` for `DateTime<Utc>` (RFC 3339, with a space or a
/// `T` between date and time), then `timestamp` and `timestamp_subsec_nanos`:
/// the result depends on the text alone.
#[verifier::external_body]
fn parse_instant(s: &str) -> (r: Option<Timestamp>)
    ensures
        r == instant_of_text(s@),
{
    s.parse::<chrono::DateTime<chrono::Utc>>().ok().map(
        |d| Timestamp { seconds: d.timestamp(), nanos: d.timestamp_subsec_nanos() },
    )
}

/// A date-time written as a string member.
pub open spec fn instant_of(v: Option<Json>) -> Option<Timestamp> {
    match text(v) {
        Some(s) => instant_of_text(s@),
        None => None,
    }
}

/// The short user record that a JSON value describes.
pub open spec fn user_basic_of(j: Json) -> Option<UserBasic> {
    match j {
        Json::Object(f) => match (
            number(lookup(f@, "id"@)),
            text(lookup(f@, "username"@)),
            text(lookup(f@, "web_url"@)),
        ) {
            (Some(id), Some(username), Some(web_url)) => Some(UserBasic { id, username, web_url }),
            _ => None,
        },
        _ => None,
    }
}

/// The short user records that a JSON array describes, if each element is one.
pub open spec fn user_basic_list_of(j: Json) -> Option<Seq<UserBasic>> {
    match j {
        Json::Array(a) => if forall|i: int|
            0 <= i < a@.len() ==> (#[trigger] user_basic_of(a@[i])) is Some {
            Some(a@.map_values(|x: Json| user_basic_of(x)->Some_0))
        } else {
            None
        },
        _ => None,
    }
}

/// An optional list of short user records: absent or `null` is `Some(None)`.
pub open spec fn optional_user_basics(v: Option<Json>) -> Option<Option<Seq<UserBasic>>> {
    if is_absent(v) {
        Some(None)
    } else {
        match user_basic_list_of(v->0) {
            Some(us) => Some(Some(us)),
            None => None,
        }
    }
}

/// An optional pipeline: absent or `null` is `Some(None)`.
pub open spec fn optional_pipeline(v: Option<Json>) -> Option<Option<Pipeline>> {
    if is_absent(v) {
        Some(None)
    } else {
        match pipeline_of(v->0) {
            Some(p) => Some(Some(p)),
            None => None,
        }
    }
}

/// The merge request that a JSON value describes.
pub open spec fn merge_request_of(j: Json) -> Option<MergeRequestView> {
    match j {
        Json::Object(f) => {
            let fs = f@;
            match (
                text(lookup(fs, "title"@)),
                instant_of(lookup(fs, "created_at"@)),
                instant_of(lookup(fs, "updated_at"@)),
                match lookup(fs, "author"@) {
                    Some(a) => user_basic_of(a),
                    None => None,
                },
                optional_user_basics(lookup(fs, "assignees"@)),
            ) {
                (
                    Some(title),
                    Some(created_at),
                    Some(updated_at),
                    Some(author),
                    Some(assignees),
                ) => match (
                    number(lookup(fs, "id"@)),
                    number(lookup(fs, "iid"@)),
                    text(lookup(fs, "merge_status"@)),
                    boolean(lookup(fs, "work_in_progress"@)),
                    text(lookup(fs, "web_url"@)),
                    optional_pipeline(lookup(fs, "pipeline"@)),
                ) {
                    (
                        Some(id),
                        Some(iid),
                        Some(merge_status),
                        Some(work_in_progress),
                        Some(web_url),
                        Some(pipeline),
                    ) => Some(
                        MergeRequestView {
                            title,
                            created_at,
                            updated_at,
                            author,
                            assignees,
                            id,
                            iid,
                            merge_status,
                            work_in_progress,
                            web_url,
                            pipeline,
                        },
                    ),
                    _ => None,
                },
                _ => None,
            }
        },
        _ => None,
    }
}

/// Decodes a short user record.
pub fn decode_user_basic(j: &Json) -> (r: Option<UserBasic>)
    ensures
        r == user_basic_of(*j),
{
    match j {
        Json::Object(f) => {
            let id = get_number(f, "id");
            let username = get_text(f, "username");
            let web_url = get_text(f, "web_url");
            match (id, username, web_url) {
                (Some(id), Some(username), Some(web_url)) => Some(
                    UserBasic { id, username, web_url },
                ),
                _ => None,
            }
        },
        _ => None,
    }
}

/// Decodes the optional list of short user records named `key`.
fn get_optional_user_basics(f: &Vec<(String, Json)>, key: &str) -> (r: Option<Option<Vec<UserBasic>>>)
    ensures
        match r {
            Some(Some(v)) => optional_user_basics(lookup(f@, key@)) == Some(Some(v@)),
            Some(None) => optional_user_basics(lookup(f@, key@)) == Some(None::<Seq<UserBasic>>),
            None => optional_user_basics(lookup(f@, key@)) is None,
        },
{
    let i = match find(f, key) {
        Some(i) => i,
        None => return Some(None),
    };
    let a = match &f[i].1 {
        Json::Null => return Some(None),
        Json::Array(a) => a,
        _ => return None,
    };
    let mut out: Vec<UserBasic> = Vec::new();
    let mut k: usize = 0;
    while k < a.len()
        invariant
            k <= a@.len(),
            lookup(f@, key@) == Some(Json::Array(*a)),
            forall|n: int| 0 <= n < k ==> (#[trigger] user_basic_of(a@[n])) is Some,
            out@ =~= a@.take(k as int).map_values(|x: Json| user_basic_of(x)->Some_0),
        decreases a@.len() - k,
    {
        match decode_user_basic(&a[k]) {
            Some(u) => out.push(u),
            None => {
                assert(user_basic_of(a@[k as int]) is None);
                return None;
            },
        }
        k = k + 1;
    }
    assert(a@.take(a@.len() as int) =~= a@);
    Some(Some(out))
}

/// Decodes a date-time member.
fn get_instant(f: &Vec<(String, Json)>, key: &str) -> (r: Option<Timestamp>)
    ensures
        r == instant_of(lookup(f@, key@)),
{
    match get_text(f, key) {
        Some(s) => parse_instant(s.as_str()),
        None => None,
    }
}

/// Decodes a merge request as the API describes it.
pub fn decode_merge_request_value(j: &Json) -> (r: Option<MergeRequest>)
    ensures
        match r {
            Some(m) => merge_request_of(*j) == Some(m@),
            None => merge_request_of(*j) is None,
        },
{
    let f = match j {
        Json::Object(f) => f,
        _ => return None,
    };
    let title = get_text(f, "title");
    let created_at = get_instant(f, "created_at");
    let updated_at = get_instant(f, "updated_at");
    let author = match find(f, "author") {
        Some(i) => decode_user_basic(&f[i].1),
        None => None,
    };
    let assignees = get_optional_user_basics(f, "assignees");
    let id = get_number(f, "id");
    let iid = get_number(f, "iid");
    let merge_status = get_text(f, "merge_status");
    let work_in_progress = get_bool(f, "work_in_progress");
    let web_url = get_text(f, "web_url");
    let pipeline = match find(f, "pipeline") {
        Some(i) => match &f[i].1 {
            Json::Null => Some(None),
            v => match decode_pipeline_value(v) {
                Some(p) => Some(Some(p)),
                None => None,
            },
        },
        None => Some(None),
    };
    match (title, created_at, updated_at, author, assignees) {
        (
            Some(title),
            Some(created_at),
            Some(updated_at),
            Some(author),
            Some(assignees),
        ) => match (id, iid, merge_status, work_in_progress, web_url, pipeline) {
            (
                Some(id),
                Some(iid),
                Some(merge_status),
                Some(work_in_progress),
                Some(web_url),
                Some(pipeline),
            ) => {
                let m = MergeRequest {
                    title,
                    created_at,
                    updated_at,
                    author,
                    assignees,
                    id,
                    iid,
                    merge_status,
                    work_in_progress,
                    web_url,
                    pipeline,
                };
                proof {
                    assert(m@.assignees == optional_user_basics(lookup(f@, "assignees"@))->0);
                }
                Some(m)
            },
            _ => None,
        },
        _ => None,
    }
}

} // verus!
