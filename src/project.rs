//! One project's record: read from the service's document, and classified
//! against a freshness threshold.
use vstd::prelude::*;
use crate::text::{date_layout, write_date};
use crate::json::{json_field, json_text, json_text_of, Json};
use crate::timestamp::{
    elapsed_days, local_date, local_date_of, now_utc_secs, parse_timestamp, timestamp_of, Timestamp,
};

verus! {

/// The record of one queried project.
pub struct Project {
    pub name: String,
    /// When the latest status comment was last updated.
    pub updated_at: Option<Timestamp>,
    /// Deep link to the latest status comment in the web UI.
    pub comment_url: Option<String>,
}

pub struct ProjectView {
    pub name: Seq<char>,
    pub updated_at: Option<Timestamp>,
    pub comment_url: Option<Seq<char>>,
}

impl View for Project {
    type V = ProjectView;

    open spec fn view(&self) -> ProjectView {
        ProjectView {
            name: self.name@,
            updated_at: self.updated_at,
            comment_url: match self.comment_url {
                Some(u) => Some(u@),
                None => None,
            },
        }
    }
}

/// A status comment as read from a document: its identifier and, where the
/// field is a string, its `updated_at` text.
pub struct Comment {
    pub id: String,
    pub updated_at: Option<String>,
}

pub struct CommentView {
    pub id: Seq<char>,
    pub updated_at: Option<Seq<char>>,
}

impl View for Comment {
    type V = CommentView;

    open spec fn view(&self) -> CommentView {
        CommentView {
            id: self.id@,
            updated_at: match self.updated_at {
                Some(s) => Some(s@),
                None => None,
            },
        }
    }
}

/// What the record of a project is built from: its title, its identifier,
/// and its status comments in the order the service lists them (oldest
/// first). A missing comments array reads as an empty one.
pub struct Document {
    pub title: String,
    pub id: String,
    pub comments: Vec<Comment>,
}

pub struct DocumentView {
    pub title: Seq<char>,
    pub id: Seq<char>,
    pub comments: Seq<CommentView>,
}

impl View for Document {
    type V = DocumentView;

    open spec fn view(&self) -> DocumentView {
        DocumentView {
            title: self.title@,
            id: self.id@,
            comments: self.comments@.map_values(|c: Comment| c@),
        }
    }
}

/// The text of a JSON value: a string's contents, or else the value written
/// as JSON (a number's digits; `null` for a missing member).
pub open spec fn value_text(j: Json) -> Seq<char> {
    match j {
        Json::Str(s) => s@,
        _ => json_text_of(j),
    }
}

/// The comment held by one element of the comments array.
pub open spec fn comment_of(j: Json) -> CommentView {
    CommentView {
        id: value_text(json_field(j, "id"@)),
        updated_at: match json_field(j, "updated_at"@) {
            Json::Str(s) => Some(s@),
            _ => None,
        },
    }
}

/// The comments of an array, in order; none where `j` is no array.
pub open spec fn comments_of(j: Json) -> Seq<CommentView> {
    match j {
        Json::Array(items) => items@.map_values(|e: Json| comment_of(e)),
        _ => Seq::empty(),
    }
}

/// What a project document says: `data.attributes.title`, `data.id`, and the
/// comments in `data.attributes.roadmap-comments`.
pub open spec fn document_of(j: Json) -> DocumentView {
    let data = json_field(j, "data"@);
    let attributes = json_field(data, "attributes"@);
    DocumentView {
        title: value_text(json_field(attributes, "title"@)),
        id: value_text(json_field(data, "id"@)),
        comments: comments_of(json_field(attributes, "roadmap-comments"@)),
    }
}

/// The name given to a project whose document could not be fetched.
pub open spec fn unknown_name() -> Seq<char> {
    "Unknown..."@
}

/// The record of a project whose document could not be fetched.
pub open spec fn unknown_project() -> ProjectView {
    ProjectView { name: unknown_name(), updated_at: None, comment_url: None }
}

/// `{vault_url}/projects/{project_id}#status-update-{comment_id}`.
pub open spec fn comment_link(vault_url: Seq<char>, project_id: Seq<char>, comment_id: Seq<char>) -> Seq<char> {
    vault_url + "/projects/"@ + project_id + "#status-update-"@ + comment_id
}

/// The record for a project named `name` whose latest comment is
/// `comment_id`, updated at `updated_at`. A comment whose time is unknown
/// counts as no comment: the time and the link are set together or not at all.
pub open spec fn latest_comment_project(
    name: Seq<char>,
    project_id: Seq<char>,
    comment_id: Seq<char>,
    updated_at: Option<Timestamp>,
    vault_url: Seq<char>,
) -> ProjectView {
    match updated_at {
        Some(t) => ProjectView {
            name,
            updated_at: Some(t),
            comment_url: Some(comment_link(vault_url, project_id, comment_id)),
        },
        None => ProjectView { name, updated_at: None, comment_url: None },
    }
}

/// The time of a comment, where its `updated_at` text parses as
/// `YYYY-MM-DD HH:MM:SS ±HHMM`.
pub open spec fn comment_time(c: CommentView) -> Option<Timestamp> {
    match c.updated_at {
        Some(s) => timestamp_of(s),
        None => None,
    }
}

/// The record built from a fetched document: the title as name, and the
/// last comment, if any, as the latest one.
pub open spec fn document_project(d: DocumentView, vault_url: Seq<char>) -> ProjectView {
    if d.comments.len() == 0 {
        ProjectView { name: d.title, updated_at: None, comment_url: None }
    } else {
        let c = d.comments.last();
        latest_comment_project(d.title, d.id, c.id, comment_time(c), vault_url)
    }
}

/// The time and the link of a record are present together.
pub open spec fn paired(p: ProjectView) -> bool {
    p.updated_at is Some <==> p.comment_url is Some
}

/// Whether a record counts as updated at `now` (epoch seconds): it has a
/// time, and at most `since_days_ago` whole days have passed since it.
pub open spec fn updated_as_of(p: ProjectView, now: int, since_days_ago: int) -> bool {
    match p.updated_at {
        Some(t) => elapsed_days(now, t.utc_secs as int) <= since_days_ago,
        None => false,
    }
}

/// What a record shows as its date: the calendar date of its time in its
/// own offset, as `YYYY-MM-DD`, or `--` where it has none.
pub open spec fn date_text(p: ProjectView) -> Seq<char> {
    match p.updated_at {
        Some(t) => match local_date_of(t.utc_secs as int, t.offset_secs as int) {
            Some(d) => date_layout(d.0, d.1, d.2),
            None => "--"@,
        },
        None => "--"@,
    }
}

/// What a record shows as its link: the comment URL, or nothing.
pub open spec fn url_text(p: ProjectView) -> Seq<char> {
    match p.comment_url {
        Some(u) => u,
        None => Seq::empty(),
    }
}

/// The records of `ps`, in their order, whose freshness at `now` is `updated`.
pub open spec fn select_fresh(ps: Seq<ProjectView>, now: int, since_days_ago: int, updated: bool) -> Seq<
    ProjectView,
>
    decreases ps.len(),
{
    if ps.len() == 0 {
        Seq::empty()
    } else {
        let init = select_fresh(ps.drop_last(), now, since_days_ago, updated);
        if updated_as_of(ps.last(), now, since_days_ago) == updated {
            init.push(ps.last())
        } else {
            init
        }
    }
}

pub open spec fn views(ps: Seq<Project>) -> Seq<ProjectView> {
    ps.map_values(|p: Project| p@)
}

fn join_link(vault_url: &str, project_id: &str, comment_id: &str) -> (r: String)
    ensures
        r@ == comment_link(vault_url@, project_id@, comment_id@),
{
    let mut r = String::from_str(vault_url);
    r.append("/projects/");
    r.append(project_id);
    r.append("#status-update-");
    r.append(comment_id);
    r
}

/// The text of the member `key` of `j`.
fn field_text(j: &Json, key: &str) -> (r: String)
    ensures
        r@ == value_text(json_field(*j, key@)),
{
    match j.field(key) {
        Some(Json::Str(s)) => s.clone(),
        Some(v) => json_text(v),
        None => json_text(&Json::Null),
    }
}

impl Document {
    /// Reads `data.attributes.title`, `data.id` and the `id` and
    /// `updated_at` of each element of `data.attributes.roadmap-comments`.
    pub fn from_json(j: &Json) -> (r: Document)
        ensures
            r@ == document_of(*j),
    {
        let null = Json::Null;
        let data = match j.field("data") {
            Some(v) => v,
            None => &null,
        };
        let attributes = match data.field("attributes") {
            Some(v) => v,
            None => &null,
        };
        let title = field_text(attributes, "title");
        let id = field_text(data, "id");
        let mut comments: Vec<Comment> = Vec::new();
        let ghost expected = comments_of(json_field(*attributes, "roadmap-comments"@));
        match attributes.field("roadmap-comments") {
            Some(Json::Array(items)) => {
                let n = items.len();
                let mut i: usize = 0;
                while i < n
                    invariant
                        n == items@.len(),
                        i <= n,
                        expected == items@.map_values(|e: Json| comment_of(e)),
                        comments@.len() == i,
                        forall|k: int| 0 <= k < i ==> (#[trigger] comments@[k])@ == comment_of(items@[k]),
                    decreases n - i,
                {
                    let item = &items[i];
                    let updated_at = match item.field("updated_at") {
                        Some(Json::Str(s)) => Some(s.clone()),
                        _ => None,
                    };
                    comments.push(Comment { id: field_text(item, "id"), updated_at });
                    i = i + 1;
                }
            },
            _ => {},
        }
        let r = Document { title, id, comments };
        assert(r@.comments =~= expected);
        r
    }
}

impl Project {
    /// The record of a project whose document could not be fetched.
    pub fn unknown() -> (r: Project)
        ensures
            r@ == unknown_project(),
    {
        Project { name: String::from_str("Unknown..."), updated_at: None, comment_url: None }
    }

    /// The record for a project named `name` whose latest comment is
    /// `comment_id`, with the time `updated_at` read from that comment.
    pub fn with_latest_comment(
        name: String,
        project_id: &str,
        comment_id: &str,
        updated_at: Option<Timestamp>,
        vault_url: &str,
    ) -> (r: Project)
        ensures
            r@ == latest_comment_project(name@, project_id@, comment_id@, updated_at, vault_url@),
            paired(r@),
    {
        match updated_at {
            Some(t) => Project {
                name,
                updated_at: Some(t),
                comment_url: Some(join_link(vault_url, project_id, comment_id)),
            },
            None => Project { name, updated_at: None, comment_url: None },
        }
    }

    /// The record built from a fetched document.
    pub fn from_document(d: &Document, vault_url: &str) -> (r: Project)
        ensures
            r@ == document_project(d@, vault_url@),
            paired(r@),
    {
        let n = d.comments.len();
        if n == 0 {
            return Project { name: d.title.clone(), updated_at: None, comment_url: None };
        }
        let c = &d.comments[n - 1];
        assert(d@.comments.last() == c@);
        let updated_at = match &c.updated_at {
            Some(s) => parse_timestamp(s.as_str()),
            None => None,
        };
        Project::with_latest_comment(d.title.clone(), d.id.as_str(), c.id.as_str(), updated_at, vault_url)
    }

    /// The record for one fetch outcome: `None` for a request that failed,
    /// else the document it returned.
    pub fn parse(body: Option<&Json>, vault_url: &str) -> (r: Project)
        ensures
            body is None ==> r@ == unknown_project(),
            body matches Some(j) ==> r@ == document_project(document_of(*j), vault_url@),
            paired(r@),
    {
        match body {
            None => Project::unknown(),
            Some(j) => {
                let d = Document::from_json(j);
                Project::from_document(&d, vault_url)
            },
        }
    }

    /// Whether the record counts as updated at `now` (epoch seconds), with
    /// at most `since_days_ago` whole days allowed since its latest comment.
    pub fn is_updated_at(&self, now: i64, since_days_ago: i64) -> (r: bool)
        ensures
            r == updated_as_of(self@, now as int, since_days_ago as int),
    {
        match self.updated_at {
            Some(t) => t.days_until(now) <= since_days_ago,
            None => false,
        }
    }

    /// The date shown for the record: `YYYY-MM-DD` in the offset it was
    /// written in, or `--` where it has no time.
    pub fn date_cell(&self) -> (r: String)
        ensures
            r@ == date_text(self@),
    {
        match self.updated_at {
            Some(t) => match local_date(t) {
                Some(d) => write_date(d.0, d.1, d.2),
                None => String::from_str("--"),
            },
            None => String::from_str("--"),
        }
    }

    /// The link shown for the record, empty where it has none.
    pub fn url_cell(&self) -> (r: String)
        ensures
            r@ == url_text(self@),
    {
        match &self.comment_url {
            Some(u) => u.clone(),
            None => String::new(),
        }
    }

    /// Whether the record counts as updated now. A record without a time is
    /// never updated.
    pub fn is_updated(&self, since_days_ago: i64) -> (r: bool)
        ensures
            self.updated_at is None ==> !r,
            exists|now: i64| r == updated_as_of(self@, now as int, since_days_ago as int),
    {
        let now = now_utc_secs();
        let r = self.is_updated_at(now, since_days_ago);
        assert(r == updated_as_of(self@, now as int, since_days_ago as int));
        r
    }
}

/// Splits `projects` into the outdated ones and the updated ones at `now`
/// (epoch seconds), each list keeping the order of `projects`.
pub fn partition_at(projects: Vec<Project>, now: i64, since_days_ago: i64) -> (r: (Vec<Project>, Vec<Project>))
    ensures
        views(r.0@) == select_fresh(views(projects@), now as int, since_days_ago as int, false),
        views(r.1@) == select_fresh(views(projects@), now as int, since_days_ago as int, true),
{
    let ghost orig = projects@;
    let mut projects = projects;
    let mut outdated: Vec<Project> = Vec::new();
    let mut updated: Vec<Project> = Vec::new();
    let mut i: usize = 0;
    while i < projects.len()
        invariant
            projects@.len() == orig.len(),
            i <= orig.len(),
            forall|j: int| i <= j < orig.len() ==> #[trigger] projects@[j] == orig[j],
            views(outdated@) == select_fresh(views(orig.take(i as int)), now as int, since_days_ago as int, false),
            views(updated@) == select_fresh(views(orig.take(i as int)), now as int, since_days_ago as int, true),
        decreases orig.len() - i,
    {
        let mut p = Project::unknown();
        projects.set_and_swap(i, &mut p);
        proof {
            assert(p == orig[i as int]);
            assert(views(orig.take(i as int + 1)).drop_last() =~= views(orig.take(i as int)));
            assert(views(orig.take(i as int + 1)).last() == p@);
        }
        let ghost pv = p@;
        let ghost prev_out = outdated@;
        let ghost prev_up = updated@;
        if p.is_updated_at(now, since_days_ago) {
            updated.push(p);
            assert(views(updated@) =~= views(prev_up).push(pv));
            assert(outdated@ == prev_out);
        } else {
            outdated.push(p);
            assert(views(outdated@) =~= views(prev_out).push(pv));
            assert(updated@ == prev_up);
        }
        i = i + 1;
    }
    assert(orig.take(orig.len() as int) =~= orig);
    (outdated, updated)
}

/// Splits `projects` into the outdated ones and the updated ones, judged at
/// one instant read from the clock, each list keeping the order of `projects`.
pub fn partition(projects: Vec<Project>, since_days_ago: i64) -> (r: (Vec<Project>, Vec<Project>))
    ensures
        exists|now: i64|
            views(r.0@) == select_fresh(views(projects@), now as int, since_days_ago as int, false)
            && views(r.1@) == select_fresh(views(projects@), now as int, since_days_ago as int, true),
{
    let now = now_utc_secs();
    partition_at(projects, now, since_days_ago)
}

/// A record with no time is never updated, whatever the threshold and the
/// current time.
pub proof fn lemma_no_time_never_updated(p: ProjectView, now: int, since_days_ago: int)
    requires
        p.updated_at is None,
    ensures
        !updated_as_of(p, now, since_days_ago),
{
}

/// The threshold is inclusive: a record updated exactly `since_days_ago`
/// days ago (to the second) is updated, and one updated a day earlier is not.
pub proof fn lemma_threshold_inclusive(p: ProjectView, since_days_ago: int)
    requires
        p.updated_at is Some,
        since_days_ago >= 0,
    ensures
        updated_as_of(p, p.updated_at.unwrap().utc_secs + since_days_ago * 86400, since_days_ago),
        !updated_as_of(p, p.updated_at.unwrap().utc_secs + (since_days_ago + 1) * 86400, since_days_ago),
{
    let t = p.updated_at.unwrap().utc_secs as int;
    assert((since_days_ago * 86400) / 86400 == since_days_ago) by (nonlinear_arith)
        requires since_days_ago >= 0;
    assert(((since_days_ago + 1) * 86400) / 86400 == since_days_ago + 1) by (nonlinear_arith)
        requires since_days_ago >= 0;
    assert(elapsed_days(t + since_days_ago * 86400, t) == since_days_ago);
    assert(elapsed_days(t + (since_days_ago + 1) * 86400, t) == since_days_ago + 1);
}

/// A fetched failure gives the placeholder name with neither time nor link.
pub proof fn lemma_failed_fetch_is_placeholder()
    ensures
        unknown_project().name == "Unknown..."@,
        unknown_project().updated_at is None,
        unknown_project().comment_url is None,
        date_text(unknown_project()) == "--"@,
        url_text(unknown_project()) == Seq::<char>::empty(),
{
}

/// A document without comments gives its title as name, with neither time
/// nor link, shown with the `--` date and an empty link, and never updated.
pub proof fn lemma_no_comments(d: DocumentView, vault_url: Seq<char>, now: int, since_days_ago: int)
    requires
        d.comments.len() == 0,
    ensures
        document_project(d, vault_url) == (ProjectView { name: d.title, updated_at: None, comment_url: None }),
        date_text(document_project(d, vault_url)) == "--"@,
        url_text(document_project(d, vault_url)) == Seq::<char>::empty(),
        !updated_as_of(document_project(d, vault_url), now, since_days_ago),
{
}

/// A document whose last comment has a well-formed time gives the title as
/// name, that time as parsed, and the link
/// `{vault_url}/projects/{id}#status-update-{comment_id}`.
pub proof fn lemma_latest_comment(d: DocumentView, vault_url: Seq<char>)
    requires
        d.comments.len() > 0,
        comment_time(d.comments.last()) is Some,
    ensures
        document_project(d, vault_url).name == d.title,
        document_project(d, vault_url).updated_at == timestamp_of(d.comments.last().updated_at.unwrap()),
        document_project(d, vault_url).comment_url == Some(
            comment_link(vault_url, d.id, d.comments.last().id),
        ),
{
}

} // verus!
