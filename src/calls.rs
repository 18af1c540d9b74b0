use vstd::prelude::*;

use crate::error::ClientError;
use crate::ident::{all_valid, check_id_slug, check_id_slugs, checked_all, is_valid_id};
use crate::json::{json_array_text, json_bool_text, json_string, json_string_array, json_string_text};
use crate::query::{encode_query, pair_texts, present_pairs, Filter, FilterValue};
use crate::request::{prepared, Ferinth, Method, Request};
use crate::text::texts;

verus! {

fn path1(a: &str) -> (r: Vec<String>)
    ensures
        texts(r@) == seq![a@],
{
    let mut r: Vec<String> = Vec::new();
    r.push(a.to_owned());
    assert(texts(r@) =~= seq![a@]);
    r
}

fn path2(a: &str, b: &str) -> (r: Vec<String>)
    ensures
        texts(r@) == seq![a@, b@],
{
    let mut r: Vec<String> = Vec::new();
    r.push(a.to_owned());
    r.push(b.to_owned());
    assert(texts(r@) =~= seq![a@, b@]);
    r
}

fn path3(a: &str, b: &str, c: &str) -> (r: Vec<String>)
    ensures
        texts(r@) == seq![a@, b@, c@],
{
    let mut r: Vec<String> = Vec::new();
    r.push(a.to_owned());
    r.push(b.to_owned());
    r.push(c.to_owned());
    assert(texts(r@) =~= seq![a@, b@, c@]);
    r
}

/// The query of a batch lookup: one parameter `ids` holding the identifiers
/// as a JSON array.
pub open spec fn ids_query(ids: Seq<Seq<char>>) -> Seq<(Seq<char>, Seq<char>)> {
    seq![("ids"@, json_array_text(ids))]
}

/// `r` is the outcome of a GET on the path `segments` after checking the
/// single identifier `id`.
pub open spec fn id_get(
    c: Ferinth,
    r: Result<Request, ClientError>,
    id: Seq<char>,
    segments: Seq<Seq<char>>,
) -> bool {
    &&& !is_valid_id(id) ==> r is Err && r->Err_0.rejects_id(id)
    &&& is_valid_id(id) ==> prepared(c, r, Method::Get, segments, Seq::empty(), None)
}

/// `r` is the outcome of a batch lookup on `collection` of `ids`.
pub open spec fn batch_get(
    c: Ferinth,
    r: Result<Request, ClientError>,
    ids: Seq<Seq<char>>,
    collection: Seq<char>,
) -> bool {
    &&& !all_valid(ids) ==> r is Err && checked_all(ids, Err(r->Err_0))
    &&& all_valid(ids) ==> prepared(
        c,
        r,
        Method::Get,
        seq![collection],
        ids_query(ids),
        None,
    )
}

/// The query parameters of a filtered version listing, in this order:
/// loaders and game versions as JSON arrays, featured as a JSON boolean,
/// each only when given.
pub open spec fn version_filter_pairs(
    loaders: Option<Vec<String>>,
    game_versions: Option<Vec<String>>,
    featured: Option<bool>,
) -> Seq<(Seq<char>, Seq<char>)> {
    (match loaders {
        Some(l) => seq![("loaders"@, json_array_text(texts(l@)))],
        None => Seq::empty(),
    }) + match game_versions {
        Some(g) => seq![("game_versions"@, json_array_text(texts(g@)))],
        None => Seq::empty(),
    } + match featured {
        Some(b) => seq![("featured"@, json_bool_text(b))],
        None => Seq::empty(),
    }
}

/// What a report is filed against.
#[derive(Debug, Clone, Copy, PartialEq, Eq, Structural)]
pub enum ReportItemType {
    Project,
    User,
    Version,
}

/// The name that the service gives a kind of reported item.
pub open spec fn item_type_text(t: ReportItemType) -> Seq<char> {
    match t {
        ReportItemType::Project => "project"@,
        ReportItemType::User => "user"@,
        ReportItemType::Version => "version"@,
    }
}

/// The JSON body of a report submission.
pub open spec fn report_text(
    report_type: Seq<char>,
    item_id: Seq<char>,
    item_type: ReportItemType,
    body: Seq<char>,
) -> Seq<char> {
    "{\"report_type\":"@ + json_string_text(report_type) + ",\"item_id\":"@ + json_string_text(
        item_id,
    ) + ",\"item_type\":"@ + json_string_text(item_type_text(item_type)) + ",\"body\":"@
        + json_string_text(body) + "}"@
}

fn item_type_name(t: ReportItemType) -> (r: &'static str)
    ensures
        r@ == item_type_text(t),
{
    match t {
        ReportItemType::Project => "project",
        ReportItemType::User => "user",
        ReportItemType::Version => "version",
    }
}

fn json_text(s: &str) -> (r: Result<String, ClientError>)
    ensures
        r is Ok && r->Ok_0@ == json_string_text(s@),
{
    match json_string(s) {
        Ok(t) => Ok(t),
        Err(_) => Err(ClientError::SerializationError),
    }
}

/// Encodes a report submission as JSON.
pub fn report_json(report_type: &str, item_id: &str, item_type: ReportItemType, body: &str) -> (r:
    Result<String, ClientError>)
    ensures
        r is Ok && r->Ok_0@ == report_text(report_type@, item_id@, item_type, body@),
{
    let mut out = "{\"report_type\":".to_owned();
    out.append(json_text(report_type)?.as_str());
    out.append(",\"item_id\":");
    out.append(json_text(item_id)?.as_str());
    out.append(",\"item_type\":");
    out.append(json_text(item_type_name(item_type))?.as_str());
    out.append(",\"body\":");
    out.append(json_text(body)?.as_str());
    out.append("}");
    Ok(out)
}

impl Ferinth {
    fn batch(&self, collection: &str, ids: &Vec<String>) -> (r: Result<Request, ClientError>)
        ensures
            batch_get(*self, r, texts(ids@), collection@),
    {
        match check_id_slugs(ids) {
            Ok(()) => {},
            Err(e) => {
                return Err(e);
            },
        }
        let text = match json_string_array(ids) {
            Ok(t) => t,
            Err(_) => {
                return Err(ClientError::SerializationError);
            },
        };
        let mut query: Vec<(String, String)> = Vec::new();
        query.push(("ids".to_owned(), text));
        assert(pair_texts(query@) =~= ids_query(texts(ids@)));
        self.get(&path1(collection), &query)
    }

    fn id_get_path(&self, id: &str, segments: &Vec<String>) -> (r: Result<Request, ClientError>)
        ensures
            id_get(*self, r, id@, texts(segments@)),
    {
        check_id_slug(id)?;
        let query: Vec<(String, String)> = Vec::new();
        assert(pair_texts(query@) =~= Seq::empty());
        self.get(segments, &query)
    }

    /// The request for the user with ID or username `user_id`.
    pub fn get_user(&self, user_id: &str) -> (r: Result<Request, ClientError>)
        ensures
            id_get(*self, r, user_id@, seq!["user"@, user_id@]),
    {
        self.id_get_path(user_id, &path2("user", user_id))
    }

    /// The request for the user that the authorisation token belongs to.
    pub fn get_current_user(&self) -> (r: Result<Request, ClientError>)
        ensures
            prepared(*self, r, Method::Get, seq!["user"@], Seq::empty(), None),
    {
        let query: Vec<(String, String)> = Vec::new();
        assert(pair_texts(query@) =~= Seq::empty());
        self.get(&path1("user"), &query)
    }

    /// The request for the users with IDs `user_ids`, in one batch.
    pub fn get_multiple_users(&self, user_ids: &Vec<String>) -> (r: Result<Request, ClientError>)
        ensures
            batch_get(*self, r, texts(user_ids@), "users"@),
    {
        self.batch("users", user_ids)
    }

    /// The request for the projects that user `user_id` owns.
    pub fn list_projects(&self, user_id: &str) -> (r: Result<Request, ClientError>)
        ensures
            id_get(*self, r, user_id@, seq!["user"@, user_id@, "projects"@]),
    {
        self.id_get_path(user_id, &path3("user", user_id, "projects"))
    }

    /// The request for the notifications that user `user_id` received.
    pub fn get_notifications(&self, user_id: &str) -> (r: Result<Request, ClientError>)
        ensures
            id_get(*self, r, user_id@, seq!["user"@, user_id@, "notifications"@]),
    {
        self.id_get_path(user_id, &path3("user", user_id, "notifications"))
    }

    /// The request for the projects that user `user_id` follows.
    pub fn followed_projects(&self, user_id: &str) -> (r: Result<Request, ClientError>)
        ensures
            id_get(*self, r, user_id@, seq!["user"@, user_id@, "follows"@]),
    {
        self.id_get_path(user_id, &path3("user", user_id, "follows"))
    }

    /// The request that files a report against item `item_id`.
    pub fn submit_report(
        &self,
        report_type: String,
        item_id: String,
        item_type: ReportItemType,
        body: String,
    ) -> (r: Result<Request, ClientError>)
        ensures
            !is_valid_id(item_id@) ==> r is Err && r->Err_0.rejects_id(item_id@),
            is_valid_id(item_id@) ==> prepared(
                *self,
                r,
                Method::Post,
                seq!["report"@],
                Seq::empty(),
                Some(report_text(report_type@, item_id@, item_type, body@)),
            ),
    {
        check_id_slug(item_id.as_str())?;
        let text = report_json(report_type.as_str(), item_id.as_str(), item_type, body.as_str())?;
        self.post(&path1("report"), text)
    }

    /// The request for the versions of project `project_id`.
    pub fn list_versions(&self, project_id: &str) -> (r: Result<Request, ClientError>)
        ensures
            id_get(*self, r, project_id@, seq!["project"@, project_id@, "version"@]),
    {
        self.id_get_path(project_id, &path3("project", project_id, "version"))
    }

    /// The request for the versions of project `project_id` that match the
    /// filters given: loaders, game versions, and whether featured.
    pub fn list_versions_filtered(
        &self,
        project_id: &str,
        loaders: Option<Vec<String>>,
        game_versions: Option<Vec<String>>,
        featured: Option<bool>,
    ) -> (r: Result<Request, ClientError>)
        ensures
            !is_valid_id(project_id@) ==> r is Err && r->Err_0.rejects_id(project_id@),
            is_valid_id(project_id@) ==> prepared(
                *self,
                r,
                Method::Get,
                seq!["project"@, project_id@, "version"@],
                version_filter_pairs(loaders, game_versions, featured),
                None,
            ),
    {
        check_id_slug(project_id)?;
        let ghost pairs = version_filter_pairs(loaders, game_versions, featured);
        let mut filters: Vec<Filter> = Vec::new();
        filters.push(
            Filter {
                name: "loaders".to_owned(),
                value: match loaders {
                    Some(l) => Some(FilterValue::List(l)),
                    None => None,
                },
            },
        );
        filters.push(
            Filter {
                name: "game_versions".to_owned(),
                value: match game_versions {
                    Some(g) => Some(FilterValue::List(g)),
                    None => None,
                },
            },
        );
        filters.push(
            Filter {
                name: "featured".to_owned(),
                value: match featured {
                    Some(b) => Some(FilterValue::Flag(b)),
                    None => None,
                },
            },
        );
        let query = encode_query(&filters)?;
        proof {
            let fs = filters@;
            assert(fs.drop_last().drop_last().drop_last() =~= Seq::<Filter>::empty());
            assert(fs.drop_last().drop_last() =~= seq![fs[0]]);
            assert(fs.drop_last() =~= seq![fs[0], fs[1]]);
            reveal_with_fuel(Seq::filter_map, 4);
            assert(present_pairs(fs) =~= pairs);
        }
        self.get(&path3("project", project_id, "version"), &query)
    }

    /// The request for the version with ID `version_id`.
    pub fn get_version(&self, version_id: &str) -> (r: Result<Request, ClientError>)
        ensures
            id_get(*self, r, version_id@, seq!["version"@, version_id@]),
    {
        self.id_get_path(version_id, &path2("version", version_id))
    }

    /// The request for the versions with IDs `version_ids`, in one batch.
    pub fn get_multiple_versions(&self, version_ids: &Vec<String>) -> (r: Result<
        Request,
        ClientError,
    >)
        ensures
            batch_get(*self, r, texts(version_ids@), "versions"@),
    {
        self.batch("versions", version_ids)
    }
}

} // verus!
