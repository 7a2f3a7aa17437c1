//! The outbound calls of the gateway operations: method, path, query
//! parameters and body of each, ready for the transport to send.

use vstd::prelude::*;

use crate::json::{json_quoted, quote_json, strings_view};
use crate::text::{decimal, decimal_string, joined, push_decimal, push_str};
use crate::types::{api_name, direction_name, ExportFormat, Sort};

verus! {

/// An HTTP verb.
#[derive(Debug, Clone, Copy, PartialEq, Eq, Structural)]
pub enum HttpMethod {
    Get,
    Post,
    Put,
    Delete,
}

/// One outbound call, relative to the API's base URL.
#[derive(Debug)]
pub struct ApiRequest {
    pub method: HttpMethod,
    pub path: String,
    pub query: Vec<(String, String)>,
    /// The body, if any.
    pub body: Option<String>,
    /// Whether the body is plain text rather than JSON.
    pub plain_text: bool,
}

/// A JSON array of strings.
pub open spec fn json_list(items: Seq<Seq<char>>) -> Seq<char> {
    "["@ + joined(items.map_values(|s: Seq<char>| json_quoted(s)), ","@) + "]"@
}

pub open spec fn sort_text(sort: Option<Sort>) -> Seq<char> {
    match sort {
        Some(s) => s.field@ + " "@ + direction_name(s.direction),
        None => "date desc"@,
    }
}

pub open spec fn opt_str(o: Option<&str>) -> Option<Seq<char>> {
    match o {
        Some(s) => Some(s@),
        None => None,
    }
}

pub open spec fn opt_sort(o: Option<&Sort>) -> Option<Sort> {
    match o {
        Some(s) => Some(*s),
        None => None,
    }
}

pub open spec fn pairs_view(q: Seq<(String, String)>) -> Seq<(Seq<char>, Seq<char>)> {
    q.map_values(|p: (String, String)| (p.0@, p.1@))
}

pub open spec fn body_view(b: Option<String>) -> Option<Seq<char>> {
    match b {
        Some(s) => Some(s@),
        None => None,
    }
}

/// Whether `r` is a call with this method, path and JSON body, and no query.
pub open spec fn json_call(r: ApiRequest, m: HttpMethod, path: Seq<char>, body: Seq<char>) -> bool {
    r.method == m && r.path@ == path && r.query@.len() == 0 && body_view(r.body) == Some(body)
        && !r.plain_text
}

/// Whether `r` is a call with this method and path, and no query or body.
pub open spec fn bare_call(r: ApiRequest, m: HttpMethod, path: Seq<char>) -> bool {
    r.method == m && r.path@ == path && r.query@.len() == 0 && r.body is None && !r.plain_text
}

fn push_json_list(out: &mut String, items: &Vec<String>)
    ensures
        final(out)@ == old(out)@ + json_list(strings_view(items@)),
{
    let ghost all = strings_view(items@).map_values(|s: Seq<char>| json_quoted(s));
    let ghost start = out@;
    push_str(out, "[");
    let mut i: usize = 0;
    while i < items.len()
        invariant
            i <= items@.len(),
            all == strings_view(items@).map_values(|s: Seq<char>| json_quoted(s)),
            out@ == start + "["@ + joined(all.take(i as int), ","@),
        decreases items.len() - i,
    {
        if i > 0 {
            push_str(out, ",");
        }
        let q = quote_json(items[i].as_str());
        push_str(out, q.as_str());
        proof {
            let next = all.take(i + 1);
            assert(next.drop_last() =~= all.take(i as int));
            assert(next.last() == json_quoted(items@[i as int]@));
            if i == 0 {
                assert(joined(next, ","@) == next[0]);
                assert(all.take(0) =~= Seq::<Seq<char>>::empty());
            }
            assert(out@ =~= start + "["@ + joined(next, ","@));
        }
        i = i + 1;
    }
    proof {
        assert(all.take(items@.len() as int) =~= all);
    }
    push_str(out, "]");
    proof {
        assert(final(out)@ =~= old(out)@ + json_list(strings_view(items@)));
    }
}

fn push_sort(out: &mut String, sort: Option<&Sort>)
    ensures
        final(out)@ == old(out)@ + sort_text(opt_sort(sort)),
{
    match sort {
        Some(s) => {
            let t = s.to_sort_string();
            push_str(out, t.as_str());
        },
        None => push_str(out, "date desc"),
    }
}

fn text(s: &str) -> (r: String)
    ensures
        r@ == s@,
{
    String::from_str(s)
}

fn path_with(prefix: &str, id: &str) -> (r: String)
    ensures
        r@ == prefix@ + id@,
{
    let mut p = String::from_str(prefix);
    push_str(&mut p, id);
    p
}

fn json_request(method: HttpMethod, path: String, body: String) -> (r: ApiRequest)
    ensures
        json_call(r, method, path@, body@),
{
    ApiRequest { method, path, query: Vec::new(), body: Some(body), plain_text: false }
}

fn bare_request(method: HttpMethod, path: String) -> (r: ApiRequest)
    ensures
        bare_call(r, method, path@),
{
    ApiRequest { method, path, query: Vec::new(), body: None, plain_text: false }
}

/// The query parameters of a search.
pub open spec fn search_query(
    query: Seq<char>,
    fields: Seq<char>,
    sort: Option<Sort>,
    rows: nat,
    start: nat,
) -> Seq<(Seq<char>, Seq<char>)> {
    seq![
        ("q"@, query),
        ("fl"@, fields),
        ("rows"@, decimal(rows)),
        ("start"@, decimal(start)),
        ("sort"@, sort_text(sort)),
    ]
}

/// A search with full control over fields, sort and pagination; newest
/// first when no sort is given.
pub fn search_request(query: &str, fields: &str, sort: Option<&Sort>, rows: u32, start: u32) -> (r:
    ApiRequest)
    ensures
        r.method == HttpMethod::Get,
        r.path@ == "/search/query"@,
        pairs_view(r.query@) == search_query(query@, fields@, opt_sort(sort), rows as nat, start as nat),
        r.body is None,
{
    let mut sort_value = String::new();
    push_sort(&mut sort_value, sort);
    let mut q: Vec<(String, String)> = Vec::new();
    q.push((text("q"), text(query)));
    q.push((text("fl"), text(fields)));
    q.push((text("rows"), decimal_string(rows as u64)));
    q.push((text("start"), decimal_string(start as u64)));
    q.push((text("sort"), sort_value));
    let r = ApiRequest { method: HttpMethod::Get, path: text("/search/query"), query: q, body: None, plain_text: false };
    proof {
        assert(sort_value@ =~= sort_text(opt_sort(sort)));
        assert(pairs_view(r.query@) =~= search_query(query@, fields@, opt_sort(sort), rows as nat, start as nat));
    }
    r
}

/// The body of a search within a set of bibcodes.
pub open spec fn bigquery_body(
    bibcodes: Seq<Seq<char>>,
    query: Seq<char>,
    fields: Seq<char>,
    rows: nat,
    sort: Option<Sort>,
) -> Seq<char> {
    "{\"bibcodes\":"@ + json_list(bibcodes) + ",\"query\":"@ + json_quoted(
        "q="@ + query + "&fl="@ + fields + "&rows="@ + decimal(rows) + "&sort="@ + sort_text(sort),
    ) + "}"@
}

/// A search within a set of known bibcodes: every record unless a query is
/// given, the default fields unless others are, and as many rows as there
/// are bibcodes unless a number is given.
pub fn bigquery_request(
    bibcodes: &Vec<String>,
    query: Option<&str>,
    fields: Option<&str>,
    sort: Option<&Sort>,
    rows: Option<u32>,
) -> (r: ApiRequest)
    requires
        bibcodes@.len() <= u32::MAX,
    ensures
        json_call(
            r,
            HttpMethod::Post,
            "/search/bigquery"@,
            bigquery_body(
                strings_view(bibcodes@),
                match opt_str(query) {
                    Some(q) => q,
                    None => "*:*"@,
                },
                match opt_str(fields) {
                    Some(f) => f,
                    None => crate::parse::DEFAULT_SEARCH_FIELDS@,
                },
                match rows {
                    Some(n) => n as nat,
                    None => bibcodes@.len(),
                },
                opt_sort(sort),
            ),
        ),
{
    let mut inner = String::from_str("q=");
    match query {
        Some(q) => push_str(&mut inner, q),
        None => push_str(&mut inner, "*:*"),
    }
    push_str(&mut inner, "&fl=");
    match fields {
        Some(f) => push_str(&mut inner, f),
        None => push_str(&mut inner, crate::parse::DEFAULT_SEARCH_FIELDS),
    }
    push_str(&mut inner, "&rows=");
    match rows {
        Some(n) => push_decimal(&mut inner, n as u64),
        None => push_decimal(&mut inner, bibcodes.len() as u64),
    }
    push_str(&mut inner, "&sort=");
    push_sort(&mut inner, sort);
    let mut body = String::from_str("{\"bibcodes\":");
    push_json_list(&mut body, bibcodes);
    push_str(&mut body, ",\"query\":");
    let q = quote_json(inner.as_str());
    push_str(&mut body, q.as_str());
    push_str(&mut body, "}");
    proof {
        let ghost qq = match opt_str(query) {
            Some(q) => q,
            None => "*:*"@,
        };
        let ghost ff = match opt_str(fields) {
            Some(f) => f,
            None => crate::parse::DEFAULT_SEARCH_FIELDS@,
        };
        let ghost nn: nat = match rows {
            Some(n) => n as nat,
            None => bibcodes@.len(),
        };
        assert(inner@ =~= "q="@ + qq + "&fl="@ + ff + "&rows="@ + decimal(nn) + "&sort="@ + sort_text(opt_sort(sort)));
        assert(body@ =~= bigquery_body(strings_view(bibcodes@), qq, ff, nn, opt_sort(sort)));
    }
    json_request(HttpMethod::Post, text("/search/bigquery"), body)
}

/// An export of papers in a citation format, optionally sorted.
pub fn export_request(bibcodes: &Vec<String>, format: ExportFormat, sort: Option<&Sort>) -> (r:
    ApiRequest)
    ensures
        json_call(
            r,
            HttpMethod::Post,
            "/export/"@ + api_name(format),
            "{\"bibcode\":"@ + json_list(strings_view(bibcodes@)) + match opt_sort(sort) {
                Some(s) => ",\"sort\":"@ + json_quoted(sort_text(Some(s))),
                None => Seq::empty(),
            } + "}"@,
        ),
{
    let mut body = String::from_str("{\"bibcode\":");
    push_json_list(&mut body, bibcodes);
    match sort {
        Some(s) => {
            push_str(&mut body, ",\"sort\":");
            let t = s.to_sort_string();
            let q = quote_json(t.as_str());
            push_str(&mut body, q.as_str());
        },
        None => {},
    }
    push_str(&mut body, "}");
    proof {
        assert(body@ =~= "{\"bibcode\":"@ + json_list(strings_view(bibcodes@)) + match opt_sort(sort) {
            Some(s) => ",\"sort\":"@ + json_quoted(sort_text(Some(s))),
            None => Seq::empty(),
        } + "}"@);
    }
    json_request(HttpMethod::Post, path_with("/export/", format.as_api_str()), body)
}

/// A body `{"<key>":[...]}` followed by `tail` and a closing brace.
fn list_body(key: &str, items: &Vec<String>, tail: &str) -> (r: String)
    ensures
        r@ == "{\""@ + key@ + "\":"@ + json_list(strings_view(items@)) + tail@ + "}"@,
{
    let mut body = String::from_str("{\"");
    push_str(&mut body, key);
    push_str(&mut body, "\":");
    push_json_list(&mut body, items);
    push_str(&mut body, tail);
    push_str(&mut body, "}");
    proof {
        assert(body@ =~= "{\""@ + key@ + "\":"@ + json_list(strings_view(items@)) + tail@ + "}"@);
    }
    body
}

/// Citation metrics for a set of papers: basic, citation and indicator
/// statistics.
pub fn metrics_request(bibcodes: &Vec<String>) -> (r: ApiRequest)
    ensures
        json_call(
            r,
            HttpMethod::Post,
            "/metrics"@,
            "{\""@ + "bibcodes"@ + "\":"@ + json_list(strings_view(bibcodes@))
                + ",\"types\":[\"basic\",\"citations\",\"indicators\"]"@ + "}"@,
        ),
{
    json_request(
        HttpMethod::Post,
        text("/metrics"),
        list_body("bibcodes", bibcodes, ",\"types\":[\"basic\",\"citations\",\"indicators\"]"),
    )
}

/// The author collaboration network, or the paper network, of a set of
/// papers.
pub fn network_request(bibcodes: &Vec<String>, paper: bool) -> (r: ApiRequest)
    ensures
        paper ==> json_call(
            r,
            HttpMethod::Post,
            "/vis/paper-network"@,
            "{\""@ + "bibcodes"@ + "\":"@ + json_list(strings_view(bibcodes@))
                + ",\"types\":[\"paper\"]"@ + "}"@,
        ),
        !paper ==> json_call(
            r,
            HttpMethod::Post,
            "/vis/author-network"@,
            "{\""@ + "bibcodes"@ + "\":"@ + json_list(strings_view(bibcodes@))
                + ",\"types\":[\"author\"]"@ + "}"@,
        ),
{
    if paper {
        json_request(
            HttpMethod::Post,
            text("/vis/paper-network"),
            list_body("bibcodes", bibcodes, ",\"types\":[\"paper\"]"),
        )
    } else {
        json_request(
            HttpMethod::Post,
            text("/vis/author-network"),
            list_body("bibcodes", bibcodes, ",\"types\":[\"author\"]"),
        )
    }
}

/// Papers frequently co-cited with a set but not yet in it.
pub fn citation_helper_request(bibcodes: &Vec<String>) -> (r: ApiRequest)
    ensures
        json_call(
            r,
            HttpMethod::Post,
            "/citation_helper"@,
            "{\""@ + "bibcodes"@ + "\":"@ + json_list(strings_view(bibcodes@)) + ""@ + "}"@,
        ),
{
    json_request(HttpMethod::Post, text("/citation_helper"), list_body("bibcodes", bibcodes, ""))
}

/// The object queries for a set of object names: `object:"<name>"` each.
pub open spec fn object_terms(objects: Seq<Seq<char>>) -> Seq<Seq<char>> {
    objects.map_values(|o: Seq<char>| "object:\""@ + o + "\""@)
}

/// Resolution of astronomical object names to the papers about them.
pub fn objects_request(objects: &Vec<String>) -> (r: ApiRequest)
    ensures
        json_call(
            r,
            HttpMethod::Post,
            "/objects"@,
            "{\""@ + "query"@ + "\":"@ + json_list(object_terms(strings_view(objects@))) + ""@
                + "}"@,
        ),
{
    let mut terms: Vec<String> = Vec::new();
    let mut i: usize = 0;
    while i < objects.len()
        invariant
            i <= objects@.len(),
            strings_view(terms@) == object_terms(strings_view(objects@.take(i as int))),
        decreases objects.len() - i,
    {
        let mut t = String::from_str("object:\"");
        push_str(&mut t, objects[i].as_str());
        push_str(&mut t, "\"");
        let ghost before = terms@;
        let ghost tv = t@;
        terms.push(t);
        proof {
            assert(strings_view(objects@.take(i + 1)) =~= strings_view(objects@.take(i as int)).push(objects@[i as int]@));
            assert(strings_view(terms@) =~= strings_view(before).push(tv));
            assert(strings_view(terms@) =~= object_terms(strings_view(objects@.take(i + 1))));
        }
        i = i + 1;
    }
    proof {
        assert(objects@.take(objects@.len() as int) =~= objects@);
    }
    json_request(HttpMethod::Post, text("/objects"), list_body("query", &terms, ""))
}

/// The links of a paper, of one type or of all.
pub fn links_request(bibcode: &str, link_type: Option<&str>) -> (r: ApiRequest)
    ensures
        bare_call(
            r,
            HttpMethod::Get,
            "/resolver/"@ + bibcode@ + match opt_str(link_type) {
                Some(t) => "/"@ + t,
                None => Seq::empty(),
            },
        ),
{
    let mut path = path_with("/resolver/", bibcode);
    match link_type {
        Some(t) => {
            push_str(&mut path, "/");
            push_str(&mut path, t);
        },
        None => {},
    }
    proof {
        assert(path@ =~= "/resolver/"@ + bibcode@ + match opt_str(link_type) {
            Some(t) => "/"@ + t,
            None => Seq::empty(),
        });
    }
    bare_request(HttpMethod::Get, path)
}

/// Resolution of free-text references: one per line, sent as plain text.
pub fn references_request(references: &Vec<String>) -> (r: ApiRequest)
    ensures
        r.method == HttpMethod::Post,
        r.path@ == "/reference/text"@,
        r.query@.len() == 0,
        body_view(r.body) == Some(joined(strings_view(references@), "\n"@)),
        r.plain_text,
{
    let body = crate::query::join_strings(references, "\n");
    ApiRequest {
        method: HttpMethod::Post,
        path: text("/reference/text"),
        query: Vec::new(),
        body: Some(body),
        plain_text: true,
    }
}

/// A JSON member `"key":<value text>`.
pub open spec fn member(key: Seq<char>, value: Seq<char>) -> Seq<char> {
    json_quoted(key) + ":"@ + value
}

pub open spec fn bool_text(b: bool) -> Seq<char> {
    if b {
        "true"@
    } else {
        "false"@
    }
}

fn member_text(key: &str, value: &str) -> (r: String)
    ensures
        r@ == member(key@, value@),
{
    let mut m = quote_json(key);
    push_str(&mut m, ":");
    push_str(&mut m, value);
    m
}

fn quoted_member(key: &str, value: &str) -> (r: String)
    ensures
        r@ == member(key@, json_quoted(value@)),
{
    let q = quote_json(value);
    member_text(key, q.as_str())
}

fn bool_member(key: &str, value: bool) -> (r: String)
    ensures
        r@ == member(key@, bool_text(value)),
{
    if value {
        member_text(key, "true")
    } else {
        member_text(key, "false")
    }
}

fn list_member(key: &str, items: &Vec<String>) -> (r: String)
    ensures
        r@ == member(key@, json_list(strings_view(items@))),
{
    let mut l = String::new();
    push_json_list(&mut l, items);
    proof {
        assert(l@ =~= json_list(strings_view(items@)));
    }
    member_text(key, l.as_str())
}

/// A JSON object of the members, in order.
pub open spec fn object_text(members: Seq<Seq<char>>) -> Seq<char> {
    "{"@ + joined(members, ","@) + "}"@
}

fn object_of(members: &Vec<String>) -> (r: String)
    ensures
        r@ == object_text(strings_view(members@)),
{
    let inner = crate::query::join_strings(members, ",");
    let mut o = String::from_str("{");
    push_str(&mut o, inner.as_str());
    push_str(&mut o, "}");
    proof {
        assert(o@ =~= object_text(strings_view(members@)));
    }
    o
}

/// The libraries of the user.
pub fn list_libraries_request() -> (r: ApiRequest)
    ensures
        bare_call(r, HttpMethod::Get, "/biblib/libraries"@),
{
    bare_request(HttpMethod::Get, text("/biblib/libraries"))
}

/// One library with its documents.
pub fn get_library_request(id: &str) -> (r: ApiRequest)
    ensures
        bare_call(r, HttpMethod::Get, "/biblib/libraries/"@ + id@),
{
    bare_request(HttpMethod::Get, path_with("/biblib/libraries/", id))
}

pub open spec fn create_members(
    name: Seq<char>,
    description: Seq<char>,
    public: bool,
    bibcodes: Option<Seq<Seq<char>>>,
) -> Seq<Seq<char>> {
    (match bibcodes {
        Some(b) => seq![member("bibcode"@, json_list(b))],
        None => Seq::empty(),
    }) + seq![
        member("description"@, json_quoted(description)),
        member("name"@, json_quoted(name)),
        member("public"@, bool_text(public)),
    ]
}

pub open spec fn opt_strings_ref(o: Option<&Vec<String>>) -> Option<Seq<Seq<char>>> {
    match o {
        Some(v) => Some(strings_view(v@)),
        None => None,
    }
}

/// A new library, with its first documents when given.
pub fn create_library_request(
    name: &str,
    description: &str,
    public: bool,
    bibcodes: Option<&Vec<String>>,
) -> (r: ApiRequest)
    ensures
        json_call(
            r,
            HttpMethod::Post,
            "/biblib/libraries"@,
            object_text(create_members(name@, description@, public, opt_strings_ref(bibcodes))),
        ),
{
    let mut members: Vec<String> = Vec::new();
    match bibcodes {
        Some(b) => members.push(list_member("bibcode", b)),
        None => {},
    }
    members.push(quoted_member("description", description));
    members.push(quoted_member("name", name));
    members.push(bool_member("public", public));
    proof {
        assert(strings_view(members@) =~= create_members(
            name@,
            description@,
            public,
            opt_strings_ref(bibcodes),
        ));
    }
    json_request(HttpMethod::Post, text("/biblib/libraries"), object_of(&members))
}

pub open spec fn edit_members(
    name: Option<Seq<char>>,
    description: Option<Seq<char>>,
    public: Option<bool>,
) -> Seq<Seq<char>> {
    (match description {
        Some(d) => seq![member("description"@, json_quoted(d))],
        None => Seq::empty(),
    }) + match name {
        Some(n) => seq![member("name"@, json_quoted(n))],
        None => Seq::empty(),
    } + match public {
        Some(p) => seq![member("public"@, bool_text(p))],
        None => Seq::empty(),
    }
}

/// New metadata for a library: only the given fields change.
pub fn edit_library_request(
    id: &str,
    name: Option<&str>,
    description: Option<&str>,
    public: Option<bool>,
) -> (r: ApiRequest)
    ensures
        json_call(
            r,
            HttpMethod::Put,
            "/biblib/documents/"@ + id@,
            object_text(edit_members(opt_str(name), opt_str(description), public)),
        ),
{
    let mut members: Vec<String> = Vec::new();
    match description {
        Some(d) => members.push(quoted_member("description", d)),
        None => {},
    }
    let ghost m1 = strings_view(members@);
    match name {
        Some(n) => members.push(quoted_member("name", n)),
        None => {},
    }
    match public {
        Some(p) => members.push(bool_member("public", p)),
        None => {},
    }
    proof {
        assert(m1 =~= match opt_str(description) {
            Some(d) => seq![member("description"@, json_quoted(d))],
            None => Seq::empty(),
        });
        assert(strings_view(members@) =~= edit_members(opt_str(name), opt_str(description), public));
    }
    json_request(HttpMethod::Put, path_with("/biblib/documents/", id), object_of(&members))
}

/// Deletion of a library.
pub fn delete_library_request(id: &str) -> (r: ApiRequest)
    ensures
        bare_call(r, HttpMethod::Delete, "/biblib/documents/"@ + id@),
{
    bare_request(HttpMethod::Delete, path_with("/biblib/documents/", id))
}

/// Adding documents to a library, or removing them.
pub fn library_documents_request(library_id: &str, bibcodes: &Vec<String>, add: bool) -> (r:
    ApiRequest)
    ensures
        json_call(
            r,
            HttpMethod::Post,
            "/biblib/documents/"@ + library_id@,
            object_text(
                seq![
                    member("action"@, json_quoted(if add { "add"@ } else { "remove"@ })),
                    member("bibcode"@, json_list(strings_view(bibcodes@))),
                ],
            ),
        ),
{
    let mut members: Vec<String> = Vec::new();
    if add {
        members.push(quoted_member("action", "add"));
    } else {
        members.push(quoted_member("action", "remove"));
    }
    members.push(list_member("bibcode", bibcodes));
    proof {
        assert(strings_view(members@) =~= seq![
            member("action"@, json_quoted(if add { "add"@ } else { "remove"@ })),
            member("bibcode"@, json_list(strings_view(bibcodes@))),
        ]);
    }
    json_request(HttpMethod::Post, path_with("/biblib/documents/", library_id), object_of(&members))
}

/// The permissions on a library.
pub fn permissions_request(library_id: &str) -> (r: ApiRequest)
    ensures
        bare_call(r, HttpMethod::Get, "/biblib/permissions/"@ + library_id@),
{
    bare_request(HttpMethod::Get, path_with("/biblib/permissions/", library_id))
}

/// A collaborator's permission on a library.
pub fn update_permissions_request(library_id: &str, email: &str, permission: &str) -> (r:
    ApiRequest)
    ensures
        json_call(
            r,
            HttpMethod::Post,
            "/biblib/permissions/"@ + library_id@,
            object_text(
                seq![
                    member("email"@, json_quoted(email@)),
                    member("permission"@, json_quoted(permission@)),
                ],
            ),
        ),
{
    let mut members: Vec<String> = Vec::new();
    members.push(quoted_member("email", email));
    members.push(quoted_member("permission", permission));
    proof {
        assert(strings_view(members@) =~= seq![
            member("email"@, json_quoted(email@)),
            member("permission"@, json_quoted(permission@)),
        ]);
    }
    json_request(HttpMethod::Post, path_with("/biblib/permissions/", library_id), object_of(&members))
}

/// Transfer of a library to another owner.
pub fn transfer_request(library_id: &str, email: &str) -> (r: ApiRequest)
    ensures
        json_call(
            r,
            HttpMethod::Post,
            "/biblib/transfer/"@ + library_id@,
            object_text(seq![member("email"@, json_quoted(email@))]),
        ),
{
    let mut members: Vec<String> = Vec::new();
    members.push(quoted_member("email", email));
    proof {
        assert(strings_view(members@) =~= seq![member("email"@, json_quoted(email@))]);
    }
    json_request(HttpMethod::Post, path_with("/biblib/transfer/", library_id), object_of(&members))
}

/// The path of the note on a paper in a library.
pub open spec fn note_path(library_id: Seq<char>, bibcode: Seq<char>) -> Seq<char> {
    "/biblib/libraries/"@ + library_id + "/notes/"@ + bibcode
}

fn note_path_of(library_id: &str, bibcode: &str) -> (r: String)
    ensures
        r@ == note_path(library_id@, bibcode@),
{
    let mut p = path_with("/biblib/libraries/", library_id);
    push_str(&mut p, "/notes/");
    push_str(&mut p, bibcode);
    proof {
        assert(p@ =~= note_path(library_id@, bibcode@));
    }
    p
}

/// The note on a paper in a library.
pub fn get_annotation_request(library_id: &str, bibcode: &str) -> (r: ApiRequest)
    ensures
        bare_call(r, HttpMethod::Get, note_path(library_id@, bibcode@)),
{
    bare_request(HttpMethod::Get, note_path_of(library_id, bibcode))
}

/// Setting the note on a paper in a library.
pub fn set_annotation_request(library_id: &str, bibcode: &str, content: &str) -> (r: ApiRequest)
    ensures
        json_call(
            r,
            HttpMethod::Post,
            note_path(library_id@, bibcode@),
            object_text(seq![member("content"@, json_quoted(content@))]),
        ),
{
    let mut members: Vec<String> = Vec::new();
    members.push(quoted_member("content", content));
    proof {
        assert(strings_view(members@) =~= seq![member("content"@, json_quoted(content@))]);
    }
    json_request(HttpMethod::Post, note_path_of(library_id, bibcode), object_of(&members))
}

/// Deleting the note on a paper in a library.
pub fn delete_annotation_request(library_id: &str, bibcode: &str) -> (r: ApiRequest)
    ensures
        bare_call(r, HttpMethod::Delete, note_path(library_id@, bibcode@)),
{
    bare_request(HttpMethod::Delete, note_path_of(library_id, bibcode))
}

/// A set operation on a library, with the source libraries when given.
pub fn library_operation_request(
    library_id: &str,
    action: &str,
    libraries: Option<&Vec<String>>,
) -> (r: ApiRequest)
    ensures
        json_call(
            r,
            HttpMethod::Post,
            "/biblib/libraries/operations/"@ + library_id@,
            object_text(
                seq![member("action"@, json_quoted(action@))] + match opt_strings_ref(libraries) {
                    Some(l) => seq![member("libraries"@, json_list(l))],
                    None => Seq::empty(),
                },
            ),
        ),
{
    let mut members: Vec<String> = Vec::new();
    members.push(quoted_member("action", action));
    match libraries {
        Some(l) => members.push(list_member("libraries", l)),
        None => {},
    }
    proof {
        assert(strings_view(members@) =~= seq![member("action"@, json_quoted(action@))]
            + match opt_strings_ref(libraries) {
            Some(l) => seq![member("libraries"@, json_list(l))],
            None => Seq::empty(),
        });
    }
    json_request(
        HttpMethod::Post,
        path_with("/biblib/libraries/operations/", library_id),
        object_of(&members),
    )
}

} // verus!
