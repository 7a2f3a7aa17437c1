//! The tool dispatch table: each tool's arguments are checked and read into
//! a typed request before any outbound call is made.

use vstd::prelude::*;

use crate::json::{
    field, get_bool, get_field, get_str, get_string_list, get_u64, opt_ref, str_of, string_list,
    strings_view, bool_of, u64_of, JsonValue,
};
use crate::parse::DEFAULT_SEARCH_FIELDS;
use crate::text::{decimal, push_decimal, push_str, same_text, words};
use crate::types::{
    format_named, lower_of, opt_view, parse_sort, sort_of_words, ExportFormat, Sort,
};

verus! {

/// A library-management action with its arguments.
#[allow(inconsistent_fields)]
#[derive(Debug)]
pub enum LibraryRequest {
    List,
    Get { id: String },
    Create { name: String, description: String, public: bool },
    Delete { id: String },
    Edit { id: String, name: Option<String>, description: Option<String>, public: Option<bool> },
    Permissions { id: String },
    UpdatePermissions { id: String, email: String, permission: String },
    Transfer { id: String, email: String },
}

/// An action on the documents of one library, with its arguments.
#[derive(Debug)]
pub enum DocumentRequest {
    Add { bibcodes: Vec<String> },
    Remove { bibcodes: Vec<String> },
    GetNotes { bibcode: String },
    SetNote { bibcode: String, content: String },
    DeleteNote { bibcode: String },
    Operation { action: String, libraries: Option<Vec<String>> },
    AddByQuery { query: String, rows: Option<u32> },
}

/// A checked tool invocation.
#[allow(inconsistent_fields)]
#[derive(Debug)]
pub enum ToolRequest {
    Search { query: String, fields: String, sort: Option<Sort>, rows: u32, start: u32 },
    Bigquery { bibcodes: Vec<String>, query: Option<String> },
    Export { bibcodes: Vec<String>, format: ExportFormat },
    Metrics { bibcodes: Vec<String> },
    Library(LibraryRequest),
    LibraryDocuments { library_id: String, action: DocumentRequest },
    CitationHelper { bibcodes: Vec<String> },
    Network { bibcodes: Vec<String>, paper: bool },
    ObjectSearch { objects: Vec<String> },
    ResolveReference { references: Vec<String> },
    ResolveLinks { bibcode: String, link_type: Option<String> },
    GetPaper { bibcode: String },
}

pub open spec fn arg_str(args: Option<JsonValue>, key: Seq<char>) -> Option<Seq<char>> {
    str_of(field(args, key))
}

pub open spec fn arg_list(args: Option<JsonValue>, key: Seq<char>) -> Option<Seq<Seq<char>>> {
    string_list(field(args, key))
}

/// The low 32 bits of a number, as `as u32` keeps them.
pub open spec fn low32(n: nat) -> nat {
    n % 0x1_0000_0000
}

pub open spec fn is_bibcode_list_tool(name: Seq<char>) -> bool {
    name == "scix_bigquery"@ || name == "scix_export"@ || name == "scix_metrics"@ || name
        == "scix_citation_helper"@ || name == "scix_network"@
}

pub open spec fn needs_id(action: Seq<char>) -> bool {
    action == "get"@ || action == "delete"@ || action == "edit"@ || action == "permissions"@
        || action == "update_permissions"@ || action == "transfer"@
}

pub open spec fn is_set_operation(action: Seq<char>) -> bool {
    action == "union"@ || action == "intersection"@ || action == "difference"@ || action
        == "copy"@ || action == "empty"@
}

/// Why the arguments of a library action are refused, if they are.
pub open spec fn library_problem(args: Option<JsonValue>) -> Option<Seq<char>> {
    match arg_str(args, "action"@) {
        None => Some("'action' parameter required"@),
        Some(a) => if a == "list"@ {
            None
        } else if a == "create"@ {
            if arg_str(args, "name"@) is None {
                Some("'name' required for create"@)
            } else {
                None
            }
        } else if needs_id(a) {
            if arg_str(args, "id"@) is None {
                Some("'id' required for "@ + a)
            } else if (a == "update_permissions"@ || a == "transfer"@) && arg_str(args, "email"@)
                is None {
                Some("'email' required for "@ + a)
            } else if a == "update_permissions"@ && arg_str(args, "permission"@) is None {
                Some("'permission' required for update_permissions"@)
            } else {
                None
            }
        } else {
            Some("Unknown library action: "@ + a)
        },
    }
}

/// Why the arguments of a document action are refused, if they are.
pub open spec fn documents_problem(args: Option<JsonValue>) -> Option<Seq<char>> {
    match arg_str(args, "action"@) {
        None => Some("'action' parameter required"@),
        Some(a) => if arg_str(args, "library_id"@) is None {
            Some("'library_id' required"@)
        } else if a == "add"@ || a == "remove"@ {
            if arg_list(args, "bibcodes"@) is None {
                Some("'bibcodes' array required"@)
            } else {
                None
            }
        } else if a == "get_notes"@ || a == "delete_note"@ {
            if arg_str(args, "bibcode"@) is None {
                Some("'bibcode' required for "@ + a)
            } else {
                None
            }
        } else if a == "add_note"@ || a == "edit_note"@ {
            if arg_str(args, "bibcode"@) is None {
                Some("'bibcode' required for add_note/edit_note"@)
            } else if arg_str(args, "content"@) is None {
                Some("'content' required for add_note/edit_note"@)
            } else {
                None
            }
        } else if is_set_operation(a) {
            None
        } else if a == "add_by_query"@ {
            if arg_str(args, "query"@) is None {
                Some("'query' required for add_by_query"@)
            } else {
                None
            }
        } else {
            Some("Unknown document action: "@ + a)
        },
    }
}

/// Why a call of tool `name` with `args` is refused, if it is: a required
/// argument is missing or of the wrong shape, or the tool is unknown.
pub open spec fn tool_problem(name: Seq<char>, args: Option<JsonValue>) -> Option<Seq<char>> {
    if name == "scix_search"@ {
        if arg_str(args, "query"@) is None {
            Some("'query' parameter required"@)
        } else {
            None
        }
    } else if is_bibcode_list_tool(name) {
        if arg_list(args, "bibcodes"@) is None {
            Some("'bibcodes' array required"@)
        } else {
            None
        }
    } else if name == "scix_library"@ {
        library_problem(args)
    } else if name == "scix_library_documents"@ {
        documents_problem(args)
    } else if name == "scix_object_search"@ {
        if arg_list(args, "objects"@) is None {
            Some("'objects' array required"@)
        } else {
            None
        }
    } else if name == "scix_resolve_reference"@ {
        if arg_list(args, "references"@) is None {
            Some("'references' array required"@)
        } else {
            None
        }
    } else if name == "scix_resolve_links"@ || name == "scix_get_paper"@ {
        if arg_str(args, "bibcode"@) is None {
            Some("'bibcode' required"@)
        } else {
            None
        }
    } else {
        Some("Unknown tool: "@ + name)
    }
}

pub open spec fn opt_strings(o: Option<Vec<String>>) -> Option<Seq<Seq<char>>> {
    match o {
        Some(v) => Some(strings_view(v@)),
        None => None,
    }
}

pub open spec fn or_default(o: Option<Seq<char>>, d: Seq<char>) -> Seq<char> {
    match o {
        Some(s) => s,
        None => d,
    }
}

/// Whether `r` reads the arguments of a library action.
pub open spec fn library_fits(r: LibraryRequest, args: Option<JsonValue>) -> bool {
    let a = arg_str(args, "action"@);
    match r {
        LibraryRequest::List => a == Some("list"@),
        LibraryRequest::Get { id } => a == Some("get"@) && arg_str(args, "id"@) == Some(id@),
        LibraryRequest::Create { name, description, public } => a == Some("create"@) && arg_str(
            args,
            "name"@,
        ) == Some(name@) && description@ == or_default(arg_str(args, "description"@), ""@)
            && public == (bool_of(field(args, "public"@)) == Some(true)),
        LibraryRequest::Delete { id } => a == Some("delete"@) && arg_str(args, "id"@) == Some(id@),
        LibraryRequest::Edit { id, name, description, public } => a == Some("edit"@) && arg_str(
            args,
            "id"@,
        ) == Some(id@) && opt_view(name) == arg_str(args, "name"@) && opt_view(description)
            == arg_str(args, "description"@) && public == bool_of(field(args, "public"@)),
        LibraryRequest::Permissions { id } => a == Some("permissions"@) && arg_str(args, "id"@)
            == Some(id@),
        LibraryRequest::UpdatePermissions { id, email, permission } => a == Some(
            "update_permissions"@,
        ) && arg_str(args, "id"@) == Some(id@) && arg_str(args, "email"@) == Some(email@)
            && arg_str(args, "permission"@) == Some(permission@),
        LibraryRequest::Transfer { id, email } => a == Some("transfer"@) && arg_str(args, "id"@)
            == Some(id@) && arg_str(args, "email"@) == Some(email@),
    }
}

/// Whether `r` reads the arguments of a document action.
pub open spec fn document_fits(r: DocumentRequest, args: Option<JsonValue>) -> bool {
    let a = arg_str(args, "action"@);
    match r {
        DocumentRequest::Add { bibcodes } => a == Some("add"@) && arg_list(args, "bibcodes"@)
            == Some(strings_view(bibcodes@)),
        DocumentRequest::Remove { bibcodes } => a == Some("remove"@) && arg_list(args, "bibcodes"@)
            == Some(strings_view(bibcodes@)),
        DocumentRequest::GetNotes { bibcode } => a == Some("get_notes"@) && arg_str(
            args,
            "bibcode"@,
        ) == Some(bibcode@),
        DocumentRequest::SetNote { bibcode, content } => (a == Some("add_note"@) || a == Some(
            "edit_note"@,
        )) && arg_str(args, "bibcode"@) == Some(bibcode@) && arg_str(args, "content"@) == Some(
            content@,
        ),
        DocumentRequest::DeleteNote { bibcode } => a == Some("delete_note"@) && arg_str(
            args,
            "bibcode"@,
        ) == Some(bibcode@),
        DocumentRequest::Operation { action, libraries } => a == Some(action@) && is_set_operation(
            action@,
        ) && opt_strings(libraries) == arg_list(args, "libraries"@),
        DocumentRequest::AddByQuery { query, rows } => a == Some("add_by_query"@) && arg_str(
            args,
            "query"@,
        ) == Some(query@) && match rows {
            Some(n) => u64_of(field(args, "rows"@)) is Some && n == low32(
                u64_of(field(args, "rows"@)).unwrap(),
            ),
            None => u64_of(field(args, "rows"@)) is None,
        },
    }
}

/// Whether `r` reads the arguments of a call of tool `name`.
pub open spec fn request_fits(r: ToolRequest, name: Seq<char>, args: Option<JsonValue>) -> bool {
    match r {
        ToolRequest::Search { query, fields, sort, rows, start } => name == "scix_search"@ && arg_str(
            args,
            "query"@,
        ) == Some(query@) && fields@ == or_default(arg_str(args, "fields"@), DEFAULT_SEARCH_FIELDS@)
            && rows == low32(
            match u64_of(field(args, "rows"@)) {
                Some(n) => n,
                None => 10,
            },
        ) && start == low32(
            match u64_of(field(args, "start"@)) {
                Some(n) => n,
                None => 0,
            },
        ) && match sort {
            Some(s) => arg_str(args, "sort"@) is Some && (s.field@, s.direction) == sort_of_words(
                words(arg_str(args, "sort"@).unwrap()),
            ),
            None => arg_str(args, "sort"@) is None,
        },
        ToolRequest::Bigquery { bibcodes, query } => name == "scix_bigquery"@ && arg_list(
            args,
            "bibcodes"@,
        ) == Some(strings_view(bibcodes@)) && opt_view(query) == arg_str(args, "query"@),
        ToolRequest::Export { bibcodes, format } => name == "scix_export"@ && arg_list(
            args,
            "bibcodes"@,
        ) == Some(strings_view(bibcodes@)) && format == match format_named(
            lower_of(or_default(arg_str(args, "format"@), "bibtex"@)),
        ) {
            Some(f) => f,
            None => ExportFormat::BibTeX,
        },
        ToolRequest::Metrics { bibcodes } => name == "scix_metrics"@ && arg_list(args, "bibcodes"@)
            == Some(strings_view(bibcodes@)),
        ToolRequest::Library(l) => name == "scix_library"@ && library_fits(l, args),
        ToolRequest::LibraryDocuments { library_id, action } => name == "scix_library_documents"@
            && arg_str(args, "library_id"@) == Some(library_id@) && document_fits(action, args),
        ToolRequest::CitationHelper { bibcodes } => name == "scix_citation_helper"@ && arg_list(
            args,
            "bibcodes"@,
        ) == Some(strings_view(bibcodes@)),
        ToolRequest::Network { bibcodes, paper } => name == "scix_network"@ && arg_list(
            args,
            "bibcodes"@,
        ) == Some(strings_view(bibcodes@)) && paper == (arg_str(args, "type"@) == Some(
            "paper"@,
        )),
        ToolRequest::ObjectSearch { objects } => name == "scix_object_search"@ && arg_list(
            args,
            "objects"@,
        ) == Some(strings_view(objects@)),
        ToolRequest::ResolveReference { references } => name == "scix_resolve_reference"@
            && arg_list(args, "references"@) == Some(strings_view(references@)),
        ToolRequest::ResolveLinks { bibcode, link_type } => name == "scix_resolve_links"@ && arg_str(
            args,
            "bibcode"@,
        ) == Some(bibcode@) && opt_view(link_type) == arg_str(args, "link_type"@),
        ToolRequest::GetPaper { bibcode } => name == "scix_get_paper"@ && arg_str(args, "bibcode"@)
            == Some(bibcode@),
    }
}

fn text_arg(args: Option<&JsonValue>, key: &str) -> (r: Option<String>)
    ensures
        opt_view(r) == arg_str(opt_ref(args), key@),
{
    match get_str(get_field(args, key)) {
        Some(s) => Some(String::from_str(s)),
        None => None,
    }
}

fn required_text(args: Option<&JsonValue>, key: &str, problem: &str) -> (r: Result<String, String>)
    ensures
        match r {
            Ok(s) => arg_str(opt_ref(args), key@) == Some(s@),
            Err(m) => arg_str(opt_ref(args), key@) is None && m@ == problem@,
        },
{
    match text_arg(args, key) {
        Some(s) => Ok(s),
        None => Err(String::from_str(problem)),
    }
}

fn list_arg(args: Option<&JsonValue>, key: &str, problem: &str) -> (r: Result<Vec<String>, String>)
    ensures
        match r {
            Ok(l) => arg_list(opt_ref(args), key@) == Some(strings_view(l@)),
            Err(m) => arg_list(opt_ref(args), key@) is None && m@ == problem@,
        },
{
    match get_string_list(get_field(args, key)) {
        Some(l) => Ok(l),
        None => Err(String::from_str(problem)),
    }
}

fn low_bits(n: u64) -> (r: u32)
    ensures
        r as nat == low32(n as nat),
{
    (n % 0x1_0000_0000) as u32
}

fn concat(a: &str, b: &str) -> (r: String)
    ensures
        r@ == a@ + b@,
{
    let mut s = String::from_str(a);
    push_str(&mut s, b);
    s
}

fn library_request(args: Option<&JsonValue>) -> (r: Result<LibraryRequest, String>)
    ensures
        match r {
            Ok(l) => library_problem(opt_ref(args)) is None && library_fits(l, opt_ref(args)),
            Err(m) => library_problem(opt_ref(args)) == Some(m@),
        },
{
    let action = match required_text(args, "action", "'action' parameter required") {
        Ok(a) => a,
        Err(m) => return Err(m),
    };
    let a = action.as_str();
    proof {
        reveal_strlit("list");
        reveal_strlit("");
        reveal_strlit("create");
        reveal_strlit("get");
        reveal_strlit("delete");
        reveal_strlit("edit");
        reveal_strlit("permissions");
        reveal_strlit("update_permissions");
        reveal_strlit("transfer");
    }
    if same_text(a, "list") {
        return Ok(LibraryRequest::List);
    }
    if same_text(a, "create") {
        let name = match required_text(args, "name", "'name' required for create") {
            Ok(n) => n,
            Err(m) => return Err(m),
        };
        let description = match text_arg(args, "description") {
            Some(d) => d,
            None => String::new(),
        };
        let public = match get_bool(get_field(args, "public")) {
            Some(b) => b,
            None => false,
        };
        let r = LibraryRequest::Create { name, description, public };
        proof {
            let av = opt_ref(args);
            assert(arg_str(av, "action"@) == Some("create"@));
            assert(arg_str(av, "name"@) == Some(name@));
            assert(description@ == or_default(arg_str(av, "description"@), ""@));
            assert(public == (bool_of(field(av, "public"@)) == Some(true)));
            assert(library_problem(av) is None);
        }
        return Ok(r);
    }
    let is_get = same_text(a, "get");
    let is_delete = same_text(a, "delete");
    let is_edit = same_text(a, "edit");
    let is_permissions = same_text(a, "permissions");
    let is_update = same_text(a, "update_permissions");
    let is_transfer = same_text(a, "transfer");
    if !(is_get || is_delete || is_edit || is_permissions || is_update || is_transfer) {
        return Err(concat("Unknown library action: ", a));
    }
    let id = match text_arg(args, "id") {
        Some(i) => i,
        None => return Err(concat("'id' required for ", a)),
    };
    if is_get {
        Ok(LibraryRequest::Get { id })
    } else if is_delete {
        Ok(LibraryRequest::Delete { id })
    } else if is_edit {
        let name = text_arg(args, "name");
        let description = text_arg(args, "description");
        let public = get_bool(get_field(args, "public"));
        Ok(LibraryRequest::Edit { id, name, description, public })
    } else if is_permissions {
        Ok(LibraryRequest::Permissions { id })
    } else {
        let email = match text_arg(args, "email") {
            Some(e) => e,
            None => return Err(concat("'email' required for ", a)),
        };
        if is_update {
            let permission = match required_text(
                args,
                "permission",
                "'permission' required for update_permissions",
            ) {
                Ok(p) => p,
                Err(m) => return Err(m),
            };
            Ok(LibraryRequest::UpdatePermissions { id, email, permission })
        } else {
            Ok(LibraryRequest::Transfer { id, email })
        }
    }
}

fn documents_request(args: Option<&JsonValue>) -> (r: Result<(String, DocumentRequest), String>)
    ensures
        match r {
            Ok((lib, d)) => documents_problem(opt_ref(args)) is None && arg_str(
                opt_ref(args),
                "library_id"@,
            ) == Some(lib@) && document_fits(d, opt_ref(args)),
            Err(m) => documents_problem(opt_ref(args)) == Some(m@),
        },
{
    let action = match required_text(args, "action", "'action' parameter required") {
        Ok(a) => a,
        Err(m) => return Err(m),
    };
    let library_id = match required_text(args, "library_id", "'library_id' required") {
        Ok(l) => l,
        Err(m) => return Err(m),
    };
    let a = action.as_str();
    proof {
        reveal_strlit("add");
        reveal_strlit("remove");
        reveal_strlit("get_notes");
        reveal_strlit("delete_note");
        reveal_strlit("add_note");
        reveal_strlit("edit_note");
        reveal_strlit("union");
        reveal_strlit("intersection");
        reveal_strlit("difference");
        reveal_strlit("copy");
        reveal_strlit("empty");
        reveal_strlit("add_by_query");
    }
    if same_text(a, "add") || same_text(a, "remove") {
        let bibcodes = match list_arg(args, "bibcodes", "'bibcodes' array required") {
            Ok(l) => l,
            Err(m) => return Err(m),
        };
        if same_text(a, "add") {
            Ok((library_id, DocumentRequest::Add { bibcodes }))
        } else {
            Ok((library_id, DocumentRequest::Remove { bibcodes }))
        }
    } else if same_text(a, "get_notes") || same_text(a, "delete_note") {
        let bibcode = match text_arg(args, "bibcode") {
            Some(b) => b,
            None => return Err(concat("'bibcode' required for ", a)),
        };
        if same_text(a, "get_notes") {
            Ok((library_id, DocumentRequest::GetNotes { bibcode }))
        } else {
            Ok((library_id, DocumentRequest::DeleteNote { bibcode }))
        }
    } else if same_text(a, "add_note") || same_text(a, "edit_note") {
        let bibcode = match required_text(
            args,
            "bibcode",
            "'bibcode' required for add_note/edit_note",
        ) {
            Ok(b) => b,
            Err(m) => return Err(m),
        };
        let content = match required_text(
            args,
            "content",
            "'content' required for add_note/edit_note",
        ) {
            Ok(c) => c,
            Err(m) => return Err(m),
        };
        Ok((library_id, DocumentRequest::SetNote { bibcode, content }))
    } else if same_text(a, "union") || same_text(a, "intersection") || same_text(a, "difference")
        || same_text(a, "copy") || same_text(a, "empty") {
        let libraries = get_string_list(get_field(args, "libraries"));
        Ok((library_id, DocumentRequest::Operation { action: String::from_str(a), libraries }))
    } else if same_text(a, "add_by_query") {
        let query = match required_text(args, "query", "'query' required for add_by_query") {
            Ok(q) => q,
            Err(m) => return Err(m),
        };
        let rows = match get_u64(get_field(args, "rows")) {
            Some(n) => Some(low_bits(n)),
            None => None,
        };
        Ok((library_id, DocumentRequest::AddByQuery { query, rows }))
    } else {
        Err(concat("Unknown document action: ", a))
    }
}

impl ToolRequest {
    /// Checks the arguments of a call of tool `name` and reads them into a
    /// request; refuses, with the reason, a missing or mistyped required
    /// argument or an unknown tool.
    pub fn from_call(name: &str, args: Option<&JsonValue>) -> (r: Result<ToolRequest, String>)
        ensures
            match r {
                Ok(req) => tool_problem(name@, opt_ref(args)) is None && request_fits(
                    req,
                    name@,
                    opt_ref(args),
                ),
                Err(m) => tool_problem(name@, opt_ref(args)) == Some(m@),
            },
    {
        proof {
            reveal_strlit("scix_search");
            reveal_strlit("scix_bigquery");
            reveal_strlit("scix_export");
            reveal_strlit("scix_metrics");
            reveal_strlit("scix_library");
            reveal_strlit("scix_library_documents");
            reveal_strlit("scix_citation_helper");
            reveal_strlit("scix_network");
            reveal_strlit("scix_object_search");
            reveal_strlit("scix_resolve_reference");
            reveal_strlit("scix_resolve_links");
            reveal_strlit("scix_get_paper");
        }
        if same_text(name, "scix_search") {
            let query = match required_text(args, "query", "'query' parameter required") {
                Ok(q) => q,
                Err(m) => return Err(m),
            };
            let rows = match get_u64(get_field(args, "rows")) {
                Some(n) => low_bits(n),
                None => 10,
            };
            let start = match get_u64(get_field(args, "start")) {
                Some(n) => low_bits(n),
                None => 0,
            };
            let sort = match get_str(get_field(args, "sort")) {
                Some(s) => Some(parse_sort(s)),
                None => None,
            };
            let fields = match text_arg(args, "fields") {
                Some(f) => f,
                None => String::from_str(DEFAULT_SEARCH_FIELDS),
            };
            Ok(ToolRequest::Search { query, fields, sort, rows, start })
        } else if same_text(name, "scix_bigquery") || same_text(name, "scix_export") || same_text(
            name,
            "scix_metrics",
        ) || same_text(name, "scix_citation_helper") || same_text(name, "scix_network") {
            let bibcodes = match list_arg(args, "bibcodes", "'bibcodes' array required") {
                Ok(l) => l,
                Err(m) => return Err(m),
            };
            if same_text(name, "scix_bigquery") {
                Ok(ToolRequest::Bigquery { bibcodes, query: text_arg(args, "query") })
            } else if same_text(name, "scix_export") {
                let format = match get_str(get_field(args, "format")) {
                    Some(f) => ExportFormat::from_str_loose(f),
                    None => ExportFormat::from_str_loose("bibtex"),
                };
                let format = match format {
                    Some(f) => f,
                    None => ExportFormat::BibTeX,
                };
                Ok(ToolRequest::Export { bibcodes, format })
            } else if same_text(name, "scix_metrics") {
                Ok(ToolRequest::Metrics { bibcodes })
            } else if same_text(name, "scix_citation_helper") {
                Ok(ToolRequest::CitationHelper { bibcodes })
            } else {
                let paper = match get_str(get_field(args, "type")) {
                    Some(t) => same_text(t, "paper"),
                    None => false,
                };
                Ok(ToolRequest::Network { bibcodes, paper })
            }
        } else if same_text(name, "scix_library") {
            match library_request(args) {
                Ok(l) => Ok(ToolRequest::Library(l)),
                Err(m) => Err(m),
            }
        } else if same_text(name, "scix_library_documents") {
            match documents_request(args) {
                Ok((library_id, action)) => Ok(ToolRequest::LibraryDocuments { library_id, action }),
                Err(m) => Err(m),
            }
        } else if same_text(name, "scix_object_search") {
            match list_arg(args, "objects", "'objects' array required") {
                Ok(objects) => Ok(ToolRequest::ObjectSearch { objects }),
                Err(m) => Err(m),
            }
        } else if same_text(name, "scix_resolve_reference") {
            match list_arg(args, "references", "'references' array required") {
                Ok(references) => Ok(ToolRequest::ResolveReference { references }),
                Err(m) => Err(m),
            }
        } else if same_text(name, "scix_resolve_links") || same_text(name, "scix_get_paper") {
            let bibcode = match required_text(args, "bibcode", "'bibcode' required") {
                Ok(b) => b,
                Err(m) => return Err(m),
            };
            if same_text(name, "scix_resolve_links") {
                Ok(ToolRequest::ResolveLinks { bibcode, link_type: text_arg(args, "link_type") })
            } else {
                Ok(ToolRequest::GetPaper { bibcode })
            }
        } else {
            Err(concat("Unknown tool: ", name))
        }
    }
}

/// The confirmation that a library action reports when it returns no data.
pub open spec fn library_confirmation_text(r: LibraryRequest) -> Option<Seq<char>> {
    match r {
        LibraryRequest::Delete { id } => Some("Library "@ + id@ + " deleted"@),
        LibraryRequest::Edit { id, .. } => Some("Library "@ + id@ + " updated"@),
        LibraryRequest::UpdatePermissions { id, email, .. } => Some(
            "Permissions updated for "@ + email@ + " on library "@ + id@,
        ),
        LibraryRequest::Transfer { id, email } => Some(
            "Library "@ + id@ + " transferred to "@ + email@,
        ),
        _ => None,
    }
}

/// The confirmation that a document action reports when it returns no data;
/// `added` is how many documents a search added.
pub open spec fn documents_confirmation_text(r: DocumentRequest, added: nat) -> Option<Seq<char>> {
    match r {
        DocumentRequest::Add { bibcodes } => Some(
            "Added "@ + decimal(bibcodes@.len()) + " documents"@,
        ),
        DocumentRequest::Remove { bibcodes } => Some(
            "Removed "@ + decimal(bibcodes@.len()) + " documents"@,
        ),
        DocumentRequest::SetNote { bibcode, .. } => Some("Note saved for "@ + bibcode@),
        DocumentRequest::DeleteNote { bibcode } => Some("Note deleted for "@ + bibcode@),
        DocumentRequest::AddByQuery { .. } => Some(
            "Added "@ + decimal(added) + " documents by query"@,
        ),
        _ => None,
    }
}

fn three(a: &str, b: &str, c: &str) -> (r: String)
    ensures
        r@ == a@ + b@ + c@,
{
    let mut s = String::from_str(a);
    push_str(&mut s, b);
    push_str(&mut s, c);
    s
}

/// The confirmation that a library action reports when it returns no data.
pub fn library_confirmation(r: &LibraryRequest) -> (out: Option<String>)
    ensures
        match out {
            Some(t) => library_confirmation_text(*r) == Some(t@),
            None => library_confirmation_text(*r) is None,
        },
{
    match r {
        LibraryRequest::Delete { id } => Some(three("Library ", id.as_str(), " deleted")),
        LibraryRequest::Edit { id, .. } => Some(three("Library ", id.as_str(), " updated")),
        LibraryRequest::UpdatePermissions { id, email, .. } => {
            let mut t = three("Permissions updated for ", email.as_str(), " on library ");
            push_str(&mut t, id.as_str());
            Some(t)
        },
        LibraryRequest::Transfer { id, email } => {
            let mut t = three("Library ", id.as_str(), " transferred to ");
            push_str(&mut t, email.as_str());
            Some(t)
        },
        _ => None,
    }
}

fn counted(prefix: &str, n: u64, suffix: &str) -> (r: String)
    ensures
        r@ == prefix@ + decimal(n as nat) + suffix@,
{
    let mut s = String::from_str(prefix);
    push_decimal(&mut s, n);
    push_str(&mut s, suffix);
    s
}

/// The confirmation that a document action reports when it returns no data;
/// `added` is how many documents a search added.
pub fn documents_confirmation(r: &DocumentRequest, added: u64) -> (out: Option<String>)
    ensures
        match out {
            Some(t) => documents_confirmation_text(*r, added as nat) == Some(t@),
            None => documents_confirmation_text(*r, added as nat) is None,
        },
{
    proof {
        reveal_strlit("");
    }
    match r {
        DocumentRequest::Add { bibcodes } => Some(counted("Added ", bibcodes.len() as u64, " documents")),
        DocumentRequest::Remove { bibcodes } => Some(
            counted("Removed ", bibcodes.len() as u64, " documents"),
        ),
        DocumentRequest::SetNote { bibcode, .. } => Some(three("Note saved for ", bibcode.as_str(), "")),
        DocumentRequest::DeleteNote { bibcode } => Some(three("Note deleted for ", bibcode.as_str(), "")),
        DocumentRequest::AddByQuery { .. } => Some(counted("Added ", added, " documents by query")),
        _ => None,
    }
}

} // verus!
