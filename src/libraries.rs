//! Decoding of the library-management responses and of reference
//! resolution.

use vstd::prelude::*;

use crate::error::SciXError;
use crate::json::{
    array_of, bool_of, decode_json, field, get_bool, get_field, get_str, get_string_list, get_u64,
    json_decoded, opt_ref, str_of, string_list, strings_view, u64_of, JsonValue,
};
use crate::tools::{low32, or_default};
use crate::types::{opt_view, Library, LibraryDetail, ResolvedReference};

verus! {

pub open spec fn text_or_empty(v: Option<JsonValue>) -> Seq<char> {
    or_default(str_of(v), ""@)
}

/// Whether `l` carries the metadata of the JSON object `m` (absent fields
/// read as empty, zero or private).
pub open spec fn metadata_fits(l: Library, m: Option<JsonValue>) -> bool {
    &&& l.name@ == text_or_empty(field(m, "name"@))
    &&& l.description@ == text_or_empty(field(m, "description"@))
    &&& l.num_documents as nat == low32(
        match u64_of(field(m, "num_documents"@)) {
            Some(n) => n,
            None => 0,
        },
    )
    &&& l.public == (bool_of(field(m, "public"@)) == Some(true))
    &&& l.owner@ == text_or_empty(field(m, "owner"@))
    &&& l.date_created@ == text_or_empty(field(m, "date_created"@))
    &&& l.date_last_modified@ == text_or_empty(field(m, "date_last_modified"@))
}

/// Whether `libs` are, in order, the libraries of the entries that have an
/// id.
pub open spec fn libraries_fit(libs: Seq<Library>, items: Seq<JsonValue>) -> bool
    decreases items.len(),
{
    if items.len() == 0 {
        libs.len() == 0
    } else {
        let m = Some(items.last());
        match str_of(field(m, "id"@)) {
            None => libraries_fit(libs, items.drop_last()),
            Some(id) => libs.len() > 0 && libs.last().id@ == id && metadata_fits(libs.last(), m)
                && libraries_fit(libs.drop_last(), items.drop_last()),
        }
    }
}

pub open spec fn array_or_empty(v: Option<JsonValue>) -> Seq<JsonValue> {
    match array_of(v) {
        Some(a) => a,
        None => Seq::empty(),
    }
}

fn text_or_blank(m: Option<&JsonValue>, key: &str) -> (r: String)
    ensures
        r@ == text_or_empty(field(opt_ref(m), key@)),
{
    proof {
        reveal_strlit("");
    }
    match get_str(get_field(m, key)) {
        Some(s) => String::from_str(s),
        None => String::new(),
    }
}

fn library_from(m: Option<&JsonValue>, id: String) -> (r: Library)
    ensures
        r.id@ == id@,
        metadata_fits(r, opt_ref(m)),
{
    let count = match get_u64(get_field(m, "num_documents")) {
        Some(n) => (n % 0x1_0000_0000) as u32,
        None => 0,
    };
    let public = match get_bool(get_field(m, "public")) {
        Some(b) => b,
        None => false,
    };
    Library {
        id,
        name: text_or_blank(m, "name"),
        description: text_or_blank(m, "description"),
        num_documents: count,
        public,
        owner: text_or_blank(m, "owner"),
        date_created: text_or_blank(m, "date_created"),
        date_last_modified: text_or_blank(m, "date_last_modified"),
    }
}

/// The libraries listed in a response body; entries without an id are
/// skipped, and a body that is not JSON is a parse error.
pub fn parse_libraries(body: &str) -> (r: Result<Vec<Library>, SciXError>)
    ensures
        r is Ok == json_decoded(body@) is Some,
        r matches Ok(libs) ==> libraries_fit(libs@, array_or_empty(field(json_decoded(body@), "libraries"@))),
        r matches Err(e) ==> e is Parse,
{
    let decoded = match decode_json(body) {
        Some(v) => v,
        None => return Err(SciXError::Parse(String::from_str("Invalid libraries response"))),
    };
    let items: &Vec<JsonValue> = match get_field(Some(&decoded), "libraries") {
        Some(JsonValue::Array(a)) => a,
        _ => {
            let none: Vec<Library> = Vec::new();
            return Ok(none);
        },
    };
    let mut libs: Vec<Library> = Vec::new();
    let mut i: usize = 0;
    while i < items.len()
        invariant
            i <= items@.len(),
            libraries_fit(libs@, items@.take(i as int)),
        decreases items.len() - i,
    {
        let ghost before = libs@;
        proof {
            assert(items@.take(i + 1).drop_last() =~= items@.take(i as int));
            assert(items@.take(i + 1).last() == items@[i as int]);
        }
        match get_str(get_field(Some(&items[i]), "id")) {
            Some(id) => {
                libs.push(library_from(Some(&items[i]), String::from_str(id)));
                proof {
                    assert(libs@.drop_last() =~= before);
                }
            },
            None => {},
        }
        i = i + 1;
    }
    proof {
        assert(items@.take(items@.len() as int) =~= items@);
    }
    Ok(libs)
}

/// A library and its documents from a response body; the id is the one
/// asked for. A body that is not JSON is a parse error.
pub fn parse_library_detail(id: &str, body: &str) -> (r: Result<LibraryDetail, SciXError>)
    ensures
        r is Ok == json_decoded(body@) is Some,
        r matches Ok(d) ==> d.metadata.id@ == id@ && metadata_fits(
            d.metadata,
            field(json_decoded(body@), "metadata"@),
        ) && strings_view(d.documents@) == match string_list(
            field(json_decoded(body@), "documents"@),
        ) {
            Some(l) => l,
            None => Seq::empty(),
        },
        r matches Err(e) ==> e is Parse,
{
    let decoded = match decode_json(body) {
        Some(v) => v,
        None => return Err(SciXError::Parse(String::from_str("Invalid library response"))),
    };
    let metadata = library_from(get_field(Some(&decoded), "metadata"), String::from_str(id));
    let documents = match get_string_list(get_field(Some(&decoded), "documents")) {
        Some(l) => l,
        None => {
            let v: Vec<String> = Vec::new();
            proof {
                assert(strings_view(v@) =~= Seq::<Seq<char>>::empty());
            }
            v
        },
    };
    Ok(LibraryDetail { metadata, documents })
}

/// The library just created: the id the server gave it (empty when it gave
/// none) and the metadata it was created with.
pub fn parse_created_library(
    name: &str,
    description: &str,
    public: bool,
    num_documents: u32,
    body: &str,
) -> (r: Result<Library, SciXError>)
    ensures
        r is Ok == json_decoded(body@) is Some,
        r matches Ok(l) ==> l.id@ == text_or_empty(field(json_decoded(body@), "id"@)) && l.name@
            == name@ && l.description@ == description@ && l.public == public && l.num_documents
            == num_documents && l.owner@.len() == 0 && l.date_created@.len() == 0
            && l.date_last_modified@.len() == 0,
        r matches Err(e) ==> e is Parse,
{
    let decoded = match decode_json(body) {
        Some(v) => v,
        None => return Err(SciXError::Parse(String::from_str("Invalid create library response"))),
    };
    Ok(
        Library {
            id: text_or_blank(Some(&decoded), "id"),
            name: String::from_str(name),
            description: String::from_str(description),
            num_documents,
            public,
            owner: String::new(),
            date_created: String::new(),
            date_last_modified: String::new(),
        },
    )
}

/// The text of a note from a response body (empty when it has none).
pub fn parse_annotation(body: &str) -> (r: Result<String, SciXError>)
    ensures
        r is Ok == json_decoded(body@) is Some,
        r matches Ok(t) ==> t@ == text_or_empty(field(json_decoded(body@), "content"@)),
        r matches Err(e) ==> e is Parse,
{
    let decoded = match decode_json(body) {
        Some(v) => v,
        None => return Err(SciXError::Parse(String::from_str("Invalid annotation response"))),
    };
    Ok(text_or_blank(Some(&decoded), "content"))
}

/// Whether `out` pairs each reference, in order, with the resolution at the
/// same place, as far as both go.
pub open spec fn resolutions_fit(
    out: Seq<ResolvedReference>,
    references: Seq<Seq<char>>,
    resolved: Seq<JsonValue>,
) -> bool {
    &&& out.len() == if references.len() < resolved.len() {
        references.len()
    } else {
        resolved.len()
    }
    &&& forall|i: int|
        0 <= i < out.len() ==> {
            &&& (#[trigger] out[i]).reference@ == references[i]
            &&& opt_view(out[i].bibcode) == str_of(field(Some(resolved[i]), "bibcode"@))
            &&& opt_view(out[i].score) == str_of(field(Some(resolved[i]), "score"@))
        }
}

fn opt_text(m: Option<&JsonValue>, key: &str) -> (r: Option<String>)
    ensures
        opt_view(r) == str_of(field(opt_ref(m), key@)),
{
    match get_str(get_field(m, key)) {
        Some(s) => Some(String::from_str(s)),
        None => None,
    }
}

/// The bibcodes found for free-text references, paired in order with the
/// references sent. A body that is not JSON is a parse error.
pub fn parse_resolved_references(references: &Vec<String>, body: &str) -> (r: Result<
    Vec<ResolvedReference>,
    SciXError,
>)
    ensures
        r is Ok == json_decoded(body@) is Some,
        r matches Ok(out) ==> resolutions_fit(
            out@,
            strings_view(references@),
            array_or_empty(field(json_decoded(body@), "resolved"@)),
        ),
        r matches Err(e) ==> e is Parse,
{
    let decoded = match decode_json(body) {
        Some(v) => v,
        None => return Err(SciXError::Parse(String::from_str("Invalid reference response"))),
    };
    let empty: Vec<JsonValue> = Vec::new();
    let resolved: &Vec<JsonValue> = match get_field(Some(&decoded), "resolved") {
        Some(JsonValue::Array(a)) => a,
        _ => &empty,
    };
    let n = if references.len() < resolved.len() {
        references.len()
    } else {
        resolved.len()
    };
    let mut out: Vec<ResolvedReference> = Vec::new();
    let mut i: usize = 0;
    while i < n
        invariant
            i <= n,
            n <= references@.len(),
            n <= resolved@.len(),
            out@.len() == i,
            forall|j: int|
                0 <= j < i ==> {
                    &&& (#[trigger] out@[j]).reference@ == references@[j]@
                    &&& opt_view(out@[j].bibcode) == str_of(field(Some(resolved@[j]), "bibcode"@))
                    &&& opt_view(out@[j].score) == str_of(field(Some(resolved@[j]), "score"@))
                },
        decreases n - i,
    {
        let entry = Some(&resolved[i]);
        out.push(
            ResolvedReference {
                reference: references[i].clone(),
                bibcode: opt_text(entry, "bibcode"),
                score: opt_text(entry, "score"),
            },
        );
        i = i + 1;
    }
    Ok(out)
}

} // verus!
