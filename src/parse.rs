//! Identifiers read from ADS records.

use vstd::prelude::*;

use crate::error::SciXError;
use crate::json::{
    array_of, decode_json, field, get_field, get_str, get_string_list, json_decoded, opt_ref,
    str_of, string_list, strings_view, u64_of, JsonValue,
};
use crate::types::{
    ads_name_parts, links_view, opt_view, pdf_links, upper_of, Author, Paper, PdfLink,
    SearchResponse,
};
use crate::text::{parse_unsigned, parsed_unsigned, push_str};
use crate::text::{
    all_digits, decimal_value, digits_between, find_char, find_from, find_last, lemma_find_from_range,
    lemma_find_last_range, rfind_char, starts_with,
};

verus! {

/// Default fields requested in search queries.
pub const DEFAULT_SEARCH_FIELDS: &'static str =
    "bibcode,title,author,year,pub,abstract,doi,identifier,doctype,esources,citation_count,property";

/// The part of `s` before a trailing version suffix: a `v` that is not the
/// first character and is followed only by digits.
pub open spec fn without_version(s: Seq<char>) -> Seq<char> {
    let v = find_last(s, 'v', s.len() as int);
    if v > 0 && all_digits(s.skip(v + 1)) {
        s.take(v)
    } else {
        s
    }
}

/// A bare new-style arXiv ID: four digits, a dot, four or five digits, and an
/// optional version suffix.
pub open spec fn bare_new_arxiv(s: Seq<char>) -> bool {
    let b = without_version(s);
    let k = find_from(b, '.', 0);
    k == 4 && all_digits(b.take(4)) && (b.len() == 9 || b.len() == 10) && all_digits(b.skip(5))
}

/// The arXiv ID that one identifier gives: what follows an `arXiv:` prefix,
/// or the identifier itself when it is a bare new-style ID.
pub open spec fn arxiv_of(id: Seq<char>) -> Option<Seq<char>> {
    if id.len() >= 6 && id.take(6) == "arXiv:"@ {
        Some(id.skip(6))
    } else if bare_new_arxiv(id) {
        Some(id)
    } else {
        None
    }
}

/// The arXiv ID of the first identifier that gives one.
pub open spec fn first_arxiv(ids: Seq<Seq<char>>) -> Option<Seq<char>>
    decreases ids.len(),
{
    if ids.len() == 0 {
        None
    } else if arxiv_of(ids[0]) is Some {
        arxiv_of(ids[0])
    } else {
        first_arxiv(ids.drop_first())
    }
}

/// Check if a string is a bare new-format arXiv ID: YYMM.NNNNN(vN).
///
/// Must NOT match DOIs (10.1086/300151) or bibcodes (1999AJ....117.2063K).
pub fn is_bare_new_arxiv_id(s: &str) -> (r: bool)
    ensures
        r == bare_new_arxiv(s@),
{
    let n = s.unicode_len();
    let found = rfind_char(s, 'v');
    proof {
        lemma_find_last_range(s@, 'v', n as int);
    }
    let v: usize = match found {
        Some(p) => p,
        None => 0,
    };
    let cut: usize = if found.is_some() && v > 0 && digits_between(s, v + 1, n) {
        v
    } else {
        n
    };
    let base = s.substring_char(0, cut);
    proof {
        assert(s@.subrange(v + 1, n as int) =~= s@.skip(v + 1)) by {
            if v >= 0 {
            }
        }
        assert(base@ =~= without_version(s@));
    }
    let k = find_char(base, '.');
    if k != Some(4usize) {
        return false;
    }
    let m = base.unicode_len();
    if m != 9 && m != 10 {
        return false;
    }
    proof {
        assert(base@.subrange(0, 4) =~= base@.take(4));
        assert(base@.subrange(5, m as int) =~= base@.skip(5));
    }
    digits_between(base, 0, 4) && digits_between(base, 5, m)
}

/// The arXiv ID that one identifier gives, if any.
fn arxiv_from_identifier(id: &str) -> (r: Option<String>)
    ensures
        r is Some == arxiv_of(id@) is Some,
        r is Some ==> r.unwrap()@ == arxiv_of(id@).unwrap(),
{
    proof {
        reveal_strlit("arXiv:");
    }
    if starts_with(id, "arXiv:") {
        let n = id.unicode_len();
        proof {
            assert(id@.subrange(6, n as int) =~= id@.skip(6));
        }
        Some(String::from_str(id.substring_char(6, n)))
    } else if is_bare_new_arxiv_id(id) {
        Some(String::from_str(id))
    } else {
        None
    }
}

/// Extract arXiv ID from ADS identifier array.
pub fn extract_arxiv_id(identifiers: &[String]) -> (r: Option<String>)
    ensures
        r is Some == first_arxiv(identifiers@.map_values(|s: String| s@)) is Some,
        r is Some ==> r.unwrap()@ == first_arxiv(identifiers@.map_values(|s: String| s@)).unwrap(),
{
    let ghost all = identifiers@.map_values(|s: String| s@);
    let mut i: usize = 0;
    proof {
        assert(all.skip(0) =~= all);
    }
    while i < identifiers.len()
        invariant
            i <= identifiers@.len(),
            all == identifiers@.map_values(|s: String| s@),
            first_arxiv(all) == first_arxiv(all.skip(i as int)),
        decreases identifiers.len() - i,
    {
        let found = arxiv_from_identifier(identifiers[i].as_str());
        proof {
            let rest = all.skip(i as int);
            assert(rest[0] == identifiers@[i as int]@);
            assert(rest.drop_first() =~= all.skip(i + 1));
        }
        if found.is_some() {
            return found;
        }
        i = i + 1;
    }
    proof {
        assert(all.skip(identifiers@.len() as int) =~= Seq::<Seq<char>>::empty());
    }
    None
}

/// The strings of a list field; empty when the field is absent or not a list.
pub open spec fn list_or_empty(v: Option<JsonValue>) -> Seq<Seq<char>> {
    match string_list(v) {
        Some(l) => l,
        None => Seq::empty(),
    }
}

/// The first string of a list field, if any.
pub open spec fn first_of(v: Option<JsonValue>) -> Option<Seq<char>> {
    if list_or_empty(v).len() > 0 {
        Some(list_or_empty(v)[0])
    } else {
        None
    }
}

/// The text of a year field, written as a string or as a number.
pub open spec fn year_text(v: Option<JsonValue>) -> Option<Seq<char>> {
    match v {
        Some(JsonValue::Str(s)) => Some(s@),
        Some(JsonValue::Number(t)) => Some(t@),
        _ => None,
    }
}

/// The year a record gives, when its text reads as a `u16`.
pub open spec fn year_of(v: Option<JsonValue>) -> Option<nat> {
    match year_text(v) {
        Some(y) => parsed_unsigned(y, 65535),
        None => None,
    }
}

/// The citation count a record gives: a negative count reads as zero, and a
/// count beyond `i32` is not read.
pub open spec fn citations_of(v: Option<JsonValue>) -> Option<nat> {
    match v {
        Some(JsonValue::Number(t)) => if t@.len() > 1 && t@[0] == '-' && all_digits(t@.drop_first())
            && decimal_value(t@.drop_first()) <= 2147483648 {
            Some(0)
        } else {
            parsed_unsigned(t@, 2147483647)
        },
        _ => None,
    }
}

pub open spec fn opt_u16(o: Option<u16>) -> Option<nat> {
    match o {
        Some(x) => Some(x as nat),
        None => None,
    }
}

pub open spec fn opt_u32(o: Option<u32>) -> Option<nat> {
    match o {
        Some(x) => Some(x as nat),
        None => None,
    }
}

/// Whether the authors are those named, each read in ADS format.
pub open spec fn authors_fit(authors: Seq<Author>, names: Seq<Seq<char>>) -> bool {
    authors.len() == names.len() && forall|i: int|
        0 <= i < names.len() ==> {
            &&& (#[trigger] authors[i]).name@ == names[i]
            &&& authors[i].family_name@ == ads_name_parts(names[i]).0
            &&& opt_view(authors[i].given_name) == ads_name_parts(names[i]).1
        }
}

/// The web page of a record.
pub open spec fn abstract_url(bibcode: Seq<char>) -> Seq<char> {
    "https://scixplorer.org/abs/"@ + bibcode
}

/// Whether a record makes a paper: it has a bibcode and a non-empty title.
pub open spec fn doc_kept(doc: JsonValue) -> bool {
    str_of(field(Some(doc), "bibcode"@)) is Some && first_of(field(Some(doc), "title"@)) is Some
        && first_of(field(Some(doc), "title"@)).unwrap().len() > 0
}

/// Whether `p` is the paper that record `doc` describes.
pub open spec fn paper_fits(p: Paper, doc: JsonValue) -> bool {
    let d = Some(doc);
    &&& str_of(field(d, "bibcode"@)) == Some(p.bibcode@)
    &&& first_of(field(d, "title"@)) == Some(p.title@)
    &&& authors_fit(p.authors@, list_or_empty(field(d, "author"@)))
    &&& opt_u16(p.year) == year_of(field(d, "year"@))
    &&& opt_view(p.publication) == str_of(field(d, "pub"@))
    &&& opt_view(p.abstract_text) == str_of(field(d, "abstract"@))
    &&& opt_view(p.doi) == first_of(field(d, "doi"@))
    &&& strings_view(p.identifiers@) == list_or_empty(field(d, "identifier"@))
    &&& opt_view(p.arxiv_id) == first_arxiv(strings_view(p.identifiers@))
    &&& strings_view(p.esources@) == list_or_empty(field(d, "esources"@))
    &&& links_view(p.pdf_links@) == pdf_links(
        p.esources@.map_values(|e: String| upper_of(e@)),
        opt_view(p.doi),
        opt_view(p.arxiv_id),
        p.bibcode@,
    )
    &&& opt_u32(p.citation_count) == citations_of(field(d, "citation_count"@))
    &&& opt_view(p.doctype) == str_of(field(d, "doctype"@))
    &&& strings_view(p.properties@) == list_or_empty(field(d, "property"@))
    &&& p.url@ == abstract_url(p.bibcode@)
}

/// Whether `papers` are, in order, the papers of the kept records of `docs`.
pub open spec fn papers_fit(papers: Seq<Paper>, docs: Seq<JsonValue>) -> bool
    decreases docs.len(),
{
    if docs.len() == 0 {
        papers.len() == 0
    } else if !doc_kept(docs.last()) {
        papers_fit(papers, docs.drop_last())
    } else {
        papers.len() > 0 && paper_fits(papers.last(), docs.last()) && papers_fit(
            papers.drop_last(),
            docs.drop_last(),
        )
    }
}

fn list_field(doc: &JsonValue, key: &str) -> (r: Vec<String>)
    ensures
        strings_view(r@) == list_or_empty(field(Some(*doc), key@)),
{
    match get_string_list(get_field(Some(doc), key)) {
        Some(l) => l,
        None => {
            let v: Vec<String> = Vec::new();
            proof {
                assert(strings_view(v@) =~= Seq::<Seq<char>>::empty());
            }
            v
        },
    }
}

fn first_field(doc: &JsonValue, key: &str) -> (r: Option<String>)
    ensures
        opt_view(r) == first_of(field(Some(*doc), key@)),
{
    let l = list_field(doc, key);
    if l.len() > 0 {
        Some(l[0].clone())
    } else {
        None
    }
}

fn text_field(doc: &JsonValue, key: &str) -> (r: Option<String>)
    ensures
        opt_view(r) == str_of(field(Some(*doc), key@)),
{
    match get_str(get_field(Some(doc), key)) {
        Some(s) => Some(String::from_str(s)),
        None => None,
    }
}

fn year_field(doc: &JsonValue) -> (r: Option<u16>)
    ensures
        opt_u16(r) == year_of(field(Some(*doc), "year"@)),
{
    let text = match get_field(Some(doc), "year") {
        Some(JsonValue::Str(s)) => s.as_str(),
        Some(JsonValue::Number(t)) => t.as_str(),
        _ => return None,
    };
    match parse_unsigned(text, 65535) {
        Some(y) => Some(y as u16),
        None => None,
    }
}

fn citation_field(doc: &JsonValue) -> (r: Option<u32>)
    ensures
        opt_u32(r) == citations_of(field(Some(*doc), "citation_count"@)),
{
    match get_field(Some(doc), "citation_count") {
        Some(JsonValue::Number(t)) => {
            let s = t.as_str();
            let n = s.unicode_len();
            if n > 1 && s.get_char(0) == '-' && digits_between(s, 1, n) {
                let magnitude = parse_unsigned(s.substring_char(1, n), u64::MAX);
                proof {
                    assert(s@.subrange(1, n as int) =~= s@.drop_first());
                }
                match magnitude {
                    Some(m) => if m <= 2147483648 {
                        return Some(0);
                    },
                    None => {},
                }
                proof {
                    if decimal_value(s@.drop_first()) <= 2147483648 {
                        assert(parsed_unsigned(s@.drop_first(), u64::MAX as nat) is Some) by {
                            reveal_strlit("-");
                        }
                    }
                }
            }
            match parse_unsigned(s, 2147483647) {
                Some(c) => Some(c as u32),
                None => None,
            }
        },
        _ => None,
    }
}

fn authors_from(names: &Vec<String>) -> (r: Vec<Author>)
    ensures
        authors_fit(r@, strings_view(names@)),
{
    let mut out: Vec<Author> = Vec::new();
    let mut i: usize = 0;
    while i < names.len()
        invariant
            i <= names@.len(),
            out@.len() == i,
            forall|j: int|
                0 <= j < i ==> {
                    &&& (#[trigger] out@[j]).name@ == names@[j]@
                    &&& out@[j].family_name@ == ads_name_parts(names@[j]@).0
                    &&& opt_view(out@[j].given_name) == ads_name_parts(names@[j]@).1
                },
        decreases names.len() - i,
    {
        out.push(Author::from_ads_format(names[i].as_str()));
        i = i + 1;
    }
    out
}

/// Convert an ADS API record to a [`Paper`]; a record without a bibcode or
/// with an empty title makes none.
pub fn document_to_paper(doc: &JsonValue) -> (r: Option<Paper>)
    ensures
        r is Some == doc_kept(*doc),
        r is Some ==> paper_fits(r.unwrap(), *doc),
{
    let bibcode = match text_field(doc, "bibcode") {
        Some(b) => b,
        None => return None,
    };
    let title = match first_field(doc, "title") {
        Some(t) => t,
        None => return None,
    };
    if title.unicode_len() == 0 {
        return None;
    }
    let names = list_field(doc, "author");
    let authors = authors_from(&names);
    let doi = first_field(doc, "doi");
    let identifiers = list_field(doc, "identifier");
    let arxiv_id = extract_arxiv_id(identifiers.as_slice());
    let esources = list_field(doc, "esources");
    let pdf_links = PdfLink::from_esources(
        esources.as_slice(),
        match &doi {
            Some(d) => Some(d.as_str()),
            None => None,
        },
        match &arxiv_id {
            Some(a) => Some(a.as_str()),
            None => None,
        },
        bibcode.as_str(),
    );
    let mut url = String::from_str("https://scixplorer.org/abs/");
    push_str(&mut url, bibcode.as_str());
    Some(
        Paper {
            bibcode,
            title,
            authors,
            year: year_field(doc),
            publication: text_field(doc, "pub"),
            abstract_text: text_field(doc, "abstract"),
            doi,
            arxiv_id,
            identifiers,
            esources,
            citation_count: citation_field(doc),
            doctype: text_field(doc, "doctype"),
            properties: list_field(doc, "property"),
            pdf_links,
            url,
        },
    )
}

/// The records of a search response body, when it has the expected shape: an
/// object whose `response` is an object holding a `docs` array.
pub open spec fn response_docs(v: Option<JsonValue>) -> Option<Seq<JsonValue>> {
    array_of(field(field(v, "response"@), "docs"@))
}

/// Parse an ADS search/query JSON response into a [`SearchResponse`]:
/// the papers of the kept records in order, and the reported number found
/// (zero when absent). A body that is not JSON of that shape is a parse
/// error.
pub fn parse_search_response(json: &str) -> (r: Result<SearchResponse, SciXError>)
    ensures
        r is Ok == response_docs(json_decoded(json@)) is Some,
        r matches Ok(resp) ==> papers_fit(resp.papers@, response_docs(json_decoded(json@)).unwrap())
            && resp.num_found as nat == match u64_of(
            field(field(json_decoded(json@), "response"@), "numFound"@),
        ) {
            Some(n) => n,
            None => 0,
        },
        r matches Err(e) ==> e is Parse,
{
    let decoded = decode_json(json);
    let body = get_field(get_field(decoded.as_ref(), "response"), "docs");
    let docs = match body {
        Some(JsonValue::Array(items)) => items,
        _ => return Err(SciXError::Parse(String::from_str("Invalid ADS JSON: missing response docs"))),
    };
    let mut papers: Vec<Paper> = Vec::new();
    let mut i: usize = 0;
    while i < docs.len()
        invariant
            i <= docs@.len(),
            papers_fit(papers@, docs@.take(i as int)),
        decreases docs.len() - i,
    {
        let ghost before = papers@;
        proof {
            assert(docs@.take(i + 1).drop_last() =~= docs@.take(i as int));
            assert(docs@.take(i + 1).last() == docs@[i as int]);
        }
        match document_to_paper(&docs[i]) {
            Some(p) => {
                papers.push(p);
                proof {
                    assert(papers@.drop_last() =~= before);
                }
            },
            None => {},
        }
        i = i + 1;
    }
    proof {
        assert(docs@.take(docs@.len() as int) =~= docs@);
    }
    let num_found = match crate::json::get_u64(
        get_field(get_field(decoded.as_ref(), "response"), "numFound"),
    ) {
        Some(n) => n,
        None => 0,
    };
    Ok(SearchResponse { papers, num_found })
}

/// Parse an ADS export JSON response: the text of its `export` member.
pub fn parse_export_response(json: &str) -> (r: Result<String, SciXError>)
    ensures
        match r {
            Ok(s) => str_of(field(json_decoded(json@), "export"@)) == Some(s@),
            Err(e) => str_of(field(json_decoded(json@), "export"@)) is None && e is Parse,
        },
{
    let decoded = decode_json(json);
    match get_str(get_field(decoded.as_ref(), "export")) {
        Some(s) => Ok(String::from_str(s)),
        None => Err(SciXError::Parse(String::from_str("Invalid export response"))),
    }
}

} // verus!
