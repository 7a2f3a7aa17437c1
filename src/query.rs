//! Builder for ADS query strings.
//!
//! A query is a sequence of parts (field terms, boolean operators, raw
//! fragments) that `build` joins with single spaces.

use vstd::prelude::*;

use crate::text::{decimal, decimal_string, joined, push_str};

verus! {

/// `field:"value"`.
pub open spec fn quoted_term(field: Seq<char>, value: Seq<char>) -> Seq<char> {
    field + ":\""@ + value + "\""@
}

/// `field:value`.
pub open spec fn bare_term(field: Seq<char>, value: Seq<char>) -> Seq<char> {
    field + ":"@ + value
}

/// `function(bibcode:value)`.
pub open spec fn function_term(function: Seq<char>, bibcode: Seq<char>) -> Seq<char> {
    function + "(bibcode:"@ + bibcode + ")"@
}

/// `year:[from TO to]`.
pub open spec fn year_range_term(from: nat, to: nat) -> Seq<char> {
    "year:["@ + decimal(from) + " TO "@ + decimal(to) + "]"@
}

/// Builder for constructing ADS query strings.
#[derive(Debug, Clone)]
pub struct QueryBuilder {
    parts: Vec<String>,
}

impl View for QueryBuilder {
    type V = Seq<Seq<char>>;

    closed spec fn view(&self) -> Seq<Seq<char>> {
        self.parts@.map_values(|p: String| p@)
    }
}

impl Default for QueryBuilder {
    fn default() -> (r: Self)
        ensures
            r@ == Seq::<Seq<char>>::empty(),
    {
        QueryBuilder::new()
    }
}

fn quoted(field: &str, value: &str) -> (r: String)
    ensures
        r@ == quoted_term(field@, value@),
{
    let mut s = String::from_str(field);
    push_str(&mut s, ":\"");
    push_str(&mut s, value);
    push_str(&mut s, "\"");
    s
}

fn bare(field: &str, value: &str) -> (r: String)
    ensures
        r@ == bare_term(field@, value@),
{
    let mut s = String::from_str(field);
    push_str(&mut s, ":");
    push_str(&mut s, value);
    s
}

fn function_of(function: &str, bibcode: &str) -> (r: String)
    ensures
        r@ == function_term(function@, bibcode@),
{
    let mut s = String::from_str(function);
    push_str(&mut s, "(bibcode:");
    push_str(&mut s, bibcode);
    push_str(&mut s, ")");
    s
}

/// Joins the parts with `sep` between neighbours.
pub fn join_strings(parts: &Vec<String>, sep: &str) -> (r: String)
    ensures
        r@ == joined(parts@.map_values(|p: String| p@), sep@),
{
    let ghost all = parts@.map_values(|p: String| p@);
    let mut out = String::new();
    let mut i: usize = 0;
    while i < parts.len()
        invariant
            i <= parts@.len(),
            all == parts@.map_values(|p: String| p@),
            out@ == joined(all.take(i as int), sep@),
        decreases parts.len() - i,
    {
        if i > 0 {
            push_str(&mut out, sep);
        }
        push_str(&mut out, parts[i].as_str());
        proof {
            let next = all.take(i + 1);
            assert(next.drop_last() =~= all.take(i as int));
            assert(next.last() == parts@[i as int]@);
            if i == 0 {
                assert(all.take(0) =~= Seq::<Seq<char>>::empty());
                assert(out@ =~= next[0]);
            } else {
                assert(out@ =~= joined(next.drop_last(), sep@) + sep@ + next.last());
            }
        }
        i = i + 1;
    }
    proof {
        assert(all.take(parts@.len() as int) =~= all);
    }
    out
}

impl QueryBuilder {
    fn with_part(self, part: String) -> (r: Self)
        ensures
            r@ == self@.push(part@),
    {
        let mut parts = self.parts;
        parts.push(part);
        let r = QueryBuilder { parts };
        proof {
            assert(r@ =~= self@.push(part@));
        }
        r
    }

    /// Create a new empty query builder.
    pub fn new() -> (r: Self)
        ensures
            r@ == Seq::<Seq<char>>::empty(),
    {
        let r = QueryBuilder { parts: Vec::new() };
        proof {
            assert(r@ =~= Seq::<Seq<char>>::empty());
        }
        r
    }

    /// Add an author search term.
    pub fn author(self, name: &str) -> (r: Self)
        ensures
            r@ == self@.push(quoted_term("author"@, name@)),
    {
        self.with_part(quoted("author", name))
    }

    /// Add a first-author search term.
    pub fn first_author(self, name: &str) -> (r: Self)
        ensures
            r@ == self@.push(quoted_term("first_author"@, name@)),
    {
        self.with_part(quoted("first_author", name))
    }

    /// Add a title search term.
    pub fn title(self, text: &str) -> (r: Self)
        ensures
            r@ == self@.push(quoted_term("title"@, text@)),
    {
        self.with_part(quoted("title", text))
    }

    /// Add an abstract search term.
    pub fn abstract_contains(self, text: &str) -> (r: Self)
        ensures
            r@ == self@.push(quoted_term("abs"@, text@)),
    {
        self.with_part(quoted("abs", text))
    }

    /// Add an exact year filter.
    pub fn year(self, year: u16) -> (r: Self)
        ensures
            r@ == self@.push(bare_term("year"@, decimal(year as nat))),
    {
        let y = decimal_string(year as u64);
        self.with_part(bare("year", y.as_str()))
    }

    /// Add a year range filter (inclusive).
    pub fn year_range(self, from: u16, to: u16) -> (r: Self)
        ensures
            r@ == self@.push(year_range_term(from as nat, to as nat)),
    {
        let mut s = String::from_str("year:[");
        let a = decimal_string(from as u64);
        let b = decimal_string(to as u64);
        push_str(&mut s, a.as_str());
        push_str(&mut s, " TO ");
        push_str(&mut s, b.as_str());
        push_str(&mut s, "]");
        self.with_part(s)
    }

    /// Add a bibcode filter.
    pub fn bibcode(self, bibcode: &str) -> (r: Self)
        ensures
            r@ == self@.push(bare_term("bibcode"@, bibcode@)),
    {
        self.with_part(bare("bibcode", bibcode))
    }

    /// Add a DOI filter.
    pub fn doi(self, doi: &str) -> (r: Self)
        ensures
            r@ == self@.push(quoted_term("doi"@, doi@)),
    {
        self.with_part(quoted("doi", doi))
    }

    /// Add an arXiv ID filter.
    pub fn arxiv(self, arxiv_id: &str) -> (r: Self)
        ensures
            r@ == self@.push(bare_term("identifier"@, "arXiv:"@ + arxiv_id@)),
    {
        let mut v = String::from_str("arXiv:");
        push_str(&mut v, arxiv_id);
        self.with_part(bare("identifier", v.as_str()))
    }

    /// Add an astronomical object filter.
    pub fn object(self, name: &str) -> (r: Self)
        ensures
            r@ == self@.push(quoted_term("object"@, name@)),
    {
        self.with_part(quoted("object", name))
    }

    /// Add a bibstem (journal abbreviation) filter.
    pub fn bibstem(self, stem: &str) -> (r: Self)
        ensures
            r@ == self@.push(bare_term("bibstem"@, stem@)),
    {
        self.with_part(bare("bibstem", stem))
    }

    /// Add a property filter (e.g., "refereed", "openaccess").
    pub fn property(self, prop: &str) -> (r: Self)
        ensures
            r@ == self@.push(bare_term("property"@, prop@)),
    {
        self.with_part(bare("property", prop))
    }

    /// Add a doctype filter (e.g., "article", "inproceedings").
    pub fn doctype(self, dtype: &str) -> (r: Self)
        ensures
            r@ == self@.push(bare_term("doctype"@, dtype@)),
    {
        self.with_part(bare("doctype", dtype))
    }

    /// Add an ORCID filter.
    pub fn orcid(self, orcid: &str) -> (r: Self)
        ensures
            r@ == self@.push(bare_term("orcid"@, orcid@)),
    {
        self.with_part(bare("orcid", orcid))
    }

    /// Add an AND operator.
    pub fn and(self) -> (r: Self)
        ensures
            r@ == self@.push("AND"@),
    {
        self.with_part(String::from_str("AND"))
    }

    /// Add an OR operator.
    pub fn or(self) -> (r: Self)
        ensures
            r@ == self@.push("OR"@),
    {
        self.with_part(String::from_str("OR"))
    }

    /// Add a NOT operator (exclude the following term).
    pub fn exclude(self) -> (r: Self)
        ensures
            r@ == self@.push("NOT"@),
    {
        self.with_part(String::from_str("NOT"))
    }

    /// Add a raw query fragment (no escaping).
    pub fn raw(self, query: &str) -> (r: Self)
        ensures
            r@ == self@.push(query@),
    {
        self.with_part(String::from_str(query))
    }

    /// Build a citations-of query.
    pub fn citations_of(bibcode: &str) -> (r: Self)
        ensures
            r@ == seq![function_term("citations"@, bibcode@)],
    {
        let r = QueryBuilder::new().with_part(function_of("citations", bibcode));
        proof {
            assert(r@ =~= seq![function_term("citations"@, bibcode@)]);
        }
        r
    }

    /// Build a references-of query.
    pub fn references_of(bibcode: &str) -> (r: Self)
        ensures
            r@ == seq![function_term("references"@, bibcode@)],
    {
        let r = QueryBuilder::new().with_part(function_of("references", bibcode));
        proof {
            assert(r@ =~= seq![function_term("references"@, bibcode@)]);
        }
        r
    }

    /// Build a similar-to query.
    pub fn similar_to(bibcode: &str) -> (r: Self)
        ensures
            r@ == seq![function_term("similar"@, bibcode@)],
    {
        let r = QueryBuilder::new().with_part(function_of("similar", bibcode));
        proof {
            assert(r@ =~= seq![function_term("similar"@, bibcode@)]);
        }
        r
    }

    /// Build a trending query.
    pub fn trending(bibcode: &str) -> (r: Self)
        ensures
            r@ == seq![function_term("trending"@, bibcode@)],
    {
        let r = QueryBuilder::new().with_part(function_of("trending", bibcode));
        proof {
            assert(r@ =~= seq![function_term("trending"@, bibcode@)]);
        }
        r
    }

    /// Build the final query string: the parts joined by single spaces.
    pub fn build(self) -> (r: String)
        ensures
            r@ == joined(self@, " "@),
    {
        join_strings(&self.parts, " ")
    }

    /// The query string that `build` would give, leaving the builder in place.
    pub fn to_query_string(&self) -> (r: String)
        ensures
            r@ == joined(self@, " "@),
    {
        join_strings(&self.parts, " ")
    }
}

} // verus!
