//! The text renderings that tools return: a compact listing of search
//! results and the detail view of one paper.

use vstd::prelude::*;

use crate::error::SciXError;
use crate::text::{decimal, joined, push_decimal, push_decimal_wide, push_str};
use crate::types::{Author, Paper, PdfLink, SearchResponse};

verus! {

/// The fields requested for the detail view of one paper.
pub const RICH_FIELDS: &'static str = "bibcode,title,author,year,pub,abstract,doi,identifier,doctype,esources,citation_count,property,read_count,volume,page,keyword,aff";

pub open spec fn family_names(authors: Seq<Author>) -> Seq<Seq<char>> {
    authors.map_values(|a: Author| a.family_name@)
}

pub open spec fn full_names(authors: Seq<Author>) -> Seq<Seq<char>> {
    authors.map_values(|a: Author| a.name@)
}

/// The authors in a listing: the first family name and "et al." when there
/// are more than three, else all family names.
pub open spec fn short_authors(authors: Seq<Author>) -> Seq<char> {
    if authors.len() > 3 {
        authors[0].family_name@ + " et al."@
    } else {
        joined(family_names(authors), ", "@)
    }
}

pub open spec fn year_shown(y: Option<u16>) -> Seq<char> {
    match y {
        Some(v) => decimal(v as nat),
        None => Seq::empty(),
    }
}

pub open spec fn doi_line(doi: Option<String>) -> Seq<char> {
    match doi {
        Some(d) => "   DOI: "@ + d@ + "\n"@,
        None => Seq::empty(),
    }
}

pub open spec fn citations_line(c: Option<u32>) -> Seq<char> {
    match c {
        Some(c) => "   Citations: "@ + decimal(c as nat) + "\n"@,
        None => Seq::empty(),
    }
}

pub open spec fn entry_head(p: Paper, n: nat) -> Seq<char> {
    decimal(n) + ". "@ + p.title@ + " ("@ + year_shown(p.year) + ")\n   "@
}

/// One paper of a listing, numbered `n`.
pub open spec fn listing_entry(p: Paper, n: nat) -> Seq<char> {
    entry_head(p, n) + short_authors(p.authors@) + "\n   Bibcode: "@ + p.bibcode@ + "\n"@
        + doi_line(p.doi) + citations_line(p.citation_count) + "\n"@
}

/// The entries of a listing whose first paper is numbered `start + 1`.
pub open spec fn listing_entries(papers: Seq<Paper>, start: nat) -> Seq<char>
    decreases papers.len(),
{
    if papers.len() == 0 {
        Seq::empty()
    } else {
        listing_entries(papers.drop_last(), start) + listing_entry(
            papers.last(),
            start + papers.len(),
        )
    }
}

/// The listing of a page of search results that begins at `start`: a count,
/// the entries, and a hint at the next page when more results remain.
pub open spec fn search_listing(r: SearchResponse, start: nat) -> Seq<char> {
    let shown = start + r.papers@.len();
    "Found "@ + decimal(r.num_found as nat) + " results:\n\n"@ + listing_entries(r.papers@, start)
        + if r.num_found > shown {
        "*Use start="@ + decimal(shown) + " to see more results*\n"@
    } else {
        Seq::empty()
    }
}

fn join_names(authors: &Vec<Author>, upto: usize, family: bool, sep: &str) -> (r: String)
    requires
        upto <= authors@.len(),
    ensures
        r@ == joined(
            if family {
                family_names(authors@.take(upto as int))
            } else {
                full_names(authors@.take(upto as int))
            },
            sep@,
        ),
{
    let ghost all = if family {
        family_names(authors@)
    } else {
        full_names(authors@)
    };
    let mut out = String::new();
    let mut i: usize = 0;
    while i < upto
        invariant
            i <= upto <= authors@.len(),
            all == (if family {
                family_names(authors@)
            } else {
                full_names(authors@)
            }),
            out@ == joined(all.take(i as int), sep@),
        decreases upto - i,
    {
        if i > 0 {
            push_str(&mut out, sep);
        }
        if family {
            push_str(&mut out, authors[i].family_name.as_str());
        } else {
            push_str(&mut out, authors[i].name.as_str());
        }
        proof {
            let next = all.take(i + 1);
            assert(next.drop_last() =~= all.take(i as int));
            if i == 0 {
                assert(out@ =~= next[0]);
            } else {
                assert(out@ =~= joined(next.drop_last(), sep@) + sep@ + next.last());
            }
        }
        i = i + 1;
    }
    proof {
        if family {
            assert(all.take(upto as int) =~= family_names(authors@.take(upto as int)));
        } else {
            assert(all.take(upto as int) =~= full_names(authors@.take(upto as int)));
        }
    }
    out
}

fn push_year(out: &mut String, y: Option<u16>)
    ensures
        final(out)@ == old(out)@ + year_shown(y),
{
    match y {
        Some(v) => push_decimal(out, v as u64),
        None => {
            proof {
                assert(old(out)@ + Seq::<char>::empty() =~= old(out)@);
            }
        },
    }
}

fn push_entry_head(out: &mut String, p: &Paper, n: u128)
    ensures
        final(out)@ == old(out)@ + entry_head(*p, n as nat),
{
    push_decimal_wide(out, n);
    push_str(out, ". ");
    push_str(out, p.title.as_str());
    push_str(out, " (");
    push_year(out, p.year);
    push_str(out, ")\n   ");
    proof {
        assert(final(out)@ =~= old(out)@ + entry_head(*p, n as nat));
    }
}

fn push_short_authors(out: &mut String, authors: &Vec<Author>)
    ensures
        final(out)@ == old(out)@ + short_authors(authors@),
{
    if authors.len() > 3 {
        push_str(out, authors[0].family_name.as_str());
        push_str(out, " et al.");
        proof {
            assert(final(out)@ =~= old(out)@ + short_authors(authors@));
        }
    } else {
        let names = join_names(authors, authors.len(), true, ", ");
        proof {
            assert(authors@.take(authors@.len() as int) =~= authors@);
        }
        push_str(out, names.as_str());
    }
}

fn push_doi_line(out: &mut String, doi: &Option<String>)
    ensures
        final(out)@ == old(out)@ + doi_line(*doi),
{
    match doi {
        Some(d) => {
            push_str(out, "   DOI: ");
            push_str(out, d.as_str());
            push_str(out, "\n");
            proof {
                assert(final(out)@ =~= old(out)@ + doi_line(*doi));
            }
        },
        None => {
            proof {
                assert(old(out)@ + Seq::<char>::empty() =~= old(out)@);
            }
        },
    }
}

fn push_citations_line(out: &mut String, c: Option<u32>)
    ensures
        final(out)@ == old(out)@ + citations_line(c),
{
    match c {
        Some(v) => {
            push_str(out, "   Citations: ");
            push_decimal(out, v as u64);
            push_str(out, "\n");
            proof {
                assert(final(out)@ =~= old(out)@ + citations_line(c));
            }
        },
        None => {
            proof {
                assert(old(out)@ + Seq::<char>::empty() =~= old(out)@);
            }
        },
    }
}

fn push_entry(out: &mut String, p: &Paper, n: u128)
    ensures
        final(out)@ == old(out)@ + listing_entry(*p, n as nat),
{
    push_entry_head(out, p, n);
    push_short_authors(out, &p.authors);
    push_str(out, "\n   Bibcode: ");
    push_str(out, p.bibcode.as_str());
    push_str(out, "\n");
    push_doi_line(out, &p.doi);
    push_citations_line(out, p.citation_count);
    push_str(out, "\n");
    proof {
        assert(final(out)@ =~= old(out)@ + listing_entry(*p, n as nat));
    }
}

/// The compact listing of a page of search results that begins at `start`.
pub fn format_search_results(results: &SearchResponse, start: u32) -> (r: String)
    ensures
        r@ == search_listing(*results, start as nat),
{
    let mut out = String::from_str("Found ");
    push_decimal(&mut out, results.num_found);
    push_str(&mut out, " results:\n\n");
    let ghost head = out@;
    let mut i: usize = 0;
    while i < results.papers.len()
        invariant
            i <= results.papers@.len(),
            out@ == head + listing_entries(results.papers@.take(i as int), start as nat),
        decreases results.papers.len() - i,
    {
        push_entry(&mut out, &results.papers[i], start as u128 + i as u128 + 1);
        proof {
            let t = results.papers@.take(i + 1);
            assert(t.drop_last() =~= results.papers@.take(i as int));
            assert(t.last() == results.papers@[i as int]);
        }
        i = i + 1;
    }
    proof {
        assert(results.papers@.take(results.papers@.len() as int) =~= results.papers@);
    }
    let shown: u128 = start as u128 + results.papers.len() as u128;
    if (results.num_found as u128) > shown {
        push_str(&mut out, "*Use start=");
        push_decimal_wide(&mut out, shown);
        push_str(&mut out, " to see more results*\n");
    }
    proof {
        assert(out@ =~= search_listing(*results, start as nat));
    }
    out
}

/// The authors in the detail view: the first five full names and a count of
/// the rest when there are more than ten, else all full names.
pub open spec fn detail_authors(authors: Seq<Author>) -> Seq<char> {
    if authors.len() > 10 {
        joined(full_names(authors.take(5)), "; "@) + " ... and "@ + decimal(
            (authors.len() - 5) as nat,
        ) + " more"@
    } else {
        joined(full_names(authors), "; "@)
    }
}

/// A labelled line for a value that may be absent.
pub open spec fn opt_line(label: Seq<char>, v: Option<String>) -> Seq<char> {
    match v {
        Some(x) => label + x@ + "\n"@,
        None => Seq::empty(),
    }
}

pub open spec fn links_text(links: Seq<PdfLink>) -> Seq<char>
    decreases links.len(),
{
    if links.len() == 0 {
        Seq::empty()
    } else {
        links_text(links.drop_last()) + "- ["@ + links.last().label@ + "]("@ + links.last().url@
            + ")\n"@
    }
}

pub open spec fn detail_head(p: Paper) -> Seq<char> {
    "# "@ + p.title@ + "\n\n"@ + "**Authors:** "@ + detail_authors(p.authors@) + "\n"@
        + "**Year:** "@ + year_shown(p.year) + "\n"@ + opt_line("**Publication:** "@, p.publication)
        + opt_line("**Type:** "@, p.doctype) + "**Bibcode:** "@ + p.bibcode@ + "\n"@
}

pub open spec fn detail_ids(p: Paper) -> Seq<char> {
    opt_line("**DOI:** "@, p.doi) + opt_line("**arXiv:** "@, p.arxiv_id) + citations_detail(
        p.citation_count,
    ) + if p.properties@.len() > 0 {
        "**Properties:** "@ + joined(p.properties@.map_values(|x: String| x@), ", "@) + "\n"@
    } else {
        Seq::empty()
    }
}

pub open spec fn citations_detail(c: Option<u32>) -> Seq<char> {
    match c {
        Some(v) => "**Citations:** "@ + decimal(v as nat) + "\n"@,
        None => Seq::empty(),
    }
}

pub open spec fn detail_tail(p: Paper) -> Seq<char> {
    opt_line("\n**Abstract:**\n"@, p.abstract_text) + if p.pdf_links@.len() > 0 {
        "\n**Links:**\n"@ + links_text(p.pdf_links@)
    } else {
        Seq::empty()
    } + "\n**ADS:** "@ + p.url@ + "\n"@
}

/// The detail view of one paper.
pub open spec fn paper_detail_text(p: Paper) -> Seq<char> {
    detail_head(p) + detail_ids(p) + detail_tail(p)
}

fn push_opt_line(out: &mut String, label: &str, v: &Option<String>)
    ensures
        final(out)@ == old(out)@ + opt_line(label@, *v),
{
    match v {
        Some(x) => {
            push_str(out, label);
            push_str(out, x.as_str());
            push_str(out, "\n");
            proof {
                assert(final(out)@ =~= old(out)@ + opt_line(label@, *v));
            }
        },
        None => {
            proof {
                assert(old(out)@ + Seq::<char>::empty() =~= old(out)@);
            }
        },
    }
}

fn push_detail_authors(out: &mut String, authors: &Vec<Author>)
    ensures
        final(out)@ == old(out)@ + detail_authors(authors@),
{
    if authors.len() > 10 {
        let first = join_names(authors, 5, false, "; ");
        push_str(out, first.as_str());
        push_str(out, " ... and ");
        push_decimal(out, (authors.len() - 5) as u64);
        push_str(out, " more");
        proof {
            assert(final(out)@ =~= old(out)@ + detail_authors(authors@));
        }
    } else {
        let all = join_names(authors, authors.len(), false, "; ");
        proof {
            assert(authors@.take(authors@.len() as int) =~= authors@);
        }
        push_str(out, all.as_str());
    }
}

fn push_detail_head(out: &mut String, p: &Paper)
    ensures
        final(out)@ == old(out)@ + detail_head(*p),
{
    push_str(out, "# ");
    push_str(out, p.title.as_str());
    push_str(out, "\n\n");
    push_str(out, "**Authors:** ");
    push_detail_authors(out, &p.authors);
    push_str(out, "\n");
    push_str(out, "**Year:** ");
    push_year(out, p.year);
    push_str(out, "\n");
    push_opt_line(out, "**Publication:** ", &p.publication);
    push_opt_line(out, "**Type:** ", &p.doctype);
    push_str(out, "**Bibcode:** ");
    push_str(out, p.bibcode.as_str());
    push_str(out, "\n");
    proof {
        assert(final(out)@ =~= old(out)@ + detail_head(*p));
    }
}

fn push_detail_ids(out: &mut String, p: &Paper)
    ensures
        final(out)@ == old(out)@ + detail_ids(*p),
{
    push_opt_line(out, "**DOI:** ", &p.doi);
    push_opt_line(out, "**arXiv:** ", &p.arxiv_id);
    let ghost mid = out@;
    match p.citation_count {
        Some(v) => {
            push_str(out, "**Citations:** ");
            push_decimal(out, v as u64);
            push_str(out, "\n");
        },
        None => {},
    }
    proof {
        assert(out@ =~= mid + citations_detail(p.citation_count));
    }
    if p.properties.len() > 0 {
        push_str(out, "**Properties:** ");
        let props = crate::query::join_strings(&p.properties, ", ");
        push_str(out, props.as_str());
        push_str(out, "\n");
    }
    proof {
        assert(final(out)@ =~= old(out)@ + detail_ids(*p));
    }
}

fn push_links(out: &mut String, links: &Vec<PdfLink>)
    ensures
        final(out)@ == old(out)@ + links_text(links@),
{
    let mut i: usize = 0;
    while i < links.len()
        invariant
            i <= links@.len(),
            out@ == old(out)@ + links_text(links@.take(i as int)),
        decreases links.len() - i,
    {
        push_str(out, "- [");
        push_str(out, links[i].label.as_str());
        push_str(out, "](");
        push_str(out, links[i].url.as_str());
        push_str(out, ")\n");
        proof {
            let t = links@.take(i + 1);
            assert(t.drop_last() =~= links@.take(i as int));
            assert(t.last() == links@[i as int]);
            assert(out@ =~= old(out)@ + links_text(t));
        }
        i = i + 1;
    }
    proof {
        assert(links@.take(links@.len() as int) =~= links@);
    }
}

fn push_detail_tail(out: &mut String, p: &Paper)
    ensures
        final(out)@ == old(out)@ + detail_tail(*p),
{
    push_opt_line(out, "\n**Abstract:**\n", &p.abstract_text);
    if p.pdf_links.len() > 0 {
        push_str(out, "\n**Links:**\n");
        push_links(out, &p.pdf_links);
    }
    push_str(out, "\n**ADS:** ");
    push_str(out, p.url.as_str());
    push_str(out, "\n");
    proof {
        assert(final(out)@ =~= old(out)@ + detail_tail(*p));
    }
}

/// The detail view of one paper: title, authors, year, publication and
/// identifiers, abstract, links and its web page.
pub fn format_paper(p: &Paper) -> (r: String)
    ensures
        r@ == paper_detail_text(*p),
{
    let mut out = String::new();
    push_detail_head(&mut out, p);
    push_detail_ids(&mut out, p);
    push_detail_tail(&mut out, p);
    proof {
        assert(out@ =~= paper_detail_text(*p));
    }
    out
}

/// The query that looks a paper up by an identifier.
pub fn identifier_query(bibcode: &str) -> (r: String)
    ensures
        r@ == "identifier:"@ + bibcode@,
{
    let mut q = String::from_str("identifier:");
    push_str(&mut q, bibcode);
    q
}

/// The detail view of the first paper that a lookup of `bibcode` found; not
/// found when it found none.
pub fn paper_detail(results: &SearchResponse, bibcode: &str) -> (r: Result<String, SciXError>)
    ensures
        results.papers@.len() == 0 ==> (r matches Err(SciXError::NotFound(m)) && m@
            == "Paper not found: "@ + bibcode@),
        results.papers@.len() > 0 ==> (r matches Ok(t) && t@ == paper_detail_text(
            results.papers@[0],
        )),
{
    if results.papers.len() == 0 {
        let mut m = String::from_str("Paper not found: ");
        push_str(&mut m, bibcode);
        return Err(SciXError::NotFound(m));
    }
    Ok(format_paper(&results.papers[0]))
}

} // verus!
