//! Records of the bibliographic domain: papers, authors, links, export
//! formats, sort orders and libraries.

use vstd::prelude::*;

use crate::query::join_strings;
use crate::text::{
    find_char, find_from, lemma_find_from_range, joined, push_str, same_text, split_words, trim, trimmed, words,
};

verus! {

/// A paper (document) from ADS search results.
#[derive(Debug)]
pub struct Paper {
    /// ADS bibcode (primary identifier).
    pub bibcode: String,
    /// Paper title.
    pub title: String,
    /// List of authors.
    pub authors: Vec<Author>,
    /// Publication year.
    pub year: Option<u16>,
    /// Journal/publication name.
    pub publication: Option<String>,
    /// Abstract text.
    pub abstract_text: Option<String>,
    /// DOI (first, if multiple).
    pub doi: Option<String>,
    /// arXiv ID (extracted from identifiers).
    pub arxiv_id: Option<String>,
    /// Raw identifier list from ADS.
    pub identifiers: Vec<String>,
    /// Electronic source flags (EPRINT_PDF, PUB_PDF, etc.).
    pub esources: Vec<String>,
    /// Number of citations.
    pub citation_count: Option<u32>,
    /// Document type (article, inproceedings, etc.).
    pub doctype: Option<String>,
    /// Property flags (OPENACCESS, REFEREED, etc.).
    pub properties: Vec<String>,
    /// Constructed PDF links, ordered by priority.
    pub pdf_links: Vec<PdfLink>,
    /// ADS URL for this paper.
    pub url: String,
}

/// An author of a paper.
#[derive(Debug)]
pub struct Author {
    /// Raw name as returned by ADS ("Last, First M.").
    pub name: String,
    /// Family (last) name.
    pub family_name: String,
    /// Given (first) name and initials.
    pub given_name: Option<String>,
}

/// The family and given names read from an ADS author string: split at the
/// first comma and trimmed; without a comma, the last word is the family
/// name and the words before it the given name; a single word is the family
/// name alone, kept as written.
pub open spec fn ads_name_parts(name: Seq<char>) -> (Seq<char>, Option<Seq<char>>) {
    let k = find_from(name, ',', 0);
    if k >= 0 {
        (trimmed(name.take(k)), Some(trimmed(name.skip(k + 1))))
    } else {
        let w = words(name);
        if w.len() > 1 {
            (w.last(), Some(joined(w.drop_last(), " "@)))
        } else {
            (name, None)
        }
    }
}

pub open spec fn opt_view(o: Option<String>) -> Option<Seq<char>> {
    match o {
        Some(s) => Some(s@),
        None => None,
    }
}

pub open spec fn opt_str_view(o: Option<&str>) -> Option<Seq<char>> {
    match o {
        Some(s) => Some(s@),
        None => None,
    }
}

impl Author {
    /// Parse an author name in ADS format ("Last, First M.").
    pub fn from_ads_format(name: &str) -> (r: Self)
        ensures
            r.name@ == name@,
            r.family_name@ == ads_name_parts(name@).0,
            opt_view(r.given_name) == ads_name_parts(name@).1,
    {
        let k = find_char(name, ',');
        proof {
            lemma_find_from_range(name@, ',', 0);
        }
        if let Some(k) = k {
            let n = name.unicode_len();
            let family = trim(name.substring_char(0, k));
            let given = trim(name.substring_char(k + 1, n));
            proof {
                assert(name@.subrange(0, k as int) =~= name@.take(k as int));
                assert(name@.subrange(k + 1, n as int) =~= name@.skip(k + 1));
            }
            Author { name: String::from_str(name), family_name: family, given_name: Some(given) }
        } else {
            let w = split_words(name);
            let ghost wv = w@.map_values(|s: String| s@);
            if w.len() > 1 {
                let last = w.len() - 1;
                let family = w[last].clone();
                let mut front = w;
                front.pop();
                let given = join_strings(&front, " ");
                proof {
                    assert(front@.map_values(|s: String| s@) =~= wv.drop_last());
                }
                Author { name: String::from_str(name), family_name: family, given_name: Some(given) }
            } else {
                Author {
                    name: String::from_str(name),
                    family_name: String::from_str(name),
                    given_name: None,
                }
            }
        }
    }

    /// Format as "First M. Last" for display.
    pub fn display_name(&self) -> (r: String)
        ensures
            r@ == match self.given_name {
                Some(g) => g@ + " "@ + self.family_name@,
                None => self.family_name@,
            },
    {
        match &self.given_name {
            Some(given) => {
                let mut s = given.clone();
                push_str(&mut s, " ");
                push_str(&mut s, self.family_name.as_str());
                s
            },
            None => self.family_name.clone(),
        }
    }

    /// Format as "Last, First M." for BibTeX.
    pub fn bibtex_name(&self) -> (r: String)
        ensures
            r@ == match self.given_name {
                Some(g) => self.family_name@ + ", "@ + g@,
                None => self.family_name@,
            },
    {
        match &self.given_name {
            Some(given) => {
                let mut s = self.family_name.clone();
                push_str(&mut s, ", ");
                push_str(&mut s, given.as_str());
                s
            },
            None => self.family_name.clone(),
        }
    }
}

/// Source type for a PDF link.
#[derive(Debug, Clone, Copy, PartialEq, Eq, Structural)]
pub enum PdfLinkType {
    ArXiv,
    Publisher,
    AdsScan,
    Direct,
}

/// A link to a PDF of a paper.
#[derive(Debug)]
pub struct PdfLink {
    /// URL to the PDF or landing page.
    pub url: String,
    /// Type of link source.
    pub link_type: PdfLinkType,
    /// Human-readable label.
    pub label: String,
}

/// A link as plain values: its URL, kind and label.
pub type LinkView = (Seq<char>, PdfLinkType, Seq<char>);

pub open spec fn link_view(l: PdfLink) -> LinkView {
    (l.url@, l.link_type, l.label@)
}

pub open spec fn links_view(ls: Seq<PdfLink>) -> Seq<LinkView> {
    ls.map_values(|l: PdfLink| link_view(l))
}

pub open spec fn arxiv_link(id: Seq<char>) -> LinkView {
    ("https://arxiv.org/pdf/"@ + id + ".pdf"@, PdfLinkType::ArXiv, "arXiv PDF"@)
}

pub open spec fn doi_link(doi: Seq<char>) -> LinkView {
    ("https://doi.org/"@ + doi, PdfLinkType::Publisher, "Publisher"@)
}

pub open spec fn scan_link(bibcode: Seq<char>) -> LinkView {
    ("https://articles.adsabs.harvard.edu/pdf/"@ + bibcode, PdfLinkType::AdsScan, "ADS Scan"@)
}

/// A DOI that a publisher link can be made from: present and not empty.
pub open spec fn usable_doi(doi: Option<Seq<char>>) -> bool {
    doi is Some && doi.unwrap().len() > 0
}

pub open spec fn is_preprint_kind(k: Seq<char>) -> bool {
    k == "EPRINT_PDF"@
}

pub open spec fn is_publisher_kind(k: Seq<char>) -> bool {
    k == "PUB_PDF"@ || k == "PUB_HTML"@
}

pub open spec fn is_scan_kind(k: Seq<char>) -> bool {
    k == "ADS_PDF"@ || k == "ADS_SCAN"@
}

/// The links that one upper-cased esource flag contributes.
pub open spec fn kind_links(
    k: Seq<char>,
    doi: Option<Seq<char>>,
    arxiv: Option<Seq<char>>,
    bibcode: Seq<char>,
) -> Seq<LinkView> {
    if is_preprint_kind(k) {
        if arxiv is Some {
            seq![arxiv_link(arxiv.unwrap())]
        } else {
            Seq::empty()
        }
    } else if is_publisher_kind(k) {
        if usable_doi(doi) {
            seq![doi_link(doi.unwrap())]
        } else {
            Seq::empty()
        }
    } else if is_scan_kind(k) {
        seq![scan_link(bibcode)]
    } else {
        Seq::empty()
    }
}

/// The links of the flags, in the order of the flags.
pub open spec fn flag_links(
    kinds: Seq<Seq<char>>,
    doi: Option<Seq<char>>,
    arxiv: Option<Seq<char>>,
    bibcode: Seq<char>,
) -> Seq<LinkView>
    decreases kinds.len(),
{
    if kinds.len() == 0 {
        Seq::empty()
    } else {
        flag_links(kinds.drop_last(), doi, arxiv, bibcode) + kind_links(
            kinds.last(),
            doi,
            arxiv,
            bibcode,
        )
    }
}

pub open spec fn has_preprint(kinds: Seq<Seq<char>>, arxiv: Option<Seq<char>>) -> bool {
    arxiv is Some && exists|i: int| 0 <= i < kinds.len() && is_preprint_kind(#[trigger] kinds[i])
}

pub open spec fn has_publisher(kinds: Seq<Seq<char>>, doi: Option<Seq<char>>) -> bool {
    usable_doi(doi) && exists|i: int| 0 <= i < kinds.len() && is_publisher_kind(#[trigger] kinds[i])
}

/// The links of a paper: those of its flags, then an arXiv link if no flag
/// gave one and the arXiv ID is known, then a publisher link if no flag gave
/// one and the DOI is usable.
pub open spec fn pdf_links(
    kinds: Seq<Seq<char>>,
    doi: Option<Seq<char>>,
    arxiv: Option<Seq<char>>,
    bibcode: Seq<char>,
) -> Seq<LinkView> {
    flag_links(kinds, doi, arxiv, bibcode) + (if arxiv is Some && !has_preprint(kinds, arxiv) {
        seq![arxiv_link(arxiv.unwrap())]
    } else {
        Seq::empty()
    }) + (if usable_doi(doi) && !has_publisher(kinds, doi) {
        seq![doi_link(doi.unwrap())]
    } else {
        Seq::empty()
    })
}

/// Names what `str::to_uppercase` returns: the result depends on the
/// characters alone.
pub uninterp spec fn upper_of(s: Seq<char>) -> Seq<char>;

/// Relies on `str::to_uppercase`, for the case-insensitive reading of flags.
#[verifier::external_body]
fn to_upper(s: &str) -> (r: String)
    ensures
        r@ == upper_of(s@),
{
    s.to_uppercase()
}

fn make_arxiv_link(id: &str) -> (r: PdfLink)
    ensures
        link_view(r) == arxiv_link(id@),
{
    let mut url = String::from_str("https://arxiv.org/pdf/");
    push_str(&mut url, id);
    push_str(&mut url, ".pdf");
    PdfLink { url, link_type: PdfLinkType::ArXiv, label: String::from_str("arXiv PDF") }
}

fn make_doi_link(doi: &str) -> (r: PdfLink)
    ensures
        link_view(r) == doi_link(doi@),
{
    let mut url = String::from_str("https://doi.org/");
    push_str(&mut url, doi);
    PdfLink { url, link_type: PdfLinkType::Publisher, label: String::from_str("Publisher") }
}

fn make_scan_link(bibcode: &str) -> (r: PdfLink)
    ensures
        link_view(r) == scan_link(bibcode@),
{
    let mut url = String::from_str("https://articles.adsabs.harvard.edu/pdf/");
    push_str(&mut url, bibcode);
    PdfLink { url, link_type: PdfLinkType::AdsScan, label: String::from_str("ADS Scan") }
}

fn doi_is_usable(doi: Option<&str>) -> (r: bool)
    ensures
        r == usable_doi(opt_str_view(doi)),
{
    match doi {
        Some(d) => d.unicode_len() > 0,
        None => false,
    }
}

impl PdfLink {
    /// Build PDF links from esource flags that are already upper-cased, the
    /// DOI, the arXiv ID and the bibcode.
    pub fn from_upper_flags(
        kinds: &Vec<String>,
        doi: Option<&str>,
        arxiv_id: Option<&str>,
        bibcode: &str,
    ) -> (r: Vec<PdfLink>)
        ensures
            links_view(r@) == pdf_links(
                kinds@.map_values(|k: String| k@),
                opt_str_view(doi),
                opt_str_view(arxiv_id),
                bibcode@,
            ),
    {
        let ghost ks = kinds@.map_values(|k: String| k@);
        let ghost dv = opt_str_view(doi);
        let ghost av = opt_str_view(arxiv_id);
        let mut links: Vec<PdfLink> = Vec::new();
        let mut preprint = false;
        let mut publisher = false;
        let usable = doi_is_usable(doi);
        let mut i: usize = 0;
        while i < kinds.len()
            invariant
                i <= kinds@.len(),
                ks == kinds@.map_values(|k: String| k@),
                usable == usable_doi(dv),
                dv == opt_str_view(doi),
                av == opt_str_view(arxiv_id),
                links_view(links@) == flag_links(ks.take(i as int), dv, av, bibcode@),
                preprint == has_preprint(ks.take(i as int), av),
                publisher == has_publisher(ks.take(i as int), dv),
            decreases kinds.len() - i,
        {
            let k = kinds[i].as_str();
            let ghost before = links@;
            let ghost t = ks.take(i + 1);
            proof {
                assert(t.drop_last() =~= ks.take(i as int));
                assert(t.last() == k@);
                reveal_strlit("EPRINT_PDF");
                reveal_strlit("PUB_PDF");
                reveal_strlit("PUB_HTML");
                reveal_strlit("ADS_PDF");
                reveal_strlit("ADS_SCAN");
            }
            if same_text(k, "EPRINT_PDF") {
                match arxiv_id {
                    Some(a) => {
                        links.push(make_arxiv_link(a));
                        preprint = true;
                    },
                    None => {},
                }
            } else if same_text(k, "PUB_PDF") || same_text(k, "PUB_HTML") {
                if usable {
                    match doi {
                        Some(d) => {
                            links.push(make_doi_link(d));
                            publisher = true;
                        },
                        None => {},
                    }
                }
            } else if same_text(k, "ADS_PDF") || same_text(k, "ADS_SCAN") {
                links.push(make_scan_link(bibcode));
            }
            proof {
                assert(links_view(links@) =~= links_view(before) + kind_links(k@, dv, av, bibcode@));
                if preprint {
                    if !has_preprint(ks.take(i as int), av) {
                        assert(is_preprint_kind(t[i as int]));
                    }
                } else {
                    assert forall|j: int| 0 <= j < t.len() && av is Some implies !is_preprint_kind(
                        #[trigger] t[j],
                    ) by {
                        if j < i {
                            assert(t[j] == ks.take(i as int)[j]);
                        }
                    }
                }
                if publisher {
                    if !has_publisher(ks.take(i as int), dv) {
                        assert(is_publisher_kind(t[i as int]));
                    }
                } else {
                    assert forall|j: int| 0 <= j < t.len() && usable_doi(dv) implies !is_publisher_kind(
                        #[trigger] t[j],
                    ) by {
                        if j < i {
                            assert(t[j] == ks.take(i as int)[j]);
                        }
                    }
                }
                if has_preprint(ks.take(i as int), av) {
                    let j = choose|j: int| 0 <= j < i && is_preprint_kind(#[trigger] ks.take(i as int)[j]);
                    assert(t[j] == ks.take(i as int)[j]);
                }
                if has_publisher(ks.take(i as int), dv) {
                    let j = choose|j: int| 0 <= j < i && is_publisher_kind(#[trigger] ks.take(i as int)[j]);
                    assert(t[j] == ks.take(i as int)[j]);
                }
            }
            i = i + 1;
        }
        proof {
            assert(ks.take(kinds@.len() as int) =~= ks);
        }
        if !preprint {
            match arxiv_id {
                Some(a) => links.push(make_arxiv_link(a)),
                None => {},
            }
        }
        if !publisher && usable {
            match doi {
                Some(d) => links.push(make_doi_link(d)),
                None => {},
            }
        }
        proof {
            assert(links_view(links@) =~= pdf_links(ks, dv, av, bibcode@));
        }
        links
    }

    /// Build PDF links from ADS esources, DOI, arXiv ID, and bibcode. Flags
    /// are read without regard to case.
    ///
    /// Priority: arXiv PDF > DOI/publisher > ADS scans > fallbacks.
    pub fn from_esources(
        esources: &[String],
        doi: Option<&str>,
        arxiv_id: Option<&str>,
        bibcode: &str,
    ) -> (r: Vec<PdfLink>)
        ensures
            links_view(r@) == pdf_links(
                esources@.map_values(|e: String| upper_of(e@)),
                opt_str_view(doi),
                opt_str_view(arxiv_id),
                bibcode@,
            ),
    {
        let mut kinds: Vec<String> = Vec::new();
        let mut i: usize = 0;
        while i < esources.len()
            invariant
                i <= esources@.len(),
                kinds@.map_values(|k: String| k@) == esources@.take(i as int).map_values(
                    |e: String| upper_of(e@),
                ),
            decreases esources.len() - i,
        {
            let ghost before = kinds@.map_values(|k: String| k@);
            let up = to_upper(esources[i].as_str());
            kinds.push(up);
            proof {
                assert(esources@.take(i + 1).drop_last() =~= esources@.take(i as int));
                assert(kinds@.map_values(|k: String| k@) =~= before.push(up@));
                assert(kinds@.map_values(|k: String| k@) =~= esources@.take(i + 1).map_values(
                    |e: String| upper_of(e@),
                ));
            }
            i = i + 1;
        }
        proof {
            assert(esources@.take(esources@.len() as int) =~= esources@);
        }
        PdfLink::from_upper_flags(&kinds, doi, arxiv_id, bibcode)
    }
}

/// Paginated search response from ADS.
#[derive(Debug)]
pub struct SearchResponse {
    /// Matching papers.
    pub papers: Vec<Paper>,
    /// Total number of results (may be larger than `papers.len()`).
    pub num_found: u64,
}

/// Citation export formats supported by ADS.
#[derive(Debug, Clone, Copy, PartialEq, Eq, Structural)]
pub enum ExportFormat {
    BibTeX,
    BibTeXAbs,
    AasTex,
    Icarus,
    Mnras,
    Soph,
    Ris,
    Endnote,
    Medlars,
    Ieee,
    Csl,
    DcXml,
    RefXml,
    RefAbsXml,
    VoTable,
    Rss,
    Custom,
}

/// The name of a format in the ADS API.
pub open spec fn api_name(f: ExportFormat) -> Seq<char> {
    match f {
        ExportFormat::BibTeX => "bibtex"@,
        ExportFormat::BibTeXAbs => "bibtexabs"@,
        ExportFormat::AasTex => "aastex"@,
        ExportFormat::Icarus => "icarus"@,
        ExportFormat::Mnras => "mnras"@,
        ExportFormat::Soph => "soph"@,
        ExportFormat::Ris => "ris"@,
        ExportFormat::Endnote => "endnote"@,
        ExportFormat::Medlars => "medlars"@,
        ExportFormat::Ieee => "ieee"@,
        ExportFormat::Csl => "csl"@,
        ExportFormat::DcXml => "dcxml"@,
        ExportFormat::RefXml => "refxml"@,
        ExportFormat::RefAbsXml => "refabsxml"@,
        ExportFormat::VoTable => "votable"@,
        ExportFormat::Rss => "rss"@,
        ExportFormat::Custom => "custom"@,
    }
}

/// The format whose API name is `s`, if any.
pub open spec fn format_named(s: Seq<char>) -> Option<ExportFormat> {
    if s == "bibtex"@ {
        Some(ExportFormat::BibTeX)
    } else if s == "bibtexabs"@ {
        Some(ExportFormat::BibTeXAbs)
    } else if s == "aastex"@ {
        Some(ExportFormat::AasTex)
    } else if s == "icarus"@ {
        Some(ExportFormat::Icarus)
    } else if s == "mnras"@ {
        Some(ExportFormat::Mnras)
    } else if s == "soph"@ {
        Some(ExportFormat::Soph)
    } else if s == "ris"@ {
        Some(ExportFormat::Ris)
    } else if s == "endnote"@ {
        Some(ExportFormat::Endnote)
    } else if s == "medlars"@ {
        Some(ExportFormat::Medlars)
    } else if s == "ieee"@ {
        Some(ExportFormat::Ieee)
    } else if s == "csl"@ {
        Some(ExportFormat::Csl)
    } else if s == "dcxml"@ {
        Some(ExportFormat::DcXml)
    } else if s == "refxml"@ {
        Some(ExportFormat::RefXml)
    } else if s == "refabsxml"@ {
        Some(ExportFormat::RefAbsXml)
    } else if s == "votable"@ {
        Some(ExportFormat::VoTable)
    } else if s == "rss"@ {
        Some(ExportFormat::Rss)
    } else if s == "custom"@ {
        Some(ExportFormat::Custom)
    } else {
        None
    }
}

/// Names what `str::to_lowercase` returns: the result depends on the
/// characters alone.
pub uninterp spec fn lower_of(s: Seq<char>) -> Seq<char>;

/// Relies on `str::to_lowercase`, for the case-insensitive reading of names.
#[verifier::external_body]
fn to_lower(s: &str) -> (r: String)
    ensures
        r@ == lower_of(s@),
{
    s.to_lowercase()
}

impl ExportFormat {
    /// ADS API format string.
    pub fn as_api_str(&self) -> (r: &'static str)
        ensures
            r@ == api_name(*self),
    {
        match self {
            ExportFormat::BibTeX => "bibtex",
            ExportFormat::BibTeXAbs => "bibtexabs",
            ExportFormat::AasTex => "aastex",
            ExportFormat::Icarus => "icarus",
            ExportFormat::Mnras => "mnras",
            ExportFormat::Soph => "soph",
            ExportFormat::Ris => "ris",
            ExportFormat::Endnote => "endnote",
            ExportFormat::Medlars => "medlars",
            ExportFormat::Ieee => "ieee",
            ExportFormat::Csl => "csl",
            ExportFormat::DcXml => "dcxml",
            ExportFormat::RefXml => "refxml",
            ExportFormat::RefAbsXml => "refabsxml",
            ExportFormat::VoTable => "votable",
            ExportFormat::Rss => "rss",
            ExportFormat::Custom => "custom",
        }
    }

    /// The format whose API name is exactly `s`.
    pub fn from_api_name(s: &str) -> (r: Option<Self>)
        ensures
            r == format_named(s@),
    {
        proof {
            reveal_strlit("bibtex");
            reveal_strlit("bibtexabs");
            reveal_strlit("aastex");
            reveal_strlit("icarus");
            reveal_strlit("mnras");
            reveal_strlit("soph");
            reveal_strlit("ris");
            reveal_strlit("endnote");
            reveal_strlit("medlars");
            reveal_strlit("ieee");
            reveal_strlit("csl");
            reveal_strlit("dcxml");
            reveal_strlit("refxml");
            reveal_strlit("refabsxml");
            reveal_strlit("votable");
            reveal_strlit("rss");
            reveal_strlit("custom");
        }
        if same_text(s, "bibtex") {
            Some(ExportFormat::BibTeX)
        } else if same_text(s, "bibtexabs") {
            Some(ExportFormat::BibTeXAbs)
        } else if same_text(s, "aastex") {
            Some(ExportFormat::AasTex)
        } else if same_text(s, "icarus") {
            Some(ExportFormat::Icarus)
        } else if same_text(s, "mnras") {
            Some(ExportFormat::Mnras)
        } else if same_text(s, "soph") {
            Some(ExportFormat::Soph)
        } else if same_text(s, "ris") {
            Some(ExportFormat::Ris)
        } else if same_text(s, "endnote") {
            Some(ExportFormat::Endnote)
        } else if same_text(s, "medlars") {
            Some(ExportFormat::Medlars)
        } else if same_text(s, "ieee") {
            Some(ExportFormat::Ieee)
        } else if same_text(s, "csl") {
            Some(ExportFormat::Csl)
        } else if same_text(s, "dcxml") {
            Some(ExportFormat::DcXml)
        } else if same_text(s, "refxml") {
            Some(ExportFormat::RefXml)
        } else if same_text(s, "refabsxml") {
            Some(ExportFormat::RefAbsXml)
        } else if same_text(s, "votable") {
            Some(ExportFormat::VoTable)
        } else if same_text(s, "rss") {
            Some(ExportFormat::Rss)
        } else if same_text(s, "custom") {
            Some(ExportFormat::Custom)
        } else {
            None
        }
    }

    /// Parse from string (case-insensitive).
    pub fn from_str_loose(s: &str) -> (r: Option<Self>)
        ensures
            r == format_named(lower_of(s@)),
    {
        let lowered = to_lower(s);
        ExportFormat::from_api_name(lowered.as_str())
    }
}

/// An ADS personal library.
#[derive(Debug)]
pub struct Library {
    pub id: String,
    pub name: String,
    pub description: String,
    pub num_documents: u32,
    pub public: bool,
    pub owner: String,
    pub date_created: String,
    pub date_last_modified: String,
}

/// Detailed library including documents.
#[derive(Debug)]
pub struct LibraryDetail {
    pub metadata: Library,
    pub documents: Vec<String>,
}

/// Result of astronomical object resolution.
#[derive(Debug)]
pub struct ObjectResult {
    pub object: String,
    pub bibcodes: Vec<String>,
}

/// Result of free-text reference resolution.
#[derive(Debug)]
pub struct ResolvedReference {
    pub reference: String,
    pub bibcode: Option<String>,
    pub score: Option<String>,
}

/// Sort direction.
#[derive(Debug, Clone, Copy, PartialEq, Eq, Structural)]
pub enum SortDirection {
    Asc,
    Desc,
}

/// Sort specification for search queries.
#[derive(Debug)]
pub struct Sort {
    pub field: String,
    pub direction: SortDirection,
}

pub open spec fn direction_name(d: SortDirection) -> Seq<char> {
    match d {
        SortDirection::Asc => "asc"@,
        SortDirection::Desc => "desc"@,
    }
}

/// The sort order written in a query: the first word is the field (`date`
/// when there is none); the order ascends only when the second word is `asc`.
pub open spec fn sort_of_words(w: Seq<Seq<char>>) -> (Seq<char>, SortDirection) {
    (
        if w.len() > 0 {
            w[0]
        } else {
            "date"@
        },
        if w.len() > 1 && w[1] == "asc"@ {
            SortDirection::Asc
        } else {
            SortDirection::Desc
        },
    )
}

impl Sort {
    pub fn new(field: &str, direction: SortDirection) -> (r: Self)
        ensures
            r.field@ == field@,
            r.direction == direction,
    {
        Sort { field: String::from_str(field), direction }
    }

    pub fn date_desc() -> (r: Self)
        ensures
            r.field@ == "date"@,
            r.direction == SortDirection::Desc,
    {
        Sort::new("date", SortDirection::Desc)
    }

    pub fn citation_count_desc() -> (r: Self)
        ensures
            r.field@ == "citation_count"@,
            r.direction == SortDirection::Desc,
    {
        Sort::new("citation_count", SortDirection::Desc)
    }

    pub fn score_desc() -> (r: Self)
        ensures
            r.field@ == "score"@,
            r.direction == SortDirection::Desc,
    {
        Sort::new("score", SortDirection::Desc)
    }

    /// The form the API takes: the field, a space, and `asc` or `desc`.
    pub fn to_sort_string(&self) -> (r: String)
        ensures
            r@ == self.field@ + " "@ + direction_name(self.direction),
    {
        let mut s = self.field.clone();
        push_str(&mut s, " ");
        match self.direction {
            SortDirection::Asc => push_str(&mut s, "asc"),
            SortDirection::Desc => push_str(&mut s, "desc"),
        }
        s
    }
}

/// Reads a sort order such as `citation_count desc`.
pub fn parse_sort(s: &str) -> (r: Sort)
    ensures
        (r.field@, r.direction) == sort_of_words(words(s@)),
{
    let w = split_words(s);
    let ghost wv = w@.map_values(|x: String| x@);
    proof {
        assert(w@.len() == wv.len());
    }
    let direction = if w.len() > 1 && same_text(w[1].as_str(), "asc") {
        SortDirection::Asc
    } else {
        SortDirection::Desc
    };
    if w.len() > 0 {
        proof {
            assert(wv[0] == w@[0]@);
        }
        Sort::new(w[0].as_str(), direction)
    } else {
        Sort::new("date", direction)
    }
}

} // verus!
