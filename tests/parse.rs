use scix_client::parse::{
    extract_arxiv_id, is_bare_new_arxiv_id, parse_export_response, parse_search_response,
};
use scix_client::{Author, PdfLink, PdfLinkType, SciXError};

const SAMPLE_RESPONSE: &str = r#"{
    "response": {
        "docs": [{
            "bibcode": "2023ApJ...123..456A",
            "title": ["A Great Paper About Stars"],
            "author": ["Author, First", "Researcher, Second"],
            "year": "2023",
            "pub": "The Astrophysical Journal",
            "doi": ["10.3847/1234-5678"],
            "identifier": ["arXiv:2301.12345"],
            "esources": ["EPRINT_PDF", "PUB_PDF"]
        }],
        "numFound": 1
    }
}"#;

#[test]
fn test_parse_search_response() {
    let result = parse_search_response(SAMPLE_RESPONSE).unwrap();
    assert_eq!(result.papers.len(), 1);
    assert_eq!(result.num_found, 1);

    let paper = &result.papers[0];
    assert_eq!(paper.title, "A Great Paper About Stars");
    assert_eq!(paper.authors.len(), 2);
    assert_eq!(paper.year, Some(2023));
    assert_eq!(paper.bibcode, "2023ApJ...123..456A");
    assert_eq!(paper.doi, Some("10.3847/1234-5678".to_string()));
    assert_eq!(paper.arxiv_id, Some("2301.12345".to_string()));
}

#[test]
fn test_parse_search_response_with_year_as_int() {
    let json = r#"{
        "response": {
            "docs": [{
                "bibcode": "2024ApJ...999..001B",
                "title": ["Paper with Integer Year"],
                "author": ["Author, Test"],
                "year": 2024,
                "pub": "The Astrophysical Journal"
            }],
            "numFound": 1
        }
    }"#;

    let result = parse_search_response(json).unwrap();
    assert_eq!(result.papers.len(), 1);
    assert_eq!(result.papers[0].year, Some(2024));
}

#[test]
fn test_parse_export_response() {
    let json = r#"{"export": "@article{2023ApJ...123..456A,\n  title={A Paper}\n}"}"#;
    let bibtex = parse_export_response(json).unwrap();
    assert!(bibtex.contains("@article"));
}

#[test]
fn test_build_pdf_links() {
    let esources = vec!["EPRINT_PDF".to_string(), "PUB_PDF".to_string()];
    let links = PdfLink::from_esources(
        &esources,
        Some("10.1234/test"),
        Some("2301.12345"),
        "2023ApJ...",
    );

    assert!(links.iter().any(|l| l.url.contains("arxiv.org")));
    assert!(links.iter().any(|l| l.url.contains("doi.org")));
}

#[test]
fn test_build_pdf_links_ads_scan() {
    let esources = vec!["ADS_SCAN".to_string()];
    let links = PdfLink::from_esources(&esources, None, None, "1990ApJ...353..159B");

    assert_eq!(links.len(), 1);
    assert_eq!(links[0].link_type, PdfLinkType::AdsScan);
    assert!(links[0].url.contains("articles.adsabs.harvard.edu"));
}

#[test]
fn test_parse_ads_author() {
    let author = Author::from_ads_format("Einstein, Albert");
    assert_eq!(author.family_name, "Einstein");
    assert_eq!(author.given_name, Some("Albert".to_string()));
    assert_eq!(author.display_name(), "Albert Einstein");
    assert_eq!(author.bibtex_name(), "Einstein, Albert");
}

#[test]
fn test_parse_ads_author_single_name() {
    let author = Author::from_ads_format("Collaboration");
    assert_eq!(author.family_name, "Collaboration");
    assert!(author.given_name.is_none());
}

#[test]
fn test_extract_arxiv_id_prefixed() {
    let ids = vec!["arXiv:2301.12345".to_string()];
    assert_eq!(extract_arxiv_id(&ids), Some("2301.12345".to_string()));
}

#[test]
fn test_extract_arxiv_id_bare() {
    let ids = vec!["2301.12345".to_string()];
    assert_eq!(extract_arxiv_id(&ids), Some("2301.12345".to_string()));
}

#[test]
fn test_extract_arxiv_id_old_format() {
    let ids = vec!["arXiv:astro-ph/9901313".to_string()];
    assert_eq!(
        extract_arxiv_id(&ids),
        Some("astro-ph/9901313".to_string())
    );
}

#[test]
fn test_extract_arxiv_id_with_version() {
    let ids = vec!["arXiv:2301.12345v2".to_string()];
    assert_eq!(extract_arxiv_id(&ids), Some("2301.12345v2".to_string()));
}

#[test]
fn test_extract_arxiv_id_doi_not_matched() {
    let ids = vec!["10.1086/300151".to_string()];
    assert_eq!(extract_arxiv_id(&ids), None);
}

#[test]
fn test_extract_arxiv_id_bibcode_not_matched() {
    let ids = vec!["1999AJ....117.2063K".to_string()];
    assert_eq!(extract_arxiv_id(&ids), None);
}

#[test]
fn test_extract_arxiv_id_arxiv_doi_not_matched() {
    let ids = vec!["10.48550/arXiv.astro-ph/9901313".to_string()];
    assert_eq!(extract_arxiv_id(&ids), None);
}

#[test]
fn test_extract_arxiv_id_mixed_identifiers() {
    let ids = vec![
        "1999AJ....117.2063K".to_string(),
        "10.1086/300151".to_string(),
        "arXiv:astro-ph/9901313".to_string(),
        "10.48550/arXiv.astro-ph/9901313".to_string(),
    ];
    assert_eq!(
        extract_arxiv_id(&ids),
        Some("astro-ph/9901313".to_string())
    );
}

#[test]
fn test_extract_arxiv_id_empty() {
    assert_eq!(extract_arxiv_id(&[]), None);
}

#[test]
fn test_document_with_empty_title_filtered() {
    let json = r#"{
        "response": {
            "docs": [
                {
                    "bibcode": "2023ApJ...123..456A",
                    "title": [""],
                    "author": ["Author, Test"]
                },
                {
                    "bibcode": "2023ApJ...789..012B",
                    "title": ["Real Paper"],
                    "author": ["Author, Test"]
                }
            ],
            "numFound": 2
        }
    }"#;

    let result = parse_search_response(json).unwrap();
    assert_eq!(result.papers.len(), 1);
    assert_eq!(result.papers[0].title, "Real Paper");
}

#[test]
fn bare_arxiv_ids() {
    assert!(is_bare_new_arxiv_id("2301.1234"));
    assert!(is_bare_new_arxiv_id("2301.12345v12"));
    assert!(is_bare_new_arxiv_id("2301.12345v"));
    assert!(!is_bare_new_arxiv_id("2301.123456"));
    assert!(!is_bare_new_arxiv_id("v2301.12345"));
    assert!(!is_bare_new_arxiv_id("23010.1234"));
    assert!(!is_bare_new_arxiv_id(""));
}

#[test]
fn malformed_search_body_is_a_parse_error() {
    assert!(matches!(parse_search_response("{"), Err(SciXError::Parse(_))));
    assert!(matches!(parse_search_response("{\"response\":{}}"), Err(SciXError::Parse(_))));
    assert!(matches!(parse_export_response("[]"), Err(SciXError::Parse(_))));
}

#[test]
fn record_fields_are_read() {
    let json = r#"{"response":{"docs":[{"bibcode":"B","title":["T"],"author":["Ann Lee Smith","Solo"],
        "year":"70000","citation_count":-3,"property":["REFEREED"],"esources":["eprint_pdf","pub_html"],
        "doi":["10.1/x","10.2/y"],"identifier":["1999AJ....117.2063K","2301.00001v3"],
        "abstract":"A","doctype":"article"}]}}"#;
    let r = parse_search_response(json).unwrap();
    assert_eq!(r.num_found, 0);
    let p = &r.papers[0];
    assert_eq!(p.year, None);
    assert_eq!(p.citation_count, Some(0));
    assert_eq!(p.authors[0].family_name, "Smith");
    assert_eq!(p.authors[0].given_name, Some("Ann Lee".to_string()));
    assert_eq!(p.authors[1].family_name, "Solo");
    assert_eq!(p.doi, Some("10.1/x".to_string()));
    assert_eq!(p.arxiv_id, Some("2301.00001v3".to_string()));
    assert_eq!(p.url, "https://scixplorer.org/abs/B");
    assert_eq!(p.properties, vec!["REFEREED".to_string()]);
    assert_eq!(p.pdf_links.len(), 2);
    assert_eq!(p.pdf_links[0].url, "https://arxiv.org/pdf/2301.00001v3.pdf");
    assert_eq!(p.pdf_links[1].url, "https://doi.org/10.1/x");
    assert_eq!(p.pdf_links[1].link_type, PdfLinkType::Publisher);
}

#[test]
fn trimmed_author_parts() {
    let a = Author::from_ads_format("  Curie ,  Marie  ");
    assert_eq!(a.family_name, "Curie");
    assert_eq!(a.given_name, Some("Marie".to_string()));
    assert_eq!(a.name, "  Curie ,  Marie  ");
}
