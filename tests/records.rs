use scix_client::format::{format_paper, format_search_results, paper_detail};
use scix_client::libraries::{
    parse_annotation, parse_created_library, parse_libraries, parse_library_detail,
    parse_resolved_references,
};
use scix_client::requests::{
    bigquery_request, create_library_request, edit_library_request, export_request,
    links_request, metrics_request, objects_request, references_request, search_request,
    HttpMethod,
};
use scix_client::setup::{mask_token, EditorTarget};
use scix_client::types::parse_sort;
use scix_client::parse::parse_search_response;
use scix_client::{Author, ExportFormat, SciXError, SearchResponse, Sort, SortDirection};

fn sample(num_found: u64) -> SearchResponse {
    let json = r#"{"response":{"docs":[
        {"bibcode":"B1","title":["First"],"author":["A, a","B, b","C, c","D, d"],"year":2001,"doi":["10.1/d"],"citation_count":12},
        {"bibcode":"B2","title":["Second"],"author":["Lee, Ann","Kim, Bo"]}
    ]}}"#;
    let mut r = parse_search_response(json).unwrap();
    r.num_found = num_found;
    r
}

#[test]
fn search_listing_is_exact() {
    let text = format_search_results(&sample(10), 3);
    assert_eq!(
        text,
        "Found 10 results:\n\n4. First (2001)\n   A et al.\n   Bibcode: B1\n   DOI: 10.1/d\n   Citations: 12\n\n5. Second ()\n   Lee, Kim\n   Bibcode: B2\n\n*Use start=5 to see more results*\n"
    );
    let all = format_search_results(&sample(2), 0);
    assert!(all.ends_with("Bibcode: B2\n\n"));
}

#[test]
fn paper_detail_view() {
    let r = sample(2);
    let t = format_paper(&r.papers[1]);
    assert_eq!(
        t,
        "# Second\n\n**Authors:** Lee, Ann; Kim, Bo\n**Year:** \n**Bibcode:** B2\n\n**ADS:** https://scixplorer.org/abs/B2\n"
    );
    let empty = SearchResponse { papers: Vec::new(), num_found: 0 };
    match paper_detail(&empty, "X") {
        Err(SciXError::NotFound(m)) => assert_eq!(m, "Paper not found: X"),
        other => panic!("unexpected {:?}", other),
    }
    let d = paper_detail(&r, "B1").unwrap();
    assert!(d.starts_with("# First\n\n**Authors:** A, a; B, b; C, c; D, d\n**Year:** 2001\n"));
    assert!(d.contains("**DOI:** 10.1/d\n**Citations:** 12\n"));
    assert!(d.contains("\n**Links:**\n- [Publisher](https://doi.org/10.1/d)\n"));
}

#[test]
fn names_of_authors() {
    let a = Author::from_ads_format("Albert Einstein");
    assert_eq!(a.family_name, "Einstein");
    assert_eq!(a.display_name(), "Albert Einstein");
    assert_eq!(a.bibtex_name(), "Einstein, Albert");
    let solo = Author::from_ads_format("  Solo  ");
    assert_eq!(solo.family_name, "  Solo  ");
    assert_eq!(solo.display_name(), "  Solo  ");
}

#[test]
fn export_formats() {
    assert_eq!(ExportFormat::from_str_loose("BibTeX"), Some(ExportFormat::BibTeX));
    assert_eq!(ExportFormat::from_str_loose("RefAbsXml"), Some(ExportFormat::RefAbsXml));
    assert_eq!(ExportFormat::from_str_loose("pdf"), None);
    assert_eq!(ExportFormat::VoTable.as_api_str(), "votable");
    assert_eq!(ExportFormat::from_api_name("BIBTEX"), None);
}

#[test]
fn sort_orders() {
    assert_eq!(Sort::date_desc().to_sort_string(), "date desc");
    assert_eq!(Sort::citation_count_desc().to_sort_string(), "citation_count desc");
    assert_eq!(Sort::score_desc().field, "score");
    assert_eq!(Sort::new("year", SortDirection::Asc).to_sort_string(), "year asc");
    let s = parse_sort("  read_count   asc ");
    assert_eq!(s.field, "read_count");
    assert_eq!(s.direction, SortDirection::Asc);
    let d = parse_sort("");
    assert_eq!(d.field, "date");
    assert_eq!(d.direction, SortDirection::Desc);
}

#[test]
fn outbound_requests() {
    let s = Sort::new("score", SortDirection::Desc);
    let r = search_request("star", "bibcode", Some(&s), 5, 20);
    assert_eq!(r.method, HttpMethod::Get);
    assert_eq!(r.path, "/search/query");
    let q: Vec<(&str, &str)> = r.query.iter().map(|(k, v)| (k.as_str(), v.as_str())).collect();
    assert_eq!(q, vec![("q", "star"), ("fl", "bibcode"), ("rows", "5"), ("start", "20"), ("sort", "score desc")]);

    let codes = vec!["A".to_string(), "B\"".to_string()];
    let b = bigquery_request(&codes, None, Some("title"), None, None);
    assert_eq!(b.body.unwrap(), r#"{"bibcodes":["A","B\""],"query":"q=*:*&fl=title&rows=2&sort=date desc"}"#);

    let e = export_request(&codes, ExportFormat::Ris, Some(&s));
    assert_eq!(e.path, "/export/ris");
    assert_eq!(e.body.unwrap(), r#"{"bibcode":["A","B\""],"sort":"score desc"}"#);

    assert_eq!(
        metrics_request(&codes).body.unwrap(),
        r#"{"bibcodes":["A","B\""],"types":["basic","citations","indicators"]}"#
    );
    assert_eq!(
        objects_request(&vec!["M31".to_string()]).body.unwrap(),
        r#"{"query":["object:\"M31\""]}"#
    );
    assert_eq!(links_request("X", Some("data")).path, "/resolver/X/data");
    assert_eq!(links_request("X", None).path, "/resolver/X");
    let refs = references_request(&codes);
    assert!(refs.plain_text);
    assert_eq!(refs.body.unwrap(), "A\nB\"");

    let c = create_library_request("N", "D", true, None);
    assert_eq!(c.body.unwrap(), r#"{"description":"D","name":"N","public":true}"#);
    let ed = edit_library_request("L", None, Some("x"), Some(false));
    assert_eq!(ed.method, HttpMethod::Put);
    assert_eq!(ed.path, "/biblib/documents/L");
    assert_eq!(ed.body.unwrap(), r#"{"description":"x","public":false}"#);
}

#[test]
fn library_responses() {
    let libs = parse_libraries(
        r#"{"libraries":[{"id":"1","name":"Mine","num_documents":3,"public":true},{"name":"no id"},{"id":"2"}]}"#,
    )
    .unwrap();
    assert_eq!(libs.len(), 2);
    assert_eq!(libs[0].name, "Mine");
    assert_eq!(libs[0].num_documents, 3);
    assert!(libs[0].public);
    assert_eq!(libs[1].id, "2");
    assert_eq!(libs[1].owner, "");
    assert!(matches!(parse_libraries("nope"), Err(SciXError::Parse(_))));

    let d = parse_library_detail("L", r#"{"metadata":{"name":"N"},"documents":["a","b"]}"#).unwrap();
    assert_eq!(d.metadata.id, "L");
    assert_eq!(d.documents, vec!["a".to_string(), "b".to_string()]);

    let c = parse_created_library("N", "D", false, 2, r#"{"id":"new"}"#).unwrap();
    assert_eq!(c.id, "new");
    assert_eq!(c.num_documents, 2);

    assert_eq!(parse_annotation(r#"{"content":"note"}"#).unwrap(), "note");
    assert_eq!(parse_annotation("{}").unwrap(), "");

    let refs = vec!["r1".to_string(), "r2".to_string()];
    let out = parse_resolved_references(&refs, r#"{"resolved":[{"bibcode":"B","score":"1.0"}]}"#).unwrap();
    assert_eq!(out.len(), 1);
    assert_eq!(out[0].reference, "r1");
    assert_eq!(out[0].bibcode, Some("B".to_string()));
}

#[test]
fn tokens_and_editors() {
    assert_eq!(mask_token("abcd1234wxyz"), "abcd...wxyz");
    assert_eq!(mask_token("short"), "****");
    assert_eq!(mask_token("12345678"), "****");
    assert_ne!(EditorTarget::Cursor, EditorTarget::Zed);
}
