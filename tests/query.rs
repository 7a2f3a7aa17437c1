use scix_client::QueryBuilder;

#[test]
fn test_simple_author_query() {
    let q = QueryBuilder::new().author("Einstein").build();
    assert_eq!(q, "author:\"Einstein\"");
}

#[test]
fn test_combined_query() {
    let q = QueryBuilder::new()
        .author("Einstein")
        .and()
        .year_range(1905, 1910)
        .build();
    assert_eq!(q, "author:\"Einstein\" AND year:[1905 TO 1910]");
}

#[test]
fn test_complex_query() {
    let q = QueryBuilder::new()
        .first_author("Weinberg")
        .and()
        .title("cosmological constant")
        .and()
        .property("refereed")
        .build();
    assert_eq!(
        q,
        "first_author:\"Weinberg\" AND title:\"cosmological constant\" AND property:refereed"
    );
}

#[test]
fn test_citations_of() {
    let q = QueryBuilder::citations_of("2023ApJ...123..456A").build();
    assert_eq!(q, "citations(bibcode:2023ApJ...123..456A)");
}

#[test]
fn test_raw_fragment() {
    let q = QueryBuilder::new()
        .raw("full_text:\"galaxy cluster\"")
        .and()
        .year(2023)
        .build();
    assert_eq!(q, "full_text:\"galaxy cluster\" AND year:2023");
}

#[test]
fn test_display_trait() {
    let q = QueryBuilder::new().author("Hawking").and().year(1974);
    assert_eq!(q.to_query_string(), "author:\"Hawking\" AND year:1974");
}

#[test]
fn empty_builder_builds_empty_query() {
    assert_eq!(QueryBuilder::new().build(), "");
}

#[test]
fn every_field_term_has_its_form() {
    let q = QueryBuilder::new()
        .abstract_contains("dark matter")
        .or()
        .bibcode("2020A&A...1A")
        .exclude()
        .doi("10.1/x")
        .arxiv("2301.00001")
        .object("M31")
        .bibstem("ApJ")
        .doctype("article")
        .orcid("0000-0001")
        .year(0)
        .build();
    assert_eq!(
        q,
        "abs:\"dark matter\" OR bibcode:2020A&A...1A NOT doi:\"10.1/x\" identifier:arXiv:2301.00001 object:\"M31\" bibstem:ApJ doctype:article orcid:0000-0001 year:0"
    );
}

#[test]
fn functional_operators() {
    assert_eq!(QueryBuilder::references_of("X").build(), "references(bibcode:X)");
    assert_eq!(QueryBuilder::similar_to("X").build(), "similar(bibcode:X)");
    assert_eq!(QueryBuilder::trending("X").build(), "trending(bibcode:X)");
    assert_eq!(QueryBuilder::new().year_range(65535, 7).build(), "year:[65535 TO 7]");
}
