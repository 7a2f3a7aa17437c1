//! The fixed data that the protocol serves: the handshake, the tool
//! catalog, and the two reference documents.

use vstd::prelude::*;

verus! {

/// The result of the initialization handshake.
pub const INITIALIZE_RESULT: &'static str = r#"{"capabilities":{"resources":{},"tools":{}},"protocolVersion":"2024-11-05","serverInfo":{"name":"scix-mcp","version":"0.1.0"}}"#;

/// The catalog of tools: name, description, argument schema and behavioural
/// hints of each.
pub const TOOL_CATALOG: &'static str = r#"[{"annotations":{"destructiveHint":false,"idempotentHint":true,"openWorldHint":true,"readOnlyHint":true},"description":"Search the SciX / NASA ADS database. Supports field queries (author, title, abstract, year, etc.), boolean operators, and functional operators (citations(), references(), similar()).","inputSchema":{"properties":{"fields":{"description":"Comma-separated fields to return","type":"string"},"query":{"description":"ADS query string (e.g., 'author:\"Einstein\" year:1905')","type":"string"},"rows":{"default":10,"description":"Max results (default 10)","type":"integer"},"sort":{"description":"Sort order (e.g., 'date desc', 'citation_count desc')","type":"string"},"start":{"default":0,"description":"Starting index for pagination (default 0)","type":"integer"}},"required":["query"],"type":"object"},"name":"scix_search"},{"annotations":{"destructiveHint":false,"idempotentHint":true,"openWorldHint":true,"readOnlyHint":true},"description":"Search within a set of known bibcodes. Useful for filtering a collection of papers.","inputSchema":{"properties":{"bibcodes":{"description":"List of bibcodes to search within","items":{"type":"string"},"type":"array"},"query":{"description":"Optional additional query filter","type":"string"}},"required":["bibcodes"],"type":"object"},"name":"scix_bigquery"},{"annotations":{"destructiveHint":false,"idempotentHint":true,"openWorldHint":true,"readOnlyHint":true},"description":"Export papers in citation formats (bibtex, ris, aastex, mnras, ieee, csl, etc.).","inputSchema":{"properties":{"bibcodes":{"description":"Bibcodes to export","items":{"type":"string"},"type":"array"},"format":{"default":"bibtex","description":"Export format (bibtex, ris, aastex, mnras, ieee, csl, etc.)","type":"string"}},"required":["bibcodes"],"type":"object"},"name":"scix_export"},{"annotations":{"destructiveHint":false,"idempotentHint":true,"openWorldHint":true,"readOnlyHint":true},"description":"Get citation metrics (h-index, g-index, citation counts) for a set of papers.","inputSchema":{"properties":{"bibcodes":{"description":"Bibcodes to get metrics for","items":{"type":"string"},"type":"array"}},"required":["bibcodes"],"type":"object"},"name":"scix_metrics"},{"annotations":{"destructiveHint":false,"idempotentHint":false,"openWorldHint":true,"readOnlyHint":false},"description":"Manage SciX personal libraries (list, get, create, edit, delete, permissions, transfer).","inputSchema":{"properties":{"action":{"enum":["list","get","create","edit","delete","permissions","update_permissions","transfer"],"type":"string"},"description":{"description":"Library description (for create/edit)","type":"string"},"email":{"description":"Collaborator email (for update_permissions/transfer)","type":"string"},"id":{"description":"Library ID (for get/edit/delete/permissions/update_permissions/transfer)","type":"string"},"name":{"description":"Library name (for create/edit)","type":"string"},"permission":{"description":"Permission level: owner, admin, write, read (for update_permissions)","enum":["owner","admin","write","read"],"type":"string"},"public":{"description":"Public visibility (for create/edit)","type":"boolean"}},"required":["action"],"type":"object"},"name":"scix_library"},{"annotations":{"destructiveHint":false,"idempotentHint":false,"openWorldHint":true,"readOnlyHint":false},"description":"Manage documents in a SciX library: add/remove bibcodes, notes, set operations (union/intersection/difference/copy/empty), or add by search query.","inputSchema":{"properties":{"action":{"enum":["add","remove","get_notes","add_note","edit_note","delete_note","union","intersection","difference","copy","empty","add_by_query"],"type":"string"},"bibcode":{"description":"Single bibcode (for note operations)","type":"string"},"bibcodes":{"description":"Bibcodes to add/remove","items":{"type":"string"},"type":"array"},"content":{"description":"Note content (for add_note/edit_note)","type":"string"},"libraries":{"description":"Source library IDs (for set operations: union/intersection/difference/copy)","items":{"type":"string"},"type":"array"},"library_id":{"description":"Library ID","type":"string"},"query":{"description":"Search query (for add_by_query)","type":"string"},"rows":{"description":"Max documents to add by query (default 50)","type":"integer"}},"required":["action","library_id"],"type":"object"},"name":"scix_library_documents"},{"annotations":{"destructiveHint":false,"idempotentHint":true,"openWorldHint":true,"readOnlyHint":true},"description":"Find papers frequently co-cited with the given set but not yet included.","inputSchema":{"properties":{"bibcodes":{"description":"Bibcodes for co-citation analysis","items":{"type":"string"},"type":"array"}},"required":["bibcodes"],"type":"object"},"name":"scix_citation_helper"},{"annotations":{"destructiveHint":false,"idempotentHint":true,"openWorldHint":true,"readOnlyHint":true},"description":"Get author collaboration or paper citation network data.","inputSchema":{"properties":{"bibcodes":{"description":"Bibcodes for network analysis","items":{"type":"string"},"type":"array"},"type":{"default":"author","description":"Network type","enum":["author","paper"],"type":"string"}},"required":["bibcodes"],"type":"object"},"name":"scix_network"},{"annotations":{"destructiveHint":false,"idempotentHint":true,"openWorldHint":true,"readOnlyHint":true},"description":"Resolve astronomical object names (M31, NGC 1234, Crab Nebula) via SIMBAD/NED.","inputSchema":{"properties":{"objects":{"description":"Object names to resolve","items":{"type":"string"},"type":"array"}},"required":["objects"],"type":"object"},"name":"scix_object_search"},{"annotations":{"destructiveHint":false,"idempotentHint":true,"openWorldHint":true,"readOnlyHint":true},"description":"Resolve free-text references to bibcodes (e.g., 'Einstein 1905 Annalen der Physik 17 891').","inputSchema":{"properties":{"references":{"description":"Free-text reference strings","items":{"type":"string"},"type":"array"}},"required":["references"],"type":"object"},"name":"scix_resolve_reference"},{"annotations":{"destructiveHint":false,"idempotentHint":true,"openWorldHint":true,"readOnlyHint":true},"description":"Resolve links for a paper (full-text, datasets, citations, references).","inputSchema":{"properties":{"bibcode":{"description":"Paper bibcode","type":"string"},"link_type":{"description":"Specific link type (optional)","enum":["esource","data","citation","reference","coreads"],"type":"string"}},"required":["bibcode"],"type":"object"},"name":"scix_resolve_links"},{"annotations":{"destructiveHint":false,"idempotentHint":true,"openWorldHint":true,"readOnlyHint":true},"description":"Get detailed metadata for a single paper by bibcode, including abstract, affiliations, keywords, and links.","inputSchema":{"properties":{"bibcode":{"description":"Paper bibcode","type":"string"}},"required":["bibcode"],"type":"object"},"name":"scix_get_paper"}]"#;

/// The catalog of reference documents.
pub const RESOURCE_CATALOG: &'static str = r#"{"resources":[{"description":"List of searchable and returnable fields in ADS","mimeType":"text/plain","name":"SciX Searchable Fields","uri":"scix://fields"},{"description":"Guide to ADS query syntax","mimeType":"text/plain","name":"SciX Query Syntax","uri":"scix://syntax"}]}"#;

/// The URI of the reference on searchable fields.
pub const FIELDS_URI: &'static str = "scix://fields";

/// The URI of the reference on query syntax.
pub const SYNTAX_URI: &'static str = "scix://syntax";

/// Reference text on the searchable and returnable fields.
pub const FIELDS_REFERENCE: &'static str = r#"SciX Searchable Fields
======================

Common search fields:
  author       - Author name (e.g., author:"Einstein, A.")
  first_author - First author only
  title        - Title words
  abs          - Abstract words
  year         - Publication year (e.g., year:2023 or year:[2020 TO 2023])
  bibcode      - ADS bibcode
  doi          - Digital Object Identifier
  identifier   - Any identifier (DOI, arXiv, bibcode)
  bibstem      - Journal abbreviation (e.g., bibstem:ApJ)
  object       - Astronomical object name
  orcid        - Author ORCID
  keyword      - Keywords
  full         - Full text search
  property     - Paper properties (refereed, openaccess, etc.)
  doctype      - Document type (article, inproceedings, etc.)

Common returnable fields:
  bibcode, title, author, year, pub, abstract, doi, identifier,
  doctype, esources, citation_count, reference, property, aff,
  orcid_pub, keyword, volume, page, read_count
"#;

/// Reference text on the query syntax.
pub const SYNTAX_REFERENCE: &'static str = r#"SciX Query Syntax Guide
=======================

Field queries:
  author:"Einstein"           - Author search
  title:"dark matter"         - Title search
  year:2023                   - Exact year
  year:[2020 TO 2023]         - Year range

Boolean operators:
  term1 AND term2             - Both terms
  term1 OR term2              - Either term
  NOT term                    - Exclude term
  (term1 OR term2) AND term3  - Grouping

Functional operators:
  citations(bibcode:XXX)      - Papers citing XXX
  references(bibcode:XXX)     - Papers referenced by XXX
  similar(bibcode:XXX)        - Content-similar papers
  trending(bibcode:XXX)       - Trending co-reads
  reviews(bibcode:XXX)        - Review articles

Wildcards:
  author:"Eins*"              - Prefix matching
  title:galax?                - Single character wildcard

Properties:
  property:refereed           - Refereed papers only
  property:openaccess         - Open access papers
  property:nonarticle         - Non-article documents

Sort options:
  date desc                   - Newest first (default)
  citation_count desc         - Most cited first
  score desc                  - Best match first
  read_count desc             - Most read first
"#;

} // verus!
