use pngx::{
    resolve_document, resolve_documents, ApiError, Client, Correspondent, Document, DocumentType,
    NameResolver, PaginatedResponse, Step, Tag,
};

const BASE: &str = "https://paperless.example.com";

fn page<T>(results: Vec<T>, next: Option<&str>) -> PaginatedResponse<T> {
    PaginatedResponse { count: 3, next: next.map(str::to_string), previous: None, results }
}

fn tag(id: u64, name: &str) -> Tag {
    Tag {
        id,
        name: name.to_string(),
        slug: Some(name.to_lowercase()),
        color: None,
        is_inbox_tag: None,
        document_count: None,
    }
}

fn correspondent(id: u64, name: &str) -> Correspondent {
    Correspondent { id, name: name.to_string(), slug: Some(name.to_lowercase()), document_count: None }
}

fn document_type(id: u64, name: &str) -> DocumentType {
    DocumentType { id, name: name.to_string(), slug: Some(name.to_lowercase()), document_count: None }
}

fn document(id: u64, tags: Vec<u64>) -> Document {
    Document {
        id,
        title: format!("Document {id}"),
        content: Some("text".to_string()),
        correspondent: None,
        document_type: None,
        tags,
        created: None,
        added: None,
        archive_serial_number: None,
        original_file_name: None,
    }
}

#[test]
fn known_and_unknown_tags_are_named() {
    let resolver = NameResolver::from_records(&[tag(1, "Invoice")], &[], &[]);
    let resolved = resolve_documents(&[document(5, vec![1, 99])], &resolver);
    assert_eq!(resolved.len(), 1);
    assert_eq!(resolved[0].tags, vec![1, 99]);
    assert_eq!(resolved[0].tag_names, vec!["Invoice".to_string(), "#99".to_string()]);
}

#[test]
fn unknown_tag_gets_a_placeholder() {
    let resolver = NameResolver::from_records(&[tag(1, "Invoice")], &[], &[]);
    assert_eq!(resolver.tag_name(1), "Invoice");
    assert_eq!(resolver.tag_name(99), "#99");
    assert_eq!(resolver.tag_name(0), "#0");
    assert_eq!(resolver.tag_name(10), "#10");
    assert_eq!(resolver.tag_name(u64::MAX), "#18446744073709551615");
}

#[test]
fn unknown_correspondent_and_type_are_absent() {
    let resolver = NameResolver::from_records(
        &[tag(1, "Invoice")],
        &[correspondent(2, "ACME Corp")],
        &[document_type(3, "Letter")],
    );
    assert_eq!(resolver.correspondent_name(2), Some("ACME Corp".to_string()));
    assert_eq!(resolver.correspondent_name(1), None);
    assert_eq!(resolver.correspondent_name(3), None);
    assert_eq!(resolver.document_type_name(3), Some("Letter".to_string()));
    assert_eq!(resolver.document_type_name(2), None);
    assert_eq!(resolver.document_type_name(u64::MAX), None);
}

#[test]
fn lookups_do_not_mix_collections() {
    let resolver = NameResolver::from_records(
        &[tag(7, "Tag")],
        &[correspondent(7, "Correspondent")],
        &[document_type(7, "Type")],
    );
    assert_eq!(resolver.tag_name(7), "Tag");
    assert_eq!(resolver.correspondent_name(7), Some("Correspondent".to_string()));
    assert_eq!(resolver.document_type_name(7), Some("Type".to_string()));
}

#[test]
fn empty_resolver_knows_nothing() {
    let resolver = NameResolver::from_records(&[], &[], &[]);
    assert_eq!(resolver.tag_name(4), "#4");
    assert_eq!(resolver.correspondent_name(4), None);
    assert_eq!(resolver.document_type_name(4), None);
}

#[test]
fn later_record_names_a_repeated_identifier() {
    let resolver = NameResolver::from_records(
        &[tag(1, "Old"), tag(2, "Other"), tag(1, "New")],
        &[correspondent(1, "First"), correspondent(1, "Second")],
        &[],
    );
    assert_eq!(resolver.tag_name(1), "New");
    assert_eq!(resolver.tag_name(2), "Other");
    assert_eq!(resolver.correspondent_name(1), Some("Second".to_string()));
}

#[test]
fn resolution_keeps_the_document() {
    let resolver = NameResolver::from_records(
        &[tag(1, "Invoice"), tag(2, "Paid")],
        &[correspondent(2, "ACME Corp")],
        &[document_type(3, "Letter")],
    );
    let mut doc = document(42, vec![2, 1, 2]);
    doc.correspondent = Some(2);
    doc.document_type = Some(3);
    doc.created = Some(jiff::civil::date(2024, 1, 1));
    doc.added = Some(jiff::Timestamp::from_second(1_704_067_200).expect("a timestamp"));
    doc.archive_serial_number = Some(17);
    doc.original_file_name = Some("scan.pdf".to_string());
    let resolved = resolve_document(&doc, &resolver);
    assert_eq!(resolved.id, 42);
    assert_eq!(resolved.title, "Document 42");
    assert_eq!(resolved.correspondent, Some(2));
    assert_eq!(resolved.correspondent_name, Some("ACME Corp".to_string()));
    assert_eq!(resolved.document_type, Some(3));
    assert_eq!(resolved.document_type_name, Some("Letter".to_string()));
    assert_eq!(resolved.tags, vec![2, 1, 2]);
    assert_eq!(resolved.tag_names, vec!["Paid", "Invoice", "Paid"]);
    assert_eq!(resolved.created, doc.created);
    assert_eq!(resolved.added, doc.added);
    assert_eq!(resolved.archive_serial_number, Some(17));
    assert_eq!(resolved.original_file_name, Some("scan.pdf".to_string()));
}

#[test]
fn dangling_references_keep_their_identifier() {
    let resolver = NameResolver::from_records(&[], &[], &[]);
    let mut doc = document(1, vec![]);
    doc.correspondent = Some(8);
    doc.document_type = Some(9);
    let resolved = resolve_document(&doc, &resolver);
    assert_eq!(resolved.correspondent, Some(8));
    assert_eq!(resolved.correspondent_name, None);
    assert_eq!(resolved.document_type, Some(9));
    assert_eq!(resolved.document_type_name, None);
    assert!(resolved.tag_names.is_empty());
}

#[test]
fn documents_are_resolved_in_order() {
    let resolver = NameResolver::from_records(&[tag(1, "Invoice")], &[], &[]);
    let docs = vec![document(3, vec![1]), document(1, vec![]), document(2, vec![5, 1])];
    let resolved = resolve_documents(&docs, &resolver);
    assert_eq!(resolved.iter().map(|d| d.id).collect::<Vec<u64>>(), vec![3, 1, 2]);
    assert_eq!(resolved[0].tag_names, vec!["Invoice"]);
    assert!(resolved[1].tag_names.is_empty());
    assert_eq!(resolved[2].tag_names, vec!["#5", "Invoice"]);
    assert!(resolve_documents(&[], &resolver).is_empty());
}

#[test]
fn names_are_fetched_stage_by_stage() {
    let client = Client::new(BASE, "test-token").expect("client creation should succeed");
    let fetching = NameResolver::fetch(&client).expect("the fetch should start");
    let request = fetching.request();
    assert_eq!(request.url, format!("{BASE}/api/tags/?page_size=100"));
    assert_eq!(request.authorization, "Token test-token");

    let second = format!("{BASE}/api/tags/?page=2&page_size=100");
    let fetching = match fetching.receive(page(vec![tag(1, "Invoice")], Some(second.as_str()))) {
        Ok(Step::More(fetching)) => fetching,
        _ => panic!("the tags are not complete"),
    };
    assert_eq!(fetching.request().url, second);
    let fetching = match fetching.receive(page(vec![tag(2, "Paid")], None)) {
        Ok(Step::Next(fetching)) => fetching,
        _ => panic!("the tags are complete"),
    };
    assert_eq!(fetching.request().url, format!("{BASE}/api/correspondents/?page_size=100"));
    let fetching = match fetching.receive(page(vec![correspondent(2, "ACME Corp")], None)) {
        Ok(Step::Next(fetching)) => fetching,
        _ => panic!("the correspondents are complete"),
    };
    assert_eq!(fetching.request().url, format!("{BASE}/api/document_types/?page_size=100"));
    let third = format!("{BASE}/api/document_types/?page=2&page_size=100");
    let fetching = match fetching.receive(page(vec![document_type(3, "Letter")], Some(&third))) {
        Ok(Step::More(fetching)) => fetching,
        _ => panic!("the document types are not complete"),
    };
    assert_eq!(fetching.request().url, third);
    let resolver = match fetching.receive(page(vec![document_type(4, "Bill")], None)) {
        Ok(Step::Next(resolver)) => resolver,
        _ => panic!("the document types are complete"),
    };
    assert_eq!(resolver.tag_name(1), "Invoice");
    assert_eq!(resolver.tag_name(2), "Paid");
    assert_eq!(resolver.tag_name(3), "#3");
    assert_eq!(resolver.correspondent_name(2), Some("ACME Corp".to_string()));
    assert_eq!(resolver.document_type_name(3), Some("Letter".to_string()));
    assert_eq!(resolver.document_type_name(4), Some("Bill".to_string()));
}

#[test]
fn names_are_fetched_without_a_limit() {
    let client = Client::builder(BASE, "t").page_size(2).build().expect("a client");
    let fetching = NameResolver::fetch(&client).expect("the fetch should start");
    let many: Vec<Tag> = (0..500).map(|id| tag(id, "T")).collect();
    let next = format!("{BASE}/api/tags/?page=2&page_size=2");
    match fetching.receive(page(many, Some(next.as_str()))) {
        Ok(Step::More(fetching)) => assert_eq!(fetching.request().url, next),
        _ => panic!("a full page does not end an unlimited collection"),
    }
}

#[test]
fn failed_stage_leaves_no_resolver() {
    let client = Client::new(BASE, "t").expect("a client");
    let fetching = NameResolver::fetch(&client).expect("the fetch should start");
    let downgraded = "http://paperless.example.com/api/tags/?page=2";
    match fetching.receive(page(vec![tag(1, "Invoice")], Some(downgraded))) {
        Err(e) => assert_eq!(
            e,
            ApiError::SchemeMismatch { expected: "https".to_string(), returned: "http".to_string() }
        ),
        Ok(_) => panic!("a page under another scheme is not followed"),
    }

    let fetching = NameResolver::fetch(&client).expect("the fetch should start");
    let fetching = match fetching.receive(page(vec![tag(1, "Invoice")], None)) {
        Ok(Step::Next(fetching)) => fetching,
        _ => panic!("the tags are complete"),
    };
    match fetching.receive(page(vec![], Some("no address"))) {
        Err(e) => assert!(matches!(e, ApiError::InvalidUrl(_))),
        Ok(_) => panic!("a reference that is no address is not followed"),
    }
}
