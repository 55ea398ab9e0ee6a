use pngx::commands::{
    credentials_file, document_page_url, download_name, fallback_file_name, file_option_allowed,
    has_more, login_mode, masked_line, resolve_limit, stored_name, truncation_notice,
    verbosity_filter, version_for, LoginMode,
};
use pngx::config::{default_page_size, default_timeout, ConfigError, RawConfig};
use pngx::output::{
    display_opt, markdown_detail, markdown_list, DetailView, OutputFormat, Tabular,
};
use pngx::text::{decimal_string, join, starts_with, trim, trim_end, trim_start, trim_trailing};
use pngx::{Correspondent, DocumentType, DocumentVersion, ResolvedDocument, Tag, UiSettingsUser};

fn user(username: &str, first: Option<&str>, last: Option<&str>) -> UiSettingsUser {
    UiSettingsUser {
        username: username.to_string(),
        first_name: first.map(str::to_string),
        last_name: last.map(str::to_string),
    }
}

fn resolved() -> ResolvedDocument {
    ResolvedDocument {
        id: 42,
        title: "Invoice March".to_string(),
        correspondent: Some(2),
        correspondent_name: Some("ACME Corp".to_string()),
        document_type: Some(3),
        document_type_name: None,
        tags: vec![1, 99],
        tag_names: vec!["Invoice".to_string(), "#99".to_string()],
        created: Some(jiff::civil::date(2024, 1, 1)),
        added: Some("2024-01-02T03:04:05Z".parse().expect("a timestamp")),
        archive_serial_number: Some(17),
        original_file_name: Some("scan.pdf".to_string()),
    }
}

fn field(label: &'static str, value: &str) -> (&'static str, String) {
    (label, value.to_string())
}

#[test]
fn display_name_joins_first_and_last_name() {
    assert_eq!(user("ada", Some("Ada"), Some("Lovelace")).display_name(), "Ada Lovelace");
    assert_eq!(user("ada", Some("  Ada "), Some("\tLovelace\n")).display_name(), "Ada Lovelace");
    assert_eq!(user("ada", Some("Mary  Ann"), Some("Evans")).display_name(), "Mary  Ann Evans");
}

#[test]
fn display_name_with_one_name_has_no_stray_space() {
    assert_eq!(user("ada", Some("Ada"), None).display_name(), "Ada");
    assert_eq!(user("ada", None, Some("Lovelace")).display_name(), "Lovelace");
    assert_eq!(user("ada", Some("Ada"), Some("   ")).display_name(), "Ada");
    assert_eq!(user("ada", Some(""), Some("Lovelace")).display_name(), "Lovelace");
}

#[test]
fn display_name_falls_back_to_the_username() {
    assert_eq!(user("ada", None, None).display_name(), "ada");
    assert_eq!(user("ada", Some(""), Some("")).display_name(), "ada");
    assert_eq!(user(" ada ", Some(" \u{a0}"), Some("\n")).display_name(), " ada ");
}

#[test]
fn tag_row_has_four_cells() {
    let tag = Tag {
        id: 1,
        name: "Invoice".to_string(),
        slug: Some("invoice".to_string()),
        color: Some("#ff0000".to_string()),
        is_inbox_tag: Some(false),
        document_count: Some(10),
    };
    assert_eq!(Tag::headers(), &["ID", "Name", "Color", "Documents"]);
    assert_eq!(tag.row(), vec!["1", "Invoice", "#ff0000", "10"]);
    let bare = Tag { color: None, document_count: None, ..tag };
    assert_eq!(bare.row(), vec!["1", "Invoice", "", ""]);
}

#[test]
fn correspondent_and_type_rows_have_three_cells() {
    let correspondent = Correspondent {
        id: 12,
        name: "ACME Corp".to_string(),
        slug: Some("acme-corp".to_string()),
        document_count: Some(0),
    };
    assert_eq!(Correspondent::headers(), &["ID", "Name", "Documents"]);
    assert_eq!(correspondent.row(), vec!["12", "ACME Corp", "0"]);
    let kind = DocumentType {
        id: 3,
        name: "Letter".to_string(),
        slug: Some("letter".to_string()),
        document_count: None,
    };
    assert_eq!(DocumentType::headers(), &["ID", "Name", "Documents"]);
    assert_eq!(kind.row(), vec!["3", "Letter", ""]);
}

#[test]
fn document_row_shows_names_and_date() {
    assert_eq!(
        ResolvedDocument::headers(),
        &["ID", "Title", "Correspondent", "Type", "Created", "Tags"]
    );
    assert_eq!(
        resolved().row(),
        vec!["42", "Invoice March", "ACME Corp", "", "2024-01-01", "Invoice, #99"]
    );
    let bare = ResolvedDocument {
        correspondent_name: None,
        created: None,
        tags: vec![],
        tag_names: vec![],
        ..resolved()
    };
    assert_eq!(bare.row(), vec!["42", "Invoice March", "", "", "", ""]);
}

#[test]
fn document_fields_show_what_is_there() {
    assert_eq!(
        resolved().fields(),
        vec![
            field("ID", "42"),
            field("Title", "Invoice March"),
            field("Created", "2024-01-01"),
            field("Added", "2024-01-02T03:04:05Z"),
            field("Correspondent", "ACME Corp"),
            field("Document Type", "N/A"),
            field("Tags", "Invoice, #99"),
            field("Original File", "scan.pdf"),
            field("ASN", "17"),
        ]
    );
}

#[test]
fn document_fields_leave_out_what_is_missing() {
    let bare = ResolvedDocument {
        created: None,
        added: None,
        correspondent_name: None,
        tag_names: vec![],
        archive_serial_number: None,
        original_file_name: None,
        ..resolved()
    };
    assert_eq!(
        bare.fields(),
        vec![
            field("ID", "42"),
            field("Title", "Invoice March"),
            field("Created", "N/A"),
            field("Added", "N/A"),
            field("Correspondent", "N/A"),
            field("Document Type", "N/A"),
            field("Tags", ""),
        ]
    );
    let serial_only = ResolvedDocument { archive_serial_number: Some(5), ..bare.clone() };
    assert_eq!(serial_only.fields().last(), Some(&field("ASN", "5")));
    assert_eq!(serial_only.fields().len(), 8);
    let file_only = ResolvedDocument { original_file_name: Some("a.pdf".to_string()), ..bare };
    assert_eq!(file_only.fields().last(), Some(&field("Original File", "a.pdf")));
    assert_eq!(file_only.fields().len(), 8);
}

fn kinds() -> Vec<DocumentType> {
    vec![
        DocumentType { id: 2, name: "B".to_string(), slug: Some("b".to_string()), document_count: Some(1) },
        DocumentType {
            id: 1,
            name: "Letter".to_string(),
            slug: Some("letter".to_string()),
            document_count: None,
        },
    ]
}

#[test]
fn markdown_list_has_a_row_for_each_item() {
    assert_eq!(
        markdown_list(&kinds()),
        "| ID | Name   | Documents |\n\
         |----|--------|-----------|\n\
         | 2  | B      | 1         |\n\
         | 1  | Letter |           |"
    );
}

#[test]
fn markdown_list_of_nothing_is_the_header() {
    assert_eq!(
        markdown_list::<Tag>(&[]),
        "| ID | Name | Color | Documents |\n\
         |----|------|-------|-----------|"
    );
}

#[test]
fn markdown_detail_has_a_row_for_each_field() {
    let bare = ResolvedDocument {
        created: None,
        added: None,
        correspondent_name: None,
        tag_names: vec![],
        archive_serial_number: Some(5),
        original_file_name: None,
        ..resolved()
    };
    assert_eq!(
        markdown_detail(&bare),
        "| Field         | Value         |\n\
         |---------------|---------------|\n\
         | ID            | 42            |\n\
         | Title         | Invoice March |\n\
         | Created       | N/A           |\n\
         | Added         | N/A           |\n\
         | Correspondent | N/A           |\n\
         | Document Type | N/A           |\n\
         | Tags          |               |\n\
         | ASN           | 5             |"
    );
}

#[test]
fn format_follows_the_output_format() {
    let json = || Ok::<String, String>("[]".to_string());
    assert_eq!(OutputFormat::Json.format_list(&kinds(), json), Ok("[]".to_string()));
    assert_eq!(OutputFormat::Markdown.format_list(&kinds(), json), Ok(markdown_list(&kinds())));
    assert_eq!(OutputFormat::Json.format_detail(&resolved(), json), Ok("[]".to_string()));
    assert_eq!(
        OutputFormat::Markdown.format_detail(&resolved(), json),
        Ok(markdown_detail(&resolved()))
    );
    let failing = || Err::<String, String>("cannot serialise".to_string());
    assert_eq!(
        OutputFormat::Json.format_list(&kinds(), failing),
        Err("cannot serialise".to_string())
    );
    assert_eq!(
        OutputFormat::Markdown.format_list(&kinds(), failing),
        Ok(markdown_list(&kinds()))
    );
}

#[test]
fn display_opt_shows_the_value_or_the_default() {
    assert_eq!(display_opt(Some(&17u64), "N/A"), "17");
    assert_eq!(display_opt(Some(&jiff::civil::date(1999, 12, 31)), ""), "1999-12-31");
    assert_eq!(display_opt::<u64>(None, "N/A"), "N/A");
    assert_eq!(display_opt::<u64>(None, ""), "");
}

#[test]
fn output_format_defaults_to_markdown() {
    assert_eq!(OutputFormat::default(), OutputFormat::Markdown);
}

#[test]
fn limit_follows_the_options() {
    assert_eq!(resolve_limit(25, false), Some(25));
    assert_eq!(resolve_limit(1, false), Some(1));
    assert_eq!(resolve_limit(0, false), None);
    assert_eq!(resolve_limit(25, true), None);
    assert_eq!(resolve_limit(0, true), None);
}

#[test]
fn verbosity_selects_the_filter() {
    assert_eq!(verbosity_filter(0), "warn");
    assert_eq!(verbosity_filter(1), "info");
    assert_eq!(verbosity_filter(2), "debug");
    assert_eq!(verbosity_filter(3), "trace");
    assert_eq!(verbosity_filter(255), "trace");
}

#[test]
fn notice_is_shown_only_for_a_cut_listing() {
    assert!(has_more(25, 150));
    assert!(!has_more(150, 150));
    assert!(!has_more(151, 150));
    assert_eq!(
        truncation_notice(25, 150),
        Some("Showing 25 of 150 results (use -n to change limit or --all to fetch all)".to_string())
    );
    assert_eq!(
        truncation_notice(0, 1),
        Some("Showing 0 of 1 results (use -n to change limit or --all to fetch all)".to_string())
    );
    assert_eq!(truncation_notice(150, 150), None);
    assert_eq!(truncation_notice(0, 0), None);
}

#[test]
fn document_page_url_drops_trailing_slashes() {
    assert_eq!(
        document_page_url("https://paperless.example.com/", 42),
        "https://paperless.example.com/documents/42/details"
    );
    assert_eq!(
        document_page_url("https://paperless.example.com", 42),
        "https://paperless.example.com/documents/42/details"
    );
    assert_eq!(
        document_page_url("https://example.com/paperless///", 7),
        "https://example.com/paperless/documents/7/details"
    );
    assert_eq!(document_page_url("///", 0), "/documents/0/details");
}

#[test]
fn login_needs_both_credentials_or_none() {
    assert_eq!(login_mode(true, true), LoginMode::Given);
    assert_eq!(login_mode(false, false), LoginMode::Interactive);
    assert_eq!(login_mode(true, false), LoginMode::Incomplete);
    assert_eq!(login_mode(false, true), LoginMode::Incomplete);
}

#[test]
fn credentials_file_holds_both_values() {
    assert_eq!(
        credentials_file("https://paperless.example.com", "abc123"),
        Some("url = \"https://paperless.example.com\"\ntoken = \"abc123\"\n".to_string())
    );
    assert_eq!(credentials_file("", "abc123"), None);
    assert_eq!(credentials_file("https://paperless.example.com", ""), None);
    assert_eq!(credentials_file("", ""), None);
}

#[test]
fn token_lines_are_masked() {
    assert_eq!(masked_line("token = \"abc123\""), "token = \"***\"");
    assert_eq!(masked_line("  \ttoken=\"abc123\""), "token = \"***\"");
    assert_eq!(masked_line("token"), "token = \"***\"");
    assert_eq!(masked_line("url = \"https://x\""), "url = \"https://x\"");
    assert_eq!(masked_line("# token = 1"), "# token = 1");
    assert_eq!(masked_line("toke"), "toke");
    assert_eq!(masked_line(""), "");
}

#[test]
fn file_option_goes_with_one_document() {
    assert!(file_option_allowed(true, 1));
    assert!(file_option_allowed(true, 0));
    assert!(!file_option_allowed(true, 2));
    assert!(file_option_allowed(false, 2));
    assert_eq!(version_for(true), DocumentVersion::Original);
    assert_eq!(version_for(false), DocumentVersion::Archived);
}

#[test]
fn download_name_stays_in_the_directory() {
    assert_eq!(fallback_file_name(7), "document-7");
    assert_eq!(stored_name(Some("scan.pdf".to_string()), 7), "scan.pdf");
    assert_eq!(stored_name(None, 7), "document-7");
    assert_eq!(download_name(Some("scan.pdf"), 7), "scan.pdf");
    assert_eq!(download_name(Some("../../etc/passwd"), 7), "passwd");
    assert_eq!(download_name(Some("/tmp/report.pdf"), 7), "report.pdf");
    assert_eq!(download_name(Some(".."), 7), "document-7");
    assert_eq!(download_name(Some(""), 7), "document-7");
    assert_eq!(download_name(None, 7), "document-7");
}

#[test]
fn raw_config_defaults() {
    let config = RawConfig::default();
    assert_eq!(config.url, "");
    assert_eq!(config.token, "");
    assert_eq!(config.output_format, OutputFormat::Markdown);
    assert_eq!(config.page_size, 100);
    assert_eq!(config.timeout, 30);
    assert_eq!(default_page_size(), 100);
    assert_eq!(default_timeout(), 30);
}

fn raw(url: &str, token: &str) -> RawConfig {
    RawConfig {
        url: url.to_string(),
        token: token.to_string(),
        output_format: OutputFormat::Json,
        page_size: 25,
        timeout: 5,
    }
}

#[test]
fn valid_config_keeps_its_values() {
    let config = raw("HTTPS://Paperless.example.com", "abc").validate().ok().expect("valid");
    assert_eq!(config.url.as_str(), "https://paperless.example.com/");
    assert_eq!(config.url.scheme(), "https");
    assert_eq!(config.token, "abc");
    assert_eq!(config.output_format, OutputFormat::Json);
    assert_eq!(config.page_size, 25);
    assert_eq!(config.timeout, 5);
}

#[test]
fn config_errors_come_in_order() {
    assert_eq!(raw("", "").validate().err(), Some(ConfigError::MissingUrl));
    assert_eq!(raw("", "abc").validate().err(), Some(ConfigError::MissingUrl));
    assert_eq!(raw("not a url", "").validate().err(), Some(ConfigError::MissingToken));
    assert_eq!(
        raw("not a url", "abc").validate().err(),
        Some(ConfigError::InvalidUrl {
            url: "not a url".to_string(),
            detail: "relative URL without a base".to_string()
        })
    );
}

#[test]
fn config_messages_are_exact() {
    assert_eq!(
        ConfigError::MissingUrl.message(),
        "server URL not configured. Run `pngx auth login` or set --url"
    );
    assert_eq!(
        ConfigError::MissingToken.message(),
        "API token not configured. Run `pngx auth login` or set --token"
    );
    assert_eq!(
        raw("not a url", "abc").validate().err().expect("invalid").message(),
        "invalid server URL 'not a url': relative URL without a base"
    );
}

#[test]
fn plain_http_is_insecure() {
    assert!(raw("http://localhost:8000", "abc").is_insecure());
    assert!(!raw("https://localhost:8000", "abc").is_insecure());
    assert!(!raw("", "abc").is_insecure());
    assert!(!raw("http:/", "abc").is_insecure());
    assert!(!raw("HTTP://localhost", "abc").is_insecure());
}

#[test]
fn decimal_numerals() {
    assert_eq!(decimal_string(0), "0");
    assert_eq!(decimal_string(7), "7");
    assert_eq!(decimal_string(10), "10");
    assert_eq!(decimal_string(1234567890), "1234567890");
    assert_eq!(decimal_string(u64::MAX), "18446744073709551615");
}

#[test]
fn text_helpers() {
    let parts = vec!["a".to_string(), "".to_string(), "c".to_string()];
    assert_eq!(join(&parts, ", "), "a, , c");
    assert_eq!(join(&parts[..1].to_vec(), ", "), "a");
    assert_eq!(join(&[].to_vec(), ", "), "");
    assert!(starts_with("token = 1", "token"));
    assert!(starts_with("token", ""));
    assert!(!starts_with("tok", "token"));
    assert!(!starts_with("Token", "token"));
    assert!(starts_with("über", "ü"));
    assert_eq!(trim_trailing("a/b//", '/'), "a/b");
    assert_eq!(trim_trailing("//", '/'), "");
    assert_eq!(trim_trailing("a/b", '/'), "a/b");
    assert_eq!(trim_trailing("é//", '/'), "é");
}

#[test]
fn trimming_removes_white_space_at_the_ends() {
    assert_eq!(trim("  a b \t\n"), "a b");
    assert_eq!(trim_start("  a b \t\n"), "a b \t\n");
    assert_eq!(trim_end("  a b \t\n"), "  a b");
    assert_eq!(trim("\u{a0}\u{2003}é\u{3000}"), "é");
    assert_eq!(trim(" \r\n "), "");
    assert_eq!(trim(""), "");
    assert_eq!(trim("a"), "a");
    assert_eq!(trim("\u{200b}a"), "\u{200b}a");
}
