use study_core::extraction::{assemble_pages, image_data_url, select_page_images};
use study_core::error::AppError;
use study_core::generation::{build_materials, extract_json_block, fill_template, review_plan};
use study_core::plan::{format_status, generate_markdown_from_json, StudyPlanContent, StudyPlanTopic};
use study_core::text::{decimal_string, is_whitespace, str_equal};
use study_core::upload::{is_pdf_name, safe_char, sanitize_file_name, storage_path, validate_upload, MAX_FILE_SIZE};

fn topic(id: &str, title: &str, description: &str, status: &str) -> StudyPlanTopic {
    StudyPlanTopic {
        id: id.to_string(),
        title: title.to_string(),
        description: description.to_string(),
        status: status.to_string(),
    }
}

#[test]
fn decimal_rendering() {
    assert_eq!(decimal_string(0), "0");
    assert_eq!(decimal_string(7), "7");
    assert_eq!(decimal_string(1203), "1203");
    assert_eq!(decimal_string(u64::MAX), u64::MAX.to_string());
}

#[test]
fn string_equality_and_whitespace() {
    assert!(str_equal("abc", "abc"));
    assert!(!str_equal("abc", "abd"));
    assert!(!str_equal("abc", "ab"));
    assert!(is_whitespace(' '));
    assert!(is_whitespace('\n'));
    assert!(is_whitespace('\u{3000}'));
    assert!(!is_whitespace('x'));
}

#[test]
fn status_labels() {
    assert_eq!(format_status("need_to_learn"), "Need to Learn");
    assert_eq!(format_status("need_review"), "Need Review");
    assert_eq!(format_status("know_well"), "Know Well");
    assert_eq!(format_status("mastered"), "Unknown");
    assert_eq!(format_status(""), "Unknown");
}

#[test]
fn markdown_of_plan() {
    let content = StudyPlanContent {
        topics: vec![
            topic("topic-1", "Limits", "What a limit is.", "need_to_learn"),
            topic("topic-2", "Derivatives", "Rates of change.", "know_well"),
        ],
    };
    let md = generate_markdown_from_json(&content);
    assert_eq!(
        md,
        "# Study Plan\n\n1. **Limits**\n   What a limit is.\n   *Status: Need to Learn*\n\n2. **Derivatives**\n   Rates of change.\n   *Status: Know Well*\n\n"
    );
}

#[test]
fn markdown_of_empty_plan() {
    let content = StudyPlanContent { topics: vec![] };
    assert_eq!(generate_markdown_from_json(&content), "# Study Plan\n\n");
}

#[test]
fn json_block_from_fenced_reply() {
    assert_eq!(extract_json_block("```json\n{\"topics\": []}\n```"), "{\"topics\": []}");
    assert_eq!(extract_json_block("Here:\n```\n{\"a\": 1}\n```\nDone"), "{\"a\": 1}");
    assert_eq!(extract_json_block("```jsonjson {\"b\": 2} ```"), "{\"b\": 2}");
    assert_eq!(extract_json_block("intro ```json {\"c\": 3}"), "{\"c\": 3}");
}

#[test]
fn json_block_from_plain_reply() {
    assert_eq!(extract_json_block("  \n{\"topics\": []}\t\n"), "{\"topics\": []}");
    assert_eq!(extract_json_block("json {}"), "json {}");
    assert_eq!(extract_json_block(""), "");
}

#[test]
fn materials_text() {
    let sources = vec![
        ("a.pdf".to_string(), "alpha".to_string()),
        ("b.pdf".to_string(), "beta".to_string()),
    ];
    assert_eq!(build_materials(&sources, "\n\n---\n\n"), "=== a.pdf ===\nalpha\n\n---\n\n=== b.pdf ===\nbeta");
    assert_eq!(build_materials(&vec![], "\n\n"), "");
}

#[test]
fn pages_are_joined_with_headers() {
    let pages = vec!["first".to_string(), "second".to_string(), "third".to_string()];
    let doc = assemble_pages(&pages).ok().unwrap();
    assert_eq!(
        doc.extracted_text,
        "--- Page 1 ---\nfirst\n\n--- Page 2 ---\nsecond\n\n--- Page 3 ---\nthird"
    );
    assert_eq!(doc.page_count, 3);
}

#[test]
fn zero_pages_is_a_conversion_failure() {
    let r = assemble_pages(&vec![]);
    assert!(matches!(r, Err(AppError::ConversionFailure)));
}

#[test]
fn page_image_data_url() {
    assert_eq!(image_data_url("image/png", &[0u8, 1, 2]), "data:image/png;base64,AAEC");
    assert_eq!(image_data_url("image/png", b"hi"), "data:image/png;base64,aGk=");
    assert_eq!(image_data_url("image/png", &[]), "data:image/png;base64,");
}

#[test]
fn upload_checks() {
    assert!(validate_upload("notes.pdf", 10).is_ok());
    assert!(validate_upload("Notes.PDF", MAX_FILE_SIZE).is_ok());
    let too_big = validate_upload("notes.pdf", MAX_FILE_SIZE + 1).err().unwrap();
    assert_eq!(too_big.error, "File size exceeds 50MB limit");
    let not_pdf = validate_upload("notes.txt", 10).err().unwrap();
    assert_eq!(not_pdf.error, "Only PDF files are supported");
    assert!(validate_upload("pdf", 10).is_err());
    assert!(is_pdf_name(".pdf"));
    assert!(!is_pdf_name("x.pd"));
}

#[test]
fn file_names_are_sanitized() {
    assert_eq!(sanitize_file_name("my notes (v2).pdf"), "my_notes__v2_.pdf");
    assert_eq!(sanitize_file_name("aula-01.pdf"), "aula-01.pdf");
    assert_eq!(sanitize_file_name("cálculo.pdf"), "cálculo.pdf");
    assert_eq!(
        storage_path("s-1", 1700000000, "a b.pdf"),
        "s-1/1700000000-a_b.pdf"
    );
}

#[test]
fn page_images_in_name_order() {
    let names = vec![
        "page-03.png".to_string(),
        "notes.txt".to_string(),
        "page-01.png".to_string(),
        ".png".to_string(),
        "page-02.png".to_string(),
        "page-02.PNG".to_string(),
    ];
    assert_eq!(select_page_images(names), vec!["page-01.png", "page-02.png", "page-03.png"]);
    assert!(select_page_images(vec![]).is_empty());
    assert_eq!(
        select_page_images(vec!["b.png".to_string(), "a.png".to_string(), "b.png".to_string()]),
        vec!["a.png", "b.png", "b.png"]
    );
}

#[test]
fn template_placeholders_are_filled() {
    assert_eq!(fill_template("Hi {name}, {name}!", "{name}", "Ana"), "Hi Ana, Ana!");
    assert_eq!(fill_template("no placeholder", "{x}", "y"), "no placeholder");
    assert_eq!(fill_template("aaa", "aa", "b"), "ba");
    assert_eq!(fill_template("{x}", "{x}", ""), "");
    assert_eq!(fill_template("", "{x}", "v"), "");
    assert_eq!(fill_template("tail {x", "{x}", "v"), "tail {x");
}

#[test]
fn review_plan_text_counts() {
    assert_eq!(review_plan("# Study Plan", 1, 3), "# Study Plan\n1 of 3 topics completed.");
}

#[test]
fn empty_key_matches_between_characters() {
    assert_eq!(fill_template("ab", "", "x"), "ab".replace("", "x"));
    assert_eq!(fill_template("", "", "x"), "x");
}

#[test]
fn safe_characters() {
    assert_eq!(safe_char('a', true), 'a');
    assert_eq!(safe_char('.', false), '.');
    assert_eq!(safe_char('-', false), '-');
    assert_eq!(safe_char(' ', false), '_');
    assert_eq!(safe_char('(', false), '_');
}
