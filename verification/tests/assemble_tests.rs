use jobfeed::{
    assemble_jobs, assemble_translations, decimal_string, import_response, lookup_field,
    FieldElement, Job, JobElement, RawDiagnostic,
};

fn field(name: &str, lang: Option<&str>, content: &str) -> FieldElement {
    FieldElement {
        name: name.to_string(),
        lang: lang.map(|l| l.to_string()),
        content: content.to_string(),
    }
}

fn complete_job_fields() -> Vec<FieldElement> {
    vec![
        field("unique_id", None, "42"),
        field("schedule", None, "full-time"),
        field("category", None, "retail"),
        field("city", None, "Paris"),
        field("province", None, "IDF"),
        field("application_method", None, "email"),
        field("application_destination", None, "jobs@x.com"),
        field("company_id", None, "7"),
        field("company", None, "Acme"),
        field("company_city", None, "Paris"),
        field("company_postal_code", None, "75001"),
        field("company_logo_url", None, "http://x/logo.png"),
    ]
}

fn assert_jobs_equal(a: &[Job], b: &[Job]) {
    assert_eq!(a.len(), b.len());
    for (x, y) in a.iter().zip(b.iter()) {
        assert_eq!(x.id, y.id);
        assert_eq!(x.schedule, y.schedule);
        assert_eq!(x.category, y.category);
        assert_eq!(x.city, y.city);
        assert_eq!(x.province, y.province);
        assert_eq!(x.application_method, y.application_method);
        assert_eq!(x.application_destination, y.application_destination);
        assert_eq!(x.company.id, y.company.id);
        assert_eq!(x.company.name, y.company.name);
        assert_eq!(x.company.city, y.company.city);
        assert_eq!(x.company.postal_code, y.company.postal_code);
        assert_eq!(x.company.logo_url, y.company.logo_url);
        assert_eq!(x.translations.len(), y.translations.len());
        for (s, t) in x.translations.iter().zip(y.translations.iter()) {
            assert_eq!(s.language, t.language);
            assert_eq!(s.title, t.title);
            assert_eq!(s.description, t.description);
            assert_eq!(s.requirements, t.requirements);
        }
    }
}

#[test]
fn end_to_end_scenario() {
    let mut fields = complete_job_fields();
    fields.push(field("title", Some("en"), "Clerk"));
    fields.push(field("title", Some("fr"), "Vendeur"));
    let elements = vec![JobElement { fields }];
    let jobs = assemble_jobs(&elements).unwrap();
    assert_eq!(jobs.len(), 1);
    let job = &jobs[0];
    assert_eq!(job.id, "42");
    assert_eq!(job.schedule, "full-time");
    assert_eq!(job.category, "retail");
    assert_eq!(job.city, "Paris");
    assert_eq!(job.province, "IDF");
    assert_eq!(job.application_method, "email");
    assert_eq!(job.application_destination, "jobs@x.com");
    assert_eq!(job.company.id, "7");
    assert_eq!(job.company.name, "Acme");
    assert_eq!(job.company.city, "Paris");
    assert_eq!(job.company.postal_code, "75001");
    assert_eq!(job.company.logo_url, "http://x/logo.png");
    assert_eq!(job.translations.len(), 2);
    assert_eq!(job.translations[0].language, "en");
    assert_eq!(job.translations[0].title, "Clerk");
    assert_eq!(job.translations[0].description, "");
    assert_eq!(job.translations[0].requirements, "");
    assert_eq!(job.translations[1].language, "fr");
    assert_eq!(job.translations[1].title, "Vendeur");
    assert_eq!(job.translations[1].description, "");
    assert_eq!(job.translations[1].requirements, "");
}

#[test]
fn assembler_is_idempotent() {
    let mut fields = complete_job_fields();
    fields.push(field("title", Some("en"), "Clerk"));
    fields.push(field("description", Some("fr"), "Description du poste"));
    let elements = vec![JobElement { fields }];
    let first = assemble_jobs(&elements).unwrap();
    let second = assemble_jobs(&elements).unwrap();
    assert_jobs_equal(&first, &second);
}

#[test]
fn translation_merge_same_language() {
    let mut fields = complete_job_fields();
    fields.push(field("title", Some("fr"), "Vendeur"));
    fields.push(field("description", Some("fr"), "Vendre des choses"));
    let translations = assemble_translations(&fields);
    assert_eq!(translations.len(), 1);
    assert_eq!(translations[0].language, "fr");
    assert_eq!(translations[0].title, "Vendeur");
    assert_eq!(translations[0].description, "Vendre des choses");
    assert_eq!(translations[0].requirements, "");
}

#[test]
fn missing_language_attribute_defaults_to_en() {
    let fields = vec![
        field("title", None, "Clerk"),
        field("description", Some("en"), "Sell things"),
        field("requirements", None, "None at all"),
    ];
    let translations = assemble_translations(&fields);
    assert_eq!(translations.len(), 1);
    assert_eq!(translations[0].language, "en");
    assert_eq!(translations[0].title, "Clerk");
    assert_eq!(translations[0].description, "Sell things");
    assert_eq!(translations[0].requirements, "None at all");
}

#[test]
fn translation_order_follows_first_appearance() {
    let fields = vec![
        field("title", Some("en"), "Clerk"),
        field("title", Some("de"), "Verkaeufer"),
        field("description", Some("fr"), "Vendre"),
        field("requirements", Some("en"), "Smile"),
    ];
    let translations = assemble_translations(&fields);
    assert_eq!(translations.len(), 3);
    assert_eq!(translations[0].language, "en");
    assert_eq!(translations[1].language, "de");
    assert_eq!(translations[2].language, "fr");
    assert_eq!(translations[0].requirements, "Smile");
    assert_eq!(translations[2].description, "Vendre");
}

#[test]
fn flat_field_last_occurrence_wins() {
    let mut fields = complete_job_fields();
    fields.push(field("schedule", None, "part-time"));
    let elements = vec![JobElement { fields }];
    let jobs = assemble_jobs(&elements).unwrap();
    assert_eq!(jobs[0].schedule, "part-time");
}

#[test]
fn lookup_finds_last_occurrence() {
    let fields = vec![
        field("schedule", None, "full-time"),
        field("schedule", None, "part-time"),
    ];
    let found = lookup_field(&fields, &"schedule".to_string());
    assert_eq!(found.unwrap(), "part-time");
    assert!(lookup_field(&fields, &"category".to_string()).is_none());
}

#[test]
fn job_order_is_preserved() {
    let mut elements = Vec::new();
    for id in ["1", "2", "3"] {
        let mut fields = complete_job_fields();
        fields[0] = field("unique_id", None, id);
        elements.push(JobElement { fields });
    }
    let jobs = assemble_jobs(&elements).unwrap();
    assert_eq!(jobs.len(), 3);
    assert_eq!(jobs[0].id, "1");
    assert_eq!(jobs[1].id, "2");
    assert_eq!(jobs[2].id, "3");
}

#[test]
fn incomplete_job_fails_whole_batch() {
    let mut incomplete = complete_job_fields();
    incomplete.remove(1);
    let elements = vec![
        JobElement { fields: complete_job_fields() },
        JobElement { fields: incomplete },
    ];
    let outcome = assemble_jobs(&elements);
    assert_eq!(outcome.unwrap_err(), "Job element is missing a required field");
}

#[test]
fn decimal_rendering_matches_display() {
    assert_eq!(decimal_string(0), "0");
    assert_eq!(decimal_string(7), "7");
    assert_eq!(decimal_string(42), "42");
    assert_eq!(decimal_string(1805), "1805");
    assert_eq!(decimal_string(-7), "-7");
    assert_eq!(decimal_string(i32::MAX), "2147483647");
    assert_eq!(decimal_string(i32::MIN), "-2147483648");
}

#[test]
fn normalization_fills_missing_positions() {
    let raw = vec![RawDiagnostic {
        line: None,
        col: None,
        message: None,
        level: "Error".to_string(),
        domain: 17,
        code: 1871,
    }];
    let errors = jobfeed::normalize_errors(&raw);
    assert_eq!(errors.len(), 1);
    assert_eq!(errors[0].line, 0);
    assert_eq!(errors[0].column, 0);
    assert_eq!(errors[0].message, "");
    assert_eq!(errors[0].level, "Error");
    assert_eq!(errors[0].domain, "17");
    assert_eq!(errors[0].code, 1871);
}

#[test]
fn missing_request_parts_are_rejected() {
    let response = import_response(None, Some(Vec::new()));
    assert!(!response.success);
    assert_eq!(response.errors, "Format or file is missing");
    assert!(response.jobs.is_empty());
    assert!(response.xml_errors.is_empty());
}

#[test]
fn unsupported_format_is_rejected() {
    let response = import_response(Some("csv-jobs".to_string()), Some(Vec::new()));
    assert!(!response.success);
    assert_eq!(response.errors, "Format is not supported");
    assert!(response.jobs.is_empty());
}
