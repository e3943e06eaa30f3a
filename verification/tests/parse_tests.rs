use jobfeed::{import_response, parse};

fn complete_job_xml(extra: &str) -> String {
    format!(
        "<jobs><job>\
         <unique_id>42</unique_id>\
         <schedule>full-time</schedule>\
         <category>retail</category>\
         <city>Paris</city>\
         <province>IDF</province>\
         <application_method>email</application_method>\
         <application_destination>jobs@x.com</application_destination>\
         <company_id>7</company_id>\
         <company>Acme</company>\
         <company_city>Paris</company_city>\
         <company_postal_code>75001</company_postal_code>\
         <company_logo_url>http://x/logo.png</company_logo_url>\
         {extra}\
         </job></jobs>"
    )
}

#[test]
fn parse_end_to_end() {
    let xml = complete_job_xml(
        "<title lang='en'>Clerk</title><title lang='fr'>Vendeur</title>",
    );
    let jobs = parse(&xml.into_bytes()).unwrap();
    assert_eq!(jobs.len(), 1);
    let job = &jobs[0];
    assert_eq!(job.id, "42");
    assert_eq!(job.company.name, "Acme");
    assert_eq!(job.translations.len(), 2);
    assert_eq!(job.translations[0].language, "en");
    assert_eq!(job.translations[0].title, "Clerk");
    assert_eq!(job.translations[0].description, "");
    assert_eq!(job.translations[0].requirements, "");
    assert_eq!(job.translations[1].language, "fr");
    assert_eq!(job.translations[1].title, "Vendeur");
    assert_eq!(job.translations[1].description, "");
    assert_eq!(job.translations[1].requirements, "");
}

#[test]
fn parse_merges_translations_across_kinds() {
    let xml = complete_job_xml(
        "<title lang='fr'>Vendeur</title><description lang='fr'>Vendre</description>",
    );
    let jobs = parse(&xml.into_bytes()).unwrap();
    assert_eq!(jobs[0].translations.len(), 1);
    assert_eq!(jobs[0].translations[0].language, "fr");
    assert_eq!(jobs[0].translations[0].title, "Vendeur");
    assert_eq!(jobs[0].translations[0].description, "Vendre");
    assert_eq!(jobs[0].translations[0].requirements, "");
}

#[test]
fn invalid_document_scenario() {
    let xml = "<jobs><job><schedule>full-time</schedule></job></jobs>";
    let error = parse(&xml.as_bytes().to_vec()).unwrap_err();
    assert_eq!(error.message, "File is not valid");
    assert!(!error.xml_errors.is_empty());
    let first = &error.xml_errors[0];
    assert!(first.line >= 1);
    // The validator reports no column for schema violations; the absent
    // value is normalized to 0 rather than propagated as missing.
    assert_eq!(first.column, 0);
    assert_eq!(first.level, "Error");
    assert!(!first.message.is_empty());
    assert!(!first.domain.is_empty());
}

#[test]
fn schema_failure_reports_every_violation() {
    let xml = "<jobs>\
         <job><bogus>x</bogus></job>\
         <job><alsobogus>y</alsobogus></job>\
         </jobs>";
    let error = parse(&xml.as_bytes().to_vec()).unwrap_err();
    assert_eq!(error.message, "File is not valid");
    assert_eq!(error.xml_errors.len(), 2);
}

#[test]
fn malformed_bytes_are_a_coarse_failure() {
    let error = parse(&b"this is not xml <".to_vec()).unwrap_err();
    assert_eq!(error.message, "File could not be parsed as XML");
    assert!(error.xml_errors.is_empty());
}

#[test]
fn schema_valid_but_incomplete_job_fails_assembly() {
    let xml = "<jobs><job><unique_id>42</unique_id></job></jobs>";
    let error = parse(&xml.as_bytes().to_vec()).unwrap_err();
    assert_eq!(error.message, "Job element is missing a required field");
    assert!(error.xml_errors.is_empty());
}

#[test]
fn import_response_round_trip() {
    let xml = complete_job_xml("<title>Clerk</title>");
    let response = import_response(
        Some("xml-hotelleriejobs".to_string()),
        Some(xml.into_bytes()),
    );
    assert!(response.success);
    assert_eq!(response.errors, "");
    assert!(response.xml_errors.is_empty());
    assert_eq!(response.jobs.len(), 1);
    assert_eq!(response.jobs[0].translations[0].language, "en");
    assert_eq!(response.jobs[0].translations[0].title, "Clerk");
}

#[test]
fn import_response_reports_schema_errors() {
    let response = import_response(
        Some("xml-hotelleriejobs".to_string()),
        Some(b"<jobs><job><x>1</x></job></jobs>".to_vec()),
    );
    assert!(!response.success);
    assert_eq!(response.errors, "File is not valid");
    assert!(!response.xml_errors.is_empty());
    assert!(response.jobs.is_empty());
}


#[test]
fn empty_feed_is_schema_invalid() {
    let error = parse(&b"<jobs></jobs>".to_vec()).unwrap_err();
    assert_eq!(error.message, "File is not valid");
    assert!(!error.xml_errors.is_empty());
}

#[test]
fn parse_is_deterministic() {
    let xml = complete_job_xml("<title lang='fr'>Vendeur</title>");
    let bytes = xml.into_bytes();
    let first = parse(&bytes).unwrap();
    let second = parse(&bytes).unwrap();
    assert_eq!(first.len(), second.len());
    assert_eq!(first[0].id, second[0].id);
    assert_eq!(first[0].schedule, second[0].schedule);
    assert_eq!(first[0].company.name, second[0].company.name);
    assert_eq!(first[0].translations.len(), second[0].translations.len());
    assert_eq!(first[0].translations[0].language, second[0].translations[0].language);
    assert_eq!(first[0].translations[0].title, second[0].translations[0].title);
}
