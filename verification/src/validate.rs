//! The schema validator and the feed entry point: raw bytes are parsed
//! and validated against the fixed job-feed schema through libxml, the
//! validated tree is flattened into plain [`JobElement`] values, and the
//! assembler turns those into job records.
//!
//! Parsing, validation and flattening are deterministic functions of
//! the uploaded bytes (the schema is a fixed deployment constant), so
//! their results carry names: `wellformed_xml`, `schema_valid_xml`,
//! `feed_elements` and `feed_diagnostics`, tied to the bytes through
//! `doc_bytes`. Every call into libxml stands behind a trusted item
//! whose contract speaks over those names; all logic before and after
//! the calls is verified.

use vstd::prelude::*;

use crate::assemble::{
    all_complete, assemble_jobs, distinct_langs, lemma_merged_translations_distinct, spec_job,
};
use crate::diagnostics::{normalize_errors, spec_normalize, RawDiagnostic, RawDiagnosticView};
use crate::elements::{FieldElement, JobElement, JobElementView};
use crate::records::{ImportResponse, Job, JobView, ParseError, ParseErrorView};
use libxml::parser::{Parser, ParserOptions};
use libxml::schemas::{SchemaParserContext, SchemaValidationContext};
use libxml::tree::Document;

verus! {

#[verifier::external_type_specification]
#[verifier::external_body]
pub struct ExDocument(Document);

/// Whether the bytes are one well-formed XML document, as the parser
/// (in strict mode) decides it.
pub uninterp spec fn wellformed_xml(bytes: Seq<u8>) -> bool;

/// The bytes a parsed document stands for.
pub uninterp spec fn doc_bytes(doc: Document) -> Seq<u8>;

/// Whether a well-formed document conforms to the fixed job-feed
/// schema, as the validator decides it.
pub uninterp spec fn schema_valid_xml(bytes: Seq<u8>) -> bool;

/// The violations the validator reports for a non-conforming document,
/// in report order.
pub uninterp spec fn feed_diagnostics(bytes: Seq<u8>) -> Seq<RawDiagnosticView>;

/// The document's top-level job elements, flattened to plain values:
/// one entry per job in document order, each the list of its child
/// elements' name, `lang` attribute and text content.
pub uninterp spec fn feed_elements(bytes: Seq<u8>) -> Seq<JobElementView>;

/// The fixed schema every uploaded feed is validated against: one
/// `jobs` root of `job` elements, each opening with a mandatory
/// `unique_id` followed by the flat fields and the language-tagged
/// text elements in any order and multiplicity.
fn job_feed_schema() -> &'static str {
    "<?xml version='1.0'?>
<xs:schema xmlns:xs='http://www.w3.org/2001/XMLSchema'>
  <xs:element name='jobs'>
    <xs:complexType>
      <xs:sequence>
        <xs:element name='job' maxOccurs='unbounded'>
          <xs:complexType>
            <xs:sequence>
              <xs:element name='unique_id' type='xs:string'/>
              <xs:choice minOccurs='0' maxOccurs='unbounded'>
                <xs:element name='schedule' type='xs:string'/>
                <xs:element name='category' type='xs:string'/>
                <xs:element name='city' type='xs:string'/>
                <xs:element name='province' type='xs:string'/>
                <xs:element name='application_method' type='xs:string'/>
                <xs:element name='application_destination' type='xs:string'/>
                <xs:element name='company_id' type='xs:string'/>
                <xs:element name='company' type='xs:string'/>
                <xs:element name='company_city' type='xs:string'/>
                <xs:element name='company_postal_code' type='xs:string'/>
                <xs:element name='company_logo_url' type='xs:string'/>
                <xs:element name='title' type='langText'/>
                <xs:element name='description' type='langText'/>
                <xs:element name='requirements' type='langText'/>
              </xs:choice>
            </xs:sequence>
          </xs:complexType>
        </xs:element>
      </xs:sequence>
    </xs:complexType>
  </xs:element>
  <xs:complexType name='langText'>
    <xs:simpleContent>
      <xs:extension base='xs:string'>
        <xs:attribute name='lang' type='xs:string'/>
      </xs:extension>
    </xs:simpleContent>
  </xs:complexType>
</xs:schema>"
}

/// Relies on libxml's `Parser::default` and
/// `Parser::parse_string_with_options`, with the parser's recovery
/// mode off: parsing is then a function of the bytes alone, it
/// succeeds exactly when the bytes are one well-formed XML document,
/// and the document it returns stands for exactly those bytes. A
/// parse failure (malformed bytes, or input too large for libxml2)
/// converts to `None`; the call does not panic.
#[verifier::external_body]
fn parse_document(bytes: &Vec<u8>) -> (r: Option<Document>)
    ensures
        r is Some <==> wellformed_xml(bytes@),
        r is Some ==> doc_bytes(r->Some_0) == bytes@,
{
    let options = ParserOptions { recover: false, ..ParserOptions::default() };
    Parser::default().parse_string_with_options(bytes.as_slice(), options).ok()
}

/// Relies on libxml's `SchemaParserContext::from_buffer`,
/// `SchemaValidationContext::from_parser` and
/// `SchemaValidationContext::validate_document`, with the fixed
/// job-feed schema: `Ok` exactly when the document conforms to it,
/// `Err` otherwise with the violations collected in that one pass.
/// libxml2 reports every violation through the registered handler
/// before it signals failure, so the list is never empty; each report
/// is handed out field by field as plain values, the severity keeping
/// its debug rendering. The schema text is a fixed non-empty constant,
/// which keeps `from_buffer` off its panic paths (an empty or
/// over-large buffer); a failure to load it, like an internal libxml2
/// error, is a deployment fault and aborts.
#[verifier::external_body]
fn validate_feed_document(doc: &Document) -> (r: Result<(), Vec<RawDiagnostic>>)
    ensures
        r is Ok <==> schema_valid_xml(doc_bytes(*doc)),
        r is Err ==> r->Err_0.deep_view() == feed_diagnostics(doc_bytes(*doc))
            && r->Err_0.deep_view().len() >= 1,
{
    let mut parser = SchemaParserContext::from_buffer(job_feed_schema());
    let mut validator = SchemaValidationContext::from_parser(&mut parser)
        .expect("the embedded job-feed schema is a valid XML schema");
    match validator.validate_document(doc) {
        Ok(()) => Ok(()),
        Err(errors) => Err(errors.into_iter().map(|e| RawDiagnostic {
            line: e.line,
            col: e.col,
            message: e.message,
            level: format!("{:?}", e.level),
            domain: e.domain,
            code: e.code,
        }).collect()),
    }
}

/// Relies on libxml's `Document::get_root_element`,
/// `Node::get_child_elements`, `Node::get_name`, `Node::get_attribute`
/// and `Node::get_content`: flattens the document's top-level elements
/// to plain values, one job element per top-level child in document
/// order, each child element handed out as its name, `lang` attribute
/// and text content, one for one with no reordering or filtering.
/// `None` only when the document has no root element, which a
/// schema-conforming document always has.
#[verifier::external_body]
fn extract_jobs(doc: &Document) -> (r: Option<Vec<JobElement>>)
    ensures
        r is Some ==> r->Some_0.deep_view() == feed_elements(doc_bytes(*doc)),
        schema_valid_xml(doc_bytes(*doc)) ==> r is Some,
{
    let root = doc.get_root_element()?;
    Some(root.get_child_elements().iter().map(|job| JobElement {
        fields: job.get_child_elements().iter().map(|child| FieldElement {
            name: child.get_name(),
            lang: child.get_attribute("lang"),
            content: child.get_content(),
        }).collect(),
    }).collect())
}

/// When one parse call succeeds: the bytes are well-formed XML, they
/// conform to the schema, and every job element carries the required
/// fields.
pub open spec fn parse_succeeds(bytes: Seq<u8>) -> bool {
    wellformed_xml(bytes) && schema_valid_xml(bytes) && all_complete(feed_elements(bytes))
}

/// What a successful parse returns: one record per job element of the
/// document, in document order, each the assembly of its element.
pub open spec fn parsed_jobs_match(bytes: Seq<u8>, jobs: Seq<JobView>) -> bool {
    &&& jobs.len() == feed_elements(bytes).len()
    &&& forall|i: int|
        0 <= i < jobs.len() ==> jobs[i] == spec_job((#[trigger] feed_elements(bytes)[i]).fields)
}

/// Every job holds at most one translation per language.
pub open spec fn all_jobs_distinct(jobs: Seq<JobView>) -> bool {
    forall|i: int| 0 <= i < jobs.len() ==> distinct_langs((#[trigger] jobs[i]).translations)
}

/// What a failed parse returns, by failure class: malformed bytes give
/// the coarse message with no diagnostics; a schema violation gives
/// its message with the normalization of every report of the
/// validation pass, at least one; a schema-valid document with an
/// incomplete job gives the structural message with no diagnostics.
pub open spec fn parse_failure_matches(bytes: Seq<u8>, e: ParseErrorView) -> bool {
    &&& !wellformed_xml(bytes) ==> e.message == "File could not be parsed as XML"@
        && e.xml_errors.len() == 0
    &&& wellformed_xml(bytes) && !schema_valid_xml(bytes) ==> e.message == "File is not valid"@
        && e.xml_errors.len() == feed_diagnostics(bytes).len() && e.xml_errors.len() >= 1
        && (forall|i: int|
            0 <= i < e.xml_errors.len() ==> e.xml_errors[i] == spec_normalize(
                #[trigger] feed_diagnostics(bytes)[i],
            ))
    &&& wellformed_xml(bytes) && schema_valid_xml(bytes) ==> e.message
        == "Job element is missing a required field"@ && e.xml_errors.len() == 0
}

/// Parse and validate one uploaded feed, and assemble its job records.
///
/// The outcome is a function of the bytes alone: success exactly when
/// the bytes are well-formed, schema-conforming and complete, and then
/// one record per job element in document order; otherwise the failure
/// class of the bytes, with itemized diagnostics exactly in the
/// schema-invalid case.
pub fn parse(file: &Vec<u8>) -> (r: Result<Vec<Job>, ParseError>)
    ensures
        r is Ok <==> parse_succeeds(file@),
        r is Ok ==> parsed_jobs_match(file@, r->Ok_0.deep_view()) && all_jobs_distinct(
            r->Ok_0.deep_view(),
        ),
        r is Err ==> parse_failure_matches(file@, r->Err_0.deep_view()),
{
    let doc = match parse_document(file) {
        Some(d) => d,
        None => {
            return Err(
                ParseError {
                    message: "File could not be parsed as XML".to_owned(),
                    xml_errors: Vec::new(),
                },
            );
        },
    };
    if let Err(raw) = validate_feed_document(&doc) {
        let xml_errors = normalize_errors(&raw);
        let e = ParseError { message: "File is not valid".to_owned(), xml_errors };
        proof {
            assert forall|i: int| 0 <= i < e.deep_view().xml_errors.len() implies e.deep_view()
                .xml_errors[i] == spec_normalize(feed_diagnostics(file@)[i]) by {
                assert(e.xml_errors.deep_view()[i] == spec_normalize(raw.deep_view()[i]));
            };
        }
        return Err(e);
    }
    let elements = match extract_jobs(&doc) {
        Some(es) => es,
        None => {
            proof {
                assert(false);
            }
            return Err(
                ParseError {
                    message: "File could not be parsed as XML".to_owned(),
                    xml_errors: Vec::new(),
                },
            );
        },
    };
    match assemble_jobs(&elements) {
        Ok(jobs) => {
            proof {
                let jv = jobs.deep_view();
                let fe = feed_elements(file@);
                assert(elements.deep_view() == fe);
                assert forall|i: int| 0 <= i < jv.len() implies jv[i] == spec_job(
                    (#[trigger] fe[i]).fields,
                ) by {
                    assert(fe[i] == elements.deep_view()[i]);
                    assert(jv[i] == spec_job(elements.deep_view()[i].fields));
                };
                assert(parsed_jobs_match(file@, jv));
                assert forall|i: int| 0 <= i < jv.len() implies distinct_langs(
                    (#[trigger] jv[i]).translations,
                ) by {
                    assert(jv[i] == spec_job(elements.deep_view()[i].fields));
                    lemma_merged_translations_distinct(elements.deep_view()[i].fields);
                };
                assert(all_jobs_distinct(jv));
            }
            Ok(jobs)
        },
        Err(message) => Err(ParseError { message, xml_errors: Vec::new() }),
    }
}

/// Decide the outcome of one import request: reject a request with a
/// missing part or an unsupported format label without diagnostics,
/// and otherwise parse the uploaded bytes as the job feed, passing a
/// success's records or a failure's message and diagnostics through to
/// the response. The transport layer only has to serialize the result
/// and pick a status from `success`.
pub fn import_response(format: Option<String>, file: Option<Vec<u8>>) -> (r: ImportResponse)
    ensures
        (format is None || file is None) ==> !r.success && r.errors@
            == "Format or file is missing"@ && r.xml_errors@.len() == 0 && r.jobs@.len() == 0,
        format is Some && file is Some && format->Some_0@ != "xml-hotelleriejobs"@ ==> !r.success
            && r.errors@ == "Format is not supported"@ && r.xml_errors@.len() == 0 && r.jobs@.len()
            == 0,
        r.success <==> format is Some && format->Some_0@ == "xml-hotelleriejobs"@ && file is Some
            && parse_succeeds(file->Some_0@),
        r.success ==> r.errors@.len() == 0 && r.xml_errors@.len() == 0 && parsed_jobs_match(
            file->Some_0@,
            r.jobs.deep_view(),
        ) && all_jobs_distinct(r.jobs.deep_view()),
        format is Some && format->Some_0@ == "xml-hotelleriejobs"@ && file is Some
            && !parse_succeeds(file->Some_0@) ==> !r.success && r.jobs@.len() == 0
            && parse_failure_matches(
            file->Some_0@,
            (ParseErrorView { message: r.errors@, xml_errors: r.xml_errors.deep_view() }),
        ),
{
    let (format, file) = match (format, file) {
        (Some(f), Some(b)) => (f, b),
        _ => {
            return ImportResponse {
                success: false,
                errors: "Format or file is missing".to_owned(),
                xml_errors: Vec::new(),
                jobs: Vec::new(),
            };
        },
    };
    if format == "xml-hotelleriejobs".to_owned() {
        match parse(&file) {
            Ok(jobs) => ImportResponse {
                success: true,
                errors: String::new(),
                xml_errors: Vec::new(),
                jobs,
            },
            Err(e) => ImportResponse {
                success: false,
                errors: e.message,
                xml_errors: e.xml_errors,
                jobs: Vec::new(),
            },
        }
    } else {
        ImportResponse {
            success: false,
            errors: "Format is not supported".to_owned(),
            xml_errors: Vec::new(),
            jobs: Vec::new(),
        }
    }
}

} // verus!
