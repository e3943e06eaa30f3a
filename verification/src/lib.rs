//! Verified core of an XML job-feed importer.
//!
//! The library validates a job-feed document against a fixed schema and
//! assembles the validated tree into job records, merging per-language
//! translation fragments along the way.

pub mod assemble;
pub mod diagnostics;
pub mod elements;
pub mod laws;
pub mod records;
pub mod validate;

pub use assemble::{assemble_job, assemble_jobs, assemble_translations, lookup_field, TextKind};
pub use diagnostics::{decimal_string, normalize_errors, RawDiagnostic, RawDiagnosticView};
pub use elements::{FieldElement, FieldElementView, JobElement, JobElementView};
pub use laws::{
    lemma_assembly_deterministic, lemma_default_language, lemma_flat_field_last_wins,
    lemma_translation_merge_correctness,
};
pub use records::{
    Company, CompanyView, ImportResponse, ImportResponseView, Job, JobView, ParseError,
    ParseErrorView, Translation, TranslationView, XMLError, XMLErrorView,
};
pub use validate::{import_response, parse};
