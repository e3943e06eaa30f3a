//! The record types a parsed job feed is assembled into, with their
//! mathematical views.

use vstd::prelude::*;

verus! {

/// The company that posted a job; owned by exactly one job record.
#[derive(Debug)]
pub struct Company {
    pub id: String,
    pub name: String,
    pub city: String,
    pub postal_code: String,
    pub logo_url: String,
}

/// Mathematical view of a [`Company`].
pub struct CompanyView {
    pub id: Seq<char>,
    pub name: Seq<char>,
    pub city: Seq<char>,
    pub postal_code: Seq<char>,
    pub logo_url: Seq<char>,
}

impl View for Company {
    type V = CompanyView;

    open spec fn view(&self) -> CompanyView {
        CompanyView {
            id: self.id@,
            name: self.name@,
            city: self.city@,
            postal_code: self.postal_code@,
            logo_url: self.logo_url@,
        }
    }
}

impl DeepView for Company {
    type V = CompanyView;

    open spec fn deep_view(&self) -> CompanyView {
        self.view()
    }
}

/// The per-language text bundle of one job: title, description and
/// requirements for a single language code.
#[derive(Debug)]
pub struct Translation {
    pub language: String,
    pub title: String,
    pub description: String,
    pub requirements: String,
}

/// Mathematical view of a [`Translation`].
pub struct TranslationView {
    pub language: Seq<char>,
    pub title: Seq<char>,
    pub description: Seq<char>,
    pub requirements: Seq<char>,
}

impl View for Translation {
    type V = TranslationView;

    open spec fn view(&self) -> TranslationView {
        TranslationView {
            language: self.language@,
            title: self.title@,
            description: self.description@,
            requirements: self.requirements@,
        }
    }
}

impl DeepView for Translation {
    type V = TranslationView;

    open spec fn deep_view(&self) -> TranslationView {
        self.view()
    }
}

/// One job posting assembled from the feed: flat fields, the owning
/// company, and one translation per language seen in the source.
#[derive(Debug)]
pub struct Job {
    pub id: String,
    pub schedule: String,
    pub category: String,
    pub city: String,
    pub province: String,
    pub application_method: String,
    pub application_destination: String,
    pub company: Company,
    pub translations: Vec<Translation>,
}

/// Mathematical view of a [`Job`].
pub struct JobView {
    pub id: Seq<char>,
    pub schedule: Seq<char>,
    pub category: Seq<char>,
    pub city: Seq<char>,
    pub province: Seq<char>,
    pub application_method: Seq<char>,
    pub application_destination: Seq<char>,
    pub company: CompanyView,
    pub translations: Seq<TranslationView>,
}

impl View for Job {
    type V = JobView;

    open spec fn view(&self) -> JobView {
        JobView {
            id: self.id@,
            schedule: self.schedule@,
            category: self.category@,
            city: self.city@,
            province: self.province@,
            application_method: self.application_method@,
            application_destination: self.application_destination@,
            company: self.company@,
            translations: self.translations.deep_view(),
        }
    }
}

impl DeepView for Job {
    type V = JobView;

    open spec fn deep_view(&self) -> JobView {
        self.view()
    }
}

/// One positioned schema violation: where it was found, what was wrong,
/// and the validator's severity, domain and numeric code.
#[derive(Debug)]
pub struct XMLError {
    pub line: i32,
    pub column: i32,
    pub message: String,
    pub level: String,
    pub domain: String,
    pub code: i32,
}

/// Mathematical view of an [`XMLError`].
pub struct XMLErrorView {
    pub line: int,
    pub column: int,
    pub message: Seq<char>,
    pub level: Seq<char>,
    pub domain: Seq<char>,
    pub code: int,
}

impl View for XMLError {
    type V = XMLErrorView;

    open spec fn view(&self) -> XMLErrorView {
        XMLErrorView {
            line: self.line as int,
            column: self.column as int,
            message: self.message@,
            level: self.level@,
            domain: self.domain@,
            code: self.code as int,
        }
    }
}

impl DeepView for XMLError {
    type V = XMLErrorView;

    open spec fn deep_view(&self) -> XMLErrorView {
        self.view()
    }
}

/// Why a feed could not be turned into records: a summary message, plus
/// the itemized schema violations when (and only when) the document
/// parsed as XML but failed schema validation.
#[derive(Debug)]
pub struct ParseError {
    pub message: String,
    pub xml_errors: Vec<XMLError>,
}

/// Mathematical view of a [`ParseError`].
pub struct ParseErrorView {
    pub message: Seq<char>,
    pub xml_errors: Seq<XMLErrorView>,
}

impl View for ParseError {
    type V = ParseErrorView;

    open spec fn view(&self) -> ParseErrorView {
        ParseErrorView { message: self.message@, xml_errors: self.xml_errors.deep_view() }
    }
}

impl DeepView for ParseError {
    type V = ParseErrorView;

    open spec fn deep_view(&self) -> ParseErrorView {
        self.view()
    }
}

/// The complete outcome of one import request, ready for the transport
/// layer to serialize: either the assembled jobs, or the failure summary
/// with any schema diagnostics.
pub struct ImportResponse {
    pub success: bool,
    pub errors: String,
    pub xml_errors: Vec<XMLError>,
    pub jobs: Vec<Job>,
}

/// Mathematical view of an [`ImportResponse`].
pub struct ImportResponseView {
    pub success: bool,
    pub errors: Seq<char>,
    pub xml_errors: Seq<XMLErrorView>,
    pub jobs: Seq<JobView>,
}

impl View for ImportResponse {
    type V = ImportResponseView;

    open spec fn view(&self) -> ImportResponseView {
        ImportResponseView {
            success: self.success,
            errors: self.errors@,
            xml_errors: self.xml_errors.deep_view(),
            jobs: self.jobs.deep_view(),
        }
    }
}

impl DeepView for ImportResponse {
    type V = ImportResponseView;

    open spec fn deep_view(&self) -> ImportResponseView {
        self.view()
    }
}

} // verus!
