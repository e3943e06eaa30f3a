//! The plain-value shape of a validated feed document: one element per
//! job, each holding the job's child elements as name / language /
//! content triples. The assembler works on these values alone.

use vstd::prelude::*;

verus! {

/// One child element of a job element: its tag name, its optional
/// `lang` attribute, and its text content.
pub struct FieldElement {
    pub name: String,
    pub lang: Option<String>,
    pub content: String,
}

/// Mathematical view of a [`FieldElement`].
pub struct FieldElementView {
    pub name: Seq<char>,
    pub lang: Option<Seq<char>>,
    pub content: Seq<char>,
}

impl View for FieldElement {
    type V = FieldElementView;

    open spec fn view(&self) -> FieldElementView {
        FieldElementView { name: self.name@, lang: self.lang.deep_view(), content: self.content@ }
    }
}

impl DeepView for FieldElement {
    type V = FieldElementView;

    open spec fn deep_view(&self) -> FieldElementView {
        self.view()
    }
}

/// One top-level job element of the feed, as the flat list of its child
/// elements in document order.
pub struct JobElement {
    pub fields: Vec<FieldElement>,
}

/// Mathematical view of a [`JobElement`].
pub struct JobElementView {
    pub fields: Seq<FieldElementView>,
}

impl View for JobElement {
    type V = JobElementView;

    open spec fn view(&self) -> JobElementView {
        JobElementView { fields: self.fields.deep_view() }
    }
}

impl DeepView for JobElement {
    type V = JobElementView;

    open spec fn deep_view(&self) -> JobElementView {
        self.view()
    }
}

} // verus!
