//! The record assembler: turns the child elements of a validated job
//! feed into [`Job`] records.
//!
//! Flat fields are read through a last-occurrence-wins lookup over the
//! job's child elements. The per-language translations are rebuilt in
//! three passes (title, then description, then requirements); each pass
//! scans the job's elements of its kind in document order and merges the
//! element's text into the translation of the element's language,
//! appending a fresh translation the first time a language is seen.

use vstd::prelude::*;

use crate::elements::{FieldElement, FieldElementView, JobElement, JobElementView};
use crate::records::{Company, CompanyView, Job, JobView, Translation, TranslationView};

verus! {

/// The language a feed element contributes to: its `lang` attribute,
/// or `"en"` when the attribute is absent.
pub open spec fn effective_lang(e: FieldElementView) -> Seq<char> {
    match e.lang {
        Some(l) => l,
        None => "en"@,
    }
}

/// The value of the last element named `key`, if any: repeated flat
/// fields are not an error, the last occurrence in document order wins.
pub open spec fn field_lookup(fields: Seq<FieldElementView>, key: Seq<char>) -> Option<Seq<char>>
    decreases fields.len(),
{
    if fields.len() == 0 {
        None
    } else if fields.last().name == key {
        Some(fields.last().content)
    } else {
        field_lookup(fields.drop_last(), key)
    }
}

/// Index of the first translation for `lang`, or -1 when none exists.
pub open spec fn lang_index(ts: Seq<TranslationView>, lang: Seq<char>) -> int
    decreases ts.len(),
{
    if ts.len() == 0 {
        -1
    } else if ts[0].language == lang {
        0
    } else {
        let rest = lang_index(ts.skip(1), lang);
        if rest == -1 {
            -1
        } else {
            rest + 1
        }
    }
}

/// `lang_index` finds exactly the first translation whose language is
/// `lang`: it is in range, it matches, nothing before it matches, and it
/// is -1 only when nothing matches at all.
pub proof fn lemma_lang_index_props(ts: Seq<TranslationView>, lang: Seq<char>)
    ensures
        -1 <= lang_index(ts, lang) < ts.len(),
        lang_index(ts, lang) >= 0 ==> ts[lang_index(ts, lang)].language == lang,
        forall|j: int|
            0 <= j < ts.len() && (#[trigger] ts[j]).language == lang ==> 0 <= lang_index(ts, lang)
                <= j,
        lang_index(ts, lang) == -1 ==> forall|j: int|
            0 <= j < ts.len() ==> (#[trigger] ts[j]).language != lang,
    decreases ts.len(),
{
    if ts.len() == 0 {
    } else if ts[0].language == lang {
    } else {
        lemma_lang_index_props(ts.skip(1), lang);
        let rest = lang_index(ts.skip(1), lang);
        if rest >= 0 {
            assert(ts[rest + 1] == ts.skip(1)[rest]);
        }
        assert forall|j: int|
            0 <= j < ts.len() && (#[trigger] ts[j]).language == lang implies 0 <= lang_index(
            ts,
            lang,
        ) <= j by {
            if j > 0 {
                assert(ts.skip(1)[j - 1] == ts[j]);
            }
        };
        if lang_index(ts, lang) == -1 {
            assert forall|j: int| 0 <= j < ts.len() implies (#[trigger] ts[j]).language
                != lang by {
                if j > 0 {
                    assert(ts.skip(1)[j - 1] == ts[j]);
                }
            };
        }
    }
}

/// The three kinds of per-language text a job carries.
pub enum TextKind {
    Title,
    Description,
    Requirements,
}

/// The element name that carries each kind of text.
pub open spec fn kind_key(k: TextKind) -> Seq<char> {
    match k {
        TextKind::Title => "title"@,
        TextKind::Description => "description"@,
        TextKind::Requirements => "requirements"@,
    }
}

/// A translation for `lang` with all three texts still empty.
pub open spec fn empty_translation(lang: Seq<char>) -> TranslationView {
    TranslationView {
        language: lang,
        title: Seq::empty(),
        description: Seq::empty(),
        requirements: Seq::empty(),
    }
}

/// `t` with the text of kind `k` overwritten by `content`.
pub open spec fn with_kind(t: TranslationView, k: TextKind, content: Seq<char>) -> TranslationView {
    match k {
        TextKind::Title => TranslationView { title: content, ..t },
        TextKind::Description => TranslationView { description: content, ..t },
        TextKind::Requirements => TranslationView { requirements: content, ..t },
    }
}

/// Merge one element's text into the translations assembled so far:
/// overwrite the text of kind `k` on the existing translation for
/// `lang`, or append a fresh translation when the language is new.
pub open spec fn merge_one(
    ts: Seq<TranslationView>,
    k: TextKind,
    lang: Seq<char>,
    content: Seq<char>,
) -> Seq<TranslationView> {
    let i = lang_index(ts, lang);
    if i >= 0 {
        ts.update(i, with_kind(ts[i], k, content))
    } else {
        ts.push(with_kind(empty_translation(lang), k, content))
    }
}

/// One full pass over a job's elements for the kind `k`: every element
/// named `kind_key(k)` is merged, in document order.
pub open spec fn merge_pass(
    ts: Seq<TranslationView>,
    fields: Seq<FieldElementView>,
    k: TextKind,
) -> Seq<TranslationView>
    decreases fields.len(),
{
    if fields.len() == 0 {
        ts
    } else {
        let prev = merge_pass(ts, fields.drop_last(), k);
        let e = fields.last();
        if e.name == kind_key(k) {
            merge_one(prev, k, effective_lang(e), e.content)
        } else {
            prev
        }
    }
}

/// A job's final translation list: the title pass, then the description
/// pass, then the requirements pass, each over the full element list.
pub open spec fn merged_translations(fields: Seq<FieldElementView>) -> Seq<TranslationView> {
    merge_pass(
        merge_pass(merge_pass(Seq::empty(), fields, TextKind::Title), fields, TextKind::Description),
        fields,
        TextKind::Requirements,
    )
}

/// Whether a job element carries every field the assembler requires.
pub open spec fn job_complete(fields: Seq<FieldElementView>) -> bool {
    &&& field_lookup(fields, "unique_id"@) is Some
    &&& field_lookup(fields, "schedule"@) is Some
    &&& field_lookup(fields, "category"@) is Some
    &&& field_lookup(fields, "city"@) is Some
    &&& field_lookup(fields, "province"@) is Some
    &&& field_lookup(fields, "application_method"@) is Some
    &&& field_lookup(fields, "application_destination"@) is Some
    &&& field_lookup(fields, "company_id"@) is Some
    &&& field_lookup(fields, "company"@) is Some
    &&& field_lookup(fields, "company_city"@) is Some
    &&& field_lookup(fields, "company_postal_code"@) is Some
    &&& field_lookup(fields, "company_logo_url"@) is Some
}

/// The company record a complete job element assembles to.
pub open spec fn spec_company(fields: Seq<FieldElementView>) -> CompanyView {
    CompanyView {
        id: field_lookup(fields, "company_id"@)->Some_0,
        name: field_lookup(fields, "company"@)->Some_0,
        city: field_lookup(fields, "company_city"@)->Some_0,
        postal_code: field_lookup(fields, "company_postal_code"@)->Some_0,
        logo_url: field_lookup(fields, "company_logo_url"@)->Some_0,
    }
}

/// The job record a complete job element assembles to.
pub open spec fn spec_job(fields: Seq<FieldElementView>) -> JobView {
    JobView {
        id: field_lookup(fields, "unique_id"@)->Some_0,
        schedule: field_lookup(fields, "schedule"@)->Some_0,
        category: field_lookup(fields, "category"@)->Some_0,
        city: field_lookup(fields, "city"@)->Some_0,
        province: field_lookup(fields, "province"@)->Some_0,
        application_method: field_lookup(fields, "application_method"@)->Some_0,
        application_destination: field_lookup(fields, "application_destination"@)->Some_0,
        company: spec_company(fields),
        translations: merged_translations(fields),
    }
}

/// Whether every job element of a feed is complete.
pub open spec fn all_complete(elements: Seq<JobElementView>) -> bool {
    forall|i: int| 0 <= i < elements.len() ==> job_complete((#[trigger] elements[i]).fields)
}

/// At most one translation per language.
pub open spec fn distinct_langs(ts: Seq<TranslationView>) -> bool {
    forall|i: int, j: int|
        0 <= i < j < ts.len() ==> (#[trigger] ts[i]).language != (#[trigger] ts[j]).language
}

/// Merging one element's text never introduces a second translation
/// for a language that already has one.
proof fn lemma_merge_one_distinct(
    ts: Seq<TranslationView>,
    k: TextKind,
    lang: Seq<char>,
    content: Seq<char>,
)
    requires
        distinct_langs(ts),
    ensures
        distinct_langs(merge_one(ts, k, lang, content)),
{
    lemma_lang_index_props(ts, lang);
    let i = lang_index(ts, lang);
    let r = merge_one(ts, k, lang, content);
    if i >= 0 {
        assert forall|x: int, y: int| 0 <= x < y < r.len() implies (#[trigger] r[x]).language != (
        #[trigger] r[y]).language by {
            assert(r[x].language == ts[x].language);
            assert(r[y].language == ts[y].language);
        };
    } else {
        assert forall|x: int, y: int| 0 <= x < y < r.len() implies (#[trigger] r[x]).language != (
        #[trigger] r[y]).language by {
            if y == ts.len() {
                assert(r[y].language == lang);
                assert(ts[x].language != lang);
            } else {
                assert(r[x].language == ts[x].language);
                assert(r[y].language == ts[y].language);
            }
        };
    }
}

/// A full merge pass keeps the languages distinct.
proof fn lemma_merge_pass_distinct(
    ts: Seq<TranslationView>,
    fields: Seq<FieldElementView>,
    k: TextKind,
)
    requires
        distinct_langs(ts),
    ensures
        distinct_langs(merge_pass(ts, fields, k)),
    decreases fields.len(),
{
    if fields.len() == 0 {
    } else {
        lemma_merge_pass_distinct(ts, fields.drop_last(), k);
        let prev = merge_pass(ts, fields.drop_last(), k);
        let e = fields.last();
        if e.name == kind_key(k) {
            lemma_merge_one_distinct(prev, k, effective_lang(e), e.content);
        }
    }
}

/// A job's assembled translation list holds at most one translation per
/// distinct language.
pub proof fn lemma_merged_translations_distinct(fields: Seq<FieldElementView>)
    ensures
        distinct_langs(merged_translations(fields)),
{
    let empty = Seq::<TranslationView>::empty();
    assert(distinct_langs(empty));
    lemma_merge_pass_distinct(empty, fields, TextKind::Title);
    lemma_merge_pass_distinct(merge_pass(empty, fields, TextKind::Title), fields, TextKind::Description);
    lemma_merge_pass_distinct(
        merge_pass(merge_pass(empty, fields, TextKind::Title), fields, TextKind::Description),
        fields,
        TextKind::Requirements,
    );
}

/// Last-occurrence-wins lookup of a flat field among a job's child
/// elements.
pub fn lookup_field(fields: &Vec<FieldElement>, key: &String) -> (r: Option<String>)
    ensures
        r.deep_view() == field_lookup(fields.deep_view(), key@),
{
    let mut r: Option<String> = None;
    let mut i: usize = 0;
    while i < fields.len()
        invariant
            i <= fields@.len(),
            r.deep_view() == field_lookup(fields.deep_view().take(i as int), key@),
        decreases fields@.len() - i,
    {
        if fields[i].name == *key {
            r = Some(fields[i].content.clone());
        }
        proof {
            let dv = fields.deep_view();
            assert(dv.take(i + 1).drop_last() =~= dv.take(i as int));
            assert(dv.take(i + 1).last() == dv[i as int]);
        }
        i += 1;
    }
    proof {
        assert(fields.deep_view().take(fields@.len() as int) =~= fields.deep_view());
    }
    r
}

/// Index of the first translation already assembled for `lang`.
fn find_lang(ts: &Vec<Translation>, lang: &String) -> (r: Option<usize>)
    ensures
        match r {
            Some(j) => j < ts@.len() && j as int == lang_index(ts.deep_view(), lang@),
            None => lang_index(ts.deep_view(), lang@) == -1,
        },
{
    let mut i: usize = 0;
    while i < ts.len()
        invariant
            i <= ts@.len(),
            forall|j: int| 0 <= j < i ==> (#[trigger] ts.deep_view()[j]).language != lang@,
        decreases ts@.len() - i,
    {
        if ts[i].language == *lang {
            proof {
                let dv = ts.deep_view();
                assert(dv[i as int].language == lang@);
                lemma_lang_index_props(dv, lang@);
                let li = lang_index(dv, lang@);
                if li < i as int {
                    assert(dv[li].language == lang@);
                    assert(false);
                }
            }
            return Some(i);
        }
        i += 1;
    }
    proof {
        lemma_lang_index_props(ts.deep_view(), lang@);
    }
    None
}

/// The element name that carries each kind of text.
fn kind_key_str(k: &TextKind) -> (r: &'static str)
    ensures
        r@ == kind_key(*k),
{
    match k {
        TextKind::Title => "title",
        TextKind::Description => "description",
        TextKind::Requirements => "requirements",
    }
}

/// `t` with the text of kind `k` overwritten by `content`.
fn updated_translation(t: &Translation, k: &TextKind, content: String) -> (r: Translation)
    ensures
        r.deep_view() == with_kind(t.deep_view(), *k, content@),
{
    match k {
        TextKind::Title => Translation {
            language: t.language.clone(),
            title: content,
            description: t.description.clone(),
            requirements: t.requirements.clone(),
        },
        TextKind::Description => Translation {
            language: t.language.clone(),
            title: t.title.clone(),
            description: content,
            requirements: t.requirements.clone(),
        },
        TextKind::Requirements => Translation {
            language: t.language.clone(),
            title: t.title.clone(),
            description: t.description.clone(),
            requirements: content,
        },
    }
}

/// A fresh translation for a language seen for the first time: the text
/// of kind `k` is filled in, the other two stay empty.
fn fresh_translation(language: String, k: &TextKind, content: String) -> (r: Translation)
    ensures
        r.deep_view() == with_kind(empty_translation(language@), *k, content@),
{
    match k {
        TextKind::Title => Translation {
            language,
            title: content,
            description: String::new(),
            requirements: String::new(),
        },
        TextKind::Description => Translation {
            language,
            title: String::new(),
            description: content,
            requirements: String::new(),
        },
        TextKind::Requirements => Translation {
            language,
            title: String::new(),
            description: String::new(),
            requirements: content,
        },
    }
}

/// One pass of the translation merge: scan every element named after
/// `k` in document order and merge its text into `ts`.
fn apply_pass(ts: &mut Vec<Translation>, fields: &Vec<FieldElement>, k: &TextKind)
    ensures
        final (ts).deep_view() == merge_pass(old(ts).deep_view(), fields.deep_view(), *k),
{
    let key: String = kind_key_str(k).to_owned();
    let mut i: usize = 0;
    while i < fields.len()
        invariant
            i <= fields@.len(),
            key@ == kind_key(*k),
            ts.deep_view() == merge_pass(old(ts).deep_view(), fields.deep_view().take(i as int), *k),
        decreases fields@.len() - i,
    {
        let ghost prev = ts.deep_view();
        if fields[i].name == key {
            let lang: String = match &fields[i].lang {
                Some(l) => l.clone(),
                None => "en".to_owned(),
            };
            let content: String = fields[i].content.clone();
            proof {
                assert(lang@ == effective_lang(fields.deep_view()[i as int]));
            }
            match find_lang(ts, &lang) {
                Some(j) => {
                    let t = updated_translation(&ts[j], k, content);
                    ts[j] = t;
                },
                None => {
                    ts.push(fresh_translation(lang, k, content));
                },
            }
            proof {
                assert(ts.deep_view() =~= merge_one(
                    prev,
                    *k,
                    effective_lang(fields.deep_view()[i as int]),
                    fields.deep_view()[i as int].content,
                ));
            }
        }
        proof {
            let dv = fields.deep_view();
            assert(dv.take(i + 1).drop_last() =~= dv.take(i as int));
            assert(dv.take(i + 1).last() == dv[i as int]);
        }
        i += 1;
    }
    proof {
        assert(fields.deep_view().take(fields@.len() as int) =~= fields.deep_view());
    }
}

/// Rebuild a job's translation list from its child elements: the title
/// pass, then the description pass, then the requirements pass.
pub fn assemble_translations(fields: &Vec<FieldElement>) -> (r: Vec<Translation>)
    ensures
        r.deep_view() == merged_translations(fields.deep_view()),
{
    let mut ts: Vec<Translation> = Vec::new();
    proof {
        assert(ts.deep_view() =~= Seq::<TranslationView>::empty());
    }
    apply_pass(&mut ts, fields, &TextKind::Title);
    apply_pass(&mut ts, fields, &TextKind::Description);
    apply_pass(&mut ts, fields, &TextKind::Requirements);
    ts
}

/// Assemble one job element, or report that a required field is absent.
pub fn assemble_job(fields: &Vec<FieldElement>) -> (r: Option<Job>)
    ensures
        r is Some <==> job_complete(fields.deep_view()),
        r is Some ==> r->Some_0.deep_view() == spec_job(fields.deep_view()),
{
    let id = match lookup_field(fields, &"unique_id".to_owned()) {
        Some(v) => v,
        None => {
            return None;
        },
    };
    let schedule = match lookup_field(fields, &"schedule".to_owned()) {
        Some(v) => v,
        None => {
            return None;
        },
    };
    let category = match lookup_field(fields, &"category".to_owned()) {
        Some(v) => v,
        None => {
            return None;
        },
    };
    let city = match lookup_field(fields, &"city".to_owned()) {
        Some(v) => v,
        None => {
            return None;
        },
    };
    let province = match lookup_field(fields, &"province".to_owned()) {
        Some(v) => v,
        None => {
            return None;
        },
    };
    let application_method = match lookup_field(fields, &"application_method".to_owned()) {
        Some(v) => v,
        None => {
            return None;
        },
    };
    let application_destination = match lookup_field(
        fields,
        &"application_destination".to_owned(),
    ) {
        Some(v) => v,
        None => {
            return None;
        },
    };
    let company_id = match lookup_field(fields, &"company_id".to_owned()) {
        Some(v) => v,
        None => {
            return None;
        },
    };
    let company_name = match lookup_field(fields, &"company".to_owned()) {
        Some(v) => v,
        None => {
            return None;
        },
    };
    let company_city = match lookup_field(fields, &"company_city".to_owned()) {
        Some(v) => v,
        None => {
            return None;
        },
    };
    let company_postal_code = match lookup_field(fields, &"company_postal_code".to_owned()) {
        Some(v) => v,
        None => {
            return None;
        },
    };
    let company_logo_url = match lookup_field(fields, &"company_logo_url".to_owned()) {
        Some(v) => v,
        None => {
            return None;
        },
    };
    let translations = assemble_translations(fields);
    Some(
        Job {
            id,
            schedule,
            category,
            city,
            province,
            application_method,
            application_destination,
            company: Company {
                id: company_id,
                name: company_name,
                city: company_city,
                postal_code: company_postal_code,
                logo_url: company_logo_url,
            },
            translations,
        },
    )
}

/// Assemble every job element of a validated feed, in document order.
/// The whole batch fails as soon as one job element is incomplete.
pub fn assemble_jobs(elements: &Vec<JobElement>) -> (r: Result<Vec<Job>, String>)
    ensures
        r is Ok <==> all_complete(elements.deep_view()),
        r is Ok ==> {
            let jobs = r->Ok_0.deep_view();
            let elems = elements.deep_view();
            jobs.len() == elems.len() && forall|i: int|
                0 <= i < elems.len() ==> jobs[i] == spec_job((#[trigger] elems[i]).fields)
        },
        r is Err ==> r->Err_0@ == "Job element is missing a required field"@,
{
    let mut jobs: Vec<Job> = Vec::new();
    let mut i: usize = 0;
    while i < elements.len()
        invariant
            i <= elements@.len(),
            jobs.deep_view().len() == i,
            forall|j: int|
                0 <= j < i ==> job_complete((#[trigger] elements.deep_view()[j]).fields),
            forall|j: int|
                0 <= j < i ==> #[trigger] jobs.deep_view()[j] == spec_job(
                    elements.deep_view()[j].fields,
                ),
        decreases elements@.len() - i,
    {
        match assemble_job(&elements[i].fields) {
            Some(job) => {
                let ghost prev_jobs = jobs.deep_view();
                proof {
                    assert(elements.deep_view()[i as int] == elements@[i as int].deep_view());
                }
                jobs.push(job);
                proof {
                    assert(jobs.deep_view() =~= prev_jobs.push(job.deep_view()));
                }
            },
            None => {
                proof {
                    assert(!job_complete(elements.deep_view()[i as int].fields));
                }
                return Err("Job element is missing a required field".to_owned());
            },
        }
        i += 1;
    }
    Ok(jobs)
}

} // verus!
