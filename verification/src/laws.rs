//! Laws of the record assembler, proved once and for all inputs: the
//! assembler is deterministic, flat fields are last-write-wins, an
//! element with no language attribute contributes to the `"en"`
//! translation, and the three merge passes fill exactly the fields of
//! the language each element names.

use vstd::prelude::*;

use crate::assemble::{
    effective_lang, empty_translation, field_lookup, kind_key, lang_index,
    lemma_lang_index_props, merge_one, merge_pass, merged_translations, spec_job, with_kind,
    TextKind,
};
use crate::elements::{FieldElementView, JobElementView};
use crate::records::{JobView, TranslationView};

verus! {

/// Assembling the same validated elements twice yields identical
/// record sequences: the assembler's outcome is a function of its
/// input alone.
pub proof fn lemma_assembly_deterministic(
    elements: Seq<JobElementView>,
    r1: Seq<JobView>,
    r2: Seq<JobView>,
)
    requires
        r1.len() == elements.len(),
        forall|i: int| 0 <= i < elements.len() ==> r1[i] == spec_job((#[trigger] elements[i]).fields),
        r2.len() == elements.len(),
        forall|i: int| 0 <= i < elements.len() ==> r2[i] == spec_job((#[trigger] elements[i]).fields),
    ensures
        r1 == r2,
{
    assert forall|i: int| 0 <= i < r1.len() implies r1[i] == r2[i] by {
        assert(r1[i] == spec_job(elements[i].fields));
        assert(r2[i] == spec_job(elements[i].fields));
    };
    assert(r1 =~= r2);
}

/// An element with no language attribute belongs to the default
/// language `"en"`.
pub proof fn lemma_default_language(e: FieldElementView)
    requires
        e.lang is None,
    ensures
        effective_lang(e) == "en"@,
{
}

/// A title element with no language attribute is merged into the
/// `"en"` translation: when it is the job's only title, description or
/// requirements element of the default language, the assembled `"en"`
/// translation carries exactly its text. Elements of other names are
/// ignored by the merge passes, so flat fields (which carry no `lang`
/// attribute either) do not interfere.
pub proof fn lemma_default_language_merge(fields: Seq<FieldElementView>, ti: int)
    requires
        0 <= ti < fields.len(),
        fields[ti].name == "title"@,
        fields[ti].lang is None,
        forall|x: int|
            0 <= x < fields.len() && x != ti && ((#[trigger] fields[x]).name == "title"@
                || fields[x].name == "description"@ || fields[x].name == "requirements"@)
                ==> effective_lang(fields[x]) != "en"@,
    ensures
        ({
            let ts = merged_translations(fields);
            let p = lang_index(ts, "en"@);
            &&& p >= 0
            &&& ts[p].language == "en"@
            &&& ts[p].title == fields[ti].content
            &&& ts[p].description == Seq::<char>::empty()
            &&& ts[p].requirements == Seq::<char>::empty()
        }),
{
    reveal_strlit("title");
    reveal_strlit("description");
    reveal_strlit("requirements");
    assert("title"@.len() == 5);
    assert("description"@.len() == 11);
    assert("requirements"@.len() == 12);
    assert("title"@ != "description"@);
    assert("title"@ != "requirements"@);
    let empty = Seq::<TranslationView>::empty();
    let t1 = merge_pass(empty, fields, TextKind::Title);
    let t2 = merge_pass(t1, fields, TextKind::Description);
    let t3 = merge_pass(t2, fields, TextKind::Requirements);
    lemma_pass_single_lang(empty, fields, TextKind::Title, "en"@, ti);
    let p1 = lang_index(t1, "en"@);
    assert(t1[p1] == with_kind(empty_translation("en"@), TextKind::Title, fields[ti].content));
    lemma_pass_no_lang(t1, fields, TextKind::Description, "en"@);
    assert(lang_index(t2, "en"@) == p1);
    assert(t2[p1] == t1[p1]);
    lemma_pass_no_lang(t2, fields, TextKind::Requirements, "en"@);
    assert(lang_index(t3, "en"@) == p1);
    assert(t3[p1] == t2[p1]);
}

/// When a flat field repeats inside one job element, the last
/// occurrence in document order is the one looked up.
pub proof fn lemma_flat_field_last_wins(
    fields: Seq<FieldElementView>,
    key: Seq<char>,
    i: int,
    j: int,
)
    requires
        0 <= i < j < fields.len(),
        fields[i].name == key,
        fields[j].name == key,
        forall|l: int| j < l < fields.len() ==> (#[trigger] fields[l]).name != key,
    ensures
        field_lookup(fields, key) == Some(fields[j].content),
    decreases fields.len(),
{
    if j == fields.len() - 1 {
    } else {
        assert(fields.last().name != key);
        assert(forall|l: int|
            j < l < fields.drop_last().len() ==> (#[trigger] fields.drop_last()[l]).name != key);
        lemma_flat_field_last_wins(fields.drop_last(), key, i, j);
    }
}

/// Merging an element of another language moves neither the position
/// nor the value of the translation for `lang`.
proof fn lemma_merge_one_other_lang(
    ts: Seq<TranslationView>,
    k: TextKind,
    other: Seq<char>,
    content: Seq<char>,
    lang: Seq<char>,
)
    requires
        other != lang,
    ensures
        lang_index(merge_one(ts, k, other, content), lang) == lang_index(ts, lang),
        lang_index(ts, lang) >= 0 ==> merge_one(ts, k, other, content)[lang_index(ts, lang)]
            == ts[lang_index(ts, lang)],
{
    let r = merge_one(ts, k, other, content);
    let i = lang_index(ts, other);
    let p = lang_index(ts, lang);
    lemma_lang_index_props(ts, other);
    lemma_lang_index_props(ts, lang);
    lemma_lang_index_props(r, lang);
    assert(forall|x: int| 0 <= x < ts.len() ==> (#[trigger] r[x]).language == ts[x].language);
    let q = lang_index(r, lang);
    if p >= 0 {
        assert(r[p].language == lang);
        assert(0 <= q <= p);
        if q < p {
            assert(ts[q].language == lang);
            assert(false);
        }
    } else {
        if q >= 0 {
            assert(r[q].language == lang);
            if q < ts.len() {
                assert(ts[q].language == lang);
                assert(false);
            } else {
                assert(r[q].language == other);
                assert(false);
            }
        }
    }
}

/// Merging an element of language `lang` overwrites exactly the text
/// of its kind on the translation for `lang`, appending the
/// translation first when the language is new.
proof fn lemma_merge_one_same_lang(
    ts: Seq<TranslationView>,
    k: TextKind,
    lang: Seq<char>,
    content: Seq<char>,
)
    ensures
        ({
            let r = merge_one(ts, k, lang, content);
            let p0 = lang_index(ts, lang);
            let p = lang_index(r, lang);
            &&& p >= 0
            &&& (p0 >= 0 ==> p == p0 && r[p] == with_kind(ts[p0], k, content))
            &&& (p0 == -1 ==> p == ts.len() && r[p] == with_kind(empty_translation(lang), k, content))
        }),
{
    let r = merge_one(ts, k, lang, content);
    let p0 = lang_index(ts, lang);
    lemma_lang_index_props(ts, lang);
    lemma_lang_index_props(r, lang);
    let p = lang_index(r, lang);
    if p0 >= 0 {
        assert(forall|x: int| 0 <= x < ts.len() ==> (#[trigger] r[x]).language == ts[x].language);
        assert(r[p0].language == lang);
        assert(0 <= p <= p0);
        if p < p0 {
            assert(ts[p].language == lang);
            assert(false);
        }
    } else {
        assert(r[ts.len() as int].language == lang);
        assert(0 <= p <= ts.len());
        if p < ts.len() {
            assert(r[p].language == ts[p].language);
            assert(ts[p].language == lang);
            assert(false);
        }
    }
}

/// A pass whose matching elements never name `lang` moves neither the
/// position nor the value of the translation for `lang`.
proof fn lemma_pass_no_lang(
    ts: Seq<TranslationView>,
    fields: Seq<FieldElementView>,
    k: TextKind,
    lang: Seq<char>,
)
    requires
        forall|x: int|
            0 <= x < fields.len() && (#[trigger] fields[x]).name == kind_key(k) ==> effective_lang(
                fields[x],
            ) != lang,
    ensures
        lang_index(merge_pass(ts, fields, k), lang) == lang_index(ts, lang),
        lang_index(ts, lang) >= 0 ==> merge_pass(ts, fields, k)[lang_index(ts, lang)]
            == ts[lang_index(ts, lang)],
    decreases fields.len(),
{
    if fields.len() == 0 {
    } else {
        assert(forall|x: int|
            0 <= x < fields.drop_last().len() ==> #[trigger] fields.drop_last()[x] == fields[x]);
        lemma_pass_no_lang(ts, fields.drop_last(), k, lang);
        let prev = merge_pass(ts, fields.drop_last(), k);
        let e = fields.last();
        if e.name == kind_key(k) {
            lemma_merge_one_other_lang(prev, k, effective_lang(e), e.content, lang);
        }
    }
}

/// A pass with exactly one matching element of language `lang` fills
/// exactly that element's text into the translation for `lang`,
/// appending a fresh translation when the language was not yet seen.
proof fn lemma_pass_single_lang(
    ts: Seq<TranslationView>,
    fields: Seq<FieldElementView>,
    k: TextKind,
    lang: Seq<char>,
    m: int,
)
    requires
        0 <= m < fields.len(),
        fields[m].name == kind_key(k),
        effective_lang(fields[m]) == lang,
        forall|x: int|
            0 <= x < fields.len() && x != m && (#[trigger] fields[x]).name == kind_key(k)
                ==> effective_lang(fields[x]) != lang,
    ensures
        ({
            let r = merge_pass(ts, fields, k);
            let p0 = lang_index(ts, lang);
            let p = lang_index(r, lang);
            &&& p >= 0
            &&& (p0 >= 0 ==> p == p0 && r[p] == with_kind(ts[p0], k, fields[m].content))
            &&& (p0 == -1 ==> r[p] == with_kind(empty_translation(lang), k, fields[m].content))
        }),
    decreases fields.len(),
{
    assert(forall|x: int|
        0 <= x < fields.drop_last().len() ==> #[trigger] fields.drop_last()[x] == fields[x]);
    let prev = merge_pass(ts, fields.drop_last(), k);
    let e = fields.last();
    if m == fields.len() - 1 {
        lemma_pass_no_lang(ts, fields.drop_last(), k, lang);
        lemma_merge_one_same_lang(prev, k, lang, e.content);
    } else {
        lemma_pass_single_lang(ts, fields.drop_last(), k, lang, m);
        if e.name == kind_key(k) {
            lemma_merge_one_other_lang(prev, k, effective_lang(e), e.content, lang);
        }
    }
}

/// The translation merge is correct: for a job whose only elements of
/// language `lang` are one title and one description, the assembled
/// translation for `lang` carries exactly that title and that
/// description, and its requirements text stays empty.
pub proof fn lemma_translation_merge_correctness(
    fields: Seq<FieldElementView>,
    lang: Seq<char>,
    ti: int,
    di: int,
)
    requires
        0 <= ti < fields.len(),
        fields[ti].name == "title"@,
        effective_lang(fields[ti]) == lang,
        0 <= di < fields.len(),
        fields[di].name == "description"@,
        effective_lang(fields[di]) == lang,
        forall|x: int|
            0 <= x < fields.len() && x != ti && x != di ==> effective_lang(#[trigger] fields[x])
                != lang,
    ensures
        ({
            let ts = merged_translations(fields);
            let p = lang_index(ts, lang);
            &&& p >= 0
            &&& ts[p].language == lang
            &&& ts[p].title == fields[ti].content
            &&& ts[p].description == fields[di].content
            &&& ts[p].requirements == Seq::<char>::empty()
        }),
{
    reveal_strlit("title");
    reveal_strlit("description");
    reveal_strlit("requirements");
    assert("title"@.len() == 5);
    assert("description"@.len() == 11);
    assert("requirements"@.len() == 12);
    assert("title"@ != "description"@);
    assert("title"@ != "requirements"@);
    assert("description"@ != "requirements"@);
    let empty = Seq::<TranslationView>::empty();
    let t1 = merge_pass(empty, fields, TextKind::Title);
    let t2 = merge_pass(t1, fields, TextKind::Description);
    let t3 = merge_pass(t2, fields, TextKind::Requirements);
    lemma_pass_single_lang(empty, fields, TextKind::Title, lang, ti);
    let p1 = lang_index(t1, lang);
    assert(t1[p1] == with_kind(empty_translation(lang), TextKind::Title, fields[ti].content));
    lemma_pass_single_lang(t1, fields, TextKind::Description, lang, di);
    assert(lang_index(t2, lang) == p1);
    assert(t2[p1] == with_kind(t1[p1], TextKind::Description, fields[di].content));
    lemma_pass_no_lang(t2, fields, TextKind::Requirements, lang);
    assert(lang_index(t3, lang) == p1);
    assert(t3[p1] == t2[p1]);
}

} // verus!
