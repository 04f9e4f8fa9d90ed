use vstd::prelude::*;
use vstd::utf8::encode_utf8;
use crate::json::{
    as_array, as_i64, as_str, deref_array, deref_json, deref_str, first, get, jarr, jfirst, jget,
    ji64, jstr, Json,
};
use crate::dictionary::{
    audio_url, examples_view, make_audio_url, not_found, not_found_entry, phrases_view,
    urlencoding_simple, DictEntry, DictExample, DictPhrase, EntryView, ExampleView, PhraseView,
};
use crate::error::AppError;
use crate::numbers::{parse_i64, parse_int};
use crate::text::{
    append_str, contains_string, join, join_strings, push_char, replace_all, replace_str,
    strings_view, trim, trim_str,
};

verus! {

// ---------------------------------------------------------------------------
// Reading the response document
// ---------------------------------------------------------------------------

/// The items of an array, none where there is no array.
pub open spec fn items(a: Option<Seq<Json>>) -> Seq<Json> {
    match a {
        Some(v) => v,
        None => Seq::empty(),
    }
}

/// `s.unwrap_or("")`.
pub open spec fn text_or_empty(s: Option<Seq<char>>) -> Seq<char> {
    match s {
        Some(t) => t,
        None => Seq::empty(),
    }
}

/// What `f` keeps of each item, in order.
pub open spec fn collect<T>(a: Seq<Json>, f: spec_fn(Json) -> Option<T>) -> Seq<T>
    decreases a.len(),
{
    if a.len() == 0 {
        Seq::empty()
    } else {
        let r = collect(a.drop_last(), f);
        match f(a.last()) {
            Some(x) => r.push(x),
            None => r,
        }
    }
}

proof fn lemma_collect_step<T>(a: Seq<Json>, f: spec_fn(Json) -> Option<T>, i: int)
    requires
        0 <= i < a.len(),
    ensures
        collect(a.take(i + 1), f) == (match f(a[i]) {
            Some(x) => collect(a.take(i), f).push(x),
            None => collect(a.take(i), f),
        }),
{
    assert(a.take(i + 1).drop_last() =~= a.take(i));
}

fn text_of(r: Option<&String>) -> (s: String)
    ensures
        s@ == text_or_empty(deref_str(r)),
{
    match r {
        Some(t) => t.clone(),
        None => String::new(),
    }
}

fn opt_text_of(r: Option<&String>) -> (s: Option<String>)
    ensures
        s.deep_view() == deref_str(r),
{
    match r {
        Some(t) => Some(t.clone()),
        None => None,
    }
}

// ---------------------------------------------------------------------------
// Exam tags, word forms, translations, parts of speech
// ---------------------------------------------------------------------------

/// An exam tag: any string item.
pub open spec fn tag_of(j: Json) -> Option<Seq<char>> {
    jstr(Some(j))
}

pub open spec fn tag_fn() -> spec_fn(Json) -> Option<Seq<char>> {
    |j: Json| tag_of(j)
}

/// The one-letter code of a word-form name; other names stand for themselves.
pub open spec fn form_code(name: Seq<char>) -> Seq<char> {
    if name == "复数"@ {
        "s"@
    } else if name == "过去式"@ {
        "p"@
    } else if name == "过去分词"@ {
        "d"@
    } else if name == "现在分词"@ {
        "i"@
    } else if name == "第三人称单数"@ {
        "3"@
    } else if name == "比较级"@ {
        "r"@
    } else if name == "最高级"@ {
        "t"@
    } else {
        name
    }
}

/// A word form `code:value`, kept when both its name and value are non-empty.
pub open spec fn form_of(item: Json) -> Option<Seq<char>> {
    let wf = jget(Some(item), "wf"@);
    let name = text_or_empty(jstr(jget(wf, "name"@)));
    let value = text_or_empty(jstr(jget(wf, "value"@)));
    if name.len() > 0 && value.len() > 0 {
        Some(form_code(name) + ":"@ + value)
    } else {
        None
    }
}

pub open spec fn form_fn() -> spec_fn(Json) -> Option<Seq<char>> {
    |j: Json| form_of(j)
}

/// A translation: the item's `tran` string, else the first `i` of the `l` of
/// its first `tr`.
pub open spec fn tran_of(tr: Json) -> Option<Seq<char>> {
    match jstr(jget(Some(tr), "tran"@)) {
        Some(t) => Some(t),
        None => jstr(
            jfirst(jarr(jget(jget(jfirst(jarr(jget(Some(tr), "tr"@))), "l"@), "i"@))),
        ),
    }
}

pub open spec fn tran_fn() -> spec_fn(Json) -> Option<Seq<char>> {
    |j: Json| tran_of(j)
}

/// The part of speech of a synonym group.
pub open spec fn pos_of(syn: Json) -> Option<Seq<char>> {
    jstr(jget(jget(Some(syn), "syno"@), "pos"@))
}

/// The parts of speech in order of first appearance, each once.
pub open spec fn pos_list(a: Seq<Json>) -> Seq<Seq<char>>
    decreases a.len(),
{
    if a.len() == 0 {
        Seq::empty()
    } else {
        let r = pos_list(a.drop_last());
        match pos_of(a.last()) {
            Some(p) => if r.contains(p) {
                r
            } else {
                r.push(p)
            },
            None => r,
        }
    }
}

fn tag_item(j: &Json) -> (r: Option<String>)
    ensures
        r.deep_view() == tag_of(*j),
{
    opt_text_of(as_str(Some(j)))
}

fn form_code_of(name: &str) -> (c: &str)
    ensures
        c@ == form_code(name@),
{
    if crate::text::same_text(name, "复数") {
        "s"
    } else if crate::text::same_text(name, "过去式") {
        "p"
    } else if crate::text::same_text(name, "过去分词") {
        "d"
    } else if crate::text::same_text(name, "现在分词") {
        "i"
    } else if crate::text::same_text(name, "第三人称单数") {
        "3"
    } else if crate::text::same_text(name, "比较级") {
        "r"
    } else if crate::text::same_text(name, "最高级") {
        "t"
    } else {
        name
    }
}

fn form_item(item: &Json) -> (r: Option<String>)
    ensures
        r.deep_view() == form_of(*item),
{
    let wf = get(Some(item), "wf");
    let name = text_of(as_str(get(wf, "name")));
    let value = text_of(as_str(get(wf, "value")));
    if !name.as_str().is_empty() && !value.as_str().is_empty() {
        let mut s = String::new();
        append_str(&mut s, form_code_of(name.as_str()));
        push_char(&mut s, ':');
        append_str(&mut s, value.as_str());
        proof {
            reveal_strlit(":");
            assert(s@ =~= form_code(name@) + ":"@ + value@);
        }
        Some(s)
    } else {
        None
    }
}

fn tran_item(tr: &Json) -> (r: Option<String>)
    ensures
        r.deep_view() == tran_of(*tr),
{
    match as_str(get(Some(tr), "tran")) {
        Some(t) => Some(t.clone()),
        None => opt_text_of(
            as_str(first(as_array(get(get(first(as_array(get(Some(tr), "tr"))), "l"), "i")))),
        ),
    }
}

fn pos_item(syn: &Json) -> (r: Option<String>)
    ensures
        r.deep_view() == pos_of(*syn),
{
    opt_text_of(as_str(get(get(Some(syn), "syno"), "pos")))
}

/// The exam tags of an array.
fn collect_tags(a: Option<&Vec<Json>>) -> (r: Vec<String>)
    ensures
        strings_view(r@) == collect(items(deref_array(a)), tag_fn()),
{
    let mut out: Vec<String> = Vec::new();
    if let Some(v) = a {
        let mut i: usize = 0;
        while i < v.len()
            invariant
                i <= v@.len(),
                deref_array(a) == Some(v@),
                strings_view(out@) == collect(v@.take(i as int), tag_fn()),
            decreases v.len() - i,
        {
            proof {
                lemma_collect_step(v@, tag_fn(), i as int);
            }
            let ghost before = out@;
            if let Some(s) = tag_item(&v[i]) {
                out.push(s);
                assert(strings_view(out@) =~= strings_view(before).push(s@));
            }
            i = i + 1;
        }
        assert(v@.take(v@.len() as int) =~= v@);
    }
    out
}

/// The word forms of an array.
fn collect_forms(a: Option<&Vec<Json>>) -> (r: Vec<String>)
    ensures
        strings_view(r@) == collect(items(deref_array(a)), form_fn()),
{
    let mut out: Vec<String> = Vec::new();
    if let Some(v) = a {
        let mut i: usize = 0;
        while i < v.len()
            invariant
                i <= v@.len(),
                deref_array(a) == Some(v@),
                strings_view(out@) == collect(v@.take(i as int), form_fn()),
            decreases v.len() - i,
        {
            proof {
                lemma_collect_step(v@, form_fn(), i as int);
            }
            let ghost before = out@;
            if let Some(s) = form_item(&v[i]) {
                out.push(s);
                assert(strings_view(out@) =~= strings_view(before).push(s@));
            }
            i = i + 1;
        }
        assert(v@.take(v@.len() as int) =~= v@);
    }
    out
}

/// The translations of an array.
fn collect_trans(a: Option<&Vec<Json>>) -> (r: Vec<String>)
    ensures
        strings_view(r@) == collect(items(deref_array(a)), tran_fn()),
{
    let mut out: Vec<String> = Vec::new();
    if let Some(v) = a {
        let mut i: usize = 0;
        while i < v.len()
            invariant
                i <= v@.len(),
                deref_array(a) == Some(v@),
                strings_view(out@) == collect(v@.take(i as int), tran_fn()),
            decreases v.len() - i,
        {
            proof {
                lemma_collect_step(v@, tran_fn(), i as int);
            }
            let ghost before = out@;
            if let Some(s) = tran_item(&v[i]) {
                out.push(s);
                assert(strings_view(out@) =~= strings_view(before).push(s@));
            }
            i = i + 1;
        }
        assert(v@.take(v@.len() as int) =~= v@);
    }
    out
}

/// The parts of speech of an array, without repeats.
fn collect_pos(a: Option<&Vec<Json>>) -> (r: Vec<String>)
    ensures
        strings_view(r@) == pos_list(items(deref_array(a))),
{
    let mut out: Vec<String> = Vec::new();
    if let Some(v) = a {
        let mut i: usize = 0;
        while i < v.len()
            invariant
                i <= v@.len(),
                deref_array(a) == Some(v@),
                strings_view(out@) == pos_list(v@.take(i as int)),
            decreases v.len() - i,
        {
            assert(v@.take(i + 1).drop_last() =~= v@.take(i as int));
            let ghost before = out@;
            if let Some(p) = pos_item(&v[i]) {
                if !contains_string(&out, p.as_str()) {
                    out.push(p);
                    assert(strings_view(out@) =~= strings_view(before).push(p@));
                }
            }
            i = i + 1;
        }
        assert(v@.take(v@.len() as int) =~= v@);
    }
    out
}

// ---------------------------------------------------------------------------
// Collins rating, phonetics
// ---------------------------------------------------------------------------

/// The star rating of the first Collins entry: a string star is parsed as
/// an `i64` (0 when it does not parse), a numeric star taken as it is.
pub open spec fn collins_of(json: Json) -> i64 {
    let star = jget(
        jfirst(jarr(jget(jget(Some(json), "collins"@), "collins_entries"@))),
        "star"@,
    );
    match jstr(star) {
        Some(s) => match parse_int(s, i64::MIN as int, i64::MAX as int) {
            Some(v) => v as i64,
            None => 0,
        },
        None => match ji64(star) {
            Some(n) => n,
            None => 0,
        },
    }
}

fn collins_rating(json: &Json) -> (r: i64)
    ensures
        r == collins_of(*json),
{
    let star = get(
        first(as_array(get(get(Some(json), "collins"), "collins_entries"))),
        "star",
    );
    match as_str(star) {
        Some(s) => match parse_i64(s.as_str()) {
            Some(v) => v,
            None => 0,
        },
        None => match as_i64(star) {
            Some(n) => n,
            None => 0,
        },
    }
}

/// The first word block of the English-Chinese part.
pub open spec fn word_info(json: Json) -> Option<Json> {
    jfirst(jarr(jget(jget(Some(json), "ec"@), "word"@)))
}

pub open spec fn bracketed(p: Seq<char>) -> Seq<char> {
    "[ "@ + p + " ]"@
}

/// `[ phone ]`, else the American, else the British phonetic, else nothing.
pub open spec fn phonetic_of(wi: Option<Json>) -> Seq<char> {
    match jstr(jget(wi, "phone"@)) {
        Some(p) => bracketed(p),
        None => match jstr(jget(wi, "usphone"@)) {
            Some(u) => bracketed(u),
            None => match jstr(jget(wi, "ukphone"@)) {
                Some(k) => bracketed(k),
                None => Seq::empty(),
            },
        },
    }
}

fn bracket(p: &str) -> (r: String)
    ensures
        r@ == bracketed(p@),
{
    let mut s = String::new();
    append_str(&mut s, "[ ");
    append_str(&mut s, p);
    append_str(&mut s, " ]");
    s
}

fn phonetic_text(wi: Option<&Json>) -> (r: String)
    ensures
        r@ == phonetic_of(deref_json(wi)),
{
    match as_str(get(wi, "phone")) {
        Some(p) => bracket(p.as_str()),
        None => match as_str(get(wi, "usphone")) {
            Some(u) => bracket(u.as_str()),
            None => match as_str(get(wi, "ukphone")) {
                Some(k) => bracket(k.as_str()),
                None => String::new(),
            },
        },
    }
}

// ---------------------------------------------------------------------------
// Example sentences and phrases
// ---------------------------------------------------------------------------

/// The first `n` items, or all of them when there are fewer.
pub open spec fn first_n(a: Seq<Json>, n: int) -> Seq<Json> {
    if a.len() <= n {
        a
    } else {
        a.take(n)
    }
}

/// The English sentence of a pair: `sentence-eng` where that key is
/// present, else `sentence`; empty when it is not a string.
pub open spec fn sentence_raw(pair: Json) -> Seq<char> {
    let e = jget(Some(pair), "sentence-eng"@);
    text_or_empty(
        jstr(
            if e is Some {
                e
            } else {
                jget(Some(pair), "sentence"@)
            },
        ),
    )
}

pub open spec fn strip_bold(s: Seq<char>) -> Seq<char> {
    replace_all(replace_all(s, "<b>"@, Seq::empty()), "</b>"@, Seq::empty())
}

pub open spec fn strip_title_marks(s: Seq<char>) -> Seq<char> {
    replace_all(replace_all(s, "《"@, Seq::empty()), "》"@, Seq::empty())
}

/// An example, kept when both the cleaned sentence and its translation are
/// non-empty.
pub open spec fn example_of(pair: Json) -> Option<ExampleView> {
    let sentence = strip_bold(sentence_raw(pair));
    let translation = text_or_empty(jstr(jget(Some(pair), "sentence-translation"@)));
    let source = match jstr(jget(Some(pair), "source"@)) {
        Some(s) => Some(strip_title_marks(s)),
        None => None,
    };
    if sentence.len() > 0 && translation.len() > 0 {
        Some(ExampleView { sentence, translation, source })
    } else {
        None
    }
}

pub open spec fn example_fn() -> spec_fn(Json) -> Option<ExampleView> {
    |j: Json| example_of(j)
}

/// A phrase translation, cleaned of its markup and trimmed.
pub open spec fn clean_tr(tr: Json) -> Option<Seq<char>> {
    match jstr(jget(Some(tr), "tr"@)) {
        Some(t) => Some(
            trim(replace_all(replace_all(t, "@{l=}"@, Seq::empty()), "}"@, Seq::empty())),
        ),
        None => None,
    }
}

/// The first cleaned translation that is not empty.
pub open spec fn first_clean(trs: Seq<Json>) -> Option<Seq<char>>
    decreases trs.len(),
{
    if trs.len() == 0 {
        None
    } else {
        match clean_tr(trs[0]) {
            Some(c) => if c.len() > 0 {
                Some(c)
            } else {
                first_clean(trs.drop_first())
            },
            None => first_clean(trs.drop_first()),
        }
    }
}

/// A phrase, kept when it has a headword.
pub open spec fn phrase_of(item: Json) -> Option<PhraseView> {
    let phr = jget(Some(item), "phr"@);
    match jstr(jget(jget(jget(phr, "headword"@), "l"@), "i"@)) {
        Some(h) => Some(
            PhraseView { phrase: h, translation: first_clean(items(jarr(jget(phr, "trs"@)))) },
        ),
        None => None,
    }
}

pub open spec fn phrase_fn() -> spec_fn(Json) -> Option<PhraseView> {
    |j: Json| phrase_of(j)
}

fn sentence_text(pair: &Json) -> (r: String)
    ensures
        r@ == sentence_raw(*pair),
{
    let e = get(Some(pair), "sentence-eng");
    let s = if e.is_some() {
        e
    } else {
        get(Some(pair), "sentence")
    };
    text_of(as_str(s))
}

fn example_item(pair: &Json) -> (r: Option<DictExample>)
    ensures
        r matches Some(e) ==> example_of(*pair) == Some(e@),
        r is None ==> example_of(*pair) is None,
{
    proof {
        reveal_strlit("<b>");
        reveal_strlit("</b>");
        reveal_strlit("《");
        reveal_strlit("》");
        reveal_strlit("");
        assert(""@ =~= Seq::<char>::empty());
    }
    let raw = sentence_text(pair);
    let step = replace_str(raw.as_str(), "<b>", "");
    let sentence = replace_str(step.as_str(), "</b>", "");
    let translation = text_of(as_str(get(Some(pair), "sentence-translation")));
    let source = match as_str(get(Some(pair), "source")) {
        Some(s) => {
            let t = replace_str(s.as_str(), "《", "");
            Some(replace_str(t.as_str(), "》", ""))
        },
        None => None,
    };
    if !sentence.as_str().is_empty() && !translation.as_str().is_empty() {
        Some(DictExample { sentence, translation, source })
    } else {
        None
    }
}

fn clean_tr_item(tr: &Json) -> (r: Option<String>)
    ensures
        r.deep_view() == clean_tr(*tr),
{
    proof {
        reveal_strlit("@{l=}");
        reveal_strlit("}");
        reveal_strlit("");
        assert(""@ =~= Seq::<char>::empty());
    }
    match as_str(get(Some(tr), "tr")) {
        Some(t) => {
            let a = replace_str(t.as_str(), "@{l=}", "");
            let b = replace_str(a.as_str(), "}", "");
            Some(trim_str(b.as_str()))
        },
        None => None,
    }
}

fn first_clean_of(a: Option<&Vec<Json>>) -> (r: Option<String>)
    ensures
        r.deep_view() == first_clean(items(deref_array(a))),
{
    match a {
        Some(v) => {
            let mut i: usize = 0;
            assert(v@.skip(0) =~= v@);
            while i < v.len()
                invariant
                    i <= v@.len(),
                    deref_array(a) == Some(v@),
                    first_clean(v@) == first_clean(v@.skip(i as int)),
                decreases v.len() - i,
            {
                let ghost rest = v@.skip(i as int);
                assert(rest[0] == v@[i as int]);
                assert(rest.drop_first() =~= v@.skip(i + 1));
                if let Some(c) = clean_tr_item(&v[i]) {
                    if !c.as_str().is_empty() {
                        return Some(c);
                    }
                }
                i = i + 1;
            }
            None
        },
        None => None,
    }
}

fn phrase_item(item: &Json) -> (r: Option<DictPhrase>)
    ensures
        r matches Some(p) ==> phrase_of(*item) == Some(p@),
        r is None ==> phrase_of(*item) is None,
{
    let phr = get(Some(item), "phr");
    match as_str(get(get(get(phr, "headword"), "l"), "i")) {
        Some(h) => Some(
            DictPhrase { phrase: h.clone(), translation: first_clean_of(as_array(get(phr, "trs"))) },
        ),
        None => None,
    }
}

/// The examples among the first five sentence pairs.
fn collect_examples(a: Option<&Vec<Json>>) -> (r: Vec<DictExample>)
    ensures
        examples_view(r@) == collect(first_n(items(deref_array(a)), 5), example_fn()),
{
    let mut out: Vec<DictExample> = Vec::new();
    if let Some(v) = a {
        let n: usize = if v.len() < 5 {
            v.len()
        } else {
            5
        };
        let mut i: usize = 0;
        while i < n
            invariant
                i <= n <= v@.len(),
                n == v@.len() || n == 5,
                n < 5 ==> n == v@.len(),
                deref_array(a) == Some(v@),
                examples_view(out@) == collect(v@.take(i as int), example_fn()),
            decreases n - i,
        {
            proof {
                lemma_collect_step(v@, example_fn(), i as int);
            }
            let ghost before = out@;
            if let Some(e) = example_item(&v[i]) {
                out.push(e);
                assert(examples_view(out@) =~= examples_view(before).push(e@));
            }
            i = i + 1;
        }
        if v.len() <= 5 {
            assert(v@.take(n as int) =~= v@);
        }
    }
    out
}

/// The phrases among the first six items.
fn collect_phrases(a: Option<&Vec<Json>>) -> (r: Vec<DictPhrase>)
    ensures
        phrases_view(r@) == collect(first_n(items(deref_array(a)), 6), phrase_fn()),
{
    let mut out: Vec<DictPhrase> = Vec::new();
    if let Some(v) = a {
        let n: usize = if v.len() < 6 {
            v.len()
        } else {
            6
        };
        let mut i: usize = 0;
        while i < n
            invariant
                i <= n <= v@.len(),
                n == v@.len() || n == 6,
                n < 6 ==> n == v@.len(),
                deref_array(a) == Some(v@),
                phrases_view(out@) == collect(v@.take(i as int), phrase_fn()),
            decreases n - i,
        {
            proof {
                lemma_collect_step(v@, phrase_fn(), i as int);
            }
            let ghost before = out@;
            if let Some(p) = phrase_item(&v[i]) {
                out.push(p);
                assert(phrases_view(out@) =~= phrases_view(before).push(p@));
            }
            i = i + 1;
        }
        if v.len() <= 6 {
            assert(v@.take(n as int) =~= v@);
        }
    }
    out
}

// ---------------------------------------------------------------------------
// The whole entry
// ---------------------------------------------------------------------------

/// The address the word is looked up at.
pub open spec fn query_url(query: Seq<char>) -> Seq<char> {
    "https://dict.youdao.com/jsonapi?jsonversion=2&client=mobile&q="@ + crate::dictionary::url_encode(
        encode_utf8(query),
    )
}

/// The message for a lookup answered with a status other than success.
pub open spec fn bad_status_message() -> Seq<char> {
    "API 请求状态异常"@
}

/// Whether a lookup's HTTP status lets its answer be read: a success status
/// (200 to 299) does; any other is an error of the `other` kind.
pub fn check_lookup_status(status: u16) -> (r: Result<(), AppError>)
    ensures
        r is Ok <==> 200 <= status <= 299,
        r matches Err(e) ==> e is Other && e.message_spec() == bad_status_message(),
{
    if 200 <= status && status <= 299 {
        Ok(())
    } else {
        Err(AppError::Other("API 请求状态异常".to_string()))
    }
}

/// The lookup address for `query`, its UTF-8 bytes percent-encoded.
pub fn youdao_query_url(query: &str) -> (r: String)
    ensures
        r@ == query_url(query@),
{
    let mut s = String::new();
    append_str(&mut s, "https://dict.youdao.com/jsonapi?jsonversion=2&client=mobile&q=");
    let e = urlencoding_simple(query);
    append_str(&mut s, e.as_str());
    s
}

/// The translations of the word block, else the general translation.
pub open spec fn translations_of(json: Json) -> Seq<Seq<char>> {
    let main = collect(items(jarr(jget(word_info(json), "trs"@))), tran_fn());
    if main.len() > 0 {
        main
    } else {
        match jstr(jget(jget(Some(json), "fanyi"@), "tran"@)) {
            Some(t) => seq![t],
            None => Seq::empty(),
        }
    }
}

/// The entry a response document describes for `query`: not found when it
/// holds no translation.
pub open spec fn youdao_entry(query: Seq<char>, json: Json) -> EntryView {
    let trans = translations_of(json);
    if trans.len() == 0 {
        not_found_entry(query)
    } else {
        let wi = word_info(json);
        let us = jstr(jget(wi, "usphone"@));
        let uk = jstr(jget(wi, "ukphone"@));
        EntryView {
            word: query,
            phonetic: phonetic_of(wi),
            us_phonetic: us,
            uk_phonetic: uk,
            us_audio: if us is Some || uk is None {
                Some(audio_url(query, '2'))
            } else {
                None
            },
            uk_audio: if uk is Some || us is None {
                Some(audio_url(query, '1'))
            } else {
                None
            },
            definition: join(trans, "\n"@),
            translation: join(trans, "\n"@),
            pos: join(pos_list(items(jarr(jget(jget(Some(json), "syno"@), "synos"@)))), ", "@),
            tag: join(
                collect(items(jarr(jget(jget(Some(json), "ec"@), "exam_type"@))), tag_fn()),
                " "@,
            ),
            exchange: join(collect(items(jarr(jget(wi, "wfs"@))), form_fn()), "/"@),
            collins: collins_of(json),
            oxford: 0,
            found: true,
            lemmatized_from: None,
            examples: collect(
                first_n(
                    items(jarr(jget(jget(Some(json), "blng_sents_part"@), "sentence-pair"@))),
                    5,
                ),
                example_fn(),
            ),
            phrases: collect(
                first_n(items(jarr(jget(jget(Some(json), "phrs"@), "phrs"@))), 6),
                phrase_fn(),
            ),
        }
    }
}

/// Reads the dictionary entry for `query` out of a lookup response.
pub fn parse_youdao_response(query: &str, json: &Json) -> (e: DictEntry)
    ensures
        e@ == youdao_entry(query@, *json),
{
    let ec = get(Some(json), "ec");
    let wi = first(as_array(get(ec, "word")));
    let mut trans = collect_trans(as_array(get(wi, "trs")));
    if trans.len() == 0 {
        if let Some(t) = as_str(get(get(Some(json), "fanyi"), "tran")) {
            trans.push(t.clone());
        }
    }
    assert(strings_view(trans@) =~= translations_of(*json));
    if trans.len() == 0 {
        return not_found(query.to_string());
    }
    let us = opt_text_of(as_str(get(wi, "usphone")));
    let uk = opt_text_of(as_str(get(wi, "ukphone")));
    let encoded = urlencoding_simple(query);
    let us_audio = if us.is_some() || uk.is_none() {
        Some(make_audio_url(encoded.as_str(), '2'))
    } else {
        None
    };
    let uk_audio = if uk.is_some() || us.is_none() {
        Some(make_audio_url(encoded.as_str(), '1'))
    } else {
        None
    };
    let translation = join_strings(&trans, "\n");
    let definition = join_strings(&trans, "\n");
    let pos_items = collect_pos(as_array(get(get(Some(json), "syno"), "synos")));
    let tag_items = collect_tags(as_array(get(ec, "exam_type")));
    let form_items = collect_forms(as_array(get(wi, "wfs")));
    let examples = collect_examples(
        as_array(get(get(Some(json), "blng_sents_part"), "sentence-pair")),
    );
    let phrases = collect_phrases(as_array(get(get(Some(json), "phrs"), "phrs")));
    DictEntry {
        word: query.to_string(),
        phonetic: phonetic_text(wi),
        us_phonetic: us,
        uk_phonetic: uk,
        us_audio,
        uk_audio,
        definition,
        translation,
        pos: join_strings(&pos_items, ", "),
        tag: join_strings(&tag_items, " "),
        exchange: join_strings(&form_items, "/"),
        collins: collins_rating(json),
        oxford: 0,
        found: true,
        lemmatized_from: None,
        examples,
        phrases,
    }
}

// ---------------------------------------------------------------------------
// Laws
// ---------------------------------------------------------------------------

/// Each part of speech is listed once.
pub proof fn law_pos_unique(a: Seq<Json>)
    ensures
        forall|i: int, j: int| 0 <= i < j < pos_list(a).len() ==> pos_list(a)[i] != pos_list(a)[j],
    decreases a.len(),
{
    if a.len() > 0 {
        law_pos_unique(a.drop_last());
        let r = pos_list(a.drop_last());
        if let Some(p) = pos_of(a.last()) {
            if !r.contains(p) {
                assert forall|i: int, j: int| 0 <= i < j < r.push(p).len() implies r.push(p)[i]
                    != r.push(p)[j] by {
                    if j == r.len() {
                        assert(r[i] != p);
                    }
                }
            }
        }
    }
}

proof fn lemma_collect_len<T>(a: Seq<Json>, f: spec_fn(Json) -> Option<T>)
    ensures
        collect(a, f).len() <= a.len(),
    decreases a.len(),
{
    if a.len() > 0 {
        lemma_collect_len(a.drop_last(), f);
    }
}

/// An entry shows at most five example sentences and six phrases, and each
/// example has both a sentence and a translation.
pub proof fn law_entry_bounds(query: Seq<char>, json: Json)
    ensures
        youdao_entry(query, json).examples.len() <= 5,
        youdao_entry(query, json).phrases.len() <= 6,
        forall|i: int|
            0 <= i < youdao_entry(query, json).examples.len() ==> {
                &&& #[trigger] youdao_entry(query, json).examples[i].sentence.len() > 0
                &&& youdao_entry(query, json).examples[i].translation.len() > 0
            },
{
    let pairs = first_n(
        items(jarr(jget(jget(Some(json), "blng_sents_part"@), "sentence-pair"@))),
        5,
    );
    let phrs = first_n(items(jarr(jget(jget(Some(json), "phrs"@), "phrs"@))), 6);
    lemma_collect_len(pairs, example_fn());
    lemma_collect_len(phrs, phrase_fn());
    lemma_examples_filled(pairs);
}

proof fn lemma_examples_filled(a: Seq<Json>)
    ensures
        forall|i: int|
            0 <= i < collect(a, example_fn()).len() ==> {
                &&& #[trigger] collect(a, example_fn())[i].sentence.len() > 0
                &&& collect(a, example_fn())[i].translation.len() > 0
            },
    decreases a.len(),
{
    if a.len() > 0 {
        lemma_examples_filled(a.drop_last());
        let r = collect(a.drop_last(), example_fn());
        if let Some(x) = example_of(a.last()) {
            assert forall|i: int| 0 <= i < r.push(x).len() implies {
                &&& #[trigger] r.push(x)[i].sentence.len() > 0
                &&& r.push(x)[i].translation.len() > 0
            } by {
                if i < r.len() {
                    assert(r.push(x)[i] == r[i]);
                }
            }
        }
    }
}

/// The word-form names of the dictionary and their one-letter codes:
/// plural, past tense, past participle, present participle, third person
/// singular, comparative, superlative.
pub open spec fn form_names_and_codes() -> Seq<(Seq<char>, Seq<char>)> {
    seq![
        ("复数"@, "s"@),
        ("过去式"@, "p"@),
        ("过去分词"@, "d"@),
        ("现在分词"@, "i"@),
        ("第三人称单数"@, "3"@),
        ("比较级"@, "r"@),
        ("最高级"@, "t"@),
    ]
}

/// Each word-form name is coded by the table (复数 s, 过去式 p, 过去分词 d,
/// 现在分词 i, 第三人称单数 3, 比较级 r, 最高级 t); different names get
/// different codes, so no two forms are reported as the same kind; any
/// other name stands for itself.
pub proof fn law_form_codes(name: Seq<char>)
    ensures
        forall|i: int|
            0 <= i < 7 ==> form_code(#[trigger] form_names_and_codes()[i].0)
                == form_names_and_codes()[i].1,
        forall|i: int, j: int|
            0 <= i < 7 && 0 <= j < 7 && i != j ==> form_code(
                #[trigger] form_names_and_codes()[i].0,
            ) != form_code(#[trigger] form_names_and_codes()[j].0),
        (forall|i: int| 0 <= i < 7 ==> name != #[trigger] form_names_and_codes()[i].0)
            ==> form_code(name) == name,
{
    reveal_strlit("复数");
    reveal_strlit("过去式");
    reveal_strlit("过去分词");
    reveal_strlit("现在分词");
    reveal_strlit("第三人称单数");
    reveal_strlit("比较级");
    reveal_strlit("最高级");
    reveal_strlit("s");
    reveal_strlit("p");
    reveal_strlit("d");
    reveal_strlit("i");
    reveal_strlit("3");
    reveal_strlit("r");
    reveal_strlit("t");
    let t = form_names_and_codes();
    assert(t[0].0.len() == 2 && t[1].0.len() == 3 && t[2].0.len() == 4 && t[3].0.len() == 4);
    assert(t[4].0.len() == 6 && t[5].0.len() == 3 && t[6].0.len() == 3);
    assert(t[1].0[0] == '过' && t[5].0[0] == '比' && t[6].0[0] == '最');
    assert(t[2].0[0] == '过' && t[3].0[0] == '现');
    assert(t[0].0 != t[1].0 && t[0].0 != t[2].0 && t[0].0 != t[3].0);
    assert(t[1].0 != t[2].0);
    assert forall|i: int| 0 <= i < 7 implies form_code(#[trigger] t[i].0) == t[i].1 by {
        if i == 3 {
            assert(t[3].0 != t[2].0);
        } else if i == 5 {
            assert(t[5].0 != t[1].0);
        } else if i == 6 {
            assert(t[6].0 != t[1].0 && t[6].0 != t[5].0);
        }
    }
    assert forall|i: int, j: int|
        0 <= i < 7 && 0 <= j < 7 && i != j implies form_code(#[trigger] t[i].0) != form_code(
        #[trigger] t[j].0,
    ) by {
        assert(form_code(t[i].0) == t[i].1);
        assert(form_code(t[j].0) == t[j].1);
        assert(t[i].1[0] != t[j].1[0]);
    }
}

} // verus!
