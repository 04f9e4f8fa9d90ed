use vstd::prelude::*;
use vstd::string::StringSliceAdditionalSpecFns;
use vstd::utf8::encode_utf8;
use crate::error::AppError;
use crate::queries::{SELECT_CACHED_WORD, UPSERT_CACHED_WORD};
use crate::row::{comma_list, cell_at, text_value, typed_int, typed_text, CellValue, CellView, Row};
use crate::text::{append_str, push_char, trim, trim_str};

verus! {

// ---------------------------------------------------------------------------
// Entries
// ---------------------------------------------------------------------------

/// A bilingual example sentence pair.
#[derive(Debug, Clone, PartialEq)]
pub struct DictExample {
    pub sentence: String,
    pub translation: String,
    pub source: Option<String>,
}

/// A common phrase or collocation of the word.
#[derive(Debug, Clone, PartialEq)]
pub struct DictPhrase {
    pub phrase: String,
    pub translation: Option<String>,
}

/// A dictionary entry as the frontend shows it.
#[derive(Debug, Clone, PartialEq)]
pub struct DictEntry {
    pub word: String,
    pub phonetic: String,
    pub us_phonetic: Option<String>,
    pub uk_phonetic: Option<String>,
    pub us_audio: Option<String>,
    pub uk_audio: Option<String>,
    pub definition: String,
    pub translation: String,
    pub pos: String,
    pub tag: String,
    pub exchange: String,
    pub collins: i64,
    pub oxford: i64,
    pub found: bool,
    /// When the query was resolved through lemmatization or stemming.
    pub lemmatized_from: Option<String>,
    pub examples: Vec<DictExample>,
    pub phrases: Vec<DictPhrase>,
}

pub struct ExampleView {
    pub sentence: Seq<char>,
    pub translation: Seq<char>,
    pub source: Option<Seq<char>>,
}

pub struct PhraseView {
    pub phrase: Seq<char>,
    pub translation: Option<Seq<char>>,
}

pub struct EntryView {
    pub word: Seq<char>,
    pub phonetic: Seq<char>,
    pub us_phonetic: Option<Seq<char>>,
    pub uk_phonetic: Option<Seq<char>>,
    pub us_audio: Option<Seq<char>>,
    pub uk_audio: Option<Seq<char>>,
    pub definition: Seq<char>,
    pub translation: Seq<char>,
    pub pos: Seq<char>,
    pub tag: Seq<char>,
    pub exchange: Seq<char>,
    pub collins: i64,
    pub oxford: i64,
    pub found: bool,
    pub lemmatized_from: Option<Seq<char>>,
    pub examples: Seq<ExampleView>,
    pub phrases: Seq<PhraseView>,
}

impl View for DictExample {
    type V = ExampleView;

    open spec fn view(&self) -> ExampleView {
        ExampleView {
            sentence: self.sentence@,
            translation: self.translation@,
            source: self.source.deep_view(),
        }
    }
}

impl View for DictPhrase {
    type V = PhraseView;

    open spec fn view(&self) -> PhraseView {
        PhraseView { phrase: self.phrase@, translation: self.translation.deep_view() }
    }
}

pub open spec fn examples_view(v: Seq<DictExample>) -> Seq<ExampleView> {
    v.map_values(|e: DictExample| e@)
}

pub open spec fn phrases_view(v: Seq<DictPhrase>) -> Seq<PhraseView> {
    v.map_values(|p: DictPhrase| p@)
}

impl View for DictEntry {
    type V = EntryView;

    open spec fn view(&self) -> EntryView {
        EntryView {
            word: self.word@,
            phonetic: self.phonetic@,
            us_phonetic: self.us_phonetic.deep_view(),
            uk_phonetic: self.uk_phonetic.deep_view(),
            us_audio: self.us_audio.deep_view(),
            uk_audio: self.uk_audio.deep_view(),
            definition: self.definition@,
            translation: self.translation@,
            pos: self.pos@,
            tag: self.tag@,
            exchange: self.exchange@,
            collins: self.collins,
            oxford: self.oxford,
            found: self.found,
            lemmatized_from: self.lemmatized_from.deep_view(),
            examples: examples_view(self.examples@),
            phrases: phrases_view(self.phrases@),
        }
    }
}

/// The entry for a word that was not found: the word, and nothing else.
pub open spec fn not_found_entry(word: Seq<char>) -> EntryView {
    EntryView {
        word,
        phonetic: Seq::empty(),
        us_phonetic: None,
        uk_phonetic: None,
        us_audio: None,
        uk_audio: None,
        definition: Seq::empty(),
        translation: Seq::empty(),
        pos: Seq::empty(),
        tag: Seq::empty(),
        exchange: Seq::empty(),
        collins: 0,
        oxford: 0,
        found: false,
        lemmatized_from: None,
        examples: Seq::empty(),
        phrases: Seq::empty(),
    }
}

pub fn not_found(word: String) -> (e: DictEntry)
    ensures
        e@ == not_found_entry(word@),
{
    let e = DictEntry {
        word,
        phonetic: String::new(),
        us_phonetic: None,
        uk_phonetic: None,
        us_audio: None,
        uk_audio: None,
        definition: String::new(),
        translation: String::new(),
        pos: String::new(),
        tag: String::new(),
        exchange: String::new(),
        collins: 0,
        oxford: 0,
        found: false,
        lemmatized_from: None,
        examples: Vec::new(),
        phrases: Vec::new(),
    };
    assert(e@.examples =~= Seq::<ExampleView>::empty());
    assert(e@.phrases =~= Seq::<PhraseView>::empty());
    e
}

// ---------------------------------------------------------------------------
// URL encoding
// ---------------------------------------------------------------------------

/// Bytes left as they are in a URL.
pub open spec fn is_unreserved(b: u8) -> bool {
    (65 <= b <= 90) || (97 <= b <= 122) || (48 <= b <= 57) || b == 45 || b == 95 || b == 46 || b
        == 126
}

/// An uppercase hexadecimal digit.
pub open spec fn hex_upper(d: int) -> char {
    if d < 10 {
        (('0' as int) + d) as char
    } else {
        (('A' as int) + d - 10) as char
    }
}

/// The URL encoding of one byte: unreserved bytes stay, a space is `%20`,
/// any other byte is `%` and two uppercase hex digits.
pub open spec fn url_byte(b: u8) -> Seq<char> {
    if is_unreserved(b) {
        seq![b as char]
    } else if b == 32 {
        "%20"@
    } else {
        seq!['%', hex_upper(b as int / 16), hex_upper(b as int % 16)]
    }
}

/// The URL encoding of a byte string.
pub open spec fn url_encode(bs: Seq<u8>) -> Seq<char>
    decreases bs.len(),
{
    if bs.len() == 0 {
        Seq::empty()
    } else {
        url_encode(bs.drop_last()) + url_byte(bs.last())
    }
}

fn hex_digit(d: u8) -> (c: char)
    requires
        d < 16,
    ensures
        c == hex_upper(d as int),
{
    match d {
        0 => '0',
        1 => '1',
        2 => '2',
        3 => '3',
        4 => '4',
        5 => '5',
        6 => '6',
        7 => '7',
        8 => '8',
        9 => '9',
        10 => 'A',
        11 => 'B',
        12 => 'C',
        13 => 'D',
        14 => 'E',
        _ => 'F',
    }
}

/// Percent-encodes the UTF-8 bytes of `s` for a query string.
pub fn urlencoding_simple(s: &str) -> (r: String)
    ensures
        r@ == url_encode(encode_utf8(s@)),
{
    let bytes = s.as_bytes();
    let mut out = String::new();
    let mut i: usize = 0;
    while i < bytes.len()
        invariant
            i <= bytes@.len(),
            bytes@ == s.spec_bytes(),
            out@ == url_encode(bytes@.take(i as int)),
        decreases bytes.len() - i,
    {
        let b = bytes[i];
        let ghost before = out@;
        if (65 <= b && b <= 90) || (97 <= b && b <= 122) || (48 <= b && b <= 57) || b == 45 || b
            == 95 || b == 46 || b == 126 {
            push_char(&mut out, b as char);
        } else if b == 32 {
            append_str(&mut out, "%20");
        } else {
            push_char(&mut out, '%');
            push_char(&mut out, hex_digit(b / 16));
            push_char(&mut out, hex_digit(b % 16));
        }
        proof {
            let t = bytes@.take(i + 1);
            assert(t.drop_last() =~= bytes@.take(i as int));
            assert(t.last() == b);
            if is_unreserved(b) {
            } else if b == 32 {
                assert(out@ =~= before + "%20"@);
            } else {
                assert(out@ =~= before + url_byte(b));
            }
        }
        i = i + 1;
    }
    assert(bytes@.take(bytes@.len() as int) =~= bytes@);
    out
}

/// The pronunciation URL of a word: `type` 2 is American, 1 British.
pub open spec fn audio_url(word: Seq<char>, kind: char) -> Seq<char> {
    "https://dict.youdao.com/dictvoice?audio="@ + url_encode(encode_utf8(word)) + "&type="@ + seq![
        kind,
    ]
}

pub(crate) fn make_audio_url(encoded: &str, kind: char) -> (r: String)
    ensures
        r@ == "https://dict.youdao.com/dictvoice?audio="@ + encoded@ + "&type="@ + seq![kind],
{
    let mut s = String::new();
    append_str(&mut s, "https://dict.youdao.com/dictvoice?audio=");
    append_str(&mut s, encoded);
    append_str(&mut s, "&type=");
    push_char(&mut s, kind);
    s
}

// ---------------------------------------------------------------------------
// Looking a word up
// ---------------------------------------------------------------------------

/// What `str::to_lowercase` gives for a text: its Unicode lowercase mapping.
pub uninterp spec fn lowercase(s: Seq<char>) -> Seq<char>;

/// `str::to_lowercase`. Claims that the result is the lowercase mapping of
/// the argument, a function of the text alone, and that it is empty exactly
/// when the argument is (every character maps to at least one).
#[verifier::external_body]
fn to_lower(s: &str) -> (r: String)
    ensures
        r@ == lowercase(s@),
        r@.len() == 0 <==> s@.len() == 0,
{
    s.to_lowercase()
}

/// The form a word is looked up and cached under.
pub open spec fn normalized(word: Seq<char>) -> Seq<char> {
    lowercase(trim(word))
}

/// The message for an empty query.
pub open spec fn empty_query_message() -> Seq<char> {
    "请输入要查询的单词"@
}

/// The lookup key of a word: trimmed and in lower case. An empty key is
/// refused.
pub fn normalize_query(word: &str) -> (r: Result<String, AppError>)
    ensures
        r is Ok <==> normalized(word@).len() > 0,
        r is Ok <==> trim(word@).len() > 0,
        r matches Ok(q) ==> q@ == normalized(word@),
        r matches Err(e) ==> e is Other && e.message_spec() == empty_query_message(),
{
    let t = trim_str(word);
    let q = to_lower(t.as_str());
    if q.as_str().is_empty() {
        Err(AppError::Other("请输入要查询的单词".to_string()))
    } else {
        Ok(q)
    }
}

/// The columns of a cached entry, in the order they are selected.
pub open spec fn cache_text(row: Seq<CellView>, idx: usize) -> Seq<char> {
    match typed_text(cell_at(row, idx)) {
        Some(s) => s,
        None => Seq::empty(),
    }
}

pub open spec fn cache_int(row: Seq<CellView>, idx: usize) -> i64 {
    match typed_int(cell_at(row, idx)) {
        Some(n) => n,
        None => 0,
    }
}

/// The entry a cached row (word, phonetic, definition, translation, pos,
/// tag, exchange, collins, oxford) stands for: found, with both
/// pronunciations of the cached word.
pub open spec fn cached_entry(row: Seq<CellView>) -> EntryView {
    let word = cache_text(row, 0);
    EntryView {
        word,
        phonetic: cache_text(row, 1),
        us_phonetic: None,
        uk_phonetic: None,
        us_audio: Some(audio_url(word, '2')),
        uk_audio: Some(audio_url(word, '1')),
        definition: cache_text(row, 2),
        translation: cache_text(row, 3),
        pos: cache_text(row, 4),
        tag: cache_text(row, 5),
        exchange: cache_text(row, 6),
        collins: cache_int(row, 7),
        oxford: cache_int(row, 8),
        found: true,
        lemmatized_from: None,
        examples: Seq::empty(),
        phrases: Seq::empty(),
    }
}

/// The entry of a cache hit.
pub fn entry_from_cache(row: &Row) -> (e: DictEntry)
    ensures
        e@ == cached_entry(row@),
{
    let word = row.text_or_default(0);
    let encoded = urlencoding_simple(word.as_str());
    let us_audio = make_audio_url(encoded.as_str(), '2');
    let uk_audio = make_audio_url(encoded.as_str(), '1');
    let e = DictEntry {
        word,
        phonetic: row.text_or_default(1),
        us_phonetic: None,
        uk_phonetic: None,
        us_audio: Some(us_audio),
        uk_audio: Some(uk_audio),
        definition: row.text_or_default(2),
        translation: row.text_or_default(3),
        pos: row.text_or_default(4),
        tag: row.text_or_default(5),
        exchange: row.text_or_default(6),
        collins: row.int_or_zero(7),
        oxford: row.int_or_zero(8),
        found: true,
        lemmatized_from: None,
        examples: Vec::new(),
        phrases: Vec::new(),
    };
    assert(e@.examples =~= Seq::<ExampleView>::empty());
    assert(e@.phrases =~= Seq::<PhraseView>::empty());
    e
}

/// The parameters that cache an entry: word, phonetic, definition,
/// translation, pos, tag, exchange, collins, oxford and the time of caching.
pub open spec fn cache_params(e: EntryView, now: Seq<char>) -> Seq<CellView> {
    seq![
        CellView::Text(e.word),
        CellView::Text(e.phonetic),
        CellView::Text(e.definition),
        CellView::Text(e.translation),
        CellView::Text(e.pos),
        CellView::Text(e.tag),
        CellView::Text(e.exchange),
        CellView::Integer(e.collins),
        CellView::Integer(e.oxford),
        CellView::Text(now),
    ]
}

pub fn cache_insert_params(e: &DictEntry, now: &str) -> (r: Row)
    ensures
        r@ == cache_params(e@, now@),
{
    let mut cells: Vec<CellValue> = Vec::new();
    cells.push(text_value(e.word.as_str()));
    cells.push(text_value(e.phonetic.as_str()));
    cells.push(text_value(e.definition.as_str()));
    cells.push(text_value(e.translation.as_str()));
    cells.push(text_value(e.pos.as_str()));
    cells.push(text_value(e.tag.as_str()));
    cells.push(text_value(e.exchange.as_str()));
    cells.push(CellValue::Integer(e.collins));
    cells.push(CellValue::Integer(e.oxford));
    cells.push(text_value(now));
    let r = Row { cells };
    assert(r@ =~= cache_params(e@, now@));
    r
}

/// What a lookup answers once the online lookup is done: a found entry,
/// which is then cached; anything else, a failure included, answers that
/// the word was not found.
pub fn settle_lookup(query: String, fetched: Result<DictEntry, AppError>) -> (r: (
    DictEntry,
    bool,
))
    ensures
        r.1 <==> (fetched matches Ok(e) && e.found),
        r.1 ==> (fetched matches Ok(e) && r.0@ == e@),
        !r.1 ==> r.0@ == not_found_entry(query@),
{
    match fetched {
        Ok(e) => if e.found {
            (e, true)
        } else {
            (not_found(query), false)
        },
        Err(_) => (not_found(query), false),
    }
}

/// A word cached from an entry reads back, from the columns the cache is
/// read by, as a found entry with the same word, phonetic, definition,
/// translation, part of speech, tags, word forms and ratings.
pub proof fn law_cache_round_trip(e: EntryView, now: Seq<char>)
    ensures
        ({
            let back = cached_entry(cache_params(e, now).take(9));
            &&& back.word == e.word
            &&& back.phonetic == e.phonetic
            &&& back.definition == e.definition
            &&& back.translation == e.translation
            &&& back.pos == e.pos
            &&& back.tag == e.tag
            &&& back.exchange == e.exchange
            &&& back.collins == e.collins
            &&& back.oxford == e.oxford
            &&& back.found
            &&& back.us_audio == Some(audio_url(e.word, '2'))
            &&& back.uk_audio == Some(audio_url(e.word, '1'))
        }),
{
    let row = cache_params(e, now).take(9);
    assert(row.len() == 9);
    assert(cell_at(row, 0) == Some(CellView::Text(e.word)));
    assert(cell_at(row, 1) == Some(CellView::Text(e.phonetic)));
    assert(cell_at(row, 2) == Some(CellView::Text(e.definition)));
    assert(cell_at(row, 3) == Some(CellView::Text(e.translation)));
    assert(cell_at(row, 4) == Some(CellView::Text(e.pos)));
    assert(cell_at(row, 5) == Some(CellView::Text(e.tag)));
    assert(cell_at(row, 6) == Some(CellView::Text(e.exchange)));
    assert(cell_at(row, 7) == Some(CellView::Integer(e.collins)));
    assert(cell_at(row, 8) == Some(CellView::Integer(e.oxford)));
}

/// A character a percent-encoded text may hold: an unreserved character, a
/// `%`, or an uppercase hexadecimal digit.
pub open spec fn url_safe(c: char) -> bool {
    ('A' <= c <= 'Z') || ('a' <= c <= 'z') || ('0' <= c <= '9') || c == '-' || c == '_' || c == '.'
        || c == '~' || c == '%'
}

/// Percent-encoding leaves only URL-safe characters, so a word can stand in
/// a query string whatever it holds.
pub proof fn law_url_encoding_safe(bs: Seq<u8>)
    ensures
        forall|i: int| 0 <= i < url_encode(bs).len() ==> url_safe(#[trigger] url_encode(bs)[i]),
    decreases bs.len(),
{
    reveal_strlit("%20");
    if bs.len() > 0 {
        law_url_encoding_safe(bs.drop_last());
        let prev = url_encode(bs.drop_last());
        let last = url_byte(bs.last());
        let b = bs.last();
        assert forall|j: int| 0 <= j < last.len() implies url_safe(#[trigger] last[j]) by {
            if is_unreserved(b) {
                assert(last[j] == b as char);
            } else if b == 32 {
            } else {
                assert(b as int / 16 < 16);
            }
        }
        assert forall|i: int| 0 <= i < url_encode(bs).len() implies url_safe(
            #[trigger] url_encode(bs)[i],
        ) by {
            if i < prev.len() {
                assert(url_encode(bs)[i] == prev[i]);
            } else {
                assert(url_encode(bs)[i] == last[i - prev.len()]);
            }
        }
    }
}

/// The length of a byte string's URL encoding: one character for each
/// unreserved byte and three for any other.
pub open spec fn url_encoded_len(bs: Seq<u8>) -> nat
    decreases bs.len(),
{
    if bs.len() == 0 {
        0
    } else {
        url_encoded_len(bs.drop_last()) + if is_unreserved(bs.last()) {
            1nat
        } else {
            3nat
        }
    }
}

/// Percent-encoding works byte by byte: the encoding of two byte strings
/// one after the other is their encodings one after the other, the empty
/// string encodes to the empty text, a text of unreserved bytes encodes to
/// itself, and every reserved byte takes three characters.
pub proof fn law_url_encoding_bytewise(a: Seq<u8>, b: Seq<u8>)
    ensures
        url_encode(a + b) == url_encode(a) + url_encode(b),
        url_encode(Seq::<u8>::empty()) == Seq::<char>::empty(),
        (forall|i: int| 0 <= i < a.len() ==> is_unreserved(#[trigger] a[i])) ==> url_encode(a)
            == a.map_values(|x: u8| x as char),
        url_encode(a).len() == url_encoded_len(a),
    decreases a.len() + b.len(),
{
    reveal_strlit("%20");
    if b.len() > 0 {
        law_url_encoding_bytewise(a, b.drop_last());
        assert((a + b).drop_last() =~= a + b.drop_last());
        assert((a + b).last() == b.last());
        assert(url_encode(a) + url_encode(b.drop_last()) + url_byte(b.last()) =~= url_encode(a)
            + (url_encode(b.drop_last()) + url_byte(b.last())));
    } else {
        assert(a + b =~= a);
        assert(url_encode(a) + url_encode(b) =~= url_encode(a));
    }
    if a.len() > 0 {
        law_url_encoding_bytewise(a.drop_last(), Seq::<u8>::empty());
        if forall|i: int| 0 <= i < a.len() ==> is_unreserved(#[trigger] a[i]) {
            assert forall|i: int| 0 <= i < a.drop_last().len() implies is_unreserved(
                #[trigger] a.drop_last()[i],
            ) by {
                assert(a.drop_last()[i] == a[i]);
            }
            assert(is_unreserved(a[a.len() - 1]));
            assert(a.drop_last().map_values(|x: u8| x as char).push(a.last() as char)
                =~= a.map_values(|x: u8| x as char));
        }
    }
}

/// The value of an uppercase hexadecimal digit.
pub open spec fn hex_value(c: char) -> int {
    if '0' <= c <= '9' {
        c as int - '0' as int
    } else {
        c as int - 'A' as int + 10
    }
}

/// Percent-decoding, read left to right: `%` and two hex digits is the byte
/// they spell, any other character the byte of its code.
pub open spec fn percent_decode(t: Seq<char>) -> Seq<u8>
    decreases t.len(),
{
    if t.len() == 0 {
        Seq::empty()
    } else if t[0] == '%' && t.len() >= 3 {
        seq![(16 * hex_value(t[1]) + hex_value(t[2])) as u8] + percent_decode(t.skip(3))
    } else {
        seq![t[0] as u8] + percent_decode(t.drop_first())
    }
}

proof fn lemma_decode_after_encoding(p: Seq<u8>, rest: Seq<char>)
    ensures
        percent_decode(url_encode(p) + rest) == p + percent_decode(rest),
    decreases p.len(),
{
    reveal_strlit("%20");
    if p.len() == 0 {
        assert(url_encode(p) + rest =~= rest);
        assert(p + percent_decode(rest) =~= percent_decode(rest));
    } else {
        let q = p.drop_last();
        let b = p.last();
        let tok = url_byte(b);
        lemma_decode_after_encoding(q, tok + rest);
        assert(url_encode(p) + rest =~= url_encode(q) + (tok + rest));
        let t = tok + rest;
        if is_unreserved(b) {
            assert(t[0] == b as char);
            assert(t.drop_first() =~= rest);
            assert((b as char) as u8 == b);
        } else {
            let hi = b as int / 16;
            let lo = b as int % 16;
            if b == 32 {
                assert(tok =~= seq!['%', '2', '0']);
                assert(hi == 2 && lo == 0);
            } else {
                assert(tok =~= seq!['%', hex_upper(hi), hex_upper(lo)]);
            }
            assert(t[0] == '%' && t.len() >= 3);
            assert(t.skip(3) =~= rest);
            assert(hex_value(hex_upper(hi)) == hi);
            assert(hex_value(hex_upper(lo)) == lo);
            assert(hex_value(t[1]) == hi && hex_value(t[2]) == lo);
            assert(16 * hi + lo == b as int);
        }
        assert(percent_decode(t) =~= seq![b] + percent_decode(rest));
        assert(q + (seq![b] + percent_decode(rest)) =~= p + percent_decode(rest));
    }
}

proof fn lemma_utf8_concat(a: Seq<char>, b: Seq<char>)
    ensures
        encode_utf8(a + b) == encode_utf8(a) + encode_utf8(b),
    decreases a.len(),
{
    if a.len() == 0 {
        assert(a + b =~= b);
        assert(encode_utf8(a) + encode_utf8(b) =~= encode_utf8(b));
    } else {
        lemma_utf8_concat(a.drop_first(), b);
        assert((a + b).drop_first() =~= a.drop_first() + b);
        assert((a + b)[0] == a[0]);
        assert(encode_utf8(a + b) =~= encode_utf8(a) + encode_utf8(b));
    }
}

/// A character left as it is in a URL: an ASCII letter, digit, `-`, `_`,
/// `.` or `~`.
pub open spec fn is_unreserved_char(c: char) -> bool {
    ('A' <= c <= 'Z') || ('a' <= c <= 'z') || ('0' <= c <= '9') || c == '-' || c == '_' || c
        == '.' || c == '~'
}

/// What `urlencoding_simple` gives for a text: percent-decoding it gives
/// back the text's UTF-8 bytes; the encoding of two texts one after the
/// other is their encodings one after the other; and a text of unreserved
/// characters encodes to itself.
pub proof fn law_url_encoding_of_texts(a: Seq<char>, b: Seq<char>)
    ensures
        percent_decode(url_encode(encode_utf8(a))) == encode_utf8(a),
        url_encode(encode_utf8(a + b)) == url_encode(encode_utf8(a)) + url_encode(encode_utf8(b)),
        (forall|i: int| 0 <= i < a.len() ==> is_unreserved_char(#[trigger] a[i])) ==> url_encode(
            encode_utf8(a),
        ) == a,
{
    lemma_decode_after_encoding(encode_utf8(a), Seq::empty());
    assert(url_encode(encode_utf8(a)) + Seq::<char>::empty() =~= url_encode(encode_utf8(a)));
    assert(encode_utf8(a) + percent_decode(Seq::<char>::empty()) =~= encode_utf8(a));
    lemma_utf8_concat(a, b);
    law_url_encoding_bytewise(encode_utf8(a), encode_utf8(b));
    if forall|i: int| 0 <= i < a.len() ==> is_unreserved_char(#[trigger] a[i]) {
        assert(vstd::utf8::is_ascii_chars(a)) by {
            assert forall|i: int| 0 <= i < a.len() implies '\0' <= #[trigger] a[i] <= '\u{7f}' by {
                assert(is_unreserved_char(a[i]));
            }
        }
        vstd::utf8::is_ascii_chars_encode_utf8(a);
        let bs = encode_utf8(a);
        assert forall|i: int| 0 <= i < bs.len() implies is_unreserved(#[trigger] bs[i]) by {
            assert(a[i] as u8 == bs[i]);
            assert(is_unreserved_char(a[i]));
        }
        law_url_encoding_bytewise(bs, Seq::empty());
        let m = bs.map_values(|x: u8| x as char);
        assert forall|i: int| 0 <= i < a.len() implies #[trigger] m[i] == a[i] by {
            assert(a[i] as u8 == bs[i]);
            assert(is_unreserved_char(a[i]));
        }
        assert(m =~= a);
    }
}

/// The columns the cached word query selects, in order.
pub open spec fn cache_select_columns() -> Seq<Seq<char>> {
    seq!["word"@, "phonetic"@, "definition"@, "translation"@, "pos"@, "tag"@, "exchange"@, "collins"@, "oxford"@]
}

proof fn reveal_cache_select_columns()
    ensures
        cache_select_columns() == seq![seq!['w', 'o', 'r', 'd'], seq!['p', 'h', 'o', 'n', 'e', 't', 'i', 'c'], seq!['d', 'e', 'f', 'i', 'n', 'i', 't', 'i', 'o', 'n'], seq!['t', 'r', 'a', 'n', 's', 'l', 'a', 't', 'i', 'o', 'n'], seq!['p', 'o', 's'], seq!['t', 'a', 'g'], seq!['e', 'x', 'c', 'h', 'a', 'n', 'g', 'e'], seq!['c', 'o', 'l', 'l', 'i', 'n', 's'], seq!['o', 'x', 'f', 'o', 'r', 'd']],
{
    reveal_strlit("word");
    reveal_strlit("phonetic");
    reveal_strlit("definition");
    reveal_strlit("translation");
    reveal_strlit("pos");
    reveal_strlit("tag");
    reveal_strlit("exchange");
    reveal_strlit("collins");
    reveal_strlit("oxford");
    assert(cache_select_columns() =~~= seq![seq!['w', 'o', 'r', 'd'], seq!['p', 'h', 'o', 'n', 'e', 't', 'i', 'c'], seq!['d', 'e', 'f', 'i', 'n', 'i', 't', 'i', 'o', 'n'], seq!['t', 'r', 'a', 'n', 's', 'l', 'a', 't', 'i', 'o', 'n'], seq!['p', 'o', 's'], seq!['t', 'a', 'g'], seq!['e', 'x', 'c', 'h', 'a', 'n', 'g', 'e'], seq!['c', 'o', 'l', 'l', 'i', 'n', 's'], seq!['o', 'x', 'f', 'o', 'r', 'd']]);
}

/// The columns the cached word write names, in order; it binds `?k` to the `k`-th.
pub open spec fn cache_write_columns() -> Seq<Seq<char>> {
    seq!["word"@, "phonetic"@, "definition"@, "translation"@, "pos"@, "tag"@, "exchange"@, "collins"@, "oxford"@, "created_at"@]
}

proof fn reveal_cache_write_columns()
    ensures
        cache_write_columns() == seq![seq!['w', 'o', 'r', 'd'], seq!['p', 'h', 'o', 'n', 'e', 't', 'i', 'c'], seq!['d', 'e', 'f', 'i', 'n', 'i', 't', 'i', 'o', 'n'], seq!['t', 'r', 'a', 'n', 's', 'l', 'a', 't', 'i', 'o', 'n'], seq!['p', 'o', 's'], seq!['t', 'a', 'g'], seq!['e', 'x', 'c', 'h', 'a', 'n', 'g', 'e'], seq!['c', 'o', 'l', 'l', 'i', 'n', 's'], seq!['o', 'x', 'f', 'o', 'r', 'd'], seq!['c', 'r', 'e', 'a', 't', 'e', 'd', '_', 'a', 't']],
{
    reveal_strlit("word");
    reveal_strlit("phonetic");
    reveal_strlit("definition");
    reveal_strlit("translation");
    reveal_strlit("pos");
    reveal_strlit("tag");
    reveal_strlit("exchange");
    reveal_strlit("collins");
    reveal_strlit("oxford");
    reveal_strlit("created_at");
    assert(cache_write_columns() =~~= seq![seq!['w', 'o', 'r', 'd'], seq!['p', 'h', 'o', 'n', 'e', 't', 'i', 'c'], seq!['d', 'e', 'f', 'i', 'n', 'i', 't', 'i', 'o', 'n'], seq!['t', 'r', 'a', 'n', 's', 'l', 'a', 't', 'i', 'o', 'n'], seq!['p', 'o', 's'], seq!['t', 'a', 'g'], seq!['e', 'x', 'c', 'h', 'a', 'n', 'g', 'e'], seq!['c', 'o', 'l', 'l', 'i', 'n', 's'], seq!['o', 'x', 'f', 'o', 'r', 'd'], seq!['c', 'r', 'e', 'a', 't', 'e', 'd', '_', 'a', 't']]);
}

/// The cached word query and write name the columns `cache_select_columns` and
/// `cache_write_columns` list, in that order, and the write binds `?k` to its
/// `k`-th column.
pub proof fn law_cache_queries_name_the_columns()
    ensures
        SELECT_CACHED_WORD@ == "SELECT "@ + comma_list(cache_select_columns()) + " FROM dict_cache WHERE word = ?1 LIMIT 1"@,
        ("INSERT INTO dict_cache ("@ + comma_list(cache_write_columns()) + ") VALUES (?1, ?2, ?3, ?4, ?5, ?6, ?7, ?8, ?9, ?10)"@).is_prefix_of(UPSERT_CACHED_WORD@),
{
    reveal_with_fuel(comma_list, 13);
    reveal_strlit("SELECT word, phonetic, definition, translation, pos, tag, exchange, collins, oxford FROM dict_cache WHERE word = ?1 LIMIT 1");
    reveal_strlit("INSERT INTO dict_cache (word, phonetic, definition, translation, pos, tag, exchange, collins, oxford, created_at) VALUES (?1, ?2, ?3, ?4, ?5, ?6, ?7, ?8, ?9, ?10) ON CONFLICT(word) DO UPDATE SET phonetic = excluded.phonetic, translation = excluded.translation, pos = excluded.pos");
    reveal_strlit("SELECT ");
    reveal_strlit(" FROM dict_cache WHERE word = ?1 LIMIT 1");
    reveal_strlit("INSERT INTO dict_cache (");
    reveal_strlit(") VALUES (?1, ?2, ?3, ?4, ?5, ?6, ?7, ?8, ?9, ?10)");
    reveal_strlit(", ");
    reveal_cache_select_columns();
    reveal_cache_write_columns();
    assert(SELECT_CACHED_WORD@ =~= "SELECT "@ + comma_list(cache_select_columns()) + " FROM dict_cache WHERE word = ?1 LIMIT 1"@);
    let pre = "INSERT INTO dict_cache ("@ + comma_list(cache_write_columns()) + ") VALUES (?1, ?2, ?3, ?4, ?5, ?6, ?7, ?8, ?9, ?10)"@;
    assert(pre =~= UPSERT_CACHED_WORD@.take(pre.len() as int));
}

/// Each field of a cached word is read from the column its query names for it, and
/// written where its write names that column.
pub proof fn law_cache_fields_follow_column_names(row: Seq<CellView>, e: EntryView, now: Seq<char>)
    ensures
        cache_select_columns()[0] == "word"@ && cached_entry(row).word == cache_text(row, 0)
            && cache_write_columns()[0] == "word"@ && cache_params(e, now)[0] == CellView::Text(e.word),
        cache_select_columns()[1] == "phonetic"@ && cached_entry(row).phonetic == cache_text(row, 1)
            && cache_write_columns()[1] == "phonetic"@ && cache_params(e, now)[1] == CellView::Text(e.phonetic),
        cache_select_columns()[2] == "definition"@ && cached_entry(row).definition == cache_text(row, 2)
            && cache_write_columns()[2] == "definition"@ && cache_params(e, now)[2] == CellView::Text(e.definition),
        cache_select_columns()[3] == "translation"@ && cached_entry(row).translation == cache_text(row, 3)
            && cache_write_columns()[3] == "translation"@ && cache_params(e, now)[3] == CellView::Text(e.translation),
        cache_select_columns()[4] == "pos"@ && cached_entry(row).pos == cache_text(row, 4)
            && cache_write_columns()[4] == "pos"@ && cache_params(e, now)[4] == CellView::Text(e.pos),
        cache_select_columns()[5] == "tag"@ && cached_entry(row).tag == cache_text(row, 5)
            && cache_write_columns()[5] == "tag"@ && cache_params(e, now)[5] == CellView::Text(e.tag),
        cache_select_columns()[6] == "exchange"@ && cached_entry(row).exchange == cache_text(row, 6)
            && cache_write_columns()[6] == "exchange"@ && cache_params(e, now)[6] == CellView::Text(e.exchange),
        cache_select_columns()[7] == "collins"@ && cached_entry(row).collins == cache_int(row, 7)
            && cache_write_columns()[7] == "collins"@ && cache_params(e, now)[7] == CellView::Integer(e.collins),
        cache_select_columns()[8] == "oxford"@ && cached_entry(row).oxford == cache_int(row, 8)
            && cache_write_columns()[8] == "oxford"@ && cache_params(e, now)[8] == CellView::Integer(e.oxford),
{
    reveal_cache_select_columns();
    reveal_cache_write_columns();
    reveal_strlit("collins");
    reveal_strlit("definition");
    reveal_strlit("exchange");
    reveal_strlit("oxford");
    reveal_strlit("phonetic");
    reveal_strlit("pos");
    reveal_strlit("tag");
    reveal_strlit("translation");
    reveal_strlit("word");
}

} // verus!
