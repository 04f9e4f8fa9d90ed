use fishworker::dictionary::{
    cache_insert_params, entry_from_cache, normalize_query, not_found, settle_lookup,
    urlencoding_simple, DictEntry, DictExample, DictPhrase,
};
use fishworker::error::AppError;
use fishworker::json::{Json, JsonEntry};
use fishworker::row::{CellValue, Row};
use fishworker::youdao::{parse_youdao_response, youdao_query_url};

fn s(t: &str) -> Json {
    Json::Str(t.to_string())
}

fn arr(items: Vec<Json>) -> Json {
    Json::Array(items)
}

fn obj(fields: Vec<(&str, Json)>) -> Json {
    Json::Object(
        fields
            .into_iter()
            .map(|(k, v)| JsonEntry { key: k.to_string(), value: v })
            .collect(),
    )
}

fn full_response() -> Json {
    obj(vec![
        (
            "ec",
            obj(vec![
                ("exam_type", arr(vec![s("CET4"), s("CET6"), Json::Number(Some(3))])),
                (
                    "word",
                    arr(vec![obj(vec![
                        ("usphone", s("həˈloʊ")),
                        ("ukphone", s("həˈləʊ")),
                        (
                            "wfs",
                            arr(vec![
                                obj(vec![("wf", obj(vec![("name", s("复数")), ("value", s("hellos"))]))]),
                                obj(vec![("wf", obj(vec![("name", s("过去式")), ("value", s("helloed"))]))]),
                                obj(vec![("wf", obj(vec![("name", s("")), ("value", s("x"))]))]),
                                obj(vec![("wf", obj(vec![("name", s("原级")), ("value", s("hello"))]))]),
                            ]),
                        ),
                        (
                            "trs",
                            arr(vec![
                                obj(vec![("tran", s("int. 喂"))]),
                                obj(vec![("tr", arr(vec![obj(vec![("l", obj(vec![("i", arr(vec![s("n. 招呼")]))]))])]))]),
                                obj(vec![("other", s("ignored"))]),
                            ]),
                        ),
                    ])]),
                ),
            ]),
        ),
        ("collins", obj(vec![("collins_entries", arr(vec![obj(vec![("star", s("3"))])]))])),
        (
            "syno",
            obj(vec![(
                "synos",
                arr(vec![
                    obj(vec![("syno", obj(vec![("pos", s("int."))]))]),
                    obj(vec![("syno", obj(vec![("pos", s("n."))]))]),
                    obj(vec![("syno", obj(vec![("pos", s("int."))]))]),
                ]),
            )]),
        ),
        (
            "blng_sents_part",
            obj(vec![(
                "sentence-pair",
                arr(vec![
                    obj(vec![
                        ("sentence-eng", s("<b>Hello</b> there")),
                        ("sentence-translation", s("你好")),
                        ("source", s("《词典》")),
                    ]),
                    obj(vec![("sentence", s("no translation"))]),
                    obj(vec![("sentence", s("Plain")), ("sentence-translation", s("平"))]),
                ]),
            )]),
        ),
        (
            "phrs",
            obj(vec![(
                "phrs",
                arr(vec![
                    obj(vec![(
                        "phr",
                        obj(vec![
                            ("headword", obj(vec![("l", obj(vec![("i", s("say hello"))]))])),
                            ("trs", arr(vec![obj(vec![("tr", s("@{l=}}"))]), obj(vec![("tr", s(" 打招呼 "))])])),
                        ]),
                    )]),
                    obj(vec![("phr", obj(vec![("headword", obj(vec![("l", obj(vec![("i", s("hello there"))]))]))]))]),
                    obj(vec![("phr", obj(vec![]))]),
                ]),
            )]),
        ),
    ])
}

#[test]
fn url_encoding_of_bytes() {
    assert_eq!(urlencoding_simple("hello"), "hello");
    assert_eq!(urlencoding_simple("a b"), "a%20b");
    assert_eq!(urlencoding_simple("a/b~c.d_e-f"), "a%2Fb~c.d_e-f");
    assert_eq!(urlencoding_simple("é"), "%C3%A9");
    assert_eq!(urlencoding_simple("你"), "%E4%BD%A0");
}

#[test]
fn lookup_url_encodes_the_query() {
    assert_eq!(
        youdao_query_url("good day"),
        "https://dict.youdao.com/jsonapi?jsonversion=2&client=mobile&q=good%20day"
    );
}

#[test]
fn full_response_reads_into_an_entry() {
    let e = parse_youdao_response("hello", &full_response());
    assert!(e.found);
    assert_eq!(e.word, "hello");
    assert_eq!(e.phonetic, "[ həˈloʊ ]");
    assert_eq!(e.us_phonetic.as_deref(), Some("həˈloʊ"));
    assert_eq!(e.uk_phonetic.as_deref(), Some("həˈləʊ"));
    assert_eq!(e.us_audio.as_deref(), Some("https://dict.youdao.com/dictvoice?audio=hello&type=2"));
    assert_eq!(e.uk_audio.as_deref(), Some("https://dict.youdao.com/dictvoice?audio=hello&type=1"));
    assert_eq!(e.translation, "int. 喂\nn. 招呼");
    assert_eq!(e.definition, e.translation);
    assert_eq!(e.pos, "int., n.");
    assert_eq!(e.tag, "CET4 CET6");
    assert_eq!(e.exchange, "s:hellos/p:helloed/原级:hello");
    assert_eq!(e.collins, 3);
    assert_eq!(e.oxford, 0);
    assert_eq!(e.lemmatized_from, None);
    assert_eq!(
        e.examples,
        vec![
            DictExample {
                sentence: "Hello there".to_string(),
                translation: "你好".to_string(),
                source: Some("词典".to_string()),
            },
            DictExample { sentence: "Plain".to_string(), translation: "平".to_string(), source: None },
        ]
    );
    assert_eq!(
        e.phrases,
        vec![
            DictPhrase { phrase: "say hello".to_string(), translation: Some("打招呼".to_string()) },
            DictPhrase { phrase: "hello there".to_string(), translation: None },
        ]
    );
}

#[test]
fn response_without_translations_is_not_found() {
    let json = obj(vec![("ec", obj(vec![("word", arr(vec![obj(vec![("usphone", s("x"))])]))]))]);
    let e = parse_youdao_response("zzz", &json);
    assert_eq!(e, not_found("zzz".to_string()));
    assert!(!e.found);
    assert_eq!(e.us_audio, None);
    assert_eq!(e.phonetic, "");
}

#[test]
fn general_translation_is_the_fallback() {
    let json = obj(vec![("fanyi", obj(vec![("tran", s("翻译"))]))]);
    let e = parse_youdao_response("some words", &json);
    assert!(e.found);
    assert_eq!(e.translation, "翻译");
    assert_eq!(e.us_audio.as_deref(), Some("https://dict.youdao.com/dictvoice?audio=some%20words&type=2"));
    assert_eq!(e.uk_audio.as_deref(), Some("https://dict.youdao.com/dictvoice?audio=some%20words&type=1"));
    assert_eq!(e.phonetic, "");
}

#[test]
fn phone_wins_and_one_sided_audio() {
    let json = obj(vec![(
        "ec",
        obj(vec![(
            "word",
            arr(vec![obj(vec![
                ("phone", s("p")),
                ("usphone", s("u")),
                ("trs", arr(vec![obj(vec![("tran", s("t"))])])),
            ])]),
        )]),
    )]);
    let e = parse_youdao_response("w", &json);
    assert_eq!(e.phonetic, "[ p ]");
    assert!(e.us_audio.is_some());
    assert_eq!(e.uk_audio, None);
}

#[test]
fn collins_rating_forms() {
    let with_star = |star: Json| {
        obj(vec![
            ("fanyi", obj(vec![("tran", s("t"))])),
            ("collins", obj(vec![("collins_entries", arr(vec![obj(vec![("star", star)])]))])),
        ])
    };
    assert_eq!(parse_youdao_response("w", &with_star(Json::Number(Some(5)))).collins, 5);
    assert_eq!(parse_youdao_response("w", &with_star(s("four"))).collins, 0);
    assert_eq!(parse_youdao_response("w", &with_star(s("-2"))).collins, -2);
    assert_eq!(parse_youdao_response("w", &with_star(Json::Null)).collins, 0);
}

#[test]
fn only_five_examples_and_six_phrases_are_read() {
    let pairs: Vec<Json> = (0..8)
        .map(|i| obj(vec![("sentence", s(&format!("s{}", i))), ("sentence-translation", s("t"))]))
        .collect();
    let phrs: Vec<Json> = (0..9)
        .map(|i| obj(vec![("phr", obj(vec![("headword", obj(vec![("l", obj(vec![("i", s(&format!("p{}", i)))]))]))]))]))
        .collect();
    let json = obj(vec![
        ("fanyi", obj(vec![("tran", s("t"))])),
        ("blng_sents_part", obj(vec![("sentence-pair", arr(pairs))])),
        ("phrs", obj(vec![("phrs", arr(phrs))])),
    ]);
    let e = parse_youdao_response("w", &json);
    assert_eq!(e.examples.len(), 5);
    assert_eq!(e.examples[4].sentence, "s4");
    assert_eq!(e.phrases.len(), 6);
    assert_eq!(e.phrases[5].phrase, "p5");
}

#[test]
fn queries_are_trimmed_and_lowercased() {
    assert_eq!(normalize_query("  HeLLo \n").unwrap(), "hello");
    assert_eq!(normalize_query("Ä").unwrap(), "ä");
    match normalize_query("   ") {
        Err(e) => {
            assert_eq!(e.kind(), "other");
            assert_eq!(e.message(), "请输入要查询的单词");
        }
        Ok(_) => panic!("an empty query is refused"),
    }
}

#[test]
fn cached_row_reads_as_found_entry() {
    let row = Row {
        cells: vec![
            CellValue::Text("hello world".to_string()),
            CellValue::Text("[ x ]".to_string()),
            CellValue::Text("def".to_string()),
            CellValue::Text("tr".to_string()),
            CellValue::Text("n.".to_string()),
            CellValue::Text("CET4".to_string()),
            CellValue::Text("s:hellos".to_string()),
            CellValue::Integer(3),
            CellValue::Null,
        ],
    };
    let e = entry_from_cache(&row);
    assert!(e.found);
    assert_eq!(e.word, "hello world");
    assert_eq!(e.phonetic, "[ x ]");
    assert_eq!(e.definition, "def");
    assert_eq!(e.translation, "tr");
    assert_eq!(e.pos, "n.");
    assert_eq!(e.tag, "CET4");
    assert_eq!(e.exchange, "s:hellos");
    assert_eq!(e.collins, 3);
    assert_eq!(e.oxford, 0);
    assert_eq!(e.us_audio.as_deref(), Some("https://dict.youdao.com/dictvoice?audio=hello%20world&type=2"));
    assert_eq!(e.uk_audio.as_deref(), Some("https://dict.youdao.com/dictvoice?audio=hello%20world&type=1"));
    assert!(e.examples.is_empty() && e.phrases.is_empty());
}

#[test]
fn found_entries_are_cached_and_read_back() {
    let e = parse_youdao_response("hello", &full_response());
    let params = cache_insert_params(&e, "2024-01-01 00:00:00.000");
    assert_eq!(params.cells.len(), 10);
    assert_eq!(params.cells[0], CellValue::Text("hello".to_string()));
    assert_eq!(params.cells[7], CellValue::Integer(3));
    assert_eq!(params.cells[9], CellValue::Text("2024-01-01 00:00:00.000".to_string()));
    let back = entry_from_cache(&Row { cells: params.cells[..9].to_vec() });
    assert_eq!(back.word, e.word);
    assert_eq!(back.translation, e.translation);
    assert_eq!(back.exchange, e.exchange);
    assert_eq!(back.collins, e.collins);
}

#[test]
fn settling_a_lookup() {
    let found = parse_youdao_response("hello", &full_response());
    let (e, cache) = settle_lookup("hello".to_string(), Ok(found.clone()));
    assert!(cache);
    assert_eq!(e, found);
    let (e, cache) = settle_lookup("hello".to_string(), Err(AppError::Network("down".to_string())));
    assert!(!cache);
    assert_eq!(e, not_found("hello".to_string()));
    let missing: DictEntry = not_found("x".to_string());
    let (e, cache) = settle_lookup("query".to_string(), Ok(missing));
    assert!(!cache);
    assert_eq!(e.word, "query");
}

#[test]
fn url_encoding_works_byte_by_byte() {
    let enc = urlencoding_simple;
    assert_eq!(enc("a b中"), format!("{}{}", enc("a "), enc("b中")));
    assert_eq!(enc(""), "");
    assert_eq!(enc("Az09-_.~"), "Az09-_.~");
    assert_eq!(enc("中").len(), 9);
    assert_eq!(enc("a b"), "a%20b");
}
