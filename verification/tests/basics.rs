//! Texts, JSON and errors.

use clipknow::error::ClipKnowError;
use clipknow::json::{array, boolean, entry, integer, natural, null, object, string, Json};
use clipknow::text::{
    head_of, i64_from, i64_text, includes, index_from, joined, lines_of, lowered, padded, parts,
    replaced, strip_prefix, trimmed, u64_text, without_leading, without_trailing,
};

#[test]
fn numbers_are_written_and_read() {
    assert_eq!(i64_text(i64::MIN), i64::MIN.to_string());
    assert_eq!(i64_text(-7), "-7");
    assert_eq!(i64_text(0), "0");
    assert_eq!(u64_text(u64::MAX), u64::MAX.to_string());
    assert_eq!(padded(7), "07");
    assert_eq!(padded(123), "123");
    for s in ["0", "-1", "+5", "9223372036854775807", "-9223372036854775808", "007"] {
        assert_eq!(i64_from(s), s.parse::<i64>().ok(), "{s}");
    }
    for s in ["", "-", "+", "1.5", "9223372036854775808", "-9223372036854775809", " 1", "1a"] {
        assert_eq!(i64_from(s), s.parse::<i64>().ok(), "{s}");
    }
    assert_eq!(index_from("12"), Some(12));
    assert_eq!(index_from("x"), None);
}

#[test]
fn texts_are_cut_like_the_library_cuts_them() {
    for s in ["", " a ", "\u{3000}全角\u{3000}", "\n\t x", "a b", "\u{85}x\u{2028}"] {
        assert_eq!(trimmed(s), s.trim(), "{s:?}");
    }
    for s in ["", "a", "a\n", "a\r\nb", "\n\n", "a\n\nb\r\n", "a\rb"] {
        let lines: Vec<String> = s.lines().map(str::to_string).collect();
        assert_eq!(lines_of(s), lines, "{s:?}");
    }
    for s in ["", "a", "a.b", ".", "a..b."] {
        let p: Vec<String> = s.split('.').map(str::to_string).collect();
        assert_eq!(parts(s, '.'), p, "{s:?}");
        assert_eq!(joined(&p, "."), s);
    }
    assert_eq!(head_of("抓取失败", 2), "抓取");
    assert_eq!(lowered("AbÄ中"), "abÄ中");
    assert_eq!(replaced("aXXb", "X", "-"), "a--b");
    assert_eq!(without_leading("@@x@", '@'), "x@");
    assert_eq!(without_trailing("x``````", "```"), "x");
    assert_eq!(strip_prefix("abc", "ab").as_deref(), Some("c"));
    assert_eq!(strip_prefix("abc", "b"), None);
    assert!(includes("抓取失败", "取失") && includes("x", "") && !includes("", "x"));
}

#[test]
fn json_is_read_and_written() {
    let v = Json::parse(r#"{"b": [1, -2, 3.5, 18446744073709551615, true, null], "a": "é\n"}"#).unwrap();
    let a = v.get("b").unwrap();
    assert_eq!(a.at(0).unwrap().as_i64(), Some(1));
    assert_eq!(a.at(1).unwrap().as_i64(), Some(-2));
    assert_eq!(a.at(1).unwrap().as_u64(), None);
    assert_eq!(a.at(2).unwrap().as_i64(), None);
    assert_eq!(a.at(2).unwrap().as_whole(), Some(3));
    assert_eq!(a.at(3).unwrap().as_u64(), Some(u64::MAX));
    assert_eq!(a.at(4).unwrap().as_bool(), Some(true));
    assert!(a.at(5).unwrap().is_null());
    assert!(a.at(6).is_none());
    assert_eq!(v.get("a").unwrap().as_str(), Some("é\n"));
    assert!(v.get("c").is_none() && a.get("a").is_none());
    assert_eq!(v.copy().text(), v.text());
}

#[test]
fn json_that_was_written_is_read_back() {
    let v = object(vec![
        entry("n", integer(-3)),
        entry("u", natural(3)),
        entry("s", string("引号\" 换行\n")),
        entry("l", array(vec![null(), boolean(false)])),
    ]);
    let t = v.text();
    assert_eq!(t.lines().count(), 1);
    assert_eq!(Json::parse(&t).unwrap().text(), t);
    assert_eq!(Json::parse(&t).unwrap().get("s").unwrap().as_str(), Some("引号\" 换行\n"));
}

#[test]
fn what_is_no_json_is_an_error() {
    match Json::parse("{") {
        Err(ClipKnowError::Json(m)) => assert!(!m.is_empty()),
        other => panic!("{other:?}"),
    }
}

#[test]
fn every_error_has_a_sentence() {
    let says = |e: ClipKnowError| e.message();
    assert_eq!(
        says(ClipKnowError::UnsupportedUrl("x".into())),
        "无法识别的链接: x\n目前只支持 YouTube / TikTok / Instagram"
    );
    assert_eq!(says(ClipKnowError::NoVideoId("x".into())), "链接里找不到视频 ID: x");
    assert_eq!(
        says(ClipKnowError::Fetch { platform: "tiktok".into(), message: "x".into() }),
        "抓取失败 (tiktok): x"
    );
    assert_eq!(says(ClipKnowError::Llm("x".into())), "大模型调用失败: x");
    assert_eq!(says(ClipKnowError::LlmRefusal), "模型拒绝回答（stop_reason=refusal）");
    assert_eq!(says(ClipKnowError::Db("x".into())), "数据库错误: x");
    assert_eq!(says(ClipKnowError::Http("x".into())), "网络错误: x");
    assert_eq!(says(ClipKnowError::Json("x".into())), "JSON 解析失败: x");
    assert_eq!(
        says(ClipKnowError::MissingEnv("KEY")),
        "缺少环境变量 KEY，请在 ~/.zshrc 里设置后重开终端"
    );
    assert_eq!(says(ClipKnowError::BadRequest("x".into())), "x");
}
