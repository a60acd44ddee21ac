//! The errors of the whole program.

use vstd::prelude::*;

verus! {

/// What can go wrong, from a link nobody can read to a database that does not
/// answer. Failures of the outside world are kept as the text they came with.
#[derive(Debug, Clone)]
pub enum ClipKnowError {
    UnsupportedUrl(String),
    NoVideoId(String),
    Fetch { platform: String, message: String },
    Llm(String),
    LlmRefusal,
    Db(String),
    Http(String),
    Json(String),
    MissingEnv(&'static str),
    BadRequest(String),
}

/// The result of anything that can fail in this program.
pub type Result<T> = std::result::Result<T, ClipKnowError>;

/// The sentence that an error is shown as.
pub open spec fn error_text(e: ClipKnowError) -> Seq<char> {
    match e {
        ClipKnowError::UnsupportedUrl(url) => "无法识别的链接: "@ + url@
            + "\n目前只支持 YouTube / TikTok / Instagram"@,
        ClipKnowError::NoVideoId(url) => "链接里找不到视频 ID: "@ + url@,
        ClipKnowError::Fetch { platform, message } => "抓取失败 ("@ + platform@ + "): "@ + message@,
        ClipKnowError::Llm(m) => "大模型调用失败: "@ + m@,
        ClipKnowError::LlmRefusal => "模型拒绝回答（stop_reason=refusal）"@,
        ClipKnowError::Db(m) => "数据库错误: "@ + m@,
        ClipKnowError::Http(m) => "网络错误: "@ + m@,
        ClipKnowError::Json(m) => "JSON 解析失败: "@ + m@,
        ClipKnowError::MissingEnv(name) => "缺少环境变量 "@ + name@
            + "，请在 ~/.zshrc 里设置后重开终端"@,
        ClipKnowError::BadRequest(m) => m@,
    }
}

impl ClipKnowError {
    /// The sentence that the error is shown as.
    pub fn message(&self) -> (r: String)
        ensures
            r@ == error_text(*self),
    {
        match self {
            ClipKnowError::UnsupportedUrl(url) => "无法识别的链接: ".to_owned().concat(
                url.as_str(),
            ).concat("\n目前只支持 YouTube / TikTok / Instagram"),
            ClipKnowError::NoVideoId(url) => "链接里找不到视频 ID: ".to_owned().concat(
                url.as_str(),
            ),
            ClipKnowError::Fetch { platform, message } => "抓取失败 (".to_owned().concat(
                platform.as_str(),
            ).concat("): ").concat(message.as_str()),
            ClipKnowError::Llm(m) => "大模型调用失败: ".to_owned().concat(m.as_str()),
            ClipKnowError::LlmRefusal => "模型拒绝回答（stop_reason=refusal）".to_owned(),
            ClipKnowError::Db(m) => "数据库错误: ".to_owned().concat(m.as_str()),
            ClipKnowError::Http(m) => "网络错误: ".to_owned().concat(m.as_str()),
            ClipKnowError::Json(m) => "JSON 解析失败: ".to_owned().concat(m.as_str()),
            ClipKnowError::MissingEnv(name) => "缺少环境变量 ".to_owned().concat(name).concat(
                "，请在 ~/.zshrc 里设置后重开终端",
            ),
            ClipKnowError::BadRequest(m) => m.clone(),
        }
    }
}

} // verus!
