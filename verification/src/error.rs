//! The error type of the library.
use vstd::prelude::*;
use crate::text::{chars_of, extend_str, string_of};

verus! {

/// The errors that the library's operations report. Each carries its message.
#[derive(Debug)]
pub enum AppError {
    /// An input/output failure.
    Io(String),
    /// A JSON parse failure.
    Json(String),
    /// A file that could not be found.
    FileNotFound(String),
    /// A character that could not be found.
    CharacterNotFound(String),
    /// A move that could not be found.
    MoveNotFound(String),
    /// A Discord API failure.
    Discord(String),
    /// A Serenity API failure.
    Serenity(String),
    /// A configuration problem.
    Config(String),
    /// A data processing failure.
    DataProcessing(String),
    /// Any other failure.
    Other(String),
}

/// The label that the message of each kind of error starts with.
pub open spec fn error_label(e: &AppError) -> Seq<char> {
    match e {
        AppError::Io(_) => "IO エラー: "@,
        AppError::Json(_) => "JSON 解析エラー: "@,
        AppError::FileNotFound(_) => "ファイルが見つかりません: "@,
        AppError::CharacterNotFound(_) => "キャラクターが見つかりません: "@,
        AppError::MoveNotFound(_) => "技が見つかりません: "@,
        AppError::Discord(_) => "Discord API エラー: "@,
        AppError::Serenity(_) => "Serenity API エラー: "@,
        AppError::Config(_) => "設定エラー: "@,
        AppError::DataProcessing(_) => "データ処理エラー: "@,
        AppError::Other(_) => "エラー: "@,
    }
}

/// The message that an error carries.
pub open spec fn error_detail(e: &AppError) -> Seq<char> {
    match e {
        AppError::Io(m) => m@,
        AppError::Json(m) => m@,
        AppError::FileNotFound(m) => m@,
        AppError::CharacterNotFound(m) => m@,
        AppError::MoveNotFound(m) => m@,
        AppError::Discord(m) => m@,
        AppError::Serenity(m) => m@,
        AppError::Config(m) => m@,
        AppError::DataProcessing(m) => m@,
        AppError::Other(m) => m@,
    }
}

impl AppError {
    /// The text shown for this error: its label followed by its message.
    pub fn to_string(&self) -> (r: String)
        ensures
            r@ == error_label(self) + error_detail(self),
    {
        let (label, detail): (&str, &String) = match self {
            AppError::Io(m) => ("IO エラー: ", m),
            AppError::Json(m) => ("JSON 解析エラー: ", m),
            AppError::FileNotFound(m) => ("ファイルが見つかりません: ", m),
            AppError::CharacterNotFound(m) => ("キャラクターが見つかりません: ", m),
            AppError::MoveNotFound(m) => ("技が見つかりません: ", m),
            AppError::Discord(m) => ("Discord API エラー: ", m),
            AppError::Serenity(m) => ("Serenity API エラー: ", m),
            AppError::Config(m) => ("設定エラー: ", m),
            AppError::DataProcessing(m) => ("データ処理エラー: ", m),
            AppError::Other(m) => ("エラー: ", m),
        };
        let mut v = chars_of(label);
        extend_str(&mut v, detail.as_str());
        string_of(&v)
    }
}

} // verus!
