use vstd::prelude::*;
use vstd::string::StringExecFns;

verus! {

/// Every failure the daemon can surface, each carrying its detail as text.
#[derive(Debug, Clone)]
pub enum AppError {
    Io(String),
    TomlParse(String),
    TomlSerialize(String),
    Json(String),
    BinaryMissing { binary: String },
    Config(String),
    Capture(String),
    Transcription(String),
    Clipboard(String),
    Controller(String),
    ChannelClosed(String),
    Install(String),
    Sqlite(String),
}

/// A result whose error is an [`AppError`].
pub type AppResult<T> = Result<T, AppError>;

/// Mathematical model of an [`AppError`]: the same variants over character sequences.
pub enum AppErrorView {
    Io(Seq<char>),
    TomlParse(Seq<char>),
    TomlSerialize(Seq<char>),
    Json(Seq<char>),
    BinaryMissing { binary: Seq<char> },
    Config(Seq<char>),
    Capture(Seq<char>),
    Transcription(Seq<char>),
    Clipboard(Seq<char>),
    Controller(Seq<char>),
    ChannelClosed(Seq<char>),
    Install(Seq<char>),
    Sqlite(Seq<char>),
}

impl View for AppError {
    type V = AppErrorView;

    open spec fn view(&self) -> AppErrorView {
        match *self {
            AppError::Io(s) => AppErrorView::Io(s@),
            AppError::TomlParse(s) => AppErrorView::TomlParse(s@),
            AppError::TomlSerialize(s) => AppErrorView::TomlSerialize(s@),
            AppError::Json(s) => AppErrorView::Json(s@),
            AppError::BinaryMissing { binary } => AppErrorView::BinaryMissing { binary: binary@ },
            AppError::Config(s) => AppErrorView::Config(s@),
            AppError::Capture(s) => AppErrorView::Capture(s@),
            AppError::Transcription(s) => AppErrorView::Transcription(s@),
            AppError::Clipboard(s) => AppErrorView::Clipboard(s@),
            AppError::Controller(s) => AppErrorView::Controller(s@),
            AppError::ChannelClosed(s) => AppErrorView::ChannelClosed(s@),
            AppError::Install(s) => AppErrorView::Install(s@),
            AppError::Sqlite(s) => AppErrorView::Sqlite(s@),
        }
    }
}

impl AppErrorView {
    /// The one-line text shown to the user: a fixed prefix naming the kind, then the detail.
    pub open spec fn message(self) -> Seq<char> {
        match self {
            AppErrorView::Io(s) => "io error: "@ + s,
            AppErrorView::TomlParse(s) => "toml parse error: "@ + s,
            AppErrorView::TomlSerialize(s) => "toml serialize error: "@ + s,
            AppErrorView::Json(s) => "json parse error: "@ + s,
            AppErrorView::BinaryMissing { binary } => "binary `"@ + binary + "` missing from PATH"@,
            AppErrorView::Config(s) => "invalid configuration: "@ + s,
            AppErrorView::Capture(s) => "capture failed: "@ + s,
            AppErrorView::Transcription(s) => "transcription failed: "@ + s,
            AppErrorView::Clipboard(s) => "clipboard output failed: "@ + s,
            AppErrorView::Controller(s) => "controller error: "@ + s,
            AppErrorView::ChannelClosed(s) => "channel closed: "@ + s,
            AppErrorView::Install(s) => "install failed: "@ + s,
            AppErrorView::Sqlite(s) => "sqlite error: "@ + s,
        }
    }
}

impl AppErrorView {
    /// The failure's own text, without the prefix that names its kind. A missing binary
    /// has no text of its own beyond its message.
    pub open spec fn detail(self) -> Seq<char> {
        match self {
            AppErrorView::Io(s) => s,
            AppErrorView::TomlParse(s) => s,
            AppErrorView::TomlSerialize(s) => s,
            AppErrorView::Json(s) => s,
            AppErrorView::BinaryMissing { binary } => "binary `"@ + binary + "` missing from PATH"@,
            AppErrorView::Config(s) => s,
            AppErrorView::Capture(s) => s,
            AppErrorView::Transcription(s) => s,
            AppErrorView::Clipboard(s) => s,
            AppErrorView::Controller(s) => s,
            AppErrorView::ChannelClosed(s) => s,
            AppErrorView::Install(s) => s,
            AppErrorView::Sqlite(s) => s,
        }
    }
}

fn prefixed(prefix: &str, detail: &String) -> (r: String)
    ensures
        r@ == prefix@ + detail@,
{
    let mut r = String::from_str(prefix);
    r.append(detail.as_str());
    r
}

impl AppError {
    /// The failure's own text, without the prefix that names its kind.
    pub fn detail(&self) -> (r: String)
        ensures
            r@ == self@.detail(),
    {
        match self {
            AppError::Io(s) => s.clone(),
            AppError::TomlParse(s) => s.clone(),
            AppError::TomlSerialize(s) => s.clone(),
            AppError::Json(s) => s.clone(),
            AppError::BinaryMissing { binary } => {
                let mut r = prefixed("binary `", binary);
                r.append("` missing from PATH");
                r
            },
            AppError::Config(s) => s.clone(),
            AppError::Capture(s) => s.clone(),
            AppError::Transcription(s) => s.clone(),
            AppError::Clipboard(s) => s.clone(),
            AppError::Controller(s) => s.clone(),
            AppError::ChannelClosed(s) => s.clone(),
            AppError::Install(s) => s.clone(),
            AppError::Sqlite(s) => s.clone(),
        }
    }

    /// Renders the error as its user-visible message.
    pub fn message(&self) -> (r: String)
        ensures
            r@ == self@.message(),
    {
        match self {
            AppError::Io(s) => prefixed("io error: ", s),
            AppError::TomlParse(s) => prefixed("toml parse error: ", s),
            AppError::TomlSerialize(s) => prefixed("toml serialize error: ", s),
            AppError::Json(s) => prefixed("json parse error: ", s),
            AppError::BinaryMissing { binary } => {
                let mut r = prefixed("binary `", binary);
                r.append("` missing from PATH");
                r
            },
            AppError::Config(s) => prefixed("invalid configuration: ", s),
            AppError::Capture(s) => prefixed("capture failed: ", s),
            AppError::Transcription(s) => prefixed("transcription failed: ", s),
            AppError::Clipboard(s) => prefixed("clipboard output failed: ", s),
            AppError::Controller(s) => prefixed("controller error: ", s),
            AppError::ChannelClosed(s) => prefixed("channel closed: ", s),
            AppError::Install(s) => prefixed("install failed: ", s),
            AppError::Sqlite(s) => prefixed("sqlite error: ", s),
        }
    }
}

} // verus!
