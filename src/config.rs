//! The configuration record and how user settings are layered over defaults.

use vstd::prelude::*;

verus! {

/// Where daily files live, their extension, and the strftime pattern that
/// turns a date into a file stem.
pub struct AppConfig {
    pub daily_path: String,
    pub file_extension: String,
    pub date_format: String,
}

/// The directory used when none is configured.
pub open spec fn default_daily_path() -> Seq<char> {
    seq!['.', '/']
}

/// The extension used when none is configured.
pub open spec fn default_file_extension() -> Seq<char> {
    seq!['m', 'd']
}

/// The date pattern used when none is configured: `%Y-%m-%d_%a`.
pub open spec fn default_date_format() -> Seq<char> {
    seq!['%', 'Y', '-', '%', 'm', '-', '%', 'd', '_', '%', 'a']
}

/// The view of an optional string.
pub open spec fn opt_view(v: Option<String>) -> Option<Seq<char>> {
    match v {
        Some(s) => Some(s@),
        None => None,
    }
}

/// A user setting over a default: the setting where it is present and
/// non-empty, the default otherwise.
pub open spec fn layered(setting: Option<Seq<char>>, default: Seq<char>) -> Seq<char> {
    match setting {
        Some(s) if s.len() > 0 => s,
        _ => default,
    }
}

/// The configuration that the three optional user settings give.
pub open spec fn layered_config(
    daily_path: Option<Seq<char>>,
    file_extension: Option<Seq<char>>,
    date_format: Option<Seq<char>>,
) -> (Seq<char>, Seq<char>, Seq<char>) {
    (
        layered(daily_path, default_daily_path()),
        layered(file_extension, default_file_extension()),
        layered(date_format, default_date_format()),
    )
}

/// The configuration with every field at its default.
pub open spec fn default_config() -> (Seq<char>, Seq<char>, Seq<char>) {
    (default_daily_path(), default_file_extension(), default_date_format())
}

impl View for AppConfig {
    type V = (Seq<char>, Seq<char>, Seq<char>);

    open spec fn view(&self) -> (Seq<char>, Seq<char>, Seq<char>) {
        (self.daily_path@, self.file_extension@, self.date_format@)
    }
}

impl AppConfig {
    /// Every field is a non-empty string.
    pub open spec fn wf(&self) -> bool {
        &&& self.daily_path@.len() > 0
        &&& self.file_extension@.len() > 0
        &&& self.date_format@.len() > 0
    }

    /// The configuration used when no config file exists.
    pub fn defaults() -> (r: AppConfig)
        ensures
            r@ == default_config(),
            r.wf(),
    {
        AppConfig::from_settings(None, None, None)
    }

    /// Layers the settings read from a config file (each `None` where the
    /// file lacks the key) over the defaults. An empty setting counts as
    /// absent, so every field of the result is non-empty.
    pub fn from_settings(
        daily_path: Option<String>,
        file_extension: Option<String>,
        date_format: Option<String>,
    ) -> (r: AppConfig)
        ensures
            r@ == layered_config(opt_view(daily_path), opt_view(file_extension), opt_view(date_format)),
            r.wf(),
    {
        proof {
            reveal_strlit("./");
            reveal_strlit("md");
            reveal_strlit("%Y-%m-%d_%a");
        }
        let daily_path = layer(daily_path, "./");
        let file_extension = layer(file_extension, "md");
        let date_format = layer(date_format, "%Y-%m-%d_%a");
        AppConfig { daily_path, file_extension, date_format }
    }
}

/// The setting where present and non-empty, else the default.
fn layer(setting: Option<String>, default: &str) -> (r: String)
    requires
        default@.len() > 0,
    ensures
        r@ == layered(opt_view(setting), default@),
        r@.len() > 0,
{
    match setting {
        Some(s) => {
            if s.as_str().is_empty() {
                default.to_owned()
            } else {
                s
            }
        },
        None => default.to_owned(),
    }
}

/// With no config file every setting is absent, and the configuration is
/// the default one.
pub proof fn lemma_absent_file_gives_defaults()
    ensures
        layered_config(None, None, None) == default_config(),
{
}

} // verus!
