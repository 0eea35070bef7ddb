//! The server's configuration: the served root, the exclusion rules that
//! hide paths below it, and the texts and addresses of the server.

use crate::error::{Error, ErrorKind};
use crate::rules::{any_pattern_matches, compile_rules, pattern_sources, rules_match};
use crate::util::path::{backslash_separates, below, join_path};
use regex::RegexSet;
use vstd::prelude::*;
use vstd::string::StringExecFns;

verus! {

/// The user's video directory, if the host names one.
///
/// Trusted: `dirs::video_dir`. The answer depends on the user's environment,
/// so nothing is claimed of it.
#[verifier::external_body]
fn host_video_dir() -> Option<String> {
    dirs::video_dir().map(|dir| dir.to_string_lossy().into_owned())
}

/// The user's home directory, if the host names one.
///
/// Trusted: `dirs::home_dir`. The answer depends on the user's environment,
/// so nothing is claimed of it.
#[verifier::external_body]
fn host_home_dir() -> Option<String> {
    dirs::home_dir().map(|dir| dir.to_string_lossy().into_owned())
}

/// The settings as the configuration file states them.
#[derive(Debug, Clone)]
pub struct ConfigGeneral {
    pub base_dir: String,
    pub exclude_patterns: Vec<String>,
    pub bindings: Vec<String>,
    pub welcome_title: String,
    pub welcome_content: String,
}

/// The configuration that the request handlers work with.
#[derive(Debug)]
pub struct Config {
    /// The served root: an absolute, canonical directory path.
    pub base_dir: String,
    /// The compiled exclusion rules, tested against root-relative paths.
    pub exclude_patterns: RegexSet,
    /// Whether a `\` inside a path segment is refused, as hosts need on
    /// which `\` separates path components.
    pub strict_separators: bool,
    pub bindings: Vec<String>,
    pub welcome_title: String,
    pub welcome_content: String,
}

/// The message of the error for rules that do not compile.
pub open spec fn rules_error_text() -> Seq<char> {
    "Error parsing regex"@
}

/// The base directory chosen from what the host reports: the video
/// directory; else `Videos` below the home directory; else `~/Videos/`.
pub open spec fn chosen_base_dir(video: Option<Seq<char>>, home: Option<Seq<char>>) -> Seq<char> {
    match video {
        Some(dir) => dir,
        None => match home {
            Some(dir) => below(dir, "Videos"@),
            None => "~/Videos/"@,
        },
    }
}

/// The view of an optional string.
pub open spec fn text_of(s: Option<String>) -> Option<Seq<char>> {
    match s {
        Some(s) => Some(s@),
        None => None,
    }
}

/// Chooses the base directory from what the host reports.
pub fn choose_base_dir(video: Option<String>, home: Option<String>) -> (dir: String)
    ensures
        dir@ == chosen_base_dir(text_of(video), text_of(home)),
{
    match video {
        Some(dir) => dir,
        None => match home {
            Some(dir) => join_path(dir.as_str(), "Videos"),
            None => String::from_str("~/Videos/"),
        },
    }
}

/// The default base directory of this host's user: asks the host for the
/// user's video and home directories and chooses by [`choose_base_dir`].
/// What the host answers depends on the user's environment, so the result
/// is not determined here.
pub fn default_base_dir() -> String {
    choose_base_dir(host_video_dir(), host_home_dir())
}

/// The patterns excluded by default.
pub open spec fn default_patterns() -> Seq<Seq<char>> {
    seq![
        "^.env"@,
        "^logs"@,
        "^media-server-1$"@,
        "\\.jar$"@,
        "\\.json$"@,
        "\\.toml$"@,
        "\\.ya?ml$"@,
    ]
}

/// The exclusion rules used when the configuration file names none.
pub fn default_exclude_patterns() -> (patterns: Vec<String>)
    ensures
        patterns.deep_view() == default_patterns(),
{
    let mut patterns: Vec<String> = Vec::new();
    patterns.push(String::from_str("^.env"));
    patterns.push(String::from_str("^logs"));
    patterns.push(String::from_str("^media-server-1$"));
    patterns.push(String::from_str("\\.jar$"));
    patterns.push(String::from_str("\\.json$"));
    patterns.push(String::from_str("\\.toml$"));
    patterns.push(String::from_str("\\.ya?ml$"));
    patterns
}

/// The addresses bound when the configuration file names none.
pub fn default_bindings() -> (bindings: Vec<String>)
    ensures
        bindings.deep_view() == seq!["127.0.0.1:9090"@],
{
    let mut bindings: Vec<String> = Vec::new();
    bindings.push(String::from_str("127.0.0.1:9090"));
    bindings
}

/// The title shown when the configuration file names none.
pub fn default_welcome_title() -> (title: String)
    ensures
        title@ == "Media Server 1"@,
{
    String::from_str("Media Server 1")
}

/// The welcome text shown when the configuration file names none.
pub open spec fn default_welcome_text() -> Seq<char> {
    "<p>\nWelcome! This media server seems to be working correctly.\n</p>\n<p>\nThis is a sample welcome text. To configure your own, open the <code>media-server-1.toml</code>\nfile next to your media-server-1 application and edit the <code>welcome-title</code> and\n<code>welcome-content</code> properties.\n"@
}

/// The welcome text shown when the configuration file names none.
pub fn default_welcome_content() -> (content: String)
    ensures
        content@ == default_welcome_text(),
{
    String::from_str(
        "<p>\nWelcome! This media server seems to be working correctly.\n</p>\n<p>\nThis is a sample welcome text. To configure your own, open the <code>media-server-1.toml</code>\nfile next to your media-server-1 application and edit the <code>welcome-title</code> and\n<code>welcome-content</code> properties.\n",
    )
}

impl Default for ConfigGeneral {
    fn default() -> (general: ConfigGeneral)
        ensures
            general.exclude_patterns.deep_view() == default_patterns(),
            general.bindings.deep_view() == seq!["127.0.0.1:9090"@],
            general.welcome_title@ == "Media Server 1"@,
            general.welcome_content@ == default_welcome_text(),
    {
        ConfigGeneral {
            base_dir: default_base_dir(),
            exclude_patterns: default_exclude_patterns(),
            bindings: default_bindings(),
            welcome_title: default_welcome_title(),
            welcome_content: default_welcome_content(),
        }
    }
}

/// A copy of a list of strings.
pub fn clone_strings(strings: &Vec<String>) -> (copy: Vec<String>)
    ensures
        copy.deep_view() == strings.deep_view(),
{
    let mut copy: Vec<String> = Vec::new();
    let mut i: usize = 0;
    while i < strings.len()
        invariant
            i <= strings.len(),
            copy.deep_view() =~= strings.deep_view().take(i as int),
        decreases strings.len() - i,
    {
        let ghost before = copy.deep_view();
        let item = strings[i].clone();
        copy.push(item);
        assert(copy.deep_view() =~= before.push(strings[i as int]@));
        i += 1;
    }
    copy
}

impl Clone for Config {
    fn clone(&self) -> (copy: Config)
        ensures
            copy.same_as(*self),
    {
        Config {
            base_dir: self.base_dir.clone(),
            exclude_patterns: self.exclude_patterns.clone(),
            strict_separators: self.strict_separators,
            bindings: clone_strings(&self.bindings),
            welcome_title: self.welcome_title.clone(),
            welcome_content: self.welcome_content.clone(),
        }
    }
}

impl Config {
    /// Whether two configurations state the same: the same root, rules,
    /// strictness, addresses and texts.
    pub open spec fn same_as(&self, other: Config) -> bool {
        &&& self.base_dir@ == other.base_dir@
        &&& self.rules() == other.rules()
        &&& self.strict_separators == other.strict_separators
        &&& self.bindings.deep_view() == other.bindings.deep_view()
        &&& self.welcome_title@ == other.welcome_title@
        &&& self.welcome_content@ == other.welcome_content@
    }

    /// The exclusion rules of this configuration, as patterns.
    pub open spec fn rules(&self) -> Seq<Seq<char>> {
        pattern_sources(self.exclude_patterns)
    }

    /// Whether a root-relative path is visible: it is, unless one of the
    /// exclusion rules matches it.
    pub open spec fn visible(&self, path: Seq<char>) -> bool {
        !any_pattern_matches(self.rules(), path)
    }

    /// Whether `general` became `config` with the rules `set` and the given
    /// strictness.
    pub open spec fn built_from(
        config: Config,
        general: ConfigGeneral,
        set: RegexSet,
        strict: bool,
    ) -> bool {
        &&& config.base_dir@ == general.base_dir@
        &&& config.exclude_patterns == set
        &&& config.strict_separators == strict
        &&& config.bindings.deep_view() == general.bindings.deep_view()
        &&& config.welcome_title@ == general.welcome_title@
        &&& config.welcome_content@ == general.welcome_content@
    }

    /// Builds the configuration from the settings and the outcome of
    /// compiling their exclusion rules: the configuration with the compiled
    /// rules, or a load error if the rules did not compile.
    pub fn with_rules(
        general: ConfigGeneral,
        compiled: Option<RegexSet>,
        strict: bool,
    ) -> (result: Result<Config, Error>)
        ensures
            match compiled {
                Some(set) => result matches Ok(config) && Config::built_from(
                    config,
                    general,
                    set,
                    strict,
                ),
                None => result matches Err(e) && (e.kind matches ErrorKind::ConfigLoadError(msg)
                    && msg@ == rules_error_text()),
            },
    {
        match compiled {
            Some(set) => Ok(
                Config {
                    base_dir: general.base_dir,
                    exclude_patterns: set,
                    strict_separators: strict,
                    bindings: general.bindings,
                    welcome_title: general.welcome_title,
                    welcome_content: general.welcome_content,
                },
            ),
            None => Err(
                Error::from_kind(ErrorKind::ConfigLoadError(String::from_str("Error parsing regex"))),
            ),
        }
    }

    /// Builds the configuration from the settings of the configuration
    /// file: compiles the exclusion rules and asks the host whether `\`
    /// separates path components. Fails with a load error if the rules do
    /// not compile; settings without rules always succeed.
    pub fn new(general: ConfigGeneral) -> (result: Result<Config, Error>)
        ensures
            match result {
                Ok(config) => {
                    &&& config.rules() == general.exclude_patterns.deep_view()
                    &&& config.base_dir@ == general.base_dir@
                    &&& config.bindings.deep_view() == general.bindings.deep_view()
                    &&& config.welcome_title@ == general.welcome_title@
                    &&& config.welcome_content@ == general.welcome_content@
                },
                Err(e) => e.kind matches ErrorKind::ConfigLoadError(msg) && msg@
                    == rules_error_text(),
            },
            general.exclude_patterns.len() == 0 ==> result is Ok,
    {
        let compiled = compile_rules(&general.exclude_patterns);
        let strict = backslash_separates();
        Config::with_rules(general, compiled, strict)
    }

    /// Whether a root-relative path may be shown: true unless one of the
    /// exclusion rules matches it.
    pub fn is_legal_path(&self, path: &str) -> (legal: bool)
        ensures
            legal == self.visible(path@),
            self.rules().len() == 0 ==> legal,
    {
        !rules_match(&self.exclude_patterns, path)
    }
}

} // verus!
