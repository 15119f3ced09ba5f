//! Run options, their three-tier resolution and the file-identification
//! strategy.
use vstd::prelude::*;
use log::LevelFilter;
use crate::mapping::{get_mapping, opt_text, AutoMappingConfig, BaselineConfig};
use crate::nixdoc::AutoNixdoc;
use crate::run::Run;
use crate::path::{extension_of, file_name, parse, ParsedPath, file_extension};
use crate::text::same_text;

verus! {

/// Declares `log::LevelFilter`, a plain enum of six unit variants (`Off`,
/// `Error`, `Warn`, `Info`, `Debug`, `Trace`), so that the levels can be
/// named and compared in contracts.
#[verifier::external_type_specification]
pub struct ExLevelFilter(LevelFilter);

/// A name for what `str::to_lowercase` returns on the characters `s`.
pub uninterp spec fn lowercase_of(s: Seq<char>) -> Seq<char>;

/// Relies on `str::to_lowercase`: the result depends on the characters alone.
#[verifier::external_body]
fn to_lowercase(s: &str) -> (r: String)
    ensures
        r@ == lowercase_of(s@),
{
    s.to_lowercase()
}

/// Externally supported mapping types that can be selected by end users.
#[derive(Debug, Copy, Clone, PartialEq, Eq, Structural)]
pub enum MappingType {
    /// Automatic mapping
    Auto,
}

/// How individual generation failures are handled.
#[derive(Debug, Copy, Clone, PartialEq, Eq, Structural)]
pub enum FailureBehavior {
    /// Any individual failure aborts the whole run immediately.
    Abort,
    /// Individual failures are reported and the run goes on.
    Log,
    /// Individual failures are ignored entirely.
    Skip,
}

/// What to do about one failure.
#[derive(Debug, Copy, Clone, PartialEq, Eq, Structural)]
pub enum FailureResponse {
    /// Stop the run with the error.
    Propagate,
    /// Emit the error on the diagnostic stream and go on.
    Report,
    /// Go on without a word.
    Ignore,
}

/// The answer of each behavior to a failure.
pub open spec fn response_to(b: FailureBehavior) -> FailureResponse {
    match b {
        FailureBehavior::Abort => FailureResponse::Propagate,
        FailureBehavior::Log => FailureResponse::Report,
        FailureBehavior::Skip => FailureResponse::Ignore,
    }
}

/// The failure behavior that a lower-case name selects.
pub open spec fn failure_behavior_named(l: Seq<char>) -> Option<FailureBehavior> {
    if l == "abort"@ {
        Some(FailureBehavior::Abort)
    } else if l == "log"@ {
        Some(FailureBehavior::Log)
    } else if l == "skip"@ {
        Some(FailureBehavior::Skip)
    } else {
        None
    }
}

impl Default for FailureBehavior {
    fn default() -> (r: FailureBehavior)
        ensures
            r == FailureBehavior::Log,
    {
        FailureBehavior::Log
    }
}

impl FailureBehavior {
    /// The policy's answer to a failure, the same for traversal and
    /// generation failures.
    pub fn response(&self) -> (r: FailureResponse)
        ensures
            r == response_to(*self),
    {
        match self {
            FailureBehavior::Abort => FailureResponse::Propagate,
            FailureBehavior::Log => FailureResponse::Report,
            FailureBehavior::Skip => FailureResponse::Ignore,
        }
    }

    /// The behavior named by an already lower-cased string.
    pub fn from_lowercase(l: &str) -> (r: Option<FailureBehavior>)
        ensures
            r == failure_behavior_named(l@),
    {
        if same_text(l, "abort") {
            Some(FailureBehavior::Abort)
        } else if same_text(l, "log") {
            Some(FailureBehavior::Log)
        } else if same_text(l, "skip") {
            Some(FailureBehavior::Skip)
        } else {
            None
        }
    }

    /// Reads a behavior name, ignoring case.
    pub fn parse(s: &str) -> (r: Result<FailureBehavior, String>)
        ensures
            match failure_behavior_named(lowercase_of(s@)) {
                Some(b) => r == Ok::<FailureBehavior, String>(b),
                None => r is Err && r->Err_0@ == "Unknown failure behavior: "@ + s@,
            },
    {
        let l = to_lowercase(s);
        match FailureBehavior::from_lowercase(l.as_str()) {
            Some(b) => Ok(b),
            None => Err(String::from_str("Unknown failure behavior: ").concat(s)),
        }
    }
}

impl std::str::FromStr for FailureBehavior {
    type Err = String;

    /// Reads a behavior name, ignoring case.
    fn from_str(s: &str) -> (r: Result<FailureBehavior, String>)
        ensures
            match failure_behavior_named(lowercase_of(s@)) {
                Some(b) => r == Ok::<FailureBehavior, String>(b),
                None => r is Err && r->Err_0@ == "Unknown failure behavior: "@ + s@,
            },
    {
        FailureBehavior::parse(s)
    }
}

/// A logging level, as the `log` crate filters by it.
#[derive(Debug, Copy, Clone, PartialEq, Eq)]
pub struct LogLevel(pub LevelFilter);

/// The level filter that a lower-case name selects.
pub open spec fn level_named(l: Seq<char>) -> Option<LevelFilter> {
    if l == "error"@ {
        Some(LevelFilter::Error)
    } else if l == "warn"@ {
        Some(LevelFilter::Warn)
    } else if l == "info"@ {
        Some(LevelFilter::Info)
    } else if l == "debug"@ {
        Some(LevelFilter::Debug)
    } else if l == "trace"@ {
        Some(LevelFilter::Trace)
    } else {
        None
    }
}

impl LogLevel {
    /// The level named by an already lower-cased string.
    pub fn from_lowercase(l: &str) -> (r: Option<LogLevel>)
        ensures
            match level_named(l@) {
                Some(f) => r == Some(LogLevel(f)),
                None => r is None,
            },
    {
        if same_text(l, "error") {
            Some(LogLevel(LevelFilter::Error))
        } else if same_text(l, "warn") {
            Some(LogLevel(LevelFilter::Warn))
        } else if same_text(l, "info") {
            Some(LogLevel(LevelFilter::Info))
        } else if same_text(l, "debug") {
            Some(LogLevel(LevelFilter::Debug))
        } else if same_text(l, "trace") {
            Some(LogLevel(LevelFilter::Trace))
        } else {
            None
        }
    }

    /// Reads a level name, ignoring case.
    pub fn parse(s: &str) -> (r: Result<LogLevel, String>)
        ensures
            match level_named(lowercase_of(s@)) {
                Some(f) => r == Ok::<LogLevel, String>(LogLevel(f)),
                None => r is Err && r->Err_0@ == "Unknown logging level: "@ + s@,
            },
    {
        let l = to_lowercase(s);
        match LogLevel::from_lowercase(l.as_str()) {
            Some(level) => Ok(level),
            None => Err(String::from_str("Unknown logging level: ").concat(s)),
        }
    }

    /// The level filter this level stands for.
    pub fn filter(&self) -> (r: LevelFilter)
        ensures
            r == self.0,
    {
        self.0
    }
}

impl std::str::FromStr for LogLevel {
    type Err = String;

    /// Reads a level name, ignoring case.
    fn from_str(s: &str) -> (r: Result<LogLevel, String>)
        ensures
            match level_named(lowercase_of(s@)) {
                Some(f) => r == Ok::<LogLevel, String>(LogLevel(f)),
                None => r is Err && r->Err_0@ == "Unknown logging level: "@ + s@,
            },
    {
        LogLevel::parse(s)
    }
}

/// Declares `regex::Regex` as an opaque type: a compiled expression is only
/// carried and handed back to the `regex` crate.
#[verifier::external_type_specification]
#[verifier::external_body]
pub struct ExRegex(regex::Regex);

/// A name for whether `regex::Regex::new` accepts `pattern`.
pub uninterp spec fn regex_compiles(pattern: Seq<char>) -> bool;

/// A name for what `regex::Regex::is_match` answers for the regular
/// expression compiled from `pattern` on `haystack`.
pub uninterp spec fn regex_finds(pattern: Seq<char>, haystack: Seq<char>) -> bool;

/// A regular expression together with the text it was compiled from.
#[derive(Debug)]
pub struct CompiledPattern {
    source: String,
    regex: regex::Regex,
}

impl View for CompiledPattern {
    /// The pattern text.
    type V = Seq<char>;

    closed spec fn view(&self) -> Seq<char> {
        self.source@
    }
}

/// Relies on `regex::Regex::new`: whether it fails depends on the pattern
/// alone (its syntax and the default size limit). The compiled expression
/// is kept with the text it came from.
#[verifier::external_body]
fn compile_regex(pattern: &str) -> (r: Result<CompiledPattern, String>)
    ensures
        r is Ok <==> regex_compiles(pattern@),
        r matches Ok(c) ==> c@ == pattern@,
{
    match regex::Regex::new(pattern) {
        Ok(regex) => Ok(CompiledPattern { source: pattern.to_string(), regex }),
        Err(e) => Err(e.to_string()),
    }
}

/// Relies on `regex::Regex::is_match`: whether the expression matches
/// anywhere in the haystack, for the expression compiled from the
/// pattern's text.
#[verifier::external_body]
fn regex_is_match(p: &CompiledPattern, haystack: &str) -> (r: bool)
    ensures
        r == regex_finds(p@, haystack@),
{
    p.regex.is_match(haystack)
}

impl CompiledPattern {
    /// Compiles `pattern`; the error holds the compiler's explanation.
    pub fn new(pattern: &str) -> (r: Result<CompiledPattern, String>)
        ensures
            r is Ok <==> regex_compiles(pattern@),
            r matches Ok(c) ==> c@ == pattern@,
    {
        compile_regex(pattern)
    }

    /// Whether the pattern matches anywhere in `haystack`.
    pub fn is_match(&self, haystack: &str) -> (r: bool)
        ensures
            r == regex_finds(self@, haystack@),
    {
        regex_is_match(self, haystack)
    }

    /// The pattern text.
    pub fn as_str(&self) -> (r: &str)
        ensures
            r@ == self@,
    {
        self.source.as_str()
    }
}

/// A startup failure: the run does not begin.
#[derive(Debug)]
pub enum StartupError {
    /// The identification pattern does not compile.
    InvalidPattern {
        /// The pattern text
        pattern: String,
        /// Why it does not compile
        reason: String,
    },
}

impl StartupError {
    /// A one-line description of the error.
    pub fn message(&self) -> (r: String)
        ensures
            match self {
                StartupError::InvalidPattern { pattern, .. } => r@ == "Invalid regex pattern: "@ + pattern@,
            },
    {
        match self {
            StartupError::InvalidPattern { pattern, .. } => String::from_str("Invalid regex pattern: ").concat(
                pattern.as_str(),
            ),
        }
    }
}

/// Strategy for identifying which files are processed.
#[derive(Debug)]
pub enum PathIdentification {
    /// Files whose extension is `nix`
    NixExtension,
    /// Files whose path matches a user-provided regular expression
    Regex(CompiledPattern),
}

impl Default for PathIdentification {
    fn default() -> (r: PathIdentification)
        ensures
            r is NixExtension,
    {
        PathIdentification::NixExtension
    }
}

/// Whether a file at `path` has the extension `nix`.
pub open spec fn has_nix_extension(path: Seq<char>) -> bool {
    match file_name(parse(path)) {
        Some(name) => extension_of(name) == Some("nix"@),
        None => false,
    }
}

impl PathIdentification {
    /// Whether the strategy takes the file at `path`.
    pub open spec fn identifies(&self, path: Seq<char>) -> bool {
        match self {
            PathIdentification::NixExtension => has_nix_extension(path),
            PathIdentification::Regex(p) => regex_finds(p@, path),
        }
    }

    /// The extension strategy when no pattern is given, else the pattern's.
    pub fn from_pattern(pattern: Option<String>) -> (r: Result<PathIdentification, StartupError>)
        ensures
            match pattern {
                None => r matches Ok(PathIdentification::NixExtension),
                Some(p) => {
                    &&& r is Ok <==> regex_compiles(p@)
                    &&& r matches Ok(id) ==> (id matches PathIdentification::Regex(c) && c@ == p@)
                    &&& r matches Err(e) ==> (e matches StartupError::InvalidPattern { pattern: q, .. } && q@ == p@)
                },
            },
    {
        match pattern {
            Some(p) => match CompiledPattern::new(p.as_str()) {
                Ok(c) => Ok(PathIdentification::Regex(c)),
                Err(reason) => Err(StartupError::InvalidPattern { pattern: p, reason }),
            },
            None => Ok(PathIdentification::NixExtension),
        }
    }

    /// Whether the file at `path` is a documentation target.
    pub fn should_process(&self, path: &str) -> (r: bool)
        ensures
            r == self.identifies(path@),
    {
        match self {
            PathIdentification::NixExtension => {
                let p = ParsedPath::parse(path);
                match p.file_name() {
                    Some(name) => match file_extension(name.as_str()) {
                        Some(ext) => same_text(ext.as_str(), "nix"),
                        None => false,
                    },
                    None => false,
                }
            },
            PathIdentification::Regex(c) => c.is_match(path),
        }
    }
}

/// The first value present, in order of precedence.
pub open spec fn first_present<T>(explicit: Option<T>, from_env: Option<T>, from_file: Option<T>) -> Option<T> {
    match explicit {
        Some(v) => Some(v),
        None => match from_env {
            Some(v) => Some(v),
            None => from_file,
        },
    }
}

/// An explicit value, else the environment's.
pub fn resolve_option<T>(explicit: Option<T>, from_env: Option<T>) -> (r: Option<T>)
    ensures
        r == first_present(explicit, from_env, None),
{
    match explicit {
        Some(v) => Some(v),
        None => from_env,
    }
}

/// Resolves one option with three-tier precedence: an explicit value,
/// else the environment's, else the configuration file's.
pub fn resolve_with_config<T>(explicit: Option<T>, from_env: Option<T>, from_file: Option<T>) -> (r: Option<T>)
    ensures
        r == first_present(explicit, from_env, from_file),
{
    match resolve_option(explicit, from_env) {
        Some(v) => Some(v),
        None => from_file,
    }
}

/// The failure behavior and identification strategy of a run.
pub struct Behaviors {
    pub on_failure: FailureBehavior,
    pub path_identification: PathIdentification,
}

impl Behaviors {
    /// The behaviors for an optional failure behavior (`Log` when absent)
    /// and an optional identification pattern.
    pub fn new(on_failure: Option<FailureBehavior>, regex_pattern: Option<String>) -> (r: Result<Behaviors, StartupError>)
        ensures
            match regex_pattern {
                None => r is Ok && r->Ok_0.path_identification is NixExtension,
                Some(p) => {
                    &&& r is Ok <==> regex_compiles(p@)
                    &&& r matches Ok(b) ==> (b.path_identification matches PathIdentification::Regex(c) && c@ == p@)
                    &&& r matches Err(e) ==> (e matches StartupError::InvalidPattern { pattern: q, .. } && q@ == p@)
                },
            },
            r matches Ok(b) ==> b.on_failure == match on_failure {
                Some(f) => f,
                None => FailureBehavior::Log,
            },
    {
        let path_identification = match PathIdentification::from_pattern(regex_pattern) {
            Ok(id) => id,
            Err(e) => return Err(e),
        };
        let on_failure = match on_failure {
            Some(f) => f,
            None => FailureBehavior::default(),
        };
        Ok(Behaviors { on_failure, path_identification })
    }
}

/// The environment variable naming the configuration file.
pub const CONFIG_VAR: &'static str = "AUTONIXDOC_CONFIG";
/// The environment variable holding the failure behavior.
pub const ON_FAILURE_VAR: &'static str = "AUTONIXDOC_ON_FAILURE";
/// The environment variable holding the identifier prefix.
pub const PREFIX_VAR: &'static str = "AUTONIXDOC_PREFIX";
/// The environment variable holding the anchor prefix.
pub const ANCHOR_PREFIX_VAR: &'static str = "AUTONIXDOC_ANCHOR_PREFIX";
/// The environment variable holding the logging level.
pub const LOGGING_LEVEL_VAR: &'static str = "AUTONIXDOC_LOGGING_LEVEL";
/// The environment variable holding the identification pattern.
pub const REGEX_PATTERN_VAR: &'static str = "AUTONIXDOC_REGEX_PATTERN";
/// The configuration file read when none is named.
pub const DEFAULT_CONFIG_PATH: &'static str = "autonixdoc.toml";

/// The raw values of the environment variables that back the options.
pub struct Environment {
    pub config: Option<String>,
    pub on_failure: Option<String>,
    pub prefix: Option<String>,
    pub anchor_prefix: Option<String>,
    pub logging_level: Option<String>,
    pub regex_pattern: Option<String>,
}

impl Environment {
    /// The failure behavior that the environment names, if it names one.
    pub open spec fn spec_failure_behavior(&self) -> Option<FailureBehavior> {
        match self.on_failure {
            Some(s) => failure_behavior_named(lowercase_of(s@)),
            None => None,
        }
    }

    /// The logging level that the environment names, if it names one.
    pub open spec fn spec_logging_level(&self) -> Option<LogLevel> {
        match self.logging_level {
            Some(s) => match level_named(lowercase_of(s@)) {
                Some(f) => Some(LogLevel(f)),
                None => None,
            },
            None => None,
        }
    }

    /// The failure behavior that the environment names; a value that
    /// names none counts as absent.
    pub fn failure_behavior(&self) -> (r: Option<FailureBehavior>)
        ensures
            r == self.spec_failure_behavior(),
    {
        match &self.on_failure {
            Some(s) => match FailureBehavior::parse(s.as_str()) {
                Ok(b) => Some(b),
                Err(_) => None,
            },
            None => None,
        }
    }

    /// The logging level that the environment names; a value that names
    /// none counts as absent.
    pub fn logging_level(&self) -> (r: Option<LogLevel>)
        ensures
            r == self.spec_logging_level(),
    {
        match &self.logging_level {
            Some(s) => match LogLevel::parse(s.as_str()) {
                Ok(level) => Some(level),
                Err(_) => None,
            },
            None => None,
        }
    }
}

/// Where the configuration comes from.
#[derive(Debug)]
pub enum ConfigSource {
    /// The file named on the command line or in the environment; it must
    /// exist and parse.
    Given(String),
    /// The file at the default path, which exists; it must parse.
    Default(String),
    /// No file: every option takes its default.
    Defaults,
}

/// The string held, or the empty string.
pub open spec fn text_or_empty(o: Option<Seq<char>>) -> Seq<char> {
    match o {
        Some(s) => s,
        None => Seq::empty(),
    }
}

fn string_or_empty(o: Option<String>) -> (r: String)
    ensures
        r@ == text_or_empty(opt_text(o)),
{
    match o {
        Some(s) => s,
        None => String::new(),
    }
}

fn copy_option(o: &Option<String>) -> (r: Option<String>)
    ensures
        opt_text(r) == opt_text(*o),
{
    match o {
        Some(s) => Some(s.clone()),
        None => None,
    }
}

/// The command-line options of a run.
pub struct Driver {
    /// The directory containing the Nix library
    pub input_dir: String,
    /// The directory where generated documentation will be stored
    pub output_dir: String,
    /// The path mapping strategy
    pub mapping: MappingType,
    /// The desired behavior upon encountering individual failures
    pub on_failure: Option<FailureBehavior>,
    /// The configuration file
    pub config: Option<String>,
    /// The level of logging to enable
    pub logging_level: Option<LogLevel>,
    /// Prefix for generated identifiers in the documentation
    pub prefix: Option<String>,
    /// Prefix for anchor links in the generated documentation
    pub anchor_prefix: Option<String>,
    /// Regular expression pattern for identifying files to process
    pub regex_pattern: Option<String>,
}

impl Driver {
    pub open spec fn spec_config_path(&self, env: &Environment) -> Option<Seq<char>> {
        first_present(opt_text(self.config), opt_text(env.config), None)
    }

    pub open spec fn spec_failure_behavior(&self, env: &Environment, config: &AutoMappingConfig) -> FailureBehavior {
        match first_present(self.on_failure, env.spec_failure_behavior(), config.configured_failure_behavior()) {
            Some(b) => b,
            None => FailureBehavior::Log,
        }
    }

    pub open spec fn spec_pattern(&self, env: &Environment) -> Option<Seq<char>> {
        first_present(opt_text(self.regex_pattern), opt_text(env.regex_pattern), None)
    }

    pub open spec fn spec_logging_level(&self, env: &Environment, config: &AutoMappingConfig) -> Option<LogLevel> {
        first_present(self.logging_level, env.spec_logging_level(), config.configured_logging_level())
    }

    pub open spec fn spec_prefix(&self, env: &Environment, config: &AutoMappingConfig) -> Seq<char> {
        text_or_empty(first_present(opt_text(self.prefix), opt_text(env.prefix), config.configured_prefix()))
    }

    pub open spec fn spec_anchor_prefix(&self, env: &Environment, config: &AutoMappingConfig) -> Seq<char> {
        text_or_empty(
            first_present(opt_text(self.anchor_prefix), opt_text(env.anchor_prefix), config.configured_anchor_prefix()),
        )
    }

    /// The configuration file named on the command line, else in the
    /// environment.
    pub fn config_path(&self, env: &Environment) -> (r: Option<String>)
        ensures
            opt_text(r) == self.spec_config_path(env),
    {
        resolve_option(copy_option(&self.config), copy_option(&env.config))
    }

    /// Where the configuration comes from, given the file named (if any)
    /// and whether a file exists at the default path.
    pub fn config_source(path: Option<String>, default_exists: bool) -> (r: ConfigSource)
        ensures
            match path {
                Some(p) => r matches ConfigSource::Given(q) && q@ == p@,
                None => if default_exists {
                    r matches ConfigSource::Default(q) && q@ == DEFAULT_CONFIG_PATH@
                } else {
                    r is Defaults
                },
            },
    {
        match path {
            Some(p) => ConfigSource::Given(p),
            None => if default_exists {
                ConfigSource::Default(String::from_str(DEFAULT_CONFIG_PATH))
            } else {
                ConfigSource::Defaults
            },
        }
    }

    /// `run` is the run that these options, this environment and this
    /// configuration set up.
    pub open spec fn sets_up(&self, env: &Environment, config: &AutoMappingConfig, run: Run) -> bool {
        &&& run.behaviors.on_failure == self.spec_failure_behavior(env, config)
        &&& match self.spec_pattern(env) {
            None => run.behaviors.path_identification is NixExtension,
            Some(p) => run.behaviors.path_identification matches PathIdentification::Regex(c) && c@ == p,
        }
        &&& run.logging_level == self.spec_logging_level(env, config)
        &&& run.autonixdoc.spec_prefix() == self.spec_prefix(env, config)
        &&& run.autonixdoc.spec_anchor_prefix() == self.spec_anchor_prefix(env, config)
        &&& run.autonixdoc.spec_input_dir() == self.input_dir@
        &&& run.autonixdoc.spec_mapper()@ == (self.input_dir@, self.output_dir@)
        &&& run.config == *config
    }

    /// Resolves every option of the run, each with its own precedence
    /// (command line, environment, configuration file, default), and sets
    /// up the run. Fails when the identification pattern does not compile.
    pub fn run(self, env: &Environment, config: AutoMappingConfig) -> (r: Result<Run, StartupError>)
        ensures
            r is Err <==> (self.spec_pattern(env) matches Some(p) && !regex_compiles(p)),
            r matches Err(e) ==> (e matches StartupError::InvalidPattern { pattern: q, .. }
                && self.spec_pattern(env) == Some(q@)),
            r matches Ok(run) ==> self.sets_up(env, &config, run),
    {
        let mapping = get_mapping(self.mapping, self.input_dir.as_str(), self.output_dir.as_str());
        let failure_behavior = resolve_with_config(
            self.on_failure,
            env.failure_behavior(),
            config.failure_behavior(),
        );
        let regex_pattern = resolve_option(self.regex_pattern, copy_option(&env.regex_pattern));
        let behaviors = match Behaviors::new(failure_behavior, regex_pattern) {
            Ok(b) => b,
            Err(e) => return Err(e),
        };
        let logging_level = resolve_with_config(self.logging_level, env.logging_level(), config.logging_level());
        let prefix = string_or_empty(resolve_with_config(self.prefix, copy_option(&env.prefix), config.prefix()));
        let anchor_prefix = string_or_empty(
            resolve_with_config(self.anchor_prefix, copy_option(&env.anchor_prefix), config.anchor_prefix()),
        );
        let autonixdoc = AutoNixdoc::new(prefix.as_str(), anchor_prefix.as_str(), self.input_dir.as_str(), mapping);
        Ok(Run { behaviors, logging_level, autonixdoc, config })
    }
}

/// An explicit value wins over the environment and the configuration
/// file; without one the environment wins over the file; without both
/// the file's value holds.
pub proof fn law_precedence<T>(explicit: Option<T>, from_env: Option<T>, from_file: Option<T>)
    ensures
        explicit is Some ==> first_present(explicit, from_env, from_file) == explicit,
        explicit is None && from_env is Some ==> first_present(explicit, from_env, from_file) == from_env,
        explicit is None && from_env is None ==> first_present(explicit, from_env, from_file) == from_file,
{
}

/// The failure behavior of a run is the one given on the command line if
/// any, else the one the environment names if any, else the one the
/// configuration file sets if any, else `Log`.
pub proof fn law_failure_behavior_precedence(d: Driver, env: Environment, config: AutoMappingConfig)
    ensures
        d.on_failure matches Some(b) ==> d.spec_failure_behavior(&env, &config) == b,
        d.on_failure is None ==> (env.spec_failure_behavior() matches Some(b) ==> d.spec_failure_behavior(&env, &config) == b),
        d.on_failure is None && env.spec_failure_behavior() is None ==> d.spec_failure_behavior(&env, &config) == match config.failure_behavior {
            Some(b) => b,
            None => FailureBehavior::Log,
        },
{
}

} // verus!
