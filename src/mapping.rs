//! Path mapping: from a source file to the place of its documentation.
use vstd::prelude::*;
use crate::cli::{level_named, lowercase_of, FailureBehavior, LogLevel, MappingType};
use crate::path::{
    file_name, file_stem, join, parent, parse, render, stem_of, strip_prefix, ParsedPath, PathParts,
    is_name, last_dot, lemma_parse_render, lemma_parse_well_formed, well_formed,
};
use crate::text::free_of;

verus! {

/// The view of an optional string.
pub open spec fn opt_text(o: Option<String>) -> Option<Seq<char>> {
    match o {
        Some(s) => Some(s@),
        None => None,
    }
}

/// Configuration values that every mapping's configuration offers. Each
/// is the lowest tier of its option, beneath the command line and the
/// environment.
pub trait BaselineConfig {
    spec fn configured_failure_behavior(&self) -> Option<FailureBehavior>;

    spec fn configured_prefix(&self) -> Option<Seq<char>>;

    spec fn configured_anchor_prefix(&self) -> Option<Seq<char>>;

    spec fn configured_logging_level(&self) -> Option<LogLevel>;

    /// The failure behavior configured, if any.
    fn failure_behavior(&self) -> (r: Option<FailureBehavior>)
        ensures
            r == self.configured_failure_behavior(),
    ;

    /// The prefix configured, if any.
    fn prefix(&self) -> (r: Option<String>)
        ensures
            opt_text(r) == self.configured_prefix(),
    ;

    /// The anchor prefix configured, if any.
    fn anchor_prefix(&self) -> (r: Option<String>)
        ensures
            opt_text(r) == self.configured_anchor_prefix(),
    ;

    /// The logging level configured, if any and if it names a level.
    fn logging_level(&self) -> (r: Option<LogLevel>)
        ensures
            r == self.configured_logging_level(),
    ;
}

/// What to do with one source file.
#[derive(Debug, PartialEq, Eq)]
pub enum PathAction {
    /// Documentation is written to the path held.
    OutputTo(String),
    /// The file is skipped.
    Skip,
}

impl View for PathAction {
    /// The destination, or `None` for a skipped file.
    type V = Option<Seq<char>>;

    open spec fn view(&self) -> Option<Seq<char>> {
        match self {
            PathAction::OutputTo(d) => Some(d@),
            PathAction::Skip => None,
        }
    }
}

/// Why a source file could not be mapped.
#[derive(Debug, Copy, Clone, PartialEq, Eq, Structural)]
pub enum MappingError {
    /// The source path has no parent directory.
    NoParent,
    /// The source path has no file name to take a stem from.
    NoStem,
    /// The source file's directory is not under the input root. Walking
    /// the input root never yields such a file: this is a defect of the
    /// caller, never a per-file failure.
    OutsideRoot,
}

/// The description of a mapping error.
pub open spec fn mapping_message(e: MappingError) -> Seq<char> {
    match e {
        MappingError::NoParent => "source path had no parent"@,
        MappingError::NoStem => "source path had no file name"@,
        MappingError::OutsideRoot =>
            "Source directory isn't a prefix of source path? Please report this, it's a bug"@,
    }
}

impl MappingError {
    /// A one-line description of the error.
    pub fn message(&self) -> (r: String)
        ensures
            r@ == mapping_message(*self),
    {
        match self {
            MappingError::NoParent => String::from_str("source path had no parent"),
            MappingError::NoStem => String::from_str("source path had no file name"),
            MappingError::OutsideRoot => String::from_str(
                "Source directory isn't a prefix of source path? Please report this, it's a bug",
            ),
        }
    }
}

/// Whether `r` is the result that `expected` describes.
pub open spec fn resolves_as(
    r: Result<PathAction, MappingError>,
    expected: Result<Option<Seq<char>>, MappingError>,
) -> bool {
    match r {
        Ok(a) => expected == Ok::<Option<Seq<char>>, MappingError>(a@),
        Err(e) => expected == Err::<Option<Seq<char>>, MappingError>(e),
    }
}

/// Maps source paths to path actions.
pub trait PathMapping {
    type Config: BaselineConfig;

    spec fn resolution(&self, config: &Self::Config, source: Seq<char>) -> Result<Option<Seq<char>>, MappingError>;

    /// Decides what to do with the source file `source`. Touches no file.
    fn resolve(&self, config: &Self::Config, source: &str) -> (r: Result<PathAction, MappingError>)
        ensures
            resolves_as(r, self.resolution(config, source@)),
    ;
}

/// Constructs the path mapping of the given type.
pub fn get_mapping(mapping_type: MappingType, source_base: &str, dest_base: &str) -> (r: AutoMapping)
    ensures
        r@ == (source_base@, dest_base@),
{
    match mapping_type {
        MappingType::Auto => AutoMapping::new(source_base, dest_base),
    }
}

/// Mirrors the directory structure of the sources under the output root,
/// with one `.md` file per source file.
pub struct AutoMapping {
    /// Base directory of the source files
    source_base: String,
    /// Base directory for documentation output
    dest_base: String,
}

impl View for AutoMapping {
    /// The input root and the output root.
    type V = (Seq<char>, Seq<char>);

    closed spec fn view(&self) -> (Seq<char>, Seq<char>) {
        (self.source_base@, self.dest_base@)
    }
}

/// The configuration of the automatic mapping, as read from a
/// configuration file.
pub struct AutoMappingConfig {
    /// Paths to ignore during documentation generation
    pub ignore_paths: Vec<String>,
    /// Failure behavior configuration
    pub failure_behavior: Option<FailureBehavior>,
    /// Prefix for generated identifiers
    pub prefix: Option<String>,
    /// Prefix for anchor links
    pub anchor_prefix: Option<String>,
    /// Logging level configuration as string (error, warn, info, debug, trace)
    pub logging_level: Option<String>,
}

impl Default for AutoMappingConfig {
    fn default() -> (r: AutoMappingConfig)
        ensures
            r.ignore_paths@.len() == 0,
            r.failure_behavior is None,
            r.prefix is None,
            r.anchor_prefix is None,
            r.logging_level is None,
    {
        AutoMappingConfig {
            ignore_paths: Vec::new(),
            failure_behavior: None,
            prefix: None,
            anchor_prefix: None,
            logging_level: None,
        }
    }
}

impl BaselineConfig for AutoMappingConfig {
    open spec fn configured_failure_behavior(&self) -> Option<FailureBehavior> {
        self.failure_behavior
    }

    open spec fn configured_prefix(&self) -> Option<Seq<char>> {
        opt_text(self.prefix)
    }

    open spec fn configured_anchor_prefix(&self) -> Option<Seq<char>> {
        opt_text(self.anchor_prefix)
    }

    open spec fn configured_logging_level(&self) -> Option<LogLevel> {
        match self.logging_level {
            Some(s) => match level_named(lowercase_of(s@)) {
                Some(f) => Some(LogLevel(f)),
                None => None,
            },
            None => None,
        }
    }

    fn failure_behavior(&self) -> (r: Option<FailureBehavior>) {
        self.failure_behavior
    }

    fn prefix(&self) -> (r: Option<String>) {
        self.prefix.clone()
    }

    fn anchor_prefix(&self) -> (r: Option<String>) {
        self.anchor_prefix.clone()
    }

    fn logging_level(&self) -> (r: Option<LogLevel>) {
        match &self.logging_level {
            Some(s) => match LogLevel::parse(s.as_str()) {
                Ok(level) => Some(level),
                Err(_) => None,
            },
            None => None,
        }
    }
}

/// Whether `source` names the same path as one of `ignored`.
pub open spec fn is_ignored(ignored: Seq<String>, source: Seq<char>) -> bool {
    exists|i: int| 0 <= i < ignored.len() && #[trigger] parse(ignored[i]@) == parse(source)
}

/// The name of the documentation file for a source file's stem.
pub open spec fn doc_name(stem: Seq<char>) -> Seq<char> {
    stem + seq!['.', 'm', 'd']
}

/// Where the documentation of `source` goes, for sources under `input_root`
/// and documentation under `output_root`: the output root, then the
/// source's directory relative to the input root, then the source's stem
/// with the extension `.md`.
pub open spec fn destination(input_root: Seq<char>, output_root: Seq<char>, source: Seq<char>) -> Result<Seq<char>, MappingError> {
    let p = parse(source);
    match parent(p) {
        None => Err(MappingError::NoParent),
        Some(dir) => match strip_prefix(dir, parse(input_root)) {
            None => Err(MappingError::OutsideRoot),
            Some(rel) => match file_name(p) {
                None => Err(MappingError::NoStem),
                Some(name) => {
                    let d = join(parse(output_root), rel);
                    Ok(render(PathParts { names: d.names.push(doc_name(stem_of(name))), ..d }))
                },
            },
        },
    }
}

impl AutoMapping {
    /// Creates a mapping from the source tree at `source_base` to the
    /// documentation tree at `dest_base`.
    pub fn new(source_base: &str, dest_base: &str) -> (r: AutoMapping)
        ensures
            r@ == (source_base@, dest_base@),
    {
        AutoMapping { source_base: String::from_str(source_base), dest_base: String::from_str(dest_base) }
    }

    /// The input root.
    pub fn source_base(&self) -> (r: &str)
        ensures
            r@ == self@.0,
    {
        self.source_base.as_str()
    }
}

/// Whether `source` is one of the ignored paths.
fn ignores(ignored: &Vec<String>, source: &ParsedPath) -> (r: bool)
    ensures
        r == exists|i: int| 0 <= i < ignored@.len() && #[trigger] parse(ignored@[i]@) == source@,
{
    let mut i: usize = 0;
    while i < ignored.len()
        invariant
            i <= ignored@.len(),
            forall|k: int| 0 <= k < i ==> #[trigger] parse(ignored@[k]@) != source@,
        decreases ignored@.len() - i,
    {
        let candidate = ParsedPath::parse(ignored[i].as_str());
        if candidate.same(source) {
            return true;
        }
        i = i + 1;
    }
    false
}

impl PathMapping for AutoMapping {
    type Config = AutoMappingConfig;

    open spec fn resolution(&self, config: &AutoMappingConfig, source: Seq<char>) -> Result<Option<Seq<char>>, MappingError> {
        if is_ignored(config.ignore_paths@, source) {
            Ok(None)
        } else {
            match destination(self@.0, self@.1, source) {
                Ok(d) => Ok(Some(d)),
                Err(e) => Err(e),
            }
        }
    }

    fn resolve(&self, config: &AutoMappingConfig, source: &str) -> (r: Result<PathAction, MappingError>) {
        let p = ParsedPath::parse(source);
        if ignores(&config.ignore_paths, &p) {
            return Ok(PathAction::Skip);
        }
        let dir = match p.parent() {
            Some(dir) => dir,
            None => return Err(MappingError::NoParent),
        };
        let base = ParsedPath::parse(self.source_base.as_str());
        let rel = match dir.strip_prefix(&base) {
            Some(rel) => rel,
            None => return Err(MappingError::OutsideRoot),
        };
        let name = match p.file_name() {
            Some(name) => name,
            None => return Err(MappingError::NoStem),
        };
        let out = ParsedPath::parse(self.dest_base.as_str());
        let mut dest = out.join(&rel);
        proof {
            reveal_strlit(".md");
            assert(".md"@ =~= seq!['.', 'm', 'd']);
        }
        let doc = file_stem(name.as_str()).concat(".md");
        dest.push_name(doc);
        Ok(PathAction::OutputTo(dest.render()))
    }
}

/// The documentation of a file that is not ignored goes to the output
/// root joined with the file's directory relative to the input root,
/// joined with the file's stem and the extension `.md`: the destination
/// has exactly those components.
pub proof fn law_destination_mirrors_source(m: AutoMapping, config: AutoMappingConfig, source: Seq<char>)
    requires
        !is_ignored(config.ignore_paths@, source),
        parent(parse(source)) is Some,
        strip_prefix(parent(parse(source))->Some_0, parse(m@.0)) is Some,
        file_name(parse(source)) is Some,
    ensures
        m.resolution(&config, source) matches Ok(Some(d)) && parse(d) == ({
            let rel = strip_prefix(parent(parse(source))->Some_0, parse(m@.0))->Some_0;
            let dir = join(parse(m@.1), rel);
            PathParts { names: dir.names.push(doc_name(stem_of(file_name(parse(source))->Some_0))), ..dir }
        }),
{
    let p = parse(source);
    let dir0 = parent(p)->Some_0;
    let rel = strip_prefix(dir0, parse(m@.0))->Some_0;
    let out = parse(m@.1);
    let dir = join(out, rel);
    let name = file_name(p)->Some_0;
    let doc = doc_name(stem_of(name));
    let full = PathParts { names: dir.names.push(doc), ..dir };
    lemma_parse_well_formed(source);
    lemma_parse_well_formed(m@.1);
    assert(is_name(name) && free_of(name, '/')) by {
        assert(name == p.names[p.names.len() - 1]);
    }
    assert(free_of(stem_of(name), '/')) by {
        crate::path::lemma_last_dot_range(name);
        if last_dot(name) > 0 {
            assert forall|k: int| 0 <= k < stem_of(name).len() implies stem_of(name)[k] != '/' by {
                assert(stem_of(name)[k] == name[k]);
            }
        }
    }
    assert(is_name(doc) && free_of(doc, '/')) by {
        assert(doc.len() == stem_of(name).len() + 3);
        assert(doc[doc.len() - 1] == 'd');
        assert forall|k: int| 0 <= k < doc.len() implies doc[k] != '/' by {
            if k < stem_of(name).len() {
                assert(doc[k] == stem_of(name)[k]);
            }
        }
    }
    assert(well_formed(dir0)) by {
        if p.names.len() > 0 {
            assert forall|i: int| 0 <= i < dir0.names.len() implies is_name(#[trigger] dir0.names[i]) && free_of(dir0.names[i], '/') by {
                assert(dir0.names[i] == p.names[i]);
            }
        }
    }
    assert(well_formed(rel)) by {
        if !(rel == dir0) {
            assert forall|i: int| 0 <= i < rel.names.len() implies is_name(#[trigger] rel.names[i]) && free_of(rel.names[i], '/') by {
                assert(rel.names[i] == dir0.names[i + parse(m@.0).names.len()]);
            }
        }
    }
    assert(well_formed(dir)) by {
        if !(rel.rooted || crate::path::is_empty_path(out)) {
            assert forall|i: int| 0 <= i < dir.names.len() implies is_name(#[trigger] dir.names[i]) && free_of(dir.names[i], '/') by {
                if i < out.names.len() {
                    assert(dir.names[i] == out.names[i]);
                } else {
                    assert(dir.names[i] == rel.names[i - out.names.len()]);
                }
            }
        }
    }
    assert(well_formed(full)) by {
        assert forall|i: int| 0 <= i < full.names.len() implies is_name(#[trigger] full.names[i]) && free_of(full.names[i], '/') by {
            if i < dir.names.len() {
                assert(full.names[i] == dir.names[i]);
            } else {
                assert(full.names[i] == doc);
            }
        }
    }
    lemma_parse_render(full);
}

} // verus!
