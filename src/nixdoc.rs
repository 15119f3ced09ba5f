//! The per-file generation contract: category and description of a source
//! file, and the arguments of the external `nixdoc` generator.
use vstd::prelude::*;
use crate::mapping::{mapping_message, MappingError, PathAction, PathMapping};
use crate::path::{file_name, file_stem, is_up, parent, parse, render, stem_of, strip_prefix, ParsedPath};
use crate::text::{join_with, joined, lemma_views_empty, lemma_views_push, pieces, split_on, views};

verus! {

/// The arguments of one generator call.
pub open spec fn nixdoc_args(
    category: Seq<char>,
    description: Seq<char>,
    file: Seq<char>,
    prefix: Option<Seq<char>>,
    anchor_prefix: Option<Seq<char>>,
) -> Seq<Seq<char>> {
    let base = seq!["--category"@, category, "--description"@, description, "--file"@, file];
    let with_prefix = match prefix {
        Some(p) => base + seq!["--prefix"@, p],
        None => base,
    };
    match anchor_prefix {
        Some(a) => with_prefix + seq!["--anchor-prefix"@, a],
        None => with_prefix,
    }
}

/// One call of the external `nixdoc` generator.
pub struct Nixdoc {
    /// The category name for the documentation
    pub category: String,
    /// Description text for the documentation
    pub description: String,
    /// Path to the source file to document
    pub file: String,
    /// Optional prefix for generated identifiers
    pub prefix: Option<String>,
    /// Optional prefix for anchor links
    pub anchor_prefix: Option<String>,
}

impl Nixdoc {
    /// A call without prefixes.
    pub fn new(category: &str, description: &str, file: &str) -> (r: Nixdoc)
        ensures
            r.category@ == category@,
            r.description@ == description@,
            r.file@ == file@,
            r.prefix is None,
            r.anchor_prefix is None,
    {
        Nixdoc {
            category: String::from_str(category),
            description: String::from_str(description),
            file: String::from_str(file),
            prefix: None,
            anchor_prefix: None,
        }
    }

    /// The same call with a prefix for generated identifiers.
    pub fn with_prefix(self, prefix: &str) -> (r: Nixdoc)
        ensures
            r.prefix is Some && r.prefix->Some_0@ == prefix@,
            r.category == self.category,
            r.description == self.description,
            r.file == self.file,
            r.anchor_prefix == self.anchor_prefix,
    {
        Nixdoc { prefix: Some(String::from_str(prefix)), ..self }
    }

    /// The same call with a prefix for anchor links.
    pub fn with_anchor_prefix(self, anchor_prefix: &str) -> (r: Nixdoc)
        ensures
            r.anchor_prefix is Some && r.anchor_prefix->Some_0@ == anchor_prefix@,
            r.category == self.category,
            r.description == self.description,
            r.file == self.file,
            r.prefix == self.prefix,
    {
        Nixdoc { anchor_prefix: Some(String::from_str(anchor_prefix)), ..self }
    }

    /// The program to run.
    pub fn program() -> (r: String)
        ensures
            r@ == "nixdoc"@,
    {
        String::from_str("nixdoc")
    }

    /// The arguments of the call: category, description and file, then the
    /// prefixes that are present.
    pub fn args(&self) -> (r: Vec<String>)
        ensures
            views(r@) == nixdoc_args(
                self.category@,
                self.description@,
                self.file@,
                crate::mapping::opt_text(self.prefix),
                crate::mapping::opt_text(self.anchor_prefix),
            ),
    {
        let mut r: Vec<String> = Vec::new();
        r.push(String::from_str("--category"));
        r.push(self.category.clone());
        r.push(String::from_str("--description"));
        r.push(self.description.clone());
        r.push(String::from_str("--file"));
        r.push(self.file.clone());
        let ghost base = seq![
            "--category"@,
            self.category@,
            "--description"@,
            self.description@,
            "--file"@,
            self.file@,
        ];
        assert(views(r@) =~= base);
        match &self.prefix {
            Some(p) => {
                let a = String::from_str("--prefix");
                let b = p.clone();
                proof {
                    lemma_views_push(r@, a);
                    lemma_views_push(r@.push(a), b);
                }
                r.push(a);
                r.push(b);
                assert(views(r@) =~= base + seq!["--prefix"@, p@]);
            },
            None => {},
        }
        let ghost mid = views(r@);
        match &self.anchor_prefix {
            Some(p) => {
                let a = String::from_str("--anchor-prefix");
                let b = p.clone();
                proof {
                    lemma_views_push(r@, a);
                    lemma_views_push(r@.push(a), b);
                }
                r.push(a);
                r.push(b);
                assert(views(r@) =~= mid + seq!["--anchor-prefix"@, p@]);
            },
            None => {},
        }
        r
    }
}

/// The second line of a text, as reading it line by line gives it (a
/// line break is `\n`, or `\r\n`), or the empty string when the text has
/// fewer than two lines.
pub open spec fn second_line(t: Seq<char>) -> Seq<char> {
    let ls = pieces(t, '\n');
    if ls.len() < 2 || (ls.len() == 2 && ls[1].len() == 0) {
        Seq::empty()
    } else if ls.len() > 2 && ls[1].len() > 0 && ls[1].last() == '\r' {
        ls[1].drop_last()
    } else {
        ls[1]
    }
}

/// The one-line description of a source file: its second line.
pub fn description_of(text: &str) -> (r: String)
    ensures
        r@ == second_line(text@),
{
    let ls = split_on(text, '\n');
    let n = ls.len();
    assert(views(ls@).len() == n);
    if n < 2 {
        return String::new();
    }
    assert(views(ls@)[1] == ls@[1]@);
    let line = ls[1].as_str();
    let len = line.unicode_len();
    if n == 2 && len == 0 {
        return String::new();
    }
    if n > 2 && len > 0 && line.get_char(len - 1) == '\r' {
        assert(line@.subrange(0, len - 1) =~= line@.drop_last());
        return String::from_str(line.substring_char(0, len - 1));
    }
    String::from_str(line)
}

/// Why the category of a source file could not be derived.
#[derive(Debug, Copy, Clone, PartialEq, Eq, Structural)]
pub enum CategoryError {
    /// The source path is not under the input root.
    NotUnderRoot,
    /// The source path has no file name.
    NoFileName,
}

/// The names of `ns` other than `..`.
pub open spec fn without_up(ns: Seq<Seq<char>>) -> Seq<Seq<char>>
    decreases ns.len(),
{
    if ns.len() == 0 {
        Seq::empty()
    } else if is_up(ns.last()) {
        without_up(ns.drop_last())
    } else {
        without_up(ns.drop_last()).push(ns.last())
    }
}

/// The category of `source` under `input_root`: the directories between
/// the root and the file, then the file's stem, joined by `.`.
pub open spec fn category(input_root: Seq<char>, source: Seq<char>) -> Result<Seq<char>, CategoryError> {
    match strip_prefix(parse(source), parse(input_root)) {
        None => Err(CategoryError::NotUnderRoot),
        Some(rel) => match file_name(rel) {
            None => Err(CategoryError::NoFileName),
            Some(name) => {
                let dirs = without_up(rel.names.drop_last());
                if dirs.len() == 0 {
                    Ok(stem_of(name))
                } else {
                    Ok(joined(dirs, '.') + seq!['.'] + stem_of(name))
                }
            },
        },
    }
}

/// Derives the category of `source` under `input_root`.
pub fn extract_category(input_root: &str, source: &str) -> (r: Result<String, CategoryError>)
    ensures
        match category(input_root@, source@) {
            Ok(c) => r is Ok && r->Ok_0@ == c,
            Err(e) => r == Err::<String, CategoryError>(e),
        },
{
    let p = ParsedPath::parse(source);
    let base = ParsedPath::parse(input_root);
    let rel = match p.strip_prefix(&base) {
        Some(rel) => rel,
        None => return Err(CategoryError::NotUnderRoot),
    };
    let name = match rel.file_name() {
        Some(name) => name,
        None => return Err(CategoryError::NoFileName),
    };
    let stem = file_stem(name.as_str());
    let n = rel.names.len();
    let mut dirs: Vec<String> = Vec::new();
    let mut i: usize = 0;
    proof {
        reveal_strlit("..");
        assert(".."@ =~= seq!['.', '.']);
        lemma_views_empty(dirs@);
        assert(views(rel.names@).drop_last().subrange(0, 0) =~= Seq::<Seq<char>>::empty());
    }
    while i + 1 < n
        invariant
            n == rel.names@.len(),
            n > 0,
            i + 1 <= n,
            ".."@ == seq!['.', '.'],
            views(dirs@) == without_up(views(rel.names@).drop_last().subrange(0, i as int)),
        decreases n - i,
    {
        let ghost all = views(rel.names@).drop_last();
        let ghost seen = all.subrange(0, i as int + 1);
        assert(seen.drop_last() =~= all.subrange(0, i as int));
        assert(seen.last() == rel.names@[i as int]@);
        let up = String::from_str("..");
        if rel.names[i] != up {
            let d = rel.names[i].clone();
            proof {
                lemma_views_push(dirs@, d);
            }
            dirs.push(d);
        }
        i = i + 1;
    }
    assert(views(rel.names@).drop_last().subrange(0, n - 1) =~= views(rel.names@).drop_last());
    if dirs.len() == 0 {
        Ok(stem)
    } else {
        proof {
            reveal_strlit(".");
            assert("."@ =~= seq!['.']);
        }
        Ok(join_with(&dirs, ".").concat(".").concat(stem.as_str()))
    }
}

/// Why the generation of one file could not be planned.
#[derive(Debug, Copy, Clone, PartialEq, Eq, Structural)]
pub enum GenerationError {
    /// The path mapping failed.
    Mapping(MappingError),
    /// The source path is not valid Unicode.
    InvalidEncoding,
    /// No category could be derived from the source path.
    Category(CategoryError),
}

/// The description of a generation error.
pub open spec fn generation_message(e: GenerationError) -> Seq<char> {
    match e {
        GenerationError::Mapping(m) => "path mapping failed: "@ + mapping_message(m),
        GenerationError::InvalidEncoding => "source path was not valid unicode"@,
        GenerationError::Category(CategoryError::NotUnderRoot) => "source path is not within input directory"@,
        GenerationError::Category(CategoryError::NoFileName) => "source path had no file name"@,
    }
}

impl GenerationError {
    /// A one-line description of the error.
    pub fn message(&self) -> (r: String)
        ensures
            r@ == generation_message(*self),
    {
        match self {
            GenerationError::Mapping(e) => String::from_str("path mapping failed: ").concat(e.message().as_str()),
            GenerationError::InvalidEncoding => String::from_str("source path was not valid unicode"),
            GenerationError::Category(CategoryError::NotUnderRoot) => String::from_str(
                "source path is not within input directory",
            ),
            GenerationError::Category(CategoryError::NoFileName) => String::from_str(
                "source path had no file name",
            ),
        }
    }
}

/// A planned generation: what the caller runs and where the output goes.
pub struct Job {
    /// The source file
    pub source: String,
    /// The documentation file, created or truncated
    pub dest: String,
    /// The directory of the documentation file, created with its ancestors
    pub dest_dir: Option<String>,
    /// The category passed to the generator
    pub category: String,
    /// The prefix passed to the generator, when not empty
    pub prefix: Option<String>,
    /// The anchor prefix passed to the generator, when not empty
    pub anchor_prefix: Option<String>,
}

/// An empty string stands for no value.
pub open spec fn non_empty(s: Seq<char>) -> Option<Seq<char>> {
    if s.len() == 0 {
        None
    } else {
        Some(s)
    }
}

fn non_empty_string(s: &str) -> (r: Option<String>)
    ensures
        crate::mapping::opt_text(r) == non_empty(s@),
{
    if s.unicode_len() == 0 {
        None
    } else {
        Some(String::from_str(s))
    }
}

impl Job {
    /// The generator call for this job, given the source's description.
    pub fn command(&self, description: &str) -> (r: Nixdoc)
        ensures
            r.category@ == self.category@,
            r.description@ == description@,
            r.file@ == self.source@,
            r.prefix == self.prefix,
            r.anchor_prefix == self.anchor_prefix,
    {
        Nixdoc {
            category: self.category.clone(),
            description: String::from_str(description),
            file: self.source.clone(),
            prefix: self.prefix.clone(),
            anchor_prefix: self.anchor_prefix.clone(),
        }
    }
}

/// Plans documentation generation for the files of one source tree.
pub struct AutoNixdoc<M: PathMapping> {
    /// Prefix for generated identifiers
    prefix: String,
    /// Prefix for anchor links in documentation
    anchor_prefix: String,
    /// Path mapping strategy for determining output locations
    mapper: M,
    /// Input directory root for computing relative paths
    input_dir: String,
}

impl<M: PathMapping> AutoNixdoc<M> {
    pub closed spec fn spec_prefix(&self) -> Seq<char> {
        self.prefix@
    }

    pub closed spec fn spec_anchor_prefix(&self) -> Seq<char> {
        self.anchor_prefix@
    }

    pub closed spec fn spec_input_dir(&self) -> Seq<char> {
        self.input_dir@
    }

    pub closed spec fn spec_mapper(&self) -> M {
        self.mapper
    }

    /// Creates a planner.
    pub fn new(prefix: &str, anchor_prefix: &str, input_dir: &str, mapper: M) -> (r: AutoNixdoc<M>)
        ensures
            r.spec_prefix() == prefix@,
            r.spec_anchor_prefix() == anchor_prefix@,
            r.spec_input_dir() == input_dir@,
            r.spec_mapper() == mapper,
    {
        AutoNixdoc {
            prefix: String::from_str(prefix),
            anchor_prefix: String::from_str(anchor_prefix),
            mapper,
            input_dir: String::from_str(input_dir),
        }
    }

    /// The outcome of planning for `source`: `Ok(None)` when the file is
    /// skipped, the error that stops it, or the job's destination and
    /// category.
    pub open spec fn planned(&self, config: &M::Config, source: Seq<char>, is_unicode: bool) -> Result<Option<(Seq<char>, Seq<char>)>, GenerationError> {
        match self.spec_mapper().resolution(config, source) {
            Err(e) => Err(GenerationError::Mapping(e)),
            Ok(None) => Ok(None),
            Ok(Some(dest)) => if !is_unicode {
                Err(GenerationError::InvalidEncoding)
            } else {
                match category(self.spec_input_dir(), source) {
                    Err(e) => Err(GenerationError::Category(e)),
                    Ok(c) => Ok(Some((dest, c))),
                }
            },
        }
    }

    /// `job` is the job for `source`, documented at `dest` under category `c`.
    pub open spec fn job_for(&self, job: Job, source: Seq<char>, dest: Seq<char>, c: Seq<char>) -> bool {
        &&& job.source@ == source
        &&& job.dest@ == dest
        &&& job.category@ == c
        &&& crate::mapping::opt_text(job.dest_dir) == match parent(parse(dest)) {
            Some(d) => Some(render(d)),
            None => None,
        }
        &&& crate::mapping::opt_text(job.prefix) == non_empty(self.spec_prefix())
        &&& crate::mapping::opt_text(job.anchor_prefix) == non_empty(self.spec_anchor_prefix())
    }

    /// Plans the documentation of one source file. `source` is the path's
    /// text, and `is_unicode` says whether the path was valid Unicode (when
    /// not, `source` holds a lossy rendering of it).
    pub fn execute(&self, config: &M::Config, source: &str, is_unicode: bool) -> (r: Result<Option<Job>, GenerationError>)
        ensures
            match self.planned(config, source@, is_unicode) {
                Err(e) => r == Err::<Option<Job>, GenerationError>(e),
                Ok(None) => r == Ok::<Option<Job>, GenerationError>(None),
                Ok(Some((dest, c))) => r is Ok && r->Ok_0 is Some && self.job_for(r->Ok_0->Some_0, source@, dest, c),
            },
    {
        let action = self.mapper.resolve(config, source);
        let dest = match action {
            Err(e) => return Err(GenerationError::Mapping(e)),
            Ok(PathAction::Skip) => return Ok(None),
            Ok(PathAction::OutputTo(dest)) => dest,
        };
        if !is_unicode {
            return Err(GenerationError::InvalidEncoding);
        }
        let category = match extract_category(self.input_dir.as_str(), source) {
            Err(e) => return Err(GenerationError::Category(e)),
            Ok(c) => c,
        };
        let dest_dir = match ParsedPath::parse(dest.as_str()).parent() {
            Some(d) => Some(d.render()),
            None => None,
        };
        Ok(Some(Job {
            source: String::from_str(source),
            dest,
            dest_dir,
            category,
            prefix: non_empty_string(self.prefix.as_str()),
            anchor_prefix: non_empty_string(self.anchor_prefix.as_str()),
        }))
    }
}

} // verus!
