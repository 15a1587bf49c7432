//! Layered ignore rules, compiled once and then used as a pure predicate.
//!
//! The matcher is built from, in increasing precedence: the watched
//! directory's ignore file when the caller asks for it, a fixed built-in
//! list, and caller-supplied patterns.  Compilation and matching are done
//! by the `ignore` crate behind trusted declarations; what a compiled
//! matcher answers is a function of the root it was built at, the globs
//! compiled into it, the queried path and whether that path is a
//! directory.

use vstd::prelude::*;
use ignore::gitignore::Gitignore;
use ignore::gitignore::GitignoreBuilder;

verus! {

#[verifier::external_type_specification]
#[verifier::external_body]
pub struct ExGitignore(Gitignore);

#[verifier::external_type_specification]
#[verifier::external_body]
pub struct ExGitignoreBuilder(GitignoreBuilder);

#[verifier::external_type_specification]
#[verifier::external_body]
pub struct ExIgnoreError(ignore::Error);

/// The root a builder resolves matched paths against.
pub uninterp spec fn builder_root(b: GitignoreBuilder) -> Seq<char>;

/// The globs compiled into a builder so far, oldest first.
pub uninterp spec fn builder_rules(b: GitignoreBuilder) -> Seq<Seq<char>>;

/// The root a compiled matcher resolves matched paths against.
pub uninterp spec fn gitignore_root(g: Gitignore) -> Seq<char>;

/// The globs a compiled matcher was built from, oldest first.
pub uninterp spec fn gitignore_rules(g: Gitignore) -> Seq<Seq<char>>;

/// What one gitignore line contributes when parsed: nothing for a
/// comment or blank line, one compiled glob otherwise.
pub uninterp spec fn line_rules(line: Seq<char>) -> Seq<Seq<char>>;

/// Whether `GitignoreBuilder::add_line` accepts one line: comments and
/// blank lines trivially, any other line exactly when its glob parses.
/// The builder flags that influence parsing are fixed by construction:
/// every builder here comes from `new_builder`, the only door to the
/// type in this library.
pub uninterp spec fn line_parses(line: Seq<char>) -> bool;

/// Whether `GitignoreBuilder::build` compiles the accumulated globs
/// into a matcher; a function of the glob list alone.
pub uninterp spec fn set_compiles(rules: Seq<Seq<char>>) -> bool;

/// What `Gitignore::matched` answers for a path relative to the root:
/// whether the compiled globs, read with gitignore semantics, ignore it.
pub uninterp spec fn ignore_match(
    root: Seq<char>,
    rules: Seq<Seq<char>>,
    rel_path: Seq<char>,
    is_dir: bool,
) -> bool;

/// Relies on `GitignoreBuilder::new`: a fresh builder holds no globs.
#[verifier::external_body]
fn new_builder(root: &str) -> (b: GitignoreBuilder)
    ensures
        builder_rules(b) == Seq::<Seq<char>>::empty(),
{
    GitignoreBuilder::new(root)
}

/// Relies on `GitignoreBuilder::add_line`: parses one gitignore line and
/// appends what it contributes; the root is never touched.  It accepts
/// the line exactly when the line parses; a rejected line contributes
/// nothing.
#[verifier::external_body]
fn builder_add_line(b: &mut GitignoreBuilder, line: &str) -> (r: Result<(), ignore::Error>)
    ensures
        builder_root(*final(b)) == builder_root(*old(b)),
        r is Ok <==> line_parses(line@),
        match r {
            Ok(_) => builder_rules(*final(b)) == builder_rules(*old(b)) + line_rules(line@),
            Err(_) => builder_rules(*final(b)) == builder_rules(*old(b)),
        },
{
    match b.add_line(None, line) {
        Ok(_) => Ok(()),
        Err(e) => Err(e),
    }
}

/// Relies on `GitignoreBuilder::add`: reads an ignore file from disk and
/// adds its lines, leaving the root alone.  What was on disk is unknown,
/// so nothing is promised of the globs afterwards; a missing file adds
/// nothing, and its error is dropped because the caller treats the file
/// as optional.
#[verifier::external_body]
fn builder_add_file(b: &mut GitignoreBuilder, path: &str)
    ensures
        builder_root(*final(b)) == builder_root(*old(b)),
{
    let _ = b.add(path);
}

/// Relies on `GitignoreBuilder::build`: compiles the globs added so far
/// into a matcher carrying the builder's root and globs, and succeeds
/// exactly when that glob set compiles.
#[verifier::external_body]
fn builder_build(b: &GitignoreBuilder) -> (r: Result<Gitignore, ignore::Error>)
    ensures
        r is Ok <==> set_compiles(builder_rules(*b)),
        match r {
            Ok(g) => gitignore_root(g) == builder_root(*b) && gitignore_rules(g) == builder_rules(
                *b,
            ),
            Err(_) => true,
        },
{
    b.build()
}

/// Relies on `Gitignore::matched`: answers whether the compiled rules
/// ignore `rel_path`; the answer depends only on the matcher's root and
/// globs, the path, and whether it is a directory.
#[verifier::external_body]
fn matched_is_ignore(g: &Gitignore, rel_path: &str, is_dir: bool) -> (r: bool)
    ensures
        r == ignore_match(gitignore_root(*g), gitignore_rules(*g), rel_path@, is_dir),
{
    g.matched(rel_path, is_dir).is_ignore()
}

/// The fixed built-in ignore lines, applied after the ignore file's own.
pub open spec fn builtin_list() -> Seq<Seq<char>> {
    seq![".git"@, "target/"@, "node_modules/"@, "*.swp"@, "*.tmp"@, ".DS_Store"@]
}

/// What a sequence of lines contributes, in order.
pub open spec fn lines_rules(lines: Seq<Seq<char>>) -> Seq<Seq<char>>
    decreases lines.len(),
{
    if lines.len() == 0 {
        Seq::empty()
    } else {
        lines_rules(lines.drop_last()) + line_rules(lines.last())
    }
}

/// A pattern the matcher cannot compile; reported at construction,
/// before any watching begins.
#[derive(Clone, Copy, Debug, PartialEq, Eq, Structural)]
pub enum PatternError {
    Malformed,
}

/// A compiled, immutable pattern set; pure and thread-safe once built.
pub struct IgnoreMatcher {
    gi: Gitignore,
}

proof fn lemma_lines_rules_push(lines: Seq<Seq<char>>, line: Seq<char>)
    ensures
        lines_rules(lines.push(line)) == lines_rules(lines) + line_rules(line),
{
    assert(lines.push(line).drop_last() =~= lines);
    assert(lines.push(line).last() == line);
}

impl IgnoreMatcher {
    /// The root the matcher resolves paths against.
    pub closed spec fn root_spec(self) -> Seq<char> {
        gitignore_root(self.gi)
    }

    /// The globs the matcher was compiled from.
    pub closed spec fn rules_spec(self) -> Seq<Seq<char>> {
        gitignore_rules(self.gi)
    }

    /// Compiles caller-supplied patterns alone.  Fails exactly when
    /// some pattern's glob does not parse or the accumulated set does
    /// not compile; with well-formed patterns, construction is owed.
    pub fn from_patterns(root: &str, patterns: &Vec<String>) -> (r: Result<
        IgnoreMatcher,
        PatternError,
    >)
        ensures
            match r {
                Ok(m) => m.rules_spec() == lines_rules(patterns@.map_values(|p: String| p@)),
                Err(_) => true,
            },
            r is Err <==> ((exists|i: int|
                0 <= i < patterns@.len() && !line_parses((#[trigger] patterns@[i])@))
                || !set_compiles(lines_rules(patterns@.map_values(|p: String| p@)))),
    {
        let mut b = new_builder(root);
        let mut i: usize = 0;
        while i < patterns.len()
            invariant
                i <= patterns@.len(),
                builder_rules(b) == lines_rules(
                    patterns@.subrange(0, i as int).map_values(|p: String| p@),
                ),
                forall|k: int| 0 <= k < i ==> line_parses((#[trigger] patterns@[k])@),
            decreases patterns@.len() - i,
        {
            let ghost pre = patterns@.subrange(0, i as int).map_values(|p: String| p@);
            match builder_add_line(&mut b, patterns[i].as_str()) {
                Ok(_) => {},
                Err(_) => {
                    proof {
                        assert(!line_parses(patterns@[i as int]@));
                    }
                    return Err(PatternError::Malformed);
                },
            }
            i += 1;
            proof {
                lemma_lines_rules_push(pre, patterns@[i - 1]@);
                assert(patterns@.subrange(0, i as int).map_values(|p: String| p@) =~= pre.push(
                    patterns@[i - 1]@,
                ));
            }
        }
        proof {
            assert(patterns@.subrange(0, patterns@.len() as int) =~= patterns@);
        }
        match builder_build(&b) {
            Ok(g) => Ok(IgnoreMatcher { gi: g }),
            Err(_) => Err(PatternError::Malformed),
        }
    }

    /// Compiles the layered rule set: the watched directory's ignore
    /// file (whatever it holds, possibly nothing), then the built-in
    /// lines, then the caller's patterns.  Fails only when a built-in
    /// or caller line does not parse, or the accumulated set — the
    /// ignore file's part included — does not compile.
    pub fn with_ignore_file(root: &str, patterns: &Vec<String>) -> (r: Result<
        IgnoreMatcher,
        PatternError,
    >)
        ensures
            match r {
                Ok(m) => (exists|file_part: Seq<Seq<char>>|
                    m.rules_spec() == file_part + lines_rules(builtin_list()) + lines_rules(
                        patterns@.map_values(|p: String| p@),
                    )) && set_compiles(m.rules_spec()) && (forall|i: int|
                    0 <= i < builtin_list().len() ==> line_parses(#[trigger] builtin_list()[i]))
                    && (forall|j: int|
                    0 <= j < patterns@.len() ==> line_parses((#[trigger] patterns@[j])@)),
                Err(_) => (exists|i: int|
                    0 <= i < builtin_list().len() && !line_parses(#[trigger] builtin_list()[i]))
                    || (exists|j: int|
                    0 <= j < patterns@.len() && !line_parses((#[trigger] patterns@[j])@)) || (
                exists|file_part: Seq<Seq<char>>|
                    !set_compiles(
                        file_part + lines_rules(builtin_list()) + lines_rules(
                            patterns@.map_values(|p: String| p@),
                        ),
                    )),
            },
    {
        let mut b = new_builder(root);
        let mut file = String::from_str(root);
        file.append("/.gitignore");
        builder_add_file(&mut b, file.as_str());
        let ghost file_part = builder_rules(b);
        let builtins = builtin_lines();
        let mut i: usize = 0;
        while i < builtins.len()
            invariant
                i <= builtins@.len(),
                builtins@.map_values(|p: &str| p@) == builtin_list(),
                builder_rules(b) == file_part + lines_rules(
                    builtins@.subrange(0, i as int).map_values(|p: &str| p@),
                ),
                forall|k: int| 0 <= k < i ==> line_parses(#[trigger] builtin_list()[k]),
            decreases builtins@.len() - i,
        {
            let ghost pre = builtins@.subrange(0, i as int).map_values(|p: &str| p@);
            match builder_add_line(&mut b, builtins[i]) {
                Ok(_) => {},
                Err(_) => {
                    proof {
                        assert(!line_parses(builtin_list()[i as int]));
                    }
                    return Err(PatternError::Malformed);
                },
            }
            i += 1;
            proof {
                lemma_lines_rules_push(pre, builtins@[i - 1]@);
                assert(builtins@.subrange(0, i as int).map_values(|p: &str| p@) =~= pre.push(
                    builtins@[i - 1]@,
                ));
                assert(builder_rules(b) == file_part + (lines_rules(pre) + line_rules(
                    builtins@[i - 1]@,
                )));
                assert(file_part + (lines_rules(pre) + line_rules(builtins@[i - 1]@)) =~= file_part
                    + lines_rules(pre.push(builtins@[i - 1]@)));
            }
        }
        proof {
            assert(builtins@.subrange(0, builtins@.len() as int) =~= builtins@);
        }
        let mut j: usize = 0;
        while j < patterns.len()
            invariant
                j <= patterns@.len(),
                builder_rules(b) == file_part + lines_rules(builtin_list()) + lines_rules(
                    patterns@.subrange(0, j as int).map_values(|p: String| p@),
                ),
                forall|k: int| 0 <= k < builtin_list().len() ==> line_parses(
                    #[trigger] builtin_list()[k],
                ),
                forall|k: int| 0 <= k < j ==> line_parses((#[trigger] patterns@[k])@),
            decreases patterns@.len() - j,
        {
            let ghost pre = patterns@.subrange(0, j as int).map_values(|p: String| p@);
            match builder_add_line(&mut b, patterns[j].as_str()) {
                Ok(_) => {},
                Err(_) => {
                    proof {
                        assert(!line_parses(patterns@[j as int]@));
                    }
                    return Err(PatternError::Malformed);
                },
            }
            j += 1;
            proof {
                lemma_lines_rules_push(pre, patterns@[j - 1]@);
                assert(patterns@.subrange(0, j as int).map_values(|p: String| p@) =~= pre.push(
                    patterns@[j - 1]@,
                ));
                assert(builder_rules(b) == file_part + lines_rules(builtin_list()) + (lines_rules(
                    pre,
                ) + line_rules(patterns@[j - 1]@)));
                assert(file_part + lines_rules(builtin_list()) + (lines_rules(pre) + line_rules(
                    patterns@[j - 1]@,
                )) =~= file_part + lines_rules(builtin_list()) + lines_rules(
                    pre.push(patterns@[j - 1]@),
                ));
            }
        }
        proof {
            assert(patterns@.subrange(0, patterns@.len() as int) =~= patterns@);
        }
        match builder_build(&b) {
            Ok(g) => Ok(IgnoreMatcher { gi: g }),
            Err(_) => {
                proof {
                    assert(!set_compiles(
                        file_part + lines_rules(builtin_list()) + lines_rules(
                            patterns@.map_values(|p: String| p@),
                        ),
                    ));
                }
                Err(PatternError::Malformed)
            },
        }
    }

    /// Whether the compiled rules ignore `rel_path`, a path relative to
    /// the matcher's root.
    pub fn matches(&self, rel_path: &str, is_dir: bool) -> (r: bool)
        ensures
            r == ignore_match(self.root_spec(), self.rules_spec(), rel_path@, is_dir),
    {
        matched_is_ignore(&self.gi, rel_path, is_dir)
    }
}

fn builtin_lines() -> (r: Vec<&'static str>)
    ensures
        r@.map_values(|p: &str| p@) == builtin_list(),
{
    let mut v: Vec<&'static str> = Vec::new();
    v.push(".git");
    v.push("target/");
    v.push("node_modules/");
    v.push("*.swp");
    v.push("*.tmp");
    v.push(".DS_Store");
    proof {
        assert(v@.map_values(|p: &str| p@) =~= builtin_list());
    }
    v
}

/// Builds the matcher a watcher configuration asks for: the layered set
/// when ignore-file handling is on, the caller's patterns alone when any
/// are given, and no matcher at all otherwise.  A malformed pattern is a
/// configuration error, raised here before any watching begins.
pub fn build_watch_matcher(root: &str, use_ignore_file: bool, patterns: &Vec<String>) -> (r: Result<
    Option<IgnoreMatcher>,
    PatternError,
>)
    ensures
        match r {
            Ok(m) => match m {
                Some(m) => (use_ignore_file || patterns@.len() > 0) && (use_ignore_file ==> ((
                exists|file_part: Seq<Seq<char>>|
                    m.rules_spec() == file_part + lines_rules(builtin_list()) + lines_rules(
                        patterns@.map_values(|p: String| p@),
                    )) && set_compiles(m.rules_spec()))) && (!use_ignore_file ==> m.rules_spec()
                    == lines_rules(patterns@.map_values(|p: String| p@))),
                None => !use_ignore_file && patterns@.len() == 0,
            },
            Err(_) => true,
        },
        r is Ok ==> (forall|j: int|
            0 <= j < patterns@.len() ==> line_parses((#[trigger] patterns@[j])@)),
        !use_ignore_file ==> (r is Err <==> (patterns@.len() > 0 && ((exists|j: int|
            0 <= j < patterns@.len() && !line_parses((#[trigger] patterns@[j])@))
            || !set_compiles(lines_rules(patterns@.map_values(|p: String| p@)))))),
        use_ignore_file ==> (r is Err ==> ((exists|i: int|
            0 <= i < builtin_list().len() && !line_parses(#[trigger] builtin_list()[i])) || (
        exists|j: int|
            0 <= j < patterns@.len() && !line_parses((#[trigger] patterns@[j])@)) || (exists|
        file_part: Seq<Seq<char>>|
            !set_compiles(
                file_part + lines_rules(builtin_list()) + lines_rules(
                    patterns@.map_values(|p: String| p@),
                ),
            )))),
{
    if use_ignore_file {
        match IgnoreMatcher::with_ignore_file(root, patterns) {
            Ok(m) => Ok(Some(m)),
            Err(e) => Err(e),
        }
    } else if patterns.len() > 0 {
        match IgnoreMatcher::from_patterns(root, patterns) {
            Ok(m) => Ok(Some(m)),
            Err(e) => Err(e),
        }
    } else {
        Ok(None)
    }
}

} // verus!
