//! The ignore filter: user-supplied glob patterns compiled once at
//! subscription creation, then queried per path.  A path is checked both
//! root-relative and absolute; either match excludes it.
//!
//! Pattern compilation and matching are done by the `globset` crate behind
//! the trusted declarations below; the dual-check logic and the prefix
//! stripping are verified here.

use vstd::prelude::*;

verus! {

use crate::errors::WatchError;

#[verifier::external_type_specification]
#[verifier::external_body]
pub struct ExGlob(globset::Glob);

#[verifier::external_type_specification]
#[verifier::external_body]
pub struct ExGlobSet(globset::GlobSet);

#[verifier::external_type_specification]
#[verifier::external_body]
pub struct ExGlobSetBuilder(globset::GlobSetBuilder);

#[verifier::external_type_specification]
#[verifier::external_body]
pub struct ExGlobError(globset::Error);

/// Whether a pattern is valid glob syntax: the outcome of parsing it,
/// which depends on the pattern text alone.
pub uninterp spec fn glob_compiles(pattern: Seq<char>) -> bool;

/// The pattern text a compiled glob holds.
pub uninterp spec fn glob_pattern(g: globset::Glob) -> Seq<char>;

/// The pattern texts a glob-set builder holds, in insertion order.
pub uninterp spec fn builder_patterns(b: globset::GlobSetBuilder) -> Seq<Seq<char>>;

/// The pattern texts a built glob set holds, in insertion order.
pub uninterp spec fn set_patterns(s: globset::GlobSet) -> Seq<Seq<char>>;

/// Whether one glob pattern matches one path: the outcome of the match,
/// which depends on the pattern and the path alone.
pub uninterp spec fn glob_matches(pattern: Seq<char>, path: Seq<char>) -> bool;

/// Whether the build step assembles a matcher from these pattern texts:
/// the outcome of building the compiled globs into one set, which depends
/// on the patterns alone.
pub uninterp spec fn set_builds(patterns: Seq<Seq<char>>) -> bool;

/// Whether any pattern of the set matches the path.
pub open spec fn spec_any_match(patterns: Seq<Seq<char>>, path: Seq<char>) -> bool {
    exists|i: int| 0 <= i < patterns.len() && glob_matches(patterns[i], path)
}

/// Relies on globset::Glob::new: parsing is a pure function of the pattern
/// text under globset's default options, and the compiled glob keeps that
/// text.  The defaults are fixed per build target (backslash escaping is
/// platform-conditional), so the named outcomes are per-target constants.
#[verifier::external_body]
fn glob_new(pattern: &str) -> (r: Result<globset::Glob, globset::Error>)
    ensures
        r is Ok <==> glob_compiles(pattern@),
        r is Ok ==> glob_pattern(r->Ok_0) == pattern@,
{
    globset::Glob::new(pattern)
}

/// Relies on globset::GlobSetBuilder::new: a fresh builder holds no
/// patterns.
#[verifier::external_body]
fn glob_set_builder_new() -> (b: globset::GlobSetBuilder)
    ensures
        builder_patterns(b) == Seq::<Seq<char>>::empty(),
{
    globset::GlobSetBuilder::new()
}

/// Relies on globset::GlobSetBuilder::add: the glob is appended to the
/// builder's patterns.
#[verifier::external_body]
fn glob_set_builder_add(b: &mut globset::GlobSetBuilder, g: globset::Glob)
    ensures
        builder_patterns(*final(b)) == builder_patterns(*old(b)).push(glob_pattern(g)),
{
    b.add(g);
}

/// Relies on globset::GlobSetBuilder::build: whether the set builds is a
/// function of the patterns alone, and on success the set holds exactly
/// the builder's patterns.
#[verifier::external_body]
fn glob_set_build(b: &globset::GlobSetBuilder) -> (r: Result<globset::GlobSet, globset::Error>)
    ensures
        r is Ok <==> set_builds(builder_patterns(*b)),
        r is Ok ==> set_patterns(r->Ok_0) == builder_patterns(*b),
{
    b.build()
}

/// Relies on globset::GlobSet::is_match: true exactly when some glob of
/// the set matches the path.
#[verifier::external_body]
fn glob_set_is_match(s: &globset::GlobSet, path: &str) -> (r: bool)
    ensures
        r == (exists|i: int|
            0 <= i < set_patterns(*s).len() && glob_matches(set_patterns(*s)[i], path@)),
{
    s.is_match(path)
}

/// Relies on globset::Error's Display impl for the descriptive text of a
/// pattern or build failure.
#[verifier::external_body]
fn glob_error_message(e: &globset::Error) -> (r: String) {
    e.to_string()
}

/// A compiled, immutable set of ignore patterns.  Compilation is
/// all-or-nothing: a value of this type exists only if every pattern
/// compiled.
pub struct IgnoreFilter {
    set: globset::GlobSet,
}

impl IgnoreFilter {
    /// The pattern texts this filter was compiled from.
    pub closed spec fn patterns(&self) -> Seq<Seq<char>> {
        set_patterns(self.set)
    }
}

/// The views of a list of pattern strings.
pub open spec fn views_of(patterns: Seq<String>) -> Seq<Seq<char>> {
    patterns.map_values(|p: String| p@)
}

/// Whether every pattern of the list is valid glob syntax.
pub open spec fn all_compile(patterns: Seq<Seq<char>>) -> bool {
    forall|i: int| 0 <= i < patterns.len() ==> glob_compiles(#[trigger] patterns[i])
}

/// Compiles the ignore patterns into one matcher.  Atomic: on any invalid
/// pattern the first offending one is reported and no matcher exists.
pub fn build_glob_set(patterns: &Vec<String>) -> (r: Result<IgnoreFilter, WatchError>)
    ensures
        r is Ok ==> r->Ok_0.patterns() == views_of(patterns@) && all_compile(views_of(patterns@)),
        r matches Err(e) ==> (e matches WatchError::InvalidPattern { pattern, detail } ==> {
            &&& !glob_compiles(pattern@)
            &&& exists|i: int|
                0 <= i < patterns@.len() && patterns@[i]@ == pattern@ && (forall|j: int|
                    0 <= j < i ==> glob_compiles(#[trigger] patterns@[j]@))
        }),
        !all_compile(views_of(patterns@)) ==> r matches Err(WatchError::InvalidPattern { .. }),
        all_compile(views_of(patterns@)) ==> (r is Ok <==> set_builds(views_of(patterns@))),
        all_compile(views_of(patterns@)) ==> r is Ok || r matches Err(
            WatchError::GlobBuildFailed { .. },
        ),
{
    let ghost views = views_of(patterns@);
    let mut builder = glob_set_builder_new();
    let mut i: usize = 0;
    while i < patterns.len()
        invariant
            i <= patterns@.len(),
            views == views_of(patterns@),
            builder_patterns(builder) == views.subrange(0, i as int),
            forall|j: int| 0 <= j < i ==> glob_compiles(#[trigger] patterns@[j]@),
        decreases patterns@.len() - i,
    {
        match glob_new(patterns[i].as_str()) {
            Ok(g) => {
                glob_set_builder_add(&mut builder, g);
                proof {
                    assert(views.subrange(0, i + 1) =~= views.subrange(0, i as int).push(
                        patterns@[i as int]@,
                    ));
                }
            },
            Err(e) => {
                proof {
                    assert(views[i as int] == patterns@[i as int]@);
                    assert(!all_compile(views));
                }
                let detail = glob_error_message(&e);
                return Err(
                    WatchError::InvalidPattern { pattern: patterns[i].clone(), detail },
                );
            },
        }
        i += 1;
    }
    proof {
        assert(views.subrange(0, patterns@.len() as int) =~= views);
    }
    match glob_set_build(&builder) {
        Ok(set) => Ok(IgnoreFilter { set }),
        Err(e) => Err(WatchError::GlobBuildFailed { detail: glob_error_message(&e) }),
    }
}

/// The root-relative form of a path: the remainder after the root and one
/// separator, the empty sequence if the path is the root itself, nothing
/// if the path does not lie under the root.  Paths are modeled with `/` as
/// the separator.
pub open spec fn spec_strip_root(root: Seq<char>, path: Seq<char>) -> Option<Seq<char>> {
    if path == root {
        Some(Seq::<char>::empty())
    } else if path.len() > root.len() && path.subrange(0, root.len() as int) == root && path[
        root.len() as int
    ] == '/' {
        Some(path.subrange(root.len() as int + 1, path.len() as int))
    } else {
        None
    }
}

/// Strips the watch root from a path, yielding the root-relative form when
/// the path lies under the root.
pub fn strip_root<'a>(root: &str, path: &'a str) -> (r: Option<&'a str>)
    ensures
        match r {
            Some(rel) => spec_strip_root(root@, path@) == Some(rel@),
            None => spec_strip_root(root@, path@) is None,
        },
{
    let rlen = root.unicode_len();
    let plen = path.unicode_len();
    if plen < rlen {
        return None;
    }
    let mut i: usize = 0;
    while i < rlen
        invariant
            rlen == root@.len(),
            plen == path@.len(),
            rlen <= plen,
            i <= rlen,
            forall|j: int| 0 <= j < i ==> path@[j] == root@[j],
        decreases rlen - i,
    {
        if path.get_char(i) != root.get_char(i) {
            proof {
                assert(path@ == root@ ==> path@[i as int] == root@[i as int]);
                assert(path@.subrange(0, rlen as int) == root@ ==> path@.subrange(0, rlen as int)[i as int]
                    == root@[i as int]);
                assert(path@.subrange(0, rlen as int)[i as int] == path@[i as int]);
            }
            return None;
        }
        i += 1;
    }
    if plen == rlen {
        proof {
            assert(path@ =~= root@);
        }
        let rel = path.substring_char(plen, plen);
        proof {
            assert(rel@ =~= Seq::<char>::empty());
        }
        return Some(rel);
    }
    proof {
        assert(path@.subrange(0, rlen as int) =~= root@);
        assert(path@ != root@) by {
            assert(path@.len() != root@.len());
        }
    }
    if path.get_char(rlen) == '/' {
        let rel = path.substring_char(rlen + 1, plen);
        Some(rel)
    } else {
        None
    }
}

/// Whether the path is excluded: it matches some pattern in its
/// root-relative form, or matches some pattern as given.
pub open spec fn spec_ignored(patterns: Seq<Seq<char>>, root: Seq<char>, path: Seq<char>) -> bool {
    ||| (spec_strip_root(root, path) matches Some(rel) && spec_any_match(patterns, rel))
    ||| spec_any_match(patterns, path)
}

/// Checks a path against the filter, first made relative to the watch root
/// (when that strip succeeds), then as given; either match excludes it.
pub fn should_ignore(path: &str, filter: &IgnoreFilter, root: &str) -> (r: bool)
    ensures
        r == spec_ignored(filter.patterns(), root@, path@),
{
    match strip_root(root, path) {
        Some(rel) => {
            if glob_set_is_match(&filter.set, rel) {
                return true;
            }
        },
        None => {},
    }
    glob_set_is_match(&filter.set, path)
}

/// A match on either form of the path is enough to exclude it: whichever
/// of the two checks succeeds, the path counts as ignored.
pub proof fn lemma_filter_symmetry(patterns: Seq<Seq<char>>, root: Seq<char>, path: Seq<char>)
    requires
        (spec_strip_root(root, path) matches Some(rel) && spec_any_match(patterns, rel))
            || spec_any_match(patterns, path),
    ensures
        spec_ignored(patterns, root, path),
{
}

} // verus!

