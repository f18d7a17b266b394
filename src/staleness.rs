//! Deciding whether the build must run again, from content fingerprints and
//! the configuration recorded by the previous run.

use vstd::prelude::*;
use crate::config::{RunConfig, RunConfigView, texts};

verus! {

/// The fingerprint that std's `DefaultHasher` gives a text.
pub uninterp spec fn fingerprint_of(s: Seq<char>) -> u64;

/// Relies on `std::hash::Hash for str` fed to
/// `std::collections::hash_map::DefaultHasher::new()`: its keys are fixed, so
/// the result depends on the text alone.
#[verifier::external_body]
pub(crate) fn fingerprint(text: &str) -> (r: u64)
    ensures
        r == fingerprint_of(text@),
{
    let mut hasher = std::collections::hash_map::DefaultHasher::new();
    std::hash::Hash::hash(text, &mut hasher);
    std::hash::Hasher::finish(&hasher)
}

/// What the previous run left behind.
#[derive(Debug)]
pub struct CacheState {
    pub source_fingerprint: Option<u64>,
    pub dependency_fingerprints: Vec<(String, u64)>,
    pub config_snapshot: Option<RunConfig>,
}

pub struct CacheView {
    pub source: Option<u64>,
    pub deps: Set<(Seq<char>, u64)>,
    pub config: Option<RunConfigView>,
}

/// The (path, fingerprint) pairs that a list holds.
pub open spec fn dep_set(s: Seq<(String, u64)>) -> Set<(Seq<char>, u64)> {
    Set::new(
        |p: (Seq<char>, u64)|
            exists|i: int| 0 <= i < s.len() && (#[trigger] s[i]).0@ == p.0 && s[i].1 == p.1,
    )
}

/// The (path, fingerprint) pairs of the dependency files as they are now.
pub open spec fn current_deps(paths: Seq<Seq<char>>, contents: Seq<Seq<char>>) -> Set<
    (Seq<char>, u64),
> {
    Set::new(
        |p: (Seq<char>, u64)|
            exists|i: int|
                0 <= i < paths.len() && #[trigger] paths[i] == p.0 && fingerprint_of(contents[i])
                    == p.1,
    )
}

impl View for CacheState {
    type V = CacheView;

    open spec fn view(&self) -> CacheView {
        CacheView {
            source: self.source_fingerprint,
            deps: dep_set(self.dependency_fingerprints@),
            config: match self.config_snapshot {
                Some(c) => Some(c@),
                None => None,
            },
        }
    }
}

/// Source check: whether the source is unchanged, and the fingerprint to keep.
/// No source file means nothing to compare.
pub open spec fn source_step(old: Option<u64>, source: Option<Seq<char>>) -> (bool, Option<u64>) {
    match source {
        None => (true, old),
        Some(text) => (old == Some(fingerprint_of(text)), Some(fingerprint_of(text))),
    }
}

/// Configuration check: whether it reads as recorded, and the snapshot to keep.
pub open spec fn config_step(old: Option<RunConfigView>, config: RunConfigView) -> (
    bool,
    Option<RunConfigView>,
) {
    (old == Some(config), Some(config))
}

/// Dependency check: untracked dependencies count as unchanged.
pub open spec fn deps_step(
    old: Set<(Seq<char>, u64)>,
    paths: Option<Seq<Seq<char>>>,
    contents: Seq<Seq<char>>,
) -> (bool, Set<(Seq<char>, u64)>) {
    match paths {
        None => (true, old),
        Some(p) => (old == current_deps(p, contents), current_deps(p, contents)),
    }
}

/// Whether a build is needed, and the cache afterwards. Every check runs and
/// records what it found, whatever the others found.
pub open spec fn staleness(
    cache: CacheView,
    config: RunConfigView,
    source: Option<Seq<char>>,
    contents: Seq<Seq<char>>,
    force: bool,
) -> (bool, CacheView) {
    let s = source_step(cache.source, source);
    let c = config_step(cache.config, config);
    let d = deps_step(cache.deps, config.deps_files, contents);
    (force || !(s.0 && c.0 && d.0), CacheView { source: s.1, deps: d.1, config: c.1 })
}

pub open spec fn opt_view(s: Option<&str>) -> Option<Seq<char>> {
    match s {
        Some(t) => Some(t@),
        None => None,
    }
}

impl CacheState {
    /// A cache that remembers nothing.
    pub fn new() -> (r: CacheState)
        ensures
            r@.source is None,
            r@.deps == Set::<(Seq<char>, u64)>::empty(),
            r@.config is None,
    {
        let r = CacheState {
            source_fingerprint: None,
            dependency_fingerprints: Vec::new(),
            config_snapshot: None,
        };
        assert(r@.deps =~= Set::<(Seq<char>, u64)>::empty());
        r
    }

    /// Whether the source text is unchanged; records its fingerprint when not.
    pub fn check_source(&mut self, source: Option<&str>) -> (r: bool)
        ensures
            (r, final(self)@.source) == source_step(old(self)@.source, opt_view(source)),
            final(self)@.deps == old(self)@.deps,
            final(self)@.config == old(self)@.config,
    {
        match source {
            None => true,
            Some(text) => {
                let now = fingerprint(text);
                match self.source_fingerprint {
                    Some(before) if before == now => true,
                    _ => {
                        self.source_fingerprint = Some(now);
                        false
                    },
                }
            },
        }
    }

    /// Whether the configuration reads as recorded; records it when not.
    pub fn check_config(&mut self, config: &RunConfig) -> (r: bool)
        ensures
            (r, final(self)@.config) == config_step(old(self)@.config, config@),
            final(self)@.deps == old(self)@.deps,
            final(self)@.source == old(self)@.source,
    {
        let same = match &self.config_snapshot {
            Some(before) => before.same_as(config),
            None => false,
        };
        if !same {
            self.config_snapshot = Some(config.duplicate());
        }
        same
    }
}

/// Whether `(path, h)` is among the pairs of `v`.
fn contains_pair(v: &Vec<(String, u64)>, path: &String, h: u64) -> (r: bool)
    ensures
        r == dep_set(v@).contains((path@, h)),
{
    let mut i: usize = 0;
    while i < v.len()
        invariant
            0 <= i <= v@.len(),
            forall|j: int| 0 <= j < i ==> !((#[trigger] v@[j]).0@ == path@ && v@[j].1 == h),
        decreases v@.len() - i,
    {
        if v[i].1 == h && v[i].0 == *path {
            assert(dep_set(v@).contains((path@, h)));
            return true;
        }
        i = i + 1;
    }
    false
}

/// Whether every pair of `a` is among those of `b`.
fn pairs_within(a: &Vec<(String, u64)>, b: &Vec<(String, u64)>) -> (r: bool)
    ensures
        r == dep_set(a@).subset_of(dep_set(b@)),
{
    let mut i: usize = 0;
    while i < a.len()
        invariant
            0 <= i <= a@.len(),
            forall|j: int|
                0 <= j < i ==> dep_set(b@).contains(((#[trigger] a@[j]).0@, a@[j].1)),
        decreases a@.len() - i,
    {
        if !contains_pair(b, &a[i].0, a[i].1) {
            assert(dep_set(a@).contains((a@[i as int].0@, a@[i as int].1)));
            return false;
        }
        i = i + 1;
    }
    assert forall|p: (Seq<char>, u64)| dep_set(a@).contains(p) implies dep_set(b@).contains(p) by {
        let j = choose|j: int| 0 <= j < a@.len() && (#[trigger] a@[j]).0@ == p.0 && a@[j].1 == p.1;
    }
    true
}

/// The (path, fingerprint) pairs of the dependency files.
fn current_pairs(paths: &Vec<String>, contents: &Vec<String>) -> (r: Vec<(String, u64)>)
    requires
        paths@.len() == contents@.len(),
    ensures
        dep_set(r@) == current_deps(texts(paths@), texts(contents@)),
{
    let mut out: Vec<(String, u64)> = Vec::new();
    let mut i: usize = 0;
    while i < paths.len()
        invariant
            0 <= i <= paths@.len(),
            paths@.len() == contents@.len(),
            out@.len() == i,
            forall|j: int|
                0 <= j < i ==> (#[trigger] out@[j]).0@ == paths@[j]@ && out@[j].1
                    == fingerprint_of(contents@[j]@),
        decreases paths@.len() - i,
    {
        let h = fingerprint(contents[i].as_str());
        out.push((paths[i].clone(), h));
        i = i + 1;
    }
    let ghost cur = current_deps(texts(paths@), texts(contents@));
    assert forall|p: (Seq<char>, u64)| dep_set(out@).contains(p) <==> cur.contains(p) by {
        if dep_set(out@).contains(p) {
            let j = choose|j: int| 0 <= j < out@.len() && (#[trigger] out@[j]).0@ == p.0 && out@[j].1 == p.1;
            assert(texts(paths@)[j] == p.0);
        }
        if cur.contains(p) {
            let j = choose|j: int|
                0 <= j < texts(paths@).len() && #[trigger] texts(paths@)[j] == p.0
                    && fingerprint_of(texts(contents@)[j]) == p.1;
            assert(out@[j].0@ == p.0);
        }
    }
    assert(dep_set(out@) =~= cur);
    out
}

impl CacheState {
    /// Whether the listed dependency files are unchanged: the same paths with
    /// the same fingerprints. Records the new set when not. `contents` holds
    /// the text of each listed file, in order.
    pub fn check_deps(&mut self, paths: &Option<Vec<String>>, contents: &Vec<String>) -> (r: bool)
        requires
            paths is Some ==> paths->Some_0@.len() == contents@.len(),
        ensures
            (r, final(self)@.deps) == deps_step(
                old(self)@.deps,
                crate::config::opt_texts(*paths),
                texts(contents@),
            ),
            final(self)@.source == old(self)@.source,
            final(self)@.config == old(self)@.config,
    {
        match paths {
            None => true,
            Some(p) => {
                let now = current_pairs(p, contents);
                let same = pairs_within(&now, &self.dependency_fingerprints) && pairs_within(
                    &self.dependency_fingerprints,
                    &now,
                );
                proof {
                    if same {
                        assert(dep_set(now@) =~= dep_set(self.dependency_fingerprints@));
                    }
                }
                if !same {
                    self.dependency_fingerprints = now;
                }
                same
            },
        }
    }

    /// Whether the build must run: always when `force` is set, otherwise when
    /// the source text, the configuration or the dependency files differ from
    /// what was recorded. Each check records what differs, whatever the others
    /// found. `source` is the text of the source file, if there is one;
    /// `contents` the text of each listed dependency file, in order.
    pub fn needs_build(
        &mut self,
        config: &RunConfig,
        source: Option<&str>,
        contents: &Vec<String>,
        force: bool,
    ) -> (r: bool)
        requires
            config.deps_files is Some ==> config.deps_files->Some_0@.len() == contents@.len(),
        ensures
            (r, final(self)@) == staleness(
                old(self)@,
                config@,
                opt_view(source),
                texts(contents@),
                force,
            ),
    {
        let same_source = self.check_source(source);
        let same_config = self.check_config(config);
        let same_deps = self.check_deps(&config.deps_files, contents);
        force || !(same_source && same_config && same_deps)
    }
}

/// Once `needs_build` has run, a second run on the same source, dependency
/// texts and configuration finds nothing to rebuild unless it is forced.
pub proof fn lemma_needs_build_settles(
    cache: CacheView,
    config: RunConfigView,
    source: Option<Seq<char>>,
    contents: Seq<Seq<char>>,
    force: bool,
)
    ensures
        staleness(
            staleness(cache, config, source, contents, force).1,
            config,
            source,
            contents,
            false,
        ).0 == false,
{
}

} // verus!
