//! Where the `about.toml` configuration is looked for.
//!
//! The lookup starts in the directory of the consuming crate's manifest and
//! walks up one directory at a time. In each directory it probes
//! `about.toml`; the first one that exists, can be read and is accepted as a
//! configuration wins. When the walk runs out of directories the default
//! configuration is used.
//!
//! Reading files is left to the caller: the lookup is a state machine whose
//! [`ConfigLookup::Probe`] step names the file to read, and whose next step is
//! computed from what was read.

use cargo_about::licenses::config::Config;
use toml_span::Deserialize;
use vstd::prelude::*;

verus! {

/// The configuration of the license gathering, as cargo-about defines it.
#[verifier::external_type_specification]
#[verifier::external_body]
pub struct ExConfig(Config);

/// What `camino::Utf8Path::parent` returns for a path.
pub uninterp spec fn spec_path_parent(path: Seq<char>) -> Option<Seq<char>>;

/// What `camino::Utf8Path::join` returns for a base path and a path adjoined to it.
pub uninterp spec fn spec_path_join(base: Seq<char>, path: Seq<char>) -> Seq<char>;

/// Whether `toml_span::parse` followed by cargo-about's `Config::deserialize`
/// accepts a text as a configuration.
pub uninterp spec fn spec_about_toml_accepted(contents: Seq<char>) -> bool;

/// The configuration that `toml_span::parse` followed by cargo-about's
/// `Config::deserialize` gives for a text, where it accepts the text.
pub uninterp spec fn spec_about_toml_config(contents: Seq<char>) -> Config;

/// Calls `camino::Utf8Path::parent`, which returns the path without its final
/// component, or nothing when the path ends in a root or is empty. Claimed:
/// the result is a function of the path alone, and is shorter than the path.
#[verifier::external_body]
fn path_parent(path: &str) -> (parent: Option<String>)
    ensures
        parent.deep_view() == spec_path_parent(path@),
        parent matches Some(p) ==> p@.len() < path@.len(),
{
    camino::Utf8Path::new(path).parent().map(|p| String::from(p.as_str()))
}

/// Calls `camino::Utf8Path::join`, which adjoins `path` to `base` as
/// `PathBuf::push` does. Claimed: the result is a function of both paths.
/// How the two are put together depends on the target's separators and
/// prefixes, and is left to the name.
#[verifier::external_body]
fn path_join(base: &str, path: &str) -> (joined: String)
    ensures
        joined@ == spec_path_join(base@, path@),
{
    camino::Utf8Path::new(base).join(path).into_string()
}

/// Calls `toml_span::parse` on the text and, when it parses, cargo-about's
/// `Config::deserialize` on the value. Claimed: a configuration comes back
/// exactly when the named predicate holds of the text, and it is the named
/// configuration of the text: both are functions of the text alone.
#[verifier::external_body]
fn parse_about_toml(contents: &str) -> (config: Option<Config>)
    ensures
        config is Some <==> spec_about_toml_accepted(contents@),
        config matches Some(c) ==> c == spec_about_toml_config(contents@),
{
    let mut value = toml_span::parse(contents).ok()?;
    Config::deserialize(&mut value).ok()
}

/// A step of the lookup of `about.toml`.
pub enum ConfigLookup {
    /// Read `about_toml` if it exists, and hand what was read to
    /// [`continue_config_lookup`] together with `dir`.
    Probe { dir: String, about_toml: String },
    /// The configuration read from an `about.toml`.
    Found(Config),
    /// No `about.toml` was accepted in any directory: the caller uses the
    /// default configuration.
    Fallback,
}

/// The name of the configuration file probed in each directory.
pub open spec fn spec_about_toml_name() -> Seq<char> {
    "about.toml"@
}

/// The path of the `about.toml` probed in `dir`.
pub open spec fn spec_about_toml_path(dir: Seq<char>) -> Seq<char> {
    spec_path_join(dir, spec_about_toml_name())
}

/// `step` probes `about.toml` in `dir`, or is the fallback when there is no
/// directory left.
pub open spec fn is_probe_of(step: ConfigLookup, dir: Option<Seq<char>>) -> bool {
    match dir {
        Some(d) => step matches ConfigLookup::Probe { dir: next, about_toml } && next@ == d
            && about_toml@ == spec_about_toml_path(d),
        None => step is Fallback,
    }
}

/// `step` is the first step of the lookup for the manifest at `manifest_path`:
/// it probes the manifest's directory, which is shorter than the manifest's
/// path, or falls back when the path has no directory.
pub open spec fn spec_first_step(manifest_path: Seq<char>, step: ConfigLookup) -> bool {
    &&& is_probe_of(step, spec_path_parent(manifest_path))
    &&& step matches ConfigLookup::Probe { dir, .. } ==> dir@.len() < manifest_path.len()
}

/// `step` is the step after probing `dir`, whose `about.toml` held
/// `contents` (nothing when it does not exist or cannot be read): the
/// configuration of the text when it is accepted, otherwise a probe of the
/// parent directory, which is shorter, or the fallback when there is none.
pub open spec fn spec_step_after(dir: Seq<char>, contents: Option<Seq<char>>, step: ConfigLookup) -> bool {
    &&& (step is Found) <==> (contents matches Some(c) && spec_about_toml_accepted(c))
    &&& step matches ConfigLookup::Found(config) ==> (contents matches Some(text) && config
        == spec_about_toml_config(text))
    &&& !(step is Found) ==> is_probe_of(step, spec_path_parent(dir))
    &&& step matches ConfigLookup::Probe { dir: next, .. } ==> next@.len() < dir.len()
}

/// The configuration of the nearest accepted `about.toml` at or above `dir`,
/// where `files` gives the text of each file (nothing when it does not exist
/// or cannot be read); nothing when no such file is accepted. The parent of a
/// directory is always shorter than it (see `path_parent`); the comparison
/// only makes the definition well founded.
pub open spec fn spec_nearest_config(dir: Seq<char>, files: spec_fn(Seq<char>) -> Option<Seq<char>>) -> Option<Config>
    decreases dir.len(),
{
    let text = files(spec_about_toml_path(dir));
    if text is Some && spec_about_toml_accepted(text->0) {
        Some(spec_about_toml_config(text->0))
    } else {
        match spec_path_parent(dir) {
            Some(parent) => if parent.len() < dir.len() {
                spec_nearest_config(parent, files)
            } else {
                None
            },
            None => None,
        }
    }
}

/// The `about.toml` paths that a lookup starting in `dir` may probe, nearest
/// first: the one in `dir`, then the one in each directory above it.
pub open spec fn spec_probed_paths(dir: Seq<char>) -> Seq<Seq<char>>
    decreases dir.len(),
{
    seq![spec_about_toml_path(dir)] + match spec_path_parent(dir) {
        Some(parent) => if parent.len() < dir.len() {
            spec_probed_paths(parent)
        } else {
            Seq::empty()
        },
        None => Seq::empty(),
    }
}

/// What a finished lookup gives: the configuration found, or nothing for the
/// fallback.
pub open spec fn spec_outcome(step: ConfigLookup) -> Option<Config> {
    match step {
        ConfigLookup::Found(config) => Some(config),
        _ => None,
    }
}

/// `steps` is a run of the lookup for the manifest at `manifest_path` over the
/// file texts `files`: it starts with the first step, each probe is followed
/// by the step after it for the text of the probed file, and it ends at the
/// first step that is not a probe.
pub open spec fn is_lookup_run(
    manifest_path: Seq<char>,
    files: spec_fn(Seq<char>) -> Option<Seq<char>>,
    steps: Seq<ConfigLookup>,
) -> bool {
    &&& steps.len() > 0
    &&& spec_first_step(manifest_path, steps[0])
    &&& forall|i: int|
        0 <= i < steps.len() - 1 ==> (#[trigger] steps[i] matches ConfigLookup::Probe {
            dir,
            about_toml,
        } && spec_step_after(dir@, files(about_toml@), steps[i + 1]))
    &&& !(steps.last() is Probe)
}

/// The step that probes `dir`, or the fallback when there is none.
fn probe(dir: Option<String>) -> (step: ConfigLookup)
    ensures
        is_probe_of(step, dir.deep_view()),
{
    match dir {
        Some(dir) => {
            let about_toml = path_join(dir.as_str(), "about.toml");
            ConfigLookup::Probe { dir, about_toml }
        },
        None => ConfigLookup::Fallback,
    }
}

/// The path of the manifest of the crate in `manifest_dir`.
pub fn manifest_toml_path(manifest_dir: &str) -> (path: String)
    ensures
        path@ == spec_path_join(manifest_dir@, "Cargo.toml"@),
{
    path_join(manifest_dir, "Cargo.toml")
}

/// The first step of the lookup: probe the directory that holds the manifest.
pub fn start_config_lookup(manifest_path: &str) -> (step: ConfigLookup)
    ensures
        spec_first_step(manifest_path@, step),
{
    probe(path_parent(manifest_path))
}

/// The step after probing `dir`: `contents` is the text of its `about.toml`,
/// or nothing when that file does not exist or cannot be read. The text is
/// used when it is accepted as a configuration; otherwise the lookup moves on
/// to the parent directory, and falls back when there is none.
pub fn continue_config_lookup(dir: &str, contents: Option<&str>) -> (step: ConfigLookup)
    ensures
        spec_step_after(dir@, contents.deep_view(), step),
        contents is Some && spec_about_toml_accepted(contents->0@) ==> step == ConfigLookup::Found(
            spec_about_toml_config(contents->0@),
        ),
        !(contents matches Some(text) && spec_about_toml_accepted(text@)) ==> !(step is Found),
{
    if let Some(text) = contents {
        if let Some(config) = parse_about_toml(text) {
            return ConfigLookup::Found(config);
        }
    }
    probe(path_parent(dir))
}

/// The part of a run from a probe of `dir` at position `i` onwards ends with
/// the configuration of the nearest accepted `about.toml` at or above `dir`.
proof fn lemma_run_from_probe(
    manifest_path: Seq<char>,
    files: spec_fn(Seq<char>) -> Option<Seq<char>>,
    steps: Seq<ConfigLookup>,
    i: int,
    dir: Seq<char>,
)
    requires
        is_lookup_run(manifest_path, files, steps),
        0 <= i < steps.len(),
        is_probe_of(steps[i], Some(dir)),
    ensures
        spec_outcome(steps.last()) == spec_nearest_config(dir, files),
    decreases steps.len() - i,
{
    if i == steps.len() - 1 {
        assert(!(steps.last() is Probe));
    } else {
        let next = steps[i + 1];
        assert(spec_step_after(dir, files(spec_about_toml_path(dir)), next));
        match next {
            ConfigLookup::Probe { dir: parent, .. } => {
                lemma_run_from_probe(manifest_path, files, steps, i + 1, parent@);
            },
            _ => {
                if i + 1 < steps.len() - 1 {
                    assert(steps[i + 1] is Probe);
                }
                assert(steps[i + 1] == steps.last());
            },
        }
    }
}

/// A whole run of the lookup ends with the configuration of the nearest
/// accepted `about.toml`, searching from the manifest's directory upward, and
/// with the fallback when none is accepted.
pub proof fn lemma_lookup_finds_nearest(
    manifest_path: Seq<char>,
    files: spec_fn(Seq<char>) -> Option<Seq<char>>,
    steps: Seq<ConfigLookup>,
)
    requires
        is_lookup_run(manifest_path, files, steps),
    ensures
        spec_outcome(steps.last()) == match spec_path_parent(manifest_path) {
            Some(dir) => spec_nearest_config(dir, files),
            None => None,
        },
{
    match spec_path_parent(manifest_path) {
        Some(dir) => lemma_run_from_probe(manifest_path, files, steps, 0, dir),
        None => {
            assert(steps[0] is Fallback);
            if steps.len() > 1 {
                assert(steps[0] is Probe);
            }
        },
    }
}

/// Only the `about.toml` files at or above `dir` decide the lookup: two sets
/// of file texts that agree on those files give the same configuration.
pub proof fn lemma_only_probed_paths_matter(
    dir: Seq<char>,
    files1: spec_fn(Seq<char>) -> Option<Seq<char>>,
    files2: spec_fn(Seq<char>) -> Option<Seq<char>>,
)
    requires
        forall|i: int|
            0 <= i < spec_probed_paths(dir).len() ==> files1(#[trigger] spec_probed_paths(dir)[i])
                == files2(spec_probed_paths(dir)[i]),
    ensures
        spec_nearest_config(dir, files1) == spec_nearest_config(dir, files2),
    decreases dir.len(),
{
    let paths = spec_probed_paths(dir);
    assert(paths[0] == spec_about_toml_path(dir));
    if let Some(parent) = spec_path_parent(dir) {
        if parent.len() < dir.len() {
            let rest = spec_probed_paths(parent);
            assert forall|i: int| 0 <= i < rest.len() implies files1(#[trigger] rest[i]) == files2(rest[i]) by {
                assert(paths[i + 1] == rest[i]);
            }
            lemma_only_probed_paths_matter(parent, files1, files2);
        }
    }
}

/// Whatever text the parser and `Config::deserialize` accept, the step after
/// probing a directory whose `about.toml` holds it is that text's
/// configuration: acceptance alone decides, not the text's form.
pub proof fn lemma_accepted_text_is_found(dir: Seq<char>, text: Seq<char>, step: ConfigLookup)
    requires
        spec_step_after(dir, Some(text), step),
        spec_about_toml_accepted(text),
    ensures
        step == ConfigLookup::Found(spec_about_toml_config(text)),
{
}

/// When the text is missing or not accepted, the lookup never stops at that
/// directory: the next step probes the parent directory, or falls back.
pub proof fn lemma_rejected_text_moves_up(dir: Seq<char>, contents: Option<Seq<char>>, step: ConfigLookup)
    requires
        spec_step_after(dir, contents, step),
        !(contents matches Some(text) && spec_about_toml_accepted(text)),
    ensures
        is_probe_of(step, spec_path_parent(dir)),
{
}

/// An accepted `about.toml` in a directory is the nearest one at or above
/// it: its configuration is what the lookup gives, whatever lies above.
pub proof fn lemma_nearest_is_own_accepted(dir: Seq<char>, files: spec_fn(Seq<char>) -> Option<Seq<char>>, text: Seq<char>)
    requires
        files(spec_path_join(dir, "about.toml"@)) == Some(text),
        spec_about_toml_accepted(text),
    ensures
        spec_nearest_config(dir, files) == Some(spec_about_toml_config(text)),
{
}

/// A directory whose `about.toml` is missing or not accepted gives what its
/// parent gives, and nothing when it has no parent.
pub proof fn lemma_nearest_skips_rejected(dir: Seq<char>, files: spec_fn(Seq<char>) -> Option<Seq<char>>)
    requires
        !(files(spec_path_join(dir, "about.toml"@)) matches Some(text) && spec_about_toml_accepted(text)),
    ensures
        spec_path_parent(dir) is None ==> spec_nearest_config(dir, files) is None,
        spec_path_parent(dir) is Some && spec_path_parent(dir)->0.len() < dir.len()
            ==> spec_nearest_config(dir, files) == spec_nearest_config(spec_path_parent(dir)->0, files),
{
}

/// A run of the lookup whose first probed `about.toml` (in the manifest's
/// directory) holds an accepted text ends with that text's configuration.
pub proof fn lemma_run_uses_first_accepted(
    manifest_path: Seq<char>,
    files: spec_fn(Seq<char>) -> Option<Seq<char>>,
    steps: Seq<ConfigLookup>,
    dir: Seq<char>,
    text: Seq<char>,
)
    requires
        is_lookup_run(manifest_path, files, steps),
        spec_path_parent(manifest_path) == Some(dir),
        files(spec_path_join(dir, "about.toml"@)) == Some(text),
        spec_about_toml_accepted(text),
    ensures
        steps.last() == ConfigLookup::Found(spec_about_toml_config(text)),
{
    lemma_lookup_finds_nearest(manifest_path, files, steps);
    lemma_nearest_is_own_accepted(dir, files, text);
    assert(steps[0] is Probe);
    if steps.len() > 1 {
        assert(spec_step_after(dir, Some(text), steps[1]));
        assert(steps[1] is Found);
        if steps.len() > 2 {
            assert(steps[1] is Probe);
        }
        assert(steps[1] == steps.last());
    }
}

/// A probe of a directory names the file `about.toml` in that directory, and
/// the lookup falls back only when there is no directory left.
pub proof fn lemma_probe_names_about_toml(step: ConfigLookup, dir: Option<Seq<char>>)
    requires
        is_probe_of(step, dir),
    ensures
        dir is Some ==> step is Probe && step->dir@ == dir->0 && step->about_toml@ == spec_path_join(
            dir->0,
            "about.toml"@,
        ),
        dir is None ==> step is Fallback,
{
}

} // verus!
