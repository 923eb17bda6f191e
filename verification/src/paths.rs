//! Path decisions of the build helper.
//!
//! The plugin binary must carry a `.plugin` suffix, which cargo alone cannot
//! produce, so a small helper task renames the built binary.  The decisions
//! that helper makes — which task was asked for, where the target directory
//! is, which file is renamed to what — are computed here from plain values;
//! reading the environment and running the build stay outside the crate.

use vstd::prelude::*;
use vstd::string::StrSliceExecFns;
use vstd::string::StringExecFns;

verus! {

/// What the helper was asked to do.
#[derive(PartialEq, Eq, Structural, Clone, Copy, Debug)]
pub enum XtaskCommand {
    /// Build the plugin binary and give it its proper name.
    Build,
    /// Print usage help (the fallback for anything unrecognized).
    Help,
}

/// Decide the task from the first command-line argument: `build` builds,
/// everything else — another word or no argument at all — prints help.
pub fn parse_task(task: Option<String>) -> (c: XtaskCommand)
    ensures
        c is Build <==> (task matches Option::Some(t) && t@ == "build"@),
{
    match task {
        Option::Some(t) => {
            if t == String::from_str("build") {
                XtaskCommand::Build
            } else {
                XtaskCommand::Help
            }
        },
        Option::None => XtaskCommand::Help,
    }
}

/// Index of the last separator in a path, `-1` when there is none.
pub open spec fn last_slash_spec(s: Seq<char>) -> int
    decreases s.len(),
{
    if s.len() == 0 {
        -1
    } else if s.last() == '/' {
        s.len() - 1
    } else {
        last_slash_spec(s.drop_last())
    }
}

/// The directory one level above `manifest_dir`: everything before the final
/// separator.
pub fn project_root(manifest_dir: &str) -> (r: String)
    requires
        last_slash_spec(manifest_dir@) >= 0,
    ensures
        r@ == manifest_dir@.subrange(0, last_slash_spec(manifest_dir@)),
{
    let n = manifest_dir.unicode_len();
    let mut i: usize = n;
    proof {
        assert(manifest_dir@.subrange(0, n as int) =~= manifest_dir@);
    }
    while i > 0
        invariant
            n == manifest_dir@.len(),
            i <= n,
            last_slash_spec(manifest_dir@) == last_slash_spec(
                manifest_dir@.subrange(0, i as int),
            ),
        decreases i,
    {
        let ghost pre = manifest_dir@.subrange(0, i as int);
        proof {
            assert(pre.drop_last() =~= manifest_dir@.subrange(0, i - 1));
            assert(pre.last() == manifest_dir@[i - 1]);
        }
        if manifest_dir.get_char(i - 1) == '/' {
            let parent = manifest_dir.substring_char(0, i - 1);
            return String::from_str(parent);
        }
        i = i - 1;
    }
    proof {
        assert(manifest_dir@.subrange(0, 0) =~= Seq::<char>::empty());
        assert(false);
    }
    String::new()
}

/// Where build artifacts go: the explicitly configured target directory when
/// one was given, else `target` under the project root.
pub fn target_dir(explicit_target: Option<String>, root: String) -> (r: String)
    ensures
        explicit_target matches Option::Some(p) ==> r == p,
        explicit_target is None ==> r@ == root@ + "/target"@,
{
    match explicit_target {
        Option::Some(p) => p,
        Option::None => root.concat("/target"),
    }
}

/// The rename the helper performs after a release build: the plainly named
/// binary cargo produced, and the `.plugin`-suffixed name it is installed
/// under.
pub fn plugin_artifact_paths(target: &String) -> (r: (String, String))
    ensures
        r.0@ == target@ + "/release/hs110-plugin"@,
        r.1@ == target@ + "/release/hs110.plugin"@,
{
    let built = target.clone().concat("/release/hs110-plugin");
    let installed = target.clone().concat("/release/hs110.plugin");
    (built, installed)
}

} // verus!
