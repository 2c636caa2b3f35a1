//! Resolving the state from the snapshot itself: the governing file by a
//! walk up the directories, the loaded file from the environment, and the
//! status of each from the markers of the permission store.

use crate::context::{join_path, spec_join_path, string_views, Context, ContextView};
use crate::fingerprint::{allow_hash, deny_hash, spec_allow_hash, spec_deny_hash};
use crate::state::{state_result_view, DirenvState, DirenvStateView};
use crate::status::AllowStatus;
use vstd::prelude::*;
use vstd::string::*;

verus! {

/// Why a state could not be resolved.
#[derive(Debug, Clone, Copy, PartialEq, Eq, Structural)]
pub enum ResolveError {
    /// A configuration file is there, or is named as loaded, and cannot be
    /// read.
    UnreadableFile,
}

impl ResolveError {
    /// The text that describes the error.
    pub open spec fn spec_message(self) -> Seq<char> {
        "unreadable configuration file"@
    }

    /// The text that describes the error.
    pub fn message(&self) -> (r: &'static str)
        ensures
            r@ == self.spec_message(),
    {
        "unreadable configuration file"
    }
}

/// The directory of the allow markers.
pub open spec fn spec_allow_dir(home: Seq<char>) -> Seq<char> {
    spec_join_path(home, ".local/share/direnv/allow"@)
}

/// The directory of the deny markers.
pub open spec fn spec_deny_dir(home: Seq<char>) -> Seq<char> {
    spec_join_path(home, ".local/share/direnv/deny"@)
}

/// The allow marker of a file with the given content.
pub open spec fn spec_allow_marker(home: Seq<char>, path: Seq<char>, content: Seq<u8>) -> Seq<
    char,
> {
    spec_join_path(spec_allow_dir(home), spec_allow_hash(path, content))
}

/// The deny marker of a path.
pub open spec fn spec_deny_marker(home: Seq<char>, path: Seq<char>) -> Seq<char> {
    spec_join_path(spec_deny_dir(home), spec_deny_hash(path))
}

/// The status that the markers under two names give: allowed where the
/// allow marker exists, whatever else does; denied where only the deny
/// marker exists; not allowed where neither does.
pub open spec fn spec_status_from_markers(
    ctx: ContextView,
    allow_name: Seq<char>,
    deny_name: Seq<char>,
) -> AllowStatus {
    if ctx.files.contains_key(spec_join_path(spec_allow_dir(ctx.home_dir), allow_name)) {
        AllowStatus::Allowed
    } else if ctx.files.contains_key(spec_join_path(spec_deny_dir(ctx.home_dir), deny_name)) {
        AllowStatus::Denied
    } else {
        AllowStatus::NotAllowed
    }
}

/// The status of a file: none for no file, an error for a file that cannot
/// be read, else what the markers under its two fingerprints give.
pub open spec fn spec_rc_allowed(ctx: ContextView, path: Option<Seq<char>>) -> Result<
    Option<AllowStatus>,
    ResolveError,
> {
    match path {
        None => Ok(None),
        Some(p) => match ctx.read(p) {
            None => Err(ResolveError::UnreadableFile),
            Some(content) => Ok(
                Some(spec_status_from_markers(ctx, spec_allow_hash(p, content), spec_deny_hash(p))),
            ),
        },
    }
}

/// The configuration file that a directory would hold.
pub open spec fn spec_rc_candidate(dir: Seq<char>) -> Seq<char> {
    spec_join_path(dir, ".envrc"@)
}

/// The configuration file of the first of the directories that holds one.
pub open spec fn spec_find_rc_in(
    files: Map<Seq<char>, Option<Seq<u8>>>,
    dirs: Seq<Seq<char>>,
) -> Option<Seq<char>>
    decreases dirs.len(),
{
    if dirs.len() == 0 {
        None
    } else if files.contains_key(spec_rc_candidate(dirs[0])) {
        Some(spec_rc_candidate(dirs[0]))
    } else {
        spec_find_rc_in(files, dirs.drop_first())
    }
}

/// The governing file: that of the nearest directory, from the working
/// directory upwards, that holds one.
pub open spec fn spec_find_rc(ctx: ContextView) -> Option<Seq<char>> {
    spec_find_rc_in(ctx.files, ctx.ancestors)
}

/// The loaded file: the value of `DIRENV_FILE` where it is set and not
/// empty. Whether that file exists is not asked.
pub open spec fn spec_loaded_rc(ctx: ContextView) -> Option<Seq<char>> {
    match ctx.get_env("DIRENV_FILE"@) {
        Some(value) => if value.len() > 0 {
            Some(value)
        } else {
            None
        },
        None => None,
    }
}

/// The state that the snapshot resolves to.
pub open spec fn spec_from_env(ctx: ContextView) -> Result<DirenvStateView, ResolveError> {
    let rc_path = spec_find_rc(ctx);
    let loaded_rc_path = spec_loaded_rc(ctx);
    match spec_rc_allowed(ctx, rc_path) {
        Err(e) => Err(e),
        Ok(allowed) => match spec_rc_allowed(ctx, loaded_rc_path) {
            Err(e) => Err(e),
            Ok(loaded_allowed) => Ok(
                DirenvStateView { rc_path, loaded_rc_path, allowed, loaded_allowed },
            ),
        },
    }
}

/// The path of the allow marker of a file with the given content.
pub fn allow_marker(home: &str, path: &str, content: &[u8]) -> (r: String)
    ensures
        r@ == spec_allow_marker(home@, path@, content@),
{
    let dir = join_path(home, ".local/share/direnv/allow");
    let name = allow_hash(path, content);
    join_path(dir.as_str(), name.as_str())
}

/// The path of the deny marker of a path.
pub fn deny_marker(home: &str, path: &str) -> (r: String)
    ensures
        r@ == spec_deny_marker(home@, path@),
{
    let dir = join_path(home, ".local/share/direnv/deny");
    let name = deny_hash(path);
    join_path(dir.as_str(), name.as_str())
}

/// The configuration file that a directory would hold.
pub fn rc_candidate(dir: &str) -> (r: String)
    ensures
        r@ == spec_rc_candidate(dir@),
{
    join_path(dir, ".envrc")
}

/// The status that the markers under two names give.
pub fn status_from_markers(context: &Context, allow_name: &str, deny_name: &str) -> (r:
    AllowStatus)
    ensures
        r == spec_status_from_markers(context@, allow_name@, deny_name@),
{
    let allow_dir = join_path(context.home_dir.as_str(), ".local/share/direnv/allow");
    let allow_file = join_path(allow_dir.as_str(), allow_name);
    if context.contains(allow_file.as_str()) {
        return AllowStatus::Allowed;
    }
    let deny_dir = join_path(context.home_dir.as_str(), ".local/share/direnv/deny");
    let deny_file = join_path(deny_dir.as_str(), deny_name);
    if context.contains(deny_file.as_str()) {
        return AllowStatus::Denied;
    }
    AllowStatus::NotAllowed
}

impl DirenvState {
    /// The status of a configuration file: `Ok(None)` for no file, an error
    /// for a file that cannot be read.
    pub fn is_rc_allowed(context: &Context, path: Option<&String>) -> (r: Result<
        Option<AllowStatus>,
        ResolveError,
    >)
        ensures
            r == spec_rc_allowed(context@, path.deep_view()),
    {
        let file_name = match path {
            None => { return Ok(None); },
            Some(p) => p,
        };
        let bytes = match context.read(file_name.as_str()) {
            None => { return Err(ResolveError::UnreadableFile); },
            Some(bytes) => bytes,
        };
        let allow_name = allow_hash(file_name.as_str(), bytes.as_slice());
        let deny_name = deny_hash(file_name.as_str());
        Ok(Some(status_from_markers(context, allow_name.as_str(), deny_name.as_str())))
    }

    /// The governing file of the snapshot.
    pub fn find_rc(context: &Context) -> (r: Option<String>)
        ensures
            r.deep_view() == spec_find_rc(context@),
    {
        let ghost dirs = string_views(context.ancestors@);
        let ghost files = context@.files;
        let mut i: usize = 0;
        assert(dirs.skip(0) == dirs);
        while i < context.ancestors.len()
            invariant
                i <= context.ancestors.len(),
                dirs == string_views(context.ancestors@),
                files == context@.files,
                spec_find_rc_in(files, dirs) == spec_find_rc_in(files, dirs.skip(i as int)),
            decreases context.ancestors.len() - i,
        {
            let maybe_path = rc_candidate(context.ancestors[i].as_str());
            proof {
                assert(dirs.skip(i as int)[0] == context.ancestors@[i as int]@);
                assert(dirs.skip(i as int).drop_first() == dirs.skip(i + 1));
            }
            if context.contains(maybe_path.as_str()) {
                return Some(maybe_path);
            }
            i += 1;
        }
        None
    }

    /// The loaded file of the snapshot.
    pub fn loaded_rc(context: &Context) -> (r: Option<String>)
        ensures
            r.deep_view() == spec_loaded_rc(context@),
    {
        match context.get_env("DIRENV_FILE") {
            Some(value) => {
                if !value.as_str().is_empty() {
                    Some(value.clone())
                } else {
                    None
                }
            },
            None => None,
        }
    }

    /// Resolves the state from the snapshot: the governing file, the loaded
    /// file, and the status of each.
    pub fn from_env(context: &Context) -> (r: Result<DirenvState, ResolveError>)
        ensures
            state_result_view(r) == spec_from_env(context@),
    {
        let rc_path = DirenvState::find_rc(context);
        let loaded_rc_path = DirenvState::loaded_rc(context);
        let allowed = match DirenvState::is_rc_allowed(context, rc_path.as_ref()) {
            Ok(a) => a,
            Err(e) => { return Err(e); },
        };
        let loaded_allowed = match DirenvState::is_rc_allowed(context, loaded_rc_path.as_ref()) {
            Ok(a) => a,
            Err(e) => { return Err(e); },
        };
        Ok(DirenvState { rc_path, loaded_rc_path, allowed, loaded_allowed })
    }
}

} // verus!
