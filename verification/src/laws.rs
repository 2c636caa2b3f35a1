//! What holds of the library as a whole, stated over the same spec
//! functions as the contracts and proved from them.

use crate::context::{Context, ContextView};
use crate::config::DirenvConfigView;
use crate::raw::StateView;
use crate::render::{spec_display, spec_module, spec_reported, spec_state, spec_tokens};
use crate::resolve::{
    spec_allow_marker, spec_deny_marker, spec_find_rc, spec_find_rc_in, spec_from_env,
    spec_loaded_rc, spec_rc_allowed, spec_rc_candidate, ResolveError,
};
use crate::state::{spec_from_lines, spec_from_raw, state_result_view, DirenvState, DirenvStateView};
use crate::status::{AllowStatus, ParseError};
use vstd::prelude::*;

verus! {

/// Whether none of the directories holds a configuration file.
pub open spec fn no_rc_in(files: Map<Seq<char>, Option<Seq<u8>>>, dirs: Seq<Seq<char>>) -> bool {
    forall|j: int| 0 <= j < dirs.len() ==> !files.contains_key(spec_rc_candidate(#[trigger] dirs[j]))
}

proof fn lemma_find_rc_in_nearest(
    files: Map<Seq<char>, Option<Seq<u8>>>,
    dirs: Seq<Seq<char>>,
    i: int,
)
    requires
        0 <= i < dirs.len(),
        files.contains_key(spec_rc_candidate(dirs[i])),
        no_rc_in(files, dirs.take(i)),
    ensures
        spec_find_rc_in(files, dirs) == Some(spec_rc_candidate(dirs[i])),
    decreases dirs.len(),
{
    if i > 0 {
        let rest = dirs.drop_first();
        assert(dirs.take(i)[0] == dirs[0]);
        assert forall|j: int| 0 <= j < i - 1 implies !files.contains_key(
            spec_rc_candidate(#[trigger] rest.take(i - 1)[j]),
        ) by {
            assert(rest.take(i - 1)[j] == dirs.take(i)[j + 1]);
        }
        lemma_find_rc_in_nearest(files, rest, i - 1);
    }
}

proof fn lemma_find_rc_in_none(files: Map<Seq<char>, Option<Seq<u8>>>, dirs: Seq<Seq<char>>)
    requires
        no_rc_in(files, dirs),
    ensures
        spec_find_rc_in(files, dirs) is None,
    decreases dirs.len(),
{
    if dirs.len() > 0 {
        let rest = dirs.drop_first();
        assert(!files.contains_key(spec_rc_candidate(dirs[0])));
        assert forall|j: int| 0 <= j < rest.len() implies !files.contains_key(
            spec_rc_candidate(#[trigger] rest[j]),
        ) by {
            assert(rest[j] == dirs[j + 1]);
        }
        lemma_find_rc_in_none(files, rest);
    }
}

/// The governing file is that of the nearest directory that holds one:
/// where directory `i` of the walk holds a configuration file and none
/// before it does, that file is the governing file, and it is the
/// `rc_path` of every state resolved from the snapshot.
pub proof fn lemma_governing_file_is_nearest(ctx: ContextView, i: int)
    requires
        0 <= i < ctx.ancestors.len(),
        ctx.files.contains_key(spec_rc_candidate(ctx.ancestors[i])),
        no_rc_in(ctx.files, ctx.ancestors.take(i)),
    ensures
        spec_find_rc(ctx) == Some(spec_rc_candidate(ctx.ancestors[i])),
        spec_from_env(ctx) matches Ok(state) ==> state.rc_path == Some(
            spec_rc_candidate(ctx.ancestors[i]),
        ),
{
    lemma_find_rc_in_nearest(ctx.files, ctx.ancestors, i);
}

/// Where no directory of the walk holds a configuration file, there is no
/// governing file, and no state resolved from the snapshot has an
/// `rc_path`.
pub proof fn lemma_no_governing_file(ctx: ContextView)
    requires
        no_rc_in(ctx.files, ctx.ancestors),
    ensures
        spec_find_rc(ctx) is None,
        spec_from_env(ctx) matches Ok(state) ==> state.rc_path is None,
{
    lemma_find_rc_in_none(ctx.files, ctx.ancestors);
}

/// Every snapshot falls under one of the two laws above: either some
/// directory holds a configuration file and none before it does, or none
/// holds one.
pub proof fn lemma_governing_file_cases(ctx: ContextView)
    ensures
        match spec_find_rc(ctx) {
            Some(path) => exists|i: int|
                0 <= i < ctx.ancestors.len() && path == spec_rc_candidate(
                    #[trigger] ctx.ancestors[i],
                ) && ctx.files.contains_key(path) && no_rc_in(ctx.files, ctx.ancestors.take(i)),
            None => no_rc_in(ctx.files, ctx.ancestors),
        },
{
    lemma_find_rc_in_cases(ctx.files, ctx.ancestors);
}

proof fn lemma_find_rc_in_cases(files: Map<Seq<char>, Option<Seq<u8>>>, dirs: Seq<Seq<char>>)
    ensures
        match spec_find_rc_in(files, dirs) {
            Some(path) => exists|i: int|
                0 <= i < dirs.len() && path == spec_rc_candidate(#[trigger] dirs[i])
                    && files.contains_key(path) && no_rc_in(files, dirs.take(i)),
            None => no_rc_in(files, dirs),
        },
    decreases dirs.len(),
{
    if dirs.len() == 0 {
    } else if files.contains_key(spec_rc_candidate(dirs[0])) {
        assert(dirs.take(0).len() == 0);
        assert(no_rc_in(files, dirs.take(0)));
    } else {
        let rest = dirs.drop_first();
        lemma_find_rc_in_cases(files, rest);
        match spec_find_rc_in(files, rest) {
            Some(path) => {
                let i = choose|i: int|
                    0 <= i < rest.len() && path == spec_rc_candidate(#[trigger] rest[i])
                        && files.contains_key(path) && no_rc_in(files, rest.take(i));
                assert(dirs[i + 1] == rest[i]);
                assert forall|j: int| 0 <= j < i + 1 implies !files.contains_key(
                    spec_rc_candidate(#[trigger] dirs.take(i + 1)[j]),
                ) by {
                    if j > 0 {
                        assert(dirs.take(i + 1)[j] == rest.take(i)[j - 1]);
                    }
                }
            },
            None => {
                assert forall|j: int| 0 <= j < dirs.len() implies !files.contains_key(
                    spec_rc_candidate(#[trigger] dirs[j]),
                ) by {
                    if j > 0 {
                        assert(dirs[j] == rest[j - 1]);
                    }
                }
            },
        }
    }
}

/// Without a governing file and without a loaded one, resolution gives the
/// state in which nothing is known, and nothing is displayed for it. A
/// snapshot whose status report gives no state then displays nothing.
pub proof fn lemma_nothing_found_nothing_shown(ctx: ContextView)
    requires
        no_rc_in(ctx.files, ctx.ancestors),
        spec_loaded_rc(ctx) is None,
    ensures
        spec_from_env(ctx) == Ok::<DirenvStateView, ResolveError>(DirenvStateView::unknown()),
        spec_display(DirenvStateView::unknown(), ctx.config) is None,
        spec_reported(ctx) is None ==> spec_module(ctx) is None,
{
    lemma_find_rc_in_none(ctx.files, ctx.ancestors);
}

/// A variable that is not set, or is set to the empty text, names no
/// loaded file.
pub proof fn lemma_loaded_file_needs_a_value(ctx: ContextView)
    ensures
        spec_loaded_rc(ctx) is None <==> (ctx.get_env("DIRENV_FILE"@) matches Some(v) ==> v.len()
            == 0),
        spec_loaded_rc(ctx) matches Some(p) ==> ctx.get_env("DIRENV_FILE"@) == Some(p),
{
}

/// Something is displayed exactly for the states that have a governing or
/// a loaded file.
pub proof fn lemma_display_iff_applicable(state: DirenvStateView, config: DirenvConfigView)
    ensures
        spec_display(state, config) is Some <==> state.applicable(),
        spec_display(state, config) is None <==> (state.rc_path is None && state.loaded_rc_path
            is None),
        spec_display(state, config) matches Some(m) ==> m == spec_tokens(state, config),
{
}

/// Each of the codes 0, 1 and 2 stands for one status, and the three
/// differ; every other code is an error. Each of the tokens `0`, `true`,
/// `1`, `2`, `false` stands for one status; every other token is an
/// error. A code and its decimal token stand for the same status.
pub proof fn lemma_allow_codes(u: u8, token: Seq<char>)
    ensures
        AllowStatus::spec_from_code(0) == Ok::<AllowStatus, ParseError>(AllowStatus::Allowed),
        AllowStatus::spec_from_code(1) == Ok::<AllowStatus, ParseError>(AllowStatus::NotAllowed),
        AllowStatus::spec_from_code(2) == Ok::<AllowStatus, ParseError>(AllowStatus::Denied),
        u > 2 ==> AllowStatus::spec_from_code(u) == Err::<AllowStatus, ParseError>(
            ParseError::UnknownIntegerAllowStatus,
        ),
        AllowStatus::spec_from_token("0"@) == AllowStatus::spec_from_code(0),
        AllowStatus::spec_from_token("true"@) == AllowStatus::spec_from_code(0),
        AllowStatus::spec_from_token("1"@) == AllowStatus::spec_from_code(1),
        AllowStatus::spec_from_token("2"@) == AllowStatus::spec_from_code(2),
        AllowStatus::spec_from_token("false"@) == AllowStatus::spec_from_code(2),
        token != "0"@ && token != "true"@ && token != "1"@ && token != "2"@ && token != "false"@
            ==> AllowStatus::spec_from_token(token) == Err::<AllowStatus, ParseError>(
            ParseError::InvalidAllowStatus,
        ),
{
    reveal_strlit("0");
    reveal_strlit("true");
    reveal_strlit("1");
    reveal_strlit("2");
    reveal_strlit("false");
    assert("0"@.len() == 1 && "1"@.len() == 1 && "2"@.len() == 1);
    assert("0"@[0] == '0' && "1"@[0] == '1' && "2"@[0] == '2');
    assert("true"@.len() == 4 && "false"@.len() == 5);
}

/// Resolution is a function of the snapshot: two snapshots with the same
/// view resolve to the same state, and so do two resolutions of one
/// snapshot.
pub proof fn lemma_resolution_is_repeatable(
    first: Context,
    second: Context,
    r1: Result<DirenvState, ResolveError>,
    r2: Result<DirenvState, ResolveError>,
)
    requires
        first@ == second@,
        state_result_view(r1) == spec_from_env(first@),
        state_result_view(r2) == spec_from_env(second@),
    ensures
        state_result_view(r1) == state_result_view(r2),
        spec_state(first@) == spec_state(second@),
        spec_module(first@) == spec_module(second@),
{
}

/// A file whose allow marker exists is allowed, whether or not its deny
/// marker exists too.
pub proof fn lemma_allow_precedes_deny(ctx: ContextView, path: Seq<char>, content: Seq<u8>)
    requires
        ctx.read(path) == Some(content),
        ctx.files.contains_key(spec_allow_marker(ctx.home_dir, path, content)),
    ensures
        spec_rc_allowed(ctx, Some(path)) == Ok::<Option<AllowStatus>, ResolveError>(
            Some(AllowStatus::Allowed),
        ),
{
}

/// A file without an allow marker is denied where its deny marker exists,
/// whatever the file holds, and not allowed where it does not.
pub proof fn lemma_deny_goes_by_path(ctx: ContextView, path: Seq<char>, content: Seq<u8>)
    requires
        ctx.read(path) == Some(content),
        !ctx.files.contains_key(spec_allow_marker(ctx.home_dir, path, content)),
    ensures
        spec_rc_allowed(ctx, Some(path)) == Ok::<Option<AllowStatus>, ResolveError>(
            Some(
                if ctx.files.contains_key(spec_deny_marker(ctx.home_dir, path)) {
                    AllowStatus::Denied
                } else {
                    AllowStatus::NotAllowed
                },
            ),
        ),
{
}

/// A state from a structured report, or resolved from a snapshot, has a
/// status exactly where it has a path. A state from a line-oriented report
/// has a governing file and its status.
pub proof fn lemma_status_goes_with_path(raw: StateView, ctx: ContextView, text: Seq<char>)
    ensures
        spec_from_raw(raw) matches Ok(s) ==> (s.rc_path is Some <==> s.allowed is Some) && (
        s.loaded_rc_path is Some <==> s.loaded_allowed is Some),
        spec_from_env(ctx) matches Ok(s) ==> (s.rc_path is Some <==> s.allowed is Some) && (
        s.loaded_rc_path is Some <==> s.loaded_allowed is Some),
        spec_from_lines(text) matches Ok(s) ==> s.rc_path is Some && s.allowed is Some,
{
}

} // verus!
