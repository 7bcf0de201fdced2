use vstd::prelude::*;
use vstd::string::StringExecFns;
use crate::catalog::{catalog, get_additional_binary_paths};
use crate::platform::{
    dir_separator, dir_separator_spec, exe_suffix, exe_suffix_spec, lookup_tool, lookup_tool_spec,
    PlatformProfile,
};
use crate::text::{decode_lossy, lossy_of, trim_of, trim_owned};

verus! {

/// The path of `name` inside `dir`: the directory, the directory
/// separator, the name, and the platform's executable suffix.
pub open spec fn candidate_path_spec(
    profile: PlatformProfile,
    dir: Seq<char>,
    name: Seq<char>,
) -> Seq<char> {
    dir + dir_separator_spec(profile) + name + exe_suffix_spec(profile)
}

/// Builds the candidate path of `name` inside `dir`.
pub fn candidate_path(profile: PlatformProfile, dir: &str, name: &str) -> (r: String)
    ensures
        r@ == candidate_path_spec(profile, dir@, name@),
{
    let mut out: String = dir.to_owned();
    out.append(dir_separator(profile));
    out.append(name);
    out.append(exe_suffix(profile));
    out
}

/// Where a resolution stands: which probe runs next, or the final result.
/// Resolution probes in a fixed order, first success wins: direct
/// invocation, then the platform's locate-on-PATH utility, then the
/// catalog directories one by one.
pub enum ResolveState {
    /// About to probe whether the bare name can be invoked directly.
    DirectProbe,
    /// About to delegate to the platform's locate-on-PATH utility.
    LookupProbe,
    /// About to test filesystem existence in catalog directory `index`.
    CatalogProbe { index: usize },
    /// Resolution is over; `result` is the invocable path, or nothing.
    /// Nothing is not an error: it is the expected outcome for a name
    /// that is nowhere to be found.
    Finished { result: Option<String> },
}

/// A catalog probe's index stays inside the catalog.
pub open spec fn state_wf(profile: PlatformProfile, state: ResolveState) -> bool {
    state matches ResolveState::CatalogProbe { index } ==> index < catalog(profile).len()
}

/// How many probes can still run from `state`: every step strictly
/// decreases it, so a driver that answers every request terminates.
pub open spec fn state_measure(profile: PlatformProfile, state: ResolveState) -> int {
    match state {
        ResolveState::DirectProbe => catalog(profile).len() as int + 2,
        ResolveState::LookupProbe => catalog(profile).len() as int + 1,
        ResolveState::CatalogProbe { index } => catalog(profile).len() as int - index,
        ResolveState::Finished { .. } => 0,
    }
}

/// The probe a driver must run next. Running a probe has real side
/// effects: the direct probe executes the target once.
pub enum ProbeRequest {
    /// Attempt to run `program` with a version argument; what counts is
    /// only whether process creation succeeds.
    SpawnVersionProbe { program: String },
    /// Run the locate utility `tool` with `name` and capture its output.
    RunLookupTool { tool: String, name: String },
    /// Test whether a file exists at `path`.
    CheckFileExists { path: String },
}

/// What the driver observed when it ran a probe.
pub enum ProbeOutcome {
    /// Whether process creation for the direct probe succeeded.
    SpawnAttempted { spawned: bool },
    /// Whether the lookup tool could be run at all, whether it exited
    /// successfully, and what it wrote to its standard output.
    LookupFinished { ran: bool, exit_success: bool, stdout: Vec<u8> },
    /// Whether the probed file exists.
    FileChecked { exists: bool },
}

/// The outcome kind that `state`'s probe reports.
pub open spec fn outcome_matches(state: ResolveState, outcome: ProbeOutcome) -> bool {
    match state {
        ResolveState::DirectProbe => outcome is SpawnAttempted,
        ResolveState::LookupProbe => outcome is LookupFinished,
        ResolveState::CatalogProbe { .. } => outcome is FileChecked,
        ResolveState::Finished { .. } => false,
    }
}

/// The lookup tool located the name: it ran, exited successfully, and its
/// trimmed output is non-empty.
pub open spec fn lookup_hit(outcome: ProbeOutcome) -> bool {
    &&& outcome matches ProbeOutcome::LookupFinished { ran, exit_success, stdout }
    &&& ran
    &&& exit_success
    &&& trim_of(lossy_of(stdout@)).len() > 0
}

/// Every resolution starts with the direct-invocation probe.
pub fn resolve_begin() -> (r: ResolveState)
    ensures
        r is DirectProbe,
{
    ResolveState::DirectProbe
}

/// The probe to run in `state`: the direct probe runs the bare name, the
/// lookup probe runs the platform's locate utility with the name, and a
/// catalog probe tests the candidate path in that catalog directory.
pub fn next_probe(profile: PlatformProfile, name: &str, state: &ResolveState) -> (r: ProbeRequest)
    requires
        state_wf(profile, *state),
        !(*state is Finished),
    ensures
        *state is DirectProbe ==> (r matches ProbeRequest::SpawnVersionProbe { program }
            && program@ == name@),
        *state is LookupProbe ==> (r matches ProbeRequest::RunLookupTool { tool, name: n }
            && tool@ == lookup_tool_spec(profile) && n@ == name@),
        *state matches ResolveState::CatalogProbe { index } ==> (r
            matches ProbeRequest::CheckFileExists { path } && path@ == candidate_path_spec(
            profile,
            catalog(profile)[index as int],
            name@,
        )),
{
    match state {
        ResolveState::DirectProbe => ProbeRequest::SpawnVersionProbe { program: name.to_owned() },
        ResolveState::LookupProbe => ProbeRequest::RunLookupTool {
            tool: lookup_tool(profile).to_owned(),
            name: name.to_owned(),
        },
        ResolveState::CatalogProbe { index } => {
            let dirs = get_additional_binary_paths(profile);
            let path = candidate_path(profile, dirs[*index].as_str(), name);
            ProbeRequest::CheckFileExists { path }
        },
        ResolveState::Finished { .. } => unreached(),
    }
}

/// Advances the resolution by one observed probe outcome, first success
/// wins: a direct probe whose process was created resolves to the bare
/// name; a lookup hit resolves to the tool's trimmed output, decoded with
/// lossy replacement; an existing candidate file resolves to its path; an
/// exhausted catalog finishes with nothing.
pub fn resolve_step(
    profile: PlatformProfile,
    name: &str,
    state: ResolveState,
    outcome: ProbeOutcome,
) -> (r: ResolveState)
    requires
        state_wf(profile, state),
        !(state is Finished),
        outcome_matches(state, outcome),
    ensures
        state_wf(profile, r),
        state_measure(profile, r) < state_measure(profile, state),
        (state is DirectProbe && outcome->spawned) ==> (r matches ResolveState::Finished {
            result: Some(p),
        } && p@ == name@),
        (state is DirectProbe && !outcome->spawned) ==> r is LookupProbe,
        (state is LookupProbe && lookup_hit(outcome)) ==> (r matches ResolveState::Finished {
            result: Some(p),
        } && p@ == trim_of(lossy_of(outcome->stdout@))),
        (state is LookupProbe && !lookup_hit(outcome)) ==> (r matches ResolveState::CatalogProbe {
            index,
        } && index == 0),
        (state is CatalogProbe && outcome->exists) ==> (r matches ResolveState::Finished {
            result: Some(p),
        } && p@ == candidate_path_spec(profile, catalog(profile)[state->index as int], name@)),
        (state is CatalogProbe && !outcome->exists && state->index + 1 < catalog(profile).len())
            ==> (r matches ResolveState::CatalogProbe { index } && index == state->index + 1),
        (state is CatalogProbe && !outcome->exists && state->index + 1 >= catalog(profile).len())
            ==> r matches ResolveState::Finished { result: None },
{
    match state {
        ResolveState::DirectProbe => match outcome {
            ProbeOutcome::SpawnAttempted { spawned } => {
                if spawned {
                    ResolveState::Finished { result: Some(name.to_owned()) }
                } else {
                    ResolveState::LookupProbe
                }
            },
            _ => unreached(),
        },
        ResolveState::LookupProbe => match outcome {
            ProbeOutcome::LookupFinished { ran, exit_success, stdout } => {
                if ran && exit_success {
                    let text = trim_owned(decode_lossy(stdout.as_slice()).as_str());
                    if !text.as_str().is_empty() {
                        ResolveState::Finished { result: Some(text) }
                    } else {
                        ResolveState::CatalogProbe { index: 0 }
                    }
                } else {
                    ResolveState::CatalogProbe { index: 0 }
                }
            },
            _ => unreached(),
        },
        ResolveState::CatalogProbe { index } => match outcome {
            ProbeOutcome::FileChecked { exists } => {
                if exists {
                    let dirs = get_additional_binary_paths(profile);
                    let path = candidate_path(profile, dirs[index].as_str(), name);
                    ResolveState::Finished { result: Some(path) }
                } else {
                    let dirs = get_additional_binary_paths(profile);
                    if index + 1 < dirs.len() {
                        ResolveState::CatalogProbe { index: index + 1 }
                    } else {
                        ResolveState::Finished { result: None }
                    }
                }
            },
            _ => unreached(),
        },
        ResolveState::Finished { .. } => unreached(),
    }
}

} // verus!
