//! A whole dry run: what the archive would hold for an input, without
//! starting any process.

use vstd::prelude::*;
use vstd::utf8::encode_utf8;
use crate::command::{full_command, texts};
use crate::job::{dry_suffix, entry_source, job_command, optional_text, run_dry, Entry, Settings};
use crate::naming::{base_after_many, name_in_run, NameError, NameGenerator};
use crate::schedule::{plan, Plan};

verus! {

/// The commands at the given positions of an input, each as its job works
/// on it.
pub open spec fn job_commands(
    rewrite: bool,
    commands: Seq<Seq<char>>,
    positions: Seq<usize>,
) -> Seq<Seq<char>> {
    Seq::new(positions.len(), |k: int| job_command(rewrite, commands[positions[k] as int]))
}

/// Whether `entry` is what a dry run archives for `command` under `name`:
/// the name with the dry-run suffix, and the full command line as content.
pub open spec fn is_preview_of(
    entry: Entry,
    settings: Settings,
    name: Option<Seq<char>>,
    command: Seq<char>,
) -> bool {
    &&& name is Some
    &&& entry.name@ == name.unwrap() + dry_suffix()
    &&& entry.content@ == encode_utf8(
        full_command(optional_text(settings.prefix), command, optional_text(settings.postfix)),
    )
    &&& entry.source == entry_source(entry.content@)
    &&& !entry.failed
}

/// Carries the commands at `positions` through a dry run, in that order.
///
/// Succeeds exactly where every one of them can be named. A command that
/// cannot be named ends the run with `NoMatch` and without any entry.
pub fn preview_jobs(
    settings: &Settings,
    names: &mut NameGenerator,
    commands: &Vec<String>,
    positions: &Vec<usize>,
) -> (r: Result<Vec<Entry>, NameError>)
    requires
        forall|k: int| 0 <= k < positions@.len() ==> positions@[k] < commands@.len(),
    ensures
        final(names).decorators == old(names).decorators,
        match r {
            Ok(entries) => {
                &&& entries@.len() == positions@.len()
                &&& forall|k: int|
                    0 <= k < entries@.len() ==> is_preview_of(
                        #[trigger] entries@[k],
                        *settings,
                        name_in_run(
                            *old(names),
                            job_commands(settings.forward_slashes, texts(commands@), positions@),
                            k,
                        ),
                        job_commands(settings.forward_slashes, texts(commands@), positions@)[k],
                    )
                &&& final(names).base == base_after_many(old(names).base, positions@.len())
            },
            Err(e) => {
                &&& e == NameError::NoMatch
                &&& exists|k: int|
                    0 <= k < positions@.len() && #[trigger] name_in_run(
                        *old(names),
                        job_commands(settings.forward_slashes, texts(commands@), positions@),
                        k,
                    ) is None
            },
        },
{
    let ghost start = *names;
    let ghost jobs = job_commands(settings.forward_slashes, texts(commands@), positions@);
    let mut entries: Vec<Entry> = Vec::new();
    let mut k: usize = 0;
    while k < positions.len()
        invariant
            k <= positions@.len(),
            start == *old(names),
            forall|j: int| 0 <= j < positions@.len() ==> positions@[j] < commands@.len(),
            jobs == job_commands(settings.forward_slashes, texts(commands@), positions@),
            names.decorators == start.decorators,
            names.base == base_after_many(start.base, k as nat),
            entries@.len() == k,
            forall|j: int|
                0 <= j < k ==> is_preview_of(
                    #[trigger] entries@[j],
                    *settings,
                    name_in_run(start, jobs, j),
                    jobs[j],
                ),
        decreases positions@.len() - k,
    {
        let position: usize = positions[k];
        let ghost before = *names;
        assert(before == (NameGenerator {
            base: base_after_many(start.base, k as nat),
            decorators: start.decorators,
        }));
        assert(jobs[k as int] == job_command(
            settings.forward_slashes,
            commands@[position as int]@,
        ));
        match run_dry(settings, names, commands[position].as_str()) {
            Err(e) => {
                assert(name_in_run(start, jobs, k as int) is None);
                return Err(e);
            },
            Ok(entry) => {
                assert(is_preview_of(entry, *settings, name_in_run(start, jobs, k as int), jobs[k as int]));
                entries.push(entry);
                k = k + 1;
            },
        }
    }
    Ok(entries)
}

/// What a dry run makes of a whole input.
#[derive(Debug)]
pub struct Preview {
    /// Which commands are dispatched, which are echoed as comments, and
    /// whether the limit cut the input short.
    pub plan: Plan,
    /// One entry for each dispatched command, in the order of the plan; or
    /// the error that ended the run.
    pub entries: Result<Vec<Entry>, NameError>,
}

/// Plans an input and carries the commands to dispatch through a dry run,
/// in input order.
///
/// The entries are there exactly where every dispatched command can be
/// named; otherwise the run ends with `NoMatch` and without any entry.
pub fn preview(
    settings: &Settings,
    names: &mut NameGenerator,
    commands: &Vec<String>,
    limit: Option<usize>,
) -> (r: Preview)
    ensures
        r.plan.is_plan_of(texts(commands@), limit),
        final(names).decorators == old(names).decorators,
        match r.entries {
            Ok(entries) => {
                &&& entries@.len() == r.plan.dispatched@.len()
                &&& forall|k: int|
                    0 <= k < entries@.len() ==> is_preview_of(
                        #[trigger] entries@[k],
                        *settings,
                        name_in_run(
                            *old(names),
                            job_commands(
                                settings.forward_slashes,
                                texts(commands@),
                                r.plan.dispatched@,
                            ),
                            k,
                        ),
                        job_commands(
                            settings.forward_slashes,
                            texts(commands@),
                            r.plan.dispatched@,
                        )[k],
                    )
                &&& final(names).base == base_after_many(
                    old(names).base,
                    r.plan.dispatched@.len(),
                )
            },
            Err(e) => {
                &&& e == NameError::NoMatch
                &&& exists|k: int|
                    0 <= k < r.plan.dispatched@.len() && #[trigger] name_in_run(
                        *old(names),
                        job_commands(
                            settings.forward_slashes,
                            texts(commands@),
                            r.plan.dispatched@,
                        ),
                        k,
                    ) is None
            },
        },
{
    let plan = plan(commands, limit);
    let entries = preview_jobs(settings, names, commands, &plan.dispatched);
    Preview { plan, entries }
}

} // verus!
