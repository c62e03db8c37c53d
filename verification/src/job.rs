//! One command from its raw text to its archive entry: the name, the full
//! command line, and what is archived once the command has finished.

use vstd::prelude::*;
use vstd::string::{StrSliceExecFns, StringExecFns};
use vstd::utf8::encode_utf8;
use crate::command::{assemble, full_command};
use crate::naming::{base_after, NameError, NameGenerator};
use crate::text::{decimal, decimal_string, forward_slashes, to_forward_slashes};

verus! {

/// The parts of the configuration that every job reads.
#[derive(Clone, Debug, PartialEq, Eq)]
pub struct Settings {
    /// Text put before every command, followed by a space.
    pub prefix: Option<String>,
    /// Text put directly after every command.
    pub postfix: Option<String>,
    /// Archive the command lines themselves and start no process.
    pub dry_run: bool,
    /// Turn the backward slashes of every command into forward slashes
    /// before anything else is done with it. This is meant for the one
    /// platform whose expansion of file patterns yields backward slashes;
    /// the prefix and the postfix are never rewritten.
    pub forward_slashes: bool,
}

/// The command as the job works on it: with its backward slashes rewritten
/// where that is configured, otherwise as given.
pub open spec fn job_command(rewrite: bool, command: Seq<char>) -> Seq<char> {
    if rewrite {
        forward_slashes(command)
    } else {
        command
    }
}

/// The text of an optional string.
pub open spec fn optional_text(t: Option<String>) -> Option<Seq<char>> {
    match t {
        Some(s) => Some(s@),
        None => None,
    }
}

/// A command that is ready to run: the name of its entry before any suffix,
/// and the line to execute.
#[derive(Clone, Debug, PartialEq, Eq)]
pub struct Job {
    pub name: String,
    pub line: String,
}

/// What a finished command left behind.
#[derive(Clone, Debug, PartialEq, Eq)]
pub struct Captured {
    /// Whether the process reported success.
    pub success: bool,
    pub stdout: Vec<u8>,
    pub stderr: Vec<u8>,
}

/// The stream that an entry's content was taken from.
#[derive(Clone, Copy, Debug, PartialEq, Eq, Structural)]
pub enum Stream {
    Stdout,
    Stderr,
}

/// A named blob, ready to be appended to the archive.
#[derive(Clone, Debug, PartialEq, Eq)]
pub struct Entry {
    pub name: String,
    pub content: Vec<u8>,
    /// The stream the content came from.
    pub source: Stream,
    /// Whether the command failed.
    pub failed: bool,
}

/// The suffix of an entry that holds a command line instead of output.
pub open spec fn dry_suffix() -> Seq<char> {
    seq!['.', 't', 'x', 't']
}

/// The suffix of an entry whose command failed.
pub open spec fn failure_suffix() -> Seq<char> {
    seq!['.', 'e', 'r', 'r']
}

/// The final name of an entry: the generated name, the dry-run suffix where
/// the run is a dry run, then the failure suffix where the command failed.
pub open spec fn entry_name(name: Seq<char>, dry_run: bool, success: bool) -> Seq<char> {
    name + (if dry_run {
        dry_suffix()
    } else {
        Seq::empty()
    }) + (if success {
        Seq::empty()
    } else {
        failure_suffix()
    })
}

/// The stream that is archived: standard output, unless it is empty.
pub open spec fn entry_source(stdout: Seq<u8>) -> Stream {
    if stdout.len() == 0 {
        Stream::Stderr
    } else {
        Stream::Stdout
    }
}

/// The content that is archived: standard output, or standard error where
/// standard output is empty.
pub open spec fn entry_content(stdout: Seq<u8>, stderr: Seq<u8>) -> Seq<u8> {
    if stdout.len() == 0 {
        stderr
    } else {
        stdout
    }
}

/// Names a command and assembles its full line. Where that is configured
/// the command's backward slashes are rewritten first. The name is generated
/// from the command alone, without the configured prefix and postfix.
///
/// Fails, leaving the generator as it was, exactly where the generator's
/// pattern does not match the command.
pub fn prepare(settings: &Settings, names: &mut NameGenerator, command: &str) -> (r: Result<
    Job,
    NameError,
>)
    ensures
        match r {
            Ok(job) => {
                &&& old(names).name_for(job_command(settings.forward_slashes, command@)) == Some(
                    job.name@,
                )
                &&& job.line@ == full_command(
                    optional_text(settings.prefix),
                    job_command(settings.forward_slashes, command@),
                    optional_text(settings.postfix),
                )
                &&& final(names).base == base_after(old(names).base)
            },
            Err(e) => {
                &&& old(names).name_for(job_command(settings.forward_slashes, command@)) is None
                &&& e == NameError::NoMatch
                &&& final(names).base == old(names).base
            },
        },
        final(names).decorators == old(names).decorators,
{
    let command = if settings.forward_slashes {
        to_forward_slashes(command)
    } else {
        String::from_str(command)
    };
    let line = assemble(
        match &settings.prefix {
            Some(p) => Some(p.as_str()),
            None => None,
        },
        command.as_str(),
        match &settings.postfix {
            Some(q) => Some(q.as_str()),
            None => None,
        },
    );
    match names.generate(command.as_str()) {
        Ok(name) => Ok(Job { name, line }),
        Err(e) => Err(e),
    }
}

/// What a dry run records in place of running a command: success, the
/// command line itself as standard output, and nothing on standard error.
pub fn simulate(line: &str) -> (r: Captured)
    ensures
        r.success,
        r.stdout@ == encode_utf8(line@),
        r.stderr@.len() == 0,
{
    Captured { success: true, stdout: line.as_bytes_vec(), stderr: Vec::new() }
}

/// Decides what is archived for a finished command.
///
/// The content is standard output, or standard error where standard output
/// is empty. The name gets the dry-run suffix in a dry run, and after it the
/// failure suffix where the command did not succeed.
pub fn settle(name: String, captured: Captured, dry_run: bool) -> (r: Entry)
    ensures
        r.name@ == entry_name(name@, dry_run, captured.success),
        r.content@ == entry_content(captured.stdout@, captured.stderr@),
        r.source == entry_source(captured.stdout@),
        r.failed == !captured.success,
{
    proof {
        reveal_strlit(".txt");
        reveal_strlit(".err");
    }
    let ghost given = name@;
    let mut name = name;
    if dry_run {
        name.append(".txt");
        assert(".txt"@ =~= dry_suffix());
    } else {
        assert(name@ =~= given + Seq::<char>::empty());
    }
    let ghost middle = name@;
    if !captured.success {
        name.append(".err");
        assert(".err"@ =~= failure_suffix());
    } else {
        assert(name@ =~= middle + Seq::<char>::empty());
    }
    let Captured { success, stdout, stderr } = captured;
    if stdout.len() == 0 {
        Entry { name, content: stderr, source: Stream::Stderr, failed: !success }
    } else {
        Entry { name, content: stdout, source: Stream::Stdout, failed: !success }
    }
}

/// Carries one command through a dry run: names it, assembles its line and
/// archives the line itself under the name with the dry-run suffix.
///
/// Fails, leaving the generator as it was, exactly where the generator's
/// pattern does not match the command.
pub fn run_dry(settings: &Settings, names: &mut NameGenerator, command: &str) -> (r: Result<
    Entry,
    NameError,
>)
    ensures
        match r {
            Ok(entry) => {
                &&& old(names).name_for(job_command(settings.forward_slashes, command@)) is Some
                &&& entry.name@ == old(names).name_for(
                    job_command(settings.forward_slashes, command@),
                ).unwrap() + dry_suffix()
                &&& entry.content@ == encode_utf8(
                    full_command(
                        optional_text(settings.prefix),
                        job_command(settings.forward_slashes, command@),
                        optional_text(settings.postfix),
                    ),
                )
                &&& entry.source == entry_source(entry.content@)
                &&& !entry.failed
                &&& final(names).base == base_after(old(names).base)
            },
            Err(e) => {
                &&& old(names).name_for(job_command(settings.forward_slashes, command@)) is None
                &&& e == NameError::NoMatch
                &&& final(names).base == old(names).base
            },
        },
        final(names).decorators == old(names).decorators,
{
    match prepare(settings, names, command) {
        Err(e) => Err(e),
        Ok(job) => {
            let captured = simulate(job.line.as_str());
            let ghost base = job.name@;
            let entry = settle(job.name, captured, true);
            assert(entry.name@ =~= base + dry_suffix());
            assert(entry.content@ =~= encode_utf8(job.line@));
            Ok(entry)
        },
    }
}

/// The name of a stream, as the report of a finished command gives it.
pub open spec fn stream_name(source: Stream) -> Seq<char> {
    match source {
        Stream::Stdout => "stdout"@,
        Stream::Stderr => "stderr"@,
    }
}

/// The line that reports a finished command: the entry's name, the number
/// of bytes archived, the stream they came from and the full command line.
pub open spec fn report(name: Seq<char>, size: nat, source: Stream, line: Seq<char>) -> Seq<char> {
    "`"@ + name + "` << "@ + decimal(size) + " bytes from "@ + stream_name(source) + " << `"@
        + line + "`"@
}

/// Writes the line that reports a finished command.
pub fn report_line(entry: &Entry, line: &str) -> (r: String)
    ensures
        r@ == report(entry.name@, entry.content@.len(), entry.source, line@),
{
    let mut r = String::from_str("`");
    r.append(entry.name.as_str());
    r.append("` << ");
    let size = decimal_string(entry.content.len());
    r.append(size.as_str());
    r.append(" bytes from ");
    r.append(
        match entry.source {
            Stream::Stdout => "stdout",
            Stream::Stderr => "stderr",
        },
    );
    r.append(" << `");
    r.append(line);
    r.append("`");
    r
}

/// A command that fails and writes to neither stream is archived under its
/// name with the failure suffix at the end, with empty content.
pub proof fn silent_failure(name: Seq<char>, dry_run: bool)
    ensures
        entry_content(Seq::empty(), Seq::empty()).len() == 0,
        entry_name(name, dry_run, false).len() >= 4,
        entry_name(name, dry_run, false).skip(entry_name(name, dry_run, false).len() - 4)
            == failure_suffix(),
{
    let full = entry_name(name, dry_run, false);
    assert(full.skip(full.len() - 4) =~= failure_suffix());
}

/// The failure suffix is present exactly on the entries of failed commands:
/// a successful command's entry carries its name, with the dry-run suffix
/// in a dry run, and nothing more.
pub proof fn success_keeps_name(name: Seq<char>)
    ensures
        entry_name(name, false, true) == name,
        entry_name(name, true, true) == name + dry_suffix(),
{
    assert(entry_name(name, false, true) =~= name);
    assert(entry_name(name, true, true) =~= name + dry_suffix());
}

} // verus!
