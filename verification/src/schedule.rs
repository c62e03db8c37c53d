//! Which commands of the input are dispatched: comments are skipped, and a
//! limit on the number of dispatched commands ends the run early.

use vstd::prelude::*;
use crate::command::texts;
use crate::text::{comment_of, comment_text, is_comment};

verus! {

/// What to do with the next command of the input.
#[derive(Clone, Debug, PartialEq, Eq)]
pub enum Step {
    /// The command is a comment: echo its text (given without the marker)
    /// and start nothing.
    Comment(String),
    /// Dispatch the command to a worker.
    Run,
    /// The limit is reached: report it and discard the rest of the input.
    Stop,
}

/// Decides, command by command, what is dispatched.
#[derive(Clone, Debug, PartialEq, Eq)]
pub struct Scheduler {
    /// How many more commands may be dispatched; `None` for any number.
    pub remaining: Option<usize>,
}

impl Scheduler {
    /// Whether the limit is used up, so that nothing more is dispatched.
    pub open spec fn exhausted(&self) -> bool {
        self.remaining == Some(0usize)
    }

    /// A scheduler that dispatches at most `limit` commands, or any number
    /// where there is no limit.
    pub fn new(limit: Option<usize>) -> (r: Scheduler)
        ensures
            r.remaining == limit,
    {
        Scheduler { remaining: limit }
    }

    /// Takes the next command of the input and says what to do with it.
    ///
    /// Once the limit is used up every command gets `Stop`. Before that a
    /// comment is skipped and does not count; any other command is run and
    /// uses up one of the remaining dispatches.
    pub fn offer(&mut self, command: &str) -> (s: Step)
        ensures
            old(self).exhausted() ==> s is Stop && *final(self) == *old(self),
            !old(self).exhausted() && is_comment(command@) ==> s is Comment && s->Comment_0@
                == comment_text(command@) && *final(self) == *old(self),
            !old(self).exhausted() && !is_comment(command@) ==> s is Run && final(self).remaining
                == match old(self).remaining {
                Some(n) => Some((n - 1) as usize),
                None => None,
            },
    {
        if let Some(n) = self.remaining {
            if n == 0 {
                return Step::Stop;
            }
        }
        match comment_of(command) {
            Some(text) => Step::Comment(text),
            None => {
                if let Some(n) = self.remaining {
                    self.remaining = Some(n - 1);
                }
                Step::Run
            },
        }
    }
}

/// How many of the first `k` commands are no comments.
pub open spec fn runnable_before(commands: Seq<Seq<char>>, k: int) -> nat
    decreases k,
{
    if k <= 0 {
        0
    } else {
        runnable_before(commands, k - 1) + if is_comment(commands[k - 1]) {
            0nat
        } else {
            1nat
        }
    }
}

/// Whether the scheduler gets as far as command `i`: the commands before it
/// have not used up the limit.
pub open spec fn is_reached(commands: Seq<Seq<char>>, limit: Option<usize>, i: int) -> bool {
    match limit {
        Some(l) => runnable_before(commands, i) < l,
        None => true,
    }
}

/// Whether command `i` is taken up: it is reached and, as `echo` says, is
/// a comment to echo or a command to dispatch.
pub open spec fn is_taken(
    commands: Seq<Seq<char>>,
    limit: Option<usize>,
    echo: bool,
    i: int,
) -> bool {
    is_reached(commands, limit, i) && is_comment(commands[i]) == echo
}

/// Whether command `i` is dispatched: it is reached and is no comment.
pub open spec fn is_dispatched(commands: Seq<Seq<char>>, limit: Option<usize>, i: int) -> bool {
    is_taken(commands, limit, false, i)
}

/// Whether command `i` is echoed as a comment: it is reached and is one.
pub open spec fn is_echoed(commands: Seq<Seq<char>>, limit: Option<usize>, i: int) -> bool {
    is_taken(commands, limit, true, i)
}

/// Whether the run ends on the limit: some command of the input is not
/// reached.
pub open spec fn limit_hit(commands: Seq<Seq<char>>, limit: Option<usize>) -> bool {
    commands.len() > 0 && !is_reached(commands, limit, commands.len() - 1)
}

/// How many commands are dispatched: all that are no comments, or as many
/// of them as the limit allows.
pub open spec fn dispatch_count(commands: Seq<Seq<char>>, limit: Option<usize>) -> nat {
    let all = runnable_before(commands, commands.len() as int);
    match limit {
        Some(l) => if all < l {
            all
        } else {
            l as nat
        },
        None => all,
    }
}

/// Whether `picked` lists, in rising order, exactly the positions below
/// `upto` of the commands that are taken up.
pub open spec fn lists_exactly(
    picked: Seq<usize>,
    upto: int,
    commands: Seq<Seq<char>>,
    limit: Option<usize>,
    echo: bool,
) -> bool {
    &&& forall|j: int|
        0 <= j < picked.len() ==> 0 <= #[trigger] picked[j] < upto && is_taken(
            commands,
            limit,
            echo,
            picked[j] as int,
        )
    &&& forall|j: int, k: int| 0 <= j < k < picked.len() ==> picked[j] < picked[k]
    &&& forall|i: int|
        0 <= i < upto && #[trigger] is_taken(commands, limit, echo, i) ==> picked.contains(
            i as usize,
        )
}

/// What becomes of a whole input.
#[derive(Clone, Debug, PartialEq, Eq)]
pub struct Plan {
    /// The positions of the commands to dispatch, in input order.
    pub dispatched: Vec<usize>,
    /// The positions of the comments to echo, in input order.
    pub comments: Vec<usize>,
    /// Whether the run ended on the limit, with input left over.
    pub limit_reached: bool,
}

impl Plan {
    /// Whether this is what becomes of the input `commands` under `limit`:
    /// the dispatched commands are those that are reached and are no
    /// comments, the echoed comments are those that are reached, both in
    /// input order, and the limit is reported where it cut the input short.
    pub open spec fn is_plan_of(&self, commands: Seq<Seq<char>>, limit: Option<usize>) -> bool {
        &&& lists_exactly(self.dispatched@, commands.len() as int, commands, limit, false)
        &&& lists_exactly(self.comments@, commands.len() as int, commands, limit, true)
        &&& self.dispatched@.len() == dispatch_count(commands, limit)
        &&& self.limit_reached == limit_hit(commands, limit)
    }
}

/// The count of commands that are no comments never falls along the input.
pub proof fn runnable_monotone(commands: Seq<Seq<char>>, a: int, b: int)
    requires
        a <= b,
    ensures
        runnable_before(commands, a) <= runnable_before(commands, b),
    decreases b - a,
{
    if a < b {
        runnable_monotone(commands, a, b - 1);
    }
}

/// A list that is exact below position `i` stays exact below `i + 1`: with
/// `i` added at its end where command `i` is taken up, unchanged where it is
/// not.
proof fn lists_extend(
    picked: Seq<usize>,
    i: int,
    commands: Seq<Seq<char>>,
    limit: Option<usize>,
    echo: bool,
)
    requires
        0 <= i <= usize::MAX,
        lists_exactly(picked, i, commands, limit, echo),
    ensures
        is_taken(commands, limit, echo, i) ==> lists_exactly(
            picked.push(i as usize),
            i + 1,
            commands,
            limit,
            echo,
        ),
        !is_taken(commands, limit, echo, i) ==> lists_exactly(picked, i + 1, commands, limit, echo),
{
    if is_taken(commands, limit, echo, i) {
        let longer = picked.push(i as usize);
        assert forall|k: int|
            0 <= k < i + 1 && #[trigger] is_taken(commands, limit, echo, k) implies longer.contains(
            k as usize,
        ) by {
            if k < i {
                let w = choose|w: int| 0 <= w < picked.len() && picked[w] == k as usize;
                assert(longer[w] == k as usize);
            } else {
                assert(longer[longer.len() - 1] == k as usize);
            }
        }
    }
}

/// Decides for every command of an input whether it is dispatched, echoed
/// as a comment, or discarded because the limit was reached before it.
pub fn plan(commands: &Vec<String>, limit: Option<usize>) -> (p: Plan)
    ensures
        p.is_plan_of(texts(commands@), limit),
{
    let ghost cs = texts(commands@);
    let n: usize = commands.len();
    let mut scheduler = Scheduler::new(limit);
    let mut dispatched: Vec<usize> = Vec::new();
    let mut comments: Vec<usize> = Vec::new();
    let mut stopped = false;
    let mut i: usize = 0;
    while i < n && !stopped
        invariant
            n == commands@.len(),
            cs == texts(commands@),
            cs.len() == n,
            i <= n,
            stopped ==> i < n && !is_reached(cs, limit, i as int),
            limit is Some ==> runnable_before(cs, i as int) <= limit.unwrap(),
            !stopped ==> match limit {
                Some(l) => runnable_before(cs, i as int) <= l && scheduler.remaining == Some(
                    (l - runnable_before(cs, i as int)) as usize,
                ),
                None => scheduler.remaining is None,
            },
            !stopped && i > 0 ==> is_reached(cs, limit, i - 1),
            lists_exactly(dispatched@, i as int, cs, limit, false),
            lists_exactly(comments@, i as int, cs, limit, true),
            dispatched@.len() == runnable_before(cs, i as int),
        decreases n - i + (if stopped { 0int } else { 1int }),
    {
        let ghost before_d = dispatched@;
        let ghost before_c = comments@;
        assert(cs[i as int] == commands@[i as int]@);
        match scheduler.offer(commands[i].as_str()) {
            Step::Stop => {
                stopped = true;
            },
            Step::Comment(_) => {
                comments.push(i);
                proof {
                    lists_extend(before_d, i as int, cs, limit, false);
                    lists_extend(before_c, i as int, cs, limit, true);
                }
                i = i + 1;
            },
            Step::Run => {
                dispatched.push(i);
                proof {
                    lists_extend(before_d, i as int, cs, limit, false);
                    lists_extend(before_c, i as int, cs, limit, true);
                }
                i = i + 1;
            },
        }
    }
    proof {
        if stopped {
            runnable_monotone(cs, i as int, n - 1);
            runnable_monotone(cs, i as int, n as int);
            assert forall|k: int| i <= k < n implies !#[trigger] is_reached(cs, limit, k) by {
                runnable_monotone(cs, i as int, k);
            }
        } else {
            if n > 0 {
                runnable_monotone(cs, n - 1, n as int);
            }
        }
    }
    Plan { dispatched, comments, limit_reached: stopped }
}

/// A command that begins with the comment marker is never dispatched,
/// whatever the limit and wherever it stands in the input.
pub proof fn comments_never_dispatched(commands: Seq<Seq<char>>, limit: Option<usize>, i: int)
    requires
        0 <= i < commands.len(),
        is_comment(commands[i]),
    ensures
        !is_dispatched(commands, limit, i),
{
}

/// Comments do not count toward the limit: taking a comment out of the
/// input leaves the number of dispatched commands as it was.
pub proof fn comments_do_not_count(commands: Seq<Seq<char>>, limit: Option<usize>, i: int)
    requires
        0 <= i < commands.len(),
        is_comment(commands[i]),
    ensures
        dispatch_count(commands.remove(i), limit) == dispatch_count(commands, limit),
{
    runnable_without(commands, i, commands.len() as int);
}

/// Counting up to `k` in an input without its comment at `i` gives what
/// counting up to `k`, or one further, gives in the whole input.
proof fn runnable_without(commands: Seq<Seq<char>>, i: int, k: int)
    requires
        0 <= i < commands.len(),
        is_comment(commands[i]),
        i < k <= commands.len(),
    ensures
        runnable_before(commands.remove(i), k - 1) == runnable_before(commands, k),
    decreases k,
{
    let short = commands.remove(i);
    if k == i + 1 {
        runnable_same_prefix(commands, short, i);
    } else {
        runnable_without(commands, i, k - 1);
        assert(short[k - 2] == commands[k - 1]);
    }
}

/// Two inputs that agree on their first `k` commands have the same count
/// up to `k`.
proof fn runnable_same_prefix(a: Seq<Seq<char>>, b: Seq<Seq<char>>, k: int)
    requires
        0 <= k <= a.len(),
        k <= b.len(),
        forall|j: int| 0 <= j < k ==> a[j] == b[j],
    ensures
        runnable_before(a, k) == runnable_before(b, k),
    decreases k,
{
    if k > 0 {
        runnable_same_prefix(a, b, k - 1);
    }
}

/// With no limit every command that is no comment is dispatched; with a
/// limit never more than the limit.
pub proof fn dispatch_count_bounds(commands: Seq<Seq<char>>, limit: Option<usize>)
    ensures
        dispatch_count(commands, limit) <= runnable_before(commands, commands.len() as int),
        limit is Some ==> dispatch_count(commands, limit) <= limit.unwrap(),
        limit is None ==> dispatch_count(commands, limit) == runnable_before(
            commands,
            commands.len() as int,
        ),
{
}

} // verus!
