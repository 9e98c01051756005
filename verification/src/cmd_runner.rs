//! Command templating and outcome reporting: the first occurrence of a
//! keymap's placeholder in its command template is replaced by the finalized
//! input text, and the exit of the spawned command is classified and turned
//! into a report line. Spawning itself is the caller's work; it hands the
//! exit status back to be classified.

use vstd::prelude::*;
use vstd::string::StringExecFns;
use crate::strutil::{chars_to_string, str_to_chars};

verus! {

/// Holds when the placeholder `p` occurs in `t` at position `i`.
pub open spec fn matches_at(t: Seq<char>, p: Seq<char>, i: int) -> bool {
    &&& 0 <= i
    &&& i + p.len() <= t.len()
    &&& t.subrange(i, i + p.len() as int) == p
}

/// Holds when `p` occurs in `t` somewhere before position `n`.
pub open spec fn has_match_before(t: Seq<char>, p: Seq<char>, n: int) -> bool {
    exists|j: int| 0 <= j < n && matches_at(t, p, j)
}

/// The template with the occurrence of `p` at `i` replaced by `v`.
pub open spec fn spec_substituted(t: Seq<char>, p: Seq<char>, v: Seq<char>, i: int) -> Seq<char> {
    t.subrange(0, i) + v + t.subrange(i + p.len() as int, t.len() as int)
}

/// Holds when `r` is `t` with the first occurrence of `p` (if any) replaced
/// by `v`; a template without the placeholder is left unchanged.
pub open spec fn is_substituted(t: Seq<char>, p: Seq<char>, v: Seq<char>, r: Seq<char>) -> bool {
    if exists|j: int| matches_at(t, p, j) {
        exists|i: int|
            {
                &&& matches_at(t, p, i)
                &&& !has_match_before(t, p, i)
                &&& r == spec_substituted(t, p, v, i)
            }
    } else {
        r == t
    }
}

/// Checks whether `p` occurs in `t` at position `i`.
fn window_matches(t: &Vec<char>, p: &Vec<char>, i: usize) -> (r: bool)
    requires
        i + p@.len() <= t@.len(),
    ensures
        r == matches_at(t@, p@, i as int),
{
    let tl: usize = t.len();
    let mut k: usize = 0;
    while k < p.len()
        invariant
            i + p@.len() <= t@.len(),
            t@.len() == tl,
            0 <= k <= p@.len(),
            forall|m: int| 0 <= m < k ==> t@[i + m] == p@[m],
        decreases p@.len() - k,
    {
        if t[i + k] != p[k] {
            assert(t@.subrange(i as int, i + p@.len() as int)[k as int] != p@[k as int]);
            return false;
        }
        k = k + 1;
    }
    proof {
        assert(t@.subrange(i as int, i + p@.len() as int) =~= p@);
    }
    true
}

/// Finds the position of the first occurrence of `p` in `t`.
pub fn find_placeholder(t: &Vec<char>, p: &Vec<char>) -> (r: Option<usize>)
    ensures
        r matches Some(i) ==> matches_at(t@, p@, i as int) && !has_match_before(t@, p@, i as int),
        r is None ==> forall|j: int| !matches_at(t@, p@, j),
{
    if p.len() > t.len() {
        return None;
    }
    if p.len() == 0 {
        proof {
            assert(t@.subrange(0, 0) =~= p@);
        }
        return Some(0);
    }
    let last: usize = t.len() - p.len();
    let mut i: usize = 0;
    while i <= last
        invariant
            1 <= p@.len() <= t@.len(),
            t@.len() <= usize::MAX,
            last == t@.len() - p@.len(),
            0 <= i <= last + 1,
            forall|j: int| 0 <= j < i ==> !matches_at(t@, p@, j),
        decreases last + 1 - i,
    {
        if window_matches(t, p, i) {
            return Some(i);
        }
        i = i + 1;
    }
    proof {
        assert forall|j: int| !matches_at(t@, p@, j) by {
            if 0 <= j <= last {
                assert(!matches_at(t@, p@, j));
            }
        }
    }
    None
}

/// Replaces the first occurrence of `placeholder` in `template` by `value`;
/// a template without the placeholder is returned unchanged.
pub fn substitute(template: &str, placeholder: &str, value: &str) -> (r: String)
    ensures
        is_substituted(template@, placeholder@, value@, r@),
{
    let tc = str_to_chars(template);
    let pc = str_to_chars(placeholder);
    let vc = str_to_chars(value);
    match find_placeholder(&tc, &pc) {
        None => template.to_owned(),
        Some(i) => {
            let mut out: Vec<char> = Vec::new();
            let mut k: usize = 0;
            while k < i
                invariant
                    i <= tc@.len(),
                    0 <= k <= i,
                    out@ == tc@.subrange(0, k as int),
                decreases i - k,
            {
                out.push(tc[k]);
                assert(out@ =~= tc@.subrange(0, k + 1));
                k = k + 1;
            }
            let mut k: usize = 0;
            while k < vc.len()
                invariant
                    i <= tc@.len(),
                    0 <= k <= vc@.len(),
                    out@ == tc@.subrange(0, i as int) + vc@.subrange(0, k as int),
                decreases vc@.len() - k,
            {
                out.push(vc[k]);
                assert(out@ =~= tc@.subrange(0, i as int) + vc@.subrange(0, k + 1));
                k = k + 1;
            }
            let tl: usize = tc.len();
            proof {
                assert(i + pc@.len() <= tl);
            }
            let mut k: usize = i + pc.len();
            assert(out@ =~= tc@.subrange(0, i as int) + vc@);
            while k < tc.len()
                invariant
                    matches_at(tc@, pc@, i as int),
                    i + pc@.len() <= k <= tc@.len(),
                    out@ == tc@.subrange(0, i as int) + vc@ + tc@.subrange(
                        i + pc@.len() as int,
                        k as int,
                    ),
                decreases tc@.len() - k,
            {
                out.push(tc[k]);
                assert(out@ =~= tc@.subrange(0, i as int) + vc@ + tc@.subrange(
                    i + pc@.len() as int,
                    k + 1,
                ));
                k = k + 1;
            }
            proof {
                assert(out@ =~= spec_substituted(tc@, pc@, vc@, i as int));
            }
            chars_to_string(&out)
        },
    }
}

/// A resolved command line, ready to be passed whole to the host shell.
pub struct CmdRunner {
    pub command: String,
}

impl CmdRunner {
    /// Resolves a command template against the user's finalized text: the
    /// first occurrence of the placeholder is replaced by `input`.
    pub fn new(template: &str, placeholder: &str, input: &str) -> (r: CmdRunner)
        ensures
            is_substituted(template@, placeholder@, input@, r.command@),
    {
        CmdRunner { command: substitute(template, placeholder, input) }
    }
}

/// How an executed command ended.
#[derive(Debug)]
pub enum CommandOutcome {
    /// The command exited with status zero.
    Success,
    /// The command exited with the given nonzero status.
    NonZeroExit(i32),
    /// The shell could not be spawned; the message carries the cause.
    SpawnFailure(String),
}

/// Classifies a reported exit status.
pub fn outcome_of_status(code: i32) -> (r: CommandOutcome)
    ensures
        code == 0 ==> r is Success,
        code != 0 ==> (r matches CommandOutcome::NonZeroExit(c) && c == code),
{
    if code == 0 {
        CommandOutcome::Success
    } else {
        CommandOutcome::NonZeroExit(code)
    }
}

/// The report line written to the terminal for each command outcome.
pub open spec fn outcome_line(o: CommandOutcome) -> Seq<char> {
    match o {
        CommandOutcome::Success => "Command succeeded"@,
        CommandOutcome::NonZeroExit(_) => "Command exited with a nonzero status"@,
        CommandOutcome::SpawnFailure(m) => "Failed to run command: "@ + m@,
    }
}

/// Renders the report line for a command outcome.
pub fn outcome_message(o: &CommandOutcome) -> (r: String)
    ensures
        r@ == outcome_line(*o),
{
    match o {
        CommandOutcome::Success => String::from_str("Command succeeded"),
        CommandOutcome::NonZeroExit(_) => String::from_str("Command exited with a nonzero status"),
        CommandOutcome::SpawnFailure(m) => {
            let mut r = String::from_str("Failed to run command: ");
            r.append(m.as_str());
            r
        },
    }
}

} // verus!
