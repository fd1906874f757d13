//! Preparation of the candidate and history lists: dropping blank lines and
//! comments, restricting a history to current candidates, and the tallies
//! and widths that a simulation report needs.

use vstd::prelude::*;

verus! {

/// A line that names a participant: non-empty and not a `#` comment.
pub open spec fn is_kept_line(line: String) -> bool {
    line@.len() > 0 && line@[0] != '#'
}

/// The lines of `lines` that name participants, in order.
pub open spec fn kept_lines(lines: Seq<String>) -> Seq<String>
    decreases lines.len(),
{
    if lines.len() == 0 {
        lines
    } else {
        let rest = kept_lines(lines.drop_last());
        if is_kept_line(lines.last()) {
            rest.push(lines.last())
        } else {
            rest
        }
    }
}

/// `name` stands somewhere in `candidates`.
pub open spec fn is_candidate(candidates: Seq<String>, name: String) -> bool {
    exists|j: int| 0 <= j < candidates.len() && candidates[j]@ == name@
}

/// The entries of `history` that stand in `candidates`, in order.
pub open spec fn candidate_entries(candidates: Seq<String>, history: Seq<String>) -> Seq<String>
    decreases history.len(),
{
    if history.len() == 0 {
        history
    } else {
        let rest = candidate_entries(candidates, history.drop_last());
        if is_candidate(candidates, history.last()) {
            rest.push(history.last())
        } else {
            rest
        }
    }
}

/// How many entries of `selections` carry the given name.
pub open spec fn count_matches(selections: Seq<String>, name: Seq<char>) -> nat
    decreases selections.len(),
{
    if selections.len() == 0 {
        0
    } else {
        count_matches(selections.drop_last(), name) + if selections.last()@ == name {
            1nat
        } else {
            0nat
        }
    }
}

/// Keeps the lines that name participants, dropping blank lines and `#`
/// comments.
pub fn non_blanks_nor_comments(lines: &Vec<String>) -> (kept: Vec<String>)
    ensures
        kept@ == kept_lines(lines@),
{
    let mut kept: Vec<String> = Vec::new();
    let mut i: usize = 0;
    while i < lines.len()
        invariant
            i <= lines@.len(),
            kept@ == kept_lines(lines@.subrange(0, i as int)),
        decreases lines@.len() - i,
    {
        let line = &lines[i];
        let len = line.as_str().unicode_len();
        if len > 0 && line.as_str().get_char(0) != '#' {
            kept.push(line.clone());
        }
        proof {
            assert(lines@.subrange(0, i + 1).drop_last() =~= lines@.subrange(0, i as int));
            assert(lines@.subrange(0, i + 1).last() == lines@[i as int]);
        }
        i = i + 1;
    }
    proof {
        assert(lines@.subrange(0, lines@.len() as int) =~= lines@);
    }
    kept
}

/// Keeps the non-empty lines.  A text box hands its text over line by
/// line, and only the non-empty ones name participants.
pub fn from_lines(lines: &Vec<String>) -> (kept: Vec<String>)
    ensures
        kept@ == non_empty_lines(lines@),
{
    let mut kept: Vec<String> = Vec::new();
    let mut i: usize = 0;
    while i < lines.len()
        invariant
            i <= lines@.len(),
            kept@ == non_empty_lines(lines@.subrange(0, i as int)),
        decreases lines@.len() - i,
    {
        let line = &lines[i];
        if line.as_str().unicode_len() > 0 {
            kept.push(line.clone());
        }
        proof {
            assert(lines@.subrange(0, i + 1).drop_last() =~= lines@.subrange(0, i as int));
            assert(lines@.subrange(0, i + 1).last() == lines@[i as int]);
        }
        i = i + 1;
    }
    proof {
        assert(lines@.subrange(0, lines@.len() as int) =~= lines@);
    }
    kept
}

/// The non-empty lines of `lines`, in order.
pub open spec fn non_empty_lines(lines: Seq<String>) -> Seq<String>
    decreases lines.len(),
{
    if lines.len() == 0 {
        lines
    } else {
        let rest = non_empty_lines(lines.drop_last());
        if lines.last()@.len() > 0 {
            rest.push(lines.last())
        } else {
            rest
        }
    }
}

/// Whether `name` stands somewhere in `candidates`.
fn member_of(candidates: &Vec<String>, name: &String) -> (b: bool)
    ensures
        b == is_candidate(candidates@, *name),
{
    let mut j: usize = 0;
    let mut found = false;
    while j < candidates.len()
        invariant
            j <= candidates@.len(),
            found == exists|t: int| 0 <= t < j && candidates@[t]@ == name@,
        decreases candidates@.len() - j,
    {
        if candidates[j].eq(name) {
            found = true;
        }
        j = j + 1;
    }
    found
}

/// Restricts a history to the entries that name current candidates.
///
/// Names that have left the candidate list are dropped before a selection
/// round, so that departed participants no longer weigh on anybody.
pub fn ignore_non_candidates(candidates: &Vec<String>, history: &Vec<String>) -> (kept: Vec<String>)
    ensures
        kept@ == candidate_entries(candidates@, history@),
{
    let mut kept: Vec<String> = Vec::new();
    let mut i: usize = 0;
    while i < history.len()
        invariant
            i <= history@.len(),
            kept@ == candidate_entries(candidates@, history@.subrange(0, i as int)),
        decreases history@.len() - i,
    {
        let entry = &history[i];
        if member_of(candidates, entry) {
            kept.push(entry.clone());
        }
        proof {
            assert(history@.subrange(0, i + 1).drop_last() =~= history@.subrange(0, i as int));
            assert(history@.subrange(0, i + 1).last() == history@[i as int]);
        }
        i = i + 1;
    }
    proof {
        assert(history@.subrange(0, history@.len() as int) =~= history@);
    }
    kept
}

/// How often each participant was selected: one count per participant, in
/// participant order.  Participants that share a name share their tally.
pub fn tally_counts(participants: &Vec<String>, selections: &Vec<String>) -> (counts: Vec<u64>)
    ensures
        counts@.len() == participants@.len(),
        forall|j: int|
            0 <= j < participants@.len() ==> counts@[j] == count_matches(
                selections@,
                participants@[j]@,
            ),
{
    let mut counts: Vec<u64> = Vec::new();
    let mut j: usize = 0;
    while j < participants.len()
        invariant
            j <= participants@.len(),
            counts@.len() == j,
            forall|t: int|
                0 <= t < j ==> counts@[t] == count_matches(selections@, participants@[t]@),
        decreases participants@.len() - j,
    {
        let name = &participants[j];
        let mut c: u64 = 0;
        let mut i: usize = 0;
        while i < selections.len()
            invariant
                i <= selections@.len(),
                j < participants@.len(),
                name@ == participants@[j as int]@,
                c == count_matches(selections@.subrange(0, i as int), name@),
                c <= i,
            decreases selections@.len() - i,
        {
            if selections[i].eq(name) {
                c = c + 1;
            }
            proof {
                assert(selections@.subrange(0, i + 1).drop_last() =~= selections@.subrange(
                    0,
                    i as int,
                ));
                assert(selections@.subrange(0, i + 1).last() == selections@[i as int]);
            }
            i = i + 1;
        }
        proof {
            assert(selections@.subrange(0, selections@.len() as int) =~= selections@);
        }
        counts.push(c);
        j = j + 1;
    }
    counts
}

/// The length, in characters, of the longest name, for aligning a report.
/// `None` exactly on an empty list.
pub fn max_name_chars(names: &Vec<String>) -> (r: Option<usize>)
    ensures
        r is Some <==> names@.len() > 0,
        r matches Some(m) ==> ({
            &&& exists|i: int| 0 <= i < names@.len() && names@[i]@.len() == m
            &&& forall|i: int| 0 <= i < names@.len() ==> names@[i]@.len() <= m
        }),
{
    if names.len() == 0 {
        return None;
    }
    let mut best: usize = names[0].as_str().unicode_len();
    let mut i: usize = 1;
    while i < names.len()
        invariant
            1 <= i <= names@.len(),
            exists|t: int| 0 <= t < i && names@[t]@.len() == best,
            forall|t: int| 0 <= t < i ==> names@[t]@.len() <= best,
        decreases names@.len() - i,
    {
        let len = names[i].as_str().unicode_len();
        if len > best {
            best = len;
        }
        i = i + 1;
    }
    Some(best)
}

} // verus!
