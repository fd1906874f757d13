//! The structure of one selection round: recency window sizing, decay ages,
//! occurrence and recency masks, the exclusion decision, and the lookup of
//! the drawn name.

use vstd::prelude::*;

use crate::error::ChooseError;

verus! {

/// The largest `k` with `2^k <= n`, and `0` for `n < 2`.
pub open spec fn floor_log2(n: nat) -> nat
    decreases n,
{
    if n < 2 {
        0
    } else {
        floor_log2((n / 2) as nat) + 1
    }
}

/// The floor of the base-two logarithm grows strictly slower than its
/// argument.
pub proof fn lemma_floor_log2_lt(n: nat)
    requires
        n >= 1,
    ensures
        floor_log2(n) < n,
    decreases n,
{
    if n >= 2 {
        lemma_floor_log2_lt((n / 2) as nat);
    }
}

/// How many of the most recent history entries count as too recent to
/// repeat: the floor of the base-two logarithm of the history length,
/// capped at half the number of participants.
pub open spec fn recency_window(n_history: nat, n_participants: nat) -> nat {
    if floor_log2(n_history) <= n_participants / 2 {
        floor_log2(n_history)
    } else {
        n_participants / 2
    }
}

/// The size of the recency window for a non-empty history.
///
/// An empty history short-circuits the whole selection round before any
/// window is computed, so this helper is only defined for `n_history >= 1`.
pub fn n_recent_for_history_and_participants(n_history: usize, n_participants: usize) -> (recent:
    usize)
    requires
        n_history >= 1,
    ensures
        recent == recency_window(n_history as nat, n_participants as nat),
        recent < n_history,
{
    let mut m: usize = n_history;
    let mut k: usize = 0;
    while m >= 2
        invariant
            1 <= m <= n_history,
            k + m <= n_history,
            floor_log2(n_history as nat) == k + floor_log2(m as nat),
        decreases m,
    {
        m = m / 2;
        k = k + 1;
    }
    proof {
        lemma_floor_log2_lt(n_history as nat);
    }
    let cap: usize = n_participants / 2;
    if k <= cap {
        k
    } else {
        cap
    }
}

/// `name` stands somewhere in the last `window` entries of `history`.
pub open spec fn appears_recently(name: Seq<char>, history: Seq<String>, window: nat) -> bool {
    exists|i: int| history.len() - window <= i < history.len() && history[i]@ == name
}

/// Every participant stands somewhere in the last `window` history entries.
pub open spec fn everyone_recent(participants: Seq<String>, history: Seq<String>, window: nat) -> bool {
    forall|j: int|
        0 <= j < participants.len() ==> appears_recently(participants[j]@, history, window)
}

/// Participant `j` is barred from this round: it was chosen within the
/// recency window, and barring it cannot empty the pool because somebody
/// else was not.
pub open spec fn is_excluded(
    participants: Seq<String>,
    history: Seq<String>,
    window: nat,
    j: int,
) -> bool {
    appears_recently(participants[j]@, history, window) && !everyone_recent(
        participants,
        history,
        window,
    )
}

/// The age of each history position, measured from the end of the history:
/// the most recent entry has age `0`, the oldest has age `n_history - 1`.
/// Decay factors are computed from these ages by the caller.
pub fn position_ages(n_history: usize) -> (ages: Vec<usize>)
    ensures
        ages@.len() == n_history,
        forall|i: int| 0 <= i < n_history ==> ages@[i] == n_history - 1 - i,
{
    let mut ages: Vec<usize> = Vec::new();
    let mut i: usize = 0;
    while i < n_history
        invariant
            i <= n_history,
            ages@.len() == i,
            forall|t: int| 0 <= t < i ==> ages@[t] == n_history - 1 - t,
        decreases n_history - i,
    {
        ages.push(n_history - 1 - i);
        i = i + 1;
    }
    ages
}

/// For each history position, whether that entry names the given
/// participant.  The caller sums the decay factors of the marked positions
/// to obtain the participant's history weight.
pub fn occurrence_mask(history: &Vec<String>, name: &String) -> (mask: Vec<bool>)
    ensures
        mask@.len() == history@.len(),
        forall|i: int| 0 <= i < history@.len() ==> mask@[i] == (history@[i]@ == name@),
{
    let mut mask: Vec<bool> = Vec::new();
    let mut i: usize = 0;
    while i < history.len()
        invariant
            i <= history@.len(),
            mask@.len() == i,
            forall|t: int| 0 <= t < i ==> mask@[t] == (history@[t]@ == name@),
        decreases history@.len() - i,
    {
        mask.push(history[i].eq(name));
        i = i + 1;
    }
    mask
}

/// For each participant, whether it stands in the last `window` entries of
/// the history.
fn recent_mask(participants: &Vec<String>, history: &Vec<String>, window: usize) -> (mask: Vec<
    bool,
>)
    requires
        window <= history@.len(),
    ensures
        mask@.len() == participants@.len(),
        forall|j: int|
            0 <= j < participants@.len() ==> mask@[j] == appears_recently(
                participants@[j]@,
                history@,
                window as nat,
            ),
{
    let start: usize = history.len() - window;
    let mut mask: Vec<bool> = Vec::new();
    let mut j: usize = 0;
    while j < participants.len()
        invariant
            j <= participants@.len(),
            mask@.len() == j,
            start == history@.len() - window,
            forall|t: int|
                0 <= t < j ==> mask@[t] == appears_recently(
                    participants@[t]@,
                    history@,
                    window as nat,
                ),
        decreases participants@.len() - j,
    {
        let mut found = false;
        let mut i: usize = start;
        while i < history.len()
            invariant
                start <= i <= history@.len(),
                j < participants@.len(),
                found == exists|t: int|
                    start <= t < i && history@[t]@ == participants@[j as int]@,
            decreases history@.len() - i,
        {
            if history[i].eq(&participants[j]) {
                found = true;
            }
            i = i + 1;
        }
        mask.push(found);
        j = j + 1;
    }
    mask
}

/// The decisions of one selection round that do not depend on the random
/// draw: whether the weights start out uniform, how wide the recency window
/// is, which participants fall in it, and which of them are barred.
pub struct SelectionPlan {
    /// The history was empty, so every participant gets the same weight.
    pub uniform: bool,
    /// How many of the most recent history entries count as too recent.
    pub n_recent: usize,
    /// For each participant, whether it stands in the recency window.
    pub recent: Vec<bool>,
    /// For each participant, whether its weight is forced to zero.  Nobody
    /// is barred when every participant is recent, so that a selection can
    /// still occur when the pool is small relative to the window.
    pub excluded: Vec<bool>,
}

/// The deterministic part of one selection round.
///
/// Fails exactly on an empty participant list.  Otherwise it reports the
/// recency window, the recent participants, and the barred participants;
/// the caller then draws one weight per participant, zeroes the barred
/// ones, and makes the weighted draw.
pub fn selection_plan(participants: &Vec<String>, history: &Vec<String>) -> (r: Result<
    SelectionPlan,
    ChooseError,
>)
    ensures
        r is Err <==> participants@.len() == 0,
        r matches Err(e) ==> e == ChooseError::InvalidInput,
        r matches Ok(plan) ==> ({
            &&& plan.uniform == (history@.len() == 0)
            &&& plan.n_recent == recency_window(history@.len(), participants@.len())
            &&& plan.n_recent <= history@.len()
            &&& plan.recent@.len() == participants@.len()
            &&& forall|j: int|
                0 <= j < participants@.len() ==> plan.recent@[j] == appears_recently(
                    participants@[j]@,
                    history@,
                    plan.n_recent as nat,
                )
            &&& plan.excluded@.len() == participants@.len()
            &&& forall|j: int|
                0 <= j < participants@.len() ==> plan.excluded@[j] == is_excluded(
                    participants@,
                    history@,
                    plan.n_recent as nat,
                    j,
                )
        }),
{
    if participants.len() == 0 {
        return Err(ChooseError::InvalidInput);
    }
    let n_recent: usize = if history.len() == 0 {
        proof {
            assert(floor_log2(0) == 0);
        }
        0
    } else {
        n_recent_for_history_and_participants(history.len(), participants.len())
    };
    let recent = recent_mask(participants, history, n_recent);
    let mut all_recent = true;
    let mut j: usize = 0;
    while j < participants.len()
        invariant
            j <= participants@.len(),
            recent@.len() == participants@.len(),
            all_recent == (forall|t: int| 0 <= t < j ==> recent@[t]),
        decreases participants@.len() - j,
    {
        if !recent[j] {
            all_recent = false;
        }
        j = j + 1;
    }
    proof {
        if all_recent {
            assert forall|t: int|
                0 <= t < participants@.len() implies appears_recently(
                participants@[t]@,
                history@,
                n_recent as nat,
            ) by {
                assert(recent@[t]);
            }
        }
        assert(all_recent == everyone_recent(participants@, history@, n_recent as nat));
    }
    let mut excluded: Vec<bool> = Vec::new();
    let mut k: usize = 0;
    while k < participants.len()
        invariant
            k <= participants@.len(),
            recent@.len() == participants@.len(),
            excluded@.len() == k,
            all_recent == everyone_recent(participants@, history@, n_recent as nat),
            forall|j2: int|
                0 <= j2 < participants@.len() ==> recent@[j2] == appears_recently(
                    participants@[j2]@,
                    history@,
                    n_recent as nat,
                ),
            forall|t: int|
                0 <= t < k ==> excluded@[t] == is_excluded(
                    participants@,
                    history@,
                    n_recent as nat,
                    t,
                ),
        decreases participants@.len() - k,
    {
        excluded.push(recent[k] && !all_recent);
        k = k + 1;
    }
    Ok(
        SelectionPlan {
            uniform: history.len() == 0,
            n_recent,
            recent,
            excluded,
        },
    )
}

/// Law: a pool of one can never lose its only participant to the recency
/// window.  Whatever the history, the window for a single participant has
/// size zero, so that participant is neither recent nor barred.
pub proof fn lemma_single_candidate_not_excluded(participants: Seq<String>, history: Seq<String>)
    requires
        participants.len() == 1,
    ensures
        recency_window(history.len(), participants.len()) == 0,
        !is_excluded(participants, history, recency_window(history.len(), participants.len()), 0),
{
    assert(participants.len() / 2 == 0);
    assert(!appears_recently(participants[0]@, history, 0));
}

/// Law: the recency window never reaches more than half the pool,
/// whatever the length of the history.
pub proof fn lemma_window_at_most_half_pool(n_history: nat, n_participants: nat)
    ensures
        recency_window(n_history, n_participants) <= n_participants / 2,
{
}

/// Law: when the participant names are distinct, the history repeats them
/// in order, and the recency window is smaller than the pool, the barred
/// participants are exactly those inside the window.  The fallback that
/// waives the exclusion cannot fire, because the window is too short to
/// reach the first participant.
pub proof fn lemma_distinct_pool_bars_window(
    participants: Seq<String>,
    history: Seq<String>,
    window: nat,
    j: int,
)
    requires
        window < participants.len(),
        history.len() == participants.len(),
        forall|a: int, b: int|
            0 <= a < b < participants.len() ==> participants[a]@ != participants[b]@,
        forall|i: int| 0 <= i < history.len() ==> history[i]@ == participants[i]@,
        0 <= j < participants.len(),
    ensures
        is_excluded(participants, history, window, j) <==> participants.len() - window <= j,
{
    assert(!appears_recently(participants[0]@, history, window)) by {
        assert forall|i: int|
            history.len() - window <= i < history.len() implies history[i]@
            != participants[0]@ by {
            assert(history[i]@ == participants[i]@);
            assert(0 < i < participants.len());
        }
    }
    assert(!everyone_recent(participants, history, window));
    if participants.len() - window <= j {
        assert(history[j]@ == participants[j]@);
        assert(appears_recently(participants[j]@, history, window));
    } else {
        assert(!appears_recently(participants[j]@, history, window)) by {
            assert forall|i: int|
                history.len() - window <= i < history.len() implies history[i]@
                != participants[j]@ by {
                assert(history[i]@ == participants[i]@);
                assert(0 <= j < i < participants.len());
            }
        }
    }
}

/// The name that a weighted draw landed on.
///
/// An index out of bounds reports a degenerate draw rather than panicking.
pub fn selected_name(participants: &Vec<String>, index: usize) -> (r: Result<String, ChooseError>)
    ensures
        r is Ok <==> index < participants@.len(),
        r matches Ok(name) ==> name@ == participants@[index as int]@,
        r matches Err(e) ==> e == ChooseError::SamplingError,
{
    if index < participants.len() {
        Ok(participants[index].clone())
    } else {
        Err(ChooseError::SamplingError)
    }
}

} // verus!


