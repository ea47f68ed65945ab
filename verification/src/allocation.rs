//! The allocation loop: a bounded number of attempts, each of which draws a
//! candidate, discards it if it is purely numeric and otherwise asks the
//! registry store whether the value is taken.

use vstd::prelude::*;
use vstd::string::StringExecFns;
use crate::candidate::{
    all_numeric, generate_candidate, is_all_numeric, is_candidate, is_decimal_digit,
    lemma_digit_free_not_numeric, lemma_digits_only_numeric,
};
use crate::decimal::{decimal, decimal_string};
use crate::settings::Settings;
use crate::text::chars_of;

verus! {

/// The number of attempts one allocation may make.
pub const MAX_RETRIES: u32 = 100;

/// Where an allocation stands.
#[derive(Debug, Clone, PartialEq, Eq)]
pub enum AllocationState {
    /// Attempt number `n` (counted from 1) is about to draw its candidate.
    Attempting(u32),
    /// Attempt number `n` drew this candidate, which is not numeric; the
    /// store has to say whether it is taken.
    Checking(u32, String),
    /// The candidate was free when the store was asked.
    Success(String),
    /// Every attempt was used up.
    Exhausted,
}

/// What an `AllocationState` holds.
pub enum Phase {
    Attempting(nat),
    Checking(nat, Seq<char>),
    Success(Seq<char>),
    Exhausted,
}

impl View for AllocationState {
    type V = Phase;

    open spec fn view(&self) -> Phase {
        match self {
            AllocationState::Attempting(n) => Phase::Attempting(*n as nat),
            AllocationState::Checking(n, candidate) => Phase::Checking(*n as nat, candidate@),
            AllocationState::Success(id) => Phase::Success(id@),
            AllocationState::Exhausted => Phase::Exhausted,
        }
    }
}

/// The phase after attempt `n` has failed: the next attempt, or exhaustion
/// once the last one is used up.
pub open spec fn after_failure(n: nat) -> Phase {
    if n < MAX_RETRIES {
        Phase::Attempting(n + 1)
    } else {
        Phase::Exhausted
    }
}

impl Phase {
    /// The phase an allocation starts in.
    pub open spec fn initial() -> Phase {
        Phase::Attempting(1)
    }

    /// The phase after a candidate was drawn. A numeric candidate fails the
    /// attempt at once; any other waits for the store. Outside `Attempting`
    /// a candidate changes nothing.
    pub open spec fn propose(self, candidate: Seq<char>) -> Phase {
        match self {
            Phase::Attempting(n) => if all_numeric(candidate) {
                after_failure(n)
            } else {
                Phase::Checking(n, candidate)
            },
            _ => self,
        }
    }

    /// The phase after the store has answered. A taken candidate fails the
    /// attempt; a free one ends the allocation. Outside `Checking` an answer
    /// changes nothing.
    pub open spec fn resolve(self, taken: bool) -> Phase {
        match self {
            Phase::Checking(n, candidate) => if taken {
                after_failure(n)
            } else {
                Phase::Success(candidate)
            },
            _ => self,
        }
    }

    /// Attempt numbers lie in `1..=MAX_RETRIES`, and no candidate that waits
    /// for the store or was issued is numeric.
    pub open spec fn wf(self) -> bool {
        match self {
            Phase::Attempting(n) => 1 <= n <= MAX_RETRIES,
            Phase::Checking(n, candidate) => 1 <= n <= MAX_RETRIES && !all_numeric(candidate),
            Phase::Success(id) => !all_numeric(id),
            Phase::Exhausted => true,
        }
    }

    /// The allocation is over.
    pub open spec fn is_final(self) -> bool {
        self is Success || self is Exhausted
    }

    /// An upper bound on the number of transitions still to come.
    pub open spec fn budget(self) -> nat {
        match self {
            Phase::Attempting(n) => if n <= MAX_RETRIES {
                (2 * (MAX_RETRIES - n) + 2) as nat
            } else {
                2
            },
            Phase::Checking(n, _) => if n <= MAX_RETRIES {
                (2 * (MAX_RETRIES - n) + 1) as nat
            } else {
                1
            },
            _ => 0,
        }
    }
}

/// Whether a store that holds `matching_rows` rows under an identifier holds
/// that identifier: rows count whether confirmed or not, deleted or not.
pub fn id_exists(matching_rows: u64) -> (taken: bool)
    ensures
        taken == (matching_rows > 0),
{
    matching_rows > 0
}

impl AllocationState {
    /// The state an allocation starts in: the first attempt.
    pub fn start() -> (state: AllocationState)
        ensures
            state@ == Phase::initial(),
    {
        AllocationState::Attempting(1)
    }

    /// Hands the candidate of the current attempt to the allocation.
    pub fn propose(self, candidate: String) -> (next: AllocationState)
        ensures
            next@ == self@.propose(candidate@),
    {
        match self {
            AllocationState::Attempting(n) => {
                if is_all_numeric(candidate.as_str()) {
                    failed(n)
                } else {
                    AllocationState::Checking(n, candidate)
                }
            },
            other => other,
        }
    }

    /// Hands the store's answer on the waiting candidate to the allocation.
    pub fn resolve(self, taken: bool) -> (next: AllocationState)
        ensures
            next@ == self@.resolve(taken),
    {
        match self {
            AllocationState::Checking(n, candidate) => {
                if taken {
                    failed(n)
                } else {
                    AllocationState::Success(candidate)
                }
            },
            other => other,
        }
    }
}

fn failed(n: u32) -> (next: AllocationState)
    ensures
        next@ == after_failure(n as nat),
{
    if n < MAX_RETRIES {
        AllocationState::Attempting(n + 1)
    } else {
        AllocationState::Exhausted
    }
}

/// Why an allocation gave no identifier. `E` is the store's own error.
#[derive(Debug, Clone, PartialEq, Eq)]
pub enum AllocationError<E> {
    /// There is no character to draw from.
    EmptyCharset,
    /// Every attempt drew a numeric or a taken candidate.
    Exhausted { attempts: u32 },
    /// The store failed when asked about a candidate.
    Store(E),
}

impl<E> AllocationError<E> {
    /// The text of the error, where it has one of its own: a failure of the
    /// store is described by the store's error.
    pub open spec fn text(self) -> Option<Seq<char>> {
        match self {
            AllocationError::EmptyCharset => Some("Charset is empty"@),
            AllocationError::Exhausted { attempts } => Some(
                "Failed to generate unique ID after "@ + decimal(attempts as nat)
                    + " attempts. Database may be very full."@,
            ),
            AllocationError::Store(_) => None,
        }
    }

    /// The text of the error, where it has one of its own.
    pub fn message(&self) -> (msg: Option<String>)
        ensures
            match msg {
                Some(text) => self.text() == Some(text@),
                None => self.text() is None,
            },
    {
        match self {
            AllocationError::EmptyCharset => Some("Charset is empty".to_owned()),
            AllocationError::Exhausted { attempts } => {
                let mut text = "Failed to generate unique ID after ".to_owned();
                text.append(decimal_string(*attempts as u64).as_str());
                text.append(" attempts. Database may be very full.");
                Some(text)
            },
            AllocationError::Store(_) => None,
        }
    }
}

/// The store, asked how many rows hold `id`, gave `answer`.
pub open spec fn store_answered<E, F: Fn(&str) -> Result<u64, E>>(
    store: F,
    id: Seq<char>,
    answer: Result<u64, E>,
) -> bool {
    exists|s: &str| s@ == id && #[trigger] store.ensures((s,), answer)
}

/// The store, asked about a candidate that is not numeric, failed with `e`.
pub open spec fn store_failed<E, F: Fn(&str) -> Result<u64, E>>(
    store: F,
    charset: Seq<char>,
    id_length: nat,
    e: E,
) -> bool {
    exists|s: &str|
        {
            &&& is_candidate(s@, charset, id_length)
            &&& !all_numeric(s@)
            &&& #[trigger] store.ensures((s,), Err::<u64, E>(e))
        }
}

/// The store never fails and never holds the identifier it is asked about.
pub open spec fn store_always_free<E, F: Fn(&str) -> Result<u64, E>>(store: F) -> bool {
    forall|s: &str, answer: Result<u64, E>| #[trigger]
        store.ensures((s,), answer) ==> answer == Ok::<u64, E>(0)
}

/// No character of `charset` is a decimal digit.
pub open spec fn digit_free(charset: Seq<char>) -> bool {
    forall|k: int| 0 <= k < charset.len() ==> !is_decimal_digit(#[trigger] charset[k])
}

/// What `generate_id` knows of its state between two transitions.
spec fn on_course<E, F: Fn(&str) -> Result<u64, E>>(
    phase: Phase,
    store: F,
    charset: Seq<char>,
    id_length: nat,
) -> bool {
    &&& phase.wf()
    &&& match phase {
        Phase::Checking(_, candidate) => is_candidate(candidate, charset, id_length),
        Phase::Success(id) => is_candidate(id, charset, id_length) && store_answered(
            store,
            id,
            Ok(0),
        ),
        _ => true,
    }
    &&& id_length == 0 || all_numeric(charset) ==> phase is Attempting || phase is Exhausted
    &&& id_length > 0 && digit_free(charset) && store_always_free(store) ==> phase
        == Phase::initial() || phase is Checking || phase is Success
}

/// Allocates an identifier: draws candidates under `settings` until one is
/// neither numeric nor held by the store, for at most `MAX_RETRIES` attempts.
///
/// `count_matching` asks the store how many rows hold a candidate. It is
/// asked about candidates that are not numeric only, and the identifier
/// returned is one for which it answered zero. Nothing is written: between
/// that answer and the caller's insert another allocation may take the same
/// value, which the store's uniqueness constraint then refuses.
pub fn generate_id<E, F: Fn(&str) -> Result<u64, E>>(count_matching: F, settings: &Settings) -> (r:
    Result<String, AllocationError<E>>)
    requires
        forall|s: &str| count_matching.requires((s,)),
    ensures
        r matches Err(AllocationError::EmptyCharset) <==> settings@.charset.len() == 0,
        r matches Ok(id) ==> {
            &&& is_candidate(id@, settings@.charset, settings@.id_length)
            &&& !all_numeric(id@)
            &&& store_answered(count_matching, id@, Ok(0))
        },
        r matches Err(AllocationError::Exhausted { attempts }) ==> attempts == MAX_RETRIES,
        r matches Err(AllocationError::Store(e)) ==> store_failed(
            count_matching,
            settings@.charset,
            settings@.id_length,
            e,
        ),
        settings@.charset.len() > 0 && (settings@.id_length == 0 || all_numeric(
            settings@.charset,
        )) ==> r == Err::<String, AllocationError<E>>(
            AllocationError::Exhausted { attempts: MAX_RETRIES },
        ),
        settings@.valid() && digit_free(settings@.charset) && store_always_free(count_matching)
            ==> r is Ok,
{
    let charset = chars_of(settings.charset.as_str());
    if charset.len() == 0 {
        return Err(AllocationError::EmptyCharset);
    }
    let mut rng = rand::thread_rng();
    let mut state = AllocationState::start();
    loop
        invariant
            charset@ == settings@.charset,
            charset@.len() > 0,
            forall|s: &str| count_matching.requires((s,)),
            on_course(state@, count_matching, settings@.charset, settings@.id_length),
        decreases state@.budget(),
    {
        match state {
            AllocationState::Attempting(n) => {
                let candidate = generate_candidate(&charset, settings.id_length, &mut rng);
                proof {
                    if all_numeric(charset@) {
                        lemma_digits_only_numeric(candidate@, charset@);
                    }
                    if settings.id_length > 0 && digit_free(charset@) {
                        lemma_digit_free_not_numeric(candidate@, charset@);
                    }
                }
                state = AllocationState::Attempting(n).propose(candidate);
            },
            AllocationState::Checking(n, candidate) => {
                match count_matching(candidate.as_str()) {
                    Ok(rows) => {
                        assert(store_answered(count_matching, candidate@, Ok(rows)));
                        state = AllocationState::Checking(n, candidate).resolve(id_exists(rows));
                    },
                    Err(e) => {
                        return Err(AllocationError::Store(e));
                    },
                }
            },
            AllocationState::Success(id) => {
                return Ok(id);
            },
            AllocationState::Exhausted => {
                return Err(AllocationError::Exhausted { attempts: MAX_RETRIES });
            },
        }
    }
}

/// Every transition keeps a well-formed phase well-formed, and the first
/// phase is well-formed: no allocation ever issues a numeric identifier.
pub proof fn lemma_transitions_keep_wf(phase: Phase, candidate: Seq<char>, taken: bool)
    requires
        phase.wf(),
    ensures
        Phase::initial().wf(),
        phase.propose(candidate).wf(),
        phase.resolve(taken).wf(),
{
}

/// Every transition out of a phase that is not final uses up budget, so an
/// allocation ends after at most `2 * MAX_RETRIES` transitions.
pub proof fn lemma_transitions_use_budget(phase: Phase, candidate: Seq<char>, taken: bool)
    ensures
        Phase::initial().budget() == 2 * MAX_RETRIES,
        phase is Attempting ==> phase.propose(candidate).budget() < phase.budget(),
        phase is Checking ==> phase.resolve(taken).budget() < phase.budget(),
        phase.budget() == 0 <==> phase.is_final(),
{
}

} // verus!
