//! Fetch decisions: one request per client identity, in list order, until one succeeds.

use vstd::prelude::*;

verus! {

/// What one request with one client identity came back with.
#[derive(Debug, Clone, PartialEq, Eq)]
pub enum Attempt {
    /// A transport or protocol failure: nothing came back.
    Failed,
    /// A response with a non-success status.
    Status { code: u16, body: String },
    /// A success response and its body.
    Success { body: String },
}

/// A failure response worth keeping for diagnosis.
#[derive(Debug, Clone, PartialEq, Eq)]
pub struct Diagnostic {
    /// The index of the identity that got this response.
    pub identity: usize,
    pub code: u16,
    pub body: String,
}

/// Why a fetch failed.
#[derive(Debug, Clone, Copy, PartialEq, Eq, Structural)]
pub enum FetchError {
    /// Every client identity was tried and none succeeded.
    AllIdentitiesFailed,
}

/// What the caller does next.
#[derive(Debug, Clone, PartialEq, Eq)]
pub enum FetchStep {
    /// Issue one request declaring the identity at this index.
    Request { identity: usize },
    /// The fetch succeeded with this body.
    Deliver { body: String },
    /// The fetch failed.
    Fail(FetchError),
}

/// The step after an attempt, and the failure to record, if any.
#[derive(Debug, Clone, PartialEq, Eq)]
pub struct Decision {
    pub step: FetchStep,
    pub record: Option<Diagnostic>,
}

/// The step after identity `tried` of `n` failed: the next identity, or failure.
pub open spec fn after_failure(n: nat, tried: nat) -> FetchStep {
    if tried + 1 < n {
        FetchStep::Request { identity: (tried + 1) as usize }
    } else {
        FetchStep::Fail(FetchError::AllIdentitiesFailed)
    }
}

/// The decision on `attempt`, made with identity `tried` of `n`.
pub open spec fn decide(n: nat, tried: nat, attempt: Attempt) -> Decision {
    match attempt {
        Attempt::Success { body } => Decision { step: FetchStep::Deliver { body }, record: None },
        Attempt::Status { code, body } => Decision {
            step: after_failure(n, tried),
            record: Some(Diagnostic { identity: tried as usize, code, body }),
        },
        Attempt::Failed => Decision { step: after_failure(n, tried), record: None },
    }
}

/// How a whole fetch ends.
pub ghost struct FetchRun {
    /// The body delivered, if any identity succeeded.
    pub delivered: Option<String>,
    /// How many identities were tried.
    pub attempted: nat,
    /// The body of the last failure recorded.
    pub last_record: Option<String>,
}

/// The fetch that follows the decisions from identity `i` on, where
/// `outcomes[j]` is what a request with identity `j` comes back with and
/// `last` is the last failure recorded so far.
pub open spec fn drive(n: nat, outcomes: Seq<Attempt>, i: nat, last: Option<String>) -> FetchRun
    decreases n - i,
{
    if i >= n || i >= outcomes.len() {
        FetchRun { delivered: None, attempted: i, last_record: last }
    } else {
        let d = decide(n, i, outcomes[i as int]);
        let last2 = match d.record {
            Some(r) => Some(r.body),
            None => last,
        };
        match d.step {
            FetchStep::Deliver { body } => FetchRun {
                delivered: Some(body),
                attempted: i + 1,
                last_record: last2,
            },
            FetchStep::Request { identity } => if identity == i + 1 {
                drive(n, outcomes, i + 1, last2)
            } else {
                FetchRun { delivered: None, attempted: i + 1, last_record: last2 }
            },
            FetchStep::Fail(_) => FetchRun {
                delivered: None,
                attempted: i + 1,
                last_record: last2,
            },
        }
    }
}

/// The body of the last non-success status among `outcomes[i..n]`.
pub open spec fn last_status_body(outcomes: Seq<Attempt>, i: nat, n: nat) -> Option<String>
    decreases n - i,
{
    if i >= n {
        None
    } else {
        match last_status_body(outcomes, i + 1, n) {
            Some(b) => Some(b),
            None => match outcomes[i as int] {
                Attempt::Status { body, .. } => Some(body),
                _ => None,
            },
        }
    }
}

/// Tries an ordered list of client identities, one request each, until one succeeds.
#[derive(Debug, Clone)]
pub struct Fetcher {
    identities: Vec<String>,
}

impl Fetcher {
    /// The identities, in the order they are tried.
    pub closed spec fn identities(&self) -> Seq<String> {
        self.identities@
    }

    /// A fetcher that tries `identities` in order.
    pub fn new(identities: Vec<String>) -> (r: Fetcher)
        ensures
            r.identities() == identities@,
    {
        Fetcher { identities }
    }

    /// How many identities there are.
    pub fn len(&self) -> (r: usize)
        ensures
            r == self.identities().len(),
    {
        self.identities.len()
    }

    /// The identity at index `i`.
    pub fn identity(&self, i: usize) -> (r: &String)
        requires
            i < self.identities().len(),
        ensures
            *r == self.identities()[i as int],
    {
        &self.identities[i]
    }

    /// The first step: a request with the first identity, or failure when there is none.
    pub fn start(&self) -> (r: FetchStep)
        ensures
            self.identities().len() > 0 ==> r == (FetchStep::Request { identity: 0 }),
            self.identities().len() == 0 ==> r == FetchStep::Fail(FetchError::AllIdentitiesFailed),
    {
        if self.identities.len() > 0 {
            FetchStep::Request { identity: 0 }
        } else {
            FetchStep::Fail(FetchError::AllIdentitiesFailed)
        }
    }

    /// The decision on what a request with identity `tried` came back with:
    /// a success delivers its body at once; a failure moves on to the next
    /// identity, or fails when none is left; a non-success status is also
    /// recorded for diagnosis.
    pub fn next(&self, tried: usize, attempt: Attempt) -> (r: Decision)
        requires
            tried < self.identities().len(),
        ensures
            r == decide(self.identities().len(), tried as nat, attempt),
    {
        let n = self.identities.len();
        let after = if tried + 1 < n {
            FetchStep::Request { identity: tried + 1 }
        } else {
            FetchStep::Fail(FetchError::AllIdentitiesFailed)
        };
        match attempt {
            Attempt::Success { body } => Decision { step: FetchStep::Deliver { body }, record: None },
            Attempt::Status { code, body } => Decision {
                step: after,
                record: Some(Diagnostic { identity: tried, code, body }),
            },
            Attempt::Failed => Decision { step: after, record: None },
        }
    }
}

/// When identities `0..k` all fail and identity `k` succeeds, the fetch
/// delivers that body after exactly `k + 1` requests, made in list order:
/// identity `k + 1` is never tried.
pub proof fn lemma_first_success_stops(n: nat, outcomes: Seq<Attempt>, k: nat)
    requires
        outcomes.len() == n,
        n <= usize::MAX,
        k < n,
        forall|j: int| 0 <= j < k ==> !(#[trigger] outcomes[j] is Success),
        outcomes[k as int] is Success,
    ensures
        drive(n, outcomes, 0, None).delivered == Some(outcomes[k as int]->Success_body),
        drive(n, outcomes, 0, None).attempted == k + 1,
{
    lemma_success_from(n, outcomes, k, 0, None);
}

proof fn lemma_success_from(n: nat, outcomes: Seq<Attempt>, k: nat, i: nat, last: Option<String>)
    requires
        outcomes.len() == n,
        n <= usize::MAX,
        i <= k < n,
        forall|j: int| 0 <= j < k ==> !(#[trigger] outcomes[j] is Success),
        outcomes[k as int] is Success,
    ensures
        drive(n, outcomes, i, last).delivered == Some(outcomes[k as int]->Success_body),
        drive(n, outcomes, i, last).attempted == k + 1,
    decreases k - i,
{
    if i < k {
        let d = decide(n, i, outcomes[i as int]);
        let last2 = match d.record {
            Some(r) => Some(r.body),
            None => last,
        };
        assert(!(outcomes[i as int] is Success));
        assert(d.step == after_failure(n, i));
        assert(d.step == (FetchStep::Request { identity: (i + 1) as usize }));
        lemma_success_from(n, outcomes, k, i + 1, last2);
    }
}

/// When every identity fails, the fetch fails after trying all of them, and
/// the last failure recorded is the body of the last non-success status.
pub proof fn lemma_all_failing(n: nat, outcomes: Seq<Attempt>)
    requires
        outcomes.len() == n,
        n <= usize::MAX,
        forall|j: int| 0 <= j < n ==> !(#[trigger] outcomes[j] is Success),
    ensures
        drive(n, outcomes, 0, None).delivered is None,
        drive(n, outcomes, 0, None).attempted == n,
        drive(n, outcomes, 0, None).last_record == last_status_body(outcomes, 0, n),
{
    lemma_failing_from(n, outcomes, 0, None);
}

proof fn lemma_failing_from(n: nat, outcomes: Seq<Attempt>, i: nat, last: Option<String>)
    requires
        outcomes.len() == n,
        n <= usize::MAX,
        i <= n,
        forall|j: int| 0 <= j < n ==> !(#[trigger] outcomes[j] is Success),
    ensures
        drive(n, outcomes, i, last).delivered is None,
        drive(n, outcomes, i, last).attempted == n,
        drive(n, outcomes, i, last).last_record == match last_status_body(outcomes, i, n) {
            Some(b) => Some(b),
            None => last,
        },
    decreases n - i,
{
    if i < n {
        let d = decide(n, i, outcomes[i as int]);
        let last2 = match d.record {
            Some(r) => Some(r.body),
            None => last,
        };
        assert(!(outcomes[i as int] is Success));
        assert(d.step == after_failure(n, i));
        lemma_failing_from(n, outcomes, i + 1, last2);
        if i + 1 == n {
            assert(last_status_body(outcomes, i + 1, n) is None);
        }
    }
}

} // verus!
