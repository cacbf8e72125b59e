use vstd::prelude::*;

verus! {

/// Number of attempts of the default policy, suited to network requests.
pub const DEFAULT_MAX_RETRIES: u8 = 7;

/// The attempt limit of a retry policy: a run makes at most
/// `max_retries` attempts, and always at least one.
pub struct RetryPolicy {
    max_retries: u8,
}

impl View for RetryPolicy {
    type V = nat;

    /// The largest number of attempts a run under this policy makes.
    closed spec fn view(&self) -> nat {
        self.max_retries as nat
    }
}

impl RetryPolicy {
    /// A policy is well formed when it allows at least one attempt.
    pub open spec fn wf(&self) -> bool {
        self@ >= 1
    }

    /// A policy that makes at most `max_retries` attempts. A limit of zero
    /// would leave no attempt whose result could be returned, and is refused.
    pub fn new(max_retries: u8) -> (r: Option<RetryPolicy>)
        ensures
            r.is_some() <==> max_retries >= 1,
            r matches Some(p) ==> p.wf() && p@ == max_retries as nat,
    {
        if max_retries == 0 {
            None
        } else {
            Some(RetryPolicy { max_retries })
        }
    }

    /// The default policy: at most [`DEFAULT_MAX_RETRIES`] attempts.
    pub fn new_with_defaults() -> (r: RetryPolicy)
        ensures
            r.wf(),
            r@ == 7,
    {
        RetryPolicy { max_retries: DEFAULT_MAX_RETRIES }
    }

    /// The largest number of attempts a run under this policy makes.
    pub fn max_retries(&self) -> (r: u8)
        ensures
            r as nat == self@,
    {
        self.max_retries
    }
}

} // verus!
