use vstd::prelude::*;
use crate::error::ArbError;

verus! {

/// What the relay reports for a bundle when polled.
#[derive(Clone, Debug)]
pub enum BundleStatus {
    /// Not resolved yet, or unknown to the relay.
    Pending,
    /// The bundle landed, in the transactions with these ids.
    Landed(Vec<String>),
    Failed,
}

/// How a bundle is submitted and followed up.
#[derive(Clone, Copy, Debug, PartialEq, Eq, Structural)]
pub struct ConfirmConfig {
    pub wait_for_confirmation: bool,
    pub poll_interval_ms: u64,
    pub timeout_ms: u64,
}

/// Where a bundle submission stands.
#[derive(Clone, Debug)]
pub enum SubmitState {
    Building,
    Signed,
    Confirming { bundle_id: String },
    Confirmed,
    TimedOut,
    SigningFailed,
    SubmissionFailed,
}

/// What the caller does next for a bundle submission.
#[derive(Debug)]
pub enum SubmitAction {
    /// Submit the signed bundle to the relay, once.
    Submit,
    /// Wait `delay_ms`, then ask the relay for the status of `bundle_id`.
    Poll { bundle_id: String, delay_ms: u64 },
    /// The submission is over with this result.
    Finish(Result<Vec<String>, ArbError>),
}

/// `a` ends the submission with the ids `ids`.
pub open spec fn finishes_with(a: SubmitAction, ids: Seq<String>) -> bool {
    a matches SubmitAction::Finish(Ok(v)) && v@ == ids
}

/// `a` ends the submission with the error `e`.
pub open spec fn fails_with(a: SubmitAction, e: ArbError) -> bool {
    a matches SubmitAction::Finish(Err(x)) && x == e
}

/// `status` reports the bundle landed in at least one transaction.
pub open spec fn landed(status: Option<BundleStatus>) -> bool {
    status matches Some(BundleStatus::Landed(ids)) && ids@.len() > 0
}

/// The ids of a landed status.
pub open spec fn landed_ids(status: Option<BundleStatus>) -> Seq<String> {
    match status {
        Some(BundleStatus::Landed(ids)) => ids@,
        _ => Seq::empty(),
    }
}

/// What one poll decides: `None` to keep polling, or the submission's result.
pub open spec fn poll_verdict(timeout_ms: u64, elapsed_ms: u64, status: Option<BundleStatus>) -> Option<
    Result<Seq<String>, ArbError>,
> {
    if landed(status) {
        Some(Ok(landed_ids(status)))
    } else if elapsed_ms > timeout_ms {
        Some(Err(ArbError::ConfirmationTimeout))
    } else {
        None
    }
}

/// The first poll of `polls` (elapsed time and answer) that ends the
/// submission, with the result, if any does.
pub open spec fn run_verdict(timeout_ms: u64, polls: Seq<(u64, Option<BundleStatus>)>) -> Option<
    (nat, Result<Seq<String>, ArbError>),
>
    decreases polls.len(),
{
    if polls.len() == 0 {
        None
    } else {
        match poll_verdict(timeout_ms, polls[0].0, polls[0].1) {
            Some(v) => Some((0, v)),
            None => match run_verdict(timeout_ms, polls.drop_first()) {
                Some(kv) => Some(((kv.0 + 1) as nat, kv.1)),
                None => None,
            },
        }
    }
}

/// Against a relay that never reports the bundle landed, polling goes on while
/// the deadline has not passed, and ends with a timeout at the first poll past it.
pub proof fn lemma_never_landed_times_out(timeout_ms: u64, polls: Seq<(u64, Option<BundleStatus>)>)
    requires
        forall|i: int| 0 <= i < polls.len() ==> !landed(#[trigger] polls[i].1),
    ensures
        run_verdict(timeout_ms, polls) matches Some(kv) ==> {
            &&& kv.1 == Err::<Seq<String>, ArbError>(ArbError::ConfirmationTimeout)
            &&& kv.0 < polls.len()
            &&& polls[kv.0 as int].0 > timeout_ms
            &&& forall|j: int| 0 <= j < kv.0 ==> #[trigger] polls[j].0 <= timeout_ms
        },
        run_verdict(timeout_ms, polls) is None <==> forall|j: int|
            0 <= j < polls.len() ==> #[trigger] polls[j].0 <= timeout_ms,
    decreases polls.len(),
{
    if polls.len() > 0 {
        let rest = polls.drop_first();
        assert forall|i: int| 0 <= i < rest.len() implies !landed(#[trigger] rest[i].1) by {
            assert(rest[i] == polls[i + 1]);
        }
        lemma_never_landed_times_out(timeout_ms, rest);
        assert(!landed(polls[0].1));
        if polls[0].0 <= timeout_ms {
            assert forall|j: int| 1 <= j < polls.len() implies (#[trigger] polls[j].0 <= timeout_ms
                <==> rest[j - 1].0 <= timeout_ms) by {
                assert(rest[j - 1] == polls[j]);
            }
            if run_verdict(timeout_ms, polls) is None {
                assert forall|j: int| 0 <= j < polls.len() implies #[trigger] polls[j].0 <= timeout_ms by {
                    if j > 0 {
                        assert(rest[j - 1] == polls[j]);
                    }
                }
            } else {
                let kv = run_verdict(timeout_ms, rest)->0;
                assert(rest[kv.0 as int] == polls[kv.0 as int + 1]);
                assert forall|j: int| 0 <= j < kv.0 + 1 implies #[trigger] polls[j].0 <= timeout_ms by {
                    if j > 0 {
                        assert(rest[j - 1] == polls[j]);
                    }
                }
                if forall|j: int| 0 <= j < polls.len() ==> #[trigger] polls[j].0 <= timeout_ms {
                    assert(polls[kv.0 as int + 1].0 <= timeout_ms);
                }
            }
        }
    }
}

/// The submit-once, poll-until-timeout state machine of one bundle.
pub struct BundleSubmission {
    pub config: ConfirmConfig,
    pub state: SubmitState,
}

impl BundleSubmission {
    /// A submission whose bundle is still to be signed.
    pub fn new(config: ConfirmConfig) -> (r: BundleSubmission)
        ensures
            r.config == config,
            r.state is Building,
    {
        BundleSubmission { config, state: SubmitState::Building }
    }

    /// The payer signed each transaction of the bundle (`signed`), or could not.
    pub fn on_signed(&mut self, signed: bool) -> (r: SubmitAction)
        requires
            old(self).state is Building,
        ensures
            final(self).config == old(self).config,
            signed ==> final(self).state is Signed && r is Submit,
            !signed ==> final(self).state is SigningFailed && fails_with(r, ArbError::SigningFailed),
    {
        if signed {
            self.state = SubmitState::Signed;
            SubmitAction::Submit
        } else {
            self.state = SubmitState::SigningFailed;
            SubmitAction::Finish(Err(ArbError::SigningFailed))
        }
    }

    /// The relay accepted the bundle under `bundle_id`, or rejected it (`None`).
    /// Without waiting for confirmation the submission ends at once with no ids.
    pub fn on_submitted(&mut self, bundle_id: Option<String>) -> (r: SubmitAction)
        requires
            old(self).state is Signed,
        ensures
            final(self).config == old(self).config,
            bundle_id is None ==> final(self).state is SubmissionFailed && fails_with(
                r,
                ArbError::SubmissionFailed,
            ),
            bundle_id is Some && !old(self).config.wait_for_confirmation ==> final(self).state is Confirmed
                && finishes_with(r, Seq::empty()),
            bundle_id is Some && old(self).config.wait_for_confirmation ==> {
                &&& final(self).state == (SubmitState::Confirming { bundle_id: bundle_id->0 })
                &&& r == (SubmitAction::Poll {
                    bundle_id: bundle_id->0,
                    delay_ms: old(self).config.poll_interval_ms,
                })
            },
    {
        match bundle_id {
            None => {
                self.state = SubmitState::SubmissionFailed;
                SubmitAction::Finish(Err(ArbError::SubmissionFailed))
            },
            Some(id) => {
                if self.config.wait_for_confirmation {
                    let polled = id.clone();
                    self.state = SubmitState::Confirming { bundle_id: id };
                    SubmitAction::Poll { bundle_id: polled, delay_ms: self.config.poll_interval_ms }
                } else {
                    self.state = SubmitState::Confirmed;
                    SubmitAction::Finish(Ok(Vec::new()))
                }
            },
        }
    }

    /// A poll answered `status` (`None`: the poll itself failed, which counts as
    /// not resolved) when `elapsed_ms` had passed since the submission started.
    pub fn on_poll(&mut self, elapsed_ms: u64, status: Option<BundleStatus>) -> (r: SubmitAction)
        requires
            old(self).state is Confirming,
        ensures
            final(self).config == old(self).config,
            poll_verdict(old(self).config.timeout_ms, elapsed_ms, status) matches Some(v) ==> match v {
                Ok(ids) => finishes_with(r, ids),
                Err(e) => fails_with(r, e),
            },
            landed(status) ==> final(self).state is Confirmed && finishes_with(r, landed_ids(status)),
            !landed(status) && elapsed_ms > old(self).config.timeout_ms ==> final(self).state is TimedOut
                && fails_with(r, ArbError::ConfirmationTimeout),
            !landed(status) && elapsed_ms <= old(self).config.timeout_ms ==> {
                &&& final(self).state == old(self).state
                &&& r == (SubmitAction::Poll {
                    bundle_id: old(self).state->bundle_id,
                    delay_ms: old(self).config.poll_interval_ms,
                })
            },
    {
        match status {
            Some(BundleStatus::Landed(ids)) => {
                if ids.len() > 0 {
                    self.state = SubmitState::Confirmed;
                    return SubmitAction::Finish(Ok(ids));
                }
            },
            _ => {},
        }
        if elapsed_ms > self.config.timeout_ms {
            self.state = SubmitState::TimedOut;
            return SubmitAction::Finish(Err(ArbError::ConfirmationTimeout));
        }
        match &self.state {
            SubmitState::Confirming { bundle_id } => SubmitAction::Poll {
                bundle_id: bundle_id.clone(),
                delay_ms: self.config.poll_interval_ms,
            },
            _ => SubmitAction::Finish(Err(ArbError::ConfirmationTimeout)),
        }
    }
}

} // verus!
