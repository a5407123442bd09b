//! The publish pipeline: request a challenge, solve it, submit the lyrics
//! with the resulting token.
//!
//! Each of the three phases is tracked as Pending, In Progress, Done or
//! Failed, and a snapshot of the three is emitted after every change of one
//! phase. The remote calls are made by the caller, which hands their results
//! to the pipeline; each method returns the snapshots to emit, in order. A
//! method called in a stage where it has nothing to do changes nothing and
//! emits nothing.

use vstd::prelude::*;
use vstd::string::*;
use vstd::utf8::encode_utf8;
use crate::solver::{
    decode_target,
    hex_denotes,
    is_hex_text,
    publish_token,
    solve_challenge_within,
    smallest_solution,
    solves,
    token_of,
    TARGET_LEN,
};

verus! {

/// Status of one phase.
#[derive(Debug, Clone, Copy, PartialEq, Eq, Structural)]
pub enum PhaseStatus {
    Pending,
    InProgress,
    Done,
    Failed,
}

/// The status of the three phases.
#[derive(Debug, Clone, Copy, PartialEq, Eq, Structural)]
pub struct PublishProgress {
    pub request_challenge: PhaseStatus,
    pub solve_challenge: PhaseStatus,
    pub publish_lyrics: PhaseStatus,
}

/// Where a publish attempt stands.
#[derive(Debug, Clone, Copy, PartialEq, Eq, Structural)]
pub enum PublishStage {
    Idle,
    AwaitingChallenge,
    Solving,
    AwaitingSubmission,
    Finished,
}

/// Why a remote call failed.
#[derive(Debug, Clone, Copy, PartialEq, Eq, Structural)]
pub enum RemoteError {
    Network,
    Timeout,
}

/// Why a publish attempt failed.
#[derive(Debug, Clone, Copy, PartialEq, Eq, Structural)]
pub enum PublishError {
    Network,
    Timeout,
    /// The challenge's target is not 32 bytes of hexadecimal.
    InvalidChallenge,
    /// No nonce within the search bound solves the challenge.
    SolverExhausted,
}

/// A challenge as the remote service issues it; the target is hexadecimal.
#[derive(Debug, PartialEq, Eq)]
pub struct Challenge {
    pub prefix: String,
    pub target: String,
}

pub open spec fn all_pending() -> PublishProgress {
    PublishProgress {
        request_challenge: PhaseStatus::Pending,
        solve_challenge: PhaseStatus::Pending,
        publish_lyrics: PhaseStatus::Pending,
    }
}

/// The progress that goes with each stage: phases change strictly in order.
pub open spec fn stage_progress(stage: PublishStage, p: PublishProgress) -> bool {
    match stage {
        PublishStage::Idle => p == all_pending(),
        PublishStage::AwaitingChallenge => p == PublishProgress {
            request_challenge: PhaseStatus::InProgress,
            ..all_pending()
        },
        PublishStage::Solving => p == PublishProgress {
            request_challenge: PhaseStatus::Done,
            solve_challenge: PhaseStatus::InProgress,
            publish_lyrics: PhaseStatus::Pending,
        },
        PublishStage::AwaitingSubmission => p == PublishProgress {
            request_challenge: PhaseStatus::Done,
            solve_challenge: PhaseStatus::Done,
            publish_lyrics: PhaseStatus::InProgress,
        },
        PublishStage::Finished => {
            ||| p == PublishProgress { request_challenge: PhaseStatus::Failed, ..all_pending() }
            ||| p == PublishProgress {
                request_challenge: PhaseStatus::Done,
                solve_challenge: PhaseStatus::Failed,
                publish_lyrics: PhaseStatus::Pending,
            }
            ||| p == PublishProgress {
                request_challenge: PhaseStatus::Done,
                solve_challenge: PhaseStatus::Done,
                publish_lyrics: PhaseStatus::Failed,
            }
            ||| p == PublishProgress {
                request_challenge: PhaseStatus::Done,
                solve_challenge: PhaseStatus::Done,
                publish_lyrics: PhaseStatus::Done,
            }
        },
    }
}

/// Starting: the request phase goes in progress.
pub open spec fn begin_step(stage: PublishStage, p: PublishProgress) -> (
    PublishStage,
    PublishProgress,
    Seq<PublishProgress>,
) {
    if stage == PublishStage::Idle {
        let p1 = PublishProgress { request_challenge: PhaseStatus::InProgress, ..p };
        (PublishStage::AwaitingChallenge, p1, seq![p1])
    } else {
        (stage, p, seq![])
    }
}

/// The challenge arrived (`ok`) or the request failed: on success the
/// request phase is done and solving goes in progress; on failure the
/// request phase fails and the attempt is over.
pub open spec fn challenge_step(stage: PublishStage, p: PublishProgress, ok: bool) -> (
    PublishStage,
    PublishProgress,
    Seq<PublishProgress>,
) {
    if stage != PublishStage::AwaitingChallenge {
        (stage, p, seq![])
    } else if ok {
        let p1 = PublishProgress { request_challenge: PhaseStatus::Done, ..p };
        let p2 = PublishProgress { solve_challenge: PhaseStatus::InProgress, ..p1 };
        (PublishStage::Solving, p2, seq![p1, p2])
    } else {
        let p1 = PublishProgress { request_challenge: PhaseStatus::Failed, ..p };
        (PublishStage::Finished, p1, seq![p1])
    }
}

/// The solver found a nonce (`ok`) or gave up: on success solving is done
/// and publishing goes in progress; else solving fails and the attempt is
/// over.
pub open spec fn solve_step(stage: PublishStage, p: PublishProgress, ok: bool) -> (
    PublishStage,
    PublishProgress,
    Seq<PublishProgress>,
) {
    if stage != PublishStage::Solving {
        (stage, p, seq![])
    } else if ok {
        let p1 = PublishProgress { solve_challenge: PhaseStatus::Done, ..p };
        let p2 = PublishProgress { publish_lyrics: PhaseStatus::InProgress, ..p1 };
        (PublishStage::AwaitingSubmission, p2, seq![p1, p2])
    } else {
        let p1 = PublishProgress { solve_challenge: PhaseStatus::Failed, ..p };
        (PublishStage::Finished, p1, seq![p1])
    }
}

/// The submission succeeded (`ok`) or failed; either way the attempt is
/// over.
pub open spec fn submit_step(stage: PublishStage, p: PublishProgress, ok: bool) -> (
    PublishStage,
    PublishProgress,
    Seq<PublishProgress>,
) {
    if stage != PublishStage::AwaitingSubmission {
        (stage, p, seq![])
    } else {
        let p1 = PublishProgress {
            publish_lyrics: if ok {
                PhaseStatus::Done
            } else {
                PhaseStatus::Failed
            },
            ..p
        };
        (PublishStage::Finished, p1, seq![p1])
    }
}

/// A challenge response that the pipeline can go on with: it arrived, and
/// its target is 32 bytes of hexadecimal.
pub open spec fn usable_challenge(response: Result<Challenge, RemoteError>) -> bool {
    response matches Ok(c) && is_hex_text(encode_utf8(c.target@)) && encode_utf8(c.target@).len()
        == 2 * TARGET_LEN
}

pub open spec fn remote_failure(e: RemoteError) -> PublishError {
    match e {
        RemoteError::Network => PublishError::Network,
        RemoteError::Timeout => PublishError::Timeout,
    }
}

fn from_remote(e: RemoteError) -> (r: PublishError)
    ensures
        r == remote_failure(e),
{
    match e {
        RemoteError::Network => PublishError::Network,
        RemoteError::Timeout => PublishError::Timeout,
    }
}

/// Every step keeps the phases in order: from a stage with its progress,
/// each step reaches a stage with its progress, and the last snapshot it
/// emits, if any, is the progress it leaves.
pub proof fn lemma_steps_keep_phase_order(stage: PublishStage, p: PublishProgress, ok: bool)
    requires
        stage_progress(stage, p),
    ensures
        ({
            let (s1, p1, e1) = begin_step(stage, p);
            stage_progress(s1, p1) && (e1.len() > 0 ==> e1.last() == p1)
        }),
        ({
            let (s1, p1, e1) = challenge_step(stage, p, ok);
            stage_progress(s1, p1) && (e1.len() > 0 ==> e1.last() == p1)
        }),
        ({
            let (s1, p1, e1) = solve_step(stage, p, ok);
            stage_progress(s1, p1) && (e1.len() > 0 ==> e1.last() == p1)
        }),
        ({
            let (s1, p1, e1) = submit_step(stage, p, ok);
            stage_progress(s1, p1) && (e1.len() > 0 ==> e1.last() == p1)
        }),
{
}

/// A failed challenge request ends the attempt: the request phase is
/// failed, the other two stay pending, and neither solving nor submitting
/// does anything afterwards.
pub proof fn lemma_request_failure_stops(p: PublishProgress, solved: bool, submitted: bool)
    requires
        stage_progress(PublishStage::AwaitingChallenge, p),
    ensures
        ({
            let (s1, p1, e1) = challenge_step(PublishStage::AwaitingChallenge, p, false);
            &&& s1 == PublishStage::Finished
            &&& p1 == PublishProgress { request_challenge: PhaseStatus::Failed, ..all_pending() }
            &&& e1 == seq![p1]
            &&& solve_step(s1, p1, solved) == (s1, p1, Seq::<PublishProgress>::empty())
            &&& submit_step(s1, p1, submitted) == (s1, p1, Seq::<PublishProgress>::empty())
        }),
{
    let (s1, p1, e1) = challenge_step(PublishStage::AwaitingChallenge, p, false);
    assert(solve_step(s1, p1, solved).2 =~= Seq::<PublishProgress>::empty());
    assert(submit_step(s1, p1, submitted).2 =~= Seq::<PublishProgress>::empty());
}

/// A failed submission still shows the first two phases done in the final
/// snapshot.
pub proof fn lemma_submit_failure_keeps_done(p: PublishProgress)
    requires
        stage_progress(PublishStage::AwaitingSubmission, p),
    ensures
        ({
            let (s1, p1, e1) = submit_step(PublishStage::AwaitingSubmission, p, false);
            &&& s1 == PublishStage::Finished
            &&& e1 == seq![p1]
            &&& p1 == PublishProgress {
                request_challenge: PhaseStatus::Done,
                solve_challenge: PhaseStatus::Done,
                publish_lyrics: PhaseStatus::Failed,
            }
        }),
{
}

/// `token` is `prefix:n` for the smallest nonce `n` that solves the
/// challenge, and `n` is at most `max_nonce`.
pub open spec fn solved_within(prefix: Seq<char>, target: Seq<u8>, token: Seq<char>, max_nonce: nat) -> bool {
    exists|n: nat|
        n <= max_nonce && #[trigger] smallest_solution(prefix, target, n) && token == token_of(
            prefix,
            n,
        )
}

/// One publish attempt.
pub struct PublishPipeline {
    stage: PublishStage,
    progress: PublishProgress,
    prefix: String,
    target: Vec<u8>,
    token: String,
    failure: Option<PublishError>,
}

impl View for PublishPipeline {
    type V = (PublishStage, PublishProgress);

    closed spec fn view(&self) -> (PublishStage, PublishProgress) {
        (self.stage, self.progress)
    }
}

impl PublishPipeline {
    /// The challenge prefix received.
    pub closed spec fn spec_prefix(&self) -> Seq<char> {
        self.prefix@
    }

    /// The decoded challenge target.
    pub closed spec fn spec_target(&self) -> Seq<u8> {
        self.target@
    }

    /// The publish token formed from the solved challenge.
    pub closed spec fn spec_token(&self) -> Seq<char> {
        self.token@
    }

    /// Why the attempt failed, once it has.
    pub closed spec fn spec_failure(&self) -> Option<PublishError> {
        self.failure
    }

    /// The token is `prefix:n` for the smallest nonce `n` that solves the
    /// challenge.
    pub open spec fn token_solved(&self) -> bool {
        exists|n: nat|
            #[trigger] smallest_solution(self.spec_prefix(), self.spec_target(), n)
                && self.spec_token() == token_of(self.spec_prefix(), n)
    }

    pub open spec fn wf(&self) -> bool {
        &&& stage_progress(self@.0, self@.1)
        &&& self@.0 != PublishStage::Finished ==> self.spec_failure() is None
        &&& self@.0 == PublishStage::AwaitingSubmission ==> self.token_solved()
        &&& self@.0 == PublishStage::Finished ==> (self.spec_failure() is None <==> self@.1
            == PublishProgress {
            request_challenge: PhaseStatus::Done,
            solve_challenge: PhaseStatus::Done,
            publish_lyrics: PhaseStatus::Done,
        })
    }

    /// A new attempt, every phase pending.
    pub fn new() -> (r: PublishPipeline)
        ensures
            r.wf(),
            r@ == (PublishStage::Idle, all_pending()),
    {
        PublishPipeline {
            stage: PublishStage::Idle,
            progress: PublishProgress {
                request_challenge: PhaseStatus::Pending,
                solve_challenge: PhaseStatus::Pending,
                publish_lyrics: PhaseStatus::Pending,
            },
            prefix: String::new(),
            target: Vec::new(),
            token: String::new(),
            failure: None,
        }
    }

    /// The current progress.
    pub fn progress(&self) -> (r: PublishProgress)
        ensures
            r == self@.1,
    {
        self.progress
    }

    /// The current stage.
    pub fn stage(&self) -> (r: PublishStage)
        ensures
            r == self@.0,
    {
        self.stage
    }

    /// Starts the attempt; the caller then requests a challenge.
    pub fn begin(&mut self) -> (r: Vec<PublishProgress>)
        requires
            old(self).wf(),
        ensures
            final(self).wf(),
            (final(self)@.0, final(self)@.1, r@) == begin_step(old(self)@.0, old(self)@.1),
            final(self).spec_failure() == old(self).spec_failure(),
    {
        let mut out: Vec<PublishProgress> = Vec::new();
        if self.stage == PublishStage::Idle {
            self.progress.request_challenge = PhaseStatus::InProgress;
            self.stage = PublishStage::AwaitingChallenge;
            out.push(self.progress);
        }
        out
    }

    /// Takes the response to the challenge request.
    pub fn challenge_received(&mut self, response: Result<Challenge, RemoteError>) -> (r: Vec<
        PublishProgress,
    >)
        requires
            old(self).wf(),
        ensures
            final(self).wf(),
            (final(self)@.0, final(self)@.1, r@) == challenge_step(
                old(self)@.0,
                old(self)@.1,
                usable_challenge(response),
            ),
            old(self)@.0 == PublishStage::AwaitingChallenge ==> match response {
                Ok(c) => if usable_challenge(response) {
                    final(self).spec_prefix() == c.prefix@ && hex_denotes(
                        encode_utf8(c.target@),
                        final(self).spec_target(),
                    )
                } else {
                    final(self).spec_failure() == Some(PublishError::InvalidChallenge)
                },
                Err(e) => final(self).spec_failure() == Some(remote_failure(e)),
            },
            old(self)@.0 != PublishStage::AwaitingChallenge ==> final(self).spec_failure() == old(
                self,
            ).spec_failure(),
    {
        let mut out: Vec<PublishProgress> = Vec::new();
        if self.stage != PublishStage::AwaitingChallenge {
            return out;
        }
        match response {
            Ok(c) => {
                match decode_target(c.target.as_str()) {
                    Some(t) => {
                        self.prefix = c.prefix;
                        self.target = t;
                        self.progress.request_challenge = PhaseStatus::Done;
                        out.push(self.progress);
                        self.progress.solve_challenge = PhaseStatus::InProgress;
                        out.push(self.progress);
                        self.stage = PublishStage::Solving;
                    },
                    None => {
                        self.progress.request_challenge = PhaseStatus::Failed;
                        out.push(self.progress);
                        self.failure = Some(PublishError::InvalidChallenge);
                        self.stage = PublishStage::Finished;
                    },
                }
            },
            Err(e) => {
                self.progress.request_challenge = PhaseStatus::Failed;
                out.push(self.progress);
                self.failure = Some(from_remote(e));
                self.stage = PublishStage::Finished;
            },
        }
        out
    }

    /// Solves the challenge, trying the nonces `0..=max_nonce` in order,
    /// and forms the publish token from the smallest one that solves it.
    pub fn solve(&mut self, max_nonce: u64) -> (r: Vec<PublishProgress>)
        requires
            old(self).wf(),
        ensures
            final(self).wf(),
            final(self).spec_prefix() == old(self).spec_prefix(),
            final(self).spec_target() == old(self).spec_target(),
            old(self)@.0 != PublishStage::Solving ==> (final(self)@.0, final(self)@.1, r@)
                == solve_step(old(self)@.0, old(self)@.1, false) && final(self).spec_failure()
                == old(self).spec_failure(),
            old(self)@.0 == PublishStage::Solving ==> {
                ||| (final(self)@.0, final(self)@.1, r@) == solve_step(
                    old(self)@.0,
                    old(self)@.1,
                    true,
                ) && solved_within(
                    old(self).spec_prefix(),
                    old(self).spec_target(),
                    final(self).spec_token(),
                    max_nonce as nat,
                )
                ||| (final(self)@.0, final(self)@.1, r@) == solve_step(
                    old(self)@.0,
                    old(self)@.1,
                    false,
                ) && final(self).spec_failure() == Some(PublishError::SolverExhausted)
                    && forall|m: nat|
                    m <= max_nonce ==> !solves(old(self).spec_prefix(), old(self).spec_target(), m)
            },
    {
        let mut out: Vec<PublishProgress> = Vec::new();
        if self.stage != PublishStage::Solving {
            return out;
        }
        let ghost old_progress = self.progress;
        let ghost old_prefix = self.prefix@;
        let ghost old_target = self.target@;
        match solve_challenge_within(self.prefix.as_str(), self.target.as_slice(), max_nonce) {
            Ok(n) => {
                self.token = publish_token(self.prefix.as_str(), n);
                self.progress.solve_challenge = PhaseStatus::Done;
                out.push(self.progress);
                self.progress.publish_lyrics = PhaseStatus::InProgress;
                out.push(self.progress);
                self.stage = PublishStage::AwaitingSubmission;
                assert((self.stage, self.progress, out@) == solve_step(PublishStage::Solving, old_progress, true));
                assert(self.token@ == token_of(old_prefix, n as nat));
                assert(smallest_solution(old_prefix, old_target, n as nat));
                assert(smallest_solution(self.spec_prefix(), self.spec_target(), n as nat)
                    && self.spec_token() == token_of(self.spec_prefix(), n as nat));
                assert(solved_within(old_prefix, old_target, self.spec_token(), max_nonce as nat));
            },
            Err(_) => {
                self.progress.solve_challenge = PhaseStatus::Failed;
                out.push(self.progress);
                self.failure = Some(PublishError::SolverExhausted);
                self.stage = PublishStage::Finished;
            },
        }
        out
    }

    /// The token to submit with the lyrics, once the challenge is solved
    /// and until the submission's result is in.
    pub fn token(&self) -> (r: Option<String>)
        ensures
            self@.0 == PublishStage::AwaitingSubmission <==> r is Some,
            r matches Some(t) ==> t@ == self.spec_token(),
            self.wf() && r is Some ==> self.token_solved(),
    {
        if self.stage == PublishStage::AwaitingSubmission {
            Some(self.token.clone())
        } else {
            None
        }
    }

    /// Takes the result of the submission.
    pub fn submitted(&mut self, response: Result<(), RemoteError>) -> (r: Vec<PublishProgress>)
        requires
            old(self).wf(),
        ensures
            final(self).wf(),
            (final(self)@.0, final(self)@.1, r@) == submit_step(
                old(self)@.0,
                old(self)@.1,
                response is Ok,
            ),
            old(self)@.0 == PublishStage::AwaitingSubmission ==> final(self).spec_failure() == match response {
                Ok(_) => None,
                Err(e) => Some(remote_failure(e)),
            },
            old(self)@.0 != PublishStage::AwaitingSubmission ==> final(self).spec_failure() == old(
                self,
            ).spec_failure(),
    {
        let mut out: Vec<PublishProgress> = Vec::new();
        if self.stage != PublishStage::AwaitingSubmission {
            return out;
        }
        match response {
            Ok(()) => {
                self.progress.publish_lyrics = PhaseStatus::Done;
            },
            Err(e) => {
                self.progress.publish_lyrics = PhaseStatus::Failed;
                self.failure = Some(from_remote(e));
            },
        }
        out.push(self.progress);
        self.stage = PublishStage::Finished;
        out
    }

    /// The attempt's result once it is over: success exactly when all three
    /// phases are done, else the error that ended it.
    pub fn outcome(&self) -> (r: Option<Result<(), PublishError>>)
        requires
            self.wf(),
        ensures
            self@.0 != PublishStage::Finished <==> r is None,
            self@.0 == PublishStage::Finished ==> r == Some(match self.spec_failure() {
                None => Ok::<(), PublishError>(()),
                Some(e) => Err(e),
            }),
    {
        if self.stage != PublishStage::Finished {
            return None;
        }
        match self.failure {
            None => Some(Ok(())),
            Some(e) => Some(Err(e)),
        }
    }
}

} // verus!
