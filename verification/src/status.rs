//! The protocol by which the outcome of a build step is learned from the
//! backend: first the status, then, after a failure, the length of the
//! diagnostic log, then the log itself.
//!
//! The state machine here decides what to ask next and what the outcome is;
//! the owner of the rendering context asks the backend and hands each answer
//! back.

use vstd::prelude::*;

verus! {

/// What to ask the backend about the object that is being built.
#[derive(Clone, Copy, Debug, PartialEq, Eq)]
pub enum Query {
    /// Whether the build step succeeded.
    Status,
    /// How long the diagnostic log is.
    LogLength,
    /// The diagnostic log, read into a buffer of `length` bytes.
    Log { length: usize },
}

/// An answer of the backend.
#[derive(Debug, PartialEq, Eq)]
pub enum Reply {
    /// The status: zero after a failure.
    Status(i32),
    /// The length of the diagnostic log.
    LogLength(i32),
    /// The bytes read from the diagnostic log.
    Log(Vec<u8>),
}

/// Where the protocol stands.
#[derive(Clone, Copy, Debug, PartialEq, Eq)]
pub enum Phase {
    AwaitStatus,
    AwaitLogLength,
    AwaitLog { length: usize },
}

/// What is known after an answer.
#[derive(Debug, PartialEq, Eq)]
pub enum Verdict {
    /// More has to be asked.
    Pending(Phase),
    /// The build step succeeded.
    Passed,
    /// The build step failed, with this diagnostic log.
    Failed(Vec<u8>),
}

/// The byte that fills a log buffer before the backend writes to it.
pub const BLANK: u8 = 32;

/// The log buffer of `length` bytes after `bytes` were read into it: the
/// bytes as far as they fit, and blanks behind them.
pub open spec fn fitted(bytes: Seq<u8>, length: nat) -> Seq<u8> {
    Seq::new(
        length,
        |i: int|
            if i < bytes.len() {
                bytes[i]
            } else {
                BLANK
            },
    )
}

/// The verdict after `reply` arrived in `phase`, with the log as a sequence
/// where there is one.
pub ghost enum Outcome {
    Pending(Phase),
    Passed,
    Failed(Seq<u8>),
}

impl View for Verdict {
    type V = Outcome;

    open spec fn view(&self) -> Outcome {
        match *self {
            Verdict::Pending(phase) => Outcome::Pending(phase),
            Verdict::Passed => Outcome::Passed,
            Verdict::Failed(log) => Outcome::Failed(log@),
        }
    }
}

impl View for Reply {
    type V = Answer;

    open spec fn view(&self) -> Answer {
        match *self {
            Reply::Status(status) => Answer::Status(status),
            Reply::LogLength(length) => Answer::LogLength(length),
            Reply::Log(bytes) => Answer::Log(bytes@),
        }
    }
}

/// What a [`Reply`] says, with the log as a sequence.
pub ghost enum Answer {
    Status(i32),
    LogLength(i32),
    Log(Seq<u8>),
}

impl Phase {
    /// What to ask the backend in this phase.
    pub open spec fn pending(self) -> Query {
        match self {
            Phase::AwaitStatus => Query::Status,
            Phase::AwaitLogLength => Query::LogLength,
            Phase::AwaitLog { length } => Query::Log { length },
        }
    }

    /// The transition. A non-zero status passes; a zero status asks for the
    /// length of the log; a length above zero asks for exactly that many
    /// bytes, any other length fails with an empty log; the log that arrives
    /// fails with a log of exactly the length asked for. An answer to
    /// another question than the pending one changes nothing.
    pub open spec fn next(self, answer: Answer) -> Outcome {
        match (self, answer) {
            (Phase::AwaitStatus, Answer::Status(status)) => if status != 0 {
                Outcome::Passed
            } else {
                Outcome::Pending(Phase::AwaitLogLength)
            },
            (Phase::AwaitLogLength, Answer::LogLength(length)) => if length > 0 {
                Outcome::Pending(Phase::AwaitLog { length: length as usize })
            } else {
                Outcome::Failed(Seq::empty())
            },
            (Phase::AwaitLog { length }, Answer::Log(bytes)) => Outcome::Failed(
                fitted(bytes, length as nat),
            ),
            _ => Outcome::Pending(self),
        }
    }

    /// What to ask the backend in this phase.
    pub fn query(&self) -> (q: Query)
        ensures
            q == self.pending(),
    {
        match *self {
            Phase::AwaitStatus => Query::Status,
            Phase::AwaitLogLength => Query::LogLength,
            Phase::AwaitLog { length } => Query::Log { length },
        }
    }

    /// Takes the backend's answer and says what is known now.
    pub fn advance(self, reply: Reply) -> (verdict: Verdict)
        ensures
            verdict@ == self.next(reply@),
    {
        match self {
            Phase::AwaitStatus => match reply {
                Reply::Status(status) => {
                    if status != 0 {
                        Verdict::Passed
                    } else {
                        Verdict::Pending(Phase::AwaitLogLength)
                    }
                },
                _ => Verdict::Pending(self),
            },
            Phase::AwaitLogLength => match reply {
                Reply::LogLength(length) => {
                    if length > 0 {
                        Verdict::Pending(Phase::AwaitLog { length: length as usize })
                    } else {
                        Verdict::Failed(Vec::new())
                    }
                },
                _ => Verdict::Pending(self),
            },
            Phase::AwaitLog { length } => match reply {
                Reply::Log(bytes) => Verdict::Failed(fit(&bytes, length)),
                _ => Verdict::Pending(self),
            },
        }
    }
}

/// The log buffer of `length` bytes after `bytes` were read into it.
pub fn fit(bytes: &Vec<u8>, length: usize) -> (log: Vec<u8>)
    ensures
        log@ == fitted(bytes@, length as nat),
{
    let mut log: Vec<u8> = Vec::new();
    let mut i: usize = 0;
    while i < length
        invariant
            i <= length,
            log@.len() == i,
            forall|j: int| 0 <= j < i ==> log@[j] == fitted(bytes@, length as nat)[j],
        decreases length - i,
    {
        if i < bytes.len() {
            log.push(bytes[i]);
        } else {
            log.push(BLANK);
        }
        i = i + 1;
    }
    proof {
        assert(log@ =~= fitted(bytes@, length as nat));
    }
    log
}

/// A failure's log is exactly as long as the backend said it is: nothing
/// of it is cut off while the backend delivers that much, and no byte is
/// kept beyond it.
pub proof fn lemma_log_length_exact(bytes: Seq<u8>, length: nat)
    ensures
        fitted(bytes, length).len() == length,
        bytes.len() >= length ==> fitted(bytes, length) == bytes.take(length as int),
        bytes.len() == length ==> fitted(bytes, length) == bytes,
{
    if bytes.len() >= length {
        assert(fitted(bytes, length) =~= bytes.take(length as int));
    }
    if bytes.len() == length {
        assert(bytes.take(length as int) =~= bytes);
    }
}

/// A build step that succeeded is known to have done so after one answer.
pub proof fn lemma_success_run(status: i32)
    requires
        status != 0,
    ensures
        Phase::AwaitStatus.next(Answer::Status(status)) == Outcome::Passed,
{
}

/// The whole run after a failure. The status zero asks for the length of
/// the log; a length above zero asks for that many bytes; the bytes that
/// arrive are the failure's log, which is then not empty and exactly as
/// long as the backend said.
pub proof fn lemma_failure_run(length: i32, bytes: Seq<u8>)
    requires
        length > 0,
    ensures
        Phase::AwaitStatus.next(Answer::Status(0)) == Outcome::Pending(Phase::AwaitLogLength),
        Phase::AwaitLogLength.next(Answer::LogLength(length)) == Outcome::Pending(
            Phase::AwaitLog { length: length as usize },
        ),
        (Phase::AwaitLog { length: length as usize }).next(Answer::Log(bytes)) == Outcome::Failed(
            fitted(bytes, length as nat),
        ),
        fitted(bytes, length as nat).len() == length,
        bytes.len() == length ==> fitted(bytes, length as nat) == bytes,
{
    lemma_log_length_exact(bytes, length as nat);
}

/// The protocol never goes back: from the wait for the log's length it does
/// not return to the wait for the status, nor from the wait for the log to
/// either of the others.
pub proof fn lemma_never_back(phase: Phase, answer: Answer)
    ensures
        match phase.next(answer) {
            Outcome::Pending(next) => match phase {
                Phase::AwaitStatus => next == Phase::AwaitStatus || next == Phase::AwaitLogLength,
                Phase::AwaitLogLength => next == Phase::AwaitLogLength || next is AwaitLog,
                Phase::AwaitLog { .. } => next == phase,
            },
            _ => true,
        },
{
}

} // verus!
