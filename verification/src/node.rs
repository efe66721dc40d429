//! The node: a counter, and the step that answers one message.

use crate::clock::unix_seconds;
use crate::ident::{format_unique_id, unique_id_text};
use crate::message::{
    Message, MessageBody, MessageBodyView, MessageView, Payload, PayloadKind, PayloadView,
};
use crate::outbox::Outbox;
use vstd::prelude::*;

verus! {

/// Why a step failed. Every failure is final: the step wrote nothing and the
/// counter stands where it stood.
#[derive(Debug, Clone, Copy, PartialEq, Eq, Structural)]
pub enum StepError {
    /// The message carried an answer, which this node never asked for.
    ProtocolViolation(PayloadKind),
    /// The output refused the reply.
    Write,
    /// An identifier was asked for while the clock read a time before the
    /// epoch.
    ClockBeforeEpoch,
}

impl StepError {
    /// The diagnostic for this failure.
    pub open spec fn text(self) -> Seq<char> {
        match self {
            StepError::ProtocolViolation(kind) => "Received unexpected "@ + kind.name_text()
                + " message!"@,
            StepError::Write => "Failed to write reply data to output: stdout."@,
            StepError::ClockBeforeEpoch => "Time went backwards?"@,
        }
    }

    /// The diagnostic for this failure.
    pub fn describe(&self) -> (s: String)
        ensures
            s@ == self.text(),
    {
        match self {
            StepError::ProtocolViolation(kind) => {
                let mut s = String::from_str("Received unexpected ");
                s.append(kind.name());
                s.append(" message!");
                s
            },
            StepError::Write => String::from_str("Failed to write reply data to output: stdout."),
            StepError::ClockBeforeEpoch => String::from_str("Time went backwards?"),
        }
    }
}

/// Whether a step on `input` at the clock reading `now` gets as far as
/// writing a reply.
pub open spec fn answerable(input: MessageView, now: Option<u64>) -> bool {
    let kind = input.body.payload.kind();
    kind.is_request() && (kind == PayloadKind::Generate ==> now is Some)
}

/// The payload that answers `input`. The clock reading enters only into a
/// generated identifier.
pub open spec fn reply_payload(counter: usize, input: MessageView, now: Option<u64>) -> PayloadView {
    match input.body.payload {
        PayloadView::Echo { echo } => PayloadView::EchoOk { echo },
        PayloadView::Init { .. } => PayloadView::InitOk,
        PayloadView::Generate => PayloadView::GenerateOk {
            id: unique_id_text(now.unwrap() as nat, input.dest, counter as nat),
        },
        other => other,
    }
}

/// The reply to `input` from a node whose counter stands at `counter`: sender
/// and receiver change places, the reply takes the counter as its id and
/// names the id of the message it answers, if that had one.
pub open spec fn reply(counter: usize, input: MessageView, now: Option<u64>) -> MessageView {
    MessageView {
        src: input.dest,
        dest: input.src,
        body: MessageBodyView {
            msg_id: Some(counter),
            in_reply_to: input.body.msg_id,
            payload: reply_payload(counter, input, now),
        },
    }
}

/// What a step does: the reply it writes, or why it fails. A violation is
/// found first, then a clock that cannot be read, then an output that
/// refuses.
pub open spec fn outcome(counter: usize, input: MessageView, now: Option<u64>, open: bool) -> Result<
    MessageView,
    StepError,
> {
    let kind = input.body.payload.kind();
    if !kind.is_request() {
        Err(StepError::ProtocolViolation(kind))
    } else if !answerable(input, now) {
        Err(StepError::ClockBeforeEpoch)
    } else if !open {
        Err(StepError::Write)
    } else {
        Ok(reply(counter, input, now))
    }
}

/// How a step at clock reading `now` relates the node and its output before
/// the step to its result and to both after it: on success exactly one line
/// was written and the counter moved on by one; on failure nothing changed.
pub open spec fn steps_to(
    before: EchoNode,
    input: MessageView,
    now: Option<u64>,
    out_before: Outbox,
    res: Result<(), StepError>,
    after: EchoNode,
    out_after: Outbox,
) -> bool {
    &&& out_after.accepts() == out_before.accepts()
    &&& match outcome(before.counter(), input, now, out_before.accepts()) {
        Ok(line) => {
            &&& res is Ok
            &&& after.counter() == before.counter() + 1
            &&& out_after.lines() == out_before.lines().push(line)
        },
        Err(e) => {
            &&& res == Err::<(), StepError>(e)
            &&& after.counter() == before.counter()
            &&& out_after.lines() == out_before.lines()
        },
    }
}

/// Whether `line` answers `input` as a reply from a node whose counter stood
/// at `counter`: sender and receiver have changed places, the line carries
/// the counter as its id, and it names the id of `input` exactly where
/// `input` had one.
pub open spec fn correlates(counter: usize, input: MessageView, line: MessageView) -> bool {
    &&& line.src == input.dest
    &&& line.dest == input.src
    &&& line.body.msg_id == Some(counter)
    &&& line.body.in_reply_to == input.body.msg_id
    &&& line.body.payload.kind() == match input.body.payload.kind() {
        PayloadKind::Echo => PayloadKind::EchoOk,
        PayloadKind::Init => PayloadKind::InitOk,
        PayloadKind::Generate => PayloadKind::GenerateOk,
        other => other,
    }
    &&& input.body.payload matches PayloadView::Echo { echo } ==> line.body.payload
        == (PayloadView::EchoOk { echo })
}

/// What feeding `inputs` in order does to a node whose counter stands at
/// `start` and whose output takes every line, the clock reading `nows[k]` at
/// the step on `inputs[k]`: the counter and the lines written once all are
/// answered, or the failure that ended the run.
pub open spec fn run(start: usize, inputs: Seq<MessageView>, nows: Seq<Option<u64>>) -> Result<
    (usize, Seq<MessageView>),
    StepError,
>
    decreases inputs.len(),
{
    if inputs.len() == 0 {
        Ok((start, Seq::empty()))
    } else {
        match run(start, inputs.drop_last(), nows.drop_last()) {
            Err(e) => Err(e),
            Ok((counter, lines)) => match outcome(counter, inputs.last(), nows.last(), true) {
                Err(e) => Err(e),
                Ok(line) => Ok(((counter + 1) as usize, lines.push(line))),
            },
        }
    }
}

/// Correlation: the reply to a request carries the counter as its id, goes
/// back to the sender, and names the request's id exactly where the request
/// had one. The reply to an echo carries the request's text unchanged.
pub proof fn lemma_reply_correlates(counter: usize, input: MessageView, now: Option<u64>)
    requires
        answerable(input, now),
    ensures
        outcome(counter, input, now, true) == Ok::<MessageView, StepError>(
            reply(counter, input, now),
        ),
        correlates(counter, input, reply(counter, input, now)),
        input.body.msg_id is None ==> reply(counter, input, now).body.in_reply_to is None,
{
}

/// A violation fails whatever the counter, the clock and the output are, and
/// names the kind that was received.
pub proof fn lemma_violation_fails(counter: usize, input: MessageView, now: Option<u64>, open: bool)
    requires
        !input.body.payload.kind().is_request(),
    ensures
        outcome(counter, input, now, open) == Err::<MessageView, StepError>(
            StepError::ProtocolViolation(input.body.payload.kind()),
        ),
{
}

/// The counter counts the replies: after `n` requests that were all answered
/// it stands `n` above where it started, there are `n` lines, and line `k`
/// is the reply to request `k` from the counter `start + k`.
pub proof fn lemma_run_counts(start: usize, inputs: Seq<MessageView>, nows: Seq<Option<u64>>)
    requires
        inputs.len() == nows.len(),
        start + inputs.len() <= usize::MAX,
        forall|k: int| 0 <= k < inputs.len() ==> answerable(#[trigger] inputs[k], nows[k]),
    ensures
        run(start, inputs, nows) is Ok,
        run(start, inputs, nows).unwrap().0 == start + inputs.len(),
        run(start, inputs, nows).unwrap().1.len() == inputs.len(),
        forall|k: int|
            0 <= k < inputs.len() ==> #[trigger] run(start, inputs, nows).unwrap().1[k] == reply(
                (start + k) as usize,
                inputs[k],
                nows[k],
            ),
        forall|k: int|
            0 <= k < inputs.len() ==> (#[trigger] run(start, inputs, nows).unwrap().1[k]).body.msg_id
                == Some((start + k) as usize),
    decreases inputs.len(),
{
    if inputs.len() > 0 {
        let n: int = inputs.len() - 1;
        assert(answerable(inputs[n], nows[n]));
        assert forall|k: int| 0 <= k < n implies answerable(
            #[trigger] inputs.drop_last()[k],
            nows.drop_last()[k],
        ) by {
            assert(answerable(inputs[k], nows[k]));
        }
        lemma_run_counts(start, inputs.drop_last(), nows.drop_last());
    }
}

/// A node. Its counter numbers the messages it sends and enters into the
/// identifiers it generates.
pub struct EchoNode {
    id: usize,
}

impl EchoNode {
    /// The counter: the id that the next reply will carry.
    pub closed spec fn counter(&self) -> usize {
        self.id
    }

    /// A node whose counter stands at zero.
    pub fn new() -> (node: EchoNode)
        ensures
            node.counter() == 0,
    {
        EchoNode { id: 0 }
    }

    /// A node whose counter stands at `id`.
    pub fn starting_at(id: usize) -> (node: EchoNode)
        ensures
            node.counter() == id,
    {
        EchoNode { id }
    }

    /// The counter: the id that the next reply will carry.
    pub fn id(&self) -> (id: usize)
        ensures
            id == self.counter(),
    {
        self.id
    }

    /// Makes an identifier for `dest_node_id` from the clock's reading and
    /// the counter, or `None` where the clock reads a time before the epoch.
    ///
    /// Which second enters is the clock's to say; whatever it is, the
    /// identifier has the shape of `unique_id_text`.
    pub fn gen_unique_id(&self, dest_node_id: &str) -> (id: Option<String>)
        ensures
            id matches Some(s) ==> exists|secs: u64|
                s@ == #[trigger] unique_id_text(secs as nat, dest_node_id@, self.counter() as nat),
    {
        match unix_seconds() {
            Some(secs) => Some(self.unique_id_at(secs, dest_node_id)),
            None => None,
        }
    }

    /// Makes the identifier of second `secs` for `dest_node_id` from the
    /// counter.
    pub fn unique_id_at(&self, secs: u64, dest_node_id: &str) -> (id: String)
        ensures
            id@ == unique_id_text(secs as nat, dest_node_id@, self.counter() as nat),
    {
        format_unique_id(secs, dest_node_id, self.id as u64)
    }

    /// Answers one message at the clock reading `now` (`None`: the clock
    /// reads a time before the epoch).
    ///
    /// A request is answered by one line written to `output`, after which
    /// the counter moves on by one. An answer received is a violation. Where
    /// the step fails, nothing is written and the counter stays. A request
    /// can only be answered while the counter can still move on.
    pub fn step_at(
        &mut self,
        input: Message,
        now: Option<u64>,
        output: &mut Outbox,
    ) -> (res: Result<(), StepError>)
        requires
            input@.body.payload.kind().is_request() ==> old(self).counter() < usize::MAX,
        ensures
            steps_to(*old(self), input@, now, *old(output), res, *final(self), *final(output)),
            res is Ok ==> correlates(old(self).counter(), input@, final(output).lines().last()),
            !input@.body.payload.kind().is_request() ==> res == Err::<(), StepError>(
                StepError::ProtocolViolation(input@.body.payload.kind()),
            ),
    {
        let Message { src, dest, body } = input;
        let MessageBody { msg_id, in_reply_to: _, payload } = body;
        let answer = match payload {
            Payload::Init { .. } => Payload::InitOk {  },
            Payload::Echo { echo } => Payload::EchoOk { echo },
            Payload::Generate {  } => match now {
                Some(secs) => Payload::GenerateOk { id: self.unique_id_at(secs, dest.as_str()) },
                None => {
                    return Err(StepError::ClockBeforeEpoch);
                },
            },
            Payload::EchoOk { .. } => {
                return Err(StepError::ProtocolViolation(PayloadKind::EchoOk));
            },
            Payload::InitOk {  } => {
                return Err(StepError::ProtocolViolation(PayloadKind::InitOk));
            },
            Payload::GenerateOk { .. } => {
                return Err(StepError::ProtocolViolation(PayloadKind::GenerateOk));
            },
        };
        let line = Message {
            src: dest,
            dest: src,
            body: MessageBody { msg_id: Some(self.id), in_reply_to: msg_id, payload: answer },
        };
        assert(line@ == reply(self.counter(), input@, now));
        if output.write(line) {
            self.id = self.id + 1;
            Ok(())
        } else {
            Err(StepError::Write)
        }
    }

    /// Answers one message, reading the clock for it.
    ///
    /// The step is `step_at` at whatever the clock read. Only a request for
    /// an identifier depends on the reading: every other message is handled
    /// as at any reading.
    pub fn step(&mut self, input: Message, output: &mut Outbox) -> (res: Result<(), StepError>)
        requires
            input@.body.payload.kind().is_request() ==> old(self).counter() < usize::MAX,
        ensures
            exists|now: Option<u64>| #[trigger]
                steps_to(*old(self), input@, now, *old(output), res, *final(self), *final(output)),
            input@.body.payload.kind() != PayloadKind::Generate ==> steps_to(
                *old(self),
                input@,
                None,
                *old(output),
                res,
                *final(self),
                *final(output),
            ),
            res is Ok <==> final(self).counter() == old(self).counter() + 1,
            res is Err ==> final(self).counter() == old(self).counter() && final(output).lines()
                == old(output).lines(),
            res is Ok ==> final(output).lines().drop_last() == old(output).lines() && correlates(
                old(self).counter(),
                input@,
                final(output).lines().last(),
            ),
            !input@.body.payload.kind().is_request() ==> res == Err::<(), StepError>(
                StepError::ProtocolViolation(input@.body.payload.kind()),
            ),
            input@.body.payload.kind().is_request() && old(output).accepts() && input@.body.payload.kind()
                != PayloadKind::Generate ==> res is Ok,
    {
        let now = unix_seconds();
        let res = self.step_at(input, now, output);
        proof {
            if res is Ok {
                let line = reply(old(self).counter(), input@, now);
                assert(old(output).lines().push(line).drop_last() =~= old(output).lines());
            }
        }
        res
    }
}

} // verus!
