//! Publishing.

use vstd::prelude::*;

use crate::buffer::{BufferModel, ErrorsModel, MessageBuffer};
use crate::client::ops::{
    await_reply, interrupted, poll_either, refused, report_error, report_sink_error, Accepted,
    Either, SendModel, SendOp, SendStage, SendStep, SendStepModel, Watch,
};
use crate::client::{Broadcast, BroadcastModel};
use crate::error::WampError;
use crate::id::{GlobalScope, Id, SessionIdSource, SessionScope};
use crate::pollable::Poll;
use crate::proto::{empty_dict, TxMessage, TxModel};
use crate::transport::{TransportableValue as TV, TvModel};
use crate::uri::Uri;

verus! {

/// What PUBLISH messages are called in errors.
pub const MESSAGE_TYPE: &'static str = "PUBLISH";

/// The PUBLISH message for a broadcast.
pub open spec fn publish_message(
    topic: Seq<char>,
    options: Map<Seq<char>, TvModel>,
    request: u64,
    message: BroadcastModel,
) -> TxModel {
    TxModel::Publish {
        request,
        options,
        topic,
        arguments: Some(message.arguments),
        arguments_kw: Some(message.arguments_kw),
    }
}

/// What a [`PublishOp`] is about.
#[verifier::ext_equal]
pub struct PublishModel {
    /// The topic to publish to.
    pub topic: Seq<char>,
    /// The broadcasts that have not been sent yet, in their order.
    pub messages: Seq<BroadcastModel>,
    /// How far the operation is.
    pub stage: SendStage,
}

/// The publishing of broadcasts, without acknowledgement.
#[derive(Debug)]
pub struct PublishOp {
    topic: Uri,
    messages: Vec<Broadcast>,
    stage: SendStage,
}

/// What broadcasts say, one by one.
pub open spec fn broadcasts_model(messages: Seq<Broadcast>) -> Seq<BroadcastModel> {
    Seq::new(messages.len(), |i: int| messages[i]@)
}

impl View for PublishOp {
    type V = PublishModel;

    closed spec fn view(&self) -> PublishModel {
        PublishModel {
            topic: self.topic@,
            messages: broadcasts_model(self.messages@),
            stage: self.stage,
        }
    }
}

/// The stage in which broadcasts are sent next, or the sink is flushed if there are none.
pub open spec fn next_stage(messages: Seq<BroadcastModel>) -> SendStage {
    if messages.len() > 0 {
        SendStage::WaitReady
    } else {
        SendStage::Flushing
    }
}

/// What has to be done in the stage in which broadcasts are sent next.
pub open spec fn next_step(messages: Seq<BroadcastModel>) -> SendStepModel {
    if messages.len() > 0 {
        SendStepModel::WaitReady
    } else {
        SendStepModel::Flush
    }
}

/// What publishing does after the sink has done what it was to do, or failed to: each broadcast is
/// sent when the sink is ready for it, and the sink is flushed after the last one. `request` is the
/// next request ID.
pub open spec fn publish_step(
    op: PublishModel,
    watch: Watch,
    outcome: Result<(), Seq<char>>,
    request: u64,
) -> (PublishModel, SendStepModel) {
    match crate::client::ops::interruption(Accepted::Established, watch) {
        Some(error) => (op, SendStepModel::Failed(error)),
        None => if op.stage is Sent {
            (op, SendStepModel::Sent)
        } else {
            match (outcome, op.stage) {
                (Err(error), _) => (
                    op,
                    SendStepModel::Failed(
                        crate::client::ops::sink_error(
                            op.stage,
                            MESSAGE_TYPE@,
                            MESSAGE_TYPE@,
                            error,
                        ),
                    ),
                ),
                (Ok(()), SendStage::WaitReady) => (
                    PublishModel {
                        messages: op.messages.skip(1),
                        stage: SendStage::Sending,
                        ..op
                    },
                    SendStepModel::Send(
                        publish_message(op.topic, Map::empty(), request, op.messages[0]),
                    ),
                ),
                (Ok(()), SendStage::Flushing) => (
                    PublishModel { stage: SendStage::Sent, ..op },
                    SendStepModel::Sent,
                ),
                (Ok(()), _) => (
                    PublishModel { stage: next_stage(op.messages), ..op },
                    next_step(op.messages),
                ),
            }
        },
    }
}

impl PublishOp {
    #[verifier::type_invariant]
    spec fn inv(self) -> bool {
        self.stage is WaitReady ==> self.messages@.len() > 0
    }

    /// Begins to publish broadcasts to a topic. Also tells what is to be done first.
    pub fn new(topic: Uri, messages: Vec<Broadcast>) -> (begun: (Self, SendStep))
        ensures
            begun.0@ == (PublishModel {
                topic: topic@,
                messages: broadcasts_model(messages@),
                stage: next_stage(broadcasts_model(messages@)),
            }),
            begun.1@ == next_step(broadcasts_model(messages@)),
    {
        if messages.len() > 0 {
            (
                PublishOp { topic, messages, stage: SendStage::WaitReady },
                SendStep::WaitReady,
            )
        } else {
            (PublishOp { topic, messages, stage: SendStage::Flushing }, SendStep::Flush)
        }
    }

    /// Goes on after the sink has done what it was to do, or failed to. A request ID is taken only
    /// when a broadcast is sent.
    pub fn advance(
        &mut self,
        watch: Watch,
        outcome: Result<(), String>,
        ids: &mut SessionIdSource,
    ) -> (step: SendStep)
        ensures
            (final(self)@, step@) == publish_step(
                old(self)@,
                watch,
                crate::client::ops::outcome_model(outcome),
                old(ids)@ as u64,
            ),
            final(ids)@ == (if step is Send {
                crate::id::session_successor(old(ids)@)
            } else {
                old(ids)@
            }),
    {
        if let Some(error) = interrupted(Accepted::Established, watch) {
            return SendStep::Failed(error);
        }
        if let SendStage::Sent = self.stage {
            return SendStep::Sent;
        }
        if let Err(error) = outcome {
            return SendStep::Failed(
                report_sink_error(self.stage, MESSAGE_TYPE, MESSAGE_TYPE, error),
            );
        }
        match self.stage {
            SendStage::WaitReady => {
                proof {
                    use_type_invariant(&*self);
                }
                self.stage = SendStage::Sending;
                let mut messages: Vec<Broadcast> = Vec::new();
                std::mem::swap(&mut messages, &mut self.messages);
                let message = messages.remove(0);
                self.messages = messages;
                let options = empty_dict();
                assert(self@.messages =~= old(self)@.messages.skip(1));
                SendStep::Send(
                    TxMessage::Publish {
                        request: Id::<SessionScope>::next(ids),
                        options,
                        topic: self.topic.clone(),
                        arguments: Some(message.arguments),
                        arguments_kw: Some(message.arguments_kw),
                    },
                )
            },
            SendStage::Flushing => {
                self.stage = SendStage::Sent;
                SendStep::Sent
            },
            _ => if self.messages.len() > 0 {
                self.stage = SendStage::WaitReady;
                SendStep::WaitReady
            } else {
                self.stage = SendStage::Flushing;
                SendStep::Flush
            },
        }
    }
}

/// What an operation is told of a turn: what is watched, and how what the sink was to do went.
pub struct Turn {
    /// What is watched.
    pub watch: Watch,
    /// How what the sink was to do went, with the text of its error.
    pub outcome: Result<(), Seq<char>>,
}

impl Turn {
    /// Nothing goes wrong.
    pub open spec fn is_smooth(self) -> bool {
        &&& crate::client::ops::interruption(Accepted::Established, self.watch) is None
        &&& self.outcome is Ok
    }
}

/// What some turns of publishing come to.
#[verifier::ext_equal]
pub struct PublishRun {
    /// The operation afterwards.
    pub op: PublishModel,
    /// The next request ID.
    pub id: usize,
    /// What had to be done after each turn.
    pub steps: Seq<SendStepModel>,
}

/// What turns come to, whatever happens in them. `id` is the next request ID.
pub open spec fn publish_run(op: PublishModel, turns: Seq<Turn>, id: usize) -> PublishRun
    decreases turns.len(),
{
    if turns.len() == 0 {
        PublishRun { op, id, steps: Seq::empty() }
    } else {
        let before = publish_run(op, turns.drop_last(), id);
        let turn = turns.last();
        let (next, step) = publish_step(before.op, turn.watch, turn.outcome, before.id as u64);
        PublishRun {
            op: next,
            id: if step is Send {
                crate::id::session_successor(before.id)
            } else {
                before.id
            },
            steps: before.steps.push(step),
        }
    }
}

/// The messages that the sink is given by steps, in their order.
pub open spec fn messages_sent(steps: Seq<SendStepModel>) -> Seq<TxModel>
    decreases steps.len(),
{
    if steps.len() == 0 {
        Seq::empty()
    } else {
        let front = messages_sent(steps.drop_last());
        match steps.last() {
            SendStepModel::Send(message) => front.push(message),
            _ => front,
        }
    }
}

/// Whatever happens in the turns, and after however many of them: the broadcasts that the sink has
/// been given are the first ones, in their order and with consecutive request IDs, each once, and
/// the others are left. So a failure leaves exactly the first ones sent. The sink is flushed only
/// when none is left.
pub proof fn lemma_first_ones_sent(op: PublishModel, turns: Seq<Turn>, id: usize)
    requires
        op.stage == next_stage(op.messages),
    ensures
        ({
            let run = publish_run(op, turns, id);
            let sent = messages_sent(run.steps);
            let k = sent.len();
            &&& run.steps.len() == turns.len()
            &&& k <= op.messages.len()
            &&& forall|i: int|
                0 <= i < k ==> #[trigger] sent[i] == publish_message(
                    op.topic,
                    Map::empty(),
                    crate::id::session_id_after(id, i as nat) as u64,
                    op.messages[i],
                )
            &&& run.op.topic == op.topic
            &&& run.op.messages == op.messages.skip(k as int)
            &&& run.id == crate::id::session_id_after(id, k)
            &&& run.op.stage is WaitReady ==> k < op.messages.len()
            &&& run.op.stage is Flushing || run.op.stage is Sent ==> k == op.messages.len()
        }),
    decreases turns.len(),
{
    let run = publish_run(op, turns, id);
    if turns.len() == 0 {
        assert(run.op.messages =~= op.messages.skip(0));
    } else {
        lemma_first_ones_sent(op, turns.drop_last(), id);
        let before = publish_run(op, turns.drop_last(), id);
        let k = messages_sent(before.steps).len() as int;
        assert(run.steps.drop_last() =~= before.steps);
        if run.steps.last() is Send {
            assert(op.messages.skip(k).skip(1) =~= op.messages.skip(k + 1));
            assert(op.messages.skip(k)[0] == op.messages[k]);
        }
    }
}

/// While nothing goes wrong, each broadcast is sent after the sink has become ready for it; the sink
/// is flushed once, after the last one, and then everything has been sent.
pub proof fn lemma_published_in_order(op: PublishModel, turns: Seq<Turn>, id: usize)
    requires
        op.stage == next_stage(op.messages),
        turns.len() <= 2 * op.messages.len() + 1,
        forall|j: int| 0 <= j < turns.len() ==> (#[trigger] turns[j]).is_smooth(),
    ensures
        ({
            let run = publish_run(op, turns, id);
            let n = op.messages.len() as int;
            let done = turns.len() as int;
            &&& run.steps.len() == done
            &&& forall|j: int|
                0 <= j < done ==> #[trigger] run.steps[j] == if j == 2 * n {
                    SendStepModel::Sent
                } else if j % 2 == 0 {
                    SendStepModel::Send(
                        publish_message(
                            op.topic,
                            Map::empty(),
                            crate::id::session_id_after(id, (j / 2) as nat) as u64,
                            op.messages[j / 2],
                        ),
                    )
                } else if j + 1 < 2 * n {
                    SendStepModel::WaitReady
                } else {
                    SendStepModel::Flush
                }
            &&& run.op == (PublishModel {
                topic: op.topic,
                messages: op.messages.skip(
                    if done <= 2 * n {
                        (done + 1) / 2
                    } else {
                        n
                    },
                ),
                stage: if done > 2 * n {
                    SendStage::Sent
                } else if done == 2 * n {
                    SendStage::Flushing
                } else if done % 2 == 0 {
                    SendStage::WaitReady
                } else {
                    SendStage::Sending
                },
            })
            &&& run.id == crate::id::session_id_after(
                id,
                if done <= 2 * n {
                    ((done + 1) / 2) as nat
                } else {
                    n as nat
                },
            )
        }),
    decreases turns.len(),
{
    let run = publish_run(op, turns, id);
    if turns.len() == 0 {
        assert(run.op.messages =~= op.messages.skip(0));
    } else {
        let front = turns.drop_last();
        assert forall|j: int| 0 <= j < front.len() implies (#[trigger] front[j]).is_smooth() by {
            assert(turns[j].is_smooth());
        }
        lemma_published_in_order(op, front, id);
        let before = publish_run(op, front, id);
        let j = front.len() as int;
        assert(turns[j].is_smooth());
        assert(run.steps.drop_last() =~= before.steps);
        if before.op.stage is WaitReady {
            let k = j / 2;
            assert(op.messages.skip(k).skip(1) =~= op.messages.skip(k + 1));
            assert(op.messages.skip(k)[0] == op.messages[k]);
        }
    }
}

/// The options of a PUBLISH message that asks for acknowledgement.
pub open spec fn ack_options() -> Map<Seq<char>, TvModel> {
    Map::empty().insert("acknowledge"@, TvModel::Bool(true))
}

/// The sending of a PUBLISH message that asks for acknowledgement, at its beginning.
pub open spec fn ack_send(topic: Seq<char>, request: u64, message: BroadcastModel) -> SendModel {
    SendModel {
        accepted: Accepted::Established,
        message_type: MESSAGE_TYPE@,
        flush_type: MESSAGE_TYPE@,
        message: Some(publish_message(topic, ack_options(), request, message)),
        stage: SendStage::WaitReady,
    }
}

/// The publishing of a broadcast, with acknowledgement.
#[derive(Debug)]
pub struct PublishWithAckOp {
    /// The ID of the request.
    pub request: Id<SessionScope>,
    /// The sending of the PUBLISH message.
    pub send: SendOp,
}

impl PublishWithAckOp {
    /// Begins to publish a broadcast to a topic; the sink has to become ready first.
    pub fn new(topic: Uri, message: Broadcast, ids: &mut SessionIdSource) -> (op: Self)
        ensures
            final(ids)@ == crate::id::session_successor(old(ids)@),
            op.request@ == old(ids)@,
            op.send@ == ack_send(topic@, old(ids)@ as u64, message@),
    {
        let request = Id::<SessionScope>::next(ids);
        let mut options = empty_dict();
        let ghost before = options;
        options.insert("acknowledge".to_owned(), TV::Bool(true));
        proof {
            crate::transport::lemma_dict_model_insert(
                before,
                options,
                "acknowledge"@,
                TV::Bool(true),
            );
        }
        let publish = TxMessage::Publish {
            request,
            options,
            topic,
            arguments: Some(message.arguments),
            arguments_kw: Some(message.arguments_kw),
        };
        PublishWithAckOp {
            request,
            send: SendOp::new(publish, Accepted::Established, MESSAGE_TYPE, MESSAGE_TYPE),
        }
    }

    /// Looks for the reply, once the message has been sent: a PUBLISHED message gives the ID of the
    /// publication, an ERROR message an error. `error_first` says which of the two is looked for
    /// first.
    pub fn poll_reply(
        &self,
        watch: Watch,
        received: &mut MessageBuffer,
        task: u64,
        error_first: bool,
    ) -> (polled: Poll<Result<Id<GlobalScope>, WampError>>)
        requires
            self.send@.stage is Sent,
        ensures
            ack_polled(
                self.request@,
                watch,
                (old(received)@, final(received)@),
                task,
                error_first,
                polled,
            ),
    {
        if let Some(error) = refused(Accepted::Established, watch.state) {
            return Poll::Ready(Err(error));
        }
        if error_first {
            match poll_either(
                &mut received.errors.publish,
                &mut received.published,
                self.request,
                task,
            ) {
                Either::First(message) => Poll::Ready(Err(report_error(message))),
                Either::Second(message) => Poll::Ready(Ok(message.publication)),
                Either::Neither => await_reply(watch),
            }
        } else {
            match poll_either(
                &mut received.published,
                &mut received.errors.publish,
                self.request,
                task,
            ) {
                Either::First(message) => Poll::Ready(Ok(message.publication)),
                Either::Second(message) => Poll::Ready(Err(report_error(message))),
                Either::Neither => await_reply(watch),
            }
        }
    }
}

/// Of a buffer nothing has changed but the PUBLISHED messages and the errors of publishing.
pub open spec fn only_publishing_changed(before: BufferModel, after: BufferModel) -> bool {
    after == (BufferModel {
        published: after.published,
        errors: ErrorsModel { publish: after.errors.publish, ..before.errors },
        ..before
    })
}

/// What looking for the reply to a request to publish comes to, while the session is established: a
/// reply that is there counts even if the time is up.
pub open spec fn ack_polled(
    request: u64,
    watch: Watch,
    buffers: (BufferModel, BufferModel),
    task: u64,
    error_first: bool,
    polled: Poll<Result<Id<GlobalScope>, WampError>>,
) -> bool {
    let published = (buffers.0.published, buffers.1.published);
    let errors = (buffers.0.errors.publish, buffers.1.errors.publish);
    match crate::client::ops::refusal(Accepted::Established, watch.state) {
        Some(error) => (polled matches Poll::Ready(Err(e)) && e@ == error) && buffers.1
            == buffers.0,
        None => only_publishing_changed(buffers.0, buffers.1) && match polled {
            Poll::Ready(Ok(publication)) => exists|message: crate::proto::rx::Published|
                #![trigger message.publication]
                publication == message.publication && if error_first {
                    crate::client::ops::either_polled(
                        errors,
                        published,
                        request,
                        task,
                        Either::Second(message),
                    )
                } else {
                    crate::client::ops::either_polled(
                        published,
                        errors,
                        request,
                        task,
                        Either::First(message),
                    )
                },
            Poll::Ready(Err(error)) if !(error@ is Timeout) => exists|
                message: crate::proto::rx::Error,
            |
                #![trigger crate::client::ops::received_error(message)]
                error@ == crate::client::ops::received_error(message) && if error_first {
                    crate::client::ops::either_polled(
                        errors,
                        published,
                        request,
                        task,
                        Either::First(message),
                    )
                } else {
                    crate::client::ops::either_polled(
                        published,
                        errors,
                        request,
                        task,
                        Either::Second(message),
                    )
                },
            _ => crate::client::ops::ended_by_clock(watch, polled) && if error_first {
                crate::client::ops::either_polled(
                    errors,
                    published,
                    request,
                    task,
                    Either::Neither,
                )
            } else {
                crate::client::ops::either_polled(
                    published,
                    errors,
                    request,
                    task,
                    Either::Neither,
                )
            },
        },
    }
}

} // verus!
