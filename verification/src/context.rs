//! Compiling against a graphics context that makes the calls.

use vstd::prelude::*;
use crate::compiler::{outcome_view, Progress, ShaderCompiler};
use crate::error::ShaderError;
use crate::handle::ShaderProgramHandle;
use crate::laws::{
    built_in_order, law_built_in_order, law_compilation_ends, law_outcome_is_verdict,
    law_release_in_order, law_stage_objects_released, released_in_order, verdict,
};
use crate::model::{begin, lemma_advance, ProgressView};
use crate::protocol::{Reply, ReplyView, Request};
use crate::stage::{stage_views, ShaderStageSource};
use crate::trace::{
    compilation, run, stages_attached, stages_deleted, stages_detached, stages_made, transcript,
    Exchange,
};

verus! {

/// A graphics context, as far as the building of a shader program needs one.
///
/// Nothing is asked of an implementation: whatever it answers, `compile`
/// comes to an end and releases what it had the context make.
pub trait GraphicsContext {
    /// Makes the call and hands back the context's answer to it.
    fn perform(&mut self, request: Request) -> Reply;
}

/// A graphics context in use, with the record of the calls that were made on
/// it through the session. The record is there for reasoning only; a running
/// program does not keep it.
pub struct Session<G> {
    gl: G,
    record: Ghost<Seq<Exchange>>,
}

impl<G: GraphicsContext> Session<G> {
    /// The calls made so far, each with its answer, in order.
    pub closed spec fn exchanges(&self) -> Seq<Exchange> {
        self.record@
    }

    /// The context that makes the calls.
    pub closed spec fn inner(&self) -> G {
        self.gl
    }

    /// Opens a session on the context. No call was made yet.
    pub fn new(gl: G) -> (session: Session<G>)
        ensures
            session.inner() == gl,
            session.exchanges() == Seq::<Exchange>::empty(),
    {
        Session { gl, record: Ghost(Seq::empty()) }
    }

    /// Has the context make the call, hands back its answer and writes both
    /// down.
    pub fn perform(&mut self, request: Request) -> (reply: Reply)
        ensures
            final(self).exchanges() == old(self).exchanges().push(
                Exchange { request: request@, reply: reply@ },
            ),
    {
        let reply = self.gl.perform(request);
        self.record = Ghost(self.record@.push(Exchange { request: request@, reply: reply@ }));
        reply
    }

    /// The context, to look at.
    pub fn context(&self) -> (gl: &G)
        ensures
            *gl == self.inner(),
    {
        &self.gl
    }

    /// Ends the session and hands the context back.
    pub fn into_context(self) -> (gl: G)
        ensures
            gl == self.inner(),
    {
        self.gl
    }
}

/// Builds one linked program out of the stages, in their order, with the
/// calls made in the session.
///
/// The calls that it adds to the session are those of one whole compilation
/// of the stages, and the result is the end of that compilation: the verdict
/// of those calls. It is `NoStages`, with no call made, exactly when the list
/// is empty. However it ends, every stage object that the context made in
/// those calls was deleted in them, and every one that was attached to the
/// program was detached.
pub fn compile<G: GraphicsContext>(
    session: &mut Session<G>,
    stages: Vec<ShaderStageSource>,
) -> (outcome: Result<ShaderProgramHandle, ShaderError>)
    ensures
        old(session).exchanges().is_prefix_of(final(session).exchanges()),
        ({
            let calls = final(session).exchanges().skip(old(session).exchanges().len() as int);
            &&& compilation(stage_views(stages@), calls, outcome_view(outcome))
            &&& outcome_view(outcome) == verdict(stage_views(stages@), calls)
            &&& stages@.len() == 0 <==> outcome == Err::<ShaderProgramHandle, ShaderError>(
                ShaderError::NoStages,
            )
            &&& stages@.len() == 0 ==> calls.len() == 0
            &&& calls.len() <= 7 * stages@.len() + 4
            &&& stages_deleted(calls) == stages_made(calls)
            &&& stages_detached(calls) == stages_attached(calls)
            &&& released_in_order(stage_views(stages@), calls)
            &&& built_in_order(stage_views(stages@), calls)
        }),
{
    let ghost views = stage_views(stages@);
    let ghost start = begin(views);
    let ghost before = session.exchanges();
    let ghost mut replies: Seq<ReplyView> = Seq::empty();
    let mut progress = ShaderCompiler::start(stages);
    proof {
        assert(before + transcript(start, replies) =~= before);
    }
    loop
        invariant
            views == stage_views(stages@),
            views.len() == stages@.len(),
            start == begin(views),
            before == old(session).exchanges(),
            session.exchanges() == before + transcript(start, replies),
            progress@ == run(start, replies),
            progress@.wf(),
        decreases progress@.remaining(),
    {
        match progress {
            Progress::Finished(outcome) => {
                proof {
                    let calls = transcript(start, replies);
                    assert(session.exchanges().skip(before.len() as int) =~= calls);
                    assert(run(start, replies) == ProgressView::Finished(outcome_view(outcome)));
                    law_outcome_is_verdict(views, replies);
                    law_compilation_ends(views, replies);
                    law_stage_objects_released(views, replies);
                    law_release_in_order(views, replies);
                    law_built_in_order(views, replies);
                    if views.len() == 0 {
                        crate::trace::lemma_run_finished(start, replies);
                    } else {
                        crate::trace::lemma_never_no_stages(start, replies);
                    }
                }
                return outcome;
            },
            Progress::Pending(compiler) => {
                let request = compiler.request();
                let reply = session.perform(request);
                proof {
                    let exchange = Exchange { request: request@, reply: reply@ };
                    lemma_advance(compiler@, reply@);
                    assert(replies.push(reply@).drop_last() =~= replies);
                    assert((before + transcript(start, replies)).push(exchange) =~= before
                        + transcript(start, replies).push(exchange));
                    replies = replies.push(reply@);
                }
                progress = compiler.step(reply);
            },
        }
    }
}

} // verus!
