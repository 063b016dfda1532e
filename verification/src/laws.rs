//! What holds of every compilation, whatever the graphics context answers.

use vstd::prelude::*;
use crate::error::ShaderErrorView;
use crate::model::{begin, CompilerState, OutcomeView, Phase, ProgressView};
use crate::protocol::{ReplyView, RequestView};
use crate::stage::StageSourceView;
use crate::history::{detached, lemma_history};
use crate::trace::{
    all_granted, first_refusal, kinds_asked, lemma_first_refusal, lemma_run_add,
    lemma_run_finished, lemma_run_wf, only_releases, run, sources_set, stages_attached,
    stages_compiled, stages_deleted, stages_detached, stages_made, transcript, Exchange,
};

verus! {

/// Whether the stage objects were attached, detached and deleted in the order
/// of their making, none of them deleted while it was attached, and no more
/// of them made than there are stages.
pub open spec fn released_in_order(stages: Seq<StageSourceView>, exchanges: Seq<Exchange>) -> bool {
    let made = stages_made(exchanges);
    let attached = stages_attached(exchanges);
    let detached = stages_detached(exchanges);
    let deleted = stages_deleted(exchanges);
    &&& made.len() <= stages.len()
    &&& attached.is_prefix_of(made)
    &&& detached.is_prefix_of(attached)
    &&& deleted.is_prefix_of(made)
    &&& deleted.len() <= detached.len() || detached.len() == attached.len()
}

/// Whether the stages were built in the order in which they were given, one
/// at a time: the stage object with a place in the order of making was asked
/// for with the kind of the stage with that place, was given that stage's
/// source, and was compiled before it was attached and before the next one
/// was asked for.
pub open spec fn built_in_order(stages: Seq<StageSourceView>, exchanges: Seq<Exchange>) -> bool {
    let made = stages_made(exchanges);
    let asked = kinds_asked(exchanges);
    let sourced = sources_set(exchanges);
    let compiled = stages_compiled(exchanges);
    let attached = stages_attached(exchanges);
    &&& asked.len() <= stages.len()
    &&& forall|k: int| 0 <= k < asked.len() ==> #[trigger] asked[k] == stages[k].kind
    &&& made.len() <= asked.len() <= attached.len() + 1
    &&& attached.len() <= compiled.len() <= sourced.len() <= made.len()
    &&& forall|k: int|
        0 <= k < sourced.len() ==> #[trigger] sourced[k] == (made[k], stages[k].source)
    &&& compiled.is_prefix_of(made)
}

/// What the exchanges of a compilation make it end in. The first call that
/// the context did not grant decides: the program object refused is
/// `ProgramCreationFailed`, a stage object refused is `StageCreationFailed`, a
/// compile status that is no success is `StageCompileFailed` with the kind of
/// the stage that was being built and the text of the answer after it, a
/// link status that is no success is `LinkFailed` with the text of the answer
/// after it. With every call granted it is the program that the first answer
/// brought. With no stages to build it is `NoStages`.
pub open spec fn verdict(stages: Seq<StageSourceView>, exchanges: Seq<Exchange>) -> OutcomeView {
    let at = first_refusal(exchanges);
    if stages.len() == 0 {
        Err(ShaderErrorView::NoStages)
    } else if at >= exchanges.len() {
        Ok(exchanges[0].reply.program().unwrap())
    } else {
        Err(
            match exchanges[at].request {
                RequestView::CreateProgram => ShaderErrorView::ProgramCreationFailed,
                RequestView::QueryCompileStatus { .. } => ShaderErrorView::StageCompileFailed {
                    kind: stages[stages_attached(exchanges).len() as int].kind,
                    log: exchanges[at + 1].reply.log(),
                },
                RequestView::QueryLinkStatus { .. } => ShaderErrorView::LinkFailed {
                    log: exchanges[at + 1].reply.log(),
                },
                _ => ShaderErrorView::StageCreationFailed,
            },
        )
    }
}

proof fn lemma_release_run(state: CompilerState, replies: Seq<ReplyView>)
    requires
        state.wf(),
        state.phase == Phase::Detaching || state.phase == Phase::Deleting,
    ensures
        match run(ProgressView::Pending(state), replies) {
            ProgressView::Pending(later) => {
                &&& later.wf()
                &&& later.phase == Phase::Detaching || later.phase == Phase::Deleting
                &&& later.failure == state.failure
                &&& later.program == state.program
            },
            ProgressView::Finished(outcome) => outcome == state.outcome(),
        },
        only_releases(transcript(ProgressView::Pending(state), replies)),
    decreases replies.len(),
{
    let start = ProgressView::Pending(state);
    if replies.len() > 0 {
        lemma_release_run(state, replies.drop_last());
        match run(start, replies.drop_last()) {
            ProgressView::Pending(later) => {
                crate::model::lemma_advance(later, replies.last());
                let earlier = transcript(start, replies.drop_last());
                let exchange = Exchange { request: later.request(), reply: replies.last() };
                assert forall|i: int| 0 <= i < earlier.push(exchange).len() implies {
                    ||| (#[trigger] earlier.push(exchange)[i]).request is DetachStage
                    ||| earlier.push(exchange)[i].request is DeleteStage
                } by {
                    if i < earlier.len() {
                        assert(earlier.push(exchange)[i] == earlier[i]);
                    }
                }
            },
            ProgressView::Finished(_) => {},
        }
    }
}

/// Every compilation comes to its end: it makes at most seven calls for each
/// stage and four more, whatever the context answers.
pub proof fn law_compilation_ends(stages: Seq<StageSourceView>, replies: Seq<ReplyView>)
    ensures
        transcript(begin(stages), replies).len() <= 7 * stages.len() + 4,
        replies.len() >= 7 * stages.len() + 4 ==> run(begin(stages), replies) is Finished,
{
    lemma_run_wf(begin(stages), replies);
    match run(begin(stages), replies) {
        ProgressView::Pending(state) => {
            crate::model::lemma_advance(state, ReplyView::Done);
        },
        ProgressView::Finished(_) => {},
    }
}

/// A compilation of no stages is over before it starts: it ends in `NoStages`
/// and asks nothing of the context.
pub proof fn law_no_stages_no_calls(stages: Seq<StageSourceView>, replies: Seq<ReplyView>)
    requires
        stages.len() == 0,
    ensures
        run(begin(stages), replies) == ProgressView::Finished(Err(ShaderErrorView::NoStages)),
        transcript(begin(stages), replies).len() == 0,
{
    lemma_run_finished(begin(stages), replies);
}

/// Only a compilation of no stages ends in `NoStages`, and every other one
/// starts by asking for the program object.
pub proof fn law_first_call_creates_program(
    stages: Seq<StageSourceView>,
    replies: Seq<ReplyView>,
)
    requires
        stages.len() > 0,
        replies.len() > 0,
    ensures
        transcript(begin(stages), replies).len() > 0,
        transcript(begin(stages), replies)[0].request == RequestView::CreateProgram,
        transcript(begin(stages), replies)[0].reply == replies[0],
        run(begin(stages), replies) != ProgressView::Finished(Err(ShaderErrorView::NoStages)),
    decreases replies.len(),
{
    let start = begin(stages);
    if replies.len() == 1 {
        assert(replies.drop_last().len() == 0);
        assert(transcript(start, replies) =~= seq![
            Exchange { request: RequestView::CreateProgram, reply: replies[0] },
        ]);
    } else {
        law_first_call_creates_program(stages, replies.drop_last());
        lemma_history(stages, replies);
        lemma_history(stages, replies.drop_last());
        match run(start, replies.drop_last()) {
            ProgressView::Pending(state) => {
                crate::model::lemma_advance(state, replies.last());
            },
            ProgressView::Finished(_) => {},
        }
    }
}

/// No stage object outlives the compilation that made it. When a compilation
/// is over, however it ends, every stage object that the context made has
/// been deleted, once and in the order of their making, and every one that
/// was attached to the program has been detached from it.
pub proof fn law_stage_objects_released(stages: Seq<StageSourceView>, replies: Seq<ReplyView>)
    requires
        run(begin(stages), replies) is Finished,
    ensures
        stages_deleted(transcript(begin(stages), replies)) == stages_made(
            transcript(begin(stages), replies),
        ),
        stages_detached(transcript(begin(stages), replies)) == stages_attached(
            transcript(begin(stages), replies),
        ),
{
    if stages.len() == 0 {
        lemma_run_finished(begin(stages), replies);
    } else {
        lemma_history(stages, replies);
    }
}

/// While a compilation runs and when it is over, the stage objects have been
/// attached, detached and deleted in the order of their making, none was
/// deleted while it was attached to the program, and no more of them were
/// made than there are stages.
pub proof fn law_release_in_order(stages: Seq<StageSourceView>, replies: Seq<ReplyView>)
    ensures
        released_in_order(stages, transcript(begin(stages), replies)),
{
    if stages.len() == 0 {
        lemma_run_finished(begin(stages), replies);
    } else {
        lemma_history(stages, replies);
        let exchanges = transcript(begin(stages), replies);
        match run(begin(stages), replies) {
            ProgressView::Pending(state) => {
                assert(stages_detached(exchanges) =~= stages_attached(exchanges).take(
                    detached(state) as int,
                ));
            },
            ProgressView::Finished(_) => {},
        }
    }
}

/// The stages are built in the order in which they were given, one at a
/// time; and when the compilation is over, every stage object that was made
/// has been given its source and compiled.
pub proof fn law_built_in_order(stages: Seq<StageSourceView>, replies: Seq<ReplyView>)
    ensures
        built_in_order(stages, transcript(begin(stages), replies)),
        run(begin(stages), replies) is Finished ==> {
            &&& sources_set(transcript(begin(stages), replies)).len() == stages_made(
                transcript(begin(stages), replies),
            ).len()
            &&& stages_compiled(transcript(begin(stages), replies)) == stages_made(
                transcript(begin(stages), replies),
            )
        },
{
    if stages.len() == 0 {
        lemma_run_finished(begin(stages), replies);
    } else {
        lemma_history(stages, replies);
    }
}

/// The end of a compilation is the verdict of its exchanges: the first call
/// that the context did not grant decides which error it is, and with every
/// call granted it is the program.
pub proof fn law_outcome_is_verdict(stages: Seq<StageSourceView>, replies: Seq<ReplyView>)
    requires
        run(begin(stages), replies) is Finished,
    ensures
        run(begin(stages), replies) == ProgressView::Finished(
            verdict(stages, transcript(begin(stages), replies)),
        ),
{
    if stages.len() == 0 {
        lemma_run_finished(begin(stages), replies);
    } else {
        lemma_history(stages, replies);
    }
}

/// A compilation ends in a program exactly when the context granted every
/// call: it made every object that was asked for and reported every
/// compilation and the linking as successful. The program is then the one
/// that the context made on the first call, and a stage object was attached
/// to it for every stage.
pub proof fn law_program_iff_all_granted(stages: Seq<StageSourceView>, replies: Seq<ReplyView>)
    requires
        stages.len() > 0,
        run(begin(stages), replies) is Finished,
    ensures
        run(begin(stages), replies)->Finished_0 is Ok <==> all_granted(
            transcript(begin(stages), replies),
        ),
        run(begin(stages), replies) matches ProgressView::Finished(Ok(program)) ==> {
            &&& transcript(begin(stages), replies)[0].reply.program() == Some(program)
            &&& stages_attached(transcript(begin(stages), replies)).len() == stages.len()
        },
{
    lemma_history(stages, replies);
    lemma_first_refusal(transcript(begin(stages), replies));
}

/// A stage that does not compile ends the compilation in `StageCompileFailed`
/// with that stage's kind and the log that the context gives for it. After
/// that answer the compiler asks for that log and then only releases what was
/// made: no later stage is begun.
///
/// `before` are the answers up to the query for the compile status, `status`
/// is the answer to it, `log` the answer to the call after it, and `after`
/// the answers that follow.
pub proof fn law_compile_failure(
    stages: Seq<StageSourceView>,
    before: Seq<ReplyView>,
    status: ReplyView,
    log: ReplyView,
    after: Seq<ReplyView>,
)
    requires
        run(begin(stages), before) matches ProgressView::Pending(state)
            && state.request() is QueryCompileStatus,
        !status.affirmed(),
        run(begin(stages), before.push(status).push(log) + after) is Finished,
    ensures
        ({
            let made = stages_made(transcript(begin(stages), before));
            let exchanges = transcript(begin(stages), before.push(status).push(log) + after);
            let at: int = before.len() as int;
            &&& 0 < made.len() <= stages.len()
            &&& run(begin(stages), before.push(status).push(log) + after)
                == ProgressView::Finished(
                Err(
                    ShaderErrorView::StageCompileFailed {
                        kind: stages[made.len() - 1].kind,
                        log: log.log(),
                    },
                ),
            )
            &&& exchanges.len() >= at + 2
            &&& exchanges.take(at) == transcript(begin(stages), before)
            &&& exchanges[at] == Exchange {
                request: RequestView::QueryCompileStatus { stage: made.last() },
                reply: status,
            }
            &&& exchanges[at + 1] == Exchange {
                request: RequestView::GetCompileLog { stage: made.last() },
                reply: log,
            }
            &&& only_releases(exchanges.skip(at + 2))
        }),
{
    let start = begin(stages);
    let state = run(start, before)->Pending_0;
    if stages.len() == 0 {
        lemma_run_finished(start, before);
    }
    lemma_history(stages, before);
    lemma_run_wf(start, before);
    lemma_failure_run(stages, before, state, status, log, after);
}

/// A program that does not link ends the compilation in `LinkFailed` with the
/// log that the context gives for it. Every stage had compiled and was
/// attached by then; after that answer the compiler asks for that log and
/// then only releases what was made.
///
/// `before` are the answers up to the query for the link status, `status`
/// is the answer to it, `log` the answer to the call after it, and `after`
/// the answers that follow.
pub proof fn law_link_failure(
    stages: Seq<StageSourceView>,
    before: Seq<ReplyView>,
    status: ReplyView,
    log: ReplyView,
    after: Seq<ReplyView>,
)
    requires
        run(begin(stages), before) matches ProgressView::Pending(state)
            && state.request() is QueryLinkStatus,
        !status.affirmed(),
        run(begin(stages), before.push(status).push(log) + after) is Finished,
    ensures
        ({
            let earlier = transcript(begin(stages), before);
            let exchanges = transcript(begin(stages), before.push(status).push(log) + after);
            let at: int = before.len() as int;
            &&& all_granted(earlier)
            &&& stages_attached(earlier).len() == stages.len()
            &&& run(begin(stages), before.push(status).push(log) + after)
                == ProgressView::Finished(
                Err(ShaderErrorView::LinkFailed { log: log.log() }),
            )
            &&& exchanges.len() >= at + 2
            &&& exchanges.take(at) == earlier
            &&& exchanges[at] == Exchange {
                request: RequestView::QueryLinkStatus { program: earlier[0].reply.program().unwrap() },
                reply: status,
            }
            &&& exchanges[at + 1] == Exchange {
                request: RequestView::GetLinkLog { program: earlier[0].reply.program().unwrap() },
                reply: log,
            }
            &&& only_releases(exchanges.skip(at + 2))
        }),
{
    let start = begin(stages);
    let state = run(start, before)->Pending_0;
    if stages.len() == 0 {
        lemma_run_finished(start, before);
    }
    lemma_history(stages, before);
    lemma_first_refusal(transcript(start, before));
    lemma_run_wf(start, before);
    lemma_failure_run(stages, before, state, status, log, after);
}

/// What follows a status that is no success, of a compilation or of the
/// linking.
proof fn lemma_failure_run(
    stages: Seq<StageSourceView>,
    before: Seq<ReplyView>,
    state: CompilerState,
    status: ReplyView,
    log: ReplyView,
    after: Seq<ReplyView>,
)
    requires
        run(begin(stages), before) == ProgressView::Pending(state),
        state.wf(),
        transcript(begin(stages), before).len() == before.len(),
        state.phase == Phase::CheckingCompile || state.phase == Phase::CheckingLink,
        !status.affirmed(),
        run(begin(stages), before.push(status).push(log) + after) is Finished,
    ensures
        ({
            let exchanges = transcript(begin(stages), before.push(status).push(log) + after);
            let at: int = before.len() as int;
            let reading = state.advance(status)->Pending_0;
            &&& state.advance(status) is Pending
            &&& reading.advance(log) is Pending
            &&& run(begin(stages), before.push(status).push(log) + after)
                == ProgressView::Finished(reading.advance(log)->Pending_0.outcome())
            &&& exchanges.len() >= at + 2
            &&& exchanges.take(at) == transcript(begin(stages), before)
            &&& exchanges[at] == Exchange {
                request: state.request(),
                reply: status,
            }
            &&& exchanges[at + 1] == Exchange { request: reading.request(), reply: log }
            &&& only_releases(exchanges.skip(at + 2))
        }),
{
    let start = begin(stages);
    let earlier = transcript(start, before);
    let reading = state.advance(status)->Pending_0;
    let releasing = reading.advance(log)->Pending_0;
    let first = Exchange { request: state.request(), reply: status };
    let second = Exchange { request: reading.request(), reply: log };
    let head = before.push(status).push(log);
    crate::model::lemma_advance(state, status);
    crate::model::lemma_advance(reading, log);
    assert(before.push(status).drop_last() =~= before);
    assert(head.drop_last() =~= before.push(status));
    assert(run(start, before.push(status)) == ProgressView::Pending(reading));
    assert(run(start, head) == ProgressView::Pending(releasing));
    assert(transcript(start, before.push(status)) == earlier.push(first));
    assert(transcript(start, head) == earlier.push(first).push(second));
    lemma_run_add(start, head, after);
    lemma_release_run(releasing, after);
    let tail = transcript(ProgressView::Pending(releasing), after);
    let exchanges = transcript(start, head + after);
    let at: int = before.len() as int;
    assert(exchanges == earlier.push(first).push(second) + tail);
    assert(exchanges.take(at) =~= earlier);
    assert(exchanges.skip(at + 2) =~= tail);
}

} // verus!
