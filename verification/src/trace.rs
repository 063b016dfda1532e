//! Whole compilations: the answers of a graphics context taken one after the
//! other, and the calls that they draw.

use vstd::prelude::*;
use crate::handle::CompiledStageHandle;
use crate::error::ShaderErrorView;
use crate::model::{begin, OutcomeView, ProgressView};
use crate::protocol::{ReplyView, RequestView};
use crate::stage::{StageKind, StageSourceView};

verus! {

/// One call and the answer to it.
pub struct Exchange {
    pub request: RequestView,
    pub reply: ReplyView,
}

/// Where a compilation stands after these answers, taken in order. Answers
/// that come after its end are not read.
pub open spec fn run(start: ProgressView, replies: Seq<ReplyView>) -> ProgressView
    decreases replies.len(),
{
    if replies.len() == 0 {
        start
    } else {
        match run(start, replies.drop_last()) {
            ProgressView::Pending(state) => state.advance(replies.last()),
            ProgressView::Finished(outcome) => ProgressView::Finished(outcome),
        }
    }
}

/// The calls that a compilation makes while it takes these answers, each with
/// its answer, in order.
pub open spec fn transcript(start: ProgressView, replies: Seq<ReplyView>) -> Seq<Exchange>
    decreases replies.len(),
{
    if replies.len() == 0 {
        Seq::empty()
    } else {
        let earlier = transcript(start, replies.drop_last());
        match run(start, replies.drop_last()) {
            ProgressView::Pending(state) => earlier.push(
                Exchange { request: state.request(), reply: replies.last() },
            ),
            ProgressView::Finished(_) => earlier,
        }
    }
}

/// Whether the exchanges are those of one whole compilation of the stages,
/// and the outcome its end: whether there are answers that lead a compilation
/// of the stages to that end by those exchanges.
pub open spec fn compilation(
    stages: Seq<StageSourceView>,
    exchanges: Seq<Exchange>,
    outcome: OutcomeView,
) -> bool {
    exists|replies: Seq<ReplyView>|
        {
            &&& #[trigger] run(begin(stages), replies) == ProgressView::Finished(outcome)
            &&& transcript(begin(stages), replies) == exchanges
        }
}

/// What `pick` finds in the exchanges, in their order.
pub open spec fn picked<T>(exchanges: Seq<Exchange>, pick: spec_fn(Exchange) -> Option<T>) -> Seq<T>
    decreases exchanges.len(),
{
    if exchanges.len() == 0 {
        Seq::empty()
    } else {
        let earlier = picked(exchanges.drop_last(), pick);
        match pick(exchanges.last()) {
            Some(found) => earlier.push(found),
            None => earlier,
        }
    }
}

/// The stage object that the exchange brings into being.
pub open spec fn made_by(exchange: Exchange) -> Option<CompiledStageHandle> {
    match exchange.request {
        RequestView::CreateStage { .. } => exchange.reply.stage(),
        _ => None,
    }
}

/// The kind of stage object that the exchange asks for.
pub open spec fn asked_by(exchange: Exchange) -> Option<StageKind> {
    match exchange.request {
        RequestView::CreateStage { kind } => Some(kind),
        _ => None,
    }
}

/// The stage object that the exchange gives a source to, and that source.
pub open spec fn sourced_by(exchange: Exchange) -> Option<(CompiledStageHandle, Seq<char>)> {
    match exchange.request {
        RequestView::SetSource { stage, source } => Some((stage, source)),
        _ => None,
    }
}

/// The stage object that the exchange compiles.
pub open spec fn compiled_by(exchange: Exchange) -> Option<CompiledStageHandle> {
    match exchange.request {
        RequestView::CompileStage { stage } => Some(stage),
        _ => None,
    }
}

/// The stage object that the exchange attaches to the program.
pub open spec fn attached_by(exchange: Exchange) -> Option<CompiledStageHandle> {
    match exchange.request {
        RequestView::AttachStage { stage, .. } => Some(stage),
        _ => None,
    }
}

/// The stage object that the exchange detaches from the program.
pub open spec fn detached_by(exchange: Exchange) -> Option<CompiledStageHandle> {
    match exchange.request {
        RequestView::DetachStage { stage, .. } => Some(stage),
        _ => None,
    }
}

/// The stage object that the exchange deletes.
pub open spec fn deleted_by(exchange: Exchange) -> Option<CompiledStageHandle> {
    match exchange.request {
        RequestView::DeleteStage { stage } => Some(stage),
        _ => None,
    }
}

/// The stage objects that the context made, oldest first.
pub open spec fn stages_made(exchanges: Seq<Exchange>) -> Seq<CompiledStageHandle> {
    picked(exchanges, |exchange: Exchange| made_by(exchange))
}

/// The kinds of stage object that were asked for, in the order of the calls.
pub open spec fn kinds_asked(exchanges: Seq<Exchange>) -> Seq<StageKind> {
    picked(exchanges, |exchange: Exchange| asked_by(exchange))
}

/// The stage objects that were given a source, each with that source, in the
/// order of the calls.
pub open spec fn sources_set(exchanges: Seq<Exchange>) -> Seq<(CompiledStageHandle, Seq<char>)> {
    picked(exchanges, |exchange: Exchange| sourced_by(exchange))
}

/// The stage objects that were compiled, in the order of the calls.
pub open spec fn stages_compiled(exchanges: Seq<Exchange>) -> Seq<CompiledStageHandle> {
    picked(exchanges, |exchange: Exchange| compiled_by(exchange))
}

/// The stage objects that were attached to the program, in the order of the
/// calls.
pub open spec fn stages_attached(exchanges: Seq<Exchange>) -> Seq<CompiledStageHandle> {
    picked(exchanges, |exchange: Exchange| attached_by(exchange))
}

/// The stage objects that were detached from the program, in the order of the
/// calls.
pub open spec fn stages_detached(exchanges: Seq<Exchange>) -> Seq<CompiledStageHandle> {
    picked(exchanges, |exchange: Exchange| detached_by(exchange))
}

/// The stage objects that were deleted, in the order of the calls.
pub open spec fn stages_deleted(exchanges: Seq<Exchange>) -> Seq<CompiledStageHandle> {
    picked(exchanges, |exchange: Exchange| deleted_by(exchange))
}

/// Whether the context did what the call asks for: it made the object, or it
/// reported success. A call that asks for neither is always granted.
pub open spec fn granted(exchange: Exchange) -> bool {
    match exchange.request {
        RequestView::CreateProgram => exchange.reply.program() is Some,
        RequestView::CreateStage { .. } => exchange.reply.stage() is Some,
        RequestView::QueryCompileStatus { .. } => exchange.reply.affirmed(),
        RequestView::QueryLinkStatus { .. } => exchange.reply.affirmed(),
        _ => true,
    }
}

/// Whether the context granted every call.
pub open spec fn all_granted(exchanges: Seq<Exchange>) -> bool {
    forall|i: int| 0 <= i < exchanges.len() ==> granted(#[trigger] exchanges[i])
}

/// The place of the first call that the context did not grant, or the
/// number of exchanges if it granted them all.
pub open spec fn first_refusal(exchanges: Seq<Exchange>) -> int
    decreases exchanges.len(),
{
    if exchanges.len() == 0 {
        0
    } else {
        let earlier = first_refusal(exchanges.drop_last());
        if earlier < exchanges.len() - 1 || !granted(exchanges.last()) {
            earlier
        } else {
            exchanges.len() as int
        }
    }
}

/// Whether every call only takes a stage object off the program or deletes
/// one.
pub open spec fn only_releases(exchanges: Seq<Exchange>) -> bool {
    forall|i: int|
        0 <= i < exchanges.len() ==> {
            ||| (#[trigger] exchanges[i]).request is DetachStage
            ||| exchanges[i].request is DeleteStage
        }
}

/// One more exchange adds what `pick` finds in it.
pub proof fn lemma_picked_push<T>(
    exchanges: Seq<Exchange>,
    exchange: Exchange,
    pick: spec_fn(Exchange) -> Option<T>,
)
    ensures
        picked(exchanges.push(exchange), pick) == match pick(exchange) {
            Some(found) => picked(exchanges, pick).push(found),
            None => picked(exchanges, pick),
        },
{
    assert(exchanges.push(exchange).drop_last() =~= exchanges);
}

/// The first refusal is a call that was not granted, and every call before
/// it was granted.
pub proof fn lemma_first_refusal(exchanges: Seq<Exchange>)
    ensures
        0 <= first_refusal(exchanges) <= exchanges.len(),
        first_refusal(exchanges) < exchanges.len() ==> !granted(
            exchanges[first_refusal(exchanges)],
        ),
        forall|i: int| 0 <= i < first_refusal(exchanges) ==> granted(#[trigger] exchanges[i]),
        first_refusal(exchanges) == exchanges.len() <==> all_granted(exchanges),
    decreases exchanges.len(),
{
    if exchanges.len() > 0 {
        let shorter = exchanges.drop_last();
        lemma_first_refusal(shorter);
        assert forall|i: int| 0 <= i < first_refusal(exchanges) implies granted(
            #[trigger] exchanges[i],
        ) by {
            if i < shorter.len() {
                assert(exchanges[i] == shorter[i]);
            }
        }
        if first_refusal(exchanges) < exchanges.len() {
            let at = first_refusal(exchanges);
            if at < shorter.len() {
                assert(exchanges[at] == shorter[at]);
            }
        }
    }
}

/// One more exchange moves the first refusal only if all were granted so far
/// and this one is too.
pub proof fn lemma_first_refusal_push(exchanges: Seq<Exchange>, exchange: Exchange)
    ensures
        first_refusal(exchanges.push(exchange)) == if first_refusal(exchanges) < exchanges.len()
            || !granted(exchange) {
            first_refusal(exchanges)
        } else {
            exchanges.len() as int + 1
        },
{
    assert(exchanges.push(exchange).drop_last() =~= exchanges);
    lemma_first_refusal(exchanges);
}

/// Taking answers in two runs is taking them all in one.
pub proof fn lemma_run_add(start: ProgressView, first: Seq<ReplyView>, second: Seq<ReplyView>)
    ensures
        run(start, first + second) == run(run(start, first), second),
        transcript(start, first + second) == transcript(start, first) + transcript(
            run(start, first),
            second,
        ),
    decreases second.len(),
{
    if second.len() == 0 {
        assert(first + second =~= first);
        assert(transcript(start, first) + transcript(run(start, first), second) =~= transcript(
            start,
            first,
        ));
    } else {
        lemma_run_add(start, first, second.drop_last());
        assert((first + second).drop_last() =~= first + second.drop_last());
        assert((first + second).last() == second.last());
        match run(run(start, first), second.drop_last()) {
            ProgressView::Pending(state) => {
                let exchange = Exchange { request: state.request(), reply: second.last() };
                assert(transcript(start, first) + transcript(
                    run(start, first),
                    second.drop_last(),
                ).push(exchange) =~= (transcript(start, first) + transcript(
                    run(start, first),
                    second.drop_last(),
                )).push(exchange));
            },
            ProgressView::Finished(_) => {},
        }
    }
}

/// A compilation that is over stays as it is, whatever answers follow.
pub proof fn lemma_run_finished(start: ProgressView, replies: Seq<ReplyView>)
    requires
        start is Finished,
    ensures
        run(start, replies) == start,
        transcript(start, replies) == Seq::<Exchange>::empty(),
    decreases replies.len(),
{
    if replies.len() > 0 {
        lemma_run_finished(start, replies.drop_last());
    }
}

/// Every state on the way is one that a compilation can be in, and each
/// answer that is read brings the end nearer.
pub proof fn lemma_run_wf(start: ProgressView, replies: Seq<ReplyView>)
    requires
        start.wf(),
    ensures
        run(start, replies).wf(),
        run(start, replies) is Pending ==> run(start, replies).remaining() + replies.len()
            <= start.remaining(),
        transcript(start, replies).len() <= replies.len(),
        transcript(start, replies).len() <= start.remaining(),
        run(start, replies) is Pending ==> transcript(start, replies).len() == replies.len(),
    decreases replies.len(),
{
    if replies.len() > 0 {
        lemma_run_wf(start, replies.drop_last());
        match run(start, replies.drop_last()) {
            ProgressView::Pending(state) => {
                crate::model::lemma_advance(state, replies.last());
            },
            ProgressView::Finished(_) => {},
        }
    }
}

/// From a state that a compilation can be in, no answers lead to `NoStages`.
pub proof fn lemma_never_no_stages(start: ProgressView, replies: Seq<ReplyView>)
    requires
        start.wf(),
        start is Pending,
    ensures
        run(start, replies) != ProgressView::Finished(Err(ShaderErrorView::NoStages)),
    decreases replies.len(),
{
    if replies.len() > 0 {
        lemma_never_no_stages(start, replies.drop_last());
        lemma_run_wf(start, replies.drop_last());
    }
}

} // verus!
