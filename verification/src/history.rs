//! How the state of a compilation hangs together with the exchanges that led
//! to it. The laws are read off from this.

use vstd::prelude::*;
use crate::error::ShaderErrorView;
use crate::handle::ShaderProgramHandle;
use crate::laws::{built_in_order, released_in_order, verdict};
use crate::model::{begin, lemma_advance, CompilerState, OutcomeView, Phase, ProgressView};
use crate::protocol::{ReplyView, RequestView};
use crate::stage::StageSourceView;
use crate::trace::{
    asked_by, attached_by, compiled_by, deleted_by, detached_by, first_refusal,
    kinds_asked, lemma_first_refusal, lemma_first_refusal_push, lemma_picked_push, made_by, run,
    sourced_by, sources_set, stages_attached, stages_compiled, stages_deleted, stages_detached,
    stages_made, transcript, Exchange,
};

verus! {

/// How many of the stage objects have been taken off the program.
pub open spec fn detached(state: CompilerState) -> nat {
    if state.phase == Phase::Deleting && state.released < state.attached {
        state.released + 1
    } else {
        state.released
    }
}

/// How many stage objects have been asked for.
pub open spec fn asked(state: CompilerState) -> nat {
    if state.failure == Some(ShaderErrorView::StageCreationFailed) {
        state.made.len() + 1
    } else {
        state.made.len()
    }
}

/// How many of the stage objects have been given their source.
pub open spec fn sourced(state: CompilerState) -> nat {
    if state.phase == Phase::SettingSource {
        (state.made.len() - 1) as nat
    } else {
        state.made.len()
    }
}

/// How many of the stage objects have been compiled.
pub open spec fn compiled(state: CompilerState) -> nat {
    if state.phase == Phase::SettingSource || state.phase == Phase::Compiling {
        (state.made.len() - 1) as nat
    } else {
        state.made.len()
    }
}

/// Whether the compilation can no longer end in a program.
pub open spec fn doomed(state: CompilerState) -> bool {
    ||| state.failure is Some
    ||| state.phase == Phase::ReadingCompileLog
    ||| state.phase == Phase::ReadingLinkLog
}

/// What the exchanges say of the objects that the state holds.
pub open spec fn recorded(
    stages: Seq<StageSourceView>,
    exchanges: Seq<Exchange>,
    state: CompilerState,
) -> bool {
    &&& state.wf()
    &&& state.stages == stages
    &&& exchanges.len() == 0 <==> state.phase == Phase::CreatingProgram
    &&& exchanges.len() > 0 ==> {
        &&& exchanges[0].request == RequestView::CreateProgram
        &&& exchanges[0].reply.program() == state.program
    }
    &&& stages_made(exchanges) == state.made
    &&& stages_attached(exchanges) == state.made.take(state.attached as int)
    &&& stages_detached(exchanges) == state.made.take(detached(state) as int)
    &&& stages_deleted(exchanges) == state.made.take(state.released as int)
}

/// What the exchanges say of the stages that were begun.
pub open spec fn sequenced(
    stages: Seq<StageSourceView>,
    exchanges: Seq<Exchange>,
    state: CompilerState,
) -> bool {
    &&& state.failure == Some(ShaderErrorView::StageCreationFailed) ==> {
        &&& state.made.len() < stages.len()
        &&& state.made.len() == state.attached
    }
    &&& kinds_asked(exchanges) == Seq::new(asked(state), |k: int| stages[k].kind)
    &&& sources_set(exchanges) == Seq::new(
        sourced(state),
        |k: int| (state.made[k], stages[k].source),
    )
    &&& stages_compiled(exchanges) == state.made.take(compiled(state) as int)
}

/// What the exchanges say of the way the compilation will end.
pub open spec fn explained(
    stages: Seq<StageSourceView>,
    exchanges: Seq<Exchange>,
    state: CompilerState,
) -> bool {
    let at = first_refusal(exchanges);
    &&& doomed(state) <==> at < exchanges.len()
    &&& state.phase == Phase::ReadingCompileLog ==> {
        &&& at == exchanges.len() - 1
        &&& exchanges[at].request is QueryCompileStatus
    }
    &&& state.phase == Phase::ReadingLinkLog ==> {
        &&& at == exchanges.len() - 1
        &&& exchanges[at].request is QueryLinkStatus
    }
    &&& state.failure matches Some(error) ==> {
        &&& verdict(stages, exchanges) == Err::<ShaderProgramHandle, ShaderErrorView>(error)
        &&& at + 1 < exchanges.len() || exchanges[at].request is CreateStage
        &&& state.phase == Phase::Detaching || state.phase == Phase::Deleting
    }
}

/// How a state that waits for an answer hangs together with the exchanges
/// that led to it.
pub open spec fn consistent(
    stages: Seq<StageSourceView>,
    exchanges: Seq<Exchange>,
    state: CompilerState,
) -> bool {
    &&& recorded(stages, exchanges, state)
    &&& sequenced(stages, exchanges, state)
    &&& explained(stages, exchanges, state)
}

/// What holds of the exchanges of a compilation that is over.
pub open spec fn settled(
    stages: Seq<StageSourceView>,
    exchanges: Seq<Exchange>,
    outcome: OutcomeView,
) -> bool {
    &&& exchanges.len() > 0
    &&& exchanges[0].request == RequestView::CreateProgram
    &&& released_in_order(stages, exchanges)
    &&& built_in_order(stages, exchanges)
    &&& stages_deleted(exchanges) == stages_made(exchanges)
    &&& stages_detached(exchanges) == stages_attached(exchanges)
    &&& sources_set(exchanges).len() == stages_made(exchanges).len()
    &&& stages_compiled(exchanges) == stages_made(exchanges)
    &&& outcome == verdict(stages, exchanges)
    &&& outcome matches Ok(program) ==> {
        &&& exchanges[0].reply.program() == Some(program)
        &&& stages_attached(exchanges).len() == stages.len()
    }
}

/// One step keeps the books on the objects.
proof fn lemma_recorded_step(
    stages: Seq<StageSourceView>,
    exchanges: Seq<Exchange>,
    state: CompilerState,
    reply: ReplyView,
)
    requires
        recorded(stages, exchanges, state),
    ensures
        ({
            let longer = exchanges.push(Exchange { request: state.request(), reply });
            match state.advance(reply) {
                ProgressView::Pending(next) => recorded(stages, longer, next),
                ProgressView::Finished(outcome) => {
                    &&& longer[0].request == RequestView::CreateProgram
                    &&& released_in_order(stages, longer)
                    &&& stages_deleted(longer) == stages_made(longer)
                    &&& stages_detached(longer) == stages_attached(longer)
                    &&& stages_made(longer) == state.made
                    &&& stages_attached(longer) == state.made.take(state.attached as int)
                    &&& outcome matches Ok(program) ==> {
                        &&& longer[0].reply.program() == Some(program)
                        &&& stages_attached(longer).len() == stages.len()
                    }
                },
            }
        }),
{
    let exchange = Exchange { request: state.request(), reply };
    let longer = exchanges.push(exchange);
    lemma_advance(state, reply);
    lemma_picked_push(exchanges, exchange, |exchange: Exchange| made_by(exchange));
    lemma_picked_push(exchanges, exchange, |exchange: Exchange| attached_by(exchange));
    lemma_picked_push(exchanges, exchange, |exchange: Exchange| detached_by(exchange));
    lemma_picked_push(exchanges, exchange, |exchange: Exchange| deleted_by(exchange));
    assert(longer[0] == if exchanges.len() == 0 {
        exchange
    } else {
        exchanges[0]
    });
    let made = state.made;
    match state.advance(reply) {
        ProgressView::Pending(next) => {
            assert(next.made.take(next.attached as int) =~= stages_attached(longer));
            assert(next.made.take(detached(next) as int) =~= stages_detached(longer));
            assert(next.made.take(next.released as int) =~= stages_deleted(longer));
        },
        ProgressView::Finished(outcome) => {
            assert(made.take(made.len() as int) =~= made);
            assert(stages_deleted(longer) =~= stages_made(longer));
            assert(stages_detached(longer) =~= stages_attached(longer));
            assert(stages_attached(longer) =~= stages_made(longer).take(
                stages_attached(longer).len() as int,
            ));
        },
    }
}

/// One step keeps the books on the stages.
proof fn lemma_sequenced_step(
    stages: Seq<StageSourceView>,
    exchanges: Seq<Exchange>,
    state: CompilerState,
    reply: ReplyView,
)
    requires
        recorded(stages, exchanges, state),
        sequenced(stages, exchanges, state),
    ensures
        ({
            let longer = exchanges.push(Exchange { request: state.request(), reply });
            match state.advance(reply) {
                ProgressView::Pending(next) => sequenced(stages, longer, next),
                ProgressView::Finished(outcome) => {
                    &&& built_in_order(stages, longer)
                    &&& sources_set(longer).len() == stages_made(longer).len()
                    &&& stages_compiled(longer) == stages_made(longer)
                },
            }
        }),
{
    let exchange = Exchange { request: state.request(), reply };
    let longer = exchanges.push(exchange);
    lemma_advance(state, reply);
    lemma_recorded_step(stages, exchanges, state, reply);
    lemma_picked_push(exchanges, exchange, |exchange: Exchange| asked_by(exchange));
    lemma_picked_push(exchanges, exchange, |exchange: Exchange| sourced_by(exchange));
    lemma_picked_push(exchanges, exchange, |exchange: Exchange| compiled_by(exchange));
    let made = state.made;
    match state.advance(reply) {
        ProgressView::Pending(next) => {
            assert(kinds_asked(longer) =~= Seq::new(asked(next), |k: int| stages[k].kind));
            assert(sources_set(longer) =~= Seq::new(
                sourced(next),
                |k: int| (next.made[k], stages[k].source),
            ));
            assert(stages_compiled(longer) =~= next.made.take(compiled(next) as int));
        },
        ProgressView::Finished(outcome) => {
            assert(made.take(made.len() as int) =~= made);
            assert(stages_compiled(longer) =~= stages_made(longer));
        },
    }
}

/// One step keeps the books on the cause of the end.
proof fn lemma_explained_step(
    stages: Seq<StageSourceView>,
    exchanges: Seq<Exchange>,
    state: CompilerState,
    reply: ReplyView,
)
    requires
        recorded(stages, exchanges, state),
        explained(stages, exchanges, state),
    ensures
        ({
            let longer = exchanges.push(Exchange { request: state.request(), reply });
            match state.advance(reply) {
                ProgressView::Pending(next) => explained(stages, longer, next),
                ProgressView::Finished(outcome) => outcome == verdict(stages, longer),
            }
        }),
{
    let exchange = Exchange { request: state.request(), reply };
    let longer = exchanges.push(exchange);
    let at = first_refusal(exchanges);
    lemma_advance(state, reply);
    lemma_recorded_step(stages, exchanges, state, reply);
    lemma_first_refusal(exchanges);
    lemma_first_refusal_push(exchanges, exchange);
    lemma_picked_push(exchanges, exchange, |exchange: Exchange| attached_by(exchange));
    assert(longer[0] == if exchanges.len() == 0 {
        exchange
    } else {
        exchanges[0]
    });
    assert(longer[exchanges.len() as int] == exchange);
    if at < exchanges.len() {
        assert(longer[at] == exchanges[at]);
        if at + 1 < exchanges.len() {
            assert(longer[at + 1] == exchanges[at + 1]);
        }
    }
}

/// However far a compilation has come, its state is consistent with its
/// exchanges; and when it is over, they are settled.
pub proof fn lemma_history(stages: Seq<StageSourceView>, replies: Seq<ReplyView>)
    requires
        stages.len() > 0,
    ensures
        match run(begin(stages), replies) {
            ProgressView::Pending(state) => consistent(
                stages,
                transcript(begin(stages), replies),
                state,
            ),
            ProgressView::Finished(outcome) => settled(
                stages,
                transcript(begin(stages), replies),
                outcome,
            ),
        },
    decreases replies.len(),
{
    if replies.len() == 0 {
        let state = begin(stages)->Pending_0;
        let none = Seq::<Exchange>::empty();
        assert(state.made.take(0) =~= Seq::empty());
        assert(kinds_asked(none) =~= Seq::new(asked(state), |k: int| stages[k].kind));
        assert(sources_set(none) =~= Seq::new(
            sourced(state),
            |k: int| (state.made[k], stages[k].source),
        ));
    } else {
        lemma_history(stages, replies.drop_last());
        match run(begin(stages), replies.drop_last()) {
            ProgressView::Pending(state) => {
                let earlier = transcript(begin(stages), replies.drop_last());
                lemma_recorded_step(stages, earlier, state, replies.last());
                lemma_sequenced_step(stages, earlier, state, replies.last());
                lemma_explained_step(stages, earlier, state, replies.last());
            },
            ProgressView::Finished(_) => {},
        }
    }
}

} // verus!
