//! A model of the objects that live in the driver.
//!
//! The model follows the exchanges between the library and the driver and
//! keeps count of the objects that were allocated and not yet deleted. It
//! exists in contracts only: it is what "nothing leaks" is stated over.

use crate::graphics::command::{Call, Reply};
use vstd::multiset::Multiset;
use vstd::prelude::*;

verus! {

/// An object in the driver, by kind and handle.
pub enum GpuObject {
    Shader(u32),
    Program(u32),
    VertexArray(u32),
    Buffer(u32),
}

/// One call together with the driver's answer to it.
pub struct Exchange {
    pub call: Call,
    pub reply: Reply,
}

/// The object that a call allocates, given its answer. A handle of zero
/// means that the driver allocated nothing.
pub open spec fn allocated(call: Call, reply: Reply) -> Option<GpuObject> {
    if reply.handle() == 0 {
        None
    } else {
        match call {
            Call::CreateShader { .. } => Some(GpuObject::Shader(reply.handle())),
            Call::CreateProgram => Some(GpuObject::Program(reply.handle())),
            Call::GenVertexArrays => Some(GpuObject::VertexArray(reply.handle())),
            Call::GenBuffers => Some(GpuObject::Buffer(reply.handle())),
            _ => None,
        }
    }
}

/// The object that a call deletes. Deleting the handle zero does nothing.
pub open spec fn released(call: Call) -> Option<GpuObject> {
    match call {
        Call::DeleteShader { shader } if shader != 0 => Some(GpuObject::Shader(shader)),
        Call::DeleteProgram { program } if program != 0 => Some(GpuObject::Program(program)),
        Call::DeleteVertexArrays { array } if array != 0 => Some(GpuObject::VertexArray(array)),
        Call::DeleteBuffers { buffer } if buffer != 0 => Some(GpuObject::Buffer(buffer)),
        _ => None,
    }
}

/// The live objects after one exchange.
pub open spec fn live_after(live: Multiset<GpuObject>, exchange: Exchange) -> Multiset<
    GpuObject,
> {
    match allocated(exchange.call, exchange.reply) {
        Some(object) => live.insert(object),
        None => match released(exchange.call) {
            Some(object) => live.remove(object),
            None => live,
        },
    }
}

/// The live objects after a run of exchanges, oldest first.
pub open spec fn live_after_all(live: Multiset<GpuObject>, log: Seq<Exchange>) -> Multiset<
    GpuObject,
>
    decreases log.len(),
{
    if log.len() == 0 {
        live
    } else {
        live_after(live_after_all(live, log.drop_last()), log.last())
    }
}

/// The exchanges of calls that return nothing.
pub open spec fn unanswered(calls: Seq<Call>) -> Seq<Exchange> {
    calls.map_values(|call: Call| Exchange { call, reply: Reply::Nothing })
}

/// The exchanges of a batch of calls of which the last one is answered by
/// `reply` and the others return nothing.
pub open spec fn answered(calls: Seq<Call>, reply: Reply) -> Seq<Exchange> {
    if calls.len() == 0 {
        Seq::empty()
    } else {
        unanswered(calls.drop_last()).push(Exchange { call: calls.last(), reply })
    }
}

/// Following two runs one after the other is following their concatenation.
pub proof fn lemma_live_after_concat(
    live: Multiset<GpuObject>,
    first: Seq<Exchange>,
    second: Seq<Exchange>,
)
    ensures
        live_after_all(live, first + second) == live_after_all(
            live_after_all(live, first),
            second,
        ),
    decreases second.len(),
{
    if second.len() == 0 {
        assert(first + second =~= first);
    } else {
        assert((first + second).drop_last() =~= first + second.drop_last());
        assert((first + second).last() == second.last());
        lemma_live_after_concat(live, first, second.drop_last());
    }
}

/// A call that neither allocates nor deletes an object.
pub open spec fn quiet(call: Call) -> bool {
    &&& !(call is CreateShader)
    &&& !(call is CreateProgram)
    &&& !(call is GenVertexArrays)
    &&& !(call is GenBuffers)
    &&& released(call) is None
}

pub open spec fn all_quiet(calls: Seq<Call>) -> bool {
    forall|i: int| 0 <= i < calls.len() ==> quiet(#[trigger] calls[i])
}

/// Following a run and one more exchange is following the run and then the
/// exchange.
pub proof fn lemma_live_push(live: Multiset<GpuObject>, log: Seq<Exchange>, exchange: Exchange)
    ensures
        live_after_all(live, log.push(exchange)) == live_after(
            live_after_all(live, log),
            exchange,
        ),
{
    assert(log.push(exchange).drop_last() =~= log);
}

pub proof fn lemma_unanswered_push(calls: Seq<Call>, call: Call)
    ensures
        unanswered(calls.push(call)) == unanswered(calls).push(
            Exchange { call, reply: Reply::Nothing },
        ),
{
    assert(unanswered(calls.push(call)) =~= unanswered(calls).push(
        Exchange { call, reply: Reply::Nothing },
    ));
}

/// Quiet calls leave the live objects as they are.
pub proof fn lemma_quiet_unanswered(live: Multiset<GpuObject>, calls: Seq<Call>)
    requires
        all_quiet(calls),
    ensures
        live_after_all(live, unanswered(calls)) == live,
    decreases calls.len(),
{
    if calls.len() > 0 {
        let front = calls.drop_last();
        assert(calls =~= front.push(calls.last()));
        lemma_unanswered_push(front, calls.last());
        lemma_live_push(live, unanswered(front), Exchange {
            call: calls.last(),
            reply: Reply::Nothing,
        });
        assert(all_quiet(front)) by {
            assert forall|i: int| 0 <= i < front.len() implies quiet(#[trigger] front[i]) by {
                assert(front[i] == calls[i]);
            }
        }
        lemma_quiet_unanswered(live, front);
        assert(quiet(calls[calls.len() - 1]));
    } else {
        assert(unanswered(calls) =~= Seq::<Exchange>::empty());
    }
}

/// Quiet calls leave the live objects as they are, whatever the answer.
pub proof fn lemma_quiet_answered(live: Multiset<GpuObject>, calls: Seq<Call>, reply: Reply)
    requires
        all_quiet(calls),
    ensures
        live_after_all(live, answered(calls, reply)) == live,
{
    if calls.len() > 0 {
        let front = calls.drop_last();
        lemma_live_push(live, unanswered(front), Exchange { call: calls.last(), reply });
        assert(all_quiet(front)) by {
            assert forall|i: int| 0 <= i < front.len() implies quiet(#[trigger] front[i]) by {
                assert(front[i] == calls[i]);
            }
        }
        lemma_quiet_unanswered(live, front);
        assert(quiet(calls[calls.len() - 1]));
    }
}

/// A batch of one call is one exchange.
pub proof fn lemma_one_answered(live: Multiset<GpuObject>, call: Call, reply: Reply)
    ensures
        answered(seq![call], reply) == seq![Exchange { call, reply }],
        live_after_all(live, answered(seq![call], reply)) == live_after(
            live,
            Exchange { call, reply },
        ),
{
    let exchange = Exchange { call, reply };
    assert(seq![call].drop_last() =~= Seq::<Call>::empty());
    assert(unanswered(Seq::<Call>::empty()) =~= Seq::<Exchange>::empty());
    assert(answered(seq![call], reply) =~= seq![exchange]);
    assert(seq![exchange] =~= Seq::<Exchange>::empty().push(exchange));
    lemma_live_push(live, Seq::<Exchange>::empty(), exchange);
}

} // verus!
