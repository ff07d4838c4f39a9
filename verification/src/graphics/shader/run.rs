//! Whole builds, and what holds of every one of them.

use crate::graphics::command::{Call, Reply};
use crate::graphics::ledger::{
    all_quiet, answered, lemma_live_after_concat, lemma_live_push, lemma_one_answered,
    lemma_quiet_answered, live_after, live_after_all, unanswered, Exchange, GpuObject,
};
use crate::graphics::shader::builder::{begin, BuildPhase, BuildState, Next};
use crate::graphics::shader::error::Fault;
use crate::graphics::shader::ShaderState;
use crate::graphics::utility::{
    info_log_or_empty, ShaderStage, GL_COMPILE_STATUS, GL_FRAGMENT_SHADER, GL_LINK_STATUS,
    GL_VERTEX_SHADER,
};
use vstd::multiset::Multiset;
use vstd::prelude::*;

verus! {

/// What came of a build: the exchanges with the driver, oldest first, and
/// the result if the build got to its end.
pub struct Run {
    pub log: Seq<Exchange>,
    pub end: Option<Result<ShaderState, Fault>>,
}

/// The run of a build that stands at `state` and has handed out `pending`,
/// when the driver answers with `replies`, one for each batch. Answers
/// beyond the end of the build are not looked at.
pub open spec fn run(state: BuildState, pending: Seq<Call>, replies: Seq<Reply>) -> Run
    decreases replies.len(),
{
    if replies.len() == 0 {
        Run { log: Seq::empty(), end: None }
    } else {
        let step = state.step(replies.first());
        let head = answered(pending, replies.first());
        match step.next {
            Next::Done(result) => Run { log: head + unanswered(step.calls), end: Some(result) },
            Next::Await(next) => {
                let rest = run(next, step.calls, replies.drop_first());
                Run { log: head + rest.log, end: rest.end }
            },
        }
    }
}

/// The run of a build of the two sources from its first call on.
pub open spec fn build(vertex_source: Seq<u8>, fragment_source: Seq<u8>, replies: Seq<Reply>) -> Run {
    let first = begin(vertex_source, fragment_source);
    match first.next {
        Next::Await(state) => run(state, first.calls, replies),
        Next::Done(result) => Run { log: unanswered(first.calls), end: Some(result) },
    }
}

/// The live objects with one more, unless the handle is zero.
pub open spec fn with_object(live: Multiset<GpuObject>, object: GpuObject, handle: u32) -> Multiset<
    GpuObject,
> {
    if handle != 0 {
        live.insert(object)
    } else {
        live
    }
}

/// The driver named every program object it was asked for.
pub open spec fn programs_were_allocated(log: Seq<Exchange>) -> bool {
    forall|i: int|
        0 <= i < log.len() && (#[trigger] log[i]).call == Call::CreateProgram
            ==> log[i].reply.handle() != 0
}

/// The program object of `shader` is one that the driver named in `log`.
pub open spec fn program_is_from(log: Seq<Exchange>, program: u32) -> bool {
    exists|i: int|
        0 <= i < log.len() && (#[trigger] log[i]).call == Call::CreateProgram
            && log[i].reply.handle() == program
}

/// The live objects that a build at `state` has added to `base`.
spec fn held(base: Multiset<GpuObject>, state: BuildState) -> Multiset<GpuObject> {
    let vertex = with_object(base, GpuObject::Shader(state.vertex_shader), state.vertex_shader);
    let both = with_object(vertex, GpuObject::Shader(state.fragment_shader), state.fragment_shader);
    match state.phase {
        BuildPhase::ShaderHandle(ShaderStage::Vertex) => base,
        BuildPhase::CompileStatus(ShaderStage::Vertex) => vertex,
        BuildPhase::CompileLogLength(ShaderStage::Vertex) => vertex,
        BuildPhase::CompileLog(ShaderStage::Vertex) => vertex,
        BuildPhase::ShaderHandle(ShaderStage::Fragment) => vertex,
        BuildPhase::CompileStatus(ShaderStage::Fragment) => both,
        BuildPhase::CompileLogLength(ShaderStage::Fragment) => both,
        BuildPhase::CompileLog(ShaderStage::Fragment) => both,
        BuildPhase::ProgramHandle => both,
        BuildPhase::LinkStatus => with_object(both, GpuObject::Program(state.program), state.program),
        BuildPhase::LinkLogLength => with_object(
            both,
            GpuObject::Program(state.program),
            state.program,
        ),
        BuildPhase::LinkLog => with_object(both, GpuObject::Program(state.program), state.program),
    }
}

/// The calls that a build at `state` can have handed out.
spec fn handed_out(state: BuildState, pending: Seq<Call>) -> bool {
    match state.phase {
        BuildPhase::ShaderHandle(stage) => pending == seq![
            Call::CreateShader { kind: stage.api_value() },
        ],
        BuildPhase::ProgramHandle => pending == seq![Call::CreateProgram],
        _ => all_quiet(pending),
    }
}

/// What ties a build to the exchanges that led to it.
spec fn reached(
    base: Multiset<GpuObject>,
    log: Seq<Exchange>,
    state: BuildState,
    pending: Seq<Call>,
) -> bool {
    &&& live_after_all(base, log) == held(base, state)
    &&& handed_out(state, pending)
    &&& match state.phase {
        BuildPhase::LinkStatus => program_is_from(log, state.program),
        BuildPhase::LinkLogLength => program_is_from(log, state.program),
        BuildPhase::LinkLog => program_is_from(log, state.program),
        _ => true,
    }
}

/// What holds of the exchanges of a build that got to its end.
spec fn ended(base: Multiset<GpuObject>, log: Seq<Exchange>, result: Result<ShaderState, Fault>) -> bool {
    match result {
        Ok(shader) => {
            &&& live_after_all(base, log) == with_object(
                base,
                GpuObject::Program(shader.program),
                shader.program,
            )
            &&& program_is_from(log, shader.program)
            &&& shader == ShaderState::linked(shader.program)
        },
        Err(_) => live_after_all(base, log) == base,
    }
}

proof fn lemma_program_is_from_grows(log: Seq<Exchange>, more: Seq<Exchange>, program: u32)
    requires
        program_is_from(log, program),
    ensures
        program_is_from(log + more, program),
{
    let i = choose|i: int|
        0 <= i < log.len() && (#[trigger] log[i]).call == Call::CreateProgram
            && log[i].reply.handle() == program;
    assert((log + more)[i] == log[i]);
}

proof fn lemma_drop_shaders(live: Multiset<GpuObject>, state: BuildState, failed: ShaderStage)
    ensures
        live_after_all(
            match failed {
                ShaderStage::Vertex => with_object(
                    live,
                    GpuObject::Shader(state.vertex_shader),
                    state.vertex_shader,
                ),
                ShaderStage::Fragment => with_object(
                    with_object(live, GpuObject::Shader(state.vertex_shader), state.vertex_shader),
                    GpuObject::Shader(state.fragment_shader),
                    state.fragment_shader,
                ),
            },
            unanswered(state.drop_shaders(failed)),
        ) == live,
{
    let nothing = Seq::<Exchange>::empty();
    let first = Exchange {
        call: Call::DeleteShader { shader: state.vertex_shader },
        reply: Reply::Nothing,
    };
    let second = Exchange {
        call: Call::DeleteShader { shader: state.fragment_shader },
        reply: Reply::Nothing,
    };
    let vertex = with_object(live, GpuObject::Shader(state.vertex_shader), state.vertex_shader);
    let both = with_object(vertex, GpuObject::Shader(state.fragment_shader), state.fragment_shader);
    match failed {
        ShaderStage::Vertex => {
            assert(unanswered(state.drop_shaders(failed)) =~= nothing.push(first));
            lemma_live_push(vertex, nothing, first);
            assert(live_after(vertex, first) =~= live);
        },
        ShaderStage::Fragment => {
            assert(unanswered(state.drop_shaders(failed)) =~= nothing.push(first).push(second));
            lemma_live_push(both, nothing, first);
            lemma_live_push(both, nothing.push(first), second);
            assert(live_after(live_after(both, first), second) =~= live);
        },
    }
}

proof fn lemma_detach_shaders(live: Multiset<GpuObject>, state: BuildState)
    ensures
        live_after_all(
            with_object(
                with_object(
                    with_object(live, GpuObject::Shader(state.vertex_shader), state.vertex_shader),
                    GpuObject::Shader(state.fragment_shader),
                    state.fragment_shader,
                ),
                GpuObject::Program(state.program),
                state.program,
            ),
            unanswered(state.detach_shaders()),
        ) == with_object(live, GpuObject::Program(state.program), state.program),
        live_after_all(
            with_object(
                with_object(
                    with_object(live, GpuObject::Shader(state.vertex_shader), state.vertex_shader),
                    GpuObject::Shader(state.fragment_shader),
                    state.fragment_shader,
                ),
                GpuObject::Program(state.program),
                state.program,
            ),
            unanswered(state.drop_program()),
        ) == live,
{
    let nothing = Seq::<Exchange>::empty();
    let quiet_one = Exchange {
        call: Call::DetachShader { program: state.program, shader: state.vertex_shader },
        reply: Reply::Nothing,
    };
    let quiet_two = Exchange {
        call: Call::DetachShader { program: state.program, shader: state.fragment_shader },
        reply: Reply::Nothing,
    };
    let first = Exchange {
        call: Call::DeleteShader { shader: state.vertex_shader },
        reply: Reply::Nothing,
    };
    let second = Exchange {
        call: Call::DeleteShader { shader: state.fragment_shader },
        reply: Reply::Nothing,
    };
    let third = Exchange {
        call: Call::DeleteProgram { program: state.program },
        reply: Reply::Nothing,
    };
    let vertex = with_object(live, GpuObject::Shader(state.vertex_shader), state.vertex_shader);
    let both = with_object(vertex, GpuObject::Shader(state.fragment_shader), state.fragment_shader);
    let all = with_object(both, GpuObject::Program(state.program), state.program);
    let detached = nothing.push(quiet_one).push(quiet_two).push(first).push(second);
    assert(unanswered(state.detach_shaders()) =~= detached);
    assert(unanswered(state.drop_program()) =~= detached.push(third));
    lemma_live_push(all, nothing, quiet_one);
    lemma_live_push(all, nothing.push(quiet_one), quiet_two);
    lemma_live_push(all, nothing.push(quiet_one).push(quiet_two), first);
    lemma_live_push(all, nothing.push(quiet_one).push(quiet_two).push(first), second);
    lemma_live_push(all, detached, third);
    let kept = with_object(live, GpuObject::Program(state.program), state.program);
    assert(live_after(live_after(all, first), second) =~= kept);
    assert(live_after(kept, third) =~= live);
}

/// One step keeps a build tied to its exchanges, or ends it as it should.
proof fn lemma_step(
    base: Multiset<GpuObject>,
    log: Seq<Exchange>,
    state: BuildState,
    pending: Seq<Call>,
    reply: Reply,
)
    requires
        reached(base, log, state, pending),
    ensures
        match state.step(reply).next {
            Next::Await(next) => reached(
                base,
                log + answered(pending, reply),
                next,
                state.step(reply).calls,
            ),
            Next::Done(result) => ended(
                base,
                log + answered(pending, reply) + unanswered(state.step(reply).calls),
                result,
            ),
        },
{
    let step = state.step(reply);
    let head = answered(pending, reply);
    let now = live_after_all(base, log + head);
    lemma_live_after_concat(base, log, head);
    match state.phase {
        BuildPhase::ShaderHandle(stage) => {
            lemma_one_answered(held(base, state), pending[0], reply);
            assert(pending =~= seq![pending[0]]);
        },
        BuildPhase::ProgramHandle => {
            lemma_one_answered(held(base, state), pending[0], reply);
            assert(pending =~= seq![pending[0]]);
            let i = log.len() as int;
            assert((log + head)[i] == Exchange { call: Call::CreateProgram, reply });
        },
        _ => {
            lemma_quiet_answered(held(base, state), pending, reply);
        },
    }
    match step.next {
        Next::Await(next) => {
            match next.phase {
                BuildPhase::LinkStatus => {},
                BuildPhase::LinkLogLength => {
                    lemma_program_is_from_grows(log, head, state.program);
                },
                BuildPhase::LinkLog => {
                    lemma_program_is_from_grows(log, head, state.program);
                },
                _ => {},
            }
        },
        Next::Done(result) => {
            let tail = unanswered(step.calls);
            lemma_live_after_concat(base, log + head, tail);
            match state.phase {
                BuildPhase::CompileLogLength(stage) => {
                    lemma_drop_shaders(base, state, stage);
                },
                BuildPhase::CompileLog(stage) => {
                    lemma_drop_shaders(base, state, stage);
                },
                _ => {
                    lemma_detach_shaders(base, state);
                    lemma_program_is_from_grows(log, head, state.program);
                    lemma_program_is_from_grows(log + head, tail, state.program);
                },
            }
        },
    }
}

proof fn lemma_run(
    base: Multiset<GpuObject>,
    log: Seq<Exchange>,
    state: BuildState,
    pending: Seq<Call>,
    replies: Seq<Reply>,
)
    requires
        reached(base, log, state, pending),
    ensures
        match run(state, pending, replies).end {
            Some(result) => ended(base, log + run(state, pending, replies).log, result),
            None => true,
        },
    decreases replies.len(),
{
    if replies.len() > 0 {
        let reply = replies.first();
        let step = state.step(reply);
        let head = answered(pending, reply);
        lemma_step(base, log, state, pending, reply);
        match step.next {
            Next::Done(result) => {
                assert(log + (head + unanswered(step.calls)) =~= log + head + unanswered(
                    step.calls,
                ));
            },
            Next::Await(next) => {
                let rest = run(next, step.calls, replies.drop_first());
                lemma_run(base, log + head, next, step.calls, replies.drop_first());
                assert(log + (head + rest.log) =~= log + head + rest.log);
            },
        }
    }
}

/// The calls of a run, oldest first.
pub open spec fn calls_of(log: Seq<Exchange>) -> Seq<Call> {
    log.map_values(|exchange: Exchange| exchange.call)
}

/// The driver answered every status that a build asks for with success:
/// there are the six answers of such a build, and none of the three
/// statuses among them is zero.
pub open spec fn all_went_well(replies: Seq<Reply>) -> bool {
    &&& replies.len() >= 6
    &&& replies[1].value_or(1) != 0
    &&& replies[3].value_or(1) != 0
    &&& replies[5].value_or(1) != 0
}

/// Every call of a build that succeeds, in order, with the handles
/// `vertex`, `fragment` and `program` that the driver named.
pub open spec fn linking_calls(
    vertex_source: Seq<u8>,
    fragment_source: Seq<u8>,
    vertex: u32,
    fragment: u32,
    program: u32,
) -> Seq<Call> {
    seq![
        Call::CreateShader { kind: GL_VERTEX_SHADER },
        Call::ShaderSource { shader: vertex, source: vertex_source.push(0) },
        Call::CompileShader { shader: vertex },
        Call::GetShaderiv { shader: vertex, pname: GL_COMPILE_STATUS, initial: 1 },
        Call::CreateShader { kind: GL_FRAGMENT_SHADER },
        Call::ShaderSource { shader: fragment, source: fragment_source.push(0) },
        Call::CompileShader { shader: fragment },
        Call::GetShaderiv { shader: fragment, pname: GL_COMPILE_STATUS, initial: 1 },
        Call::CreateProgram,
        Call::AttachShader { program, shader: vertex },
        Call::AttachShader { program, shader: fragment },
        Call::LinkProgram { program },
        Call::GetProgramiv { program, pname: GL_LINK_STATUS, initial: 1 },
        Call::DetachShader { program, shader: vertex },
        Call::DetachShader { program, shader: fragment },
        Call::DeleteShader { shader: vertex },
        Call::DeleteShader { shader: fragment },
    ]
}

/// How a failure ends, told from the answer to the question for the
/// length of the log and from what follows it: with an empty log if the
/// length is zero or less, and else with the log read from the next answer,
/// once that is there.
pub open spec fn failure(replies: Seq<Reply>, fault: spec_fn(Seq<char>) -> Fault) -> Option<
    Result<ShaderState, Fault>,
> {
    if replies.len() < 1 {
        None
    } else if replies[0].value_or(0) <= 0 {
        Some(Err(fault(Seq::empty())))
    } else if replies.len() < 2 {
        None
    } else {
        Some(Err(fault(info_log_or_empty(replies[0].value_or(0), replies[1].bytes()))))
    }
}

/// The end of a build, told from the driver's answers alone. The answers
/// come in this order: the vertex shader's handle and compile status, the
/// fragment shader's handle and compile status, the program's handle and
/// link status. A status of zero is followed by the length of the log and,
/// where that is more than zero, by the log.
pub open spec fn outcome(replies: Seq<Reply>) -> Option<Result<ShaderState, Fault>> {
    if replies.len() < 2 {
        None
    } else if replies[1].value_or(1) == 0 {
        failure(
            replies.skip(2),
            |log: Seq<char>| Fault::ShaderCompileFailed { stage: ShaderStage::Vertex, log },
        )
    } else if replies.len() < 4 {
        None
    } else if replies[3].value_or(1) == 0 {
        failure(
            replies.skip(4),
            |log: Seq<char>| Fault::ShaderCompileFailed { stage: ShaderStage::Fragment, log },
        )
    } else if replies.len() < 6 {
        None
    } else if replies[5].value_or(1) == 0 {
        failure(replies.skip(6), |log: Seq<char>| Fault::ShaderLinkFailed { log })
    } else {
        Some(Ok(ShaderState::linked(replies[4].handle())))
    }
}

proof fn lemma_compile_failure(
    state: BuildState,
    stage: ShaderStage,
    pending: Seq<Call>,
    replies: Seq<Reply>,
)
    requires
        state.phase == BuildPhase::CompileStatus(stage),
        replies.len() >= 1,
        replies[0].value_or(1) == 0,
    ensures
        run(state, pending, replies).end == failure(
            replies.skip(1),
            |log: Seq<char>| Fault::ShaderCompileFailed { stage, log },
        ),
{
    reveal_with_fuel(run, 4);
    let rest1 = replies.drop_first();
    assert(rest1 =~= replies.skip(1));
    if rest1.len() >= 1 {
        let rest2 = rest1.drop_first();
        if rest2.len() >= 1 {
            assert(rest2[0] == rest1[1]);
        }
    }
}

proof fn lemma_link_failure(state: BuildState, pending: Seq<Call>, replies: Seq<Reply>)
    requires
        state.phase == BuildPhase::LinkStatus,
        replies.len() >= 1,
        replies[0].value_or(1) == 0,
    ensures
        run(state, pending, replies).end == failure(
            replies.skip(1),
            |log: Seq<char>| Fault::ShaderLinkFailed { log },
        ),
{
    reveal_with_fuel(run, 4);
    let rest1 = replies.drop_first();
    assert(rest1 =~= replies.skip(1));
    if rest1.len() >= 1 {
        let rest2 = rest1.drop_first();
        if rest2.len() >= 1 {
            assert(rest2[0] == rest1[1]);
        }
    }
}

/// A build ends as the driver's answers say: with the shader where every
/// status is a success, with the error of the first status that is not,
/// and not at all where the answers run out before that.
pub proof fn lemma_build_ends_as_answered(
    vertex_source: Seq<u8>,
    fragment_source: Seq<u8>,
    replies: Seq<Reply>,
)
    ensures
        build(vertex_source, fragment_source, replies).end == outcome(replies),
{
    reveal_with_fuel(run, 8);
    let first = begin(vertex_source, fragment_source);
    let state0 = first.next->Await_0;
    if replies.len() >= 1 {
        let rest1 = replies.drop_first();
        let step0 = state0.step(replies[0]);
        let state1 = step0.next->Await_0;
        if rest1.len() >= 1 {
            assert(rest1[0] == replies[1]);
            let rest2 = rest1.drop_first();
            let step1 = state1.step(rest1[0]);
            if replies[1].value_or(1) != 0 {
                let state2 = step1.next->Await_0;
                if rest2.len() >= 1 {
                    assert(rest2[0] == replies[2]);
                    let rest3 = rest2.drop_first();
                    let step2 = state2.step(rest2[0]);
                    let state3 = step2.next->Await_0;
                    if rest3.len() >= 1 {
                        assert(rest3[0] == replies[3]);
                        let rest4 = rest3.drop_first();
                        let step3 = state3.step(rest3[0]);
                        if replies[3].value_or(1) != 0 {
                            let state4 = step3.next->Await_0;
                            if rest4.len() >= 1 {
                                assert(rest4[0] == replies[4]);
                                let rest5 = rest4.drop_first();
                                let step4 = state4.step(rest4[0]);
                                let state5 = step4.next->Await_0;
                                if rest5.len() >= 1 {
                                    assert(rest5[0] == replies[5]);
                                    if replies[5].value_or(1) == 0 {
                                        lemma_link_failure(state5, step4.calls, rest5);
                                        assert(rest5.skip(1) =~= replies.skip(6));
                                    }
                                }
                            }
                        } else {
                            lemma_compile_failure(state3, ShaderStage::Fragment, step2.calls, rest3);
                            assert(rest3.skip(1) =~= replies.skip(4));
                        }
                    }
                }
            } else {
                lemma_compile_failure(state1, ShaderStage::Vertex, step0.calls, rest1);
                assert(rest1.skip(1) =~= replies.skip(2));
            }
        }
    }
}

/// A build succeeds exactly when the driver answers every status with
/// success. It then makes the seventeen calls of `linking_calls`, and the
/// shader holds the program that the driver named.
pub proof fn lemma_build_links_when_all_goes_well(
    vertex_source: Seq<u8>,
    fragment_source: Seq<u8>,
    replies: Seq<Reply>,
)
    ensures
        build(vertex_source, fragment_source, replies).end matches Some(Ok(_)) <==> all_went_well(
            replies,
        ),
        all_went_well(replies) ==> {
            let done = build(vertex_source, fragment_source, replies);
            &&& done.end == Some(
                Ok::<ShaderState, Fault>(ShaderState::linked(replies[4].handle())),
            )
            &&& calls_of(done.log) == linking_calls(
                vertex_source,
                fragment_source,
                replies[0].handle(),
                replies[2].handle(),
                replies[4].handle(),
            )
        },
{
    lemma_build_ends_as_answered(vertex_source, fragment_source, replies);
    if all_went_well(replies) {
        reveal_with_fuel(run, 8);
        let first = begin(vertex_source, fragment_source);
        let rest1 = replies.drop_first();
        let rest2 = rest1.drop_first();
        let rest3 = rest2.drop_first();
        let rest4 = rest3.drop_first();
        let rest5 = rest4.drop_first();
        assert(rest1[0] == replies[1] && rest2[0] == replies[2] && rest3[0] == replies[3] && rest4[0]
            == replies[4] && rest5[0] == replies[5]);
        let step0 = first.next->Await_0.step(replies[0]);
        let step1 = step0.next->Await_0.step(replies[1]);
        let step2 = step1.next->Await_0.step(replies[2]);
        let step3 = step2.next->Await_0.step(replies[3]);
        let step4 = step3.next->Await_0.step(replies[4]);
        let step5 = step4.next->Await_0.step(replies[5]);
        let log = answered(first.calls, replies[0]) + (answered(step0.calls, replies[1]) + (answered(
            step1.calls,
            replies[2],
        ) + (answered(step2.calls, replies[3]) + (answered(step3.calls, replies[4]) + (answered(
            step4.calls,
            replies[5],
        ) + unanswered(step5.calls))))));
        assert(build(vertex_source, fragment_source, replies).log == log);
        assert(calls_of(log) =~= linking_calls(
            vertex_source,
            fragment_source,
            replies[0].handle(),
            replies[2].handle(),
            replies[4].handle(),
        ));
    }
}

/// A build that succeeds leaves a shader that is not disposed and holds no
/// uniforms, around the program object that the driver named. Where the
/// driver named every program it was asked for, the handle is not zero.
pub proof fn lemma_built_shader_is_linked(
    vertex_source: Seq<u8>,
    fragment_source: Seq<u8>,
    replies: Seq<Reply>,
    shader: ShaderState,
)
    requires
        build(vertex_source, fragment_source, replies).end == Some(
            Ok::<ShaderState, Fault>(shader),
        ),
    ensures
        !shader.disposed,
        shader.uniforms == Map::<Seq<char>, crate::graphics::shader::uniform_map::UniformValue>::empty(),
        program_is_from(build(vertex_source, fragment_source, replies).log, shader.program),
        programs_were_allocated(build(vertex_source, fragment_source, replies).log)
            ==> shader.program != 0,
{
    let first = begin(vertex_source, fragment_source);
    let state = first.next->Await_0;
    let base = Multiset::<GpuObject>::empty();
    let nothing = Seq::<Exchange>::empty();
    lemma_run(base, nothing, state, first.calls, replies);
    let log = build(vertex_source, fragment_source, replies).log;
    assert(nothing + log =~= log);
}

/// A build leaks nothing. One that fails leaves the live objects as they
/// were; one that succeeds leaves them with the program added, and as they
/// were once the shader is disposed.
pub proof fn lemma_build_then_dispose_restores_live_objects(
    live: Multiset<GpuObject>,
    vertex_source: Seq<u8>,
    fragment_source: Seq<u8>,
    replies: Seq<Reply>,
)
    ensures
        match build(vertex_source, fragment_source, replies).end {
            Some(Ok(shader)) => {
                let log = build(vertex_source, fragment_source, replies).log;
                &&& live_after_all(live, log) == with_object(
                    live,
                    GpuObject::Program(shader.program),
                    shader.program,
                )
                &&& shader.dispose_call() is Ok
                &&& live_after_all(
                    live,
                    log.push(Exchange { call: shader.dispose_call()->Ok_0, reply: Reply::Nothing }),
                ) == live
            },
            Some(Err(_)) => live_after_all(
                live,
                build(vertex_source, fragment_source, replies).log,
            ) == live,
            None => true,
        },
{
    let first = begin(vertex_source, fragment_source);
    let state = first.next->Await_0;
    let nothing = Seq::<Exchange>::empty();
    lemma_run(live, nothing, state, first.calls, replies);
    let log = build(vertex_source, fragment_source, replies).log;
    assert(nothing + log =~= log);
    match build(vertex_source, fragment_source, replies).end {
        Some(Ok(shader)) => {
            let last = Exchange { call: shader.dispose_call()->Ok_0, reply: Reply::Nothing };
            lemma_live_push(live, log, last);
            assert(live_after(
                with_object(live, GpuObject::Program(shader.program), shader.program),
                last,
            ) =~= live);
        },
        _ => {},
    }
}

} // verus!
