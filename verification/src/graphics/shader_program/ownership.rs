//! What a shader program owns in the driver, and that it keeps and gives up
//! exactly that.

use crate::graphics::command::{Call, Reply};
use crate::graphics::ledger::{
    lemma_live_after_concat, lemma_live_push, lemma_quiet_unanswered, lemma_unanswered_push,
    live_after, live_after_all, quiet, unanswered, Exchange, GpuObject,
};
use crate::graphics::shader::run::with_object;
use crate::graphics::shader::ShaderState;
use crate::graphics::shader_program::{
    buffer_deletions, lists_attributes, AttributeBuffer, ProgramState, Upload,
};
use crate::graphics::utility::GL_DrawMode;
use vstd::multiset::Multiset;
use vstd::prelude::*;

verus! {

/// Some attribute among `buffers` has the buffer object `handle`.
pub open spec fn has_buffer(buffers: Map<Seq<char>, AttributeBuffer>, handle: u32) -> bool {
    exists|name: Seq<char>|
        buffers.contains_key(name) && (#[trigger] buffers[name]).buffer == handle
}

/// How many times the program owns `object`: once each its vertex array
/// object and its shader's program, until it is disposed, and once the
/// buffer object of each attribute. The handle zero is nobody's.
pub open spec fn share(program: ProgramState, object: GpuObject) -> nat {
    match object {
        GpuObject::Shader(_) => 0,
        GpuObject::Program(handle) => if handle != 0 && handle == program.shader.program
            && !program.shader.disposed {
            1
        } else {
            0
        },
        GpuObject::VertexArray(handle) => if handle != 0 && handle == program.vao
            && !program.shader.disposed {
            1
        } else {
            0
        },
        GpuObject::Buffer(handle) => if handle != 0 && has_buffer(program.buffers, handle) {
            1
        } else {
            0
        },
    }
}

/// No two attributes share a buffer object.
pub open spec fn buffers_are_apart(buffers: Map<Seq<char>, AttributeBuffer>) -> bool {
    forall|a: Seq<char>, b: Seq<char>|
        buffers.contains_key(a) && buffers.contains_key(b) && a != b && (
        #[trigger] buffers[a]).buffer != 0 ==> buffers[a].buffer != (#[trigger] buffers[b]).buffer
}

/// The live objects are those of `base` and, on top of them, what the
/// program owns. In particular every attribute's buffer object is live.
pub open spec fn owns(
    live: Multiset<GpuObject>,
    base: Multiset<GpuObject>,
    program: ProgramState,
) -> bool {
    &&& forall|object: GpuObject|
        #[trigger] live.count(object) == base.count(object) + share(program, object)
    &&& buffers_are_apart(program.buffers)
}

/// The exchanges that set an array: a buffer object is asked for, and the
/// calls of `store_calls` follow.
pub open spec fn store_log(program: ProgramState, upload: Upload, reply: Reply) -> Seq<Exchange> {
    seq![Exchange { call: Call::GenBuffers, reply }] + unanswered(
        program.store_calls(upload, reply.handle()),
    )
}

/// A program that was just built owns its shader's program and its vertex
/// array object.
pub proof fn lemma_fresh_program_owns_its_objects(
    base: Multiset<GpuObject>,
    program: u32,
    drawmode: GL_DrawMode,
    reply: Reply,
)
    ensures
        owns(
            live_after(
                with_object(base, GpuObject::Program(program), program),
                Exchange { call: Call::GenVertexArrays, reply },
            ),
            base,
            ProgramState::fresh(ShaderState::linked(program), reply.handle(), drawmode),
        ),
{
    let fresh = ProgramState::fresh(ShaderState::linked(program), reply.handle(), drawmode);
    assert forall|handle: u32| !has_buffer(fresh.buffers, handle) by {}
}

/// Setting an array keeps the program the owner of what is live on top of
/// `base`: the new buffer object is added, and the one that the name had
/// before is gone. The driver is taken to name a buffer object that is not
/// live yet.
pub proof fn lemma_store_keeps_ownership(
    live: Multiset<GpuObject>,
    base: Multiset<GpuObject>,
    program: ProgramState,
    upload: Upload,
    reply: Reply,
)
    requires
        owns(live, base, program),
        live.count(GpuObject::Buffer(reply.handle())) == 0,
    ensures
        owns(
            live_after_all(live, store_log(program, upload, reply)),
            base,
            program.stored(upload, reply.handle()),
        ),
{
    let handle = reply.handle();
    let after = program.stored(upload, handle);
    let asked = Exchange { call: Call::GenBuffers, reply };
    let calls = program.store_calls(upload, handle);
    let nothing = Seq::<Exchange>::empty();
    let live1 = live_after(live, asked);
    lemma_live_after_concat(live, seq![asked], unanswered(calls));
    assert(seq![asked] =~= nothing.push(asked));
    lemma_live_push(live, nothing, asked);
    let configure = seq![
        Call::BindVertexArray { array: program.vao },
        Call::BindBuffer { target: crate::graphics::utility::GL_ARRAY_BUFFER, buffer: handle },
        Call::BufferData {
            target: crate::graphics::utility::GL_ARRAY_BUFFER,
            length: upload.byte_length,
            usage: crate::graphics::utility::GL_STATIC_DRAW,
        },
        Call::VertexAttribPointer {
            index: upload.position,
            size: upload.datasize,
            kind: upload.element_type,
            normalized: false,
            stride: 0,
            offset: 0,
        },
        Call::EnableVertexAttribArray { index: upload.position },
    ];
    assert forall|i: int| 0 <= i < configure.len() implies quiet(#[trigger] configure[i]) by {}
    let live2 = live_after_all(live1, unanswered(calls));
    let replaced = program.buffers.contains_key(upload.name);
    let previous = program.buffers[upload.name].buffer;
    if replaced {
        let gone = Exchange { call: Call::DeleteBuffers { buffer: previous }, reply: Reply::Nothing };
        assert(unanswered(calls) =~= seq![gone] + unanswered(configure));
        lemma_live_after_concat(live1, seq![gone], unanswered(configure));
        assert(seq![gone] =~= nothing.push(gone));
        lemma_live_push(live1, nothing, gone);
        lemma_quiet_unanswered(live_after(live1, gone), configure);
        assert(live2 == live_after(live1, gone));
        assert(has_buffer(program.buffers, previous));
    } else {
        lemma_quiet_unanswered(live1, configure);
        assert(live2 == live1);
    }
    assert forall|object: GpuObject| #[trigger]
        live2.count(object) == base.count(object) + share(after, object) by {
        assert(live.count(object) == base.count(object) + share(program, object));
        match object {
            GpuObject::Buffer(x) => {
                if x != 0 {
                    if has_buffer(program.buffers, x) {
                        let name = choose|name: Seq<char>|
                            program.buffers.contains_key(name) && (
                            #[trigger] program.buffers[name]).buffer == x;
                        assert(x != handle);
                        if name != upload.name {
                            assert(after.buffers.contains_key(name) && after.buffers[name].buffer
                                == x);
                            if replaced && previous != 0 {
                                assert(program.buffers[upload.name].buffer != program.buffers[name].buffer);
                            }
                        } else {
                            assert(x == previous);
                            if has_buffer(after.buffers, x) {
                                let other = choose|other: Seq<char>|
                                    after.buffers.contains_key(other) && (
                                    #[trigger] after.buffers[other]).buffer == x;
                                assert(other != upload.name);
                                assert(program.buffers[other].buffer == x);
                                assert(program.buffers[upload.name].buffer
                                    != program.buffers[other].buffer);
                            }
                        }
                    } else {
                        if x == handle {
                            assert(after.buffers.contains_key(upload.name)
                                && after.buffers[upload.name].buffer == x);
                        } else if has_buffer(after.buffers, x) {
                            let other = choose|other: Seq<char>|
                                after.buffers.contains_key(other) && (
                                #[trigger] after.buffers[other]).buffer == x;
                            assert(other != upload.name);
                            assert(program.buffers.contains_key(other)
                                && program.buffers[other].buffer == x);
                        }
                    }
                }
            },
            _ => {},
        }
    }
    assert(buffers_are_apart(after.buffers)) by {
        assert forall|a: Seq<char>, b: Seq<char>|
            after.buffers.contains_key(a) && after.buffers.contains_key(b) && a != b && (
            #[trigger] after.buffers[a]).buffer != 0 implies after.buffers[a].buffer != (
        #[trigger] after.buffers[b]).buffer by {
            if a == upload.name {
                assert(program.buffers.contains_key(b));
                if program.buffers[b].buffer == handle {
                    assert(has_buffer(program.buffers, handle));
                    assert(live.count(GpuObject::Buffer(handle)) == base.count(
                        GpuObject::Buffer(handle),
                    ) + share(program, GpuObject::Buffer(handle)));
                }
            } else if b == upload.name {
                assert(program.buffers.contains_key(a));
                if program.buffers[a].buffer == handle {
                    assert(has_buffer(program.buffers, handle));
                    assert(live.count(GpuObject::Buffer(handle)) == base.count(
                        GpuObject::Buffer(handle),
                    ) + share(program, GpuObject::Buffer(handle)));
                }
            } else {
                assert(program.buffers[a].buffer != program.buffers[b].buffer);
            }
        }
    }
}

/// One of the first `k` names has the buffer object `handle`.
spec fn deleted_so_far(
    buffers: Map<Seq<char>, AttributeBuffer>,
    names: Seq<Seq<char>>,
    k: int,
    handle: u32,
) -> bool {
    exists|j: int| 0 <= j < k && (#[trigger] buffers[names[j]]).buffer == handle
}

/// What deleting the buffers of the first `k` names takes from the live
/// objects: each of those buffers once.
proof fn lemma_buffers_released(
    live: Multiset<GpuObject>,
    base: Multiset<GpuObject>,
    program: ProgramState,
    names: Seq<Seq<char>>,
    k: int,
)
    requires
        owns(live, base, program),
        lists_attributes(program.buffers, names),
        0 <= k <= names.len(),
    ensures
        forall|object: GpuObject| #[trigger]
            live_after_all(
                live,
                unanswered(buffer_deletions(program.buffers, names.take(k))),
            ).count(object) == live.count(object) - match object {
                GpuObject::Buffer(handle) => if handle != 0 && deleted_so_far(
                    program.buffers,
                    names,
                    k,
                    handle,
                ) {
                    1int
                } else {
                    0int
                },
                _ => 0int,
            },
    decreases k,
{
    let buffers = program.buffers;
    if k == 0 {
        assert(unanswered(buffer_deletions(buffers, names.take(0))) =~= Seq::<Exchange>::empty());
    } else {
        lemma_buffers_released(live, base, program, names, k - 1);
        let before = buffer_deletions(buffers, names.take(k - 1));
        let handle = buffers[names[k - 1]].buffer;
        let call = Call::DeleteBuffers { buffer: handle };
        assert(names.take(k)[k - 1] == names[k - 1]);
        assert(buffer_deletions(buffers, names.take(k)) =~= before.push(call)) by {
            assert forall|i: int| 0 <= i < k - 1 implies names.take(k)[i] == names.take(k - 1)[i] by {}
        }
        lemma_unanswered_push(before, call);
        lemma_live_push(live, unanswered(before), Exchange { call, reply: Reply::Nothing });
        let sooner = live_after_all(live, unanswered(before));
        let later = live_after_all(live, unanswered(buffer_deletions(buffers, names.take(k))));
        assert(names.contains(names[k - 1]));
        assert(buffers.contains_key(names[k - 1]));
        assert forall|object: GpuObject| #[trigger]
            later.count(object) == live.count(object) - match object {
                GpuObject::Buffer(x) => if x != 0 && deleted_so_far(buffers, names, k, x) {
                    1int
                } else {
                    0int
                },
                _ => 0int,
            } by {
            assert(live.count(object) == base.count(object) + share(program, object));
            match object {
                GpuObject::Buffer(x) => {
                    if x != 0 {
                        if deleted_so_far(buffers, names, k - 1, x) {
                            let j = choose|j: int|
                                0 <= j < k - 1 && (#[trigger] buffers[names[j]]).buffer == x;
                            assert(deleted_so_far(buffers, names, k, x));
                            assert(names.contains(names[j]));
                            assert(names[j] != names[k - 1]);
                            assert(buffers[names[j]].buffer != buffers[names[k - 1]].buffer);
                        } else if x == handle {
                            assert(deleted_so_far(buffers, names, k, x));
                            assert(has_buffer(buffers, x));
                        } else if deleted_so_far(buffers, names, k, x) {
                            let j = choose|j: int|
                                0 <= j < k && (#[trigger] buffers[names[j]]).buffer == x;
                            assert(j < k - 1);
                        }
                    }
                },
                _ => {},
            }
        }
    }
}

/// Disposing a program gives up everything it owns: after the calls of
/// `dispose_calls` the live objects are those of `base` again, and the
/// program owns nothing.
pub proof fn lemma_dispose_releases_what_is_owned(
    live: Multiset<GpuObject>,
    base: Multiset<GpuObject>,
    program: ProgramState,
    names: Seq<Seq<char>>,
)
    requires
        owns(live, base, program),
        !program.shader.disposed,
        lists_attributes(program.buffers, names),
    ensures
        live_after_all(live, unanswered(program.dispose_calls(names))) == base,
        owns(base, base, program.disposed()),
{
    let buffers = program.buffers;
    let deletions = buffer_deletions(buffers, names);
    let array = Exchange {
        call: Call::DeleteVertexArrays { array: program.vao },
        reply: Reply::Nothing,
    };
    let linked = Exchange {
        call: Call::DeleteProgram { program: program.shader.program },
        reply: Reply::Nothing,
    };
    assert(names.take(names.len() as int) =~= names);
    lemma_buffers_released(live, base, program, names, names.len() as int);
    let freed = live_after_all(live, unanswered(deletions));
    assert(unanswered(program.dispose_calls(names)) =~= unanswered(deletions).push(array).push(
        linked,
    ));
    lemma_live_push(live, unanswered(deletions), array);
    lemma_live_push(live, unanswered(deletions).push(array), linked);
    let last = live_after(live_after(freed, array), linked);
    assert forall|object: GpuObject| #[trigger] last.count(object) == base.count(object) by {
        assert(live.count(object) == base.count(object) + share(program, object));
        match object {
            GpuObject::Buffer(x) => {
                if x != 0 {
                    if has_buffer(buffers, x) {
                        let name = choose|name: Seq<char>|
                            buffers.contains_key(name) && (#[trigger] buffers[name]).buffer == x;
                        assert(names.contains(name));
                        let j = choose|j: int| 0 <= j < names.len() && names[j] == name;
                        assert(buffers[names[j]].buffer == x);
                        assert(deleted_so_far(buffers, names, names.len() as int, x));
                    } else if deleted_so_far(buffers, names, names.len() as int, x) {
                        let j = choose|j: int|
                            0 <= j < names.len() && (#[trigger] buffers[names[j]]).buffer == x;
                        assert(names.contains(names[j]));
                        assert(buffers.contains_key(names[j]));
                    }
                }
            },
            _ => {},
        }
    }
    assert(last =~= base);
    let disposed = program.disposed();
    assert forall|handle: u32| !has_buffer(disposed.buffers, handle) by {}
}

} // verus!
