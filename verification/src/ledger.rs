//! What a session leaves allocated: for every object of the driver, how many
//! more times the calls of a run allocated it than freed it.

use vstd::prelude::*;
use crate::driver::{calls, CallModel, Reply, ReplyModel, LINK_STATUS};
use crate::program::{
    attach_calls, detach_calls, failing, linked_shaders_give_the_created_program, linking,
    unlinked_shaders_give_the_log, LinkingModel,
};
use crate::shader::{
    accepted_source_gives_the_created_shader, accepting, refused_source_gives_the_log, refusing,
    release_calls, CompilationModel, ShaderKind,
};

verus! {

/// An object of the driver, by its handle.
pub enum Object {
    Shader(u32),
    Program(u32),
}

/// Whether `call`, answered by `reply`, allocates `object`.
pub open spec fn allocates(call: CallModel, reply: ReplyModel, object: Object) -> bool {
    match object {
        Object::Shader(handle) => call is CreateShader && reply == ReplyModel::Handle(handle),
        Object::Program(handle) => call is CreateProgram && reply == ReplyModel::Handle(handle),
    }
}

/// Whether `call` frees `object`.
pub open spec fn frees(call: CallModel, object: Object) -> bool {
    match object {
        Object::Shader(handle) => call == (CallModel::DeleteShader { shader: handle }),
        Object::Program(handle) => call == (CallModel::DeleteProgram { program: handle }),
    }
}

/// Whether `call` neither allocates nor frees anything.
pub open spec fn idle(call: CallModel) -> bool {
    !(call is CreateShader || call is CreateProgram || call is DeleteShader
        || call is DeleteProgram)
}

/// What one exchange adds to the number of times `object` is held.
pub open spec fn gain(call: CallModel, reply: ReplyModel, object: Object) -> int {
    (if allocates(call, reply, object) {
        1int
    } else {
        0int
    }) - (if frees(call, object) {
        1int
    } else {
        0int
    })
}

/// How many more times the calls, the i-th answered by the i-th reply,
/// allocated `object` than freed it.
pub open spec fn held(calls: Seq<CallModel>, replies: Seq<ReplyModel>, object: Object) -> int
    decreases calls.len(),
{
    if calls.len() == 0 {
        0
    } else {
        held(calls.drop_last(), replies, object) + gain(
            calls.last(),
            replies[calls.len() - 1],
            object,
        )
    }
}

/// One more call adds its gain.
pub proof fn held_after_one_more(
    calls: Seq<CallModel>,
    call: CallModel,
    replies: Seq<ReplyModel>,
    object: Object,
)
    ensures
        held(calls.push(call), replies, object) == held(calls, replies, object) + gain(
            call,
            replies[calls.len() as int],
            object,
        ),
{
    assert(calls.push(call).drop_last() =~= calls);
}

/// Calls that neither allocate nor free leave every count as it was.
pub proof fn held_through_idle_calls(
    calls: Seq<CallModel>,
    more: Seq<CallModel>,
    replies: Seq<ReplyModel>,
    object: Object,
)
    requires
        forall|i: int| 0 <= i < more.len() ==> idle(#[trigger] more[i]),
    ensures
        held(calls + more, replies, object) == held(calls, replies, object),
    decreases more.len(),
{
    if more.len() == 0 {
        assert(calls + more =~= calls);
    } else {
        let fewer = more.drop_last();
        assert(calls + more =~= (calls + fewer).push(more.last()));
        held_after_one_more(calls + fewer, more.last(), replies, object);
        held_through_idle_calls(calls, fewer, replies, object);
    }
}

/// Replies beyond the last call do not count.
pub proof fn held_with_more_replies(
    calls: Seq<CallModel>,
    replies: Seq<ReplyModel>,
    more: Seq<ReplyModel>,
    object: Object,
)
    requires
        calls.len() <= replies.len(),
    ensures
        held(calls, replies + more, object) == held(calls, replies, object),
    decreases calls.len(),
{
    if calls.len() > 0 {
        held_with_more_replies(calls.drop_last(), replies, more, object);
    }
}

/// A compilation that the driver accepts leaves one object allocated: the
/// shader that it ends with.
pub proof fn accepted_source_holds_its_shader(
    source: Seq<u8>,
    kind: ShaderKind,
    shader: u32,
    status: i32,
    object: Object,
)
    requires
        status != 0,
    ensures
        held(
            calls(CompilationModel::start(source, kind), accepting(shader, status)),
            accepting(shader, status),
            object,
        ) == if object == Object::Shader(shader) {
            1int
        } else {
            0int
        },
{
    accepted_source_gives_the_created_shader(source, kind, shader, status);
    let made = calls(CompilationModel::start(source, kind), accepting(shader, status));
    let first = seq![made[0]];
    assert(first =~= Seq::<CallModel>::empty().push(made[0]));
    held_after_one_more(Seq::empty(), made[0], accepting(shader, status), object);
    assert(made =~= first + made.skip(1));
    held_through_idle_calls(first, made.skip(1), accepting(shader, status), object);
}

/// A compilation that the driver refuses leaves nothing allocated: the shader
/// object that it made is freed before the log comes back.
pub proof fn refused_source_holds_nothing(
    source: Seq<u8>,
    kind: ShaderKind,
    shader: u32,
    length: i32,
    log: Seq<u8>,
    object: Object,
)
    ensures
        held(
            calls(CompilationModel::start(source, kind), refusing(shader, length, log)),
            refusing(shader, length, log),
            object,
        ) == 0,
{
    refused_source_gives_the_log(source, kind, shader, length, log);
    let replies = refusing(shader, length, log);
    let made = calls(CompilationModel::start(source, kind), replies);
    let first = seq![made[0]];
    let between = made.subrange(1, 6);
    assert(first =~= Seq::<CallModel>::empty().push(made[0]));
    held_after_one_more(Seq::empty(), made[0], replies, object);
    held_through_idle_calls(first, between, replies, object);
    assert(made =~= (first + between).push(made[6]));
    held_after_one_more(first + between, made[6], replies, object);
}

/// Giving up the shader of an accepted compilation leaves nothing allocated.
pub proof fn released_shader_holds_nothing(
    source: Seq<u8>,
    kind: ShaderKind,
    shader: u32,
    status: i32,
    object: Object,
)
    requires
        status != 0,
    ensures
        held(
            calls(CompilationModel::start(source, kind), accepting(shader, status)).push(
                CallModel::DeleteShader { shader },
            ),
            accepting(shader, status).push(Reply::Performed),
            object,
        ) == 0,
{
    let replies = accepting(shader, status);
    let longer = replies.push(Reply::Performed);
    let made = calls(CompilationModel::start(source, kind), replies);
    accepted_source_gives_the_created_shader(source, kind, shader, status);
    accepted_source_holds_its_shader(source, kind, shader, status, object);
    held_with_more_replies(made, replies, seq![Reply::Performed], object);
    assert(longer =~= replies + seq![Reply::Performed]);
    held_after_one_more(made, CallModel::DeleteShader { shader }, longer, object);
}

/// A linking that the driver accepts leaves one object allocated: the program
/// that it ends with. It allocates and frees no shader.
pub proof fn linked_shaders_hold_their_program(
    shaders: Seq<u32>,
    program: u32,
    status: i32,
    object: Object,
)
    requires
        shaders.len() <= usize::MAX,
        status != 0,
    ensures
        held(
            calls(LinkingModel::start(shaders), linking(program, shaders.len(), status)),
            linking(program, shaders.len(), status),
            object,
        ) == if object == Object::Program(program) {
            1int
        } else {
            0int
        },
{
    linked_shaders_give_the_created_program(shaders, program, status);
    let replies = linking(program, shaders.len(), status);
    let made = calls(LinkingModel::start(shaders), replies);
    let first = seq![CallModel::CreateProgram];
    let others = attach_calls(program, shaders) + seq![
        CallModel::LinkProgram { program },
        CallModel::GetProgramiv { program, parameter: LINK_STATUS, preset: 1 },
    ] + detach_calls(program, shaders);
    assert(made =~= first + others);
    assert(first =~= Seq::<CallModel>::empty().push(CallModel::CreateProgram));
    held_after_one_more(Seq::empty(), CallModel::CreateProgram, replies, object);
    held_through_idle_calls(first, others, replies, object);
}

/// Giving up the program of an accepted linking leaves nothing allocated.
pub proof fn released_program_holds_nothing(
    shaders: Seq<u32>,
    program: u32,
    status: i32,
    object: Object,
)
    requires
        shaders.len() <= usize::MAX,
        status != 0,
    ensures
        held(
            calls(LinkingModel::start(shaders), linking(program, shaders.len(), status)).push(
                CallModel::DeleteProgram { program },
            ),
            linking(program, shaders.len(), status).push(Reply::Performed),
            object,
        ) == 0,
{
    let replies = linking(program, shaders.len(), status);
    let longer = replies.push(Reply::Performed);
    let made = calls(LinkingModel::start(shaders), replies);
    linked_shaders_give_the_created_program(shaders, program, status);
    linked_shaders_hold_their_program(shaders, program, status, object);
    held_with_more_replies(made, replies, seq![Reply::Performed], object);
    assert(longer =~= replies + seq![Reply::Performed]);
    held_after_one_more(made, CallModel::DeleteProgram { program }, longer, object);
}

/// A linking that the driver refuses leaves nothing allocated: the program
/// object that it made is freed before the log comes back. It allocates and
/// frees no shader.
pub proof fn unlinked_shaders_hold_nothing(
    shaders: Seq<u32>,
    program: u32,
    length: i32,
    log: Seq<u8>,
    object: Object,
)
    requires
        shaders.len() <= usize::MAX,
    ensures
        held(
            calls(LinkingModel::start(shaders), failing(program, shaders.len(), length, log)),
            failing(program, shaders.len(), length, log),
            object,
        ) == 0,
{
    unlinked_shaders_give_the_log(shaders, program, length, log);
    let replies = failing(program, shaders.len(), length, log);
    let made = calls(LinkingModel::start(shaders), replies);
    let first = seq![CallModel::CreateProgram];
    let between = made.subrange(1, made.len() - 1);
    assert(first =~= Seq::<CallModel>::empty().push(CallModel::CreateProgram));
    held_after_one_more(Seq::empty(), CallModel::CreateProgram, replies, object);
    held_through_idle_calls(first, between, replies, object);
    assert(made =~= (first + between).push(CallModel::DeleteProgram { program }));
    held_after_one_more(first + between, CallModel::DeleteProgram { program }, replies, object);
}

/// Giving up a collection of shaders whose handles differ frees each of their
/// objects once, and nothing else.
pub proof fn released_shaders_are_freed_once_each(
    shaders: Seq<u32>,
    replies: Seq<ReplyModel>,
    object: Object,
)
    requires
        shaders.no_duplicates(),
    ensures
        held(release_calls(shaders), replies, object) == if object matches Object::Shader(handle)
            && shaders.contains(handle) {
            -1int
        } else {
            0int
        },
    decreases shaders.len(),
{
    if shaders.len() > 0 {
        let fewer = shaders.drop_last();
        let last = shaders.last();
        assert(release_calls(shaders) =~= release_calls(fewer).push(
            CallModel::DeleteShader { shader: last },
        ));
        held_after_one_more(
            release_calls(fewer),
            CallModel::DeleteShader { shader: last },
            replies,
            object,
        );
        released_shaders_are_freed_once_each(fewer, replies, object);
        assert(forall|handle: u32|
            shaders.contains(handle) <==> fewer.contains(handle) || handle == last) by {
            assert forall|handle: u32| shaders.contains(handle) implies fewer.contains(handle)
                || handle == last by {
                let at = choose|at: int| 0 <= at < shaders.len() && shaders[at] == handle;
                if at < fewer.len() {
                    assert(fewer[at] == handle);
                }
            }
            assert forall|handle: u32| fewer.contains(handle) implies shaders.contains(handle) by {
                let at = choose|at: int| 0 <= at < fewer.len() && fewer[at] == handle;
                assert(shaders[at] == handle);
            }
            assert(shaders[shaders.len() - 1] == last);
        }
        if fewer.contains(last) {
            let at = choose|at: int| 0 <= at < fewer.len() && fewer[at] == last;
            assert(shaders[at] == shaders[shaders.len() - 1]);
        }
    }
}

} // verus!
