//! The vocabulary shared with the driver: the calls that the library asks for
//! and the replies that come back.
//!
//! Handles, parameter names and shader kinds are the driver's own integers.
//! A call or a reply that carries bytes is generic in how it holds them: a
//! `Vec<u8>` in executable code, a `Seq<u8>` in contracts.

use vstd::prelude::*;

verus! {

/// Parameter name of a shader's compile status.
pub const COMPILE_STATUS: u32 = 0x8B81;

/// Parameter name of a program's link status.
pub const LINK_STATUS: u32 = 0x8B82;

/// Parameter name of the length of an object's info log, terminator included.
pub const INFO_LOG_LENGTH: u32 = 0x8B84;

/// One request to the driver.
#[derive(Debug, PartialEq, Eq)]
pub enum Call<B = Vec<u8>> {
    /// Allocate a shader object of the given native kind; answered by its handle.
    CreateShader { kind: u32 },
    /// Replace the shader's source by one string.
    ShaderSource { shader: u32, source: B },
    /// Compile the shader's source.
    CompileShader { shader: u32 },
    /// Read an integer parameter of a shader. The answer is `preset` where the
    /// driver writes nothing.
    GetShaderiv { shader: u32, parameter: u32, preset: i32 },
    /// Have the driver write the shader's info log over `buffer`, at most
    /// `capacity` bytes of it; answered by the buffer as the driver left it.
    GetShaderInfoLog { shader: u32, capacity: i32, buffer: B },
    /// Free a shader object.
    DeleteShader { shader: u32 },
    /// Allocate a program object; answered by its handle.
    CreateProgram,
    /// Attach a shader to a program.
    AttachShader { program: u32, shader: u32 },
    /// Link the shaders attached to a program.
    LinkProgram { program: u32 },
    /// Read an integer parameter of a program. The answer is `preset` where the
    /// driver writes nothing.
    GetProgramiv { program: u32, parameter: u32, preset: i32 },
    /// Have the driver write the program's info log over `buffer`, at most
    /// `capacity` bytes of it; answered by the buffer as the driver left it.
    GetProgramInfoLog { program: u32, capacity: i32, buffer: B },
    /// Detach a shader from a program.
    DetachShader { program: u32, shader: u32 },
    /// Make a program the active one for the draw calls that follow.
    UseProgram { program: u32 },
    /// Free a program object.
    DeleteProgram { program: u32 },
}

/// A call as contracts see it.
pub type CallModel = Call<Seq<u8>>;

impl View for Call<Vec<u8>> {
    type V = CallModel;

    open spec fn view(&self) -> CallModel {
        match *self {
            Call::CreateShader { kind } => Call::CreateShader { kind },
            Call::ShaderSource { shader, source } => Call::ShaderSource { shader, source: source@ },
            Call::CompileShader { shader } => Call::CompileShader { shader },
            Call::GetShaderiv { shader, parameter, preset } => Call::GetShaderiv {
                shader,
                parameter,
                preset,
            },
            Call::GetShaderInfoLog { shader, capacity, buffer } => Call::GetShaderInfoLog {
                shader,
                capacity,
                buffer: buffer@,
            },
            Call::DeleteShader { shader } => Call::DeleteShader { shader },
            Call::CreateProgram => Call::CreateProgram,
            Call::AttachShader { program, shader } => Call::AttachShader { program, shader },
            Call::LinkProgram { program } => Call::LinkProgram { program },
            Call::GetProgramiv { program, parameter, preset } => Call::GetProgramiv {
                program,
                parameter,
                preset,
            },
            Call::GetProgramInfoLog { program, capacity, buffer } => Call::GetProgramInfoLog {
                program,
                capacity,
                buffer: buffer@,
            },
            Call::DetachShader { program, shader } => Call::DetachShader { program, shader },
            Call::UseProgram { program } => Call::UseProgram { program },
            Call::DeleteProgram { program } => Call::DeleteProgram { program },
        }
    }
}

/// What the driver hands back for one call.
#[derive(Debug, PartialEq, Eq)]
pub enum Reply<B = Vec<u8>> {
    /// The call returns nothing and was made.
    Performed,
    /// The handle of a new object.
    Handle(u32),
    /// The value of an integer parameter.
    Value(i32),
    /// A log buffer after the driver wrote into it.
    Log(B),
}

/// A reply as contracts see it.
pub type ReplyModel = Reply<Seq<u8>>;

impl View for Reply<Vec<u8>> {
    type V = ReplyModel;

    open spec fn view(&self) -> ReplyModel {
        match *self {
            Reply::Performed => Reply::Performed,
            Reply::Handle(handle) => Reply::Handle(handle),
            Reply::Value(value) => Reply::Value(value),
            Reply::Log(bytes) => Reply::Log(bytes@),
        }
    }
}

/// Whether `reply` is of the kind that `call` is answered with.
pub open spec fn answers(reply: ReplyModel, call: CallModel) -> bool {
    match call {
        Call::CreateShader { .. } | Call::CreateProgram => reply is Handle,
        Call::GetShaderiv { .. } | Call::GetProgramiv { .. } => reply is Value,
        Call::GetShaderInfoLog { .. } | Call::GetProgramInfoLog { .. } => reply is Log,
        _ => reply is Performed,
    }
}

/// Where a session stands after a reply: it has another call to make, or it is
/// over with a result.
#[derive(Debug)]
pub enum Progress<S, T, E = String> {
    Pending(S),
    Done(Result<T, E>),
}

impl<S: View, T: View> View for Progress<S, T, String> {
    type V = Progress<S::V, T::V, Seq<char>>;

    open spec fn view(&self) -> Self::V {
        match *self {
            Progress::Pending(session) => Progress::Pending(session@),
            Progress::Done(Ok(made)) => Progress::Done(Ok(made@)),
            Progress::Done(Err(message)) => Progress::Done(Err(message@)),
        }
    }
}

/// The decisions of a session, as contracts see them.
pub trait Session: Sized {
    /// The call that the session waits on.
    spec fn request(self) -> CallModel;

    /// Where the session stands after `reply`.
    spec fn advance(self, reply: ReplyModel) -> Progress<Self, u32, Seq<char>>;

    /// A bound on the number of calls that are still to be answered.
    spec fn remaining(self) -> nat;

    /// What holds of every session that a run reaches.
    spec fn well_formed(self) -> bool;

    /// A reply of the kind that the pending call is answered with ends the
    /// session or brings it nearer to its end; any other reply is passed over.
    proof fn reply_draws_nearer(self, reply: ReplyModel)
        requires
            self.well_formed(),
        ensures
            self.remaining() > 0,
            match self.advance(reply) {
                Progress::Pending(next) => next.well_formed() && if answers(
                    reply,
                    self.request(),
                ) {
                    next.remaining() < self.remaining()
                } else {
                    next == self
                },
                Progress::Done(_) => answers(reply, self.request()),
            },
    ;
}

/// Where `session` stands after the replies, taken one after the other. Replies
/// that come after the session is over are not looked at.
pub open spec fn run<S: Session>(session: S, replies: Seq<ReplyModel>) -> Progress<
    S,
    u32,
    Seq<char>,
>
    decreases replies.len(),
{
    if replies.len() == 0 {
        Progress::Pending(session)
    } else {
        match session.advance(replies.first()) {
            Progress::Pending(next) => run(next, replies.drop_first()),
            Progress::Done(result) => Progress::Done(result),
        }
    }
}

/// The calls that `session` makes while it takes the replies: one for each
/// reply that it looks at.
pub open spec fn calls<S: Session>(session: S, replies: Seq<ReplyModel>) -> Seq<CallModel>
    decreases replies.len(),
{
    if replies.len() == 0 {
        Seq::empty()
    } else {
        seq![session.request()] + match session.advance(replies.first()) {
            Progress::Pending(next) => calls(next, replies.drop_first()),
            Progress::Done(_) => Seq::empty(),
        }
    }
}

/// Whether each of the replies is of the kind that the call pending at its
/// turn is answered with.
pub open spec fn answered<S: Session>(session: S, replies: Seq<ReplyModel>) -> bool
    decreases replies.len(),
{
    replies.len() > 0 ==> answers(replies.first(), session.request()) && match session.advance(
        replies.first(),
    ) {
        Progress::Pending(next) => answered(next, replies.drop_first()),
        Progress::Done(_) => true,
    }
}

/// `count` replies to calls that return nothing.
pub open spec fn performed(count: nat) -> Seq<ReplyModel> {
    Seq::new(count, |i: int| Reply::Performed)
}

/// Replies may be taken in two parts: the second part goes to the session that
/// the first part leaves, and the calls made are those of both parts.
pub proof fn run_in_two_parts<S: Session>(
    session: S,
    first: Seq<ReplyModel>,
    second: Seq<ReplyModel>,
)
    ensures
        run(session, first + second) == match run(session, first) {
            Progress::Pending(next) => run(next, second),
            Progress::Done(result) => Progress::Done(result),
        },
        calls(session, first + second) == calls(session, first) + match run(session, first) {
            Progress::Pending(next) => calls(next, second),
            Progress::Done(_) => Seq::empty(),
        },
    decreases first.len(),
{
    if first.len() == 0 {
        assert(first + second =~= second);
        assert(calls(session, first) + calls(session, second) =~= calls(session, second));
    } else {
        let all = first + second;
        assert(all.first() == first.first());
        assert(all.drop_first() =~= first.drop_first() + second);
        match session.advance(first.first()) {
            Progress::Pending(next) => {
                run_in_two_parts(next, first.drop_first(), second);
                let tail = match run(next, first.drop_first()) {
                    Progress::Pending(last) => calls(last, second),
                    Progress::Done(_) => Seq::empty(),
                };
                assert(seq![session.request()] + (calls(next, first.drop_first()) + tail) =~= (
                seq![session.request()] + calls(next, first.drop_first())) + tail);
            },
            Progress::Done(_) => {
                assert(calls(session, first) + Seq::<CallModel>::empty() =~= calls(
                    session,
                    first,
                ));
            },
        }
    }
}

/// The first reply goes to the session, the others to the session that it
/// leaves.
pub proof fn run_from_first<S: Session>(session: S, reply: ReplyModel, others: Seq<ReplyModel>)
    ensures
        run(session, seq![reply] + others) == match session.advance(reply) {
            Progress::Pending(next) => run(next, others),
            Progress::Done(result) => Progress::Done(result),
        },
        calls(session, seq![reply] + others) == seq![session.request()] + match session.advance(
            reply,
        ) {
            Progress::Pending(next) => calls(next, others),
            Progress::Done(_) => Seq::empty(),
        },
{
    let all = seq![reply] + others;
    assert(all.first() == reply);
    assert(all.drop_first() =~= others);
}

/// A session is over once it has had as many replies as its bound says, each
/// of the kind that the pending call is answered with.
pub proof fn run_comes_to_an_end<S: Session>(session: S, replies: Seq<ReplyModel>)
    requires
        session.well_formed(),
        answered(session, replies),
        replies.len() >= session.remaining(),
    ensures
        run(session, replies) is Done,
    decreases replies.len(),
{
    session.reply_draws_nearer(replies.first());
    match session.advance(replies.first()) {
        Progress::Pending(next) => {
            run_comes_to_an_end(next, replies.drop_first());
        },
        Progress::Done(_) => {},
    }
}

} // verus!
