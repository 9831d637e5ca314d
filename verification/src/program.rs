//! Program objects: linking compiled shaders into one, and owning its handle.

use vstd::prelude::*;
use crate::driver::{
    calls, performed, run, run_from_first, run_in_two_parts, Call, CallModel, Progress, Reply,
    ReplyModel, Session, INFO_LOG_LENGTH, LINK_STATUS,
};
use crate::shader::{handles, Shader};
use crate::text::{
    blank, capacity_for, decode_lossy, log_capacity, lossy_text, speaks_for, whitespace_buffer,
};

verus! {

/// An owned, linked program object.
///
/// The value is the only holder of its handle: it cannot be copied, and
/// [`Program::release`] consumes it. It holds none of the shaders it was
/// linked from.
#[derive(Debug, PartialEq, Eq)]
pub struct Program {
    id: u32,
}

impl View for Program {
    type V = u32;

    closed spec fn view(&self) -> u32 {
        self.id
    }
}

/// What a linking waits for.
#[derive(Debug)]
pub enum LinkStage<T = String> {
    /// The handle of the new program object.
    Create,
    /// The attaching of the shader at index `next`.
    Attach { program: u32, next: usize },
    /// The linker's run.
    Link { program: u32 },
    /// The link status.
    Status { program: u32 },
    /// The detaching of the shader at index `next`.
    Detach { program: u32, next: usize },
    /// The length of the info log.
    LogLength { program: u32 },
    /// The info log, in a buffer of `capacity` bytes.
    Log { program: u32, capacity: i32 },
    /// The deletion of the rejected program object.
    Discard { program: u32, message: T },
}

/// A linking as contracts see it: the handles of the shaders, in the order
/// given, and the stage.
pub struct LinkingModel {
    pub shaders: Seq<u32>,
    pub stage: LinkStage<Seq<char>>,
}

/// Where a linking stands after a reply, as contracts see it.
pub type LinkProgressModel = Progress<LinkingModel, u32, Seq<char>>;

impl LinkingModel {
    /// A linking that has made no call yet.
    pub open spec fn start(shaders: Seq<u32>) -> LinkingModel {
        LinkingModel { shaders, stage: LinkStage::Create }
    }

    /// The same linking at another stage.
    pub open spec fn at(self, stage: LinkStage<Seq<char>>) -> LinkingModel {
        LinkingModel { shaders: self.shaders, stage }
    }

    /// The stage that walks the shaders from index `next` on to attach them, or
    /// the linker's run where none is left.
    pub open spec fn attach_from(self, program: u32, next: int) -> LinkProgressModel {
        if next < self.shaders.len() {
            Progress::Pending(self.at(LinkStage::Attach { program, next: next as usize }))
        } else {
            Progress::Pending(self.at(LinkStage::Link { program }))
        }
    }

    /// The stage that walks the shaders from index `next` on to detach them, or
    /// the linked program where none is left.
    pub open spec fn detach_from(self, program: u32, next: int) -> LinkProgressModel {
        if next < self.shaders.len() {
            Progress::Pending(self.at(LinkStage::Detach { program, next: next as usize }))
        } else {
            Progress::Done(Ok(program))
        }
    }
}

impl Session for LinkingModel {
    /// The call that the linking waits on.
    open spec fn request(self) -> CallModel {
        match self.stage {
            LinkStage::Create => Call::CreateProgram,
            LinkStage::Attach { program, next } => Call::AttachShader {
                program,
                shader: self.shaders[next as int],
            },
            LinkStage::Link { program } => Call::LinkProgram { program },
            LinkStage::Status { program } => Call::GetProgramiv {
                program,
                parameter: LINK_STATUS,
                preset: 1,
            },
            LinkStage::Detach { program, next } => Call::DetachShader {
                program,
                shader: self.shaders[next as int],
            },
            LinkStage::LogLength { program } => Call::GetProgramiv {
                program,
                parameter: INFO_LOG_LENGTH,
                preset: 0,
            },
            LinkStage::Log { program, capacity } => Call::GetProgramInfoLog {
                program,
                capacity,
                buffer: blank(capacity as nat),
            },
            LinkStage::Discard { program, message } => Call::DeleteProgram { program },
        }
    }

    /// The linking after `reply`. A reply that is not of the kind that answers
    /// the pending call changes nothing.
    open spec fn advance(self, reply: ReplyModel) -> LinkProgressModel {
        match (self.stage, reply) {
            (LinkStage::Create, Reply::Handle(program)) => self.attach_from(program, 0),
            (LinkStage::Attach { program, next }, Reply::Performed) => self.attach_from(
                program,
                next + 1,
            ),
            (LinkStage::Link { program }, Reply::Performed) => Progress::Pending(
                self.at(LinkStage::Status { program }),
            ),
            (LinkStage::Status { program }, Reply::Value(status)) => if status != 0 {
                self.detach_from(program, 0)
            } else {
                Progress::Pending(self.at(LinkStage::LogLength { program }))
            },
            (LinkStage::Detach { program, next }, Reply::Performed) => self.detach_from(
                program,
                next + 1,
            ),
            (LinkStage::LogLength { program }, Reply::Value(length)) => Progress::Pending(
                self.at(LinkStage::Log { program, capacity: log_capacity(length) }),
            ),
            (LinkStage::Log { program, capacity }, Reply::Log(bytes)) => Progress::Pending(
                self.at(LinkStage::Discard { program, message: lossy_text(bytes) }),
            ),
            (LinkStage::Discard { program, message }, Reply::Performed) => Progress::Done(
                Err(message),
            ),
            _ => Progress::Pending(self),
        }
    }

    /// The calls from this stage to the end of the longest way on.
    open spec fn remaining(self) -> nat {
        let count = self.shaders.len();
        match self.stage {
            LinkStage::Create => 2 * count + 6,
            LinkStage::Attach { next, .. } => (2 * count + 5 - next) as nat,
            LinkStage::Link { .. } => count + 5,
            LinkStage::Status { .. } => count + 4,
            LinkStage::Detach { next, .. } => (count - next) as nat,
            LinkStage::LogLength { .. } => 3,
            LinkStage::Log { .. } => 2,
            LinkStage::Discard { .. } => 1,
        }
    }

    /// The shaders can be counted, and a shader index in a stage is that of
    /// one of them.
    open spec fn well_formed(self) -> bool {
        &&& self.shaders.len() <= usize::MAX
        &&& self.stage matches LinkStage::Attach { next, .. } ==> next < self.shaders.len()
        &&& self.stage matches LinkStage::Detach { next, .. } ==> next < self.shaders.len()
    }

    proof fn reply_draws_nearer(self, reply: ReplyModel) {
    }
}

/// A linking under way: the handles of the shaders and what it waits for.
#[derive(Debug)]
pub struct Linking {
    shaders: Vec<u32>,
    stage: LinkStage,
}

impl View for Linking {
    type V = LinkingModel;

    closed spec fn view(&self) -> LinkingModel {
        LinkingModel {
            shaders: self.shaders@,
            stage: match self.stage {
                LinkStage::Create => LinkStage::Create,
                LinkStage::Attach { program, next } => LinkStage::Attach { program, next },
                LinkStage::Link { program } => LinkStage::Link { program },
                LinkStage::Status { program } => LinkStage::Status { program },
                LinkStage::Detach { program, next } => LinkStage::Detach { program, next },
                LinkStage::LogLength { program } => LinkStage::LogLength { program },
                LinkStage::Log { program, capacity } => LinkStage::Log { program, capacity },
                LinkStage::Discard { program, message } => LinkStage::Discard {
                    program,
                    message: message@,
                },
            },
        }
    }
}

impl Linking {
    #[verifier::type_invariant]
    spec fn in_step(&self) -> bool {
        &&& self.stage matches LinkStage::Attach { next, .. } ==> next < self.shaders@.len()
        &&& self.stage matches LinkStage::Detach { next, .. } ==> next < self.shaders@.len()
        &&& self.stage matches LinkStage::Log { capacity, .. } ==> capacity >= 0
    }

    /// Begins the linking of the shader objects with these handles, in this
    /// order, into one program.
    pub fn of_handles(shaders: Vec<u32>) -> (session: Linking)
        ensures
            session@ == LinkingModel::start(shaders@),
    {
        Linking { shaders, stage: LinkStage::Create }
    }

    /// The call to make next.
    pub fn request(&self) -> (call: Call)
        ensures
            call@ == self@.request(),
    {
        proof {
            use_type_invariant(self);
        }
        match &self.stage {
            LinkStage::Create => Call::CreateProgram,
            LinkStage::Attach { program, next } => Call::AttachShader {
                program: *program,
                shader: self.shaders[*next],
            },
            LinkStage::Link { program } => Call::LinkProgram { program: *program },
            LinkStage::Status { program } => Call::GetProgramiv {
                program: *program,
                parameter: LINK_STATUS,
                preset: 1,
            },
            LinkStage::Detach { program, next } => Call::DetachShader {
                program: *program,
                shader: self.shaders[*next],
            },
            LinkStage::LogLength { program } => Call::GetProgramiv {
                program: *program,
                parameter: INFO_LOG_LENGTH,
                preset: 0,
            },
            LinkStage::Log { program, capacity } => Call::GetProgramInfoLog {
                program: *program,
                capacity: *capacity,
                buffer: whitespace_buffer(*capacity as usize),
            },
            LinkStage::Discard { program, .. } => Call::DeleteProgram { program: *program },
        }
    }

    /// Takes the driver's reply to the pending call and moves on: to the next
    /// call, to the linked program, or to the driver's diagnostic.
    ///
    /// Every shader is attached, in the order given, before the linker runs.
    /// The program is linked when the driver reports a status other than zero;
    /// every shader is then detached, in the same order. On a status of zero
    /// the info log is read into a buffer of the length that the driver gives,
    /// the rejected object is deleted, and the log comes back as text.
    pub fn advance(self, reply: Reply) -> (progress: Progress<Linking, Program>)
        ensures
            progress@ == self@.advance(reply@),
            self@.stage is Log ==> (reply@ matches Reply::Log(log) ==> speaks_for(
                lossy_text(log),
                log,
            )),
    {
        proof {
            use_type_invariant(&self);
        }
        let Linking { shaders, stage } = self;
        let count: usize = shaders.len();
        match (stage, reply) {
            (LinkStage::Create, Reply::Handle(program)) => {
                if 0 < count {
                    Progress::Pending(
                        Linking { shaders, stage: LinkStage::Attach { program, next: 0 } },
                    )
                } else {
                    Progress::Pending(Linking { shaders, stage: LinkStage::Link { program } })
                }
            },
            (LinkStage::Attach { program, next }, Reply::Performed) => {
                if next + 1 < count {
                    Progress::Pending(
                        Linking { shaders, stage: LinkStage::Attach { program, next: next + 1 } },
                    )
                } else {
                    Progress::Pending(Linking { shaders, stage: LinkStage::Link { program } })
                }
            },
            (LinkStage::Link { program }, Reply::Performed) => Progress::Pending(
                Linking { shaders, stage: LinkStage::Status { program } },
            ),
            (LinkStage::Status { program }, Reply::Value(status)) => {
                if status == 0 {
                    Progress::Pending(Linking { shaders, stage: LinkStage::LogLength { program } })
                } else if 0 < count {
                    Progress::Pending(
                        Linking { shaders, stage: LinkStage::Detach { program, next: 0 } },
                    )
                } else {
                    Progress::Done(Ok(Program { id: program }))
                }
            },
            (LinkStage::Detach { program, next }, Reply::Performed) => {
                if next + 1 < count {
                    Progress::Pending(
                        Linking { shaders, stage: LinkStage::Detach { program, next: next + 1 } },
                    )
                } else {
                    Progress::Done(Ok(Program { id: program }))
                }
            },
            (LinkStage::LogLength { program }, Reply::Value(length)) => {
                let capacity: i32 = capacity_for(length);
                Progress::Pending(Linking { shaders, stage: LinkStage::Log { program, capacity } })
            },
            (LinkStage::Log { program, capacity }, Reply::Log(bytes)) => {
                let message = decode_lossy(&bytes);
                Progress::Pending(
                    Linking { shaders, stage: LinkStage::Discard { program, message } },
                )
            },
            (LinkStage::Discard { program, message }, Reply::Performed) => Progress::Done(
                Err(message),
            ),
            (stage, _) => Progress::Pending(Linking { shaders, stage }),
        }
    }
}

impl Program {
    /// Begins the linking of `shaders` into one program. The shaders are only
    /// read: they stay with the caller, who frees them when it sees fit.
    pub fn from_shaders(shaders: &[Shader]) -> (session: Linking)
        ensures
            session@ == LinkingModel::start(handles(shaders@)),
    {
        let mut ids: Vec<u32> = Vec::with_capacity(shaders.len());
        let mut at: usize = 0;
        while at < shaders.len()
            invariant
                at <= shaders.len(),
                ids@ == handles(shaders@.take(at as int)),
            decreases shaders.len() - at,
        {
            ids.push(shaders[at].id());
            at = at + 1;
            assert(ids@ =~= handles(shaders@.take(at as int)));
        }
        assert(shaders@.take(at as int) =~= shaders@);
        Linking::of_handles(ids)
    }

    /// The call that makes this program the active one for the draw calls that
    /// follow. It has no result.
    pub fn set_used(&self) -> (call: Call)
        ensures
            call@ == (CallModel::UseProgram { program: self@ }),
    {
        Call::UseProgram { program: self.id }
    }

    /// The program object's handle.
    pub fn id(&self) -> (handle: u32)
        ensures
            handle == self@,
    {
        self.id
    }

    /// Gives the program up: the one call that frees its object.
    pub fn release(self) -> (call: Call)
        ensures
            call@ == (CallModel::DeleteProgram { program: self@ }),
    {
        Call::DeleteProgram { program: self.id }
    }
}

/// Whatever stage a linking is at, its pending call does not free a shader,
/// replace its source or compile it again: the shaders that a program is
/// linked from stay as they were, to be given up one by one when their owner
/// sees fit.
pub proof fn linking_leaves_the_shaders_alone(session: LinkingModel)
    ensures
        !(session.request() is DeleteShader),
        !(session.request() is ShaderSource),
        !(session.request() is CompileShader),
        !(session.request() is CreateShader),
{
}

/// The calls that attach each of `shaders` to `program`, in order.
pub open spec fn attach_calls(program: u32, shaders: Seq<u32>) -> Seq<CallModel> {
    Seq::new(shaders.len(), |i: int| CallModel::AttachShader { program, shader: shaders[i] })
}

/// The calls that detach each of `shaders` from `program`, in order.
pub open spec fn detach_calls(program: u32, shaders: Seq<u32>) -> Seq<CallModel> {
    Seq::new(shaders.len(), |i: int| CallModel::DetachShader { program, shader: shaders[i] })
}

/// The replies of a driver that links `count` shaders: the new handle, the
/// attaching of each, the linker's run, a status other than zero, and the
/// detaching of each.
pub open spec fn linking(program: u32, count: nat, status: i32) -> Seq<ReplyModel> {
    seq![Reply::Handle(program)] + performed(count) + seq![
        Reply::Performed,
        Reply::Value(status),
    ] + performed(count)
}

/// The replies of a driver that refuses to link `count` shaders: the new
/// handle, the attaching of each, the linker's run, a status of zero, the
/// length of the log, the log, and the deletion.
pub open spec fn failing(program: u32, count: nat, length: i32, log: Seq<u8>) -> Seq<
    ReplyModel,
> {
    seq![Reply::Handle(program)] + performed(count) + seq![
        Reply::Performed,
        Reply::Value(0),
        Reply::Value(length),
        Reply::Log(log),
        Reply::Performed,
    ]
}

/// From the shader at index `from` on, as many replies as shaders are left
/// attach each of them and bring the linking to the linker's run.
proof fn attaching_reaches_the_linker(model: LinkingModel, program: u32, from: int)
    requires
        model.shaders.len() <= usize::MAX,
        0 <= from < model.shaders.len(),
    ensures
        run(
            model.at(LinkStage::Attach { program, next: from as usize }),
            performed((model.shaders.len() - from) as nat),
        ) == Progress::<LinkingModel, u32, Seq<char>>::Pending(
            model.at(LinkStage::Link { program }),
        ),
        calls(
            model.at(LinkStage::Attach { program, next: from as usize }),
            performed((model.shaders.len() - from) as nat),
        ) == attach_calls(program, model.shaders).skip(from),
    decreases model.shaders.len() - from,
{
    let here = model.at(LinkStage::Attach { program, next: from as usize });
    let left = (model.shaders.len() - from - 1) as nat;
    assert(performed(left + 1) =~= seq![Reply::Performed] + performed(left));
    run_from_first(here, Reply::Performed, performed(left));
    if from + 1 < model.shaders.len() {
        attaching_reaches_the_linker(model, program, from + 1);
    }
    assert(calls(here, performed(left + 1)) =~= attach_calls(program, model.shaders).skip(from));
}

/// From the shader at index `from` on, as many replies as shaders are left
/// detach each of them and end the linking with the program.
proof fn detaching_reaches_the_program(model: LinkingModel, program: u32, from: int)
    requires
        model.shaders.len() <= usize::MAX,
        0 <= from < model.shaders.len(),
    ensures
        run(
            model.at(LinkStage::Detach { program, next: from as usize }),
            performed((model.shaders.len() - from) as nat),
        ) == Progress::<LinkingModel, u32, Seq<char>>::Done(Ok(program)),
        calls(
            model.at(LinkStage::Detach { program, next: from as usize }),
            performed((model.shaders.len() - from) as nat),
        ) == detach_calls(program, model.shaders).skip(from),
    decreases model.shaders.len() - from,
{
    let here = model.at(LinkStage::Detach { program, next: from as usize });
    let left = (model.shaders.len() - from - 1) as nat;
    assert(performed(left + 1) =~= seq![Reply::Performed] + performed(left));
    run_from_first(here, Reply::Performed, performed(left));
    if from + 1 < model.shaders.len() {
        detaching_reaches_the_program(model, program, from + 1);
    }
    assert(calls(here, performed(left + 1)) =~= detach_calls(program, model.shaders).skip(from));
}

/// The handle and the attaching of every shader bring a new linking to the
/// linker's run, by the call that creates the program and those that attach
/// the shaders in order.
proof fn creating_and_attaching(shaders: Seq<u32>, program: u32)
    requires
        shaders.len() <= usize::MAX,
    ensures
        run(LinkingModel::start(shaders), seq![Reply::Handle(program)] + performed(shaders.len()))
            == Progress::<LinkingModel, u32, Seq<char>>::Pending(
            LinkingModel::start(shaders).at(LinkStage::Link { program }),
        ),
        calls(
            LinkingModel::start(shaders),
            seq![Reply::Handle(program)] + performed(shaders.len()),
        ) == seq![CallModel::CreateProgram] + attach_calls(program, shaders),
{
    let start = LinkingModel::start(shaders);
    run_from_first(start, Reply::Handle(program), performed(shaders.len()));
    if shaders.len() > 0 {
        attaching_reaches_the_linker(start, program, 0);
        assert(attach_calls(program, shaders).skip(0) =~= attach_calls(program, shaders));
    } else {
        assert(calls(start.at(LinkStage::Link { program }), performed(0)) =~= attach_calls(
            program,
            shaders,
        ));
    }
}

/// A linking that the driver accepts makes these calls, in this order: create
/// the program, attach every shader in the order given, link, read the status,
/// detach every shader in the same order. It ends with the handle that the
/// driver gave at creation. No log is read, and no shader is deleted.
pub proof fn linked_shaders_give_the_created_program(
    shaders: Seq<u32>,
    program: u32,
    status: i32,
)
    requires
        shaders.len() <= usize::MAX,
        status != 0,
    ensures
        run(LinkingModel::start(shaders), linking(program, shaders.len(), status)) == Progress::<
            LinkingModel,
            u32,
            Seq<char>,
        >::Done(Ok(program)),
        calls(LinkingModel::start(shaders), linking(program, shaders.len(), status)) == seq![
            CallModel::CreateProgram,
        ] + attach_calls(program, shaders) + seq![
            CallModel::LinkProgram { program },
            CallModel::GetProgramiv { program, parameter: LINK_STATUS, preset: 1 },
        ] + detach_calls(program, shaders),
{
    let start = LinkingModel::start(shaders);
    let count = shaders.len();
    let opening = seq![Reply::Handle(program)] + performed(count);
    let verdict = seq![Reply::Performed, Reply::Value(status)];
    let none = Seq::<ReplyModel>::empty();
    creating_and_attaching(shaders, program);
    assert(verdict =~= seq![Reply::Performed] + (seq![Reply::Value(status)] + none));
    run_from_first(
        start.at(LinkStage::Link { program }),
        Reply::Performed,
        seq![Reply::Value(status)] + none,
    );
    run_from_first(start.at(LinkStage::Status { program }), Reply::Value(status), none);
    run_in_two_parts(start, opening, verdict);
    run_in_two_parts(start, opening + verdict, performed(count));
    if count > 0 {
        detaching_reaches_the_program(start, program, 0);
        assert(detach_calls(program, shaders).skip(0) =~= detach_calls(program, shaders));
    }
    assert(calls(start, linking(program, count, status)) =~= seq![CallModel::CreateProgram]
        + attach_calls(program, shaders) + seq![
        CallModel::LinkProgram { program },
        CallModel::GetProgramiv { program, parameter: LINK_STATUS, preset: 1 },
    ] + detach_calls(program, shaders));
}

/// A linking that the driver refuses makes these calls, in this order: create
/// the program, attach every shader in the order given, link, read the status,
/// read the length of the log, have the log written over a buffer of exactly
/// that many spaces, delete the program object. It ends with the text of the
/// buffer as the driver left it. No shader is detached or deleted.
pub proof fn unlinked_shaders_give_the_log(
    shaders: Seq<u32>,
    program: u32,
    length: i32,
    log: Seq<u8>,
)
    requires
        shaders.len() <= usize::MAX,
    ensures
        run(LinkingModel::start(shaders), failing(program, shaders.len(), length, log))
            == Progress::<LinkingModel, u32, Seq<char>>::Done(Err(lossy_text(log))),
        calls(LinkingModel::start(shaders), failing(program, shaders.len(), length, log)) == seq![
            CallModel::CreateProgram,
        ] + attach_calls(program, shaders) + seq![
            CallModel::LinkProgram { program },
            CallModel::GetProgramiv { program, parameter: LINK_STATUS, preset: 1 },
            CallModel::GetProgramiv { program, parameter: INFO_LOG_LENGTH, preset: 0 },
            CallModel::GetProgramInfoLog {
                program,
                capacity: log_capacity(length),
                buffer: blank(log_capacity(length) as nat),
            },
            CallModel::DeleteProgram { program },
        ],
{
    let start = LinkingModel::start(shaders);
    let count = shaders.len();
    let capacity = log_capacity(length);
    let message = lossy_text(log);
    let opening = seq![Reply::Handle(program)] + performed(count);
    let none = Seq::<ReplyModel>::empty();
    let fifth = seq![Reply::Performed] + none;
    let fourth = seq![Reply::Log(log)] + fifth;
    let third = seq![Reply::Value(length)] + fourth;
    let second = seq![Reply::Value(0)] + third;
    let verdict = seq![Reply::Performed] + second;
    creating_and_attaching(shaders, program);
    run_from_first(start.at(LinkStage::Link { program }), Reply::Performed, second);
    run_from_first(start.at(LinkStage::Status { program }), Reply::Value(0), third);
    run_from_first(start.at(LinkStage::LogLength { program }), Reply::Value(length), fourth);
    run_from_first(start.at(LinkStage::Log { program, capacity }), Reply::Log(log), fifth);
    run_from_first(start.at(LinkStage::Discard { program, message }), Reply::Performed, none);
    run_in_two_parts(start, opening, verdict);
    assert(failing(program, count, length, log) =~= opening + verdict);
    assert(calls(start, failing(program, count, length, log)) =~= seq![CallModel::CreateProgram]
        + attach_calls(program, shaders) + seq![
        CallModel::LinkProgram { program },
        CallModel::GetProgramiv { program, parameter: LINK_STATUS, preset: 1 },
        CallModel::GetProgramiv { program, parameter: INFO_LOG_LENGTH, preset: 0 },
        CallModel::GetProgramInfoLog { program, capacity, buffer: blank(capacity as nat) },
        CallModel::DeleteProgram { program },
    ]);
}

} // verus!
