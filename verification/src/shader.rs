//! Shader objects: compiling source text into one, and owning its handle.

use vstd::prelude::*;
use crate::driver::{
    calls, run, run_from_first, Call, CallModel, Progress, Reply, ReplyModel, Session,
    COMPILE_STATUS, INFO_LOG_LENGTH,
};
use crate::source::{zero_free, Source};
use crate::text::{
    blank, capacity_for, decode_lossy, log_capacity, lossy_text, speaks_for, whitespace_buffer,
};

verus! {

/// The stage of the pipeline that a shader is compiled for.
#[derive(Debug, Clone, Copy, PartialEq, Eq, Structural)]
pub enum ShaderKind {
    Vertex,
    Fragment,
    Geometry,
    TessControl,
    TessEvaluation,
    Compute,
}

impl ShaderKind {
    /// The driver's constant for this kind.
    pub open spec fn spec_native(self) -> u32 {
        match self {
            ShaderKind::Vertex => 0x8B31,
            ShaderKind::Fragment => 0x8B30,
            ShaderKind::Geometry => 0x8DD9,
            ShaderKind::TessControl => 0x8E88,
            ShaderKind::TessEvaluation => 0x8E87,
            ShaderKind::Compute => 0x91B9,
        }
    }

    /// The driver's constant for this kind.
    #[verifier::when_used_as_spec(spec_native)]
    pub fn native(self) -> (code: u32)
        ensures
            code == self.spec_native(),
    {
        match self {
            ShaderKind::Vertex => 0x8B31,
            ShaderKind::Fragment => 0x8B30,
            ShaderKind::Geometry => 0x8DD9,
            ShaderKind::TessControl => 0x8E88,
            ShaderKind::TessEvaluation => 0x8E87,
            ShaderKind::Compute => 0x91B9,
        }
    }

    /// No two kinds share a constant.
    pub proof fn native_is_one_to_one(first: ShaderKind, second: ShaderKind)
        ensures
            first.native() == second.native() <==> first == second,
    {
    }
}

/// An owned, compiled shader object.
///
/// The value is the only holder of its handle: it cannot be copied, and
/// [`Shader::release`] consumes it.
#[derive(Debug, PartialEq, Eq)]
pub struct Shader {
    id: u32,
}

impl View for Shader {
    type V = u32;

    closed spec fn view(&self) -> u32 {
        self.id
    }
}

/// The handles of `shaders`, in order.
pub open spec fn handles(shaders: Seq<Shader>) -> Seq<u32> {
    Seq::new(shaders.len(), |i: int| shaders[i]@)
}

/// The calls that free the shader objects with these handles, in order.
pub open spec fn release_calls(shaders: Seq<u32>) -> Seq<CallModel> {
    Seq::new(shaders.len(), |i: int| CallModel::DeleteShader { shader: shaders[i] })
}

/// What a compilation waits for.
#[derive(Debug)]
pub enum CompileStage<T = String> {
    /// The handle of the new shader object.
    Create,
    /// The upload of the source.
    Upload { shader: u32 },
    /// The compiler's run.
    Compile { shader: u32 },
    /// The compile status.
    Status { shader: u32 },
    /// The length of the info log.
    LogLength { shader: u32 },
    /// The info log, in a buffer of `capacity` bytes.
    Log { shader: u32, capacity: i32 },
    /// The deletion of the rejected shader object.
    Discard { shader: u32, message: T },
}

/// A compilation as contracts see it.
pub struct CompilationModel {
    pub source: Seq<u8>,
    pub kind: ShaderKind,
    pub stage: CompileStage<Seq<char>>,
}

/// Where a compilation stands after a reply, as contracts see it.
pub type CompileProgressModel = Progress<CompilationModel, u32, Seq<char>>;

impl CompilationModel {
    /// A compilation that has made no call yet.
    pub open spec fn start(source: Seq<u8>, kind: ShaderKind) -> CompilationModel {
        CompilationModel { source, kind, stage: CompileStage::Create }
    }

    /// The same compilation at another stage.
    pub open spec fn at(self, stage: CompileStage<Seq<char>>) -> CompilationModel {
        CompilationModel { source: self.source, kind: self.kind, stage }
    }
}

impl Session for CompilationModel {
    /// The call that the compilation waits on.
    open spec fn request(self) -> CallModel {
        match self.stage {
            CompileStage::Create => Call::CreateShader { kind: self.kind.native() },
            CompileStage::Upload { shader } => Call::ShaderSource { shader, source: self.source },
            CompileStage::Compile { shader } => Call::CompileShader { shader },
            CompileStage::Status { shader } => Call::GetShaderiv {
                shader,
                parameter: COMPILE_STATUS,
                preset: 1,
            },
            CompileStage::LogLength { shader } => Call::GetShaderiv {
                shader,
                parameter: INFO_LOG_LENGTH,
                preset: 0,
            },
            CompileStage::Log { shader, capacity } => Call::GetShaderInfoLog {
                shader,
                capacity,
                buffer: blank(capacity as nat),
            },
            CompileStage::Discard { shader, message } => Call::DeleteShader { shader },
        }
    }

    /// The compilation after `reply`. A reply that is not of the kind that
    /// answers the pending call changes nothing.
    open spec fn advance(self, reply: ReplyModel) -> CompileProgressModel {
        match (self.stage, reply) {
            (CompileStage::Create, Reply::Handle(shader)) => Progress::Pending(
                self.at(CompileStage::Upload { shader }),
            ),
            (CompileStage::Upload { shader }, Reply::Performed) => Progress::Pending(
                self.at(CompileStage::Compile { shader }),
            ),
            (CompileStage::Compile { shader }, Reply::Performed) => Progress::Pending(
                self.at(CompileStage::Status { shader }),
            ),
            (CompileStage::Status { shader }, Reply::Value(status)) => if status != 0 {
                Progress::Done(Ok(shader))
            } else {
                Progress::Pending(self.at(CompileStage::LogLength { shader }))
            },
            (CompileStage::LogLength { shader }, Reply::Value(length)) => Progress::Pending(
                self.at(CompileStage::Log { shader, capacity: log_capacity(length) }),
            ),
            (CompileStage::Log { shader, capacity }, Reply::Log(bytes)) => Progress::Pending(
                self.at(CompileStage::Discard { shader, message: lossy_text(bytes) }),
            ),
            (CompileStage::Discard { shader, message }, Reply::Performed) => Progress::Done(
                Err(message),
            ),
            _ => Progress::Pending(self),
        }
    }

    /// The calls from this stage to the end of the longest way on.
    open spec fn remaining(self) -> nat {
        match self.stage {
            CompileStage::Create => 7,
            CompileStage::Upload { .. } => 6,
            CompileStage::Compile { .. } => 5,
            CompileStage::Status { .. } => 4,
            CompileStage::LogLength { .. } => 3,
            CompileStage::Log { .. } => 2,
            CompileStage::Discard { .. } => 1,
        }
    }

    /// Nothing is asked of a compilation.
    open spec fn well_formed(self) -> bool {
        true
    }

    proof fn reply_draws_nearer(self, reply: ReplyModel) {
    }
}

/// A compilation under way: the source, the kind, and what it waits for.
#[derive(Debug)]
pub struct Compilation {
    source: Source,
    kind: ShaderKind,
    stage: CompileStage,
}

impl View for Compilation {
    type V = CompilationModel;

    closed spec fn view(&self) -> CompilationModel {
        CompilationModel {
            source: self.source@,
            kind: self.kind,
            stage: match self.stage {
                CompileStage::Create => CompileStage::Create,
                CompileStage::Upload { shader } => CompileStage::Upload { shader },
                CompileStage::Compile { shader } => CompileStage::Compile { shader },
                CompileStage::Status { shader } => CompileStage::Status { shader },
                CompileStage::LogLength { shader } => CompileStage::LogLength { shader },
                CompileStage::Log { shader, capacity } => CompileStage::Log { shader, capacity },
                CompileStage::Discard { shader, message } => CompileStage::Discard {
                    shader,
                    message: message@,
                },
            },
        }
    }
}

impl Compilation {
    #[verifier::type_invariant]
    spec fn capacity_is_a_length(&self) -> bool {
        self.stage matches CompileStage::Log { capacity, .. } ==> capacity >= 0
    }

    /// The call to make next. A source that it uploads holds no zero byte.
    pub fn request(&self) -> (call: Call)
        ensures
            call@ == self@.request(),
            call@ matches Call::ShaderSource { source, .. } ==> zero_free(source),
    {
        proof {
            use_type_invariant(self);
        }
        match &self.stage {
            CompileStage::Create => Call::CreateShader { kind: self.kind.native() },
            CompileStage::Upload { shader } => Call::ShaderSource {
                shader: *shader,
                source: self.source.as_bytes().clone(),
            },
            CompileStage::Compile { shader } => Call::CompileShader { shader: *shader },
            CompileStage::Status { shader } => Call::GetShaderiv {
                shader: *shader,
                parameter: COMPILE_STATUS,
                preset: 1,
            },
            CompileStage::LogLength { shader } => Call::GetShaderiv {
                shader: *shader,
                parameter: INFO_LOG_LENGTH,
                preset: 0,
            },
            CompileStage::Log { shader, capacity } => Call::GetShaderInfoLog {
                shader: *shader,
                capacity: *capacity,
                buffer: whitespace_buffer(*capacity as usize),
            },
            CompileStage::Discard { shader, .. } => Call::DeleteShader { shader: *shader },
        }
    }

    /// Takes the driver's reply to the pending call and moves on: to the next
    /// call, to the compiled shader, or to the driver's diagnostic.
    ///
    /// The shader is compiled when the driver reports a status other than zero.
    /// On a status of zero the info log is read into a buffer of the length
    /// that the driver gives, the rejected object is deleted, and the log comes
    /// back as text.
    pub fn advance(self, reply: Reply) -> (progress: Progress<Compilation, Shader>)
        ensures
            progress@ == self@.advance(reply@),
            self@.stage is Log ==> (reply@ matches Reply::Log(log) ==> speaks_for(
                lossy_text(log),
                log,
            )),
    {
        proof {
            use_type_invariant(&self);
        }
        let Compilation { source, kind, stage } = self;
        match (stage, reply) {
            (CompileStage::Create, Reply::Handle(shader)) => Progress::Pending(
                Compilation { source, kind, stage: CompileStage::Upload { shader } },
            ),
            (CompileStage::Upload { shader }, Reply::Performed) => Progress::Pending(
                Compilation { source, kind, stage: CompileStage::Compile { shader } },
            ),
            (CompileStage::Compile { shader }, Reply::Performed) => Progress::Pending(
                Compilation { source, kind, stage: CompileStage::Status { shader } },
            ),
            (CompileStage::Status { shader }, Reply::Value(status)) => {
                if status != 0 {
                    Progress::Done(Ok(Shader { id: shader }))
                } else {
                    Progress::Pending(
                        Compilation { source, kind, stage: CompileStage::LogLength { shader } },
                    )
                }
            },
            (CompileStage::LogLength { shader }, Reply::Value(length)) => {
                let capacity: i32 = capacity_for(length);
                Progress::Pending(
                    Compilation { source, kind, stage: CompileStage::Log { shader, capacity } },
                )
            },
            (CompileStage::Log { shader, capacity }, Reply::Log(bytes)) => {
                let message = decode_lossy(&bytes);
                Progress::Pending(
                    Compilation { source, kind, stage: CompileStage::Discard { shader, message } },
                )
            },
            (CompileStage::Discard { shader, message }, Reply::Performed) => Progress::Done(
                Err(message),
            ),
            (stage, _) => Progress::Pending(Compilation { source, kind, stage }),
        }
    }
}

impl Shader {
    /// Begins the compilation of `source` as a shader of the given kind.
    pub fn from_source(source: &Source, kind: ShaderKind) -> (session: Compilation)
        ensures
            session@ == CompilationModel::start(source@, kind),
    {
        Compilation { source: source.duplicate(), kind, stage: CompileStage::Create }
    }

    /// Begins the compilation of `source` as a vertex shader.
    pub fn from_vert_source(source: &Source) -> (session: Compilation)
        ensures
            session@ == CompilationModel::start(source@, ShaderKind::Vertex),
    {
        Shader::from_source(source, ShaderKind::Vertex)
    }

    /// Begins the compilation of `source` as a fragment shader.
    pub fn from_frag_source(source: &Source) -> (session: Compilation)
        ensures
            session@ == CompilationModel::start(source@, ShaderKind::Fragment),
    {
        Shader::from_source(source, ShaderKind::Fragment)
    }

    /// The shader object's handle.
    pub fn id(&self) -> (handle: u32)
        ensures
            handle == self@,
    {
        self.id
    }

    /// Gives the shader up: the one call that frees its object.
    pub fn release(self) -> (call: Call)
        ensures
            call@ == (CallModel::DeleteShader { shader: self@ }),
    {
        Call::DeleteShader { shader: self.id }
    }

    /// Gives up every shader of a collection: as many calls as there are
    /// shaders, the i-th freeing the object of the i-th.
    pub fn release_all(shaders: Vec<Shader>) -> (calls: Vec<Call>)
        ensures
            calls@.len() == shaders@.len(),
            forall|i: int|
                0 <= i < shaders@.len() ==> (#[trigger] calls@[i])@ == release_calls(
                    handles(shaders@),
                )[i],
    {
        let mut calls: Vec<Call> = Vec::with_capacity(shaders.len());
        let mut at: usize = 0;
        while at < shaders.len()
            invariant
                at <= shaders.len(),
                calls@.len() == at,
                forall|i: int|
                    0 <= i < at ==> (#[trigger] calls@[i])@ == (CallModel::DeleteShader {
                        shader: shaders@[i]@,
                    }),
            decreases shaders.len() - at,
        {
            calls.push(Call::DeleteShader { shader: shaders[at].id() });
            at = at + 1;
        }
        calls
    }
}

/// The replies of a driver that takes the source: the new handle, the upload,
/// the compiler's run, and a status other than zero.
pub open spec fn accepting(shader: u32, status: i32) -> Seq<ReplyModel> {
    seq![Reply::Handle(shader), Reply::Performed, Reply::Performed, Reply::Value(status)]
}

/// The replies of a driver that refuses the source: the new handle, the
/// upload, the compiler's run, a status of zero, the length of the log, the
/// log, and the deletion.
pub open spec fn refusing(shader: u32, length: i32, log: Seq<u8>) -> Seq<ReplyModel> {
    seq![
        Reply::Handle(shader),
        Reply::Performed,
        Reply::Performed,
        Reply::Value(0),
        Reply::Value(length),
        Reply::Log(log),
        Reply::Performed,
    ]
}

/// A compilation that the driver accepts makes four calls, in this order:
/// create, upload, compile, read the status. It ends with the handle that the
/// driver gave at creation, so with a handle other than zero wherever the
/// driver gave one. No log is read.
pub proof fn accepted_source_gives_the_created_shader(
    source: Seq<u8>,
    kind: ShaderKind,
    shader: u32,
    status: i32,
)
    requires
        status != 0,
    ensures
        run(CompilationModel::start(source, kind), accepting(shader, status)) == Progress::<
            CompilationModel,
            u32,
            Seq<char>,
        >::Done(Ok(shader)),
        calls(CompilationModel::start(source, kind), accepting(shader, status)) == seq![
            CallModel::CreateShader { kind: kind.native() },
            CallModel::ShaderSource { shader, source },
            CallModel::CompileShader { shader },
            CallModel::GetShaderiv { shader, parameter: COMPILE_STATUS, preset: 1 },
        ],
{
    let start = CompilationModel::start(source, kind);
    let none = Seq::<ReplyModel>::empty();
    let last = seq![Reply::Value(status)] + none;
    let third = seq![Reply::Performed] + last;
    let second = seq![Reply::Performed] + third;
    assert(accepting(shader, status) =~= seq![Reply::Handle(shader)] + second);
    run_from_first(start, Reply::Handle(shader), second);
    run_from_first(start.at(CompileStage::Upload { shader }), Reply::Performed, third);
    run_from_first(start.at(CompileStage::Compile { shader }), Reply::Performed, last);
    run_from_first(start.at(CompileStage::Status { shader }), Reply::Value(status), none);
    assert(calls(start, accepting(shader, status)) =~= seq![
        CallModel::CreateShader { kind: kind.native() },
        CallModel::ShaderSource { shader, source },
        CallModel::CompileShader { shader },
        CallModel::GetShaderiv { shader, parameter: COMPILE_STATUS, preset: 1 },
    ]);
}

/// A compilation that the driver refuses makes seven calls, in this order:
/// create, upload, compile, read the status, read the length of the log, have
/// the log written over a buffer of exactly that many spaces, delete the
/// shader object. It ends with the text of the buffer as the driver left it.
pub proof fn refused_source_gives_the_log(
    source: Seq<u8>,
    kind: ShaderKind,
    shader: u32,
    length: i32,
    log: Seq<u8>,
)
    ensures
        run(CompilationModel::start(source, kind), refusing(shader, length, log)) == Progress::<
            CompilationModel,
            u32,
            Seq<char>,
        >::Done(Err(lossy_text(log))),
        calls(CompilationModel::start(source, kind), refusing(shader, length, log)) == seq![
            CallModel::CreateShader { kind: kind.native() },
            CallModel::ShaderSource { shader, source },
            CallModel::CompileShader { shader },
            CallModel::GetShaderiv { shader, parameter: COMPILE_STATUS, preset: 1 },
            CallModel::GetShaderiv { shader, parameter: INFO_LOG_LENGTH, preset: 0 },
            CallModel::GetShaderInfoLog {
                shader,
                capacity: log_capacity(length),
                buffer: blank(log_capacity(length) as nat),
            },
            CallModel::DeleteShader { shader },
        ],
{
    let start = CompilationModel::start(source, kind);
    let capacity = log_capacity(length);
    let message = lossy_text(log);
    let none = Seq::<ReplyModel>::empty();
    let seventh = seq![Reply::Performed] + none;
    let sixth = seq![Reply::Log(log)] + seventh;
    let fifth = seq![Reply::Value(length)] + sixth;
    let fourth = seq![Reply::Value(0)] + fifth;
    let third = seq![Reply::Performed] + fourth;
    let second = seq![Reply::Performed] + third;
    assert(refusing(shader, length, log) =~= seq![Reply::Handle(shader)] + second);
    run_from_first(start, Reply::Handle(shader), second);
    run_from_first(start.at(CompileStage::Upload { shader }), Reply::Performed, third);
    run_from_first(start.at(CompileStage::Compile { shader }), Reply::Performed, fourth);
    run_from_first(start.at(CompileStage::Status { shader }), Reply::Value(0), fifth);
    run_from_first(start.at(CompileStage::LogLength { shader }), Reply::Value(length), sixth);
    run_from_first(start.at(CompileStage::Log { shader, capacity }), Reply::Log(log), seventh);
    run_from_first(start.at(CompileStage::Discard { shader, message }), Reply::Performed, none);
    assert(calls(start, refusing(shader, length, log)) =~= seq![
        CallModel::CreateShader { kind: kind.native() },
        CallModel::ShaderSource { shader, source },
        CallModel::CompileShader { shader },
        CallModel::GetShaderiv { shader, parameter: COMPILE_STATUS, preset: 1 },
        CallModel::GetShaderiv { shader, parameter: INFO_LOG_LENGTH, preset: 0 },
        CallModel::GetShaderInfoLog { shader, capacity, buffer: blank(capacity as nat) },
        CallModel::DeleteShader { shader },
    ]);
}

} // verus!
