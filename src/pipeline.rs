//! Building a program from a vertex and a fragment stage, as a state machine.
//!
//! The caller makes the driver calls: it performs each `Action` that the
//! build hands out and feeds back what came of it as an `Event`. The build
//! decides everything else: which stage comes next, when a diagnostic log is
//! fetched, which error ends the build, and which objects are released.

use vstd::prelude::*;
use vstd::utf8::{decode_utf8, valid_utf8};
use crate::info_log::{ascii_chars, decode_log, is_ascii_bytes, lemma_ascii_decodes, log_bytes};
use crate::shader::Shader;

verus! {

/// One of the two stages of a program.
#[derive(Clone, Copy, Debug, PartialEq, Eq, Structural)]
pub enum Stage {
    Vertex,
    Fragment,
}

/// Why a build failed. Each ends the build: nothing is retried.
pub enum BuildError {
    /// The source file of a stage could not be opened or read.
    SourceLoadFailure { stage: Stage, path: String },
    /// A stage did not compile; `log` is the compiler's diagnostic.
    CompileFailure { stage: Stage, log: String },
    /// The stages did not link; `log` is the linker's diagnostic.
    LinkFailure { log: String },
    /// A stage did not compile, and its diagnostic is not UTF-8 text.
    UnreadableCompileLog { stage: Stage },
    /// The stages did not link, and the diagnostic is not UTF-8 text.
    UnreadableLinkLog,
}

/// What came of the last action.
pub enum Event {
    /// The text of a source file, or `None` where it could not be read.
    SourceLoaded { source: Option<String> },
    /// A stage object was made from the source and compiled; `succeeded` is
    /// its compile status.
    Compiled { shader: u32, succeeded: bool },
    /// A program object was made, both stages attached and linked;
    /// `succeeded` is its link status.
    Linked { program: u32, succeeded: bool },
    /// A diagnostic log: the length that the driver reported, which counts a
    /// trailing terminator, and the buffer that it filled.
    InfoLog { reported: i32, buffer: Vec<u8> },
    /// An object was released.
    Deleted,
}

/// What the build asks of the caller next.
pub enum Action {
    /// Read the source file of a stage.
    LoadSource { stage: Stage, path: String },
    /// Make a stage object from the source and compile it.
    Compile { stage: Stage, source: String },
    /// Fetch the diagnostic log of a stage object.
    FetchShaderLog { shader: u32 },
    /// Make a program object, attach both stages, and link it.
    Link { vertex: u32, fragment: u32 },
    /// Fetch the diagnostic log of a program object.
    FetchProgramLog { program: u32 },
    /// Release a stage object.
    DeleteShader { shader: u32 },
    /// The build is over, with this outcome.
    Finish { result: Result<Shader, BuildError> },
}

/// Where a build stands, with the driver objects that it still needs.
#[derive(Clone, Copy, Debug, PartialEq, Eq, Structural)]
pub enum Phase {
    LoadingVertex,
    CompilingVertex,
    ReadingVertexLog,
    LoadingFragment { vertex: u32 },
    CompilingFragment { vertex: u32 },
    ReadingFragmentLog,
    Linking { vertex: u32, fragment: u32 },
    ReadingLinkLog,
    DeletingVertex { program: u32, fragment: u32 },
    DeletingFragment { program: u32 },
    Finished,
}

/// A build in progress.
pub struct ShaderBuild {
    pub vertex_path: String,
    pub fragment_path: String,
    pub phase: Phase,
}

/// `act` ends the build on the log of a failed compile of `stage`: the log's
/// text where it decodes, else the error that says it does not.
pub open spec fn ends_on_compile_log(act: Action, stage: Stage, reported: i32, buffer: Seq<u8>) -> bool {
    let text = log_bytes(reported, buffer);
    match act {
        Action::Finish { result: Err(BuildError::CompileFailure { stage: s, log }) } =>
            s == stage && valid_utf8(text) && log@ == decode_utf8(text),
        Action::Finish { result: Err(BuildError::UnreadableCompileLog { stage: s }) } =>
            s == stage && !valid_utf8(text),
        _ => false,
    }
}

/// `act` ends the build on the log of a failed link.
pub open spec fn ends_on_link_log(act: Action, reported: i32, buffer: Seq<u8>) -> bool {
    let text = log_bytes(reported, buffer);
    match act {
        Action::Finish { result: Err(BuildError::LinkFailure { log }) } =>
            valid_utf8(text) && log@ == decode_utf8(text),
        Action::Finish { result: Err(BuildError::UnreadableLinkLog) } => !valid_utf8(text),
        _ => false,
    }
}

/// `act` ends the build with a compile failure of `stage` whose log is
/// `text`.
pub open spec fn fails_compile_with(act: Action, stage: Stage, text: Seq<char>) -> bool {
    match act {
        Action::Finish { result: Err(BuildError::CompileFailure { stage: s, log }) } =>
            s == stage && log@ == text,
        _ => false,
    }
}

/// `act` ends the build with a link failure whose log is `text`.
pub open spec fn fails_link_with(act: Action, text: Seq<char>) -> bool {
    match act {
        Action::Finish { result: Err(BuildError::LinkFailure { log }) } => log@ == text,
        _ => false,
    }
}

/// `act` asks for the source file of `stage` at `path`.
pub open spec fn loads(act: Action, stage: Stage, path: Seq<char>) -> bool {
    match act {
        Action::LoadSource { stage: s, path: p } => s == stage && p@ == path,
        _ => false,
    }
}

/// `act` ends the build because the source file of `stage` at `path` could
/// not be read.
pub open spec fn ends_on_missing_source(act: Action, stage: Stage, path: Seq<char>) -> bool {
    match act {
        Action::Finish { result: Err(BuildError::SourceLoadFailure { stage: s, path: p }) } =>
            s == stage && p@ == path,
        _ => false,
    }
}

impl ShaderBuild {
    /// The events that answer the action last handed out.
    pub open spec fn expects(self, ev: Event) -> bool {
        match self.phase {
            Phase::LoadingVertex => ev is SourceLoaded,
            Phase::LoadingFragment { .. } => ev is SourceLoaded,
            Phase::CompilingVertex => ev is Compiled,
            Phase::CompilingFragment { .. } => ev is Compiled,
            Phase::ReadingVertexLog => ev is InfoLog,
            Phase::ReadingFragmentLog => ev is InfoLog,
            Phase::ReadingLinkLog => ev is InfoLog,
            Phase::Linking { .. } => ev is Linked,
            Phase::DeletingVertex { .. } => ev is Deleted,
            Phase::DeletingFragment { .. } => ev is Deleted,
            Phase::Finished => false,
        }
    }

    /// One step of the build: from `self`, event `ev` leads to `next`, which
    /// hands out `act`.
    pub open spec fn steps_to(self, ev: Event, next: ShaderBuild, act: Action) -> bool {
        &&& next.vertex_path == self.vertex_path
        &&& next.fragment_path == self.fragment_path
        &&& match self.phase {
            Phase::LoadingVertex => match ev {
                Event::SourceLoaded { source: Some(src) } =>
                    next.phase == Phase::CompilingVertex
                    && act == (Action::Compile { stage: Stage::Vertex, source: src }),
                Event::SourceLoaded { source: None } =>
                    next.phase == Phase::Finished
                    && ends_on_missing_source(act, Stage::Vertex, self.vertex_path@),
                _ => false,
            },
            Phase::CompilingVertex => match ev {
                Event::Compiled { shader, succeeded } =>
                    if succeeded {
                        next.phase == (Phase::LoadingFragment { vertex: shader })
                        && loads(act, Stage::Fragment, self.fragment_path@)
                    } else {
                        next.phase == Phase::ReadingVertexLog
                        && act == (Action::FetchShaderLog { shader })
                    },
                _ => false,
            },
            Phase::ReadingVertexLog => match ev {
                Event::InfoLog { reported, buffer } =>
                    next.phase == Phase::Finished
                    && ends_on_compile_log(act, Stage::Vertex, reported, buffer@),
                _ => false,
            },
            Phase::LoadingFragment { vertex } => match ev {
                Event::SourceLoaded { source: Some(src) } =>
                    next.phase == (Phase::CompilingFragment { vertex })
                    && act == (Action::Compile { stage: Stage::Fragment, source: src }),
                Event::SourceLoaded { source: None } =>
                    next.phase == Phase::Finished
                    && ends_on_missing_source(act, Stage::Fragment, self.fragment_path@),
                _ => false,
            },
            Phase::CompilingFragment { vertex } => match ev {
                Event::Compiled { shader, succeeded } =>
                    if succeeded {
                        next.phase == (Phase::Linking { vertex, fragment: shader })
                        && act == (Action::Link { vertex, fragment: shader })
                    } else {
                        next.phase == Phase::ReadingFragmentLog
                        && act == (Action::FetchShaderLog { shader })
                    },
                _ => false,
            },
            Phase::ReadingFragmentLog => match ev {
                Event::InfoLog { reported, buffer } =>
                    next.phase == Phase::Finished
                    && ends_on_compile_log(act, Stage::Fragment, reported, buffer@),
                _ => false,
            },
            Phase::Linking { vertex, fragment } => match ev {
                Event::Linked { program, succeeded } =>
                    if succeeded {
                        next.phase == (Phase::DeletingVertex { program, fragment })
                        && act == (Action::DeleteShader { shader: vertex })
                    } else {
                        next.phase == Phase::ReadingLinkLog
                        && act == (Action::FetchProgramLog { program })
                    },
                _ => false,
            },
            Phase::ReadingLinkLog => match ev {
                Event::InfoLog { reported, buffer } =>
                    next.phase == Phase::Finished
                    && ends_on_link_log(act, reported, buffer@),
                _ => false,
            },
            Phase::DeletingVertex { program, fragment } => match ev {
                Event::Deleted =>
                    next.phase == (Phase::DeletingFragment { program })
                    && act == (Action::DeleteShader { shader: fragment }),
                _ => false,
            },
            Phase::DeletingFragment { program } => match ev {
                Event::Deleted =>
                    next.phase == Phase::Finished
                    && act == (Action::Finish { result: Ok(Shader { id: program }) }),
                _ => false,
            },
            Phase::Finished => false,
        }
    }

    /// Whether `ev` answers the action last handed out.
    pub fn accepts(&self, ev: &Event) -> (r: bool)
        ensures
            r == self.expects(*ev),
    {
        match self.phase {
            Phase::LoadingVertex | Phase::LoadingFragment { .. } => matches!(ev, Event::SourceLoaded { .. }),
            Phase::CompilingVertex | Phase::CompilingFragment { .. } => matches!(ev, Event::Compiled { .. }),
            Phase::ReadingVertexLog | Phase::ReadingFragmentLog | Phase::ReadingLinkLog => matches!(ev, Event::InfoLog { .. }),
            Phase::Linking { .. } => matches!(ev, Event::Linked { .. }),
            Phase::DeletingVertex { .. } | Phase::DeletingFragment { .. } => matches!(ev, Event::Deleted),
            Phase::Finished => false,
        }
    }

    /// Takes the build one step on: `ev` answers the action last handed out,
    /// and the result is the next one.
    pub fn resume(&mut self, ev: Event) -> (act: Action)
        requires
            old(self).expects(ev),
        ensures
            old(self).steps_to(ev, *final(self), act),
    {
        match self.phase {
            Phase::LoadingVertex => match ev {
                Event::SourceLoaded { source: Some(src) } => {
                    self.phase = Phase::CompilingVertex;
                    Action::Compile { stage: Stage::Vertex, source: src }
                },
                _ => {
                    self.phase = Phase::Finished;
                    let path = self.vertex_path.clone();
                    Action::Finish {
                        result: Err(BuildError::SourceLoadFailure { stage: Stage::Vertex, path }),
                    }
                },
            },
            Phase::CompilingVertex => match ev {
                Event::Compiled { shader, succeeded } => {
                    if succeeded {
                        self.phase = Phase::LoadingFragment { vertex: shader };
                        let path = self.fragment_path.clone();
                        Action::LoadSource { stage: Stage::Fragment, path }
                    } else {
                        self.phase = Phase::ReadingVertexLog;
                        Action::FetchShaderLog { shader }
                    }
                },
                _ => unreached(),
            },
            Phase::ReadingVertexLog => match ev {
                Event::InfoLog { reported, buffer } => {
                    self.phase = Phase::Finished;
                    compile_failure(Stage::Vertex, decode_log(reported, buffer))
                },
                _ => unreached(),
            },
            Phase::LoadingFragment { vertex } => match ev {
                Event::SourceLoaded { source: Some(src) } => {
                    self.phase = Phase::CompilingFragment { vertex };
                    Action::Compile { stage: Stage::Fragment, source: src }
                },
                _ => {
                    self.phase = Phase::Finished;
                    let path = self.fragment_path.clone();
                    Action::Finish {
                        result: Err(BuildError::SourceLoadFailure { stage: Stage::Fragment, path }),
                    }
                },
            },
            Phase::CompilingFragment { vertex } => match ev {
                Event::Compiled { shader, succeeded } => {
                    if succeeded {
                        self.phase = Phase::Linking { vertex, fragment: shader };
                        Action::Link { vertex, fragment: shader }
                    } else {
                        self.phase = Phase::ReadingFragmentLog;
                        Action::FetchShaderLog { shader }
                    }
                },
                _ => unreached(),
            },
            Phase::ReadingFragmentLog => match ev {
                Event::InfoLog { reported, buffer } => {
                    self.phase = Phase::Finished;
                    compile_failure(Stage::Fragment, decode_log(reported, buffer))
                },
                _ => unreached(),
            },
            Phase::Linking { vertex, fragment } => match ev {
                Event::Linked { program, succeeded } => {
                    if succeeded {
                        self.phase = Phase::DeletingVertex { program, fragment };
                        Action::DeleteShader { shader: vertex }
                    } else {
                        self.phase = Phase::ReadingLinkLog;
                        Action::FetchProgramLog { program }
                    }
                },
                _ => unreached(),
            },
            Phase::ReadingLinkLog => match ev {
                Event::InfoLog { reported, buffer } => {
                    self.phase = Phase::Finished;
                    link_failure(decode_log(reported, buffer))
                },
                _ => unreached(),
            },
            Phase::DeletingVertex { program, fragment } => {
                self.phase = Phase::DeletingFragment { program };
                Action::DeleteShader { shader: fragment }
            },
            Phase::DeletingFragment { program } => {
                self.phase = Phase::Finished;
                Action::Finish { result: Ok(Shader { id: program }) }
            },
            Phase::Finished => unreached(),
        }
    }
}

/// The end of a build on the log of a failed compile of `stage`, given that
/// log decoded: `None` where it was not UTF-8 text.
pub fn compile_failure(stage: Stage, text: Option<String>) -> (act: Action)
    ensures
        act == (match text {
            Some(log) => Action::Finish { result: Err(BuildError::CompileFailure { stage, log }) },
            None => Action::Finish { result: Err(BuildError::UnreadableCompileLog { stage }) },
        }),
{
    match text {
        Some(log) => Action::Finish { result: Err(BuildError::CompileFailure { stage, log }) },
        None => Action::Finish { result: Err(BuildError::UnreadableCompileLog { stage }) },
    }
}

/// The end of a build on the log of a failed link, given that log decoded:
/// `None` where it was not UTF-8 text.
pub fn link_failure(text: Option<String>) -> (act: Action)
    ensures
        act == (match text {
            Some(log) => Action::Finish { result: Err(BuildError::LinkFailure { log }) },
            None => Action::Finish { result: Err(BuildError::UnreadableLinkLog) },
        }),
{
    match text {
        Some(log) => Action::Finish { result: Err(BuildError::LinkFailure { log }) },
        None => Action::Finish { result: Err(BuildError::UnreadableLinkLog) },
    }
}

impl Shader {
    /// Starts building a program from the vertex source at `vertex_path` and
    /// the fragment source at `fragment_path`. The first action reads the
    /// vertex source.
    pub fn new(vertex_path: &str, fragment_path: &str) -> (r: (ShaderBuild, Action))
        ensures
            r.0.phase == Phase::LoadingVertex,
            r.0.vertex_path@ == vertex_path@,
            r.0.fragment_path@ == fragment_path@,
            loads(r.1, Stage::Vertex, vertex_path@),
    {
        let build = ShaderBuild {
            vertex_path: String::from_str(vertex_path),
            fragment_path: String::from_str(fragment_path),
            phase: Phase::LoadingVertex,
        };
        let path = String::from_str(vertex_path);
        (build, Action::LoadSource { stage: Stage::Vertex, path })
    }
}

/// `ph` compiles `stage`.
pub open spec fn compiling(ph: Phase, stage: Stage) -> bool {
    match ph {
        Phase::CompilingVertex => stage == Stage::Vertex,
        Phase::CompilingFragment { .. } => stage == Stage::Fragment,
        _ => false,
    }
}

/// `actions`, `builds` and `events` are a run of one build: `actions[0]` was
/// handed out with `builds[0]`, and event `i` took `builds[i]` to
/// `builds[i + 1]`, which handed out `actions[i + 1]`.
pub open spec fn is_run(builds: Seq<ShaderBuild>, events: Seq<Event>, actions: Seq<Action>) -> bool {
    &&& builds.len() == events.len() + 1
    &&& actions.len() == events.len() + 1
    &&& forall|i: int|
        0 <= i < events.len() ==> builds[i].steps_to(#[trigger] events[i], builds[i + 1], actions[i + 1])
}

/// The driver reports success in `ev`: a source was read, a stage compiled,
/// or the program linked under a non-zero handle.
pub open spec fn reports_success(ev: Event) -> bool {
    match ev {
        Event::SourceLoaded { source } => source is Some,
        Event::Compiled { succeeded, .. } => succeeded,
        Event::Linked { program, succeeded } => succeeded && program != 0,
        Event::InfoLog { .. } => false,
        Event::Deleted => true,
    }
}

/// `act` fetches no diagnostic, and is no failure: where it ends the build,
/// it hands out a program of non-zero handle.
pub open spec fn quiet(act: Action) -> bool {
    match act {
        Action::FetchShaderLog { .. } => false,
        Action::FetchProgramLog { .. } => false,
        Action::Finish { result: Ok(s) } => s.id != 0,
        Action::Finish { result: Err(_) } => false,
        _ => true,
    }
}

spec fn quiet_phase(ph: Phase) -> bool {
    match ph {
        Phase::ReadingVertexLog => false,
        Phase::ReadingFragmentLog => false,
        Phase::ReadingLinkLog => false,
        Phase::DeletingVertex { program, .. } => program != 0,
        Phase::DeletingFragment { program } => program != 0,
        _ => true,
    }
}

proof fn lemma_quiet_prefix(builds: Seq<ShaderBuild>, events: Seq<Event>, actions: Seq<Action>, n: int)
    requires
        is_run(builds, events, actions),
        builds[0].phase == Phase::LoadingVertex,
        actions[0] is LoadSource,
        forall|i: int| 0 <= i < events.len() ==> reports_success(#[trigger] events[i]),
        0 <= n < actions.len(),
    ensures
        quiet_phase(builds[n].phase),
        quiet(actions[n]),
    decreases n,
{
    if n > 0 {
        lemma_quiet_prefix(builds, events, actions, n - 1);
        assert(builds[n - 1].steps_to(events[n - 1], builds[n], actions[n]));
        assert(reports_success(events[n - 1]));
    }
}

/// A build from its start, on which the driver reports success at every
/// step, fetches no diagnostic and does not fail: where it finishes, it
/// hands out a program of non-zero handle.
pub proof fn lemma_clean_build(builds: Seq<ShaderBuild>, events: Seq<Event>, actions: Seq<Action>)
    requires
        is_run(builds, events, actions),
        builds[0].phase == Phase::LoadingVertex,
        actions[0] is LoadSource,
        forall|i: int| 0 <= i < events.len() ==> reports_success(#[trigger] events[i]),
    ensures
        forall|i: int| 0 <= i < actions.len() ==> quiet(#[trigger] actions[i]),
{
    assert forall|i: int| 0 <= i < actions.len() implies quiet(#[trigger] actions[i]) by {
        lemma_quiet_prefix(builds, events, actions, i);
    }
}

/// A stage that fails to compile is answered by fetching that stage object's
/// own log, and the log that comes back ends the build with a compile
/// failure of that stage which carries the log's text; an ASCII log comes
/// back character for byte.
pub proof fn lemma_compile_failure_carries_log(
    b0: ShaderBuild,
    stage: Stage,
    shader: u32,
    b1: ShaderBuild,
    a1: Action,
    reported: i32,
    buffer: Vec<u8>,
    b2: ShaderBuild,
    a2: Action,
)
    requires
        compiling(b0.phase, stage),
        b0.steps_to(Event::Compiled { shader, succeeded: false }, b1, a1),
        b1.steps_to(Event::InfoLog { reported, buffer }, b2, a2),
    ensures
        a1 == (Action::FetchShaderLog { shader }),
        b2.phase == Phase::Finished,
        ends_on_compile_log(a2, stage, reported, buffer@),
        valid_utf8(log_bytes(reported, buffer@)) ==>
            fails_compile_with(a2, stage, decode_utf8(log_bytes(reported, buffer@))),
        is_ascii_bytes(log_bytes(reported, buffer@)) ==>
            fails_compile_with(a2, stage, ascii_chars(log_bytes(reported, buffer@))),
{
    if is_ascii_bytes(log_bytes(reported, buffer@)) {
        lemma_ascii_decodes(log_bytes(reported, buffer@));
    }
}

/// Where the stages compile and the link fails, the log fetched is the
/// program's, not a stage's, and the build ends with a link failure which
/// carries that log's text; an ASCII log comes back character for byte.
pub proof fn lemma_link_failure_carries_link_log(
    b0: ShaderBuild,
    program: u32,
    b1: ShaderBuild,
    a1: Action,
    reported: i32,
    buffer: Vec<u8>,
    b2: ShaderBuild,
    a2: Action,
)
    requires
        b0.phase is Linking,
        b0.steps_to(Event::Linked { program, succeeded: false }, b1, a1),
        b1.steps_to(Event::InfoLog { reported, buffer }, b2, a2),
    ensures
        a1 == (Action::FetchProgramLog { program }),
        b2.phase == Phase::Finished,
        ends_on_link_log(a2, reported, buffer@),
        !(a2 is Finish && a2->result is Err && a2->result->Err_0 is CompileFailure),
        is_ascii_bytes(log_bytes(reported, buffer@)) ==>
            fails_link_with(a2, ascii_chars(log_bytes(reported, buffer@))),
{
    if is_ascii_bytes(log_bytes(reported, buffer@)) {
        lemma_ascii_decodes(log_bytes(reported, buffer@));
    }
}

} // verus!
