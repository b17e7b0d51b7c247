//! Shader programs: the uniform writes they make, and the steps that build one.

#![allow(non_snake_case)]
#![allow(non_camel_case_types)]

use vstd::prelude::*;
use crate::gl_command::GlCommand;

verus! {

/// A linked shader program, known by its driver handle; 0 means not built yet.
#[derive(Debug)]
pub struct Shader_M {
    pub programId: u32,
}

/// The program type of the simpler examples; it is the same program handle.
pub type Shader_S = Shader_M;

impl Shader_M {
    /// A program that is not built yet.
    pub fn new() -> (s: Shader_M)
        ensures
            s.programId == 0,
    {
        Shader_M { programId: 0 }
    }

    /// The command that makes this program the active one.
    pub fn use_shader(&self) -> (c: GlCommand)
        ensures
            c == (GlCommand::UseProgram { program: self.programId }),
    {
        GlCommand::UseProgram { program: self.programId }
    }

    /// The command that sets the integer uniform `name` to `value`.
    pub fn setInt(&self, name: &str, value: i32) -> (c: GlCommand)
        ensures
            c matches GlCommand::SetUniformInt { program, name: n, value: v }
                && program == self.programId && n@ == name@ && v == value,
    {
        GlCommand::SetUniformInt { program: self.programId, name: String::from_str(name), value }
    }

    /// The command that sets the boolean uniform `name`: 1 for true, 0 for false.
    pub fn setBool(&self, name: &str, value: bool) -> (c: GlCommand)
        ensures
            c matches GlCommand::SetUniformInt { program, name: n, value: v }
                && program == self.programId && n@ == name@ && v == (if value { 1i32 } else { 0i32 }),
    {
        let v: i32 = if value { 1 } else { 0 };
        self.setInt(name, v)
    }
}

} // verus!

verus! {

/// The two stages of a program.
#[derive(Debug, Clone, Copy, PartialEq, Eq, Structural)]
pub enum ShaderStage {
    Vertex,
    Fragment,
}

/// Why a program could not be built. Driver diagnostics are kept verbatim.
#[derive(Debug, PartialEq, Eq)]
pub enum BuildError {
    /// A source file could not be read as text.
    Io { path: String, message: String },
    /// A stage did not compile; `log` is the compiler's diagnostic.
    CompileFailed { stage: ShaderStage, log: String },
    /// The stages did not link; `log` is the linker's diagnostic.
    LinkFailed { log: String },
}

/// What the host must do next for a build.
#[must_use]
#[derive(Debug, PartialEq, Eq)]
pub enum BuildAction {
    /// Read the file at `path` as UTF-8 text; answer `SourceRead`.
    ReadSource { stage: ShaderStage, path: String },
    /// Create a stage object of `stage`, compile `source` in it; answer `Compiled`.
    Compile { stage: ShaderStage, source: String },
    /// Create a program, attach both stages, link it; answer `Linked`.
    Link,
    /// Delete both stage objects; answer `StagesDeleted`.
    DeleteStages,
    /// The build is over, with the program handle or the error.
    Finish { result: Result<u32, BuildError> },
}

/// What happened when the host did the last action.
#[derive(Debug)]
pub enum BuildEvent {
    SourceRead { result: Result<String, String> },
    Compiled { success: bool, log: String },
    Linked { program: u32, success: bool, log: String },
    StagesDeleted,
}

/// Where a build stands.
#[derive(Debug, Clone, Copy, PartialEq, Eq, Structural)]
pub enum BuildPhase {
    ReadingVertex,
    ReadingFragment,
    CompilingVertex,
    CompilingFragment,
    Linking,
    Deleting,
    Done,
}

/// A program build in progress: read both sources, compile the vertex and
/// then the fragment stage, link, delete the stage objects. The first failure
/// ends it with that error; nothing is retried.
#[derive(Debug)]
pub struct ShaderBuild {
    pub phase: BuildPhase,
    pub vertex_path: String,
    pub fragment_path: String,
    pub vertex_source: String,
    pub fragment_source: String,
    pub program: u32,
}

/// Whether a build in `phase` expects `event` next.
pub open spec fn expects(phase: BuildPhase, event: BuildEvent) -> bool {
    match event {
        BuildEvent::SourceRead { .. } => phase == BuildPhase::ReadingVertex || phase
            == BuildPhase::ReadingFragment,
        BuildEvent::Compiled { .. } => phase == BuildPhase::CompilingVertex || phase
            == BuildPhase::CompilingFragment,
        BuildEvent::Linked { .. } => phase == BuildPhase::Linking,
        BuildEvent::StagesDeleted => phase == BuildPhase::Deleting,
    }
}

/// The state after `event`, and the action it calls for.
pub open spec fn transition(s: ShaderBuild, event: BuildEvent) -> (ShaderBuild, BuildAction) {
    match event {
        BuildEvent::SourceRead { result } => match result {
            Ok(source) => if s.phase == BuildPhase::ReadingVertex {
                (
                    ShaderBuild { phase: BuildPhase::ReadingFragment, vertex_source: source, ..s },
                    BuildAction::ReadSource {
                        stage: ShaderStage::Fragment,
                        path: s.fragment_path,
                    },
                )
            } else {
                (
                    ShaderBuild { phase: BuildPhase::CompilingVertex, fragment_source: source, ..s },
                    BuildAction::Compile { stage: ShaderStage::Vertex, source: s.vertex_source },
                )
            },
            Err(message) => (
                ShaderBuild { phase: BuildPhase::Done, ..s },
                BuildAction::Finish {
                    result: Err(
                        BuildError::Io {
                            path: if s.phase == BuildPhase::ReadingVertex {
                                s.vertex_path
                            } else {
                                s.fragment_path
                            },
                            message,
                        },
                    ),
                },
            ),
        },
        BuildEvent::Compiled { success, log } => {
            let stage = if s.phase == BuildPhase::CompilingVertex {
                ShaderStage::Vertex
            } else {
                ShaderStage::Fragment
            };
            if !success {
                (
                    ShaderBuild { phase: BuildPhase::Done, ..s },
                    BuildAction::Finish { result: Err(BuildError::CompileFailed { stage, log }) },
                )
            } else if stage == ShaderStage::Vertex {
                (
                    ShaderBuild { phase: BuildPhase::CompilingFragment, ..s },
                    BuildAction::Compile {
                        stage: ShaderStage::Fragment,
                        source: s.fragment_source,
                    },
                )
            } else {
                (ShaderBuild { phase: BuildPhase::Linking, ..s }, BuildAction::Link)
            }
        },
        BuildEvent::Linked { program, success, log } => if success {
            (ShaderBuild { phase: BuildPhase::Deleting, program, ..s }, BuildAction::DeleteStages)
        } else {
            (
                ShaderBuild { phase: BuildPhase::Done, ..s },
                BuildAction::Finish { result: Err(BuildError::LinkFailed { log }) },
            )
        },
        BuildEvent::StagesDeleted => (
            ShaderBuild { phase: BuildPhase::Done, ..s },
            BuildAction::Finish { result: Ok(s.program) },
        ),
    }
}

impl ShaderBuild {
    /// A build of the program with the given source files; the first action
    /// reads the vertex source.
    pub fn new(vertex_path: String, fragment_path: String) -> (r: (ShaderBuild, BuildAction))
        ensures
            r.0.phase == BuildPhase::ReadingVertex,
            r.0.vertex_path == vertex_path,
            r.0.fragment_path == fragment_path,
            r.0.program == 0,
            r.1 == (BuildAction::ReadSource { stage: ShaderStage::Vertex, path: vertex_path }),
    {
        let first = BuildAction::ReadSource { stage: ShaderStage::Vertex, path: vertex_path.clone() };
        let build = ShaderBuild {
            phase: BuildPhase::ReadingVertex,
            vertex_path,
            fragment_path,
            vertex_source: String::new(),
            fragment_source: String::new(),
            program: 0,
        };
        (build, first)
    }

    /// Takes the outcome of the last action and returns the next one.
    pub fn step(&mut self, event: BuildEvent) -> (action: BuildAction)
        requires
            expects(old(self).phase, event),
        ensures
            (*final(self), action) == transition(*old(self), event),
    {
        match event {
            BuildEvent::SourceRead { result } => match result {
                Ok(source) => if self.phase == BuildPhase::ReadingVertex {
                    self.vertex_source = source;
                    self.phase = BuildPhase::ReadingFragment;
                    BuildAction::ReadSource {
                        stage: ShaderStage::Fragment,
                        path: self.fragment_path.clone(),
                    }
                } else {
                    self.fragment_source = source;
                    self.phase = BuildPhase::CompilingVertex;
                    BuildAction::Compile {
                        stage: ShaderStage::Vertex,
                        source: self.vertex_source.clone(),
                    }
                },
                Err(message) => {
                    let path = if self.phase == BuildPhase::ReadingVertex {
                        self.vertex_path.clone()
                    } else {
                        self.fragment_path.clone()
                    };
                    self.phase = BuildPhase::Done;
                    BuildAction::Finish { result: Err(BuildError::Io { path, message }) }
                },
            },
            BuildEvent::Compiled { success, log } => {
                let stage = if self.phase == BuildPhase::CompilingVertex {
                    ShaderStage::Vertex
                } else {
                    ShaderStage::Fragment
                };
                if !success {
                    self.phase = BuildPhase::Done;
                    BuildAction::Finish { result: Err(BuildError::CompileFailed { stage, log }) }
                } else if stage == ShaderStage::Vertex {
                    self.phase = BuildPhase::CompilingFragment;
                    BuildAction::Compile {
                        stage: ShaderStage::Fragment,
                        source: self.fragment_source.clone(),
                    }
                } else {
                    self.phase = BuildPhase::Linking;
                    BuildAction::Link
                }
            },
            BuildEvent::Linked { program, success, log } => if success {
                self.program = program;
                self.phase = BuildPhase::Deleting;
                BuildAction::DeleteStages
            } else {
                self.phase = BuildPhase::Done;
                BuildAction::Finish { result: Err(BuildError::LinkFailed { log }) }
            },
            BuildEvent::StagesDeleted => {
                self.phase = BuildPhase::Done;
                BuildAction::Finish { result: Ok(self.program) }
            },
        }
    }
}

} // verus!

verus! {

/// A build whose two sources are read, whose two stages compile and whose
/// program links asks for each of these steps in turn, is never turned away,
/// and finishes with the linked program.
pub proof fn lemma_clean_build_yields_program(
    s: ShaderBuild,
    vertex_source: String,
    fragment_source: String,
    vertex_log: String,
    fragment_log: String,
    program: u32,
    link_log: String,
)
    requires
        s.phase == BuildPhase::ReadingVertex,
    ensures
        ({
            let e1 = BuildEvent::SourceRead { result: Ok(vertex_source) };
            let e2 = BuildEvent::SourceRead { result: Ok(fragment_source) };
            let e3 = BuildEvent::Compiled { success: true, log: vertex_log };
            let e4 = BuildEvent::Compiled { success: true, log: fragment_log };
            let e5 = BuildEvent::Linked { program, success: true, log: link_log };
            let e6 = BuildEvent::StagesDeleted;
            let (s1, a1) = transition(s, e1);
            let (s2, a2) = transition(s1, e2);
            let (s3, a3) = transition(s2, e3);
            let (s4, a4) = transition(s3, e4);
            let (s5, a5) = transition(s4, e5);
            let (s6, a6) = transition(s5, e6);
            &&& expects(s.phase, e1) && expects(s1.phase, e2) && expects(s2.phase, e3)
            &&& expects(s3.phase, e4) && expects(s4.phase, e5) && expects(s5.phase, e6)
            &&& a1 == BuildAction::ReadSource { stage: ShaderStage::Fragment, path: s.fragment_path }
            &&& a2 == BuildAction::Compile { stage: ShaderStage::Vertex, source: vertex_source }
            &&& a3 == BuildAction::Compile { stage: ShaderStage::Fragment, source: fragment_source }
            &&& a4 == BuildAction::Link
            &&& a5 == BuildAction::DeleteStages
            &&& a6 == BuildAction::Finish { result: Ok(program) }
            &&& s6.phase == BuildPhase::Done
        }),
{
}

} // verus!
