//! The shader pipeline: compile bookkeeping, link admission, and link
//! bookkeeping.
//!
//! The GPU driver performs the compilation and linking itself; this module
//! owns every decision around those calls. A compile is recorded as a tagged
//! outcome rather than a bare handle, and the link step admits only units
//! whose compilation succeeded, so a failed unit can never reach the link
//! call. A program value exists only for a link whose status was success,
//! which is what makes it bindable for drawing.

use vstd::prelude::*;

verus! {

/// The stage a shader unit belongs to.
#[derive(Clone, Copy, Debug, PartialEq, Eq, Structural)]
pub enum ShaderStage {
    Vertex,
    Fragment,
}

/// The GPU API's numeric code for a stage, as the driver layer passes it to
/// the shader-object allocation call.
pub fn stage_code(stage: ShaderStage) -> (c: u32)
    ensures
        stage == ShaderStage::Vertex ==> c == 0x8B31,
        stage == ShaderStage::Fragment ==> c == 0x8B30,
{
    match stage {
        ShaderStage::Vertex => 0x8B31,
        ShaderStage::Fragment => 0x8B30,
    }
}

/// One shader unit before compilation: its source text and its stage.
#[derive(Debug)]
pub struct ShaderUnit {
    /// The source text submitted to the driver.
    pub source: String,
    /// The stage the unit is compiled for.
    pub stage: ShaderStage,
}

impl ShaderUnit {
    /// A unit freshly created from source text.
    pub fn new(source: String, stage: ShaderStage) -> (u: ShaderUnit)
        ensures
            u.source@ == source@,
            u.stage == stage,
    {
        ShaderUnit { source, stage }
    }
}

/// The outcome of compiling one unit: the shader-object handle on success,
/// the diagnostic log on failure.
#[derive(Debug)]
pub enum CompileOutcome {
    Success { handle: u32 },
    Failed { log: String },
}

impl CompileOutcome {
    /// Whether compilation succeeded.
    pub open spec fn is_success(&self) -> bool {
        self is Success
    }

    /// The shader-object handle; zero for a failed compile, which owns none.
    pub open spec fn spec_handle(&self) -> u32 {
        match self {
            CompileOutcome::Success { handle } => *handle,
            CompileOutcome::Failed { .. } => 0,
        }
    }

    /// The diagnostic log; empty for a successful compile.
    pub open spec fn spec_log(&self) -> Seq<char> {
        match self {
            CompileOutcome::Success { .. } => Seq::<char>::empty(),
            CompileOutcome::Failed { log } => log@,
        }
    }

    /// Whether compilation succeeded, as executable code.
    pub fn success(&self) -> (b: bool)
        ensures
            b == self.is_success(),
    {
        match self {
            CompileOutcome::Success { .. } => true,
            CompileOutcome::Failed { .. } => false,
        }
    }

    /// The shader-object handle, zero for a failed compile.
    pub fn handle(&self) -> (h: u32)
        ensures
            h == self.spec_handle(),
    {
        match self {
            CompileOutcome::Success { handle } => *handle,
            CompileOutcome::Failed { .. } => 0,
        }
    }
}

/// The message that stands in for an empty driver log, so a failure is never
/// reported without a diagnostic.
pub open spec fn fallback_log() -> Seq<char> {
    "the driver returned no diagnostic log"@
}

fn fallback_message() -> (s: String)
    ensures
        s@ == fallback_log(),
        s@.len() > 0,
{
    proof {
        reveal_strlit("the driver returned no diagnostic log");
    }
    "the driver returned no diagnostic log".to_owned()
}

/// Classifies what the driver reported for one compile call: the shader
/// handle (zero when allocation itself failed), the compile status (1 for
/// success), and the retrieved log. A failure always carries a non-empty
/// diagnostic: the driver's log when it gave one, a fixed message otherwise.
pub fn compile_outcome(handle: u32, status: i32, log: String) -> (r: CompileOutcome)
    ensures
        handle != 0 && status == 1 ==> r == (CompileOutcome::Success { handle }),
        !(handle != 0 && status == 1) ==> {
            &&& r is Failed
            &&& r.spec_log() == if log@.len() > 0 {
                log@
            } else {
                fallback_log()
            }
            &&& r.spec_log().len() > 0
        },
{
    if handle != 0 && status == 1 {
        CompileOutcome::Success { handle }
    } else if !log.as_str().is_empty() {
        CompileOutcome::Failed { log }
    } else {
        CompileOutcome::Failed { log: fallback_message() }
    }
}

/// Rejection of a link, before or after the link call.
#[derive(Debug)]
pub enum ShaderError {
    /// No unit was offered: a program links at least one.
    EmptyLink,
    /// A unit whose compilation failed was offered; its log is carried.
    CompileRejected { log: String },
    /// The link call itself reported failure, with its log.
    LinkFailed { log: String },
}

impl ShaderError {
    /// The diagnostic log the error carries.
    pub open spec fn spec_log(&self) -> Seq<char> {
        match self {
            ShaderError::EmptyLink => Seq::<char>::empty(),
            ShaderError::CompileRejected { log } => log@,
            ShaderError::LinkFailed { log } => log@,
        }
    }
}

/// All offered units compiled successfully.
pub open spec fn all_compiled(units: Seq<CompileOutcome>) -> bool {
    forall|i: int| 0 <= i < units.len() ==> units[i].is_success()
}

/// The handles of the units, in offer order.
pub open spec fn handles_of(units: Seq<CompileOutcome>) -> Seq<u32> {
    units.map(|i: int, u: CompileOutcome| u.spec_handle())
}

/// Position `i` holds the first unit whose compilation failed.
pub open spec fn first_failure(units: Seq<CompileOutcome>, i: int) -> bool {
    &&& 0 <= i < units.len()
    &&& !units[i].is_success()
    &&& forall|j: int| 0 <= j < i ==> units[j].is_success()
}

/// Decides whether the offered units may be linked, consuming them. Every
/// unit must have compiled; a failed unit is rejected here, before any link
/// call is issued, carrying the log of the first failure. On admission the
/// handles to attach are returned in offer order.
#[verifier::loop_isolation(false)]
pub fn plan_link(units: Vec<CompileOutcome>) -> (r: Result<Vec<u32>, ShaderError>)
    ensures
        r is Ok <==> units@.len() > 0 && all_compiled(units@),
        r matches Ok(handles) ==> handles@ == handles_of(units@),
        units@.len() == 0 ==> (r matches Err(e) && e is EmptyLink),
        units@.len() > 0 && !all_compiled(units@) ==> exists|i: int|
            #[trigger] first_failure(units@, i) && (r matches Err(e) && e is CompileRejected
                && e.spec_log() == units@[i].spec_log()),
{
    if units.len() == 0 {
        return Err(ShaderError::EmptyLink);
    }
    let ghost offered = units@;
    let mut rest = units;
    let mut handles: Vec<u32> = Vec::new();
    let mut i: usize = 0;
    while i < rest.len()
        invariant
            rest@ == offered,
            i <= offered.len(),
            forall|j: int| 0 <= j < i ==> offered[j].is_success(),
            handles@.len() == i,
            forall|j: int| 0 <= j < i ==> handles@[j] == offered[j].spec_handle(),
        decreases offered.len() - i,
    {
        if rest[i].success() {
            let h = rest[i].handle();
            handles.push(h);
        } else {
            proof {
                assert(first_failure(offered, i as int));
            }
            let failed = rest.remove(i);
            match failed {
                CompileOutcome::Failed { log } => {
                    return Err(ShaderError::CompileRejected { log });
                },
                CompileOutcome::Success { .. } => {
                    proof {
                        assert(false);
                    }
                    return Err(ShaderError::EmptyLink);
                },
            }
        }
        i = i + 1;
    }
    proof {
        assert(handles@ =~= handles_of(offered));
    }
    Ok(handles)
}

/// A shader program whose link status was success. A value of this type
/// exists only for such a link, so only a successfully linked program can be
/// offered for binding.
#[derive(Clone, Copy, Debug, PartialEq, Eq, Structural)]
pub struct ShaderProgram {
    /// Name of the program object.
    pub handle: u32,
}

impl ShaderProgram {
    /// The program owns a real (non-zero) name.
    pub open spec fn wf(&self) -> bool {
        self.handle != 0
    }
}

/// Classifies what the driver reported for one link call: the program handle
/// (zero when allocation itself failed), the link status (1 for success), and
/// the retrieved log. Only a successful link yields a program; a failure
/// always carries a non-empty diagnostic.
pub fn link_outcome(handle: u32, status: i32, log: String) -> (r: Result<
    ShaderProgram,
    ShaderError,
>)
    ensures
        handle != 0 && status == 1 ==> r == Result::<ShaderProgram, ShaderError>::Ok(
            ShaderProgram { handle },
        ),
        r matches Ok(p) ==> p.wf(),
        !(handle != 0 && status == 1) ==> {
            &&& r matches Err(e)
            &&& e is LinkFailed
            &&& e.spec_log() == if log@.len() > 0 {
                log@
            } else {
                fallback_log()
            }
            &&& e.spec_log().len() > 0
        },
{
    if handle != 0 && status == 1 {
        Ok(ShaderProgram { handle })
    } else if !log.as_str().is_empty() {
        Err(ShaderError::LinkFailed { log })
    } else {
        Err(ShaderError::LinkFailed { log: fallback_message() })
    }
}

/// The minimal pass-through vertex shader: position attribute 0 straight to
/// clip space.
pub fn vertex_shader_source() -> (s: &'static str)
    ensures
        s@.len() > 0,
{
    proof {
        reveal_strlit(
            "#version 450 core\nlayout (location = 0) in vec3 aPos;\nvoid main() {\n   gl_Position = vec4(aPos.x, aPos.y, aPos.z, 1.0);\n}\n",
        );
    }
    "#version 450 core\nlayout (location = 0) in vec3 aPos;\nvoid main() {\n   gl_Position = vec4(aPos.x, aPos.y, aPos.z, 1.0);\n}\n"
}

/// A fragment shader emitting one fixed color.
pub fn fragment_shader_source() -> (s: &'static str)
    ensures
        s@.len() > 0,
{
    proof {
        reveal_strlit(
            "#version 450 core\nout vec4 FragColor;\nvoid main() {\n   FragColor = vec4(1.0f, 0.2f, 0.5f, 1.0f);\n}\n",
        );
    }
    "#version 450 core\nout vec4 FragColor;\nvoid main() {\n   FragColor = vec4(1.0f, 0.2f, 0.5f, 1.0f);\n}\n"
}

/// A fragment shader whose color is driven by a uniform, for the variant
/// that animates the color from elapsed time.
pub fn uniform_fragment_shader_source() -> (s: &'static str)
    ensures
        s@.len() > 0,
{
    proof {
        reveal_strlit(
            "#version 450 core\nout vec4 FragColor;\nuniform vec4 ourColor;\nvoid main() {\n   FragColor = ourColor;\n}\n",
        );
    }
    "#version 450 core\nout vec4 FragColor;\nuniform vec4 ourColor;\nvoid main() {\n   FragColor = ourColor;\n}\n"
}

/// The two units of the standard triangle pipeline: the pass-through vertex
/// shader and the fixed-color fragment shader, in compile order.
pub fn pass_through_units() -> (v: Vec<ShaderUnit>)
    ensures
        v@.len() == 2,
        v@[0].stage == ShaderStage::Vertex,
        v@[1].stage == ShaderStage::Fragment,
        v@[0].source@.len() > 0,
        v@[1].source@.len() > 0,
{
    let vertex = ShaderUnit::new(vertex_shader_source().to_owned(), ShaderStage::Vertex);
    let fragment = ShaderUnit::new(fragment_shader_source().to_owned(), ShaderStage::Fragment);
    let mut v: Vec<ShaderUnit> = Vec::new();
    v.push(vertex);
    v.push(fragment);
    v
}

} // verus!
