use crate::canvas::Surface;
use vstd::prelude::*;

verus! {

/// The stage a shader belongs to.
#[derive(Debug, Clone, Copy, PartialEq, Eq)]
pub enum ShaderType {
    VertexShader,
    FragmentShader,
}

/// Why a shader or a program could not be built or used.
#[derive(Debug, Clone, PartialEq, Eq)]
pub enum GlError {
    /// The surface has no graphics context.
    NoContext,
    /// The driver did not create a shader object.
    CreateShaderFailed,
    /// The driver did not create a program object.
    CreateProgramFailed,
    /// The compile-status query gave no boolean.
    CompileStatusUnavailable,
    /// Compilation failed; the driver's info log, or an empty text when the
    /// driver gave none.
    CompileFailed(String),
    /// The link-status query gave no boolean.
    LinkStatusUnavailable,
    /// Linking failed; the driver's info log, or an empty text when the
    /// driver gave none.
    LinkFailed(String),
    /// A shader was passed where a shader of the other stage belongs.
    KindMismatch { expected: ShaderType, found: ShaderType },
    /// The shader for this stage did not compile.
    ShaderNotCompiled(ShaderType),
    /// The program did not link.
    ProgramMissing,
}

/// The text of an info log, with the empty text when the driver gave none.
pub open spec fn log_text(info_log: Option<String>) -> Seq<char> {
    match info_log {
        Some(s) => s@,
        None => Seq::empty(),
    }
}

fn log_or_empty(info_log: Option<String>) -> (r: String)
    ensures
        r@ == log_text(info_log),
{
    match info_log {
        Some(s) => s,
        None => String::new(),
    }
}

/// The graphics context of `surface`, if it has one.
pub fn gl_context<S, C>(surface: &Surface<S, C>) -> (r: Result<&C, GlError>)
    ensures
        surface@.context is None ==> r == Err::<&C, GlError>(GlError::NoContext),
        surface@.context is Some ==> r == Ok::<&C, GlError>(&surface@.context->Some_0),
{
    match surface.context() {
        Some(c) => Ok(c),
        None => Err(GlError::NoContext),
    }
}

/// Decides the fate of a freshly compiled shader from the driver's answers:
/// its compile status and, on failure, its info log.
pub fn compile_result<H>(shader: H, status: Option<bool>, info_log: Option<String>) -> (r: Result<
    H,
    GlError,
>)
    ensures
        status is None ==> r == Err::<H, GlError>(GlError::CompileStatusUnavailable),
        status == Some(true) ==> r == Ok::<H, GlError>(shader),
        status == Some(false) ==> (r matches Err(GlError::CompileFailed(log)) && log@ == log_text(
            info_log,
        )),
{
    match status {
        None => Err(GlError::CompileStatusUnavailable),
        Some(true) => Ok(shader),
        Some(false) => Err(GlError::CompileFailed(log_or_empty(info_log))),
    }
}

/// Decides the fate of a freshly linked program from the driver's answers:
/// its link status and, on failure, its info log.
pub fn link_result<P>(program: P, status: Option<bool>, info_log: Option<String>) -> (r: Result<
    P,
    GlError,
>)
    ensures
        status is None ==> r == Err::<P, GlError>(GlError::LinkStatusUnavailable),
        status == Some(true) ==> r == Ok::<P, GlError>(program),
        status == Some(false) ==> (r matches Err(GlError::LinkFailed(log)) && log@ == log_text(
            info_log,
        )),
{
    match status {
        None => Err(GlError::LinkStatusUnavailable),
        Some(true) => Ok(program),
        Some(false) => Err(GlError::LinkFailed(log_or_empty(info_log))),
    }
}

/// What a shader is, as far as its contracts are concerned.
pub ghost struct ShaderView<H> {
    pub shader: Option<H>,
    pub shader_type: ShaderType,
    pub source: Seq<char>,
    pub name: Seq<char>,
}

/// A shader of one stage: its source, its name and, when compilation
/// succeeded, the compiled handle `H`.
pub struct Shader<H> {
    shader: Option<H>,
    shader_type: ShaderType,
    program_source: String,
    name: String,
}

impl<H> View for Shader<H> {
    type V = ShaderView<H>;

    closed spec fn view(&self) -> ShaderView<H> {
        ShaderView {
            shader: self.shader,
            shader_type: self.shader_type,
            source: self.program_source@,
            name: self.name@,
        }
    }
}

impl<H> Shader<H> {
    /// A shader of the given stage, keeping the handle only if compilation succeeded.
    pub fn new(shader_type: ShaderType, program_source: String, name: String, compiled: Result<
        H,
        GlError,
    >) -> (r: Self)
        ensures
            r@.shader == compiled.ok(),
            r@.shader_type == shader_type,
            r@.source == program_source@,
            r@.name == name@,
    {
        let shader = match compiled {
            Ok(h) => Some(h),
            Err(_) => None,
        };
        Self { shader, shader_type, program_source, name }
    }

    /// The compiled handle, if compilation succeeded.
    pub fn shader(&self) -> (r: Option<&H>)
        ensures
            r == match self@.shader {
                Some(h) => Some(&h),
                None => None::<&H>,
            },
    {
        match &self.shader {
            Some(h) => Some(h),
            None => None,
        }
    }

    /// The shader's name.
    pub fn name(&self) -> (r: String)
        ensures
            r@ == self@.name,
    {
        self.name.clone()
    }

    /// The shader's stage.
    pub fn shader_type(&self) -> (r: ShaderType)
        ensures
            r == self@.shader_type,
    {
        self.shader_type
    }

    /// The shader's source text.
    pub fn source(&self) -> (r: &str)
        ensures
            r@ == self@.source,
    {
        self.program_source.as_str()
    }
}

/// Checks the two shaders handed to a link, before any program object is
/// made: the first must be a compiled vertex shader and the second a compiled
/// fragment shader. Returns their handles.
pub fn link_inputs<'a, H>(vertex_shader: &'a Shader<H>, fragment_shader: &'a Shader<H>) -> (r: Result<
    (&'a H, &'a H),
    GlError,
>)
    ensures
        vertex_shader@.shader_type != ShaderType::VertexShader ==> r == Err::<(&H, &H), GlError>(
            GlError::KindMismatch {
                expected: ShaderType::VertexShader,
                found: vertex_shader@.shader_type,
            },
        ),
        (vertex_shader@.shader_type == ShaderType::VertexShader && vertex_shader@.shader is None)
            ==> r == Err::<(&H, &H), GlError>(GlError::ShaderNotCompiled(ShaderType::VertexShader)),
        (vertex_shader@.shader_type == ShaderType::VertexShader && vertex_shader@.shader is Some
            && fragment_shader@.shader_type != ShaderType::FragmentShader) ==> r == Err::<
            (&H, &H),
            GlError,
        >(
            GlError::KindMismatch {
                expected: ShaderType::FragmentShader,
                found: fragment_shader@.shader_type,
            },
        ),
        (vertex_shader@.shader_type == ShaderType::VertexShader && vertex_shader@.shader is Some
            && fragment_shader@.shader_type == ShaderType::FragmentShader
            && fragment_shader@.shader is None) ==> r == Err::<(&H, &H), GlError>(
            GlError::ShaderNotCompiled(ShaderType::FragmentShader),
        ),
        (vertex_shader@.shader_type == ShaderType::VertexShader && vertex_shader@.shader is Some
            && fragment_shader@.shader_type == ShaderType::FragmentShader
            && fragment_shader@.shader is Some) ==> r == Ok::<(&H, &H), GlError>(
            (&vertex_shader@.shader->Some_0, &fragment_shader@.shader->Some_0),
        ),
{
    match vertex_shader.shader_type() {
        ShaderType::VertexShader => {},
        ShaderType::FragmentShader => {
            return Err(
                GlError::KindMismatch {
                    expected: ShaderType::VertexShader,
                    found: ShaderType::FragmentShader,
                },
            );
        },
    }
    let v = match vertex_shader.shader() {
        Some(v) => v,
        None => {
            return Err(GlError::ShaderNotCompiled(ShaderType::VertexShader));
        },
    };
    match fragment_shader.shader_type() {
        ShaderType::FragmentShader => {},
        ShaderType::VertexShader => {
            return Err(
                GlError::KindMismatch {
                    expected: ShaderType::FragmentShader,
                    found: ShaderType::VertexShader,
                },
            );
        },
    }
    let f = match fragment_shader.shader() {
        Some(f) => f,
        None => {
            return Err(GlError::ShaderNotCompiled(ShaderType::FragmentShader));
        },
    };
    Ok((v, f))
}

/// What a program is, as far as its contracts are concerned.
pub ghost struct ProgramView<P> {
    pub program: Option<P>,
    pub name: Seq<char>,
}

/// A program linked from one vertex and one fragment shader; it holds the
/// linked handle `P` only if linking succeeded.
pub struct Program<P> {
    program: Option<P>,
    name: String,
}

impl<P> View for Program<P> {
    type V = ProgramView<P>;

    closed spec fn view(&self) -> ProgramView<P> {
        ProgramView { program: self.program, name: self.name@ }
    }
}

impl<P> Program<P> {
    /// A program keeping the handle only if linking succeeded.
    pub fn new(name: String, linked: Result<P, GlError>) -> (r: Self)
        ensures
            r@.program == linked.ok(),
            r@.name == name@,
    {
        let program = match linked {
            Ok(p) => Some(p),
            Err(_) => None,
        };
        Self { program, name }
    }

    /// The program's name.
    pub fn name(&self) -> (r: &str)
        ensures
            r@ == self@.name,
    {
        self.name.as_str()
    }

    /// What must be handed to the context to make this program current: the
    /// surface's context and the linked handle. Fails when either is missing,
    /// the context first.
    pub fn use_program<'a, S, C>(&'a self, surface: &'a Surface<S, C>) -> (r: Result<
        (&'a C, &'a P),
        GlError,
    >)
        ensures
            surface@.context is None ==> r == Err::<(&C, &P), GlError>(GlError::NoContext),
            (surface@.context is Some && self@.program is None) ==> r == Err::<(&C, &P), GlError>(
                GlError::ProgramMissing,
            ),
            (surface@.context is Some && self@.program is Some) ==> r == Ok::<(&C, &P), GlError>(
                (&surface@.context->Some_0, &self@.program->Some_0),
            ),
    {
        let gl = match gl_context(surface) {
            Ok(gl) => gl,
            Err(e) => {
                return Err(e);
            },
        };
        match &self.program {
            Some(p) => Ok((gl, p)),
            None => Err(GlError::ProgramMissing),
        }
    }
}

} // verus!
