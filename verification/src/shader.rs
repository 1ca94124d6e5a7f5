//! Outcomes of building the one shader program.
//!
//! The viewer compiles a vertex shader and a fragment shader and links them
//! into a single program.  The graphics calls themselves happen outside
//! this crate; they hand back a handle, a success flag and a diagnostic
//! log, and the functions here decide what follows: carry the handle
//! forward, or fail fatally with a message that carries the toolchain's
//! log verbatim.  There is no way back from a failure — the caller is
//! expected to abort with the message.

use vstd::prelude::*;
use vstd::string::StringExecFns;

verus! {

/// A fatal shader build failure, holding the diagnostic log that the
/// compiler or linker produced.
#[derive(Debug)]
pub enum ShaderFailure {
    /// A shader object failed to compile.
    Compile { log: String },
    /// The program object failed to link.
    Link { log: String },
}

/// Whether `needle` occurs contiguously inside `hay`.
pub open spec fn seq_contains(hay: Seq<char>, needle: Seq<char>) -> bool {
    exists|i: int, j: int| 0 <= i <= j <= hay.len() && hay.subrange(i, j) == needle
}

/// The outcome of compiling a shader object: with a true success flag the
/// handle goes forward unchanged; with a false one the build fails,
/// keeping the compiler's log word for word.
pub fn compile_outcome(shader: u32, success: bool, log: String) -> (r: Result<u32, ShaderFailure>)
    ensures
        success <==> r is Ok,
        success ==> r == Ok::<u32, ShaderFailure>(shader),
        !success ==> (r == Err::<u32, ShaderFailure>(ShaderFailure::Compile { log })),
{
    if success {
        Ok(shader)
    } else {
        Err(ShaderFailure::Compile { log })
    }
}

/// The outcome of linking the program object: with a true success flag the
/// handle goes forward unchanged — the caller then releases the two shader
/// objects, which the linked program retains; with a false one the build
/// fails, keeping the linker's log word for word.
pub fn link_outcome(program: u32, success: bool, log: String) -> (r: Result<u32, ShaderFailure>)
    ensures
        success <==> r is Ok,
        success ==> r == Ok::<u32, ShaderFailure>(program),
        !success ==> (r == Err::<u32, ShaderFailure>(ShaderFailure::Link { log })),
{
    if success {
        Ok(program)
    } else {
        Err(ShaderFailure::Link { log })
    }
}

impl ShaderFailure {
    /// The log the toolchain produced, word for word.
    pub open spec fn log_view(self) -> Seq<char> {
        match self {
            ShaderFailure::Compile { log } => log@,
            ShaderFailure::Link { log } => log@,
        }
    }

    /// The message the viewer aborts with: a fixed phrase naming the failed
    /// stage, followed by the toolchain's log.  The log always occurs
    /// verbatim inside the message.
    pub fn message(&self) -> (r: String)
        ensures
            (self matches ShaderFailure::Compile { log }) ==> r@ == "Shader compilation failed: "@
                + self.log_view(),
            (self matches ShaderFailure::Link { log }) ==> r@ == "Program linking failed: "@
                + self.log_view(),
            seq_contains(r@, self.log_view()),
    {
        let mut m: String;
        let log_ref: &String;
        match self {
            ShaderFailure::Compile { log } => {
                m = String::from_str("Shader compilation failed: ");
                log_ref = log;
            },
            ShaderFailure::Link { log } => {
                m = String::from_str("Program linking failed: ");
                log_ref = log;
            },
        }
        m.append(log_ref.as_str());
        proof {
            let i = m@.len() - log_ref@.len();
            let j = m@.len() as int;
            assert(m@.subrange(i, j) =~= log_ref@);
        }
        m
    }
}

} // verus!
