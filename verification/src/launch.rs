//! Launch planning: resolving the native program for a descriptor's
//! language, templating the argument vector, and assembling the plan the
//! embedding application spawns. The spawn itself, the working-directory
//! check and the platform-specific console suppression are performed by the
//! application; the plan tells it exactly what to run.

use vstd::prelude::*;
use vstd::string::*;

use crate::error::{ConfigIssue, ModuleError};
use crate::manifest::Manifest;
use crate::text::{replace_str, spec_replace, spec_udec, str_eq, u16_dec};

verus! {

/// The native program resolved for a backend language.
#[derive(Clone, Copy, Debug, PartialEq, Eq, Structural)]
pub enum Program {
    /// Launched as `python`.
    Python,
    /// Launched as `node`.
    Node,
    /// Launched as `java`.
    Java,
}

/// What `str::to_lowercase` returns for `s`: a pure function of the
/// characters alone.
pub uninterp spec fn lower_of(s: Seq<char>) -> Seq<char>;

/// Relies on `str::to_lowercase`: its result depends on the characters of
/// `s` alone, and an empty string stays empty.
#[verifier::external_body]
fn lowercase(s: &str) -> (r: String)
    ensures
        r@ == lower_of(s@),
        s@.len() == 0 ==> r@.len() == 0,
{
    s.to_lowercase()
}

/// The fixed launch table over an already-lowercased language name:
/// `python` maps to the Python program, `node` and `javascript` to the Node
/// program, `java` to the Java program; everything else is unsupported.
pub open spec fn spec_program_for(lang: Seq<char>) -> Option<Program> {
    if lang == "python"@ {
        Option::Some(Program::Python)
    } else if lang == "node"@ || lang == "javascript"@ {
        Option::Some(Program::Node)
    } else if lang == "java"@ {
        Option::Some(Program::Java)
    } else {
        Option::None
    }
}

/// Looks up an already-lowercased language name in the launch table.
pub fn program_for(lowered: &str) -> (r: Option<Program>)
    ensures
        r == spec_program_for(lowered@),
{
    if str_eq(lowered, "python") {
        Option::Some(Program::Python)
    } else if str_eq(lowered, "node") || str_eq(lowered, "javascript") {
        Option::Some(Program::Node)
    } else if str_eq(lowered, "java") {
        Option::Some(Program::Java)
    } else {
        Option::None
    }
}

/// Resolves the native program for a descriptor's language field, matched
/// case-insensitively.
pub fn resolve_program(language: &str) -> (r: Option<Program>)
    ensures
        r == spec_program_for(lower_of(language@)),
{
    let lowered = lowercase(language);
    program_for(lowered.as_str())
}

/// The command name of a resolved program.
pub open spec fn spec_command_name(p: Program) -> Seq<char> {
    match p {
        Program::Python => "python"@,
        Program::Node => "node"@,
        Program::Java => "java"@,
    }
}

impl Program {
    /// The name of the native program to spawn.
    pub fn command_name(&self) -> (s: String)
        ensures
            s@ == spec_command_name(*self),
    {
        match self {
            Program::Python => "python".to_owned(),
            Program::Node => "node".to_owned(),
            Program::Java => "java".to_owned(),
        }
    }
}

/// The full argument vector: the entrypoint first, then each configured
/// argument with every occurrence of `{PORT}` replaced by the decimal port.
/// Arguments without the placeholder are passed through unchanged.
pub fn render_args(entrypoint: &str, args: &Vec<String>, port: u16) -> (out: Vec<String>)
    ensures
        out@.len() == args@.len() + 1,
        out@[0]@ == entrypoint@,
        forall|i: int|
            0 <= i < args@.len() ==> out@[i + 1]@ == spec_replace(
                args@[i]@,
                "{PORT}"@,
                spec_udec(port as nat),
            ),
{
    let port_str = u16_dec(port);
    let mut out: Vec<String> = Vec::new();
    out.push(entrypoint.to_owned());
    let mut i: usize = 0;
    while i < args.len()
        invariant
            i <= args@.len(),
            out@.len() == i + 1,
            out@[0]@ == entrypoint@,
            port_str@ == spec_udec(port as nat),
            forall|j: int|
                0 <= j < i ==> out@[j + 1]@ == spec_replace(
                    args@[j]@,
                    "{PORT}"@,
                    spec_udec(port as nat),
                ),
        decreases args@.len() - i,
    {
        proof {
            reveal_strlit("{PORT}");
        }
        let rendered = replace_str(args[i].as_str(), "{PORT}", port_str.as_str());
        out.push(rendered);
        i += 1;
    }
    out
}

/// Everything the application needs to spawn a module backend: the program,
/// the argument vector, and the port the child is expected to serve.
#[derive(Debug)]
pub struct LaunchPlan {
    /// The resolved native program.
    pub program: Program,
    /// Entrypoint followed by the templated arguments.
    pub args: Vec<String>,
    /// The port handed to the child through the `{PORT}` placeholder.
    pub port: u16,
}

/// Builds the launch plan for a descriptor, in the original checking order:
/// an unrecognized language is reported before a missing module directory.
/// `module_dir_exists` is the application's observation of whether the
/// module's resolved root directory exists.
pub fn build_launch_plan(m: &Manifest, port: u16, module_dir_exists: bool) -> (r: Result<
    LaunchPlan,
    ModuleError,
>)
    ensures
        ({
            let lang = spec_program_for(lower_of(m.backend.language@));
            &&& (lang is None ==> (r matches Err(ModuleError::Configuration(
                ConfigIssue::UnsupportedLanguage(l),
            )) && l@ == lower_of(m.backend.language@)))
            &&& (lang is Some && !module_dir_exists ==> (r matches Err(ModuleError::Configuration(
                ConfigIssue::MissingModuleDir(d),
            )) && d@ == m.id@))
            &&& (lang is Some && module_dir_exists ==> (r matches Ok(plan) && {
                &&& plan.program == lang->Some_0
                &&& plan.port == port
                &&& plan.args@.len() == m.backend.args@.len() + 1
                &&& plan.args@[0]@ == m.backend.entrypoint@
                &&& forall|i: int|
                    0 <= i < m.backend.args@.len() ==> plan.args@[i + 1]@ == spec_replace(
                        m.backend.args@[i]@,
                        "{PORT}"@,
                        spec_udec(port as nat),
                    )
            }))
        }),
{
    let lowered = lowercase(m.backend.language.as_str());
    let prog = program_for(lowered.as_str());
    match prog {
        Option::None => Result::Err(
            ModuleError::Configuration(ConfigIssue::UnsupportedLanguage(lowered)),
        ),
        Option::Some(p) => {
            if !module_dir_exists {
                Result::Err(ModuleError::Configuration(ConfigIssue::MissingModuleDir(m.id.clone())))
            } else {
                let args = render_args(m.backend.entrypoint.as_str(), &m.backend.args, port);
                Result::Ok(LaunchPlan { program: p, args, port })
            }
        },
    }
}

} // verus!
