use vstd::prelude::*;

use crate::strings::same_text;

verus! {

/// Name of the configuration file beside the wrapper's executable.
pub const CONFIG_FILE_NAME: &'static str = "zig.toml";

/// Start of the name of a tool's trace log.
pub const TRACE_FILE_PREFIX: &'static str = "trace-";

/// End of the name of a tool's trace log.
pub const TRACE_FILE_SUFFIX: &'static str = ".txt";

/// The settings the wrapper runs with.
pub struct Config {
    /// Path of the toolchain binary.
    pub zig: String,
    /// Default arguments for the C compiler.
    pub c_options: Vec<String>,
    /// Default arguments for the C++ compiler.
    pub cpp_options: Vec<String>,
    /// Default arguments for every other tool.
    pub tools_options: Vec<String>,
    /// Whether each invocation is appended to a trace log.
    pub trace: bool,
}

/// Which option list a subcommand takes.
#[derive(PartialEq, Eq, Structural, Debug, Clone, Copy)]
pub enum ToolFamily {
    /// The C compiler, `cc`.
    C,
    /// The C++ compiler, `c++`.
    Cpp,
    /// Any other tool: archiver, demangler, import-library tool.
    Tools,
}

/// The family of subcommand `tool`.
pub open spec fn family(tool: Seq<char>) -> ToolFamily {
    if tool == "cc"@ {
        ToolFamily::C
    } else if tool == "c++"@ {
        ToolFamily::Cpp
    } else {
        ToolFamily::Tools
    }
}

/// The family of subcommand `tool`.
pub fn family_of(tool: &str) -> (r: ToolFamily)
    ensures
        r == family(tool@),
{
    if same_text(tool, "cc") {
        ToolFamily::C
    } else if same_text(tool, "c++") {
        ToolFamily::Cpp
    } else {
        ToolFamily::Tools
    }
}

impl Config {
    /// The default arguments for subcommand `tool`: the C list for `cc`, the
    /// C++ list for `c++`, the tools list for everything else.
    pub fn options_for(&self, tool: &str) -> (r: &Vec<String>)
        ensures
            family(tool@) == ToolFamily::C ==> r@ == self.c_options@,
            family(tool@) == ToolFamily::Cpp ==> r@ == self.cpp_options@,
            family(tool@) == ToolFamily::Tools ==> r@ == self.tools_options@,
    {
        match family_of(tool) {
            ToolFamily::C => &self.c_options,
            ToolFamily::Cpp => &self.cpp_options,
            ToolFamily::Tools => &self.tools_options,
        }
    }
}

/// File name of the trace log of subcommand `tool`.
pub fn trace_file_name(tool: &str) -> (r: String)
    ensures
        r@ == TRACE_FILE_PREFIX@ + tool@ + TRACE_FILE_SUFFIX@,
{
    let mut name = String::new();
    name.append(TRACE_FILE_PREFIX);
    name.append(tool);
    name.append(TRACE_FILE_SUFFIX);
    assert(name@ =~= TRACE_FILE_PREFIX@ + tool@ + TRACE_FILE_SUFFIX@);
    name
}

} // verus!
