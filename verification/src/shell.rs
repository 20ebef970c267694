use vstd::prelude::*;

use crate::path::{paths_eq, same_path};

verus! {

/// The kinds of shell the agent knows how to drive.
#[derive(Clone, Copy, Debug, PartialEq, Eq, Structural)]
pub enum ShellType {
    Zsh,
    Bash,
    PowerShell,
    Sh,
    Cmd,
}

/// The user's shell: its kind and the path of its executable.
#[derive(Debug)]
pub struct Shell {
    pub shell_type: ShellType,
    pub shell_path: String,
}

/// The name under which a shell kind is reported.
pub open spec fn shell_type_name(t: ShellType) -> Seq<char> {
    match t {
        ShellType::Zsh => "zsh"@,
        ShellType::Bash => "bash"@,
        ShellType::PowerShell => "powershell"@,
        ShellType::Sh => "sh"@,
        ShellType::Cmd => "cmd"@,
    }
}

/// A shell seen as its kind and the text of its path.
pub struct ShellView {
    pub shell_type: ShellType,
    pub shell_path: Seq<char>,
}

impl View for Shell {
    type V = ShellView;

    open spec fn view(&self) -> ShellView {
        ShellView { shell_type: self.shell_type, shell_path: self.shell_path@ }
    }
}

/// Whether two shells are of the same kind and have the same executable
/// path, comparing the paths part by part.
pub open spec fn same_shell(a: ShellView, b: ShellView) -> bool {
    a.shell_type == b.shell_type && same_path(a.shell_path, b.shell_path)
}

impl PartialEq for Shell {
    fn eq(&self, other: &Shell) -> (r: bool) {
        self.shell_type == other.shell_type && paths_eq(
            self.shell_path.as_str(),
            other.shell_path.as_str(),
        )
    }
}

impl vstd::std_specs::cmp::PartialEqSpecImpl for Shell {
    open spec fn obeys_eq_spec() -> bool {
        true
    }

    open spec fn eq_spec(&self, other: &Shell) -> bool {
        same_shell(self@, other@)
    }
}

impl Clone for Shell {
    fn clone(&self) -> (s: Shell)
        ensures
            s@ == self@,
    {
        Shell { shell_type: self.shell_type, shell_path: self.shell_path.clone() }
    }
}

impl Shell {
    /// The short name of the shell, as it appears in the environment context.
    pub fn name(&self) -> (name: &'static str)
        ensures
            name@ == shell_type_name(self.shell_type),
    {
        match self.shell_type {
            ShellType::Zsh => "zsh",
            ShellType::Bash => "bash",
            ShellType::PowerShell => "powershell",
            ShellType::Sh => "sh",
            ShellType::Cmd => "cmd",
        }
    }
}

} // verus!
