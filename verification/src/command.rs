//! The fixed, documented command lines of the external collaborators. The
//! shell runs exactly what these builders return; nothing else about the
//! collaborators is assumed here.

use vstd::prelude::*;

verus! {

/// One collaborator invocation: a program name and its argument list, to
/// be run in the project directory.
pub struct CommandLine {
    /// The program to look up on the search path.
    pub program: String,
    /// Its arguments, in order.
    pub args: Vec<String>,
}

/// The scaffold collaborator: create the framework project in the current
/// directory.
pub fn scaffold_command() -> (c: CommandLine)
    ensures
        c.program@ == "npx"@,
        c.args@.len() == 2,
        c.args@[0]@ == "create-next-app@latest"@,
        c.args@[1]@ == "./"@,
{
    let mut args: Vec<String> = Vec::new();
    args.push("create-next-app@latest".to_owned());
    args.push("./".to_owned());
    CommandLine { program: "npx".to_owned(), args }
}

/// The version-control collaborator's three ordered invocations:
/// initialize, stage everything, commit. They run fail-fast, in this
/// order.
pub fn version_control_commands() -> (cs: Vec<CommandLine>)
    ensures
        cs@.len() == 3,
        cs@[0].program@ == "git"@ && cs@[0].args@.len() == 1 && cs@[0].args@[0]@ == "init"@,
        cs@[1].program@ == "git"@ && cs@[1].args@.len() == 2 && cs@[1].args@[0]@ == "add"@
            && cs@[1].args@[1]@ == "."@,
        cs@[2].program@ == "git"@ && cs@[2].args@.len() == 3 && cs@[2].args@[0]@ == "commit"@
            && cs@[2].args@[1]@ == "-m"@ && cs@[2].args@[2]@ == "Initial Next.js setup"@,
{
    let mut init_args: Vec<String> = Vec::new();
    init_args.push("init".to_owned());
    let mut add_args: Vec<String> = Vec::new();
    add_args.push("add".to_owned());
    add_args.push(".".to_owned());
    let mut commit_args: Vec<String> = Vec::new();
    commit_args.push("commit".to_owned());
    commit_args.push("-m".to_owned());
    commit_args.push("Initial Next.js setup".to_owned());
    let mut cs: Vec<CommandLine> = Vec::new();
    cs.push(CommandLine { program: "git".to_owned(), args: init_args });
    cs.push(CommandLine { program: "git".to_owned(), args: add_args });
    cs.push(CommandLine { program: "git".to_owned(), args: commit_args });
    cs
}

/// The hosting collaborator's existence query: `view <name>`, judged by
/// exit status alone.
pub fn remote_view_command(name: &String) -> (c: CommandLine)
    ensures
        c.program@ == "gh"@,
        c.args@.len() == 3,
        c.args@[0]@ == "repo"@,
        c.args@[1]@ == "view"@,
        c.args@[2]@ == name@,
{
    let mut args: Vec<String> = Vec::new();
    args.push("repo".to_owned());
    args.push("view".to_owned());
    args.push(name.clone());
    CommandLine { program: "gh".to_owned(), args }
}

/// The hosting collaborator's create-and-push invocation, with the
/// operator's visibility choice.
pub fn remote_create_command(name: &String, is_public: bool) -> (c: CommandLine)
    ensures
        c.program@ == "gh"@,
        c.args@.len() == 7,
        c.args@[0]@ == "repo"@,
        c.args@[1]@ == "create"@,
        c.args@[2]@ == name@,
        is_public ==> c.args@[3]@ == "--public"@,
        !is_public ==> c.args@[3]@ == "--private"@,
        c.args@[4]@ == "--source=."@,
        c.args@[5]@ == "--remote=origin"@,
        c.args@[6]@ == "--push"@,
{
    let mut args: Vec<String> = Vec::new();
    args.push("repo".to_owned());
    args.push("create".to_owned());
    args.push(name.clone());
    args.push(crate::stage::visibility_flag(is_public));
    args.push("--source=.".to_owned());
    args.push("--remote=origin".to_owned());
    args.push("--push".to_owned());
    CommandLine { program: "gh".to_owned(), args }
}

/// The deployment collaborator's listing query, run inside the project
/// directory; its stdout feeds the deployment status check.
pub fn deploy_list_command() -> (c: CommandLine)
    ensures
        c.program@ == "vercel"@,
        c.args@.len() == 1,
        c.args@[0]@ == "ls"@,
{
    let mut args: Vec<String> = Vec::new();
    args.push("ls".to_owned());
    CommandLine { program: "vercel".to_owned(), args }
}

/// The non-interactive production deploy; its stdout is scanned for the
/// deployment URL.
pub fn deploy_command() -> (c: CommandLine)
    ensures
        c.program@ == "vercel"@,
        c.args@.len() == 3,
        c.args@[0]@ == "--yes"@,
        c.args@[1]@ == "--prod"@,
        c.args@[2]@ == "--confirm"@,
{
    let mut args: Vec<String> = Vec::new();
    args.push("--yes".to_owned());
    args.push("--prod".to_owned());
    args.push("--confirm".to_owned());
    CommandLine { program: "vercel".to_owned(), args }
}

} // verus!
