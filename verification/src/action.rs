use vstd::prelude::*;

verus! {

/// One configuration step.  A plan is a sequence of these; an unverified
/// driver carries them out in order, aborting the whole pass on the first
/// failure.
///
/// The variants mirror the side effects the configurator needs: plain
/// filesystem edits, process invocations through fixed system tools, and
/// two operations delegated to external collaborators (the system package
/// manager and the per-user command runner for editor extensions).
pub enum Action {
    /// Append `data` to the file at `path`, which must already exist
    /// (the file is opened in append mode, never created).
    AppendFile { path: String, data: String },
    /// Move the file at `from` to `to`.
    MoveFile { from: String, to: String },
    /// Create the directory `path` together with all missing parents.
    CreateDirAll { path: String },
    /// Read the file at `path`, substitute the proxy credentials for the
    /// empty-string placeholders (see [`crate::text::substitute_secrets`]),
    /// and write the result back.
    SubstituteSecrets { path: String, server: String, password: String },
    /// Enable the service `service` in the init system.
    EnableService { service: String },
    /// Change the login shell of `user` to the alternate shell.
    ChangeShell { user: String },
    /// Clone the repository at `url` into `dest`, which must not exist yet.
    GitClone { url: String, dest: String },
    /// Recursively change the owner of `path` to `user` (group left to
    /// its default).
    ChownRecursive { user: String, path: String },
    /// Install `packages` through the system package manager.
    PacmanInstall { packages: Vec<String> },
    /// Install the editor extension `extension`: as `Some(user)` through
    /// the privilege-dropping command runner, as root when `user` is
    /// `None`.
    InstallExtension { as_user: Option<String>, extension: String },
}

/// Mathematical image of an [`Action`]: every string as a sequence of
/// characters.
#[verifier::ext_equal]
pub enum ActionV {
    AppendFile { path: Seq<char>, data: Seq<char> },
    MoveFile { from: Seq<char>, to: Seq<char> },
    CreateDirAll { path: Seq<char> },
    SubstituteSecrets { path: Seq<char>, server: Seq<char>, password: Seq<char> },
    EnableService { service: Seq<char> },
    ChangeShell { user: Seq<char> },
    GitClone { url: Seq<char>, dest: Seq<char> },
    ChownRecursive { user: Seq<char>, path: Seq<char> },
    PacmanInstall { packages: Seq<Seq<char>> },
    InstallExtension { as_user: Option<Seq<char>>, extension: Seq<char> },
}

impl View for Action {
    type V = ActionV;

    open spec fn view(&self) -> ActionV {
        match self {
            Action::AppendFile { path, data } => ActionV::AppendFile {
                path: path@,
                data: data@,
            },
            Action::MoveFile { from, to } => ActionV::MoveFile { from: from@, to: to@ },
            Action::CreateDirAll { path } => ActionV::CreateDirAll { path: path@ },
            Action::SubstituteSecrets { path, server, password } => ActionV::SubstituteSecrets {
                path: path@,
                server: server@,
                password: password@,
            },
            Action::EnableService { service } => ActionV::EnableService { service: service@ },
            Action::ChangeShell { user } => ActionV::ChangeShell { user: user@ },
            Action::GitClone { url, dest } => ActionV::GitClone { url: url@, dest: dest@ },
            Action::ChownRecursive { user, path } => ActionV::ChownRecursive {
                user: user@,
                path: path@,
            },
            Action::PacmanInstall { packages } => ActionV::PacmanInstall {
                packages: packages.deep_view(),
            },
            Action::InstallExtension { as_user, extension } => ActionV::InstallExtension {
                as_user: match as_user {
                    Some(u) => Some(u@),
                    None => None,
                },
                extension: extension@,
            },
        }
    }
}

impl DeepView for Action {
    type V = ActionV;

    open spec fn deep_view(&self) -> ActionV {
        self.view()
    }
}

/// A fully rendered process invocation: the program name and its
/// arguments, in order.
pub struct CommandLine {
    pub program: String,
    pub args: Vec<String>,
}

/// Mathematical image of a [`CommandLine`].
#[verifier::ext_equal]
pub struct CommandLineV {
    pub program: Seq<char>,
    pub args: Seq<Seq<char>>,
}

impl View for CommandLine {
    type V = CommandLineV;

    open spec fn view(&self) -> CommandLineV {
        CommandLineV { program: self.program@, args: self.args.deep_view() }
    }
}

/// The exact process invocation for the actions that run a fixed system
/// tool.  `None` for the filesystem actions and for the two actions
/// delegated to external collaborators (package manager, per-user command
/// runner), whose invocation is the driver's business.
pub open spec fn spec_command_for(a: ActionV) -> Option<CommandLineV> {
    match a {
        ActionV::EnableService { service } => Some(CommandLineV {
            program: "systemctl"@,
            args: seq!["enable"@, service],
        }),
        ActionV::ChangeShell { user } => Some(CommandLineV {
            program: "chsh"@,
            args: seq!["--shell=/bin/zsh"@, user],
        }),
        ActionV::GitClone { url, dest } => Some(CommandLineV {
            program: "git"@,
            args: seq!["clone"@, url, dest],
        }),
        ActionV::ChownRecursive { user, path } => Some(CommandLineV {
            program: "chown"@,
            args: seq!["-R"@, user + ":"@, path],
        }),
        _ => None,
    }
}

/// Render the process invocation for an action, exactly as
/// [`spec_command_for`] states it.
pub fn command_for(a: &Action) -> (r: Option<CommandLine>)
    ensures
        match r {
            Some(c) => spec_command_for(a@) == Some(c@),
            None => spec_command_for(a@) is None,
        },
{
    match a {
        Action::EnableService { service } => {
            let mut args: Vec<String> = Vec::new();
            args.push("enable".to_owned());
            args.push(service.clone());
            let c = CommandLine { program: "systemctl".to_owned(), args };
            proof {
                assert(c@.args =~= seq!["enable"@, service@]);
            }
            Some(c)
        },
        Action::ChangeShell { user } => {
            let mut args: Vec<String> = Vec::new();
            args.push("--shell=/bin/zsh".to_owned());
            args.push(user.clone());
            let c = CommandLine { program: "chsh".to_owned(), args };
            proof {
                assert(c@.args =~= seq!["--shell=/bin/zsh"@, user@]);
            }
            Some(c)
        },
        Action::GitClone { url, dest } => {
            let mut args: Vec<String> = Vec::new();
            args.push("clone".to_owned());
            args.push(url.clone());
            args.push(dest.clone());
            let c = CommandLine { program: "git".to_owned(), args };
            proof {
                assert(c@.args =~= seq!["clone"@, url@, dest@]);
            }
            Some(c)
        },
        Action::ChownRecursive { user, path } => {
            let mut args: Vec<String> = Vec::new();
            args.push("-R".to_owned());
            args.push(user.clone().concat(":"));
            args.push(path.clone());
            let c = CommandLine { program: "chown".to_owned(), args };
            proof {
                assert(c@.args =~= seq!["-R"@, user@ + ":"@, path@]);
            }
            Some(c)
        },
        _ => None,
    }
}

} // verus!
