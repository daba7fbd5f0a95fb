//! The commands of the tool, and how each maps to what is to be done.

use crate::policy::GenerationPolicy;
use vstd::prelude::*;
use vstd::string::*;

verus! {

/// One parsed command with its options.
#[derive(Debug)]
pub enum Command {
    Add {
        file_name: Option<String>,
        service: String,
        username: Option<String>,
        password: Option<String>,
        master: Option<String>,
        generate: bool,
        length: usize,
        symbols: bool,
        uppercase: bool,
        lowercase: bool,
        numbers: bool,
    },
    Generate {
        length: usize,
        symbols: bool,
        uppercase: bool,
        lowercase: bool,
        numbers: bool,
        count: usize,
    },
    List { file_name: Option<String>, master: Option<String>, show_passwords: bool },
    Remove {
        file_name: Option<String>,
        service: String,
        username: Option<String>,
        master: Option<String>,
    },
    Show {
        file_name: Option<String>,
        service: String,
        username: Option<String>,
        master: Option<String>,
    },
    UpdateMaster {
        file_name: Option<String>,
        master: Option<String>,
        new_master: Option<String>,
    },
    Repl { file_name: Option<String> },
}

/// The arguments of one invocation.
#[derive(Debug)]
pub struct Args {
    pub command: Command,
}

/// An action on an open vault, with its inputs resolved. A new master
/// passphrase that was not supplied is still to be asked for.
pub enum VaultAction {
    Add {
        service: String,
        username: String,
        password: Option<String>,
        generate: bool,
        policy: GenerationPolicy,
    },
    List { show_passwords: bool },
    Remove { service: String, username: String },
    Show { service: String, username: String },
    UpdateMaster { new_master: Option<String> },
}

/// What a vault action holds, as sequences of characters.
pub enum VaultActionView {
    Add {
        service: Seq<char>,
        username: Seq<char>,
        password: Option<Seq<char>>,
        generate: bool,
        policy: GenerationPolicy,
    },
    List { show_passwords: bool },
    Remove { service: Seq<char>, username: Seq<char> },
    Show { service: Seq<char>, username: Seq<char> },
    UpdateMaster { new_master: Option<Seq<char>> },
}

impl View for VaultAction {
    type V = VaultActionView;

    open spec fn view(&self) -> VaultActionView {
        match *self {
            VaultAction::Add { service, username, password, generate, policy } => {
                VaultActionView::Add {
                    service: service@,
                    username: username@,
                    password: text_of(password),
                    generate,
                    policy,
                }
            },
            VaultAction::List { show_passwords } => VaultActionView::List { show_passwords },
            VaultAction::Remove { service, username } => VaultActionView::Remove {
                service: service@,
                username: username@,
            },
            VaultAction::Show { service, username } => VaultActionView::Show {
                service: service@,
                username: username@,
            },
            VaultAction::UpdateMaster { new_master } => VaultActionView::UpdateMaster {
                new_master: text_of(new_master),
            },
        }
    }
}

/// What is to be done for one command.
pub enum Plan {
    /// Generate passwords; no vault is opened and no passphrase asked for.
    Generate { policy: GenerationPolicy },
    /// Open the vault at `path` and act on it. A master passphrase that was
    /// not supplied is still to be asked for.
    Vault { path: String, master: Option<String>, action: VaultAction },
    /// Run the interactive session on the vault at `path`.
    Repl { path: String },
}

/// What a plan holds, as sequences of characters.
pub enum PlanView {
    Generate { policy: GenerationPolicy },
    Vault { path: Seq<char>, master: Option<Seq<char>>, action: VaultActionView },
    Repl { path: Seq<char> },
}

impl View for Plan {
    type V = PlanView;

    open spec fn view(&self) -> PlanView {
        match *self {
            Plan::Generate { policy } => PlanView::Generate { policy },
            Plan::Vault { path, master, action } => PlanView::Vault {
                path: path@,
                master: text_of(master),
                action: action@,
            },
            Plan::Repl { path } => PlanView::Repl { path: path@ },
        }
    }
}

/// The view of an optional string.
pub open spec fn text_of(text: Option<String>) -> Option<Seq<char>> {
    match text {
        Some(t) => Some(t@),
        None => None,
    }
}

/// The name of the vault file that is used when none is given.
pub open spec fn default_file_name() -> Seq<char> {
    "passwords"@
}

/// The vault file for a command: the one given, else the default.
pub open spec fn path_of(file_name: Option<String>) -> Seq<char> {
    match file_name {
        Some(name) => name@,
        None => default_file_name(),
    }
}

/// The username for a command: the one given, else the empty one.
pub open spec fn username_of(username: Option<String>) -> Seq<char> {
    match username {
        Some(name) => name@,
        None => Seq::empty(),
    }
}

/// The plan for `command`: which vault file, whether the master passphrase
/// is at hand, and which action with which inputs.
pub open spec fn plan_of(command: Command) -> PlanView {
    match command {
        Command::Add {
            file_name,
            service,
            username,
            password,
            master,
            generate,
            length,
            symbols,
            uppercase,
            lowercase,
            numbers,
        } => PlanView::Vault {
            path: path_of(file_name),
            master: text_of(master),
            action: VaultActionView::Add {
                service: service@,
                username: username_of(username),
                password: text_of(password),
                generate,
                policy: GenerationPolicy {
                    length,
                    use_symbols: symbols,
                    use_uppercase: uppercase,
                    use_lowercase: lowercase,
                    use_numbers: numbers,
                    count: 1,
                },
            },
        },
        Command::Generate { length, symbols, uppercase, lowercase, numbers, count } => {
            PlanView::Generate {
                policy: GenerationPolicy {
                    length,
                    use_symbols: symbols,
                    use_uppercase: uppercase,
                    use_lowercase: lowercase,
                    use_numbers: numbers,
                    count,
                },
            }
        },
        Command::List { file_name, master, show_passwords } => PlanView::Vault {
            path: path_of(file_name),
            master: text_of(master),
            action: VaultActionView::List { show_passwords },
        },
        Command::Remove { file_name, service, username, master } => PlanView::Vault {
            path: path_of(file_name),
            master: text_of(master),
            action: VaultActionView::Remove { service: service@, username: username_of(username) },
        },
        Command::Show { file_name, service, username, master } => PlanView::Vault {
            path: path_of(file_name),
            master: text_of(master),
            action: VaultActionView::Show { service: service@, username: username_of(username) },
        },
        Command::UpdateMaster { file_name, master, new_master } => PlanView::Vault {
            path: path_of(file_name),
            master: text_of(master),
            action: VaultActionView::UpdateMaster { new_master: text_of(new_master) },
        },
        Command::Repl { file_name } => PlanView::Repl { path: path_of(file_name) },
    }
}

/// The vault file to use: the one given, else the default.
pub fn resolve_path(file_name: Option<String>) -> (path: String)
    ensures
        path@ == path_of(file_name),
{
    match file_name {
        Some(name) => name,
        None => String::from_str("passwords"),
    }
}

/// The username to use: the one given, else the empty one.
pub fn resolve_username(username: Option<String>) -> (name: String)
    ensures
        name@ == username_of(username),
{
    match username {
        Some(name) => name,
        None => String::new(),
    }
}

impl Command {
    /// Maps the parsed command to its plan. Nothing is read, asked for or
    /// opened here: the plan says what remains to be done.
    pub fn map(cli_args: Args) -> (plan: Plan)
        ensures
            plan@ == plan_of(cli_args.command),
    {
        match cli_args.command {
            Command::Add {
                file_name,
                service,
                username,
                password,
                master,
                generate,
                length,
                symbols,
                uppercase,
                lowercase,
                numbers,
            } => Plan::Vault {
                path: resolve_path(file_name),
                master,
                action: VaultAction::Add {
                    service,
                    username: resolve_username(username),
                    password,
                    generate,
                    policy: GenerationPolicy {
                        length,
                        use_symbols: symbols,
                        use_uppercase: uppercase,
                        use_lowercase: lowercase,
                        use_numbers: numbers,
                        count: 1,
                    },
                },
            },
            Command::Generate { length, symbols, uppercase, lowercase, numbers, count } => {
                Plan::Generate {
                    policy: GenerationPolicy {
                        length,
                        use_symbols: symbols,
                        use_uppercase: uppercase,
                        use_lowercase: lowercase,
                        use_numbers: numbers,
                        count,
                    },
                }
            },
            Command::List { file_name, master, show_passwords } => Plan::Vault {
                path: resolve_path(file_name),
                master,
                action: VaultAction::List { show_passwords },
            },
            Command::Remove { file_name, service, username, master } => Plan::Vault {
                path: resolve_path(file_name),
                master,
                action: VaultAction::Remove { service, username: resolve_username(username) },
            },
            Command::Show { file_name, service, username, master } => Plan::Vault {
                path: resolve_path(file_name),
                master,
                action: VaultAction::Show { service, username: resolve_username(username) },
            },
            Command::UpdateMaster { file_name, master, new_master } => Plan::Vault {
                path: resolve_path(file_name),
                master,
                action: VaultAction::UpdateMaster { new_master },
            },
            Command::Repl { file_name } => Plan::Repl { path: resolve_path(file_name) },
        }
    }
}

} // verus!
