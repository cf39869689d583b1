use vstd::prelude::*;
use vstd::string::StringExecFns;
use path_absolutize::Absolutize;
use crate::admin::{uninstall_preparation, session_start, AdminSession, AdminStep};
use crate::error::{wrapped_message, AdminErrorKind, InstallerError};
use crate::state::ServiceState;

verus! {

/// The administrative commands, one per subcommand of the client.
#[derive(Clone, Copy, Debug, PartialEq, Eq, Structural)]
pub enum AdminCommand {
    Create,
    Delete,
    Query,
    Start,
    Stop,
}

/// The subcommand that selects each command.
pub open spec fn command_name(c: AdminCommand) -> Seq<char> {
    match c {
        AdminCommand::Create => "create"@,
        AdminCommand::Delete => "delete"@,
        AdminCommand::Query => "query"@,
        AdminCommand::Start => "start"@,
        AdminCommand::Stop => "stop"@,
    }
}

impl AdminCommand {
    pub fn name(&self) -> (r: String)
        ensures
            r@ == command_name(*self),
    {
        match self {
            AdminCommand::Create => String::from_str("create"),
            AdminCommand::Delete => String::from_str("delete"),
            AdminCommand::Query => String::from_str("query"),
            AdminCommand::Start => String::from_str("start"),
            AdminCommand::Stop => String::from_str("stop"),
        }
    }
}

/// The command whose subcommand is `action_type`, if any.
pub fn select_command(action_type: &String) -> (r: Option<AdminCommand>)
    ensures
        match r {
            Some(c) => action_type@ == command_name(c),
            None => forall|c: AdminCommand| action_type@ != #[trigger] command_name(c),
        },
{
    proof {
        reveal_strlit("create");
        reveal_strlit("delete");
        reveal_strlit("query");
        reveal_strlit("start");
        reveal_strlit("stop");
    }
    let all = [
        AdminCommand::Create,
        AdminCommand::Delete,
        AdminCommand::Query,
        AdminCommand::Start,
        AdminCommand::Stop,
    ];
    let mut i: usize = 0;
    while i < 5
        invariant
            0 <= i <= 5,
            all@ == seq![
                AdminCommand::Create,
                AdminCommand::Delete,
                AdminCommand::Query,
                AdminCommand::Start,
                AdminCommand::Stop,
            ],
            forall|j: int| 0 <= j < i ==> action_type@ != command_name(#[trigger] all@[j]),
        decreases 5 - i,
    {
        let name = all[i].name();
        if *action_type == name {
            return Some(all[i]);
        }
        i = i + 1;
    }
    proof {
        assert forall|c: AdminCommand| action_type@ != #[trigger] command_name(c) by {
            match c {
                AdminCommand::Create => assert(command_name(all@[0]) == command_name(c)),
                AdminCommand::Delete => assert(command_name(all@[1]) == command_name(c)),
                AdminCommand::Query => assert(command_name(all@[2]) == command_name(c)),
                AdminCommand::Start => assert(command_name(all@[3]) == command_name(c)),
                AdminCommand::Stop => assert(command_name(all@[4]) == command_name(c)),
            }
        }
    }
    None
}

/// The rights a command asks for: on the service-control manager (beyond
/// connecting to it) and on the service itself.
#[derive(Clone, Copy, Debug, PartialEq, Eq, Structural)]
pub struct AccessRights {
    pub create_service: bool,
    pub query_status: bool,
    pub start: bool,
    pub stop: bool,
    pub delete: bool,
}

/// Each command asks for the rights its steps use and no others: creating
/// needs the manager's create right only, every other command opens the
/// service with the right to query it plus the right of its own operation.
pub open spec fn access_spec(c: AdminCommand) -> AccessRights {
    AccessRights {
        create_service: c == AdminCommand::Create,
        query_status: c != AdminCommand::Create,
        start: c == AdminCommand::Start,
        stop: c == AdminCommand::Stop || c == AdminCommand::Delete,
        delete: c == AdminCommand::Delete,
    }
}

impl AdminCommand {
    pub fn access(&self) -> (r: AccessRights)
        ensures
            r == access_spec(*self),
    {
        let c = *self;
        AccessRights {
            create_service: c == AdminCommand::Create,
            query_status: c != AdminCommand::Create,
            start: c == AdminCommand::Start,
            stop: c == AdminCommand::Stop || c == AdminCommand::Delete,
            delete: c == AdminCommand::Delete,
        }
    }
}

/// The parsed command line of the administrative client.
#[derive(Clone, Debug)]
pub struct Argument {
    pub action_type: String,
    pub executable_path: String,
    pub service_name: String,
    pub display_name: String,
    pub description: String,
    pub auto_start: bool,
}

/// Context of the error raised when a path cannot be made absolute.
pub open spec fn absolutize_context() -> Seq<char> {
    "Fail to get absolute path. "@
}

/// Message of the error raised when the service executable is missing.
pub open spec fn missing_path_message(path: Seq<char>) -> Seq<char> {
    "The path "@ + path + " does not exist."@
}

/// The service path, from the path as given, the outcome of making it
/// absolute, and whether the absolute path exists.
pub fn resolve_service_path(
    executable_path: &str,
    absolutized: Result<String, String>,
    exists: bool,
) -> (r: Result<String, InstallerError>)
    ensures
        match absolutized {
            Err(e) => r is Err && r->Err_0.message@ == wrapped_message(absolutize_context(), e@),
            Ok(p) => if exists {
                r is Ok && r->Ok_0@ == p@
            } else {
                r is Err && r->Err_0.message@ == missing_path_message(executable_path@)
            },
        },
{
    match absolutized {
        Err(e) => Err(InstallerError::with(e.as_str(), "Fail to get absolute path. ")),
        Ok(p) => {
            if exists {
                Ok(p)
            } else {
                let mut message = String::from_str("The path ");
                message.append(executable_path);
                message.append(" does not exist.");
                Err(InstallerError { message })
            }
        },
    }
}

/// Relies on path_absolutize's `Absolutize::absolutize` for `std::path::Path`:
/// the path made absolute against the current directory, or the I/O error,
/// rendered by its `Debug` form. The result depends on the current directory,
/// so nothing is stated of it.
#[verifier::external_body]
fn absolutize(path: &str) -> (r: Result<String, String>) {
    match std::path::Path::new(path).absolutize() {
        Ok(p) => Ok(p.to_string_lossy().into_owned()),
        Err(e) => Err(format!("{:?}", e)),
    }
}

/// Relies on std's `Path::exists`: whether the file system holds an entry at
/// the path. That depends on the disk, so nothing is stated of it.
#[verifier::external_body]
fn path_exists(path: &String) -> (r: bool) {
    std::path::Path::new(path.as_str()).exists()
}

/// The absolute path of the service executable named by `argument`, which
/// must exist.
pub fn get_service_path(argument: &Argument) -> (r: Result<String, InstallerError>)
    ensures
        r is Err ==> r->Err_0.message@ == missing_path_message(argument.executable_path@) || exists|
            e: Seq<char>,
        | r->Err_0.message@ == wrapped_message(absolutize_context(), e),
{
    let absolutized = absolutize(argument.executable_path.as_str());
    let exists = match &absolutized {
        Ok(p) => path_exists(p),
        Err(_) => false,
    };
    resolve_service_path(argument.executable_path.as_str(), absolutized, exists)
}

pub struct InstallServiceFeature {}

pub struct QueryServiceFeature {}

pub struct StartServiceFeature {}

pub struct StopServiceFeature;

pub struct UninstallServiceFeature {}

impl InstallServiceFeature {
    pub fn get_sub_command_name(&self) -> (r: String)
        ensures
            r@ == command_name(AdminCommand::Create),
    {
        AdminCommand::Create.name()
    }
}

impl QueryServiceFeature {
    pub fn get_sub_command_name(&self) -> (r: String)
        ensures
            r@ == command_name(AdminCommand::Query),
    {
        AdminCommand::Query.name()
    }
}

impl StartServiceFeature {
    pub fn get_sub_command_name(&self) -> (r: String)
        ensures
            r@ == command_name(AdminCommand::Start),
    {
        AdminCommand::Start.name()
    }

    /// Start, then wait for `Running`.
    pub fn session(&self) -> (r: AdminSession)
        ensures
            r@ == session_start(seq![AdminStep::Start, AdminStep::WaitFor(ServiceState::Running)]),
            r@.well_formed(),
    {
        AdminSession::start_and_wait()
    }
}

impl StopServiceFeature {
    pub fn get_sub_command_name(&self) -> (r: String)
        ensures
            r@ == command_name(AdminCommand::Stop),
    {
        AdminCommand::Stop.name()
    }

    /// Stop, then wait for `Stopped`.
    pub fn session(&self) -> (r: AdminSession)
        ensures
            r@ == session_start(seq![AdminStep::Stop, AdminStep::WaitFor(ServiceState::Stopped)]),
            r@.well_formed(),
    {
        AdminSession::stop_and_wait()
    }
}

impl UninstallServiceFeature {
    pub fn get_sub_command_name(&self) -> (r: String)
        ensures
            r@ == command_name(AdminCommand::Delete),
    {
        AdminCommand::Delete.name()
    }

    /// The removal of a service found in `discovered`.
    pub fn session(&self, discovered: ServiceState) -> (r: Result<AdminSession, AdminErrorKind>)
        ensures
            match uninstall_preparation(discovered) {
                Some(p) => r is Ok && r->Ok_0@ == session_start(p.push(AdminStep::Delete))
                    && r->Ok_0@.well_formed(),
                None => r is Err && r->Err_0 == AdminErrorKind::UnsupportedState,
            },
    {
        AdminSession::uninstall(discovered)
    }
}

} // verus!
