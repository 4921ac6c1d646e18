//! Calls of `ibcmd`.

use vstd::prelude::*;
use crate::config::{InfobaseConfig, InfobaseConfigView};
use crate::outside::{lowercase, to_lowercase};
use crate::platform::connection::{connection_of, file_path_of, V8Connection};
use crate::platform::designer::{plain_request, process_of};
use crate::platform::process::{
    process_error_text, ProcessError, ProcessErrorView, ProcessRequest, ProcessRequestView,
    ProcessResult,
};
use crate::platform::result::{PlatformCommandResult, PlatformCommandResultView};
use crate::text::{
    cat2, cat3, clone_opt, is_blank, opt_str, opt_text, push_text, push_texts, text_is_blank,
    texts, trim, trimmed,
};
use crate::text_scan::{contains, lines, text_contains, text_lines};

verus! {

/// Failure of a call of `ibcmd`.
#[derive(Debug, PartialEq, Eq)]
pub enum IbcmdError {
    MissingServerDbmsField(String),
    Spawn(ProcessError),
}

/// Mathematical value of [`IbcmdError`].
pub enum IbcmdErrorView {
    MissingServerDbmsField(Seq<char>),
    Spawn(ProcessErrorView),
}

impl View for IbcmdError {
    type V = IbcmdErrorView;

    open spec fn view(&self) -> IbcmdErrorView {
        match *self {
            IbcmdError::MissingServerDbmsField(x0) => IbcmdErrorView::MissingServerDbmsField(x0@),
            IbcmdError::Spawn(x0) => IbcmdErrorView::Spawn(x0@),
        }
    }
}

/// Text shown for a failure.
pub open spec fn ibcmd_error_text(error: IbcmdErrorView) -> Seq<char> {
    match error {
        IbcmdErrorView::MissingServerDbmsField(field) =>
            "server-based IBCMD connection requires infobase.dbms."@ + field,
        IbcmdErrorView::Spawn(source) => "failed to execute ibcmd process: "@
            + process_error_text(source),
    }
}

impl IbcmdError {
    /// Text shown to the user.
    pub fn message(&self) -> (r: String)
        ensures
            r@ == ibcmd_error_text(self@),
    {
        match self {
            IbcmdError::MissingServerDbmsField(field) => cat2(
                "server-based IBCMD connection requires infobase.dbms.",
                field.as_str(),
            ),
            IbcmdError::Spawn(source) => cat2(
                "failed to execute ibcmd process: ",
                source.message().as_str(),
            ),
        }
    }
}

// ---------------------------------------------------------------------------------------------
// Connection

/// Infobase that `ibcmd` works on.
#[derive(Debug, PartialEq, Eq)]
pub enum IbcmdConnection {
    File { database_path: String, user: Option<String>, password: Option<String> },
    Server {
        dbms_kind: String,
        database_server: String,
        database_name: String,
        user: Option<String>,
        password: Option<String>,
        database_user: Option<String>,
        database_password: Option<String>,
    },
}

/// Mathematical value of [`IbcmdConnection`].
pub enum IbcmdConnectionView {
    File { database_path: Seq<char>, user: Option<Seq<char>>, password: Option<Seq<char>> },
    Server {
        dbms_kind: Seq<char>,
        database_server: Seq<char>,
        database_name: Seq<char>,
        user: Option<Seq<char>>,
        password: Option<Seq<char>>,
        database_user: Option<Seq<char>>,
        database_password: Option<Seq<char>>,
    },
}

impl View for IbcmdConnection {
    type V = IbcmdConnectionView;

    open spec fn view(&self) -> IbcmdConnectionView {
        match *self {
            IbcmdConnection::File { database_path, user, password } => IbcmdConnectionView::File {
                database_path: database_path@,
                user: opt_text(user),
                password: opt_text(password),
            },
            IbcmdConnection::Server {
                dbms_kind,
                database_server,
                database_name,
                user,
                password,
                database_user,
                database_password,
            } => IbcmdConnectionView::Server {
                dbms_kind: dbms_kind@,
                database_server: database_server@,
                database_name: database_name@,
                user: opt_text(user),
                password: opt_text(password),
                database_user: opt_text(database_user),
                database_password: opt_text(database_password),
            },
        }
    }
}

/// Trimmed value of a field that has to be given.
pub open spec fn required_field(value: Option<Seq<char>>) -> Option<Seq<char>> {
    match value {
        Some(v) => if is_blank(v) {
            None
        } else {
            Some(trim(v))
        },
        None => None,
    }
}

/// Infobase of a configuration: a file where the connection names one, else a database on a server
/// whose kind, server and name are given. Otherwise the first field that is missing.
pub open spec fn ibcmd_connection(infobase: InfobaseConfigView) -> Result<
    IbcmdConnectionView,
    Seq<char>,
> {
    match file_path_of(connection_of(infobase.connection)) {
        Some(path) => Ok(
            IbcmdConnectionView::File {
                database_path: path,
                user: infobase.user,
                password: infobase.password,
            },
        ),
        None => match infobase.dbms {
            None => Err("kind"@),
            Some(dbms) => if required_field(dbms.kind) is None {
                Err("kind"@)
            } else if required_field(dbms.server) is None {
                Err("server"@)
            } else if required_field(dbms.name) is None {
                Err("name"@)
            } else {
                Ok(
                    IbcmdConnectionView::Server {
                        dbms_kind: required_field(dbms.kind)->0,
                        database_server: required_field(dbms.server)->0,
                        database_name: required_field(dbms.name)->0,
                        user: infobase.user,
                        password: infobase.password,
                        database_user: dbms.user,
                        database_password: dbms.password,
                    },
                )
            },
        },
    }
}

/// Arguments that name the infobase.
pub open spec fn infobase_arguments(c: IbcmdConnectionView) -> Seq<Seq<char>> {
    match c {
        IbcmdConnectionView::File { database_path, .. } => seq!["--db-path"@, database_path],
        IbcmdConnectionView::Server { dbms_kind, database_server, database_name, .. } => seq![
            "--dbms"@,
            dbms_kind,
            "--database-server"@,
            database_server,
            "--database-name"@,
            database_name,
        ],
    }
}

/// User and password of the infobase.
pub open spec fn credentials(c: IbcmdConnectionView) -> (Option<Seq<char>>, Option<Seq<char>>) {
    match c {
        IbcmdConnectionView::File { user, password, .. } => (user, password),
        IbcmdConnectionView::Server { user, password, .. } => (user, password),
    }
}

/// The option with its value, where the condition holds.
pub open spec fn option_if(condition: bool, key: Seq<char>, value: Seq<char>) -> Seq<Seq<char>> {
    if condition {
        seq![key, value]
    } else {
        Seq::empty()
    }
}

/// The text, or an empty one.
pub open spec fn text_of(value: Option<Seq<char>>) -> Seq<char> {
    match value {
        Some(v) => v,
        None => Seq::empty(),
    }
}

/// Arguments that name the user of the infobase.
pub open spec fn auth_arguments(c: IbcmdConnectionView) -> Seq<Seq<char>> {
    let user = credentials(c).0;
    let password = credentials(c).1;
    option_if(user is Some, "--user"@, text_of(user)) + option_if(
        text_of(password).len() > 0,
        "--password"@,
        text_of(password),
    )
}

/// Arguments that name the user of the database.
pub open spec fn dbms_auth_arguments(c: IbcmdConnectionView) -> Seq<Seq<char>> {
    match c {
        IbcmdConnectionView::File { .. } => Seq::empty(),
        IbcmdConnectionView::Server { database_user, database_password, .. } => option_if(
            !is_blank(text_of(database_user)),
            "--database-user"@,
            text_of(database_user),
        ) + option_if(
            text_of(database_password).len() > 0,
            "--database-password"@,
            text_of(database_password),
        ),
    }
}

fn push_option_value(args: &mut Vec<String>, key: &str, value: &str)
    ensures
        texts(final(args)@) == texts(old(args)@) + seq![key@, value@],
{
    let ghost before = texts(args@);
    push_text(args, key);
    push_text(args, value);
    assert(texts(args@) =~= before + seq![key@, value@]);
}

fn push_option_if(args: &mut Vec<String>, condition: bool, key: &str, value: &str)
    ensures
        texts(final(args)@) == texts(old(args)@) + option_if(condition, key@, value@),
{
    if condition {
        push_option_value(args, key, value);
    } else {
        assert(texts(args@) =~= texts(args@) + Seq::<Seq<char>>::empty());
    }
}

fn slice_or_empty(value: &Option<String>) -> (r: &str)
    ensures
        r@ == text_of(opt_text(*value)),
{
    match value {
        Some(v) => v.as_str(),
        None => {
            proof {
                reveal_strlit("");
                assert(""@ =~= Seq::<char>::empty());
            }
            ""
        },
    }
}

fn required_dbms_field(value: &Option<String>) -> (r: Option<String>)
    ensures
        opt_text(r) == required_field(opt_text(*value)),
{
    match value {
        Some(v) => {
            let t = trimmed(v.as_str());
            if t.as_str().is_empty() {
                None
            } else {
                Some(t)
            }
        },
        None => None,
    }
}

fn missing(field: &str) -> (r: IbcmdError)
    ensures
        r@ == IbcmdErrorView::MissingServerDbmsField(field@),
{
    IbcmdError::MissingServerDbmsField(field.to_owned())
}

impl IbcmdConnection {
    /// Infobase of a configuration.
    pub fn from_infobase(infobase: &InfobaseConfig) -> (r: Result<Self, IbcmdError>)
        ensures
            match r {
                Ok(c) => ibcmd_connection(infobase@) == Ok::<IbcmdConnectionView, Seq<char>>(c@),
                Err(e) => ibcmd_connection(infobase@) is Err && e@
                    == IbcmdErrorView::MissingServerDbmsField(ibcmd_connection(infobase@)->Err_0),
            },
    {
        let connection = V8Connection::from_connection_string(infobase.connection.as_str());
        if let Some(database_path) = connection.file_path() {
            return Ok(
                IbcmdConnection::File {
                    database_path,
                    user: clone_opt(&infobase.user),
                    password: clone_opt(&infobase.password),
                },
            );
        }
        let dbms = match &infobase.dbms {
            Some(dbms) => dbms,
            None => {
                return Err(missing("kind"));
            },
        };
        let dbms_kind = match required_dbms_field(&dbms.kind) {
            Some(value) => value,
            None => {
                return Err(missing("kind"));
            },
        };
        let database_server = match required_dbms_field(&dbms.server) {
            Some(value) => value,
            None => {
                return Err(missing("server"));
            },
        };
        let database_name = match required_dbms_field(&dbms.name) {
            Some(value) => value,
            None => {
                return Err(missing("name"));
            },
        };
        Ok(
            IbcmdConnection::Server {
                dbms_kind,
                database_server,
                database_name,
                user: clone_opt(&infobase.user),
                password: clone_opt(&infobase.password),
                database_user: clone_opt(&dbms.user),
                database_password: clone_opt(&dbms.password),
            },
        )
    }

    /// Arguments that name the infobase and its users.
    pub fn args(&self) -> (r: Vec<String>)
        ensures
            texts(r@) == infobase_arguments(self@) + auth_arguments(self@) + dbms_auth_arguments(
                self@,
            ),
    {
        let mut args = self.infobase_args();
        push_texts(&mut args, &self.auth_args());
        push_texts(&mut args, &self.dbms_auth_args());
        args
    }

    fn infobase_args(&self) -> (r: Vec<String>)
        ensures
            texts(r@) == infobase_arguments(self@),
    {
        let mut args: Vec<String> = Vec::new();
        assert(texts(args@) =~= Seq::<Seq<char>>::empty());
        match self {
            IbcmdConnection::File { database_path, .. } => {
                push_option_value(&mut args, "--db-path", database_path.as_str());
            },
            IbcmdConnection::Server { dbms_kind, database_server, database_name, .. } => {
                push_option_value(&mut args, "--dbms", dbms_kind.as_str());
                push_option_value(&mut args, "--database-server", database_server.as_str());
                push_option_value(&mut args, "--database-name", database_name.as_str());
            },
        }
        assert(texts(args@) =~= infobase_arguments(self@));
        args
    }

    fn auth_args(&self) -> (r: Vec<String>)
        ensures
            texts(r@) == auth_arguments(self@),
    {
        let mut args: Vec<String> = Vec::new();
        assert(texts(args@) =~= Seq::<Seq<char>>::empty());
        let (user, password) = match self {
            IbcmdConnection::File { user, password, .. } => (user, password),
            IbcmdConnection::Server { user, password, .. } => (user, password),
        };
        push_option_if(&mut args, user.is_some(), "--user", slice_or_empty(user));
        let password = slice_or_empty(password);
        push_option_if(&mut args, !password.is_empty(), "--password", password);
        assert(texts(args@) =~= auth_arguments(self@));
        args
    }

    fn dbms_auth_args(&self) -> (r: Vec<String>)
        ensures
            texts(r@) == dbms_auth_arguments(self@),
    {
        let mut args: Vec<String> = Vec::new();
        assert(texts(args@) =~= Seq::<Seq<char>>::empty());
        if let IbcmdConnection::Server { database_user, database_password, .. } = self {
            let user = slice_or_empty(database_user);
            push_option_if(&mut args, !text_is_blank(user), "--database-user", user);
            let password = slice_or_empty(database_password);
            push_option_if(&mut args, !password.is_empty(), "--database-password", password);
        }
        assert(texts(args@) =~= dbms_auth_arguments(self@));
        args
    }
}

// ---------------------------------------------------------------------------------------------
// Calls

/// How changes are applied while the infobase is in use.
#[derive(Clone, Copy, Debug, PartialEq, Eq, Structural)]
pub enum DynamicUpdateMode {
    Auto,
}

impl DynamicUpdateMode {
    fn as_str(self) -> (r: &'static str)
        ensures
            r@ == "auto"@,
    {
        match self {
            DynamicUpdateMode::Auto => "auto",
        }
    }
}

/// How the creation of an infobase ended.
#[derive(Clone, Copy, Debug, PartialEq, Eq, Structural)]
pub enum IbcmdInfobaseCreateStatus {
    Created,
    AlreadyExists,
    Failed,
}

/// How the creation of an infobase ended, with the result of the call.
#[derive(Debug, PartialEq, Eq)]
pub struct IbcmdInfobaseCreateOutcome {
    pub status: IbcmdInfobaseCreateStatus,
    pub result: PlatformCommandResult,
}

/// Calls of `ibcmd` on one infobase.
#[derive(Debug, PartialEq, Eq)]
pub struct IbcmdDsl {
    pub binary: String,
    pub connection: IbcmdConnection,
}

/// Mathematical value of [`IbcmdDsl`].
pub struct IbcmdDslView {
    pub binary: Seq<char>,
    pub connection: IbcmdConnectionView,
}

impl View for IbcmdDsl {
    type V = IbcmdDslView;

    open spec fn view(&self) -> IbcmdDslView {
        IbcmdDslView {
            binary: self.binary@,
            connection: self.connection@,
        }
    }
}

/// Arguments of a command before those of its own: the infobase stands before the command, the
/// users behind it.
pub open spec fn command_args(c: IbcmdConnectionView, command: Seq<Seq<char>>) -> Seq<Seq<char>> {
    seq!["infobase"@] + infobase_arguments(c) + command + auth_arguments(c)
        + dbms_auth_arguments(c)
}

/// Arguments of the creation of an infobase.
pub open spec fn create_args(c: IbcmdConnectionView) -> Seq<Seq<char>> {
    command_args(
        c,
        if c is Server {
            seq!["create"@, "--create-database"@]
        } else {
            seq!["create"@]
        },
    )
}

/// Option that names an extension.
pub open spec fn extension_option(extension: Option<Seq<char>>) -> Seq<Seq<char>> {
    option_if(extension is Some, "--extension"@, text_of(extension))
}

/// `yes` or `no`.
pub open spec fn yes_no(value: bool) -> Seq<char> {
    if value {
        "yes"@
    } else {
        "no"@
    }
}

/// Call of a command with its own arguments.
pub open spec fn ibcmd_call(
    d: IbcmdDslView,
    command: Seq<Seq<char>>,
    own: Seq<Seq<char>>,
) -> ProcessRequestView {
    process_of(d.binary, command_args(d.connection, command) + own)
}

fn yes_or_no(value: bool) -> (r: &'static str)
    ensures
        r@ == yes_no(value),
{
    if value {
        "yes"
    } else {
        "no"
    }
}

fn push_extension(args: &mut Vec<String>, extension: Option<&str>)
    ensures
        texts(final(args)@) == texts(old(args)@) + extension_option(opt_str(extension)),
{
    match extension {
        Some(name) => {
            push_option_value(args, "--extension", name);
        },
        None => {
            assert(texts(args@) =~= texts(args@) + Seq::<Seq<char>>::empty());
        },
    }
}

fn words(a: &str, b: &str) -> (r: Vec<String>)
    ensures
        texts(r@) == seq![a@, b@],
{
    let mut out: Vec<String> = Vec::new();
    push_text(&mut out, a);
    push_text(&mut out, b);
    assert(texts(out@) =~= seq![a@, b@]);
    out
}

impl IbcmdDsl {
    /// Calls of the executable on the infobase.
    pub fn new(binary: String, connection: IbcmdConnection) -> (r: Self)
        ensures
            r@ == (IbcmdDslView { binary: binary@, connection: connection@ }),
    {
        IbcmdDsl { binary, connection }
    }

    fn authenticated_infobase_args(&self, command: &Vec<String>) -> (r: Vec<String>)
        ensures
            texts(r@) == command_args(self@.connection, texts(command@)),
    {
        let mut args: Vec<String> = Vec::new();
        push_text(&mut args, "infobase");
        assert(texts(args@) =~= seq!["infobase"@]);
        push_texts(&mut args, &self.connection.infobase_args());
        push_texts(&mut args, command);
        push_texts(&mut args, &self.connection.auth_args());
        push_texts(&mut args, &self.connection.dbms_auth_args());
        args
    }

    /// Imports a full configuration or extension.
    pub fn config_import_full(&self, source_dir: &str, extension: Option<&str>) -> (r:
        ProcessRequest)
        ensures
            r@ == ibcmd_call(
                self@,
                seq!["config"@, "import"@],
                extension_option(opt_str(extension)) + seq![source_dir@],
            ),
    {
        let mut args = self.authenticated_infobase_args(&words("config", "import"));
        let ghost base = texts(args@);
        push_extension(&mut args, extension);
        push_text(&mut args, source_dir);
        assert(texts(args@) =~= base + (extension_option(opt_str(extension)) + seq![source_dir@]));
        plain_request(self.binary.as_str(), args)
    }

    /// Creates the infobase.
    pub fn ensure_infobase_create(&self) -> (r: ProcessRequest)
        ensures
            r@ == process_of(self@.binary, create_args(self@.connection)),
    {
        let mut command: Vec<String> = Vec::new();
        push_text(&mut command, "create");
        match &self.connection {
            IbcmdConnection::Server { .. } => {
                push_text(&mut command, "--create-database");
                assert(texts(command@) =~= seq!["create"@, "--create-database"@]);
            },
            IbcmdConnection::File { .. } => {
                assert(texts(command@) =~= seq!["create"@]);
            },
        }
        let args = self.authenticated_infobase_args(&command);
        plain_request(self.binary.as_str(), args)
    }

    /// Sets the safety of an extension.
    pub fn infobase_extension_update_properties(
        &self,
        name: &str,
        safe_mode: bool,
        unsafe_action_protection: bool,
    ) -> (r: ProcessRequest)
        ensures
            r@ == ibcmd_call(
                self@,
                seq!["config"@, "extension"@, "update"@],
                seq![
                    "--name"@,
                    name@,
                    "--safe-mode"@,
                    yes_no(safe_mode),
                    "--unsafe-action-protection"@,
                    yes_no(unsafe_action_protection),
                ],
            ),
    {
        let mut command = words("config", "extension");
        push_text(&mut command, "update");
        assert(texts(command@) =~= seq!["config"@, "extension"@, "update"@]);
        let mut args = self.authenticated_infobase_args(&command);
        let ghost base = texts(args@);
        push_option_value(&mut args, "--name", name);
        push_option_value(&mut args, "--safe-mode", yes_or_no(safe_mode));
        push_option_value(
            &mut args,
            "--unsafe-action-protection",
            yes_or_no(unsafe_action_protection),
        );
        assert(texts(args@) =~= base + seq![
            "--name"@,
            name@,
            "--safe-mode"@,
            yes_no(safe_mode),
            "--unsafe-action-protection"@,
            yes_no(unsafe_action_protection),
        ]);
        plain_request(self.binary.as_str(), args)
    }

    /// Imports a list of files.
    pub fn config_import_partial(
        &self,
        base_dir: &str,
        files: &Vec<String>,
        extension: Option<&str>,
    ) -> (r: ProcessRequest)
        ensures
            r@ == ibcmd_call(
                self@,
                seq!["config"@, "import"@, "files"@],
                extension_option(opt_str(extension)) + seq![
                    "--partial"@,
                    "--base-dir"@,
                    base_dir@,
                ] + texts(files@),
            ),
    {
        let mut command = words("config", "import");
        push_text(&mut command, "files");
        assert(texts(command@) =~= seq!["config"@, "import"@, "files"@]);
        let mut args = self.authenticated_infobase_args(&command);
        let ghost base = texts(args@);
        push_extension(&mut args, extension);
        push_text(&mut args, "--partial");
        push_option_value(&mut args, "--base-dir", base_dir);
        push_texts(&mut args, files);
        assert(texts(args@) =~= base + (extension_option(opt_str(extension)) + seq![
            "--partial"@,
            "--base-dir"@,
            base_dir@,
        ] + texts(files@)));
        plain_request(self.binary.as_str(), args)
    }

    /// Applies imported changes.
    pub fn config_apply(&self, extension: Option<&str>, dynamic: DynamicUpdateMode) -> (r:
        ProcessRequest)
        ensures
            r@ == ibcmd_call(
                self@,
                seq!["config"@, "apply"@],
                extension_option(opt_str(extension)) + seq!["--force"@, "--dynamic"@, "auto"@],
            ),
    {
        let mut args = self.authenticated_infobase_args(&words("config", "apply"));
        let ghost base = texts(args@);
        push_extension(&mut args, extension);
        push_text(&mut args, "--force");
        push_option_value(&mut args, "--dynamic", dynamic.as_str());
        assert(texts(args@) =~= base + (extension_option(opt_str(extension)) + seq![
            "--force"@,
            "--dynamic"@,
            "auto"@,
        ]));
        plain_request(self.binary.as_str(), args)
    }

    /// Exports a full configuration or extension.
    pub fn config_export_full(&self, target_dir: &str, extension: Option<&str>) -> (r:
        ProcessRequest)
        ensures
            r@ == ibcmd_call(
                self@,
                seq!["config"@, "export"@],
                extension_option(opt_str(extension)) + seq!["--force"@, target_dir@],
            ),
    {
        let mut args = self.authenticated_infobase_args(&words("config", "export"));
        let ghost base = texts(args@);
        push_extension(&mut args, extension);
        push_text(&mut args, "--force");
        push_text(&mut args, target_dir);
        assert(texts(args@) =~= base + (extension_option(opt_str(extension)) + seq![
            "--force"@,
            target_dir@,
        ]));
        plain_request(self.binary.as_str(), args)
    }

    /// Exports what differs from an earlier export.
    pub fn config_export_incremental(&self, target_dir: &str, extension: Option<&str>) -> (r:
        ProcessRequest)
        ensures
            r@ == ibcmd_call(
                self@,
                seq!["config"@, "export"@],
                extension_option(opt_str(extension)) + seq!["--sync"@, target_dir@],
            ),
    {
        let mut args = self.authenticated_infobase_args(&words("config", "export"));
        let ghost base = texts(args@);
        push_extension(&mut args, extension);
        push_text(&mut args, "--sync");
        push_text(&mut args, target_dir);
        assert(texts(args@) =~= base + (extension_option(opt_str(extension)) + seq![
            "--sync"@,
            target_dir@,
        ]));
        plain_request(self.binary.as_str(), args)
    }

    /// Result of a call: `ibcmd` writes no log of its own.
    pub fn conclude(process: Result<ProcessResult, ProcessError>) -> (r: Result<
        PlatformCommandResult,
        IbcmdError,
    >)
        ensures
            match (process, r) {
                (Ok(p), Ok(result)) => result@ == (PlatformCommandResultView {
                    process: p@,
                    platform_log_path: None,
                    platform_log: None,
                    platform_log_read_error: None,
                }),
                (Err(e), Err(error)) => error@ == IbcmdErrorView::Spawn(e@),
                _ => false,
            },
    {
        match process {
            Ok(process) => Ok(
                PlatformCommandResult {
                    process,
                    platform_log_path: None,
                    platform_log: None,
                    platform_log_read_error: None,
                },
            ),
            Err(error) => Err(IbcmdError::Spawn(error)),
        }
    }

    /// How the creation of an infobase ended.
    pub fn conclude_create(process: Result<ProcessResult, ProcessError>) -> (r: Result<
        IbcmdInfobaseCreateOutcome,
        IbcmdError,
    >)
        ensures
            match (process, r) {
                (Ok(p), Ok(outcome)) => outcome.result@.process == p@
                    && outcome.result@.platform_log_path is None
                    && outcome.result@.platform_log is None
                    && outcome.result@.platform_log_read_error is None && outcome.status
                    == create_status(
                    p@.exit_code,
                    tells_of_existing(lowercase(p@.stdout + "\n"@ + p@.stderr)),
                ),
                (Err(e), Err(error)) => error@ == IbcmdErrorView::Spawn(e@),
                _ => false,
            },
    {
        match Self::conclude(process) {
            Ok(result) => {
                let existing = is_benign_already_exists(
                    result.process.stdout.as_str(),
                    result.process.stderr.as_str(),
                );
                let status = if result.process.exit_code == 0 {
                    IbcmdInfobaseCreateStatus::Created
                } else if existing {
                    IbcmdInfobaseCreateStatus::AlreadyExists
                } else {
                    IbcmdInfobaseCreateStatus::Failed
                };
                Ok(IbcmdInfobaseCreateOutcome { status, result })
            },
            Err(error) => Err(error),
        }
    }
}

/// How the creation of an infobase ended, by its exit code and by whether its output tells of an
/// infobase that is there already.
pub open spec fn create_status(exit_code: i32, existing: bool) -> IbcmdInfobaseCreateStatus {
    if exit_code == 0 {
        IbcmdInfobaseCreateStatus::Created
    } else if existing {
        IbcmdInfobaseCreateStatus::AlreadyExists
    } else {
        IbcmdInfobaseCreateStatus::Failed
    }
}

// ---------------------------------------------------------------------------------------------
// Output of a failed creation

/// The text, in small letters, tells of a failure that has nothing to do with an infobase that is
/// there already.
pub open spec fn tells_of_failure(lower: Seq<char>) -> bool {
    contains(lower, "access denied"@) || contains(lower, "authentication"@) || contains(
        lower,
        "permission denied"@,
    ) || contains(lower, "timeout"@) || contains(lower, "connection refused"@) || contains(
        lower,
        "network"@,
    ) || contains(lower, "ошибка авторизации"@) || contains(lower, "доступ запрещен"@) || contains(
        lower,
        "доступ запрещён"@,
    ) || contains(lower, "недостаточно прав"@) || contains(lower, "не удалось подключ"@)
        || contains(lower, "таймаут"@)
}

/// The line, in small letters, tells of an infobase that is there already.
pub open spec fn existing_line(line: Seq<char>) -> bool {
    !is_blank(line) && (contains(trim(line), "already exists"@) || contains(
        trim(line),
        "уже существует"@,
    ))
}

/// The output, in small letters, tells of an infobase that is there already, and of no failure
/// besides.
pub open spec fn tells_of_existing(lower: Seq<char>) -> bool {
    &&& !is_blank(lower)
    &&& !tells_of_failure(lower)
    &&& exists|i: int| 0 <= i < lines(lower).len() && existing_line(#[trigger] lines(lower)[i])
}

fn is_failure_text(lower: &str) -> (r: bool)
    ensures
        r == tells_of_failure(lower@),
{
    text_contains(lower, "access denied") || text_contains(lower, "authentication")
        || text_contains(lower, "permission denied") || text_contains(lower, "timeout")
        || text_contains(lower, "connection refused") || text_contains(lower, "network")
        || text_contains(lower, "ошибка авторизации") || text_contains(lower, "доступ запрещен")
        || text_contains(lower, "доступ запрещён") || text_contains(lower, "недостаточно прав")
        || text_contains(lower, "не удалось подключ") || text_contains(lower, "таймаут")
}

/// Whether the output, in small letters, tells of an infobase that is there already.
pub fn is_existing_text(lower: &str) -> (r: bool)
    ensures
        r == tells_of_existing(lower@),
{
    if text_is_blank(lower) || is_failure_text(lower) {
        return false;
    }
    let all = text_lines(lower);
    let ghost list = lines(lower@);
    let mut i: usize = 0;
    while i < all.len()
        invariant
            i <= all.len(),
            list == texts(all@),
            list == lines(lower@),
            !is_blank(lower@),
            !tells_of_failure(lower@),
            forall|k: int| 0 <= k < i ==> !existing_line(#[trigger] list[k]),
        decreases all.len() - i,
    {
        assert(list[i as int] == all@[i as int]@);
        let line = trimmed(all[i].as_str());
        if !line.as_str().is_empty() && (text_contains(line.as_str(), "already exists")
            || text_contains(line.as_str(), "уже существует")) {
            assert(existing_line(list[i as int]));
            return true;
        }
        i += 1;
    }
    false
}

/// Whether the output of a failed creation tells of an infobase that is there already, letters'
/// case aside.
pub fn is_benign_already_exists(stdout: &str, stderr: &str) -> (r: bool)
    ensures
        r == tells_of_existing(lowercase(stdout@ + "\n"@ + stderr@)),
{
    let combined = to_lowercase(cat3(stdout, "\n", stderr).as_str());
    is_existing_text(combined.as_str())
}

// ---------------------------------------------------------------------------------------------
// Laws

/// A failure of another kind is never passed off as an infobase that is there already.
pub proof fn other_failure_stays_a_failure(exit_code: i32, lower: Seq<char>)
    requires
        exit_code != 0,
        tells_of_failure(lower),
    ensures
        create_status(exit_code, tells_of_existing(lower)) == IbcmdInfobaseCreateStatus::Failed,
{
}

/// Silence is never taken for an infobase that is there already.
pub proof fn silence_is_a_failure(exit_code: i32, lower: Seq<char>)
    requires
        exit_code != 0,
        is_blank(lower),
    ensures
        create_status(exit_code, tells_of_existing(lower)) == IbcmdInfobaseCreateStatus::Failed,
{
}

/// Every command names its infobase right behind `infobase`, before the command itself.
pub proof fn infobase_comes_before_the_command(c: IbcmdConnectionView, command: Seq<Seq<char>>)
    ensures
        command_args(c, command).len() > infobase_arguments(c).len(),
        command_args(c, command)[0] == "infobase"@,
        command_args(c, command).subrange(1, 1 + infobase_arguments(c).len() as int)
            == infobase_arguments(c),
{
    assert(command_args(c, command).subrange(1, 1 + infobase_arguments(c).len() as int)
        =~= infobase_arguments(c));
}

} // verus!
