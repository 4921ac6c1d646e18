//! Configuration of a project.

use vstd::prelude::*;
use crate::text::{clone_opt, clone_texts, opt_text, opt_view, text_eq, texts, views};
use crate::time::{millis_span, Span};

verus! {

/// Form of the sources.
#[derive(Clone, Copy, Debug, PartialEq, Eq, Structural)]
pub enum SourceFormat {
    Designer,
    Edt,
}

/// Tool that builds the infobase.
#[derive(Clone, Copy, Debug, PartialEq, Eq, Structural)]
pub enum BuilderBackend {
    Designer,
    Ibcmd,
}

/// Access to a database server.
#[derive(Debug, Default, PartialEq, Eq)]
pub struct InfobaseDbmsConfig {
    pub kind: Option<String>,
    pub server: Option<String>,
    pub name: Option<String>,
    pub user: Option<String>,
    pub password: Option<String>,
}

/// Mathematical value of [`InfobaseDbmsConfig`].
pub struct InfobaseDbmsConfigView {
    pub kind: Option<Seq<char>>,
    pub server: Option<Seq<char>>,
    pub name: Option<Seq<char>>,
    pub user: Option<Seq<char>>,
    pub password: Option<Seq<char>>,
}

impl View for InfobaseDbmsConfig {
    type V = InfobaseDbmsConfigView;

    open spec fn view(&self) -> InfobaseDbmsConfigView {
        InfobaseDbmsConfigView {
            kind: opt_text(self.kind),
            server: opt_text(self.server),
            name: opt_text(self.name),
            user: opt_text(self.user),
            password: opt_text(self.password),
        }
    }
}

impl Clone for InfobaseDbmsConfig {
    fn clone(&self) -> (r: Self)
        ensures
            r@ == self@,
    {
        InfobaseDbmsConfig {
            kind: clone_opt(&self.kind),
            server: clone_opt(&self.server),
            name: clone_opt(&self.name),
            user: clone_opt(&self.user),
            password: clone_opt(&self.password),
        }
    }
}

impl InfobaseDbmsConfig {
    /// Database on a server.
    pub fn new(kind: &str, server: &str, name: &str) -> (r: Self)
        ensures
            r@ == (InfobaseDbmsConfigView {
                kind: Some(kind@),
                server: Some(server@),
                name: Some(name@),
                user: None,
                password: None,
            }),
    {
        InfobaseDbmsConfig {
            kind: Some(kind.to_owned()),
            server: Some(server.to_owned()),
            name: Some(name.to_owned()),
            user: None,
            password: None,
        }
    }

    /// The database with a user.
    pub fn with_credentials(self, user: Option<String>, password: Option<String>) -> (r: Self)
        ensures
            r@ == (InfobaseDbmsConfigView {
                user: opt_text(user),
                password: opt_text(password),
                ..self@
            }),
    {
        InfobaseDbmsConfig { user, password, ..self }
    }
}

/// Access to the infobase.
#[derive(Debug, Default, PartialEq, Eq)]
pub struct InfobaseConfig {
    pub connection: String,
    pub user: Option<String>,
    pub password: Option<String>,
    pub dbms: Option<InfobaseDbmsConfig>,
}

/// Mathematical value of [`InfobaseConfig`].
pub struct InfobaseConfigView {
    pub connection: Seq<char>,
    pub user: Option<Seq<char>>,
    pub password: Option<Seq<char>>,
    pub dbms: Option<InfobaseDbmsConfigView>,
}

impl View for InfobaseConfig {
    type V = InfobaseConfigView;

    open spec fn view(&self) -> InfobaseConfigView {
        InfobaseConfigView {
            connection: self.connection@,
            user: opt_text(self.user),
            password: opt_text(self.password),
            dbms: opt_view(self.dbms),
        }
    }
}

impl Clone for InfobaseConfig {
    fn clone(&self) -> (r: Self)
        ensures
            r@ == self@,
    {
        InfobaseConfig {
            connection: self.connection.clone(),
            user: clone_opt(&self.user),
            password: clone_opt(&self.password),
            dbms: (match &self.dbms { Some(x) => Some(x.clone()), None => None }),
        }
    }
}

impl InfobaseConfig {
    /// Infobase that is reached by a connection string alone.
    pub fn file(connection: &str) -> (r: Self)
        ensures
            r@ == (InfobaseConfigView {
                connection: connection@,
                user: None,
                password: None,
                dbms: None,
            }),
    {
        InfobaseConfig { connection: connection.to_owned(), user: None, password: None, dbms: None }
    }

    /// Infobase on a database server.
    pub fn server(connection: &str, dbms: InfobaseDbmsConfig) -> (r: Self)
        ensures
            r@ == (InfobaseConfigView {
                connection: connection@,
                user: None,
                password: None,
                dbms: Some(dbms@),
            }),
    {
        InfobaseConfig {
            connection: connection.to_owned(),
            user: None,
            password: None,
            dbms: Some(dbms),
        }
    }

    /// The infobase with a user.
    pub fn with_credentials(self, user: Option<String>, password: Option<String>) -> (r: Self)
        ensures
            r@ == (InfobaseConfigView {
                user: opt_text(user),
                password: opt_text(password),
                ..self@
            }),
    {
        InfobaseConfig { user, password, ..self }
    }
}

/// What a source-set holds.
#[derive(Clone, Copy, Debug, PartialEq, Eq, Structural)]
pub enum SourceSetPurpose {
    Configuration,
    Extension,
    ExternalDataProcessors,
    ExternalReports,
}

/// Named set of sources.
#[derive(Debug, PartialEq, Eq)]
pub struct SourceSetConfig {
    pub name: String,
    pub purpose: SourceSetPurpose,
    pub path: String,
    pub depends_on: Vec<String>,
}

/// Mathematical value of [`SourceSetConfig`].
pub struct SourceSetConfigView {
    pub name: Seq<char>,
    pub purpose: SourceSetPurpose,
    pub path: Seq<char>,
    pub depends_on: Seq<Seq<char>>,
}

impl View for SourceSetConfig {
    type V = SourceSetConfigView;

    open spec fn view(&self) -> SourceSetConfigView {
        SourceSetConfigView {
            name: self.name@,
            purpose: self.purpose,
            path: self.path@,
            depends_on: texts(self.depends_on@),
        }
    }
}

impl Clone for SourceSetConfig {
    fn clone(&self) -> (r: Self)
        ensures
            r@ == self@,
    {
        SourceSetConfig {
            name: self.name.clone(),
            purpose: self.purpose,
            path: self.path.clone(),
            depends_on: clone_texts(&self.depends_on),
        }
    }
}

fn clone_source_set_config_list(list: &Vec<SourceSetConfig>) -> (r: Vec<SourceSetConfig>)
    ensures
        views(r@) == views(list@),
{
    let mut out: Vec<SourceSetConfig> = Vec::new();
    let mut i: usize = 0;
    while i < list.len()
        invariant
            i <= list.len(),
            views(out@) == views(list@).take(i as int),
        decreases list.len() - i,
    {
        let ghost before = out@;
        out.push(list[i].clone());
        assert(views(out@) =~= views(before).push(list@[i as int]@));
        assert(views(list@).take(i + 1) =~= views(list@).take(i as int).push(list@[i as int]@));
        i += 1;
    }
    assert(views(list@).take(list@.len() as int) =~= views(list@));
    out
}

/// Build settings.
#[derive(Clone, Copy, Debug, Default, PartialEq, Eq)]
pub struct BuildConfig {
    pub dynamic_update: bool,
}

/// Where the 1C platform is.
#[derive(Debug, Default, PartialEq, Eq)]
pub struct PlatformToolConfig {
    pub path: Option<String>,
    pub version: Option<String>,
}

/// Mathematical value of [`PlatformToolConfig`].
pub struct PlatformToolConfigView {
    pub path: Option<Seq<char>>,
    pub version: Option<Seq<char>>,
}

impl View for PlatformToolConfig {
    type V = PlatformToolConfigView;

    open spec fn view(&self) -> PlatformToolConfigView {
        PlatformToolConfigView {
            path: opt_text(self.path),
            version: opt_text(self.version),
        }
    }
}

impl Clone for PlatformToolConfig {
    fn clone(&self) -> (r: Self)
        ensures
            r@ == self@,
    {
        PlatformToolConfig {
            path: clone_opt(&self.path),
            version: clone_opt(&self.version),
        }
    }
}

/// How the Enterprise client is launched.
#[derive(Debug, Default, PartialEq, Eq)]
pub struct EnterpriseToolConfig {
    pub additional_launch_keys: Vec<String>,
}

/// Mathematical value of [`EnterpriseToolConfig`].
pub struct EnterpriseToolConfigView {
    pub additional_launch_keys: Seq<Seq<char>>,
}

impl View for EnterpriseToolConfig {
    type V = EnterpriseToolConfigView;

    open spec fn view(&self) -> EnterpriseToolConfigView {
        EnterpriseToolConfigView {
            additional_launch_keys: texts(self.additional_launch_keys@),
        }
    }
}

impl Clone for EnterpriseToolConfig {
    fn clone(&self) -> (r: Self)
        ensures
            r@ == self@,
    {
        EnterpriseToolConfig {
            additional_launch_keys: clone_texts(&self.additional_launch_keys),
        }
    }
}

/// Where the EDT command line is, and how it is used.
#[derive(Debug, Default, PartialEq, Eq)]
pub struct EdtCliConfig {
    pub path: Option<String>,
    pub version: Option<String>,
    pub interactive_mode: bool,
    pub startup_timeout_ms: u64,
    pub command_timeout_ms: u64,
}

/// Mathematical value of [`EdtCliConfig`].
pub struct EdtCliConfigView {
    pub path: Option<Seq<char>>,
    pub version: Option<Seq<char>>,
    pub interactive_mode: bool,
    pub startup_timeout_ms: u64,
    pub command_timeout_ms: u64,
}

impl View for EdtCliConfig {
    type V = EdtCliConfigView;

    open spec fn view(&self) -> EdtCliConfigView {
        EdtCliConfigView {
            path: opt_text(self.path),
            version: opt_text(self.version),
            interactive_mode: self.interactive_mode,
            startup_timeout_ms: self.startup_timeout_ms,
            command_timeout_ms: self.command_timeout_ms,
        }
    }
}

impl Clone for EdtCliConfig {
    fn clone(&self) -> (r: Self)
        ensures
            r@ == self@,
    {
        EdtCliConfig {
            path: clone_opt(&self.path),
            version: clone_opt(&self.version),
            interactive_mode: self.interactive_mode,
            startup_timeout_ms: self.startup_timeout_ms,
            command_timeout_ms: self.command_timeout_ms,
        }
    }
}

/// Where Vanessa Automation is.
#[derive(Debug, Default, PartialEq, Eq)]
pub struct VanessaToolConfig {
    pub epf_path: Option<String>,
}

/// Mathematical value of [`VanessaToolConfig`].
pub struct VanessaToolConfigView {
    pub epf_path: Option<Seq<char>>,
}

impl View for VanessaToolConfig {
    type V = VanessaToolConfigView;

    open spec fn view(&self) -> VanessaToolConfigView {
        VanessaToolConfigView {
            epf_path: opt_text(self.epf_path),
        }
    }
}

impl Clone for VanessaToolConfig {
    fn clone(&self) -> (r: Self)
        ensures
            r@ == self@,
    {
        VanessaToolConfig {
            epf_path: clone_opt(&self.epf_path),
        }
    }
}

/// External tools.
#[derive(Debug, Default, PartialEq, Eq)]
pub struct ToolsConfig {
    pub platform: PlatformToolConfig,
    pub enterprise: EnterpriseToolConfig,
    pub edt_cli: EdtCliConfig,
    pub va: VanessaToolConfig,
}

/// Mathematical value of [`ToolsConfig`].
pub struct ToolsConfigView {
    pub platform: PlatformToolConfigView,
    pub enterprise: EnterpriseToolConfigView,
    pub edt_cli: EdtCliConfigView,
    pub va: VanessaToolConfigView,
}

impl View for ToolsConfig {
    type V = ToolsConfigView;

    open spec fn view(&self) -> ToolsConfigView {
        ToolsConfigView {
            platform: self.platform@,
            enterprise: self.enterprise@,
            edt_cli: self.edt_cli@,
            va: self.va@,
        }
    }
}

impl Clone for ToolsConfig {
    fn clone(&self) -> (r: Self)
        ensures
            r@ == self@,
    {
        ToolsConfig {
            platform: self.platform.clone(),
            enterprise: self.enterprise.clone(),
            edt_cli: self.edt_cli.clone(),
            va: self.va.clone(),
        }
    }
}

/// HTTP transport of the MCP server.
#[derive(Debug, Default, PartialEq, Eq)]
pub struct McpHttpConfig {
    pub bind_address: String,
    pub path: String,
    pub stateful_sessions: bool,
    pub idle_ttl_secs: u64,
    pub max_sessions: usize,
}

/// Mathematical value of [`McpHttpConfig`].
pub struct McpHttpConfigView {
    pub bind_address: Seq<char>,
    pub path: Seq<char>,
    pub stateful_sessions: bool,
    pub idle_ttl_secs: u64,
    pub max_sessions: usize,
}

impl View for McpHttpConfig {
    type V = McpHttpConfigView;

    open spec fn view(&self) -> McpHttpConfigView {
        McpHttpConfigView {
            bind_address: self.bind_address@,
            path: self.path@,
            stateful_sessions: self.stateful_sessions,
            idle_ttl_secs: self.idle_ttl_secs,
            max_sessions: self.max_sessions,
        }
    }
}

impl Clone for McpHttpConfig {
    fn clone(&self) -> (r: Self)
        ensures
            r@ == self@,
    {
        McpHttpConfig {
            bind_address: self.bind_address.clone(),
            path: self.path.clone(),
            stateful_sessions: self.stateful_sessions,
            idle_ttl_secs: self.idle_ttl_secs,
            max_sessions: self.max_sessions,
        }
    }
}

/// Limits on MCP calls.
#[derive(Clone, Copy, Debug, Default, PartialEq, Eq)]
pub struct McpExecutionConfig {
    pub max_concurrent_calls: usize,
    pub shutdown_grace_period_secs: u64,
}

/// MCP server settings.
#[derive(Debug, Default, PartialEq, Eq)]
pub struct McpConfig {
    pub http: McpHttpConfig,
    pub execution: McpExecutionConfig,
}

/// Mathematical value of [`McpConfig`].
pub struct McpConfigView {
    pub http: McpHttpConfigView,
    pub execution: McpExecutionConfig,
}

impl View for McpConfig {
    type V = McpConfigView;

    open spec fn view(&self) -> McpConfigView {
        McpConfigView {
            http: self.http@,
            execution: self.execution,
        }
    }
}

impl Clone for McpConfig {
    fn clone(&self) -> (r: Self)
        ensures
            r@ == self@,
    {
        McpConfig {
            http: self.http.clone(),
            execution: self.execution,
        }
    }
}

/// Vanessa Automation profile.
#[derive(Debug, Default, PartialEq, Eq)]
pub struct VanessaProfileConfig {
    pub features_to_run: Vec<String>,
    pub filter_tags: Vec<String>,
    pub ignore_tags: Vec<String>,
    pub scenario_filter: Vec<String>,
}

/// Mathematical value of [`VanessaProfileConfig`].
pub struct VanessaProfileConfigView {
    pub features_to_run: Seq<Seq<char>>,
    pub filter_tags: Seq<Seq<char>>,
    pub ignore_tags: Seq<Seq<char>>,
    pub scenario_filter: Seq<Seq<char>>,
}

impl View for VanessaProfileConfig {
    type V = VanessaProfileConfigView;

    open spec fn view(&self) -> VanessaProfileConfigView {
        VanessaProfileConfigView {
            features_to_run: texts(self.features_to_run@),
            filter_tags: texts(self.filter_tags@),
            ignore_tags: texts(self.ignore_tags@),
            scenario_filter: texts(self.scenario_filter@),
        }
    }
}

impl Clone for VanessaProfileConfig {
    fn clone(&self) -> (r: Self)
        ensures
            r@ == self@,
    {
        VanessaProfileConfig {
            features_to_run: clone_texts(&self.features_to_run),
            filter_tags: clone_texts(&self.filter_tags),
            ignore_tags: clone_texts(&self.ignore_tags),
            scenario_filter: clone_texts(&self.scenario_filter),
        }
    }
}

/// Profile with its name.
#[derive(Debug, PartialEq, Eq)]
pub struct VanessaProfileEntry {
    pub id: String,
    pub profile: VanessaProfileConfig,
}

/// Mathematical value of [`VanessaProfileEntry`].
pub struct VanessaProfileEntryView {
    pub id: Seq<char>,
    pub profile: VanessaProfileConfigView,
}

impl View for VanessaProfileEntry {
    type V = VanessaProfileEntryView;

    open spec fn view(&self) -> VanessaProfileEntryView {
        VanessaProfileEntryView {
            id: self.id@,
            profile: self.profile@,
        }
    }
}

impl Clone for VanessaProfileEntry {
    fn clone(&self) -> (r: Self)
        ensures
            r@ == self@,
    {
        VanessaProfileEntry {
            id: self.id.clone(),
            profile: self.profile.clone(),
        }
    }
}

/// Profiles by name. Where a name has been entered twice the later entry counts.
#[derive(Debug, Default, PartialEq, Eq)]
pub struct VanessaProfiles {
    entries: Vec<VanessaProfileEntry>,
}

/// Profiles that the entries make up.
pub open spec fn profiles_by_name(entries: Seq<VanessaProfileEntryView>) -> Map<
    Seq<char>,
    VanessaProfileConfigView,
>
    decreases entries.len(),
{
    if entries.len() == 0 {
        Map::empty()
    } else {
        profiles_by_name(entries.drop_last()).insert(entries.last().id, entries.last().profile)
    }
}

/// Mathematical value of [`VanessaProfiles`].
pub struct VanessaProfilesView {
    pub by_name: Map<Seq<char>, VanessaProfileConfigView>,
}

impl View for VanessaProfiles {
    type V = VanessaProfilesView;

    closed spec fn view(&self) -> VanessaProfilesView {
        VanessaProfilesView { by_name: profiles_by_name(views(self.entries@)) }
    }
}

proof fn lemma_last_entry_counts(entries: Seq<VanessaProfileEntryView>, id: Seq<char>, k: int)
    requires
        -1 <= k < entries.len(),
        forall|i: int| k < i < entries.len() ==> (#[trigger] entries[i]).id != id,
        k >= 0 ==> entries[k].id == id,
    ensures
        k >= 0 ==> profiles_by_name(entries).contains_key(id) && profiles_by_name(entries)[id]
            == entries[k].profile,
        k < 0 ==> !profiles_by_name(entries).contains_key(id),
    decreases entries.len(),
{
    if entries.len() > 0 && k < entries.len() - 1 {
        let rest = entries.drop_last();
        assert(forall|i: int| 0 <= i < rest.len() ==> #[trigger] rest[i] == entries[i]);
        assert(entries[entries.len() - 1].id != id);
        lemma_last_entry_counts(rest, id, k);
    }
}

impl VanessaProfiles {
    /// No profiles.
    pub fn new() -> (r: Self)
        ensures
            r@.by_name == Map::<Seq<char>, VanessaProfileConfigView>::empty(),
    {
        let entries: Vec<VanessaProfileEntry> = Vec::new();
        assert(views(entries@) =~= Seq::empty());
        VanessaProfiles { entries }
    }

    /// Enters a profile.
    pub fn insert(&mut self, id: String, profile: VanessaProfileConfig)
        ensures
            final(self)@.by_name == old(self)@.by_name.insert(id@, profile@),
    {
        let ghost before = views(self.entries@);
        let entry = VanessaProfileEntry { id, profile };
        self.entries.push(entry);
        proof {
            let now = views(self.entries@);
            assert(now.drop_last() =~= before);
            assert(now.last() == entry@);
        }
    }

    /// Profile of the name.
    pub fn get(&self, id: &str) -> (r: Option<&VanessaProfileConfig>)
        ensures
            match r {
                Some(p) => self@.by_name.contains_key(id@) && self@.by_name[id@] == p@,
                None => !self@.by_name.contains_key(id@),
            },
    {
        let ghost all = views(self.entries@);
        let mut n: usize = self.entries.len();
        while n > 0
            invariant
                n <= self.entries.len(),
                all == views(self.entries@),
                forall|i: int| n <= i < all.len() ==> (#[trigger] all[i]).id != id@,
            decreases n,
        {
            assert(all[n - 1] == self.entries@[n - 1]@);
            if text_eq(self.entries[n - 1].id.as_str(), id) {
                proof {
                    lemma_last_entry_counts(all, id@, n - 1);
                }
                return Some(&self.entries[n - 1].profile);
            }
            n -= 1;
        }
        proof {
            lemma_last_entry_counts(all, id@, -1);
        }
        None
    }
}

impl Clone for VanessaProfiles {
    fn clone(&self) -> (r: Self)
        ensures
            r@ == self@,
    {
        let mut out: Vec<VanessaProfileEntry> = Vec::new();
        let mut i: usize = 0;
        while i < self.entries.len()
            invariant
                i <= self.entries.len(),
                views(out@) == views(self.entries@).take(i as int),
            decreases self.entries.len() - i,
        {
            let ghost before = out@;
            out.push(self.entries[i].clone());
            proof {
                let e = self.entries@[i as int]@;
                assert(views(out@) =~= views(before).push(e));
                assert(views(self.entries@).take(i + 1) =~= views(self.entries@).take(
                    i as int,
                ).push(e));
            }
            i += 1;
        }
        assert(views(self.entries@).take(self.entries@.len() as int) =~= views(self.entries@));
        VanessaProfiles { entries: out }
    }
}

/// Limits on a test run.
#[derive(Clone, Copy, Debug, Default, PartialEq, Eq)]
pub struct RunnerTimeoutsConfig {
    pub total_seconds: Option<u64>,
}

/// Vanessa Automation tests.
#[derive(Debug, Default, PartialEq, Eq)]
pub struct VanessaTestsConfig {
    pub profile: Option<String>,
    pub profiles: VanessaProfiles,
    pub params_path: Option<String>,
    pub timeouts: RunnerTimeoutsConfig,
}

/// Mathematical value of [`VanessaTestsConfig`].
pub struct VanessaTestsConfigView {
    pub profile: Option<Seq<char>>,
    pub profiles: VanessaProfilesView,
    pub params_path: Option<Seq<char>>,
    pub timeouts: RunnerTimeoutsConfig,
}

impl View for VanessaTestsConfig {
    type V = VanessaTestsConfigView;

    open spec fn view(&self) -> VanessaTestsConfigView {
        VanessaTestsConfigView {
            profile: opt_text(self.profile),
            profiles: self.profiles@,
            params_path: opt_text(self.params_path),
            timeouts: self.timeouts,
        }
    }
}

impl Clone for VanessaTestsConfig {
    fn clone(&self) -> (r: Self)
        ensures
            r@ == self@,
    {
        VanessaTestsConfig {
            profile: clone_opt(&self.profile),
            profiles: self.profiles.clone(),
            params_path: clone_opt(&self.params_path),
            timeouts: self.timeouts,
        }
    }
}

/// Test settings.
#[derive(Debug, Default, PartialEq, Eq)]
pub struct TestsConfig {
    pub execution_timeout_seconds: Option<u64>,
    pub va: VanessaTestsConfig,
}

/// Mathematical value of [`TestsConfig`].
pub struct TestsConfigView {
    pub execution_timeout_seconds: Option<u64>,
    pub va: VanessaTestsConfigView,
}

impl View for TestsConfig {
    type V = TestsConfigView;

    open spec fn view(&self) -> TestsConfigView {
        TestsConfigView {
            execution_timeout_seconds: self.execution_timeout_seconds,
            va: self.va@,
        }
    }
}

impl Clone for TestsConfig {
    fn clone(&self) -> (r: Self)
        ensures
            r@ == self@,
    {
        TestsConfig {
            execution_timeout_seconds: self.execution_timeout_seconds,
            va: self.va.clone(),
        }
    }
}

/// Configuration of a project.
#[derive(Debug, PartialEq, Eq)]
pub struct AppConfig {
    pub base_path: String,
    pub work_path: String,
    /// Limit on a command, in milliseconds.
    pub execution_timeout: u64,
    pub format: SourceFormat,
    pub builder: BuilderBackend,
    pub infobase: InfobaseConfig,
    pub source_sets: Vec<SourceSetConfig>,
    pub build: BuildConfig,
    pub tools: ToolsConfig,
    pub mcp: McpConfig,
    pub tests: TestsConfig,
}

/// Mathematical value of [`AppConfig`].
pub struct AppConfigView {
    pub base_path: Seq<char>,
    pub work_path: Seq<char>,
    pub execution_timeout: u64,
    pub format: SourceFormat,
    pub builder: BuilderBackend,
    pub infobase: InfobaseConfigView,
    pub source_sets: Seq<SourceSetConfigView>,
    pub build: BuildConfig,
    pub tools: ToolsConfigView,
    pub mcp: McpConfigView,
    pub tests: TestsConfigView,
}

impl View for AppConfig {
    type V = AppConfigView;

    open spec fn view(&self) -> AppConfigView {
        AppConfigView {
            base_path: self.base_path@,
            work_path: self.work_path@,
            execution_timeout: self.execution_timeout,
            format: self.format,
            builder: self.builder,
            infobase: self.infobase@,
            source_sets: views(self.source_sets@),
            build: self.build,
            tools: self.tools@,
            mcp: self.mcp@,
            tests: self.tests@,
        }
    }
}

impl Clone for AppConfig {
    fn clone(&self) -> (r: Self)
        ensures
            r@ == self@,
    {
        AppConfig {
            base_path: self.base_path.clone(),
            work_path: self.work_path.clone(),
            execution_timeout: self.execution_timeout,
            format: self.format,
            builder: self.builder,
            infobase: self.infobase.clone(),
            source_sets: clone_source_set_config_list(&self.source_sets),
            build: self.build,
            tools: self.tools.clone(),
            mcp: self.mcp.clone(),
            tests: self.tests.clone(),
        }
    }
}

impl AppConfig {
    /// Limit on a command.
    pub fn execution_timeout_duration(&self) -> (r: Span)
        ensures
            r == millis_span(self@.execution_timeout as nat),
    {
        Span::from_millis(self.execution_timeout)
    }
}

} // verus!
