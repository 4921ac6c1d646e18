//! Arguments of the MCP tools.

use vstd::prelude::*;
use crate::text::{opt_text, texts};

verus! {

/// Call of `build_project`.
#[derive(Debug, Default, PartialEq, Eq)]
pub struct McpBuildProjectRequest {
    pub full_rebuild: Option<bool>,
    pub source_set: Option<String>,
    pub dynamic_update: Option<bool>,
}

/// Mathematical value of [`McpBuildProjectRequest`].
pub struct McpBuildProjectRequestView {
    pub full_rebuild: Option<bool>,
    pub source_set: Option<Seq<char>>,
    pub dynamic_update: Option<bool>,
}

impl View for McpBuildProjectRequest {
    type V = McpBuildProjectRequestView;

    open spec fn view(&self) -> McpBuildProjectRequestView {
        McpBuildProjectRequestView {
            full_rebuild: self.full_rebuild,
            source_set: opt_text(self.source_set),
            dynamic_update: self.dynamic_update,
        }
    }
}

/// Call of `run_all_tests`.
#[derive(Debug, Default, PartialEq, Eq)]
pub struct McpRunAllTestsRequest {
    pub full: Option<bool>,
    pub runner: Option<String>,
    pub profile: Option<String>,
    pub feature: Vec<String>,
    pub filter_tag: Vec<String>,
    pub ignore_tag: Vec<String>,
    pub scenario_filter: Vec<String>,
}

/// Mathematical value of [`McpRunAllTestsRequest`].
pub struct McpRunAllTestsRequestView {
    pub full: Option<bool>,
    pub runner: Option<Seq<char>>,
    pub profile: Option<Seq<char>>,
    pub feature: Seq<Seq<char>>,
    pub filter_tag: Seq<Seq<char>>,
    pub ignore_tag: Seq<Seq<char>>,
    pub scenario_filter: Seq<Seq<char>>,
}

impl View for McpRunAllTestsRequest {
    type V = McpRunAllTestsRequestView;

    open spec fn view(&self) -> McpRunAllTestsRequestView {
        McpRunAllTestsRequestView {
            full: self.full,
            runner: opt_text(self.runner),
            profile: opt_text(self.profile),
            feature: texts(self.feature@),
            filter_tag: texts(self.filter_tag@),
            ignore_tag: texts(self.ignore_tag@),
            scenario_filter: texts(self.scenario_filter@),
        }
    }
}

/// Call of `run_module_tests`.
#[derive(Debug, Default, PartialEq, Eq)]
pub struct McpRunModuleTestsRequest {
    pub module_name: String,
    pub full: Option<bool>,
}

/// Mathematical value of [`McpRunModuleTestsRequest`].
pub struct McpRunModuleTestsRequestView {
    pub module_name: Seq<char>,
    pub full: Option<bool>,
}

impl View for McpRunModuleTestsRequest {
    type V = McpRunModuleTestsRequestView;

    open spec fn view(&self) -> McpRunModuleTestsRequestView {
        McpRunModuleTestsRequestView {
            module_name: self.module_name@,
            full: self.full,
        }
    }
}

/// Call of `dump_config`.
#[derive(Debug, Default, PartialEq, Eq)]
pub struct McpDumpConfigRequest {
    pub mode: Option<String>,
    pub extension: Option<String>,
    pub objects: Vec<String>,
}

/// Mathematical value of [`McpDumpConfigRequest`].
pub struct McpDumpConfigRequestView {
    pub mode: Option<Seq<char>>,
    pub extension: Option<Seq<char>>,
    pub objects: Seq<Seq<char>>,
}

impl View for McpDumpConfigRequest {
    type V = McpDumpConfigRequestView;

    open spec fn view(&self) -> McpDumpConfigRequestView {
        McpDumpConfigRequestView {
            mode: opt_text(self.mode),
            extension: opt_text(self.extension),
            objects: texts(self.objects@),
        }
    }
}

/// Call of `launch_app`.
#[derive(Debug, Default, PartialEq, Eq)]
pub struct McpLaunchAppRequest {
    pub utility_type: String,
    pub mode: Option<String>,
    pub mcp_config: Option<String>,
    pub mcp_port: Option<u16>,
    pub mcp_scenario: Option<String>,
    pub wait_ready: Option<bool>,
}

/// Mathematical value of [`McpLaunchAppRequest`].
pub struct McpLaunchAppRequestView {
    pub utility_type: Seq<char>,
    pub mode: Option<Seq<char>>,
    pub mcp_config: Option<Seq<char>>,
    pub mcp_port: Option<u16>,
    pub mcp_scenario: Option<Seq<char>>,
    pub wait_ready: Option<bool>,
}

impl View for McpLaunchAppRequest {
    type V = McpLaunchAppRequestView;

    open spec fn view(&self) -> McpLaunchAppRequestView {
        McpLaunchAppRequestView {
            utility_type: self.utility_type@,
            mode: opt_text(self.mode),
            mcp_config: opt_text(self.mcp_config),
            mcp_port: self.mcp_port,
            mcp_scenario: opt_text(self.mcp_scenario),
            wait_ready: self.wait_ready,
        }
    }
}

/// Call of `check_syntax_edt`.
#[derive(Debug, Default, PartialEq, Eq)]
pub struct McpCheckSyntaxEdtRequest {
    pub project_name: Option<String>,
}

/// Mathematical value of [`McpCheckSyntaxEdtRequest`].
pub struct McpCheckSyntaxEdtRequestView {
    pub project_name: Option<Seq<char>>,
}

impl View for McpCheckSyntaxEdtRequest {
    type V = McpCheckSyntaxEdtRequestView;

    open spec fn view(&self) -> McpCheckSyntaxEdtRequestView {
        McpCheckSyntaxEdtRequestView {
            project_name: opt_text(self.project_name),
        }
    }
}

/// Call of `check_syntax_designer_config`.
#[derive(Debug, Default, PartialEq, Eq)]
pub struct McpCheckSyntaxDesignerConfigRequest {
    pub config_log_integrity: Option<bool>,
    pub incorrect_references: Option<bool>,
    pub thin_client: Option<bool>,
    pub web_client: Option<bool>,
    pub mobile_client: Option<bool>,
    pub server: Option<bool>,
    pub external_connection: Option<bool>,
    pub external_connection_server: Option<bool>,
    pub mobile_app_client: Option<bool>,
    pub mobile_app_server: Option<bool>,
    pub thick_client_managed_application: Option<bool>,
    pub thick_client_server_managed_application: Option<bool>,
    pub thick_client_ordinary_application: Option<bool>,
    pub thick_client_server_ordinary_application: Option<bool>,
    pub mobile_client_digi_sign: Option<bool>,
    pub distributive_modules: Option<bool>,
    pub unreference_procedures: Option<bool>,
    pub handlers_existence: Option<bool>,
    pub empty_handlers: Option<bool>,
    pub extended_modules_check: Option<bool>,
    pub check_use_synchronous_calls: Option<bool>,
    pub check_use_modality: Option<bool>,
    pub unsupported_functional: Option<bool>,
    pub extension: Option<String>,
    pub all_extensions: Option<bool>,
}

/// Mathematical value of [`McpCheckSyntaxDesignerConfigRequest`].
pub struct McpCheckSyntaxDesignerConfigRequestView {
    pub config_log_integrity: Option<bool>,
    pub incorrect_references: Option<bool>,
    pub thin_client: Option<bool>,
    pub web_client: Option<bool>,
    pub mobile_client: Option<bool>,
    pub server: Option<bool>,
    pub external_connection: Option<bool>,
    pub external_connection_server: Option<bool>,
    pub mobile_app_client: Option<bool>,
    pub mobile_app_server: Option<bool>,
    pub thick_client_managed_application: Option<bool>,
    pub thick_client_server_managed_application: Option<bool>,
    pub thick_client_ordinary_application: Option<bool>,
    pub thick_client_server_ordinary_application: Option<bool>,
    pub mobile_client_digi_sign: Option<bool>,
    pub distributive_modules: Option<bool>,
    pub unreference_procedures: Option<bool>,
    pub handlers_existence: Option<bool>,
    pub empty_handlers: Option<bool>,
    pub extended_modules_check: Option<bool>,
    pub check_use_synchronous_calls: Option<bool>,
    pub check_use_modality: Option<bool>,
    pub unsupported_functional: Option<bool>,
    pub extension: Option<Seq<char>>,
    pub all_extensions: Option<bool>,
}

impl View for McpCheckSyntaxDesignerConfigRequest {
    type V = McpCheckSyntaxDesignerConfigRequestView;

    open spec fn view(&self) -> McpCheckSyntaxDesignerConfigRequestView {
        McpCheckSyntaxDesignerConfigRequestView {
            config_log_integrity: self.config_log_integrity,
            incorrect_references: self.incorrect_references,
            thin_client: self.thin_client,
            web_client: self.web_client,
            mobile_client: self.mobile_client,
            server: self.server,
            external_connection: self.external_connection,
            external_connection_server: self.external_connection_server,
            mobile_app_client: self.mobile_app_client,
            mobile_app_server: self.mobile_app_server,
            thick_client_managed_application: self.thick_client_managed_application,
            thick_client_server_managed_application: self.thick_client_server_managed_application,
            thick_client_ordinary_application: self.thick_client_ordinary_application,
            thick_client_server_ordinary_application: self.thick_client_server_ordinary_application,
            mobile_client_digi_sign: self.mobile_client_digi_sign,
            distributive_modules: self.distributive_modules,
            unreference_procedures: self.unreference_procedures,
            handlers_existence: self.handlers_existence,
            empty_handlers: self.empty_handlers,
            extended_modules_check: self.extended_modules_check,
            check_use_synchronous_calls: self.check_use_synchronous_calls,
            check_use_modality: self.check_use_modality,
            unsupported_functional: self.unsupported_functional,
            extension: opt_text(self.extension),
            all_extensions: self.all_extensions,
        }
    }
}

/// Call of `check_syntax_designer_modules`.
#[derive(Debug, Default, PartialEq, Eq)]
pub struct McpCheckSyntaxDesignerModulesRequest {
    pub thin_client: Option<bool>,
    pub web_client: Option<bool>,
    pub server: Option<bool>,
    pub external_connection: Option<bool>,
    pub thick_client_ordinary_application: Option<bool>,
    pub mobile_app_client: Option<bool>,
    pub mobile_app_server: Option<bool>,
    pub mobile_client: Option<bool>,
    pub extended_modules_check: Option<bool>,
    pub extension: Option<String>,
    pub all_extensions: Option<bool>,
}

/// Mathematical value of [`McpCheckSyntaxDesignerModulesRequest`].
pub struct McpCheckSyntaxDesignerModulesRequestView {
    pub thin_client: Option<bool>,
    pub web_client: Option<bool>,
    pub server: Option<bool>,
    pub external_connection: Option<bool>,
    pub thick_client_ordinary_application: Option<bool>,
    pub mobile_app_client: Option<bool>,
    pub mobile_app_server: Option<bool>,
    pub mobile_client: Option<bool>,
    pub extended_modules_check: Option<bool>,
    pub extension: Option<Seq<char>>,
    pub all_extensions: Option<bool>,
}

impl View for McpCheckSyntaxDesignerModulesRequest {
    type V = McpCheckSyntaxDesignerModulesRequestView;

    open spec fn view(&self) -> McpCheckSyntaxDesignerModulesRequestView {
        McpCheckSyntaxDesignerModulesRequestView {
            thin_client: self.thin_client,
            web_client: self.web_client,
            server: self.server,
            external_connection: self.external_connection,
            thick_client_ordinary_application: self.thick_client_ordinary_application,
            mobile_app_client: self.mobile_app_client,
            mobile_app_server: self.mobile_app_server,
            mobile_client: self.mobile_client,
            extended_modules_check: self.extended_modules_check,
            extension: opt_text(self.extension),
            all_extensions: self.all_extensions,
        }
    }
}

} // verus!
