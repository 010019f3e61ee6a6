//! Routing of desktop JSON-RPC calls: the built-in methods, and for every
//! other method the handler group that serves it. Each handler is named
//! after its method; some exist only in builds with inference plugins.

use crate::error::{is_other, PumasError};
use crate::ipc_command::JsonValue;
use vstd::prelude::*;
use vstd::string::StringExecFns;

verus! {

/// The handler group of a JSON-RPC method.
#[derive(Clone, Copy, Debug, PartialEq, Eq, Structural)]
pub enum RpcDomain {
    Status,
    RuntimeProfiles,
    Serving,
    Versions,
    Models,
    Process,
    Ollama,
    Torch,
    Links,
    Conversion,
    Plugins,
}

/// Where a method is handled, and whether it exists only in builds with
/// inference plugins.
#[derive(Clone, Copy, Debug, PartialEq, Eq, Structural)]
pub struct RpcRoute {
    pub domain: RpcDomain,
    pub plugins_only: bool,
}

/// The methods of status and system: `Some(plugins_only)` for each.
pub open spec fn status_method(m: Seq<char>) -> Option<bool> {
    if m == "get_status"@ {
        Some(false)
    } else if m == "get_disk_space"@ {
        Some(false)
    } else if m == "get_system_resources"@ {
        Some(false)
    } else if m == "get_status_telemetry_snapshot"@ {
        Some(false)
    } else if m == "get_launcher_version"@ {
        Some(false)
    } else if m == "check_launcher_updates"@ {
        Some(false)
    } else if m == "apply_launcher_update"@ {
        Some(false)
    } else if m == "restart_launcher"@ {
        Some(false)
    } else if m == "get_sandbox_info"@ {
        Some(false)
    } else if m == "check_git"@ {
        Some(false)
    } else if m == "get_network_status"@ {
        Some(false)
    } else if m == "get_library_status"@ {
        Some(false)
    } else if m == "get_app_status"@ {
        Some(true)
    } else {
        None
    }
}

/// The methods of local runtime profiles: `Some(plugins_only)` for each.
pub open spec fn runtime_profiles_method(m: Seq<char>) -> Option<bool> {
    if m == "get_runtime_profiles_snapshot"@ {
        Some(true)
    } else if m == "list_runtime_profile_updates_since"@ {
        Some(true)
    } else if m == "upsert_runtime_profile"@ {
        Some(true)
    } else if m == "delete_runtime_profile"@ {
        Some(true)
    } else if m == "set_model_runtime_route"@ {
        Some(true)
    } else if m == "clear_model_runtime_route"@ {
        Some(true)
    } else if m == "launch_runtime_profile"@ {
        Some(true)
    } else if m == "stop_runtime_profile"@ {
        Some(true)
    } else {
        None
    }
}

/// The methods of user-directed serving: `Some(plugins_only)` for each.
pub open spec fn serving_method(m: Seq<char>) -> Option<bool> {
    if m == "get_serving_status"@ {
        Some(true)
    } else if m == "list_serving_status_updates_since"@ {
        Some(true)
    } else if m == "validate_model_serving_config"@ {
        Some(true)
    } else if m == "serve_model"@ {
        Some(true)
    } else if m == "unserve_model"@ {
        Some(true)
    } else {
        None
    }
}

/// The methods of version management: `Some(plugins_only)` for each.
pub open spec fn versions_method(m: Seq<char>) -> Option<bool> {
    if m == "get_available_versions"@ {
        Some(true)
    } else if m == "get_installed_versions"@ {
        Some(true)
    } else if m == "get_active_version"@ {
        Some(true)
    } else if m == "get_default_version"@ {
        Some(true)
    } else if m == "set_default_version"@ {
        Some(true)
    } else if m == "switch_version"@ {
        Some(true)
    } else if m == "install_version"@ {
        Some(true)
    } else if m == "remove_version"@ {
        Some(true)
    } else if m == "cancel_installation"@ {
        Some(true)
    } else if m == "get_installation_progress"@ {
        Some(true)
    } else if m == "validate_installations"@ {
        Some(true)
    } else if m == "get_version_status"@ {
        Some(true)
    } else if m == "get_version_info"@ {
        Some(true)
    } else if m == "get_release_size_info"@ {
        Some(true)
    } else if m == "get_release_size_breakdown"@ {
        Some(true)
    } else if m == "calculate_release_size"@ {
        Some(true)
    } else if m == "calculate_all_release_sizes"@ {
        Some(true)
    } else if m == "has_background_fetch_completed"@ {
        Some(true)
    } else if m == "reset_background_fetch_flag"@ {
        Some(true)
    } else if m == "get_github_cache_status"@ {
        Some(true)
    } else if m == "check_version_dependencies"@ {
        Some(true)
    } else if m == "install_version_dependencies"@ {
        Some(true)
    } else if m == "get_release_dependencies"@ {
        Some(true)
    } else {
        None
    }
}

/// The methods of the model library, inference settings, migration reports
/// and Hugging Face authentication: `Some(plugins_only)` for each.
pub open spec fn models_method(m: Seq<char>) -> Option<bool> {
    if m == "get_models"@ {
        Some(false)
    } else if m == "refresh_model_index"@ {
        Some(false)
    } else if m == "import_model"@ {
        Some(false)
    } else if m == "download_model_from_hf"@ {
        Some(false)
    } else if m == "start_model_download_from_hf"@ {
        Some(false)
    } else if m == "get_model_download_status"@ {
        Some(false)
    } else if m == "cancel_model_download"@ {
        Some(false)
    } else if m == "pause_model_download"@ {
        Some(false)
    } else if m == "resume_model_download"@ {
        Some(false)
    } else if m == "list_model_downloads"@ {
        Some(false)
    } else if m == "list_interrupted_downloads"@ {
        Some(false)
    } else if m == "recover_download"@ {
        Some(false)
    } else if m == "resume_partial_download"@ {
        Some(false)
    } else if m == "search_hf_models"@ {
        Some(false)
    } else if m == "get_hf_download_details"@ {
        Some(false)
    } else if m == "get_related_models"@ {
        Some(false)
    } else if m == "search_models_fts"@ {
        Some(false)
    } else if m == "import_batch"@ {
        Some(false)
    } else if m == "import_external_diffusers_directory"@ {
        Some(false)
    } else if m == "classify_model_import_paths"@ {
        Some(false)
    } else if m == "lookup_hf_metadata_for_file"@ {
        Some(false)
    } else if m == "lookup_hf_metadata_for_bundle_directory"@ {
        Some(false)
    } else if m == "detect_sharded_sets"@ {
        Some(false)
    } else if m == "validate_file_type"@ {
        Some(false)
    } else if m == "get_embedded_metadata"@ {
        Some(false)
    } else if m == "get_library_model_metadata"@ {
        Some(false)
    } else if m == "resolve_model_execution_descriptor"@ {
        Some(false)
    } else if m == "resolve_model_artifact_load_target"@ {
        Some(false)
    } else if m == "resolve_model_package_facts"@ {
        Some(false)
    } else if m == "list_model_library_updates_since"@ {
        Some(false)
    } else if m == "resolve_model_package_facts_summary"@ {
        Some(false)
    } else if m == "model_package_facts_summary_snapshot"@ {
        Some(false)
    } else if m == "refetch_model_metadata_from_hf"@ {
        Some(false)
    } else if m == "adopt_orphan_models"@ {
        Some(false)
    } else if m == "import_model_in_place"@ {
        Some(false)
    } else if m == "scan_shared_storage"@ {
        Some(false)
    } else if m == "get_inference_settings"@ {
        Some(false)
    } else if m == "update_inference_settings"@ {
        Some(false)
    } else if m == "update_model_notes"@ {
        Some(false)
    } else if m == "resolve_model_dependency_requirements"@ {
        Some(false)
    } else if m == "audit_dependency_pin_compliance"@ {
        Some(false)
    } else if m == "list_models_needing_review"@ {
        Some(false)
    } else if m == "submit_model_review"@ {
        Some(false)
    } else if m == "reset_model_review"@ {
        Some(false)
    } else if m == "generate_model_migration_dry_run_report"@ {
        Some(false)
    } else if m == "execute_model_migration"@ {
        Some(false)
    } else if m == "list_model_migration_reports"@ {
        Some(false)
    } else if m == "delete_model_migration_report"@ {
        Some(false)
    } else if m == "prune_model_migration_reports"@ {
        Some(false)
    } else if m == "set_hf_token"@ {
        Some(false)
    } else if m == "clear_hf_token"@ {
        Some(false)
    } else if m == "get_hf_auth_status"@ {
        Some(false)
    } else {
        None
    }
}

/// The methods of process management: `Some(plugins_only)` for each.
pub open spec fn process_method(m: Seq<char>) -> Option<bool> {
    if m == "launch_ollama"@ {
        Some(true)
    } else if m == "stop_ollama"@ {
        Some(true)
    } else if m == "is_ollama_running"@ {
        Some(true)
    } else if m == "launch_torch"@ {
        Some(true)
    } else if m == "stop_torch"@ {
        Some(true)
    } else if m == "is_torch_running"@ {
        Some(true)
    } else if m == "open_path"@ {
        Some(false)
    } else if m == "open_url"@ {
        Some(false)
    } else if m == "open_active_install"@ {
        Some(true)
    } else {
        None
    }
}

/// The methods of Ollama model management: `Some(plugins_only)` for each.
pub open spec fn ollama_method(m: Seq<char>) -> Option<bool> {
    if m == "ollama_list_models"@ {
        Some(true)
    } else if m == "ollama_list_models_for_profile"@ {
        Some(true)
    } else if m == "ollama_create_model"@ {
        Some(true)
    } else if m == "ollama_create_model_for_profile"@ {
        Some(true)
    } else if m == "ollama_delete_model"@ {
        Some(true)
    } else if m == "ollama_delete_model_for_profile"@ {
        Some(true)
    } else if m == "ollama_load_model"@ {
        Some(true)
    } else if m == "ollama_load_model_for_profile"@ {
        Some(true)
    } else if m == "ollama_unload_model"@ {
        Some(true)
    } else if m == "ollama_unload_model_for_profile"@ {
        Some(true)
    } else if m == "ollama_list_running"@ {
        Some(true)
    } else {
        None
    }
}

/// The methods of the Torch inference server: `Some(plugins_only)` for each.
pub open spec fn torch_method(m: Seq<char>) -> Option<bool> {
    if m == "torch_list_slots"@ {
        Some(true)
    } else if m == "torch_load_model"@ {
        Some(true)
    } else if m == "torch_unload_model"@ {
        Some(true)
    } else if m == "torch_get_status"@ {
        Some(true)
    } else if m == "torch_list_devices"@ {
        Some(true)
    } else if m == "torch_configure"@ {
        Some(true)
    } else {
        None
    }
}

/// The methods of link management: `Some(plugins_only)` for each.
pub open spec fn links_method(m: Seq<char>) -> Option<bool> {
    if m == "get_link_health"@ {
        Some(false)
    } else if m == "clean_broken_links"@ {
        Some(false)
    } else if m == "remove_orphaned_links"@ {
        Some(false)
    } else if m == "get_links_for_model"@ {
        Some(false)
    } else if m == "delete_model_with_cascade"@ {
        Some(false)
    } else if m == "get_file_link_count"@ {
        Some(false)
    } else if m == "check_files_writable"@ {
        Some(false)
    } else if m == "set_model_link_exclusion"@ {
        Some(false)
    } else if m == "get_link_exclusions"@ {
        Some(false)
    } else {
        None
    }
}

/// The methods of model conversion: `Some(plugins_only)` for each.
pub open spec fn conversion_method(m: Seq<char>) -> Option<bool> {
    if m == "start_model_conversion"@ {
        Some(false)
    } else if m == "get_conversion_progress"@ {
        Some(false)
    } else if m == "cancel_model_conversion"@ {
        Some(false)
    } else if m == "list_model_conversions"@ {
        Some(false)
    } else if m == "check_conversion_environment"@ {
        Some(false)
    } else if m == "setup_conversion_environment"@ {
        Some(false)
    } else if m == "get_supported_quant_types"@ {
        Some(false)
    } else if m == "get_backend_status"@ {
        Some(false)
    } else if m == "setup_quantization_backend"@ {
        Some(false)
    } else {
        None
    }
}

/// The methods of plugins: `Some(plugins_only)` for each.
pub open spec fn plugins_method(m: Seq<char>) -> Option<bool> {
    if m == "get_plugins"@ {
        Some(true)
    } else if m == "get_plugin"@ {
        Some(true)
    } else if m == "call_plugin_endpoint"@ {
        Some(true)
    } else if m == "check_plugin_health"@ {
        Some(true)
    } else {
        None
    }
}

fn status_method_exec(m: &String) -> (r: Option<bool>)
    ensures
        r == status_method(m@),
{
    if *m == "get_status".to_owned() {
        Some(false)
    } else if *m == "get_disk_space".to_owned() {
        Some(false)
    } else if *m == "get_system_resources".to_owned() {
        Some(false)
    } else if *m == "get_status_telemetry_snapshot".to_owned() {
        Some(false)
    } else if *m == "get_launcher_version".to_owned() {
        Some(false)
    } else if *m == "check_launcher_updates".to_owned() {
        Some(false)
    } else if *m == "apply_launcher_update".to_owned() {
        Some(false)
    } else if *m == "restart_launcher".to_owned() {
        Some(false)
    } else if *m == "get_sandbox_info".to_owned() {
        Some(false)
    } else if *m == "check_git".to_owned() {
        Some(false)
    } else if *m == "get_network_status".to_owned() {
        Some(false)
    } else if *m == "get_library_status".to_owned() {
        Some(false)
    } else if *m == "get_app_status".to_owned() {
        Some(true)
    } else {
        None
    }
}

fn runtime_profiles_method_exec(m: &String) -> (r: Option<bool>)
    ensures
        r == runtime_profiles_method(m@),
{
    if *m == "get_runtime_profiles_snapshot".to_owned() {
        Some(true)
    } else if *m == "list_runtime_profile_updates_since".to_owned() {
        Some(true)
    } else if *m == "upsert_runtime_profile".to_owned() {
        Some(true)
    } else if *m == "delete_runtime_profile".to_owned() {
        Some(true)
    } else if *m == "set_model_runtime_route".to_owned() {
        Some(true)
    } else if *m == "clear_model_runtime_route".to_owned() {
        Some(true)
    } else if *m == "launch_runtime_profile".to_owned() {
        Some(true)
    } else if *m == "stop_runtime_profile".to_owned() {
        Some(true)
    } else {
        None
    }
}

fn serving_method_exec(m: &String) -> (r: Option<bool>)
    ensures
        r == serving_method(m@),
{
    if *m == "get_serving_status".to_owned() {
        Some(true)
    } else if *m == "list_serving_status_updates_since".to_owned() {
        Some(true)
    } else if *m == "validate_model_serving_config".to_owned() {
        Some(true)
    } else if *m == "serve_model".to_owned() {
        Some(true)
    } else if *m == "unserve_model".to_owned() {
        Some(true)
    } else {
        None
    }
}

fn versions_method_exec(m: &String) -> (r: Option<bool>)
    ensures
        r == versions_method(m@),
{
    if *m == "get_available_versions".to_owned() {
        Some(true)
    } else if *m == "get_installed_versions".to_owned() {
        Some(true)
    } else if *m == "get_active_version".to_owned() {
        Some(true)
    } else if *m == "get_default_version".to_owned() {
        Some(true)
    } else if *m == "set_default_version".to_owned() {
        Some(true)
    } else if *m == "switch_version".to_owned() {
        Some(true)
    } else if *m == "install_version".to_owned() {
        Some(true)
    } else if *m == "remove_version".to_owned() {
        Some(true)
    } else if *m == "cancel_installation".to_owned() {
        Some(true)
    } else if *m == "get_installation_progress".to_owned() {
        Some(true)
    } else if *m == "validate_installations".to_owned() {
        Some(true)
    } else if *m == "get_version_status".to_owned() {
        Some(true)
    } else if *m == "get_version_info".to_owned() {
        Some(true)
    } else if *m == "get_release_size_info".to_owned() {
        Some(true)
    } else if *m == "get_release_size_breakdown".to_owned() {
        Some(true)
    } else if *m == "calculate_release_size".to_owned() {
        Some(true)
    } else if *m == "calculate_all_release_sizes".to_owned() {
        Some(true)
    } else if *m == "has_background_fetch_completed".to_owned() {
        Some(true)
    } else if *m == "reset_background_fetch_flag".to_owned() {
        Some(true)
    } else if *m == "get_github_cache_status".to_owned() {
        Some(true)
    } else if *m == "check_version_dependencies".to_owned() {
        Some(true)
    } else if *m == "install_version_dependencies".to_owned() {
        Some(true)
    } else if *m == "get_release_dependencies".to_owned() {
        Some(true)
    } else {
        None
    }
}

fn models_method_exec(m: &String) -> (r: Option<bool>)
    ensures
        r == models_method(m@),
{
    if *m == "get_models".to_owned() {
        Some(false)
    } else if *m == "refresh_model_index".to_owned() {
        Some(false)
    } else if *m == "import_model".to_owned() {
        Some(false)
    } else if *m == "download_model_from_hf".to_owned() {
        Some(false)
    } else if *m == "start_model_download_from_hf".to_owned() {
        Some(false)
    } else if *m == "get_model_download_status".to_owned() {
        Some(false)
    } else if *m == "cancel_model_download".to_owned() {
        Some(false)
    } else if *m == "pause_model_download".to_owned() {
        Some(false)
    } else if *m == "resume_model_download".to_owned() {
        Some(false)
    } else if *m == "list_model_downloads".to_owned() {
        Some(false)
    } else if *m == "list_interrupted_downloads".to_owned() {
        Some(false)
    } else if *m == "recover_download".to_owned() {
        Some(false)
    } else if *m == "resume_partial_download".to_owned() {
        Some(false)
    } else if *m == "search_hf_models".to_owned() {
        Some(false)
    } else if *m == "get_hf_download_details".to_owned() {
        Some(false)
    } else if *m == "get_related_models".to_owned() {
        Some(false)
    } else if *m == "search_models_fts".to_owned() {
        Some(false)
    } else if *m == "import_batch".to_owned() {
        Some(false)
    } else if *m == "import_external_diffusers_directory".to_owned() {
        Some(false)
    } else if *m == "classify_model_import_paths".to_owned() {
        Some(false)
    } else if *m == "lookup_hf_metadata_for_file".to_owned() {
        Some(false)
    } else if *m == "lookup_hf_metadata_for_bundle_directory".to_owned() {
        Some(false)
    } else if *m == "detect_sharded_sets".to_owned() {
        Some(false)
    } else if *m == "validate_file_type".to_owned() {
        Some(false)
    } else if *m == "get_embedded_metadata".to_owned() {
        Some(false)
    } else if *m == "get_library_model_metadata".to_owned() {
        Some(false)
    } else if *m == "resolve_model_execution_descriptor".to_owned() {
        Some(false)
    } else if *m == "resolve_model_artifact_load_target".to_owned() {
        Some(false)
    } else if *m == "resolve_model_package_facts".to_owned() {
        Some(false)
    } else if *m == "list_model_library_updates_since".to_owned() {
        Some(false)
    } else if *m == "resolve_model_package_facts_summary".to_owned() {
        Some(false)
    } else if *m == "model_package_facts_summary_snapshot".to_owned() {
        Some(false)
    } else if *m == "refetch_model_metadata_from_hf".to_owned() {
        Some(false)
    } else if *m == "adopt_orphan_models".to_owned() {
        Some(false)
    } else if *m == "import_model_in_place".to_owned() {
        Some(false)
    } else if *m == "scan_shared_storage".to_owned() {
        Some(false)
    } else if *m == "get_inference_settings".to_owned() {
        Some(false)
    } else if *m == "update_inference_settings".to_owned() {
        Some(false)
    } else if *m == "update_model_notes".to_owned() {
        Some(false)
    } else if *m == "resolve_model_dependency_requirements".to_owned() {
        Some(false)
    } else if *m == "audit_dependency_pin_compliance".to_owned() {
        Some(false)
    } else if *m == "list_models_needing_review".to_owned() {
        Some(false)
    } else if *m == "submit_model_review".to_owned() {
        Some(false)
    } else if *m == "reset_model_review".to_owned() {
        Some(false)
    } else if *m == "generate_model_migration_dry_run_report".to_owned() {
        Some(false)
    } else if *m == "execute_model_migration".to_owned() {
        Some(false)
    } else if *m == "list_model_migration_reports".to_owned() {
        Some(false)
    } else if *m == "delete_model_migration_report".to_owned() {
        Some(false)
    } else if *m == "prune_model_migration_reports".to_owned() {
        Some(false)
    } else if *m == "set_hf_token".to_owned() {
        Some(false)
    } else if *m == "clear_hf_token".to_owned() {
        Some(false)
    } else if *m == "get_hf_auth_status".to_owned() {
        Some(false)
    } else {
        None
    }
}

fn process_method_exec(m: &String) -> (r: Option<bool>)
    ensures
        r == process_method(m@),
{
    if *m == "launch_ollama".to_owned() {
        Some(true)
    } else if *m == "stop_ollama".to_owned() {
        Some(true)
    } else if *m == "is_ollama_running".to_owned() {
        Some(true)
    } else if *m == "launch_torch".to_owned() {
        Some(true)
    } else if *m == "stop_torch".to_owned() {
        Some(true)
    } else if *m == "is_torch_running".to_owned() {
        Some(true)
    } else if *m == "open_path".to_owned() {
        Some(false)
    } else if *m == "open_url".to_owned() {
        Some(false)
    } else if *m == "open_active_install".to_owned() {
        Some(true)
    } else {
        None
    }
}

fn ollama_method_exec(m: &String) -> (r: Option<bool>)
    ensures
        r == ollama_method(m@),
{
    if *m == "ollama_list_models".to_owned() {
        Some(true)
    } else if *m == "ollama_list_models_for_profile".to_owned() {
        Some(true)
    } else if *m == "ollama_create_model".to_owned() {
        Some(true)
    } else if *m == "ollama_create_model_for_profile".to_owned() {
        Some(true)
    } else if *m == "ollama_delete_model".to_owned() {
        Some(true)
    } else if *m == "ollama_delete_model_for_profile".to_owned() {
        Some(true)
    } else if *m == "ollama_load_model".to_owned() {
        Some(true)
    } else if *m == "ollama_load_model_for_profile".to_owned() {
        Some(true)
    } else if *m == "ollama_unload_model".to_owned() {
        Some(true)
    } else if *m == "ollama_unload_model_for_profile".to_owned() {
        Some(true)
    } else if *m == "ollama_list_running".to_owned() {
        Some(true)
    } else {
        None
    }
}

fn torch_method_exec(m: &String) -> (r: Option<bool>)
    ensures
        r == torch_method(m@),
{
    if *m == "torch_list_slots".to_owned() {
        Some(true)
    } else if *m == "torch_load_model".to_owned() {
        Some(true)
    } else if *m == "torch_unload_model".to_owned() {
        Some(true)
    } else if *m == "torch_get_status".to_owned() {
        Some(true)
    } else if *m == "torch_list_devices".to_owned() {
        Some(true)
    } else if *m == "torch_configure".to_owned() {
        Some(true)
    } else {
        None
    }
}

fn links_method_exec(m: &String) -> (r: Option<bool>)
    ensures
        r == links_method(m@),
{
    if *m == "get_link_health".to_owned() {
        Some(false)
    } else if *m == "clean_broken_links".to_owned() {
        Some(false)
    } else if *m == "remove_orphaned_links".to_owned() {
        Some(false)
    } else if *m == "get_links_for_model".to_owned() {
        Some(false)
    } else if *m == "delete_model_with_cascade".to_owned() {
        Some(false)
    } else if *m == "get_file_link_count".to_owned() {
        Some(false)
    } else if *m == "check_files_writable".to_owned() {
        Some(false)
    } else if *m == "set_model_link_exclusion".to_owned() {
        Some(false)
    } else if *m == "get_link_exclusions".to_owned() {
        Some(false)
    } else {
        None
    }
}

fn conversion_method_exec(m: &String) -> (r: Option<bool>)
    ensures
        r == conversion_method(m@),
{
    if *m == "start_model_conversion".to_owned() {
        Some(false)
    } else if *m == "get_conversion_progress".to_owned() {
        Some(false)
    } else if *m == "cancel_model_conversion".to_owned() {
        Some(false)
    } else if *m == "list_model_conversions".to_owned() {
        Some(false)
    } else if *m == "check_conversion_environment".to_owned() {
        Some(false)
    } else if *m == "setup_conversion_environment".to_owned() {
        Some(false)
    } else if *m == "get_supported_quant_types".to_owned() {
        Some(false)
    } else if *m == "get_backend_status".to_owned() {
        Some(false)
    } else if *m == "setup_quantization_backend".to_owned() {
        Some(false)
    } else {
        None
    }
}

fn plugins_method_exec(m: &String) -> (r: Option<bool>)
    ensures
        r == plugins_method(m@),
{
    if *m == "get_plugins".to_owned() {
        Some(true)
    } else if *m == "get_plugin".to_owned() {
        Some(true)
    } else if *m == "call_plugin_endpoint".to_owned() {
        Some(true)
    } else if *m == "check_plugin_health".to_owned() {
        Some(true)
    } else {
        None
    }
}

/// The route of a method name, if it names a handler.
pub open spec fn rpc_route(m: Seq<char>) -> Option<RpcRoute> {
    if let Some(p) = status_method(m) {
        Some(RpcRoute { domain: RpcDomain::Status, plugins_only: p })
    } else if let Some(p) = runtime_profiles_method(m) {
        Some(RpcRoute { domain: RpcDomain::RuntimeProfiles, plugins_only: p })
    } else if let Some(p) = serving_method(m) {
        Some(RpcRoute { domain: RpcDomain::Serving, plugins_only: p })
    } else if let Some(p) = versions_method(m) {
        Some(RpcRoute { domain: RpcDomain::Versions, plugins_only: p })
    } else if let Some(p) = models_method(m) {
        Some(RpcRoute { domain: RpcDomain::Models, plugins_only: p })
    } else if let Some(p) = process_method(m) {
        Some(RpcRoute { domain: RpcDomain::Process, plugins_only: p })
    } else if let Some(p) = ollama_method(m) {
        Some(RpcRoute { domain: RpcDomain::Ollama, plugins_only: p })
    } else if let Some(p) = torch_method(m) {
        Some(RpcRoute { domain: RpcDomain::Torch, plugins_only: p })
    } else if let Some(p) = links_method(m) {
        Some(RpcRoute { domain: RpcDomain::Links, plugins_only: p })
    } else if let Some(p) = conversion_method(m) {
        Some(RpcRoute { domain: RpcDomain::Conversion, plugins_only: p })
    } else if let Some(p) = plugins_method(m) {
        Some(RpcRoute { domain: RpcDomain::Plugins, plugins_only: p })
    } else {
        None
    }
}

impl RpcRoute {
    /// The route of `method`, if it names a handler.
    pub fn of_method(method: &str) -> (r: Option<Self>)
        ensures
            r == rpc_route(method@),
    {
        let m = method.to_owned();
        if let Some(p) = status_method_exec(&m) {
            return Some(RpcRoute { domain: RpcDomain::Status, plugins_only: p });
        }
        if let Some(p) = runtime_profiles_method_exec(&m) {
            return Some(RpcRoute { domain: RpcDomain::RuntimeProfiles, plugins_only: p });
        }
        if let Some(p) = serving_method_exec(&m) {
            return Some(RpcRoute { domain: RpcDomain::Serving, plugins_only: p });
        }
        if let Some(p) = versions_method_exec(&m) {
            return Some(RpcRoute { domain: RpcDomain::Versions, plugins_only: p });
        }
        if let Some(p) = models_method_exec(&m) {
            return Some(RpcRoute { domain: RpcDomain::Models, plugins_only: p });
        }
        if let Some(p) = process_method_exec(&m) {
            return Some(RpcRoute { domain: RpcDomain::Process, plugins_only: p });
        }
        if let Some(p) = ollama_method_exec(&m) {
            return Some(RpcRoute { domain: RpcDomain::Ollama, plugins_only: p });
        }
        if let Some(p) = torch_method_exec(&m) {
            return Some(RpcRoute { domain: RpcDomain::Torch, plugins_only: p });
        }
        if let Some(p) = links_method_exec(&m) {
            return Some(RpcRoute { domain: RpcDomain::Links, plugins_only: p });
        }
        if let Some(p) = conversion_method_exec(&m) {
            return Some(RpcRoute { domain: RpcDomain::Conversion, plugins_only: p });
        }
        if let Some(p) = plugins_method_exec(&m) {
            return Some(RpcRoute { domain: RpcDomain::Plugins, plugins_only: p });
        }
        None
    }
}

/// True when `m` names a handler of a build with (`plugins`) or without
/// inference plugins.
pub open spec fn method_available(m: Seq<char>, plugins: bool) -> bool {
    rpc_route(m) matches Some(route) && (!route.plugins_only || plugins)
}

/// The handler group that serves `method` in a build with (`plugins`) or
/// without inference plugins; an unknown method is refused with
/// `Method not found: {method}`.
pub fn route_rpc_method(method: &str, plugins: bool) -> (r: Result<RpcDomain, PumasError>)
    ensures
        r is Ok <==> method_available(method@, plugins),
        r matches Ok(d) ==> (rpc_route(method@) matches Some(route) && route.domain == d),
        r matches Err(e) ==> is_other(e, "Method not found: "@ + method@),
{
    match RpcRoute::of_method(method) {
        Some(route) => {
            if !route.plugins_only || plugins {
                return Ok(route.domain);
            }
        },
        None => {},
    }
    proof {
        reveal_strlit("Method not found: ");
    }
    let mut message = "Method not found: ".to_owned();
    message.append(method);
    Err(PumasError::Other(message))
}

/// A JSON-RPC call as the server handles it: a built-in method, or one
/// dispatched to a handler group.
#[derive(Clone, Copy, Debug, PartialEq, Eq, Structural)]
pub enum RpcCall {
    HealthCheck,
    Shutdown,
    Dispatch(RpcDomain),
}

/// How the server handles a call of `method`: `health_check` and
/// `shutdown` are built in, every other method is routed.
pub fn classify_rpc_call(method: &str, plugins: bool) -> (r: Result<RpcCall, PumasError>)
    ensures
        method@ == "health_check"@ ==> r == Ok::<RpcCall, PumasError>(RpcCall::HealthCheck),
        method@ == "shutdown"@ ==> r == Ok::<RpcCall, PumasError>(RpcCall::Shutdown),
        method@ != "health_check"@ && method@ != "shutdown"@ ==> {
            &&& (r is Ok <==> method_available(method@, plugins))
            &&& (r matches Ok(c) ==> (c matches RpcCall::Dispatch(d) && rpc_route(method@) matches Some(route)
                && route.domain == d))
            &&& (r matches Err(e) ==> is_other(e, "Method not found: "@ + method@))
        },
{
    proof {
        reveal_strlit("health_check");
        reveal_strlit("shutdown");
        assert("health_check"@.len() != "shutdown"@.len());
    }
    let m = method.to_owned();
    if m == "health_check".to_owned() {
        Ok(RpcCall::HealthCheck)
    } else if m == "shutdown".to_owned() {
        Ok(RpcCall::Shutdown)
    } else {
        match route_rpc_method(method, plugins) {
            Ok(d) => Ok(RpcCall::Dispatch(d)),
            Err(e) => Err(e),
        }
    }
}

/// A one-member object `{"status": text}`.
pub open spec fn status_object(r: JsonValue, text: Seq<char>) -> bool {
    &&& r matches JsonValue::Object(members)
    &&& members@.len() == 1
    &&& members@[0].0@ == "status"@
    &&& members@[0].1 matches JsonValue::Text(t)
    &&& t@ == text
}

fn status_result(text: &str) -> (r: JsonValue)
    ensures
        status_object(r, text@),
{
    let mut members: Vec<(String, JsonValue)> = Vec::new();
    members.push(("status".to_owned(), JsonValue::Text(text.to_owned())));
    JsonValue::Object(members)
}

/// The result of `health_check`: `{"status": "ok"}`.
pub fn health_check_result() -> (r: JsonValue)
    ensures
        status_object(r, "ok"@),
{
    status_result("ok")
}

/// The result of `shutdown` in a build without inference plugins:
/// `{"status": "shutting_down"}`.
pub fn shutting_down_result() -> (r: JsonValue)
    ensures
        status_object(r, "shutting_down"@),
{
    status_result("shutting_down")
}

/// The parameters handed to a handler: the request's, or an empty object.
pub fn call_params(params: Option<JsonValue>) -> (r: JsonValue)
    ensures
        params matches Some(p) ==> r == p,
        params is None ==> (r matches JsonValue::Object(members) && members@.len() == 0),
{
    match params {
        Some(p) => p,
        None => JsonValue::Object(Vec::new()),
    }
}

} // verus!
