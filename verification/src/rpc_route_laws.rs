//! The routing table of the desktop dispatcher, pinned method by method:
//! each method it serves has its handler group and plugin gate, and no other
//! name has a route.

use crate::rpc_routes::{rpc_route, RpcDomain, RpcRoute};
use vstd::prelude::*;

verus! {

/// Every status and system method that the desktop dispatcher serves is routed to
/// `Status`, and needs inference plugins exactly where the dispatcher
/// gates it.
#[verifier::spinoff_prover]
pub proof fn law_status_methods_route_to_status()
    ensures
        rpc_route("get_status"@) == Some(RpcRoute { domain: RpcDomain::Status, plugins_only: false }),
        rpc_route("get_disk_space"@) == Some(RpcRoute { domain: RpcDomain::Status, plugins_only: false }),
        rpc_route("get_system_resources"@) == Some(RpcRoute { domain: RpcDomain::Status, plugins_only: false }),
        rpc_route("get_status_telemetry_snapshot"@) == Some(RpcRoute { domain: RpcDomain::Status, plugins_only: false }),
        rpc_route("get_launcher_version"@) == Some(RpcRoute { domain: RpcDomain::Status, plugins_only: false }),
        rpc_route("check_launcher_updates"@) == Some(RpcRoute { domain: RpcDomain::Status, plugins_only: false }),
        rpc_route("apply_launcher_update"@) == Some(RpcRoute { domain: RpcDomain::Status, plugins_only: false }),
        rpc_route("restart_launcher"@) == Some(RpcRoute { domain: RpcDomain::Status, plugins_only: false }),
        rpc_route("get_sandbox_info"@) == Some(RpcRoute { domain: RpcDomain::Status, plugins_only: false }),
        rpc_route("check_git"@) == Some(RpcRoute { domain: RpcDomain::Status, plugins_only: false }),
        rpc_route("get_network_status"@) == Some(RpcRoute { domain: RpcDomain::Status, plugins_only: false }),
        rpc_route("get_library_status"@) == Some(RpcRoute { domain: RpcDomain::Status, plugins_only: false }),
        rpc_route("get_app_status"@) == Some(RpcRoute { domain: RpcDomain::Status, plugins_only: true }),
{
    reveal_strlit("get_status");
    reveal_strlit("get_disk_space");
    reveal_strlit("get_system_resources");
    reveal_strlit("get_status_telemetry_snapshot");
    reveal_strlit("get_launcher_version");
    reveal_strlit("check_launcher_updates");
    reveal_strlit("apply_launcher_update");
    reveal_strlit("restart_launcher");
    reveal_strlit("get_sandbox_info");
    reveal_strlit("check_git");
    reveal_strlit("get_network_status");
    reveal_strlit("get_library_status");
    reveal_strlit("get_app_status");
    assert("get_status"@.len() == 10);
    assert("get_disk_space"@.len() == 14);
    assert("get_system_resources"@.len() == 20);
    assert("get_status_telemetry_snapshot"@.len() == 29);
    assert("get_launcher_version"@.len() == 20);
    assert("check_launcher_updates"@.len() == 22);
    assert("apply_launcher_update"@.len() == 21);
    assert("restart_launcher"@.len() == 16);
    assert("get_sandbox_info"@.len() == 16);
    assert("check_git"@.len() == 9);
    assert("get_network_status"@.len() == 18);
    assert("get_library_status"@.len() == 18);
    assert("get_app_status"@.len() == 14);
    assert("get_launcher_version"@[4] != "get_system_resources"@[4]);
    assert("get_sandbox_info"@[0] != "restart_launcher"@[0]);
    assert("get_library_status"@[4] != "get_network_status"@[4]);
    assert("get_app_status"@[4] != "get_disk_space"@[4]);
}

/// Every local runtime profile method that the desktop dispatcher serves is routed to
/// `RuntimeProfiles`, and needs inference plugins exactly where the dispatcher
/// gates it.
#[verifier::spinoff_prover]
pub proof fn law_runtime_profiles_methods_route_to_runtime_profiles()
    ensures
        rpc_route("get_runtime_profiles_snapshot"@) == Some(RpcRoute { domain: RpcDomain::RuntimeProfiles, plugins_only: true }),
        rpc_route("list_runtime_profile_updates_since"@) == Some(RpcRoute { domain: RpcDomain::RuntimeProfiles, plugins_only: true }),
        rpc_route("upsert_runtime_profile"@) == Some(RpcRoute { domain: RpcDomain::RuntimeProfiles, plugins_only: true }),
        rpc_route("delete_runtime_profile"@) == Some(RpcRoute { domain: RpcDomain::RuntimeProfiles, plugins_only: true }),
        rpc_route("set_model_runtime_route"@) == Some(RpcRoute { domain: RpcDomain::RuntimeProfiles, plugins_only: true }),
        rpc_route("clear_model_runtime_route"@) == Some(RpcRoute { domain: RpcDomain::RuntimeProfiles, plugins_only: true }),
        rpc_route("launch_runtime_profile"@) == Some(RpcRoute { domain: RpcDomain::RuntimeProfiles, plugins_only: true }),
        rpc_route("stop_runtime_profile"@) == Some(RpcRoute { domain: RpcDomain::RuntimeProfiles, plugins_only: true }),
{
    reveal_strlit("get_status");
    reveal_strlit("get_disk_space");
    reveal_strlit("get_system_resources");
    reveal_strlit("get_status_telemetry_snapshot");
    reveal_strlit("get_launcher_version");
    reveal_strlit("check_launcher_updates");
    reveal_strlit("apply_launcher_update");
    reveal_strlit("restart_launcher");
    reveal_strlit("get_sandbox_info");
    reveal_strlit("check_git");
    reveal_strlit("get_network_status");
    reveal_strlit("get_library_status");
    reveal_strlit("get_app_status");
    reveal_strlit("get_runtime_profiles_snapshot");
    reveal_strlit("list_runtime_profile_updates_since");
    reveal_strlit("upsert_runtime_profile");
    reveal_strlit("delete_runtime_profile");
    reveal_strlit("set_model_runtime_route");
    reveal_strlit("clear_model_runtime_route");
    reveal_strlit("launch_runtime_profile");
    reveal_strlit("stop_runtime_profile");
    assert("get_status"@.len() == 10);
    assert("get_disk_space"@.len() == 14);
    assert("get_system_resources"@.len() == 20);
    assert("get_status_telemetry_snapshot"@.len() == 29);
    assert("get_launcher_version"@.len() == 20);
    assert("check_launcher_updates"@.len() == 22);
    assert("apply_launcher_update"@.len() == 21);
    assert("restart_launcher"@.len() == 16);
    assert("get_sandbox_info"@.len() == 16);
    assert("check_git"@.len() == 9);
    assert("get_network_status"@.len() == 18);
    assert("get_library_status"@.len() == 18);
    assert("get_app_status"@.len() == 14);
    assert("get_runtime_profiles_snapshot"@.len() == 29);
    assert("list_runtime_profile_updates_since"@.len() == 34);
    assert("upsert_runtime_profile"@.len() == 22);
    assert("delete_runtime_profile"@.len() == 22);
    assert("set_model_runtime_route"@.len() == 23);
    assert("clear_model_runtime_route"@.len() == 25);
    assert("launch_runtime_profile"@.len() == 22);
    assert("stop_runtime_profile"@.len() == 20);
    assert("get_runtime_profiles_snapshot"@[4] != "get_status_telemetry_snapshot"@[4]);
    assert("upsert_runtime_profile"@[0] != "check_launcher_updates"@[0]);
    assert("delete_runtime_profile"@[0] != "check_launcher_updates"@[0]);
    assert("delete_runtime_profile"@[0] != "upsert_runtime_profile"@[0]);
    assert("launch_runtime_profile"@[0] != "check_launcher_updates"@[0]);
    assert("launch_runtime_profile"@[0] != "upsert_runtime_profile"@[0]);
    assert("launch_runtime_profile"@[0] != "delete_runtime_profile"@[0]);
    assert("stop_runtime_profile"@[0] != "get_system_resources"@[0]);
    assert("stop_runtime_profile"@[0] != "get_launcher_version"@[0]);
}

/// Every user-directed serving method that the desktop dispatcher serves is routed to
/// `Serving`, and needs inference plugins exactly where the dispatcher
/// gates it.
#[verifier::spinoff_prover]
pub proof fn law_serving_methods_route_to_serving()
    ensures
        rpc_route("get_serving_status"@) == Some(RpcRoute { domain: RpcDomain::Serving, plugins_only: true }),
        rpc_route("list_serving_status_updates_since"@) == Some(RpcRoute { domain: RpcDomain::Serving, plugins_only: true }),
        rpc_route("validate_model_serving_config"@) == Some(RpcRoute { domain: RpcDomain::Serving, plugins_only: true }),
        rpc_route("serve_model"@) == Some(RpcRoute { domain: RpcDomain::Serving, plugins_only: true }),
        rpc_route("unserve_model"@) == Some(RpcRoute { domain: RpcDomain::Serving, plugins_only: true }),
{
    reveal_strlit("get_status");
    reveal_strlit("get_disk_space");
    reveal_strlit("get_system_resources");
    reveal_strlit("get_status_telemetry_snapshot");
    reveal_strlit("get_launcher_version");
    reveal_strlit("check_launcher_updates");
    reveal_strlit("apply_launcher_update");
    reveal_strlit("restart_launcher");
    reveal_strlit("get_sandbox_info");
    reveal_strlit("check_git");
    reveal_strlit("get_network_status");
    reveal_strlit("get_library_status");
    reveal_strlit("get_app_status");
    reveal_strlit("get_runtime_profiles_snapshot");
    reveal_strlit("list_runtime_profile_updates_since");
    reveal_strlit("upsert_runtime_profile");
    reveal_strlit("delete_runtime_profile");
    reveal_strlit("set_model_runtime_route");
    reveal_strlit("clear_model_runtime_route");
    reveal_strlit("launch_runtime_profile");
    reveal_strlit("stop_runtime_profile");
    reveal_strlit("get_serving_status");
    reveal_strlit("list_serving_status_updates_since");
    reveal_strlit("validate_model_serving_config");
    reveal_strlit("serve_model");
    reveal_strlit("unserve_model");
    assert("get_status"@.len() == 10);
    assert("get_disk_space"@.len() == 14);
    assert("get_system_resources"@.len() == 20);
    assert("get_status_telemetry_snapshot"@.len() == 29);
    assert("get_launcher_version"@.len() == 20);
    assert("check_launcher_updates"@.len() == 22);
    assert("apply_launcher_update"@.len() == 21);
    assert("restart_launcher"@.len() == 16);
    assert("get_sandbox_info"@.len() == 16);
    assert("check_git"@.len() == 9);
    assert("get_network_status"@.len() == 18);
    assert("get_library_status"@.len() == 18);
    assert("get_app_status"@.len() == 14);
    assert("get_runtime_profiles_snapshot"@.len() == 29);
    assert("list_runtime_profile_updates_since"@.len() == 34);
    assert("upsert_runtime_profile"@.len() == 22);
    assert("delete_runtime_profile"@.len() == 22);
    assert("set_model_runtime_route"@.len() == 23);
    assert("clear_model_runtime_route"@.len() == 25);
    assert("launch_runtime_profile"@.len() == 22);
    assert("stop_runtime_profile"@.len() == 20);
    assert("get_serving_status"@.len() == 18);
    assert("list_serving_status_updates_since"@.len() == 33);
    assert("validate_model_serving_config"@.len() == 29);
    assert("serve_model"@.len() == 11);
    assert("unserve_model"@.len() == 13);
    assert("get_serving_status"@[4] != "get_network_status"@[4]);
    assert("get_serving_status"@[4] != "get_library_status"@[4]);
    assert("validate_model_serving_config"@[0] != "get_status_telemetry_snapshot"@[0]);
    assert("validate_model_serving_config"@[0] != "get_runtime_profiles_snapshot"@[0]);
}

/// Every version management method that the desktop dispatcher serves is routed to
/// `Versions`, and needs inference plugins exactly where the dispatcher
/// gates it.
#[verifier::spinoff_prover]
pub proof fn law_versions_methods_route_to_versions()
    ensures
        rpc_route("get_available_versions"@) == Some(RpcRoute { domain: RpcDomain::Versions, plugins_only: true }),
        rpc_route("get_installed_versions"@) == Some(RpcRoute { domain: RpcDomain::Versions, plugins_only: true }),
        rpc_route("get_active_version"@) == Some(RpcRoute { domain: RpcDomain::Versions, plugins_only: true }),
        rpc_route("get_default_version"@) == Some(RpcRoute { domain: RpcDomain::Versions, plugins_only: true }),
        rpc_route("set_default_version"@) == Some(RpcRoute { domain: RpcDomain::Versions, plugins_only: true }),
        rpc_route("switch_version"@) == Some(RpcRoute { domain: RpcDomain::Versions, plugins_only: true }),
        rpc_route("install_version"@) == Some(RpcRoute { domain: RpcDomain::Versions, plugins_only: true }),
        rpc_route("remove_version"@) == Some(RpcRoute { domain: RpcDomain::Versions, plugins_only: true }),
        rpc_route("cancel_installation"@) == Some(RpcRoute { domain: RpcDomain::Versions, plugins_only: true }),
        rpc_route("get_installation_progress"@) == Some(RpcRoute { domain: RpcDomain::Versions, plugins_only: true }),
        rpc_route("validate_installations"@) == Some(RpcRoute { domain: RpcDomain::Versions, plugins_only: true }),
        rpc_route("get_version_status"@) == Some(RpcRoute { domain: RpcDomain::Versions, plugins_only: true }),
        rpc_route("get_version_info"@) == Some(RpcRoute { domain: RpcDomain::Versions, plugins_only: true }),
        rpc_route("get_release_size_info"@) == Some(RpcRoute { domain: RpcDomain::Versions, plugins_only: true }),
        rpc_route("get_release_size_breakdown"@) == Some(RpcRoute { domain: RpcDomain::Versions, plugins_only: true }),
        rpc_route("calculate_release_size"@) == Some(RpcRoute { domain: RpcDomain::Versions, plugins_only: true }),
        rpc_route("calculate_all_release_sizes"@) == Some(RpcRoute { domain: RpcDomain::Versions, plugins_only: true }),
        rpc_route("has_background_fetch_completed"@) == Some(RpcRoute { domain: RpcDomain::Versions, plugins_only: true }),
        rpc_route("reset_background_fetch_flag"@) == Some(RpcRoute { domain: RpcDomain::Versions, plugins_only: true }),
        rpc_route("get_github_cache_status"@) == Some(RpcRoute { domain: RpcDomain::Versions, plugins_only: true }),
        rpc_route("check_version_dependencies"@) == Some(RpcRoute { domain: RpcDomain::Versions, plugins_only: true }),
        rpc_route("install_version_dependencies"@) == Some(RpcRoute { domain: RpcDomain::Versions, plugins_only: true }),
        rpc_route("get_release_dependencies"@) == Some(RpcRoute { domain: RpcDomain::Versions, plugins_only: true }),
{
    reveal_strlit("get_status");
    reveal_strlit("get_disk_space");
    reveal_strlit("get_system_resources");
    reveal_strlit("get_status_telemetry_snapshot");
    reveal_strlit("get_launcher_version");
    reveal_strlit("check_launcher_updates");
    reveal_strlit("apply_launcher_update");
    reveal_strlit("restart_launcher");
    reveal_strlit("get_sandbox_info");
    reveal_strlit("check_git");
    reveal_strlit("get_network_status");
    reveal_strlit("get_library_status");
    reveal_strlit("get_app_status");
    reveal_strlit("get_runtime_profiles_snapshot");
    reveal_strlit("list_runtime_profile_updates_since");
    reveal_strlit("upsert_runtime_profile");
    reveal_strlit("delete_runtime_profile");
    reveal_strlit("set_model_runtime_route");
    reveal_strlit("clear_model_runtime_route");
    reveal_strlit("launch_runtime_profile");
    reveal_strlit("stop_runtime_profile");
    reveal_strlit("get_serving_status");
    reveal_strlit("list_serving_status_updates_since");
    reveal_strlit("validate_model_serving_config");
    reveal_strlit("serve_model");
    reveal_strlit("unserve_model");
    reveal_strlit("get_available_versions");
    reveal_strlit("get_installed_versions");
    reveal_strlit("get_active_version");
    reveal_strlit("get_default_version");
    reveal_strlit("set_default_version");
    reveal_strlit("switch_version");
    reveal_strlit("install_version");
    reveal_strlit("remove_version");
    reveal_strlit("cancel_installation");
    reveal_strlit("get_installation_progress");
    reveal_strlit("validate_installations");
    reveal_strlit("get_version_status");
    reveal_strlit("get_version_info");
    reveal_strlit("get_release_size_info");
    reveal_strlit("get_release_size_breakdown");
    reveal_strlit("calculate_release_size");
    reveal_strlit("calculate_all_release_sizes");
    reveal_strlit("has_background_fetch_completed");
    reveal_strlit("reset_background_fetch_flag");
    reveal_strlit("get_github_cache_status");
    reveal_strlit("check_version_dependencies");
    reveal_strlit("install_version_dependencies");
    reveal_strlit("get_release_dependencies");
    assert("get_status"@.len() == 10);
    assert("get_disk_space"@.len() == 14);
    assert("get_system_resources"@.len() == 20);
    assert("get_status_telemetry_snapshot"@.len() == 29);
    assert("get_launcher_version"@.len() == 20);
    assert("check_launcher_updates"@.len() == 22);
    assert("apply_launcher_update"@.len() == 21);
    assert("restart_launcher"@.len() == 16);
    assert("get_sandbox_info"@.len() == 16);
    assert("check_git"@.len() == 9);
    assert("get_network_status"@.len() == 18);
    assert("get_library_status"@.len() == 18);
    assert("get_app_status"@.len() == 14);
    assert("get_runtime_profiles_snapshot"@.len() == 29);
    assert("list_runtime_profile_updates_since"@.len() == 34);
    assert("upsert_runtime_profile"@.len() == 22);
    assert("delete_runtime_profile"@.len() == 22);
    assert("set_model_runtime_route"@.len() == 23);
    assert("clear_model_runtime_route"@.len() == 25);
    assert("launch_runtime_profile"@.len() == 22);
    assert("stop_runtime_profile"@.len() == 20);
    assert("get_serving_status"@.len() == 18);
    assert("list_serving_status_updates_since"@.len() == 33);
    assert("validate_model_serving_config"@.len() == 29);
    assert("serve_model"@.len() == 11);
    assert("unserve_model"@.len() == 13);
    assert("get_available_versions"@.len() == 22);
    assert("get_installed_versions"@.len() == 22);
    assert("get_active_version"@.len() == 18);
    assert("get_default_version"@.len() == 19);
    assert("set_default_version"@.len() == 19);
    assert("switch_version"@.len() == 14);
    assert("install_version"@.len() == 15);
    assert("remove_version"@.len() == 14);
    assert("cancel_installation"@.len() == 19);
    assert("get_installation_progress"@.len() == 25);
    assert("validate_installations"@.len() == 22);
    assert("get_version_status"@.len() == 18);
    assert("get_version_info"@.len() == 16);
    assert("get_release_size_info"@.len() == 21);
    assert("get_release_size_breakdown"@.len() == 26);
    assert("calculate_release_size"@.len() == 22);
    assert("calculate_all_release_sizes"@.len() == 27);
    assert("has_background_fetch_completed"@.len() == 30);
    assert("reset_background_fetch_flag"@.len() == 27);
    assert("get_github_cache_status"@.len() == 23);
    assert("check_version_dependencies"@.len() == 26);
    assert("install_version_dependencies"@.len() == 28);
    assert("get_release_dependencies"@.len() == 24);
    assert("get_available_versions"@[0] != "check_launcher_updates"@[0]);
    assert("get_available_versions"@[0] != "upsert_runtime_profile"@[0]);
    assert("get_available_versions"@[0] != "delete_runtime_profile"@[0]);
    assert("get_available_versions"@[0] != "launch_runtime_profile"@[0]);
    assert("get_installed_versions"@[0] != "check_launcher_updates"@[0]);
    assert("get_installed_versions"@[0] != "upsert_runtime_profile"@[0]);
    assert("get_installed_versions"@[0] != "delete_runtime_profile"@[0]);
    assert("get_installed_versions"@[0] != "launch_runtime_profile"@[0]);
    assert("get_installed_versions"@[4] != "get_available_versions"@[4]);
    assert("get_active_version"@[4] != "get_network_status"@[4]);
    assert("get_active_version"@[4] != "get_library_status"@[4]);
    assert("get_active_version"@[4] != "get_serving_status"@[4]);
    assert("set_default_version"@[0] != "get_default_version"@[0]);
    assert("switch_version"@[0] != "get_disk_space"@[0]);
    assert("switch_version"@[0] != "get_app_status"@[0]);
    assert("remove_version"@[0] != "get_disk_space"@[0]);
    assert("remove_version"@[0] != "get_app_status"@[0]);
    assert("remove_version"@[0] != "switch_version"@[0]);
    assert("cancel_installation"@[0] != "get_default_version"@[0]);
    assert("cancel_installation"@[0] != "set_default_version"@[0]);
    assert("get_installation_progress"@[0] != "clear_model_runtime_route"@[0]);
    assert("validate_installations"@[0] != "check_launcher_updates"@[0]);
    assert("validate_installations"@[0] != "upsert_runtime_profile"@[0]);
    assert("validate_installations"@[0] != "delete_runtime_profile"@[0]);
    assert("validate_installations"@[0] != "launch_runtime_profile"@[0]);
    assert("validate_installations"@[0] != "get_available_versions"@[0]);
    assert("validate_installations"@[0] != "get_installed_versions"@[0]);
    assert("get_version_status"@[4] != "get_network_status"@[4]);
    assert("get_version_status"@[4] != "get_library_status"@[4]);
    assert("get_version_status"@[4] != "get_serving_status"@[4]);
    assert("get_version_status"@[4] != "get_active_version"@[4]);
    assert("get_version_info"@[0] != "restart_launcher"@[0]);
    assert("get_version_info"@[4] != "get_sandbox_info"@[4]);
    assert("get_release_size_info"@[0] != "apply_launcher_update"@[0]);
    assert("calculate_release_size"@[1] != "check_launcher_updates"@[1]);
    assert("calculate_release_size"@[0] != "upsert_runtime_profile"@[0]);
    assert("calculate_release_size"@[0] != "delete_runtime_profile"@[0]);
    assert("calculate_release_size"@[0] != "launch_runtime_profile"@[0]);
    assert("calculate_release_size"@[0] != "get_available_versions"@[0]);
    assert("calculate_release_size"@[0] != "get_installed_versions"@[0]);
    assert("calculate_release_size"@[0] != "validate_installations"@[0]);
    assert("reset_background_fetch_flag"@[0] != "calculate_all_release_sizes"@[0]);
    assert("get_github_cache_status"@[0] != "set_model_runtime_route"@[0]);
    assert("check_version_dependencies"@[0] != "get_release_size_breakdown"@[0]);
}

/// Every model library method that the desktop dispatcher serves is routed to
/// `Models`, and needs inference plugins exactly where the dispatcher
/// gates it.
#[verifier::spinoff_prover]
pub proof fn law_models_methods_route_to_models()
    ensures
        rpc_route("get_models"@) == Some(RpcRoute { domain: RpcDomain::Models, plugins_only: false }),
        rpc_route("refresh_model_index"@) == Some(RpcRoute { domain: RpcDomain::Models, plugins_only: false }),
        rpc_route("import_model"@) == Some(RpcRoute { domain: RpcDomain::Models, plugins_only: false }),
        rpc_route("download_model_from_hf"@) == Some(RpcRoute { domain: RpcDomain::Models, plugins_only: false }),
        rpc_route("start_model_download_from_hf"@) == Some(RpcRoute { domain: RpcDomain::Models, plugins_only: false }),
        rpc_route("get_model_download_status"@) == Some(RpcRoute { domain: RpcDomain::Models, plugins_only: false }),
        rpc_route("cancel_model_download"@) == Some(RpcRoute { domain: RpcDomain::Models, plugins_only: false }),
        rpc_route("pause_model_download"@) == Some(RpcRoute { domain: RpcDomain::Models, plugins_only: false }),
        rpc_route("resume_model_download"@) == Some(RpcRoute { domain: RpcDomain::Models, plugins_only: false }),
        rpc_route("list_model_downloads"@) == Some(RpcRoute { domain: RpcDomain::Models, plugins_only: false }),
        rpc_route("list_interrupted_downloads"@) == Some(RpcRoute { domain: RpcDomain::Models, plugins_only: false }),
        rpc_route("recover_download"@) == Some(RpcRoute { domain: RpcDomain::Models, plugins_only: false }),
        rpc_route("resume_partial_download"@) == Some(RpcRoute { domain: RpcDomain::Models, plugins_only: false }),
        rpc_route("search_hf_models"@) == Some(RpcRoute { domain: RpcDomain::Models, plugins_only: false }),
        rpc_route("get_hf_download_details"@) == Some(RpcRoute { domain: RpcDomain::Models, plugins_only: false }),
        rpc_route("get_related_models"@) == Some(RpcRoute { domain: RpcDomain::Models, plugins_only: false }),
        rpc_route("search_models_fts"@) == Some(RpcRoute { domain: RpcDomain::Models, plugins_only: false }),
        rpc_route("import_batch"@) == Some(RpcRoute { domain: RpcDomain::Models, plugins_only: false }),
        rpc_route("import_external_diffusers_directory"@) == Some(RpcRoute { domain: RpcDomain::Models, plugins_only: false }),
        rpc_route("classify_model_import_paths"@) == Some(RpcRoute { domain: RpcDomain::Models, plugins_only: false }),
        rpc_route("lookup_hf_metadata_for_file"@) == Some(RpcRoute { domain: RpcDomain::Models, plugins_only: false }),
        rpc_route("lookup_hf_metadata_for_bundle_directory"@) == Some(RpcRoute { domain: RpcDomain::Models, plugins_only: false }),
        rpc_route("detect_sharded_sets"@) == Some(RpcRoute { domain: RpcDomain::Models, plugins_only: false }),
        rpc_route("validate_file_type"@) == Some(RpcRoute { domain: RpcDomain::Models, plugins_only: false }),
        rpc_route("get_embedded_metadata"@) == Some(RpcRoute { domain: RpcDomain::Models, plugins_only: false }),
        rpc_route("get_library_model_metadata"@) == Some(RpcRoute { domain: RpcDomain::Models, plugins_only: false }),
        rpc_route("resolve_model_execution_descriptor"@) == Some(RpcRoute { domain: RpcDomain::Models, plugins_only: false }),
        rpc_route("resolve_model_artifact_load_target"@) == Some(RpcRoute { domain: RpcDomain::Models, plugins_only: false }),
        rpc_route("resolve_model_package_facts"@) == Some(RpcRoute { domain: RpcDomain::Models, plugins_only: false }),
        rpc_route("list_model_library_updates_since"@) == Some(RpcRoute { domain: RpcDomain::Models, plugins_only: false }),
        rpc_route("resolve_model_package_facts_summary"@) == Some(RpcRoute { domain: RpcDomain::Models, plugins_only: false }),
        rpc_route("model_package_facts_summary_snapshot"@) == Some(RpcRoute { domain: RpcDomain::Models, plugins_only: false }),
        rpc_route("refetch_model_metadata_from_hf"@) == Some(RpcRoute { domain: RpcDomain::Models, plugins_only: false }),
        rpc_route("adopt_orphan_models"@) == Some(RpcRoute { domain: RpcDomain::Models, plugins_only: false }),
        rpc_route("import_model_in_place"@) == Some(RpcRoute { domain: RpcDomain::Models, plugins_only: false }),
        rpc_route("scan_shared_storage"@) == Some(RpcRoute { domain: RpcDomain::Models, plugins_only: false }),
        rpc_route("get_inference_settings"@) == Some(RpcRoute { domain: RpcDomain::Models, plugins_only: false }),
        rpc_route("update_inference_settings"@) == Some(RpcRoute { domain: RpcDomain::Models, plugins_only: false }),
        rpc_route("update_model_notes"@) == Some(RpcRoute { domain: RpcDomain::Models, plugins_only: false }),
        rpc_route("resolve_model_dependency_requirements"@) == Some(RpcRoute { domain: RpcDomain::Models, plugins_only: false }),
        rpc_route("audit_dependency_pin_compliance"@) == Some(RpcRoute { domain: RpcDomain::Models, plugins_only: false }),
        rpc_route("list_models_needing_review"@) == Some(RpcRoute { domain: RpcDomain::Models, plugins_only: false }),
        rpc_route("submit_model_review"@) == Some(RpcRoute { domain: RpcDomain::Models, plugins_only: false }),
        rpc_route("reset_model_review"@) == Some(RpcRoute { domain: RpcDomain::Models, plugins_only: false }),
        rpc_route("generate_model_migration_dry_run_report"@) == Some(RpcRoute { domain: RpcDomain::Models, plugins_only: false }),
        rpc_route("execute_model_migration"@) == Some(RpcRoute { domain: RpcDomain::Models, plugins_only: false }),
        rpc_route("list_model_migration_reports"@) == Some(RpcRoute { domain: RpcDomain::Models, plugins_only: false }),
        rpc_route("delete_model_migration_report"@) == Some(RpcRoute { domain: RpcDomain::Models, plugins_only: false }),
        rpc_route("prune_model_migration_reports"@) == Some(RpcRoute { domain: RpcDomain::Models, plugins_only: false }),
        rpc_route("set_hf_token"@) == Some(RpcRoute { domain: RpcDomain::Models, plugins_only: false }),
        rpc_route("clear_hf_token"@) == Some(RpcRoute { domain: RpcDomain::Models, plugins_only: false }),
        rpc_route("get_hf_auth_status"@) == Some(RpcRoute { domain: RpcDomain::Models, plugins_only: false }),
{
    reveal_strlit("get_status");
    reveal_strlit("get_disk_space");
    reveal_strlit("get_system_resources");
    reveal_strlit("get_status_telemetry_snapshot");
    reveal_strlit("get_launcher_version");
    reveal_strlit("check_launcher_updates");
    reveal_strlit("apply_launcher_update");
    reveal_strlit("restart_launcher");
    reveal_strlit("get_sandbox_info");
    reveal_strlit("check_git");
    reveal_strlit("get_network_status");
    reveal_strlit("get_library_status");
    reveal_strlit("get_app_status");
    reveal_strlit("get_runtime_profiles_snapshot");
    reveal_strlit("list_runtime_profile_updates_since");
    reveal_strlit("upsert_runtime_profile");
    reveal_strlit("delete_runtime_profile");
    reveal_strlit("set_model_runtime_route");
    reveal_strlit("clear_model_runtime_route");
    reveal_strlit("launch_runtime_profile");
    reveal_strlit("stop_runtime_profile");
    reveal_strlit("get_serving_status");
    reveal_strlit("list_serving_status_updates_since");
    reveal_strlit("validate_model_serving_config");
    reveal_strlit("serve_model");
    reveal_strlit("unserve_model");
    reveal_strlit("get_available_versions");
    reveal_strlit("get_installed_versions");
    reveal_strlit("get_active_version");
    reveal_strlit("get_default_version");
    reveal_strlit("set_default_version");
    reveal_strlit("switch_version");
    reveal_strlit("install_version");
    reveal_strlit("remove_version");
    reveal_strlit("cancel_installation");
    reveal_strlit("get_installation_progress");
    reveal_strlit("validate_installations");
    reveal_strlit("get_version_status");
    reveal_strlit("get_version_info");
    reveal_strlit("get_release_size_info");
    reveal_strlit("get_release_size_breakdown");
    reveal_strlit("calculate_release_size");
    reveal_strlit("calculate_all_release_sizes");
    reveal_strlit("has_background_fetch_completed");
    reveal_strlit("reset_background_fetch_flag");
    reveal_strlit("get_github_cache_status");
    reveal_strlit("check_version_dependencies");
    reveal_strlit("install_version_dependencies");
    reveal_strlit("get_release_dependencies");
    reveal_strlit("get_models");
    reveal_strlit("refresh_model_index");
    reveal_strlit("import_model");
    reveal_strlit("download_model_from_hf");
    reveal_strlit("start_model_download_from_hf");
    reveal_strlit("get_model_download_status");
    reveal_strlit("cancel_model_download");
    reveal_strlit("pause_model_download");
    reveal_strlit("resume_model_download");
    reveal_strlit("list_model_downloads");
    reveal_strlit("list_interrupted_downloads");
    reveal_strlit("recover_download");
    reveal_strlit("resume_partial_download");
    reveal_strlit("search_hf_models");
    reveal_strlit("get_hf_download_details");
    reveal_strlit("get_related_models");
    reveal_strlit("search_models_fts");
    reveal_strlit("import_batch");
    reveal_strlit("import_external_diffusers_directory");
    reveal_strlit("classify_model_import_paths");
    reveal_strlit("lookup_hf_metadata_for_file");
    reveal_strlit("lookup_hf_metadata_for_bundle_directory");
    reveal_strlit("detect_sharded_sets");
    reveal_strlit("validate_file_type");
    reveal_strlit("get_embedded_metadata");
    reveal_strlit("get_library_model_metadata");
    reveal_strlit("resolve_model_execution_descriptor");
    reveal_strlit("resolve_model_artifact_load_target");
    reveal_strlit("resolve_model_package_facts");
    reveal_strlit("list_model_library_updates_since");
    reveal_strlit("resolve_model_package_facts_summary");
    reveal_strlit("model_package_facts_summary_snapshot");
    reveal_strlit("refetch_model_metadata_from_hf");
    reveal_strlit("adopt_orphan_models");
    reveal_strlit("import_model_in_place");
    reveal_strlit("scan_shared_storage");
    reveal_strlit("get_inference_settings");
    reveal_strlit("update_inference_settings");
    reveal_strlit("update_model_notes");
    reveal_strlit("resolve_model_dependency_requirements");
    reveal_strlit("audit_dependency_pin_compliance");
    reveal_strlit("list_models_needing_review");
    reveal_strlit("submit_model_review");
    reveal_strlit("reset_model_review");
    reveal_strlit("generate_model_migration_dry_run_report");
    reveal_strlit("execute_model_migration");
    reveal_strlit("list_model_migration_reports");
    reveal_strlit("delete_model_migration_report");
    reveal_strlit("prune_model_migration_reports");
    reveal_strlit("set_hf_token");
    reveal_strlit("clear_hf_token");
    reveal_strlit("get_hf_auth_status");
    assert("get_status"@.len() == 10);
    assert("get_disk_space"@.len() == 14);
    assert("get_system_resources"@.len() == 20);
    assert("get_status_telemetry_snapshot"@.len() == 29);
    assert("get_launcher_version"@.len() == 20);
    assert("check_launcher_updates"@.len() == 22);
    assert("apply_launcher_update"@.len() == 21);
    assert("restart_launcher"@.len() == 16);
    assert("get_sandbox_info"@.len() == 16);
    assert("check_git"@.len() == 9);
    assert("get_network_status"@.len() == 18);
    assert("get_library_status"@.len() == 18);
    assert("get_app_status"@.len() == 14);
    assert("get_runtime_profiles_snapshot"@.len() == 29);
    assert("list_runtime_profile_updates_since"@.len() == 34);
    assert("upsert_runtime_profile"@.len() == 22);
    assert("delete_runtime_profile"@.len() == 22);
    assert("set_model_runtime_route"@.len() == 23);
    assert("clear_model_runtime_route"@.len() == 25);
    assert("launch_runtime_profile"@.len() == 22);
    assert("stop_runtime_profile"@.len() == 20);
    assert("get_serving_status"@.len() == 18);
    assert("list_serving_status_updates_since"@.len() == 33);
    assert("validate_model_serving_config"@.len() == 29);
    assert("serve_model"@.len() == 11);
    assert("unserve_model"@.len() == 13);
    assert("get_available_versions"@.len() == 22);
    assert("get_installed_versions"@.len() == 22);
    assert("get_active_version"@.len() == 18);
    assert("get_default_version"@.len() == 19);
    assert("set_default_version"@.len() == 19);
    assert("switch_version"@.len() == 14);
    assert("install_version"@.len() == 15);
    assert("remove_version"@.len() == 14);
    assert("cancel_installation"@.len() == 19);
    assert("get_installation_progress"@.len() == 25);
    assert("validate_installations"@.len() == 22);
    assert("get_version_status"@.len() == 18);
    assert("get_version_info"@.len() == 16);
    assert("get_release_size_info"@.len() == 21);
    assert("get_release_size_breakdown"@.len() == 26);
    assert("calculate_release_size"@.len() == 22);
    assert("calculate_all_release_sizes"@.len() == 27);
    assert("has_background_fetch_completed"@.len() == 30);
    assert("reset_background_fetch_flag"@.len() == 27);
    assert("get_github_cache_status"@.len() == 23);
    assert("check_version_dependencies"@.len() == 26);
    assert("install_version_dependencies"@.len() == 28);
    assert("get_release_dependencies"@.len() == 24);
    assert("get_models"@.len() == 10);
    assert("refresh_model_index"@.len() == 19);
    assert("import_model"@.len() == 12);
    assert("download_model_from_hf"@.len() == 22);
    assert("start_model_download_from_hf"@.len() == 28);
    assert("get_model_download_status"@.len() == 25);
    assert("cancel_model_download"@.len() == 21);
    assert("pause_model_download"@.len() == 20);
    assert("resume_model_download"@.len() == 21);
    assert("list_model_downloads"@.len() == 20);
    assert("list_interrupted_downloads"@.len() == 26);
    assert("recover_download"@.len() == 16);
    assert("resume_partial_download"@.len() == 23);
    assert("search_hf_models"@.len() == 16);
    assert("get_hf_download_details"@.len() == 23);
    assert("get_related_models"@.len() == 18);
    assert("search_models_fts"@.len() == 17);
    assert("import_batch"@.len() == 12);
    assert("import_external_diffusers_directory"@.len() == 35);
    assert("classify_model_import_paths"@.len() == 27);
    assert("lookup_hf_metadata_for_file"@.len() == 27);
    assert("lookup_hf_metadata_for_bundle_directory"@.len() == 39);
    assert("detect_sharded_sets"@.len() == 19);
    assert("validate_file_type"@.len() == 18);
    assert("get_embedded_metadata"@.len() == 21);
    assert("get_library_model_metadata"@.len() == 26);
    assert("resolve_model_execution_descriptor"@.len() == 34);
    assert("resolve_model_artifact_load_target"@.len() == 34);
    assert("resolve_model_package_facts"@.len() == 27);
    assert("list_model_library_updates_since"@.len() == 32);
    assert("resolve_model_package_facts_summary"@.len() == 35);
    assert("model_package_facts_summary_snapshot"@.len() == 36);
    assert("refetch_model_metadata_from_hf"@.len() == 30);
    assert("adopt_orphan_models"@.len() == 19);
    assert("import_model_in_place"@.len() == 21);
    assert("scan_shared_storage"@.len() == 19);
    assert("get_inference_settings"@.len() == 22);
    assert("update_inference_settings"@.len() == 25);
    assert("update_model_notes"@.len() == 18);
    assert("resolve_model_dependency_requirements"@.len() == 37);
    assert("audit_dependency_pin_compliance"@.len() == 31);
    assert("list_models_needing_review"@.len() == 26);
    assert("submit_model_review"@.len() == 19);
    assert("reset_model_review"@.len() == 18);
    assert("generate_model_migration_dry_run_report"@.len() == 39);
    assert("execute_model_migration"@.len() == 23);
    assert("list_model_migration_reports"@.len() == 28);
    assert("delete_model_migration_report"@.len() == 29);
    assert("prune_model_migration_reports"@.len() == 29);
    assert("set_hf_token"@.len() == 12);
    assert("clear_hf_token"@.len() == 14);
    assert("get_hf_auth_status"@.len() == 18);
    assert("get_models"@[4] != "get_status"@[4]);
    assert("refresh_model_index"@[0] != "get_default_version"@[0]);
    assert("refresh_model_index"@[0] != "set_default_version"@[0]);
    assert("refresh_model_index"@[0] != "cancel_installation"@[0]);
    assert("download_model_from_hf"@[0] != "check_launcher_updates"@[0]);
    assert("download_model_from_hf"@[0] != "upsert_runtime_profile"@[0]);
    assert("download_model_from_hf"@[1] != "delete_runtime_profile"@[1]);
    assert("download_model_from_hf"@[0] != "launch_runtime_profile"@[0]);
    assert("download_model_from_hf"@[0] != "get_available_versions"@[0]);
    assert("download_model_from_hf"@[0] != "get_installed_versions"@[0]);
    assert("download_model_from_hf"@[0] != "validate_installations"@[0]);
    assert("download_model_from_hf"@[0] != "calculate_release_size"@[0]);
    assert("start_model_download_from_hf"@[0] != "install_version_dependencies"@[0]);
    assert("get_model_download_status"@[0] != "clear_model_runtime_route"@[0]);
    assert("get_model_download_status"@[4] != "get_installation_progress"@[4]);
    assert("cancel_model_download"@[0] != "apply_launcher_update"@[0]);
    assert("cancel_model_download"@[0] != "get_release_size_info"@[0]);
    assert("pause_model_download"@[0] != "get_system_resources"@[0]);
    assert("pause_model_download"@[0] != "get_launcher_version"@[0]);
    assert("pause_model_download"@[0] != "stop_runtime_profile"@[0]);
    assert("resume_model_download"@[0] != "apply_launcher_update"@[0]);
    assert("resume_model_download"@[0] != "get_release_size_info"@[0]);
    assert("resume_model_download"@[0] != "cancel_model_download"@[0]);
    assert("list_model_downloads"@[0] != "get_system_resources"@[0]);
    assert("list_model_downloads"@[0] != "get_launcher_version"@[0]);
    assert("list_model_downloads"@[0] != "stop_runtime_profile"@[0]);
    assert("list_model_downloads"@[0] != "pause_model_download"@[0]);
    assert("list_interrupted_downloads"@[0] != "get_release_size_breakdown"@[0]);
    assert("list_interrupted_downloads"@[0] != "check_version_dependencies"@[0]);
    assert("recover_download"@[2] != "restart_launcher"@[2]);
    assert("recover_download"@[0] != "get_sandbox_info"@[0]);
    assert("recover_download"@[0] != "get_version_info"@[0]);
    assert("resume_partial_download"@[0] != "set_model_runtime_route"@[0]);
    assert("resume_partial_download"@[0] != "get_github_cache_status"@[0]);
    assert("search_hf_models"@[0] != "restart_launcher"@[0]);
    assert("search_hf_models"@[0] != "get_sandbox_info"@[0]);
    assert("search_hf_models"@[0] != "get_version_info"@[0]);
    assert("search_hf_models"@[0] != "recover_download"@[0]);
    assert("get_hf_download_details"@[0] != "set_model_runtime_route"@[0]);
    assert("get_hf_download_details"@[4] != "get_github_cache_status"@[4]);
    assert("get_hf_download_details"@[0] != "resume_partial_download"@[0]);
    assert("get_related_models"@[4] != "get_network_status"@[4]);
    assert("get_related_models"@[4] != "get_library_status"@[4]);
    assert("get_related_models"@[4] != "get_serving_status"@[4]);
    assert("get_related_models"@[4] != "get_active_version"@[4]);
    assert("get_related_models"@[4] != "get_version_status"@[4]);
    assert("import_batch"@[7] != "import_model"@[7]);
    assert("classify_model_import_paths"@[1] != "calculate_all_release_sizes"@[1]);
    assert("classify_model_import_paths"@[0] != "reset_background_fetch_flag"@[0]);
    assert("lookup_hf_metadata_for_file"@[0] != "calculate_all_release_sizes"@[0]);
    assert("lookup_hf_metadata_for_file"@[0] != "reset_background_fetch_flag"@[0]);
    assert("lookup_hf_metadata_for_file"@[0] != "classify_model_import_paths"@[0]);
    assert("detect_sharded_sets"@[0] != "get_default_version"@[0]);
    assert("detect_sharded_sets"@[0] != "set_default_version"@[0]);
    assert("detect_sharded_sets"@[0] != "cancel_installation"@[0]);
    assert("detect_sharded_sets"@[0] != "refresh_model_index"@[0]);
    assert("validate_file_type"@[0] != "get_network_status"@[0]);
    assert("validate_file_type"@[0] != "get_library_status"@[0]);
    assert("validate_file_type"@[0] != "get_serving_status"@[0]);
    assert("validate_file_type"@[0] != "get_active_version"@[0]);
    assert("validate_file_type"@[0] != "get_version_status"@[0]);
    assert("validate_file_type"@[0] != "get_related_models"@[0]);
    assert("get_embedded_metadata"@[0] != "apply_launcher_update"@[0]);
    assert("get_embedded_metadata"@[4] != "get_release_size_info"@[4]);
    assert("get_embedded_metadata"@[0] != "cancel_model_download"@[0]);
    assert("get_embedded_metadata"@[0] != "resume_model_download"@[0]);
    assert("get_library_model_metadata"@[4] != "get_release_size_breakdown"@[4]);
    assert("get_library_model_metadata"@[0] != "check_version_dependencies"@[0]);
    assert("get_library_model_metadata"@[0] != "list_interrupted_downloads"@[0]);
    assert("resolve_model_execution_descriptor"@[0] != "list_runtime_profile_updates_since"@[0]);
    assert("resolve_model_artifact_load_target"@[0] != "list_runtime_profile_updates_since"@[0]);
    assert("resolve_model_artifact_load_target"@[14] != "resolve_model_execution_descriptor"@[14]);
    assert("resolve_model_package_facts"@[0] != "calculate_all_release_sizes"@[0]);
    assert("resolve_model_package_facts"@[3] != "reset_background_fetch_flag"@[3]);
    assert("resolve_model_package_facts"@[0] != "classify_model_import_paths"@[0]);
    assert("resolve_model_package_facts"@[0] != "lookup_hf_metadata_for_file"@[0]);
    assert("resolve_model_package_facts_summary"@[0] != "import_external_diffusers_directory"@[0]);
    assert("refetch_model_metadata_from_hf"@[0] != "has_background_fetch_completed"@[0]);
    assert("adopt_orphan_models"@[0] != "get_default_version"@[0]);
    assert("adopt_orphan_models"@[0] != "set_default_version"@[0]);
    assert("adopt_orphan_models"@[0] != "cancel_installation"@[0]);
    assert("adopt_orphan_models"@[0] != "refresh_model_index"@[0]);
    assert("adopt_orphan_models"@[0] != "detect_sharded_sets"@[0]);
    assert("import_model_in_place"@[0] != "apply_launcher_update"@[0]);
    assert("import_model_in_place"@[0] != "get_release_size_info"@[0]);
    assert("import_model_in_place"@[0] != "cancel_model_download"@[0]);
    assert("import_model_in_place"@[0] != "resume_model_download"@[0]);
    assert("import_model_in_place"@[0] != "get_embedded_metadata"@[0]);
    assert("scan_shared_storage"@[0] != "get_default_version"@[0]);
    assert("scan_shared_storage"@[1] != "set_default_version"@[1]);
    assert("scan_shared_storage"@[0] != "cancel_installation"@[0]);
    assert("scan_shared_storage"@[0] != "refresh_model_index"@[0]);
    assert("scan_shared_storage"@[0] != "detect_sharded_sets"@[0]);
    assert("scan_shared_storage"@[0] != "adopt_orphan_models"@[0]);
    assert("get_inference_settings"@[0] != "check_launcher_updates"@[0]);
    assert("get_inference_settings"@[0] != "upsert_runtime_profile"@[0]);
    assert("get_inference_settings"@[0] != "delete_runtime_profile"@[0]);
    assert("get_inference_settings"@[0] != "launch_runtime_profile"@[0]);
    assert("get_inference_settings"@[4] != "get_available_versions"@[4]);
    assert("get_inference_settings"@[6] != "get_installed_versions"@[6]);
    assert("get_inference_settings"@[0] != "validate_installations"@[0]);
    assert("get_inference_settings"@[0] != "calculate_release_size"@[0]);
    assert("get_inference_settings"@[0] != "download_model_from_hf"@[0]);
    assert("update_inference_settings"@[0] != "clear_model_runtime_route"@[0]);
    assert("update_inference_settings"@[0] != "get_installation_progress"@[0]);
    assert("update_inference_settings"@[0] != "get_model_download_status"@[0]);
    assert("update_model_notes"@[0] != "get_network_status"@[0]);
    assert("update_model_notes"@[0] != "get_library_status"@[0]);
    assert("update_model_notes"@[0] != "get_serving_status"@[0]);
    assert("update_model_notes"@[0] != "get_active_version"@[0]);
    assert("update_model_notes"@[0] != "get_version_status"@[0]);
    assert("update_model_notes"@[0] != "get_related_models"@[0]);
    assert("update_model_notes"@[0] != "validate_file_type"@[0]);
    assert("list_models_needing_review"@[0] != "get_release_size_breakdown"@[0]);
    assert("list_models_needing_review"@[0] != "check_version_dependencies"@[0]);
    assert("list_models_needing_review"@[5] != "list_interrupted_downloads"@[5]);
    assert("list_models_needing_review"@[0] != "get_library_model_metadata"@[0]);
    assert("submit_model_review"@[0] != "get_default_version"@[0]);
    assert("submit_model_review"@[1] != "set_default_version"@[1]);
    assert("submit_model_review"@[0] != "cancel_installation"@[0]);
    assert("submit_model_review"@[0] != "refresh_model_index"@[0]);
    assert("submit_model_review"@[0] != "detect_sharded_sets"@[0]);
    assert("submit_model_review"@[0] != "adopt_orphan_models"@[0]);
    assert("submit_model_review"@[1] != "scan_shared_storage"@[1]);
    assert("reset_model_review"@[0] != "get_network_status"@[0]);
    assert("reset_model_review"@[0] != "get_library_status"@[0]);
    assert("reset_model_review"@[0] != "get_serving_status"@[0]);
    assert("reset_model_review"@[0] != "get_active_version"@[0]);
    assert("reset_model_review"@[0] != "get_version_status"@[0]);
    assert("reset_model_review"@[0] != "get_related_models"@[0]);
    assert("reset_model_review"@[0] != "validate_file_type"@[0]);
    assert("reset_model_review"@[0] != "update_model_notes"@[0]);
    assert("generate_model_migration_dry_run_report"@[0] != "lookup_hf_metadata_for_bundle_directory"@[0]);
    assert("execute_model_migration"@[0] != "set_model_runtime_route"@[0]);
    assert("execute_model_migration"@[0] != "get_github_cache_status"@[0]);
    assert("execute_model_migration"@[0] != "resume_partial_download"@[0]);
    assert("execute_model_migration"@[0] != "get_hf_download_details"@[0]);
    assert("list_model_migration_reports"@[0] != "install_version_dependencies"@[0]);
    assert("list_model_migration_reports"@[0] != "start_model_download_from_hf"@[0]);
    assert("delete_model_migration_report"@[0] != "get_status_telemetry_snapshot"@[0]);
    assert("delete_model_migration_report"@[0] != "get_runtime_profiles_snapshot"@[0]);
    assert("delete_model_migration_report"@[0] != "validate_model_serving_config"@[0]);
    assert("prune_model_migration_reports"@[0] != "get_status_telemetry_snapshot"@[0]);
    assert("prune_model_migration_reports"@[0] != "get_runtime_profiles_snapshot"@[0]);
    assert("prune_model_migration_reports"@[0] != "validate_model_serving_config"@[0]);
    assert("prune_model_migration_reports"@[0] != "delete_model_migration_report"@[0]);
    assert("set_hf_token"@[0] != "import_model"@[0]);
    assert("set_hf_token"@[0] != "import_batch"@[0]);
    assert("clear_hf_token"@[0] != "get_disk_space"@[0]);
    assert("clear_hf_token"@[0] != "get_app_status"@[0]);
    assert("clear_hf_token"@[0] != "switch_version"@[0]);
    assert("clear_hf_token"@[0] != "remove_version"@[0]);
    assert("get_hf_auth_status"@[4] != "get_network_status"@[4]);
    assert("get_hf_auth_status"@[4] != "get_library_status"@[4]);
    assert("get_hf_auth_status"@[4] != "get_serving_status"@[4]);
    assert("get_hf_auth_status"@[4] != "get_active_version"@[4]);
    assert("get_hf_auth_status"@[4] != "get_version_status"@[4]);
    assert("get_hf_auth_status"@[4] != "get_related_models"@[4]);
    assert("get_hf_auth_status"@[0] != "validate_file_type"@[0]);
    assert("get_hf_auth_status"@[0] != "update_model_notes"@[0]);
    assert("get_hf_auth_status"@[0] != "reset_model_review"@[0]);
}

/// Every process method that the desktop dispatcher serves is routed to
/// `Process`, and needs inference plugins exactly where the dispatcher
/// gates it.
#[verifier::spinoff_prover]
pub proof fn law_process_methods_route_to_process()
    ensures
        rpc_route("launch_ollama"@) == Some(RpcRoute { domain: RpcDomain::Process, plugins_only: true }),
        rpc_route("stop_ollama"@) == Some(RpcRoute { domain: RpcDomain::Process, plugins_only: true }),
        rpc_route("is_ollama_running"@) == Some(RpcRoute { domain: RpcDomain::Process, plugins_only: true }),
        rpc_route("launch_torch"@) == Some(RpcRoute { domain: RpcDomain::Process, plugins_only: true }),
        rpc_route("stop_torch"@) == Some(RpcRoute { domain: RpcDomain::Process, plugins_only: true }),
        rpc_route("is_torch_running"@) == Some(RpcRoute { domain: RpcDomain::Process, plugins_only: true }),
        rpc_route("open_path"@) == Some(RpcRoute { domain: RpcDomain::Process, plugins_only: false }),
        rpc_route("open_url"@) == Some(RpcRoute { domain: RpcDomain::Process, plugins_only: false }),
        rpc_route("open_active_install"@) == Some(RpcRoute { domain: RpcDomain::Process, plugins_only: true }),
{
    reveal_strlit("get_status");
    reveal_strlit("get_disk_space");
    reveal_strlit("get_system_resources");
    reveal_strlit("get_status_telemetry_snapshot");
    reveal_strlit("get_launcher_version");
    reveal_strlit("check_launcher_updates");
    reveal_strlit("apply_launcher_update");
    reveal_strlit("restart_launcher");
    reveal_strlit("get_sandbox_info");
    reveal_strlit("check_git");
    reveal_strlit("get_network_status");
    reveal_strlit("get_library_status");
    reveal_strlit("get_app_status");
    reveal_strlit("get_runtime_profiles_snapshot");
    reveal_strlit("list_runtime_profile_updates_since");
    reveal_strlit("upsert_runtime_profile");
    reveal_strlit("delete_runtime_profile");
    reveal_strlit("set_model_runtime_route");
    reveal_strlit("clear_model_runtime_route");
    reveal_strlit("launch_runtime_profile");
    reveal_strlit("stop_runtime_profile");
    reveal_strlit("get_serving_status");
    reveal_strlit("list_serving_status_updates_since");
    reveal_strlit("validate_model_serving_config");
    reveal_strlit("serve_model");
    reveal_strlit("unserve_model");
    reveal_strlit("get_available_versions");
    reveal_strlit("get_installed_versions");
    reveal_strlit("get_active_version");
    reveal_strlit("get_default_version");
    reveal_strlit("set_default_version");
    reveal_strlit("switch_version");
    reveal_strlit("install_version");
    reveal_strlit("remove_version");
    reveal_strlit("cancel_installation");
    reveal_strlit("get_installation_progress");
    reveal_strlit("validate_installations");
    reveal_strlit("get_version_status");
    reveal_strlit("get_version_info");
    reveal_strlit("get_release_size_info");
    reveal_strlit("get_release_size_breakdown");
    reveal_strlit("calculate_release_size");
    reveal_strlit("calculate_all_release_sizes");
    reveal_strlit("has_background_fetch_completed");
    reveal_strlit("reset_background_fetch_flag");
    reveal_strlit("get_github_cache_status");
    reveal_strlit("check_version_dependencies");
    reveal_strlit("install_version_dependencies");
    reveal_strlit("get_release_dependencies");
    reveal_strlit("get_models");
    reveal_strlit("refresh_model_index");
    reveal_strlit("import_model");
    reveal_strlit("download_model_from_hf");
    reveal_strlit("start_model_download_from_hf");
    reveal_strlit("get_model_download_status");
    reveal_strlit("cancel_model_download");
    reveal_strlit("pause_model_download");
    reveal_strlit("resume_model_download");
    reveal_strlit("list_model_downloads");
    reveal_strlit("list_interrupted_downloads");
    reveal_strlit("recover_download");
    reveal_strlit("resume_partial_download");
    reveal_strlit("search_hf_models");
    reveal_strlit("get_hf_download_details");
    reveal_strlit("get_related_models");
    reveal_strlit("search_models_fts");
    reveal_strlit("import_batch");
    reveal_strlit("import_external_diffusers_directory");
    reveal_strlit("classify_model_import_paths");
    reveal_strlit("lookup_hf_metadata_for_file");
    reveal_strlit("lookup_hf_metadata_for_bundle_directory");
    reveal_strlit("detect_sharded_sets");
    reveal_strlit("validate_file_type");
    reveal_strlit("get_embedded_metadata");
    reveal_strlit("get_library_model_metadata");
    reveal_strlit("resolve_model_execution_descriptor");
    reveal_strlit("resolve_model_artifact_load_target");
    reveal_strlit("resolve_model_package_facts");
    reveal_strlit("list_model_library_updates_since");
    reveal_strlit("resolve_model_package_facts_summary");
    reveal_strlit("model_package_facts_summary_snapshot");
    reveal_strlit("refetch_model_metadata_from_hf");
    reveal_strlit("adopt_orphan_models");
    reveal_strlit("import_model_in_place");
    reveal_strlit("scan_shared_storage");
    reveal_strlit("get_inference_settings");
    reveal_strlit("update_inference_settings");
    reveal_strlit("update_model_notes");
    reveal_strlit("resolve_model_dependency_requirements");
    reveal_strlit("audit_dependency_pin_compliance");
    reveal_strlit("list_models_needing_review");
    reveal_strlit("submit_model_review");
    reveal_strlit("reset_model_review");
    reveal_strlit("generate_model_migration_dry_run_report");
    reveal_strlit("execute_model_migration");
    reveal_strlit("list_model_migration_reports");
    reveal_strlit("delete_model_migration_report");
    reveal_strlit("prune_model_migration_reports");
    reveal_strlit("set_hf_token");
    reveal_strlit("clear_hf_token");
    reveal_strlit("get_hf_auth_status");
    reveal_strlit("launch_ollama");
    reveal_strlit("stop_ollama");
    reveal_strlit("is_ollama_running");
    reveal_strlit("launch_torch");
    reveal_strlit("stop_torch");
    reveal_strlit("is_torch_running");
    reveal_strlit("open_path");
    reveal_strlit("open_url");
    reveal_strlit("open_active_install");
    assert("get_status"@.len() == 10);
    assert("get_disk_space"@.len() == 14);
    assert("get_system_resources"@.len() == 20);
    assert("get_status_telemetry_snapshot"@.len() == 29);
    assert("get_launcher_version"@.len() == 20);
    assert("check_launcher_updates"@.len() == 22);
    assert("apply_launcher_update"@.len() == 21);
    assert("restart_launcher"@.len() == 16);
    assert("get_sandbox_info"@.len() == 16);
    assert("check_git"@.len() == 9);
    assert("get_network_status"@.len() == 18);
    assert("get_library_status"@.len() == 18);
    assert("get_app_status"@.len() == 14);
    assert("get_runtime_profiles_snapshot"@.len() == 29);
    assert("list_runtime_profile_updates_since"@.len() == 34);
    assert("upsert_runtime_profile"@.len() == 22);
    assert("delete_runtime_profile"@.len() == 22);
    assert("set_model_runtime_route"@.len() == 23);
    assert("clear_model_runtime_route"@.len() == 25);
    assert("launch_runtime_profile"@.len() == 22);
    assert("stop_runtime_profile"@.len() == 20);
    assert("get_serving_status"@.len() == 18);
    assert("list_serving_status_updates_since"@.len() == 33);
    assert("validate_model_serving_config"@.len() == 29);
    assert("serve_model"@.len() == 11);
    assert("unserve_model"@.len() == 13);
    assert("get_available_versions"@.len() == 22);
    assert("get_installed_versions"@.len() == 22);
    assert("get_active_version"@.len() == 18);
    assert("get_default_version"@.len() == 19);
    assert("set_default_version"@.len() == 19);
    assert("switch_version"@.len() == 14);
    assert("install_version"@.len() == 15);
    assert("remove_version"@.len() == 14);
    assert("cancel_installation"@.len() == 19);
    assert("get_installation_progress"@.len() == 25);
    assert("validate_installations"@.len() == 22);
    assert("get_version_status"@.len() == 18);
    assert("get_version_info"@.len() == 16);
    assert("get_release_size_info"@.len() == 21);
    assert("get_release_size_breakdown"@.len() == 26);
    assert("calculate_release_size"@.len() == 22);
    assert("calculate_all_release_sizes"@.len() == 27);
    assert("has_background_fetch_completed"@.len() == 30);
    assert("reset_background_fetch_flag"@.len() == 27);
    assert("get_github_cache_status"@.len() == 23);
    assert("check_version_dependencies"@.len() == 26);
    assert("install_version_dependencies"@.len() == 28);
    assert("get_release_dependencies"@.len() == 24);
    assert("get_models"@.len() == 10);
    assert("refresh_model_index"@.len() == 19);
    assert("import_model"@.len() == 12);
    assert("download_model_from_hf"@.len() == 22);
    assert("start_model_download_from_hf"@.len() == 28);
    assert("get_model_download_status"@.len() == 25);
    assert("cancel_model_download"@.len() == 21);
    assert("pause_model_download"@.len() == 20);
    assert("resume_model_download"@.len() == 21);
    assert("list_model_downloads"@.len() == 20);
    assert("list_interrupted_downloads"@.len() == 26);
    assert("recover_download"@.len() == 16);
    assert("resume_partial_download"@.len() == 23);
    assert("search_hf_models"@.len() == 16);
    assert("get_hf_download_details"@.len() == 23);
    assert("get_related_models"@.len() == 18);
    assert("search_models_fts"@.len() == 17);
    assert("import_batch"@.len() == 12);
    assert("import_external_diffusers_directory"@.len() == 35);
    assert("classify_model_import_paths"@.len() == 27);
    assert("lookup_hf_metadata_for_file"@.len() == 27);
    assert("lookup_hf_metadata_for_bundle_directory"@.len() == 39);
    assert("detect_sharded_sets"@.len() == 19);
    assert("validate_file_type"@.len() == 18);
    assert("get_embedded_metadata"@.len() == 21);
    assert("get_library_model_metadata"@.len() == 26);
    assert("resolve_model_execution_descriptor"@.len() == 34);
    assert("resolve_model_artifact_load_target"@.len() == 34);
    assert("resolve_model_package_facts"@.len() == 27);
    assert("list_model_library_updates_since"@.len() == 32);
    assert("resolve_model_package_facts_summary"@.len() == 35);
    assert("model_package_facts_summary_snapshot"@.len() == 36);
    assert("refetch_model_metadata_from_hf"@.len() == 30);
    assert("adopt_orphan_models"@.len() == 19);
    assert("import_model_in_place"@.len() == 21);
    assert("scan_shared_storage"@.len() == 19);
    assert("get_inference_settings"@.len() == 22);
    assert("update_inference_settings"@.len() == 25);
    assert("update_model_notes"@.len() == 18);
    assert("resolve_model_dependency_requirements"@.len() == 37);
    assert("audit_dependency_pin_compliance"@.len() == 31);
    assert("list_models_needing_review"@.len() == 26);
    assert("submit_model_review"@.len() == 19);
    assert("reset_model_review"@.len() == 18);
    assert("generate_model_migration_dry_run_report"@.len() == 39);
    assert("execute_model_migration"@.len() == 23);
    assert("list_model_migration_reports"@.len() == 28);
    assert("delete_model_migration_report"@.len() == 29);
    assert("prune_model_migration_reports"@.len() == 29);
    assert("set_hf_token"@.len() == 12);
    assert("clear_hf_token"@.len() == 14);
    assert("get_hf_auth_status"@.len() == 18);
    assert("launch_ollama"@.len() == 13);
    assert("stop_ollama"@.len() == 11);
    assert("is_ollama_running"@.len() == 17);
    assert("launch_torch"@.len() == 12);
    assert("stop_torch"@.len() == 10);
    assert("is_torch_running"@.len() == 16);
    assert("open_path"@.len() == 9);
    assert("open_url"@.len() == 8);
    assert("open_active_install"@.len() == 19);
    assert("launch_ollama"@[0] != "unserve_model"@[0]);
    assert("stop_ollama"@[1] != "serve_model"@[1]);
    assert("is_ollama_running"@[0] != "search_models_fts"@[0]);
    assert("launch_torch"@[0] != "import_model"@[0]);
    assert("launch_torch"@[0] != "import_batch"@[0]);
    assert("launch_torch"@[0] != "set_hf_token"@[0]);
    assert("stop_torch"@[0] != "get_status"@[0]);
    assert("stop_torch"@[0] != "get_models"@[0]);
    assert("is_torch_running"@[0] != "restart_launcher"@[0]);
    assert("is_torch_running"@[0] != "get_sandbox_info"@[0]);
    assert("is_torch_running"@[0] != "get_version_info"@[0]);
    assert("is_torch_running"@[0] != "recover_download"@[0]);
    assert("is_torch_running"@[0] != "search_hf_models"@[0]);
    assert("open_path"@[0] != "check_git"@[0]);
    assert("open_active_install"@[0] != "get_default_version"@[0]);
    assert("open_active_install"@[0] != "set_default_version"@[0]);
    assert("open_active_install"@[0] != "cancel_installation"@[0]);
    assert("open_active_install"@[0] != "refresh_model_index"@[0]);
    assert("open_active_install"@[0] != "detect_sharded_sets"@[0]);
    assert("open_active_install"@[0] != "adopt_orphan_models"@[0]);
    assert("open_active_install"@[0] != "scan_shared_storage"@[0]);
    assert("open_active_install"@[0] != "submit_model_review"@[0]);
}

/// Every Ollama method that the desktop dispatcher serves is routed to
/// `Ollama`, and needs inference plugins exactly where the dispatcher
/// gates it.
#[verifier::spinoff_prover]
pub proof fn law_ollama_methods_route_to_ollama()
    ensures
        rpc_route("ollama_list_models"@) == Some(RpcRoute { domain: RpcDomain::Ollama, plugins_only: true }),
        rpc_route("ollama_list_models_for_profile"@) == Some(RpcRoute { domain: RpcDomain::Ollama, plugins_only: true }),
        rpc_route("ollama_create_model"@) == Some(RpcRoute { domain: RpcDomain::Ollama, plugins_only: true }),
        rpc_route("ollama_create_model_for_profile"@) == Some(RpcRoute { domain: RpcDomain::Ollama, plugins_only: true }),
        rpc_route("ollama_delete_model"@) == Some(RpcRoute { domain: RpcDomain::Ollama, plugins_only: true }),
        rpc_route("ollama_delete_model_for_profile"@) == Some(RpcRoute { domain: RpcDomain::Ollama, plugins_only: true }),
        rpc_route("ollama_load_model"@) == Some(RpcRoute { domain: RpcDomain::Ollama, plugins_only: true }),
        rpc_route("ollama_load_model_for_profile"@) == Some(RpcRoute { domain: RpcDomain::Ollama, plugins_only: true }),
        rpc_route("ollama_unload_model"@) == Some(RpcRoute { domain: RpcDomain::Ollama, plugins_only: true }),
        rpc_route("ollama_unload_model_for_profile"@) == Some(RpcRoute { domain: RpcDomain::Ollama, plugins_only: true }),
        rpc_route("ollama_list_running"@) == Some(RpcRoute { domain: RpcDomain::Ollama, plugins_only: true }),
{
    reveal_strlit("get_status");
    reveal_strlit("get_disk_space");
    reveal_strlit("get_system_resources");
    reveal_strlit("get_status_telemetry_snapshot");
    reveal_strlit("get_launcher_version");
    reveal_strlit("check_launcher_updates");
    reveal_strlit("apply_launcher_update");
    reveal_strlit("restart_launcher");
    reveal_strlit("get_sandbox_info");
    reveal_strlit("check_git");
    reveal_strlit("get_network_status");
    reveal_strlit("get_library_status");
    reveal_strlit("get_app_status");
    reveal_strlit("get_runtime_profiles_snapshot");
    reveal_strlit("list_runtime_profile_updates_since");
    reveal_strlit("upsert_runtime_profile");
    reveal_strlit("delete_runtime_profile");
    reveal_strlit("set_model_runtime_route");
    reveal_strlit("clear_model_runtime_route");
    reveal_strlit("launch_runtime_profile");
    reveal_strlit("stop_runtime_profile");
    reveal_strlit("get_serving_status");
    reveal_strlit("list_serving_status_updates_since");
    reveal_strlit("validate_model_serving_config");
    reveal_strlit("serve_model");
    reveal_strlit("unserve_model");
    reveal_strlit("get_available_versions");
    reveal_strlit("get_installed_versions");
    reveal_strlit("get_active_version");
    reveal_strlit("get_default_version");
    reveal_strlit("set_default_version");
    reveal_strlit("switch_version");
    reveal_strlit("install_version");
    reveal_strlit("remove_version");
    reveal_strlit("cancel_installation");
    reveal_strlit("get_installation_progress");
    reveal_strlit("validate_installations");
    reveal_strlit("get_version_status");
    reveal_strlit("get_version_info");
    reveal_strlit("get_release_size_info");
    reveal_strlit("get_release_size_breakdown");
    reveal_strlit("calculate_release_size");
    reveal_strlit("calculate_all_release_sizes");
    reveal_strlit("has_background_fetch_completed");
    reveal_strlit("reset_background_fetch_flag");
    reveal_strlit("get_github_cache_status");
    reveal_strlit("check_version_dependencies");
    reveal_strlit("install_version_dependencies");
    reveal_strlit("get_release_dependencies");
    reveal_strlit("get_models");
    reveal_strlit("refresh_model_index");
    reveal_strlit("import_model");
    reveal_strlit("download_model_from_hf");
    reveal_strlit("start_model_download_from_hf");
    reveal_strlit("get_model_download_status");
    reveal_strlit("cancel_model_download");
    reveal_strlit("pause_model_download");
    reveal_strlit("resume_model_download");
    reveal_strlit("list_model_downloads");
    reveal_strlit("list_interrupted_downloads");
    reveal_strlit("recover_download");
    reveal_strlit("resume_partial_download");
    reveal_strlit("search_hf_models");
    reveal_strlit("get_hf_download_details");
    reveal_strlit("get_related_models");
    reveal_strlit("search_models_fts");
    reveal_strlit("import_batch");
    reveal_strlit("import_external_diffusers_directory");
    reveal_strlit("classify_model_import_paths");
    reveal_strlit("lookup_hf_metadata_for_file");
    reveal_strlit("lookup_hf_metadata_for_bundle_directory");
    reveal_strlit("detect_sharded_sets");
    reveal_strlit("validate_file_type");
    reveal_strlit("get_embedded_metadata");
    reveal_strlit("get_library_model_metadata");
    reveal_strlit("resolve_model_execution_descriptor");
    reveal_strlit("resolve_model_artifact_load_target");
    reveal_strlit("resolve_model_package_facts");
    reveal_strlit("list_model_library_updates_since");
    reveal_strlit("resolve_model_package_facts_summary");
    reveal_strlit("model_package_facts_summary_snapshot");
    reveal_strlit("refetch_model_metadata_from_hf");
    reveal_strlit("adopt_orphan_models");
    reveal_strlit("import_model_in_place");
    reveal_strlit("scan_shared_storage");
    reveal_strlit("get_inference_settings");
    reveal_strlit("update_inference_settings");
    reveal_strlit("update_model_notes");
    reveal_strlit("resolve_model_dependency_requirements");
    reveal_strlit("audit_dependency_pin_compliance");
    reveal_strlit("list_models_needing_review");
    reveal_strlit("submit_model_review");
    reveal_strlit("reset_model_review");
    reveal_strlit("generate_model_migration_dry_run_report");
    reveal_strlit("execute_model_migration");
    reveal_strlit("list_model_migration_reports");
    reveal_strlit("delete_model_migration_report");
    reveal_strlit("prune_model_migration_reports");
    reveal_strlit("set_hf_token");
    reveal_strlit("clear_hf_token");
    reveal_strlit("get_hf_auth_status");
    reveal_strlit("launch_ollama");
    reveal_strlit("stop_ollama");
    reveal_strlit("is_ollama_running");
    reveal_strlit("launch_torch");
    reveal_strlit("stop_torch");
    reveal_strlit("is_torch_running");
    reveal_strlit("open_path");
    reveal_strlit("open_url");
    reveal_strlit("open_active_install");
    reveal_strlit("ollama_list_models");
    reveal_strlit("ollama_list_models_for_profile");
    reveal_strlit("ollama_create_model");
    reveal_strlit("ollama_create_model_for_profile");
    reveal_strlit("ollama_delete_model");
    reveal_strlit("ollama_delete_model_for_profile");
    reveal_strlit("ollama_load_model");
    reveal_strlit("ollama_load_model_for_profile");
    reveal_strlit("ollama_unload_model");
    reveal_strlit("ollama_unload_model_for_profile");
    reveal_strlit("ollama_list_running");
    assert("get_status"@.len() == 10);
    assert("get_disk_space"@.len() == 14);
    assert("get_system_resources"@.len() == 20);
    assert("get_status_telemetry_snapshot"@.len() == 29);
    assert("get_launcher_version"@.len() == 20);
    assert("check_launcher_updates"@.len() == 22);
    assert("apply_launcher_update"@.len() == 21);
    assert("restart_launcher"@.len() == 16);
    assert("get_sandbox_info"@.len() == 16);
    assert("check_git"@.len() == 9);
    assert("get_network_status"@.len() == 18);
    assert("get_library_status"@.len() == 18);
    assert("get_app_status"@.len() == 14);
    assert("get_runtime_profiles_snapshot"@.len() == 29);
    assert("list_runtime_profile_updates_since"@.len() == 34);
    assert("upsert_runtime_profile"@.len() == 22);
    assert("delete_runtime_profile"@.len() == 22);
    assert("set_model_runtime_route"@.len() == 23);
    assert("clear_model_runtime_route"@.len() == 25);
    assert("launch_runtime_profile"@.len() == 22);
    assert("stop_runtime_profile"@.len() == 20);
    assert("get_serving_status"@.len() == 18);
    assert("list_serving_status_updates_since"@.len() == 33);
    assert("validate_model_serving_config"@.len() == 29);
    assert("serve_model"@.len() == 11);
    assert("unserve_model"@.len() == 13);
    assert("get_available_versions"@.len() == 22);
    assert("get_installed_versions"@.len() == 22);
    assert("get_active_version"@.len() == 18);
    assert("get_default_version"@.len() == 19);
    assert("set_default_version"@.len() == 19);
    assert("switch_version"@.len() == 14);
    assert("install_version"@.len() == 15);
    assert("remove_version"@.len() == 14);
    assert("cancel_installation"@.len() == 19);
    assert("get_installation_progress"@.len() == 25);
    assert("validate_installations"@.len() == 22);
    assert("get_version_status"@.len() == 18);
    assert("get_version_info"@.len() == 16);
    assert("get_release_size_info"@.len() == 21);
    assert("get_release_size_breakdown"@.len() == 26);
    assert("calculate_release_size"@.len() == 22);
    assert("calculate_all_release_sizes"@.len() == 27);
    assert("has_background_fetch_completed"@.len() == 30);
    assert("reset_background_fetch_flag"@.len() == 27);
    assert("get_github_cache_status"@.len() == 23);
    assert("check_version_dependencies"@.len() == 26);
    assert("install_version_dependencies"@.len() == 28);
    assert("get_release_dependencies"@.len() == 24);
    assert("get_models"@.len() == 10);
    assert("refresh_model_index"@.len() == 19);
    assert("import_model"@.len() == 12);
    assert("download_model_from_hf"@.len() == 22);
    assert("start_model_download_from_hf"@.len() == 28);
    assert("get_model_download_status"@.len() == 25);
    assert("cancel_model_download"@.len() == 21);
    assert("pause_model_download"@.len() == 20);
    assert("resume_model_download"@.len() == 21);
    assert("list_model_downloads"@.len() == 20);
    assert("list_interrupted_downloads"@.len() == 26);
    assert("recover_download"@.len() == 16);
    assert("resume_partial_download"@.len() == 23);
    assert("search_hf_models"@.len() == 16);
    assert("get_hf_download_details"@.len() == 23);
    assert("get_related_models"@.len() == 18);
    assert("search_models_fts"@.len() == 17);
    assert("import_batch"@.len() == 12);
    assert("import_external_diffusers_directory"@.len() == 35);
    assert("classify_model_import_paths"@.len() == 27);
    assert("lookup_hf_metadata_for_file"@.len() == 27);
    assert("lookup_hf_metadata_for_bundle_directory"@.len() == 39);
    assert("detect_sharded_sets"@.len() == 19);
    assert("validate_file_type"@.len() == 18);
    assert("get_embedded_metadata"@.len() == 21);
    assert("get_library_model_metadata"@.len() == 26);
    assert("resolve_model_execution_descriptor"@.len() == 34);
    assert("resolve_model_artifact_load_target"@.len() == 34);
    assert("resolve_model_package_facts"@.len() == 27);
    assert("list_model_library_updates_since"@.len() == 32);
    assert("resolve_model_package_facts_summary"@.len() == 35);
    assert("model_package_facts_summary_snapshot"@.len() == 36);
    assert("refetch_model_metadata_from_hf"@.len() == 30);
    assert("adopt_orphan_models"@.len() == 19);
    assert("import_model_in_place"@.len() == 21);
    assert("scan_shared_storage"@.len() == 19);
    assert("get_inference_settings"@.len() == 22);
    assert("update_inference_settings"@.len() == 25);
    assert("update_model_notes"@.len() == 18);
    assert("resolve_model_dependency_requirements"@.len() == 37);
    assert("audit_dependency_pin_compliance"@.len() == 31);
    assert("list_models_needing_review"@.len() == 26);
    assert("submit_model_review"@.len() == 19);
    assert("reset_model_review"@.len() == 18);
    assert("generate_model_migration_dry_run_report"@.len() == 39);
    assert("execute_model_migration"@.len() == 23);
    assert("list_model_migration_reports"@.len() == 28);
    assert("delete_model_migration_report"@.len() == 29);
    assert("prune_model_migration_reports"@.len() == 29);
    assert("set_hf_token"@.len() == 12);
    assert("clear_hf_token"@.len() == 14);
    assert("get_hf_auth_status"@.len() == 18);
    assert("launch_ollama"@.len() == 13);
    assert("stop_ollama"@.len() == 11);
    assert("is_ollama_running"@.len() == 17);
    assert("launch_torch"@.len() == 12);
    assert("stop_torch"@.len() == 10);
    assert("is_torch_running"@.len() == 16);
    assert("open_path"@.len() == 9);
    assert("open_url"@.len() == 8);
    assert("open_active_install"@.len() == 19);
    assert("ollama_list_models"@.len() == 18);
    assert("ollama_list_models_for_profile"@.len() == 30);
    assert("ollama_create_model"@.len() == 19);
    assert("ollama_create_model_for_profile"@.len() == 31);
    assert("ollama_delete_model"@.len() == 19);
    assert("ollama_delete_model_for_profile"@.len() == 31);
    assert("ollama_load_model"@.len() == 17);
    assert("ollama_load_model_for_profile"@.len() == 29);
    assert("ollama_unload_model"@.len() == 19);
    assert("ollama_unload_model_for_profile"@.len() == 31);
    assert("ollama_list_running"@.len() == 19);
    assert("ollama_list_models"@[0] != "get_network_status"@[0]);
    assert("ollama_list_models"@[0] != "get_library_status"@[0]);
    assert("ollama_list_models"@[0] != "get_serving_status"@[0]);
    assert("ollama_list_models"@[0] != "get_active_version"@[0]);
    assert("ollama_list_models"@[0] != "get_version_status"@[0]);
    assert("ollama_list_models"@[0] != "get_related_models"@[0]);
    assert("ollama_list_models"@[0] != "validate_file_type"@[0]);
    assert("ollama_list_models"@[0] != "update_model_notes"@[0]);
    assert("ollama_list_models"@[0] != "reset_model_review"@[0]);
    assert("ollama_list_models"@[0] != "get_hf_auth_status"@[0]);
    assert("ollama_list_models_for_profile"@[0] != "has_background_fetch_completed"@[0]);
    assert("ollama_list_models_for_profile"@[0] != "refetch_model_metadata_from_hf"@[0]);
    assert("ollama_create_model"@[0] != "get_default_version"@[0]);
    assert("ollama_create_model"@[0] != "set_default_version"@[0]);
    assert("ollama_create_model"@[0] != "cancel_installation"@[0]);
    assert("ollama_create_model"@[0] != "refresh_model_index"@[0]);
    assert("ollama_create_model"@[0] != "detect_sharded_sets"@[0]);
    assert("ollama_create_model"@[0] != "adopt_orphan_models"@[0]);
    assert("ollama_create_model"@[0] != "scan_shared_storage"@[0]);
    assert("ollama_create_model"@[0] != "submit_model_review"@[0]);
    assert("ollama_create_model"@[1] != "open_active_install"@[1]);
    assert("ollama_create_model_for_profile"@[0] != "audit_dependency_pin_compliance"@[0]);
    assert("ollama_delete_model"@[0] != "get_default_version"@[0]);
    assert("ollama_delete_model"@[0] != "set_default_version"@[0]);
    assert("ollama_delete_model"@[0] != "cancel_installation"@[0]);
    assert("ollama_delete_model"@[0] != "refresh_model_index"@[0]);
    assert("ollama_delete_model"@[0] != "detect_sharded_sets"@[0]);
    assert("ollama_delete_model"@[0] != "adopt_orphan_models"@[0]);
    assert("ollama_delete_model"@[0] != "scan_shared_storage"@[0]);
    assert("ollama_delete_model"@[0] != "submit_model_review"@[0]);
    assert("ollama_delete_model"@[1] != "open_active_install"@[1]);
    assert("ollama_delete_model"@[7] != "ollama_create_model"@[7]);
    assert("ollama_delete_model_for_profile"@[0] != "audit_dependency_pin_compliance"@[0]);
    assert("ollama_delete_model_for_profile"@[7] != "ollama_create_model_for_profile"@[7]);
    assert("ollama_load_model"@[0] != "search_models_fts"@[0]);
    assert("ollama_load_model"@[0] != "is_ollama_running"@[0]);
    assert("ollama_load_model_for_profile"@[0] != "get_status_telemetry_snapshot"@[0]);
    assert("ollama_load_model_for_profile"@[0] != "get_runtime_profiles_snapshot"@[0]);
    assert("ollama_load_model_for_profile"@[0] != "validate_model_serving_config"@[0]);
    assert("ollama_load_model_for_profile"@[0] != "delete_model_migration_report"@[0]);
    assert("ollama_load_model_for_profile"@[0] != "prune_model_migration_reports"@[0]);
    assert("ollama_unload_model"@[0] != "get_default_version"@[0]);
    assert("ollama_unload_model"@[0] != "set_default_version"@[0]);
    assert("ollama_unload_model"@[0] != "cancel_installation"@[0]);
    assert("ollama_unload_model"@[0] != "refresh_model_index"@[0]);
    assert("ollama_unload_model"@[0] != "detect_sharded_sets"@[0]);
    assert("ollama_unload_model"@[0] != "adopt_orphan_models"@[0]);
    assert("ollama_unload_model"@[0] != "scan_shared_storage"@[0]);
    assert("ollama_unload_model"@[0] != "submit_model_review"@[0]);
    assert("ollama_unload_model"@[1] != "open_active_install"@[1]);
    assert("ollama_unload_model"@[7] != "ollama_create_model"@[7]);
    assert("ollama_unload_model"@[7] != "ollama_delete_model"@[7]);
    assert("ollama_unload_model_for_profile"@[0] != "audit_dependency_pin_compliance"@[0]);
    assert("ollama_unload_model_for_profile"@[7] != "ollama_create_model_for_profile"@[7]);
    assert("ollama_unload_model_for_profile"@[7] != "ollama_delete_model_for_profile"@[7]);
    assert("ollama_list_running"@[0] != "get_default_version"@[0]);
    assert("ollama_list_running"@[0] != "set_default_version"@[0]);
    assert("ollama_list_running"@[0] != "cancel_installation"@[0]);
    assert("ollama_list_running"@[0] != "refresh_model_index"@[0]);
    assert("ollama_list_running"@[0] != "detect_sharded_sets"@[0]);
    assert("ollama_list_running"@[0] != "adopt_orphan_models"@[0]);
    assert("ollama_list_running"@[0] != "scan_shared_storage"@[0]);
    assert("ollama_list_running"@[0] != "submit_model_review"@[0]);
    assert("ollama_list_running"@[1] != "open_active_install"@[1]);
    assert("ollama_list_running"@[7] != "ollama_create_model"@[7]);
    assert("ollama_list_running"@[7] != "ollama_delete_model"@[7]);
    assert("ollama_list_running"@[7] != "ollama_unload_model"@[7]);
}

/// Every Torch method that the desktop dispatcher serves is routed to
/// `Torch`, and needs inference plugins exactly where the dispatcher
/// gates it.
#[verifier::spinoff_prover]
pub proof fn law_torch_methods_route_to_torch()
    ensures
        rpc_route("torch_list_slots"@) == Some(RpcRoute { domain: RpcDomain::Torch, plugins_only: true }),
        rpc_route("torch_load_model"@) == Some(RpcRoute { domain: RpcDomain::Torch, plugins_only: true }),
        rpc_route("torch_unload_model"@) == Some(RpcRoute { domain: RpcDomain::Torch, plugins_only: true }),
        rpc_route("torch_get_status"@) == Some(RpcRoute { domain: RpcDomain::Torch, plugins_only: true }),
        rpc_route("torch_list_devices"@) == Some(RpcRoute { domain: RpcDomain::Torch, plugins_only: true }),
        rpc_route("torch_configure"@) == Some(RpcRoute { domain: RpcDomain::Torch, plugins_only: true }),
{
    reveal_strlit("get_status");
    reveal_strlit("get_disk_space");
    reveal_strlit("get_system_resources");
    reveal_strlit("get_status_telemetry_snapshot");
    reveal_strlit("get_launcher_version");
    reveal_strlit("check_launcher_updates");
    reveal_strlit("apply_launcher_update");
    reveal_strlit("restart_launcher");
    reveal_strlit("get_sandbox_info");
    reveal_strlit("check_git");
    reveal_strlit("get_network_status");
    reveal_strlit("get_library_status");
    reveal_strlit("get_app_status");
    reveal_strlit("get_runtime_profiles_snapshot");
    reveal_strlit("list_runtime_profile_updates_since");
    reveal_strlit("upsert_runtime_profile");
    reveal_strlit("delete_runtime_profile");
    reveal_strlit("set_model_runtime_route");
    reveal_strlit("clear_model_runtime_route");
    reveal_strlit("launch_runtime_profile");
    reveal_strlit("stop_runtime_profile");
    reveal_strlit("get_serving_status");
    reveal_strlit("list_serving_status_updates_since");
    reveal_strlit("validate_model_serving_config");
    reveal_strlit("serve_model");
    reveal_strlit("unserve_model");
    reveal_strlit("get_available_versions");
    reveal_strlit("get_installed_versions");
    reveal_strlit("get_active_version");
    reveal_strlit("get_default_version");
    reveal_strlit("set_default_version");
    reveal_strlit("switch_version");
    reveal_strlit("install_version");
    reveal_strlit("remove_version");
    reveal_strlit("cancel_installation");
    reveal_strlit("get_installation_progress");
    reveal_strlit("validate_installations");
    reveal_strlit("get_version_status");
    reveal_strlit("get_version_info");
    reveal_strlit("get_release_size_info");
    reveal_strlit("get_release_size_breakdown");
    reveal_strlit("calculate_release_size");
    reveal_strlit("calculate_all_release_sizes");
    reveal_strlit("has_background_fetch_completed");
    reveal_strlit("reset_background_fetch_flag");
    reveal_strlit("get_github_cache_status");
    reveal_strlit("check_version_dependencies");
    reveal_strlit("install_version_dependencies");
    reveal_strlit("get_release_dependencies");
    reveal_strlit("get_models");
    reveal_strlit("refresh_model_index");
    reveal_strlit("import_model");
    reveal_strlit("download_model_from_hf");
    reveal_strlit("start_model_download_from_hf");
    reveal_strlit("get_model_download_status");
    reveal_strlit("cancel_model_download");
    reveal_strlit("pause_model_download");
    reveal_strlit("resume_model_download");
    reveal_strlit("list_model_downloads");
    reveal_strlit("list_interrupted_downloads");
    reveal_strlit("recover_download");
    reveal_strlit("resume_partial_download");
    reveal_strlit("search_hf_models");
    reveal_strlit("get_hf_download_details");
    reveal_strlit("get_related_models");
    reveal_strlit("search_models_fts");
    reveal_strlit("import_batch");
    reveal_strlit("import_external_diffusers_directory");
    reveal_strlit("classify_model_import_paths");
    reveal_strlit("lookup_hf_metadata_for_file");
    reveal_strlit("lookup_hf_metadata_for_bundle_directory");
    reveal_strlit("detect_sharded_sets");
    reveal_strlit("validate_file_type");
    reveal_strlit("get_embedded_metadata");
    reveal_strlit("get_library_model_metadata");
    reveal_strlit("resolve_model_execution_descriptor");
    reveal_strlit("resolve_model_artifact_load_target");
    reveal_strlit("resolve_model_package_facts");
    reveal_strlit("list_model_library_updates_since");
    reveal_strlit("resolve_model_package_facts_summary");
    reveal_strlit("model_package_facts_summary_snapshot");
    reveal_strlit("refetch_model_metadata_from_hf");
    reveal_strlit("adopt_orphan_models");
    reveal_strlit("import_model_in_place");
    reveal_strlit("scan_shared_storage");
    reveal_strlit("get_inference_settings");
    reveal_strlit("update_inference_settings");
    reveal_strlit("update_model_notes");
    reveal_strlit("resolve_model_dependency_requirements");
    reveal_strlit("audit_dependency_pin_compliance");
    reveal_strlit("list_models_needing_review");
    reveal_strlit("submit_model_review");
    reveal_strlit("reset_model_review");
    reveal_strlit("generate_model_migration_dry_run_report");
    reveal_strlit("execute_model_migration");
    reveal_strlit("list_model_migration_reports");
    reveal_strlit("delete_model_migration_report");
    reveal_strlit("prune_model_migration_reports");
    reveal_strlit("set_hf_token");
    reveal_strlit("clear_hf_token");
    reveal_strlit("get_hf_auth_status");
    reveal_strlit("launch_ollama");
    reveal_strlit("stop_ollama");
    reveal_strlit("is_ollama_running");
    reveal_strlit("launch_torch");
    reveal_strlit("stop_torch");
    reveal_strlit("is_torch_running");
    reveal_strlit("open_path");
    reveal_strlit("open_url");
    reveal_strlit("open_active_install");
    reveal_strlit("ollama_list_models");
    reveal_strlit("ollama_list_models_for_profile");
    reveal_strlit("ollama_create_model");
    reveal_strlit("ollama_create_model_for_profile");
    reveal_strlit("ollama_delete_model");
    reveal_strlit("ollama_delete_model_for_profile");
    reveal_strlit("ollama_load_model");
    reveal_strlit("ollama_load_model_for_profile");
    reveal_strlit("ollama_unload_model");
    reveal_strlit("ollama_unload_model_for_profile");
    reveal_strlit("ollama_list_running");
    reveal_strlit("torch_list_slots");
    reveal_strlit("torch_load_model");
    reveal_strlit("torch_unload_model");
    reveal_strlit("torch_get_status");
    reveal_strlit("torch_list_devices");
    reveal_strlit("torch_configure");
    assert("get_status"@.len() == 10);
    assert("get_disk_space"@.len() == 14);
    assert("get_system_resources"@.len() == 20);
    assert("get_status_telemetry_snapshot"@.len() == 29);
    assert("get_launcher_version"@.len() == 20);
    assert("check_launcher_updates"@.len() == 22);
    assert("apply_launcher_update"@.len() == 21);
    assert("restart_launcher"@.len() == 16);
    assert("get_sandbox_info"@.len() == 16);
    assert("check_git"@.len() == 9);
    assert("get_network_status"@.len() == 18);
    assert("get_library_status"@.len() == 18);
    assert("get_app_status"@.len() == 14);
    assert("get_runtime_profiles_snapshot"@.len() == 29);
    assert("list_runtime_profile_updates_since"@.len() == 34);
    assert("upsert_runtime_profile"@.len() == 22);
    assert("delete_runtime_profile"@.len() == 22);
    assert("set_model_runtime_route"@.len() == 23);
    assert("clear_model_runtime_route"@.len() == 25);
    assert("launch_runtime_profile"@.len() == 22);
    assert("stop_runtime_profile"@.len() == 20);
    assert("get_serving_status"@.len() == 18);
    assert("list_serving_status_updates_since"@.len() == 33);
    assert("validate_model_serving_config"@.len() == 29);
    assert("serve_model"@.len() == 11);
    assert("unserve_model"@.len() == 13);
    assert("get_available_versions"@.len() == 22);
    assert("get_installed_versions"@.len() == 22);
    assert("get_active_version"@.len() == 18);
    assert("get_default_version"@.len() == 19);
    assert("set_default_version"@.len() == 19);
    assert("switch_version"@.len() == 14);
    assert("install_version"@.len() == 15);
    assert("remove_version"@.len() == 14);
    assert("cancel_installation"@.len() == 19);
    assert("get_installation_progress"@.len() == 25);
    assert("validate_installations"@.len() == 22);
    assert("get_version_status"@.len() == 18);
    assert("get_version_info"@.len() == 16);
    assert("get_release_size_info"@.len() == 21);
    assert("get_release_size_breakdown"@.len() == 26);
    assert("calculate_release_size"@.len() == 22);
    assert("calculate_all_release_sizes"@.len() == 27);
    assert("has_background_fetch_completed"@.len() == 30);
    assert("reset_background_fetch_flag"@.len() == 27);
    assert("get_github_cache_status"@.len() == 23);
    assert("check_version_dependencies"@.len() == 26);
    assert("install_version_dependencies"@.len() == 28);
    assert("get_release_dependencies"@.len() == 24);
    assert("get_models"@.len() == 10);
    assert("refresh_model_index"@.len() == 19);
    assert("import_model"@.len() == 12);
    assert("download_model_from_hf"@.len() == 22);
    assert("start_model_download_from_hf"@.len() == 28);
    assert("get_model_download_status"@.len() == 25);
    assert("cancel_model_download"@.len() == 21);
    assert("pause_model_download"@.len() == 20);
    assert("resume_model_download"@.len() == 21);
    assert("list_model_downloads"@.len() == 20);
    assert("list_interrupted_downloads"@.len() == 26);
    assert("recover_download"@.len() == 16);
    assert("resume_partial_download"@.len() == 23);
    assert("search_hf_models"@.len() == 16);
    assert("get_hf_download_details"@.len() == 23);
    assert("get_related_models"@.len() == 18);
    assert("search_models_fts"@.len() == 17);
    assert("import_batch"@.len() == 12);
    assert("import_external_diffusers_directory"@.len() == 35);
    assert("classify_model_import_paths"@.len() == 27);
    assert("lookup_hf_metadata_for_file"@.len() == 27);
    assert("lookup_hf_metadata_for_bundle_directory"@.len() == 39);
    assert("detect_sharded_sets"@.len() == 19);
    assert("validate_file_type"@.len() == 18);
    assert("get_embedded_metadata"@.len() == 21);
    assert("get_library_model_metadata"@.len() == 26);
    assert("resolve_model_execution_descriptor"@.len() == 34);
    assert("resolve_model_artifact_load_target"@.len() == 34);
    assert("resolve_model_package_facts"@.len() == 27);
    assert("list_model_library_updates_since"@.len() == 32);
    assert("resolve_model_package_facts_summary"@.len() == 35);
    assert("model_package_facts_summary_snapshot"@.len() == 36);
    assert("refetch_model_metadata_from_hf"@.len() == 30);
    assert("adopt_orphan_models"@.len() == 19);
    assert("import_model_in_place"@.len() == 21);
    assert("scan_shared_storage"@.len() == 19);
    assert("get_inference_settings"@.len() == 22);
    assert("update_inference_settings"@.len() == 25);
    assert("update_model_notes"@.len() == 18);
    assert("resolve_model_dependency_requirements"@.len() == 37);
    assert("audit_dependency_pin_compliance"@.len() == 31);
    assert("list_models_needing_review"@.len() == 26);
    assert("submit_model_review"@.len() == 19);
    assert("reset_model_review"@.len() == 18);
    assert("generate_model_migration_dry_run_report"@.len() == 39);
    assert("execute_model_migration"@.len() == 23);
    assert("list_model_migration_reports"@.len() == 28);
    assert("delete_model_migration_report"@.len() == 29);
    assert("prune_model_migration_reports"@.len() == 29);
    assert("set_hf_token"@.len() == 12);
    assert("clear_hf_token"@.len() == 14);
    assert("get_hf_auth_status"@.len() == 18);
    assert("launch_ollama"@.len() == 13);
    assert("stop_ollama"@.len() == 11);
    assert("is_ollama_running"@.len() == 17);
    assert("launch_torch"@.len() == 12);
    assert("stop_torch"@.len() == 10);
    assert("is_torch_running"@.len() == 16);
    assert("open_path"@.len() == 9);
    assert("open_url"@.len() == 8);
    assert("open_active_install"@.len() == 19);
    assert("ollama_list_models"@.len() == 18);
    assert("ollama_list_models_for_profile"@.len() == 30);
    assert("ollama_create_model"@.len() == 19);
    assert("ollama_create_model_for_profile"@.len() == 31);
    assert("ollama_delete_model"@.len() == 19);
    assert("ollama_delete_model_for_profile"@.len() == 31);
    assert("ollama_load_model"@.len() == 17);
    assert("ollama_load_model_for_profile"@.len() == 29);
    assert("ollama_unload_model"@.len() == 19);
    assert("ollama_unload_model_for_profile"@.len() == 31);
    assert("ollama_list_running"@.len() == 19);
    assert("torch_list_slots"@.len() == 16);
    assert("torch_load_model"@.len() == 16);
    assert("torch_unload_model"@.len() == 18);
    assert("torch_get_status"@.len() == 16);
    assert("torch_list_devices"@.len() == 18);
    assert("torch_configure"@.len() == 15);
    assert("torch_list_slots"@[0] != "restart_launcher"@[0]);
    assert("torch_list_slots"@[0] != "get_sandbox_info"@[0]);
    assert("torch_list_slots"@[0] != "get_version_info"@[0]);
    assert("torch_list_slots"@[0] != "recover_download"@[0]);
    assert("torch_list_slots"@[0] != "search_hf_models"@[0]);
    assert("torch_list_slots"@[0] != "is_torch_running"@[0]);
    assert("torch_load_model"@[0] != "restart_launcher"@[0]);
    assert("torch_load_model"@[0] != "get_sandbox_info"@[0]);
    assert("torch_load_model"@[0] != "get_version_info"@[0]);
    assert("torch_load_model"@[0] != "recover_download"@[0]);
    assert("torch_load_model"@[0] != "search_hf_models"@[0]);
    assert("torch_load_model"@[0] != "is_torch_running"@[0]);
    assert("torch_load_model"@[7] != "torch_list_slots"@[7]);
    assert("torch_unload_model"@[0] != "get_network_status"@[0]);
    assert("torch_unload_model"@[0] != "get_library_status"@[0]);
    assert("torch_unload_model"@[0] != "get_serving_status"@[0]);
    assert("torch_unload_model"@[0] != "get_active_version"@[0]);
    assert("torch_unload_model"@[0] != "get_version_status"@[0]);
    assert("torch_unload_model"@[0] != "get_related_models"@[0]);
    assert("torch_unload_model"@[0] != "validate_file_type"@[0]);
    assert("torch_unload_model"@[0] != "update_model_notes"@[0]);
    assert("torch_unload_model"@[0] != "reset_model_review"@[0]);
    assert("torch_unload_model"@[0] != "get_hf_auth_status"@[0]);
    assert("torch_unload_model"@[0] != "ollama_list_models"@[0]);
    assert("torch_get_status"@[0] != "restart_launcher"@[0]);
    assert("torch_get_status"@[0] != "get_sandbox_info"@[0]);
    assert("torch_get_status"@[0] != "get_version_info"@[0]);
    assert("torch_get_status"@[0] != "recover_download"@[0]);
    assert("torch_get_status"@[0] != "search_hf_models"@[0]);
    assert("torch_get_status"@[0] != "is_torch_running"@[0]);
    assert("torch_get_status"@[6] != "torch_list_slots"@[6]);
    assert("torch_get_status"@[6] != "torch_load_model"@[6]);
    assert("torch_list_devices"@[0] != "get_network_status"@[0]);
    assert("torch_list_devices"@[0] != "get_library_status"@[0]);
    assert("torch_list_devices"@[0] != "get_serving_status"@[0]);
    assert("torch_list_devices"@[0] != "get_active_version"@[0]);
    assert("torch_list_devices"@[0] != "get_version_status"@[0]);
    assert("torch_list_devices"@[0] != "get_related_models"@[0]);
    assert("torch_list_devices"@[0] != "validate_file_type"@[0]);
    assert("torch_list_devices"@[0] != "update_model_notes"@[0]);
    assert("torch_list_devices"@[0] != "reset_model_review"@[0]);
    assert("torch_list_devices"@[0] != "get_hf_auth_status"@[0]);
    assert("torch_list_devices"@[0] != "ollama_list_models"@[0]);
    assert("torch_list_devices"@[6] != "torch_unload_model"@[6]);
    assert("torch_configure"@[0] != "install_version"@[0]);
}

/// Every link maintenance method that the desktop dispatcher serves is routed to
/// `Links`, and needs inference plugins exactly where the dispatcher
/// gates it.
#[verifier::spinoff_prover]
pub proof fn law_links_methods_route_to_links()
    ensures
        rpc_route("get_link_health"@) == Some(RpcRoute { domain: RpcDomain::Links, plugins_only: false }),
        rpc_route("clean_broken_links"@) == Some(RpcRoute { domain: RpcDomain::Links, plugins_only: false }),
        rpc_route("remove_orphaned_links"@) == Some(RpcRoute { domain: RpcDomain::Links, plugins_only: false }),
        rpc_route("get_links_for_model"@) == Some(RpcRoute { domain: RpcDomain::Links, plugins_only: false }),
        rpc_route("delete_model_with_cascade"@) == Some(RpcRoute { domain: RpcDomain::Links, plugins_only: false }),
        rpc_route("get_file_link_count"@) == Some(RpcRoute { domain: RpcDomain::Links, plugins_only: false }),
        rpc_route("check_files_writable"@) == Some(RpcRoute { domain: RpcDomain::Links, plugins_only: false }),
        rpc_route("set_model_link_exclusion"@) == Some(RpcRoute { domain: RpcDomain::Links, plugins_only: false }),
        rpc_route("get_link_exclusions"@) == Some(RpcRoute { domain: RpcDomain::Links, plugins_only: false }),
{
    reveal_strlit("get_status");
    reveal_strlit("get_disk_space");
    reveal_strlit("get_system_resources");
    reveal_strlit("get_status_telemetry_snapshot");
    reveal_strlit("get_launcher_version");
    reveal_strlit("check_launcher_updates");
    reveal_strlit("apply_launcher_update");
    reveal_strlit("restart_launcher");
    reveal_strlit("get_sandbox_info");
    reveal_strlit("check_git");
    reveal_strlit("get_network_status");
    reveal_strlit("get_library_status");
    reveal_strlit("get_app_status");
    reveal_strlit("get_runtime_profiles_snapshot");
    reveal_strlit("list_runtime_profile_updates_since");
    reveal_strlit("upsert_runtime_profile");
    reveal_strlit("delete_runtime_profile");
    reveal_strlit("set_model_runtime_route");
    reveal_strlit("clear_model_runtime_route");
    reveal_strlit("launch_runtime_profile");
    reveal_strlit("stop_runtime_profile");
    reveal_strlit("get_serving_status");
    reveal_strlit("list_serving_status_updates_since");
    reveal_strlit("validate_model_serving_config");
    reveal_strlit("serve_model");
    reveal_strlit("unserve_model");
    reveal_strlit("get_available_versions");
    reveal_strlit("get_installed_versions");
    reveal_strlit("get_active_version");
    reveal_strlit("get_default_version");
    reveal_strlit("set_default_version");
    reveal_strlit("switch_version");
    reveal_strlit("install_version");
    reveal_strlit("remove_version");
    reveal_strlit("cancel_installation");
    reveal_strlit("get_installation_progress");
    reveal_strlit("validate_installations");
    reveal_strlit("get_version_status");
    reveal_strlit("get_version_info");
    reveal_strlit("get_release_size_info");
    reveal_strlit("get_release_size_breakdown");
    reveal_strlit("calculate_release_size");
    reveal_strlit("calculate_all_release_sizes");
    reveal_strlit("has_background_fetch_completed");
    reveal_strlit("reset_background_fetch_flag");
    reveal_strlit("get_github_cache_status");
    reveal_strlit("check_version_dependencies");
    reveal_strlit("install_version_dependencies");
    reveal_strlit("get_release_dependencies");
    reveal_strlit("get_models");
    reveal_strlit("refresh_model_index");
    reveal_strlit("import_model");
    reveal_strlit("download_model_from_hf");
    reveal_strlit("start_model_download_from_hf");
    reveal_strlit("get_model_download_status");
    reveal_strlit("cancel_model_download");
    reveal_strlit("pause_model_download");
    reveal_strlit("resume_model_download");
    reveal_strlit("list_model_downloads");
    reveal_strlit("list_interrupted_downloads");
    reveal_strlit("recover_download");
    reveal_strlit("resume_partial_download");
    reveal_strlit("search_hf_models");
    reveal_strlit("get_hf_download_details");
    reveal_strlit("get_related_models");
    reveal_strlit("search_models_fts");
    reveal_strlit("import_batch");
    reveal_strlit("import_external_diffusers_directory");
    reveal_strlit("classify_model_import_paths");
    reveal_strlit("lookup_hf_metadata_for_file");
    reveal_strlit("lookup_hf_metadata_for_bundle_directory");
    reveal_strlit("detect_sharded_sets");
    reveal_strlit("validate_file_type");
    reveal_strlit("get_embedded_metadata");
    reveal_strlit("get_library_model_metadata");
    reveal_strlit("resolve_model_execution_descriptor");
    reveal_strlit("resolve_model_artifact_load_target");
    reveal_strlit("resolve_model_package_facts");
    reveal_strlit("list_model_library_updates_since");
    reveal_strlit("resolve_model_package_facts_summary");
    reveal_strlit("model_package_facts_summary_snapshot");
    reveal_strlit("refetch_model_metadata_from_hf");
    reveal_strlit("adopt_orphan_models");
    reveal_strlit("import_model_in_place");
    reveal_strlit("scan_shared_storage");
    reveal_strlit("get_inference_settings");
    reveal_strlit("update_inference_settings");
    reveal_strlit("update_model_notes");
    reveal_strlit("resolve_model_dependency_requirements");
    reveal_strlit("audit_dependency_pin_compliance");
    reveal_strlit("list_models_needing_review");
    reveal_strlit("submit_model_review");
    reveal_strlit("reset_model_review");
    reveal_strlit("generate_model_migration_dry_run_report");
    reveal_strlit("execute_model_migration");
    reveal_strlit("list_model_migration_reports");
    reveal_strlit("delete_model_migration_report");
    reveal_strlit("prune_model_migration_reports");
    reveal_strlit("set_hf_token");
    reveal_strlit("clear_hf_token");
    reveal_strlit("get_hf_auth_status");
    reveal_strlit("launch_ollama");
    reveal_strlit("stop_ollama");
    reveal_strlit("is_ollama_running");
    reveal_strlit("launch_torch");
    reveal_strlit("stop_torch");
    reveal_strlit("is_torch_running");
    reveal_strlit("open_path");
    reveal_strlit("open_url");
    reveal_strlit("open_active_install");
    reveal_strlit("ollama_list_models");
    reveal_strlit("ollama_list_models_for_profile");
    reveal_strlit("ollama_create_model");
    reveal_strlit("ollama_create_model_for_profile");
    reveal_strlit("ollama_delete_model");
    reveal_strlit("ollama_delete_model_for_profile");
    reveal_strlit("ollama_load_model");
    reveal_strlit("ollama_load_model_for_profile");
    reveal_strlit("ollama_unload_model");
    reveal_strlit("ollama_unload_model_for_profile");
    reveal_strlit("ollama_list_running");
    reveal_strlit("torch_list_slots");
    reveal_strlit("torch_load_model");
    reveal_strlit("torch_unload_model");
    reveal_strlit("torch_get_status");
    reveal_strlit("torch_list_devices");
    reveal_strlit("torch_configure");
    reveal_strlit("get_link_health");
    reveal_strlit("clean_broken_links");
    reveal_strlit("remove_orphaned_links");
    reveal_strlit("get_links_for_model");
    reveal_strlit("delete_model_with_cascade");
    reveal_strlit("get_file_link_count");
    reveal_strlit("check_files_writable");
    reveal_strlit("set_model_link_exclusion");
    reveal_strlit("get_link_exclusions");
    assert("get_status"@.len() == 10);
    assert("get_disk_space"@.len() == 14);
    assert("get_system_resources"@.len() == 20);
    assert("get_status_telemetry_snapshot"@.len() == 29);
    assert("get_launcher_version"@.len() == 20);
    assert("check_launcher_updates"@.len() == 22);
    assert("apply_launcher_update"@.len() == 21);
    assert("restart_launcher"@.len() == 16);
    assert("get_sandbox_info"@.len() == 16);
    assert("check_git"@.len() == 9);
    assert("get_network_status"@.len() == 18);
    assert("get_library_status"@.len() == 18);
    assert("get_app_status"@.len() == 14);
    assert("get_runtime_profiles_snapshot"@.len() == 29);
    assert("list_runtime_profile_updates_since"@.len() == 34);
    assert("upsert_runtime_profile"@.len() == 22);
    assert("delete_runtime_profile"@.len() == 22);
    assert("set_model_runtime_route"@.len() == 23);
    assert("clear_model_runtime_route"@.len() == 25);
    assert("launch_runtime_profile"@.len() == 22);
    assert("stop_runtime_profile"@.len() == 20);
    assert("get_serving_status"@.len() == 18);
    assert("list_serving_status_updates_since"@.len() == 33);
    assert("validate_model_serving_config"@.len() == 29);
    assert("serve_model"@.len() == 11);
    assert("unserve_model"@.len() == 13);
    assert("get_available_versions"@.len() == 22);
    assert("get_installed_versions"@.len() == 22);
    assert("get_active_version"@.len() == 18);
    assert("get_default_version"@.len() == 19);
    assert("set_default_version"@.len() == 19);
    assert("switch_version"@.len() == 14);
    assert("install_version"@.len() == 15);
    assert("remove_version"@.len() == 14);
    assert("cancel_installation"@.len() == 19);
    assert("get_installation_progress"@.len() == 25);
    assert("validate_installations"@.len() == 22);
    assert("get_version_status"@.len() == 18);
    assert("get_version_info"@.len() == 16);
    assert("get_release_size_info"@.len() == 21);
    assert("get_release_size_breakdown"@.len() == 26);
    assert("calculate_release_size"@.len() == 22);
    assert("calculate_all_release_sizes"@.len() == 27);
    assert("has_background_fetch_completed"@.len() == 30);
    assert("reset_background_fetch_flag"@.len() == 27);
    assert("get_github_cache_status"@.len() == 23);
    assert("check_version_dependencies"@.len() == 26);
    assert("install_version_dependencies"@.len() == 28);
    assert("get_release_dependencies"@.len() == 24);
    assert("get_models"@.len() == 10);
    assert("refresh_model_index"@.len() == 19);
    assert("import_model"@.len() == 12);
    assert("download_model_from_hf"@.len() == 22);
    assert("start_model_download_from_hf"@.len() == 28);
    assert("get_model_download_status"@.len() == 25);
    assert("cancel_model_download"@.len() == 21);
    assert("pause_model_download"@.len() == 20);
    assert("resume_model_download"@.len() == 21);
    assert("list_model_downloads"@.len() == 20);
    assert("list_interrupted_downloads"@.len() == 26);
    assert("recover_download"@.len() == 16);
    assert("resume_partial_download"@.len() == 23);
    assert("search_hf_models"@.len() == 16);
    assert("get_hf_download_details"@.len() == 23);
    assert("get_related_models"@.len() == 18);
    assert("search_models_fts"@.len() == 17);
    assert("import_batch"@.len() == 12);
    assert("import_external_diffusers_directory"@.len() == 35);
    assert("classify_model_import_paths"@.len() == 27);
    assert("lookup_hf_metadata_for_file"@.len() == 27);
    assert("lookup_hf_metadata_for_bundle_directory"@.len() == 39);
    assert("detect_sharded_sets"@.len() == 19);
    assert("validate_file_type"@.len() == 18);
    assert("get_embedded_metadata"@.len() == 21);
    assert("get_library_model_metadata"@.len() == 26);
    assert("resolve_model_execution_descriptor"@.len() == 34);
    assert("resolve_model_artifact_load_target"@.len() == 34);
    assert("resolve_model_package_facts"@.len() == 27);
    assert("list_model_library_updates_since"@.len() == 32);
    assert("resolve_model_package_facts_summary"@.len() == 35);
    assert("model_package_facts_summary_snapshot"@.len() == 36);
    assert("refetch_model_metadata_from_hf"@.len() == 30);
    assert("adopt_orphan_models"@.len() == 19);
    assert("import_model_in_place"@.len() == 21);
    assert("scan_shared_storage"@.len() == 19);
    assert("get_inference_settings"@.len() == 22);
    assert("update_inference_settings"@.len() == 25);
    assert("update_model_notes"@.len() == 18);
    assert("resolve_model_dependency_requirements"@.len() == 37);
    assert("audit_dependency_pin_compliance"@.len() == 31);
    assert("list_models_needing_review"@.len() == 26);
    assert("submit_model_review"@.len() == 19);
    assert("reset_model_review"@.len() == 18);
    assert("generate_model_migration_dry_run_report"@.len() == 39);
    assert("execute_model_migration"@.len() == 23);
    assert("list_model_migration_reports"@.len() == 28);
    assert("delete_model_migration_report"@.len() == 29);
    assert("prune_model_migration_reports"@.len() == 29);
    assert("set_hf_token"@.len() == 12);
    assert("clear_hf_token"@.len() == 14);
    assert("get_hf_auth_status"@.len() == 18);
    assert("launch_ollama"@.len() == 13);
    assert("stop_ollama"@.len() == 11);
    assert("is_ollama_running"@.len() == 17);
    assert("launch_torch"@.len() == 12);
    assert("stop_torch"@.len() == 10);
    assert("is_torch_running"@.len() == 16);
    assert("open_path"@.len() == 9);
    assert("open_url"@.len() == 8);
    assert("open_active_install"@.len() == 19);
    assert("ollama_list_models"@.len() == 18);
    assert("ollama_list_models_for_profile"@.len() == 30);
    assert("ollama_create_model"@.len() == 19);
    assert("ollama_create_model_for_profile"@.len() == 31);
    assert("ollama_delete_model"@.len() == 19);
    assert("ollama_delete_model_for_profile"@.len() == 31);
    assert("ollama_load_model"@.len() == 17);
    assert("ollama_load_model_for_profile"@.len() == 29);
    assert("ollama_unload_model"@.len() == 19);
    assert("ollama_unload_model_for_profile"@.len() == 31);
    assert("ollama_list_running"@.len() == 19);
    assert("torch_list_slots"@.len() == 16);
    assert("torch_load_model"@.len() == 16);
    assert("torch_unload_model"@.len() == 18);
    assert("torch_get_status"@.len() == 16);
    assert("torch_list_devices"@.len() == 18);
    assert("torch_configure"@.len() == 15);
    assert("get_link_health"@.len() == 15);
    assert("clean_broken_links"@.len() == 18);
    assert("remove_orphaned_links"@.len() == 21);
    assert("get_links_for_model"@.len() == 19);
    assert("delete_model_with_cascade"@.len() == 25);
    assert("get_file_link_count"@.len() == 19);
    assert("check_files_writable"@.len() == 20);
    assert("set_model_link_exclusion"@.len() == 24);
    assert("get_link_exclusions"@.len() == 19);
    assert("get_link_health"@[0] != "install_version"@[0]);
    assert("get_link_health"@[0] != "torch_configure"@[0]);
    assert("clean_broken_links"@[0] != "get_network_status"@[0]);
    assert("clean_broken_links"@[0] != "get_library_status"@[0]);
    assert("clean_broken_links"@[0] != "get_serving_status"@[0]);
    assert("clean_broken_links"@[0] != "get_active_version"@[0]);
    assert("clean_broken_links"@[0] != "get_version_status"@[0]);
    assert("clean_broken_links"@[0] != "get_related_models"@[0]);
    assert("clean_broken_links"@[0] != "validate_file_type"@[0]);
    assert("clean_broken_links"@[0] != "update_model_notes"@[0]);
    assert("clean_broken_links"@[0] != "reset_model_review"@[0]);
    assert("clean_broken_links"@[0] != "get_hf_auth_status"@[0]);
    assert("clean_broken_links"@[0] != "ollama_list_models"@[0]);
    assert("clean_broken_links"@[0] != "torch_unload_model"@[0]);
    assert("clean_broken_links"@[0] != "torch_list_devices"@[0]);
    assert("remove_orphaned_links"@[0] != "apply_launcher_update"@[0]);
    assert("remove_orphaned_links"@[0] != "get_release_size_info"@[0]);
    assert("remove_orphaned_links"@[0] != "cancel_model_download"@[0]);
    assert("remove_orphaned_links"@[2] != "resume_model_download"@[2]);
    assert("remove_orphaned_links"@[0] != "get_embedded_metadata"@[0]);
    assert("remove_orphaned_links"@[0] != "import_model_in_place"@[0]);
    assert("get_links_for_model"@[4] != "get_default_version"@[4]);
    assert("get_links_for_model"@[0] != "set_default_version"@[0]);
    assert("get_links_for_model"@[0] != "cancel_installation"@[0]);
    assert("get_links_for_model"@[0] != "refresh_model_index"@[0]);
    assert("get_links_for_model"@[0] != "detect_sharded_sets"@[0]);
    assert("get_links_for_model"@[0] != "adopt_orphan_models"@[0]);
    assert("get_links_for_model"@[0] != "scan_shared_storage"@[0]);
    assert("get_links_for_model"@[0] != "submit_model_review"@[0]);
    assert("get_links_for_model"@[0] != "open_active_install"@[0]);
    assert("get_links_for_model"@[0] != "ollama_create_model"@[0]);
    assert("get_links_for_model"@[0] != "ollama_delete_model"@[0]);
    assert("get_links_for_model"@[0] != "ollama_unload_model"@[0]);
    assert("get_links_for_model"@[0] != "ollama_list_running"@[0]);
    assert("delete_model_with_cascade"@[0] != "clear_model_runtime_route"@[0]);
    assert("delete_model_with_cascade"@[0] != "get_installation_progress"@[0]);
    assert("delete_model_with_cascade"@[0] != "get_model_download_status"@[0]);
    assert("delete_model_with_cascade"@[0] != "update_inference_settings"@[0]);
    assert("get_file_link_count"@[4] != "get_default_version"@[4]);
    assert("get_file_link_count"@[0] != "set_default_version"@[0]);
    assert("get_file_link_count"@[0] != "cancel_installation"@[0]);
    assert("get_file_link_count"@[0] != "refresh_model_index"@[0]);
    assert("get_file_link_count"@[0] != "detect_sharded_sets"@[0]);
    assert("get_file_link_count"@[0] != "adopt_orphan_models"@[0]);
    assert("get_file_link_count"@[0] != "scan_shared_storage"@[0]);
    assert("get_file_link_count"@[0] != "submit_model_review"@[0]);
    assert("get_file_link_count"@[0] != "open_active_install"@[0]);
    assert("get_file_link_count"@[0] != "ollama_create_model"@[0]);
    assert("get_file_link_count"@[0] != "ollama_delete_model"@[0]);
    assert("get_file_link_count"@[0] != "ollama_unload_model"@[0]);
    assert("get_file_link_count"@[0] != "ollama_list_running"@[0]);
    assert("get_file_link_count"@[4] != "get_links_for_model"@[4]);
    assert("check_files_writable"@[0] != "get_system_resources"@[0]);
    assert("check_files_writable"@[0] != "get_launcher_version"@[0]);
    assert("check_files_writable"@[0] != "stop_runtime_profile"@[0]);
    assert("check_files_writable"@[0] != "pause_model_download"@[0]);
    assert("check_files_writable"@[0] != "list_model_downloads"@[0]);
    assert("set_model_link_exclusion"@[0] != "get_release_dependencies"@[0]);
    assert("get_link_exclusions"@[4] != "get_default_version"@[4]);
    assert("get_link_exclusions"@[0] != "set_default_version"@[0]);
    assert("get_link_exclusions"@[0] != "cancel_installation"@[0]);
    assert("get_link_exclusions"@[0] != "refresh_model_index"@[0]);
    assert("get_link_exclusions"@[0] != "detect_sharded_sets"@[0]);
    assert("get_link_exclusions"@[0] != "adopt_orphan_models"@[0]);
    assert("get_link_exclusions"@[0] != "scan_shared_storage"@[0]);
    assert("get_link_exclusions"@[0] != "submit_model_review"@[0]);
    assert("get_link_exclusions"@[0] != "open_active_install"@[0]);
    assert("get_link_exclusions"@[0] != "ollama_create_model"@[0]);
    assert("get_link_exclusions"@[0] != "ollama_delete_model"@[0]);
    assert("get_link_exclusions"@[0] != "ollama_unload_model"@[0]);
    assert("get_link_exclusions"@[0] != "ollama_list_running"@[0]);
    assert("get_link_exclusions"@[8] != "get_links_for_model"@[8]);
    assert("get_link_exclusions"@[4] != "get_file_link_count"@[4]);
}

/// Every model conversion method that the desktop dispatcher serves is routed to
/// `Conversion`, and needs inference plugins exactly where the dispatcher
/// gates it.
#[verifier::spinoff_prover]
pub proof fn law_conversion_methods_route_to_conversion()
    ensures
        rpc_route("start_model_conversion"@) == Some(RpcRoute { domain: RpcDomain::Conversion, plugins_only: false }),
        rpc_route("get_conversion_progress"@) == Some(RpcRoute { domain: RpcDomain::Conversion, plugins_only: false }),
        rpc_route("cancel_model_conversion"@) == Some(RpcRoute { domain: RpcDomain::Conversion, plugins_only: false }),
        rpc_route("list_model_conversions"@) == Some(RpcRoute { domain: RpcDomain::Conversion, plugins_only: false }),
        rpc_route("check_conversion_environment"@) == Some(RpcRoute { domain: RpcDomain::Conversion, plugins_only: false }),
        rpc_route("setup_conversion_environment"@) == Some(RpcRoute { domain: RpcDomain::Conversion, plugins_only: false }),
        rpc_route("get_supported_quant_types"@) == Some(RpcRoute { domain: RpcDomain::Conversion, plugins_only: false }),
        rpc_route("get_backend_status"@) == Some(RpcRoute { domain: RpcDomain::Conversion, plugins_only: false }),
        rpc_route("setup_quantization_backend"@) == Some(RpcRoute { domain: RpcDomain::Conversion, plugins_only: false }),
{
    reveal_strlit("get_status");
    reveal_strlit("get_disk_space");
    reveal_strlit("get_system_resources");
    reveal_strlit("get_status_telemetry_snapshot");
    reveal_strlit("get_launcher_version");
    reveal_strlit("check_launcher_updates");
    reveal_strlit("apply_launcher_update");
    reveal_strlit("restart_launcher");
    reveal_strlit("get_sandbox_info");
    reveal_strlit("check_git");
    reveal_strlit("get_network_status");
    reveal_strlit("get_library_status");
    reveal_strlit("get_app_status");
    reveal_strlit("get_runtime_profiles_snapshot");
    reveal_strlit("list_runtime_profile_updates_since");
    reveal_strlit("upsert_runtime_profile");
    reveal_strlit("delete_runtime_profile");
    reveal_strlit("set_model_runtime_route");
    reveal_strlit("clear_model_runtime_route");
    reveal_strlit("launch_runtime_profile");
    reveal_strlit("stop_runtime_profile");
    reveal_strlit("get_serving_status");
    reveal_strlit("list_serving_status_updates_since");
    reveal_strlit("validate_model_serving_config");
    reveal_strlit("serve_model");
    reveal_strlit("unserve_model");
    reveal_strlit("get_available_versions");
    reveal_strlit("get_installed_versions");
    reveal_strlit("get_active_version");
    reveal_strlit("get_default_version");
    reveal_strlit("set_default_version");
    reveal_strlit("switch_version");
    reveal_strlit("install_version");
    reveal_strlit("remove_version");
    reveal_strlit("cancel_installation");
    reveal_strlit("get_installation_progress");
    reveal_strlit("validate_installations");
    reveal_strlit("get_version_status");
    reveal_strlit("get_version_info");
    reveal_strlit("get_release_size_info");
    reveal_strlit("get_release_size_breakdown");
    reveal_strlit("calculate_release_size");
    reveal_strlit("calculate_all_release_sizes");
    reveal_strlit("has_background_fetch_completed");
    reveal_strlit("reset_background_fetch_flag");
    reveal_strlit("get_github_cache_status");
    reveal_strlit("check_version_dependencies");
    reveal_strlit("install_version_dependencies");
    reveal_strlit("get_release_dependencies");
    reveal_strlit("get_models");
    reveal_strlit("refresh_model_index");
    reveal_strlit("import_model");
    reveal_strlit("download_model_from_hf");
    reveal_strlit("start_model_download_from_hf");
    reveal_strlit("get_model_download_status");
    reveal_strlit("cancel_model_download");
    reveal_strlit("pause_model_download");
    reveal_strlit("resume_model_download");
    reveal_strlit("list_model_downloads");
    reveal_strlit("list_interrupted_downloads");
    reveal_strlit("recover_download");
    reveal_strlit("resume_partial_download");
    reveal_strlit("search_hf_models");
    reveal_strlit("get_hf_download_details");
    reveal_strlit("get_related_models");
    reveal_strlit("search_models_fts");
    reveal_strlit("import_batch");
    reveal_strlit("import_external_diffusers_directory");
    reveal_strlit("classify_model_import_paths");
    reveal_strlit("lookup_hf_metadata_for_file");
    reveal_strlit("lookup_hf_metadata_for_bundle_directory");
    reveal_strlit("detect_sharded_sets");
    reveal_strlit("validate_file_type");
    reveal_strlit("get_embedded_metadata");
    reveal_strlit("get_library_model_metadata");
    reveal_strlit("resolve_model_execution_descriptor");
    reveal_strlit("resolve_model_artifact_load_target");
    reveal_strlit("resolve_model_package_facts");
    reveal_strlit("list_model_library_updates_since");
    reveal_strlit("resolve_model_package_facts_summary");
    reveal_strlit("model_package_facts_summary_snapshot");
    reveal_strlit("refetch_model_metadata_from_hf");
    reveal_strlit("adopt_orphan_models");
    reveal_strlit("import_model_in_place");
    reveal_strlit("scan_shared_storage");
    reveal_strlit("get_inference_settings");
    reveal_strlit("update_inference_settings");
    reveal_strlit("update_model_notes");
    reveal_strlit("resolve_model_dependency_requirements");
    reveal_strlit("audit_dependency_pin_compliance");
    reveal_strlit("list_models_needing_review");
    reveal_strlit("submit_model_review");
    reveal_strlit("reset_model_review");
    reveal_strlit("generate_model_migration_dry_run_report");
    reveal_strlit("execute_model_migration");
    reveal_strlit("list_model_migration_reports");
    reveal_strlit("delete_model_migration_report");
    reveal_strlit("prune_model_migration_reports");
    reveal_strlit("set_hf_token");
    reveal_strlit("clear_hf_token");
    reveal_strlit("get_hf_auth_status");
    reveal_strlit("launch_ollama");
    reveal_strlit("stop_ollama");
    reveal_strlit("is_ollama_running");
    reveal_strlit("launch_torch");
    reveal_strlit("stop_torch");
    reveal_strlit("is_torch_running");
    reveal_strlit("open_path");
    reveal_strlit("open_url");
    reveal_strlit("open_active_install");
    reveal_strlit("ollama_list_models");
    reveal_strlit("ollama_list_models_for_profile");
    reveal_strlit("ollama_create_model");
    reveal_strlit("ollama_create_model_for_profile");
    reveal_strlit("ollama_delete_model");
    reveal_strlit("ollama_delete_model_for_profile");
    reveal_strlit("ollama_load_model");
    reveal_strlit("ollama_load_model_for_profile");
    reveal_strlit("ollama_unload_model");
    reveal_strlit("ollama_unload_model_for_profile");
    reveal_strlit("ollama_list_running");
    reveal_strlit("torch_list_slots");
    reveal_strlit("torch_load_model");
    reveal_strlit("torch_unload_model");
    reveal_strlit("torch_get_status");
    reveal_strlit("torch_list_devices");
    reveal_strlit("torch_configure");
    reveal_strlit("get_link_health");
    reveal_strlit("clean_broken_links");
    reveal_strlit("remove_orphaned_links");
    reveal_strlit("get_links_for_model");
    reveal_strlit("delete_model_with_cascade");
    reveal_strlit("get_file_link_count");
    reveal_strlit("check_files_writable");
    reveal_strlit("set_model_link_exclusion");
    reveal_strlit("get_link_exclusions");
    reveal_strlit("start_model_conversion");
    reveal_strlit("get_conversion_progress");
    reveal_strlit("cancel_model_conversion");
    reveal_strlit("list_model_conversions");
    reveal_strlit("check_conversion_environment");
    reveal_strlit("setup_conversion_environment");
    reveal_strlit("get_supported_quant_types");
    reveal_strlit("get_backend_status");
    reveal_strlit("setup_quantization_backend");
    assert("get_status"@.len() == 10);
    assert("get_disk_space"@.len() == 14);
    assert("get_system_resources"@.len() == 20);
    assert("get_status_telemetry_snapshot"@.len() == 29);
    assert("get_launcher_version"@.len() == 20);
    assert("check_launcher_updates"@.len() == 22);
    assert("apply_launcher_update"@.len() == 21);
    assert("restart_launcher"@.len() == 16);
    assert("get_sandbox_info"@.len() == 16);
    assert("check_git"@.len() == 9);
    assert("get_network_status"@.len() == 18);
    assert("get_library_status"@.len() == 18);
    assert("get_app_status"@.len() == 14);
    assert("get_runtime_profiles_snapshot"@.len() == 29);
    assert("list_runtime_profile_updates_since"@.len() == 34);
    assert("upsert_runtime_profile"@.len() == 22);
    assert("delete_runtime_profile"@.len() == 22);
    assert("set_model_runtime_route"@.len() == 23);
    assert("clear_model_runtime_route"@.len() == 25);
    assert("launch_runtime_profile"@.len() == 22);
    assert("stop_runtime_profile"@.len() == 20);
    assert("get_serving_status"@.len() == 18);
    assert("list_serving_status_updates_since"@.len() == 33);
    assert("validate_model_serving_config"@.len() == 29);
    assert("serve_model"@.len() == 11);
    assert("unserve_model"@.len() == 13);
    assert("get_available_versions"@.len() == 22);
    assert("get_installed_versions"@.len() == 22);
    assert("get_active_version"@.len() == 18);
    assert("get_default_version"@.len() == 19);
    assert("set_default_version"@.len() == 19);
    assert("switch_version"@.len() == 14);
    assert("install_version"@.len() == 15);
    assert("remove_version"@.len() == 14);
    assert("cancel_installation"@.len() == 19);
    assert("get_installation_progress"@.len() == 25);
    assert("validate_installations"@.len() == 22);
    assert("get_version_status"@.len() == 18);
    assert("get_version_info"@.len() == 16);
    assert("get_release_size_info"@.len() == 21);
    assert("get_release_size_breakdown"@.len() == 26);
    assert("calculate_release_size"@.len() == 22);
    assert("calculate_all_release_sizes"@.len() == 27);
    assert("has_background_fetch_completed"@.len() == 30);
    assert("reset_background_fetch_flag"@.len() == 27);
    assert("get_github_cache_status"@.len() == 23);
    assert("check_version_dependencies"@.len() == 26);
    assert("install_version_dependencies"@.len() == 28);
    assert("get_release_dependencies"@.len() == 24);
    assert("get_models"@.len() == 10);
    assert("refresh_model_index"@.len() == 19);
    assert("import_model"@.len() == 12);
    assert("download_model_from_hf"@.len() == 22);
    assert("start_model_download_from_hf"@.len() == 28);
    assert("get_model_download_status"@.len() == 25);
    assert("cancel_model_download"@.len() == 21);
    assert("pause_model_download"@.len() == 20);
    assert("resume_model_download"@.len() == 21);
    assert("list_model_downloads"@.len() == 20);
    assert("list_interrupted_downloads"@.len() == 26);
    assert("recover_download"@.len() == 16);
    assert("resume_partial_download"@.len() == 23);
    assert("search_hf_models"@.len() == 16);
    assert("get_hf_download_details"@.len() == 23);
    assert("get_related_models"@.len() == 18);
    assert("search_models_fts"@.len() == 17);
    assert("import_batch"@.len() == 12);
    assert("import_external_diffusers_directory"@.len() == 35);
    assert("classify_model_import_paths"@.len() == 27);
    assert("lookup_hf_metadata_for_file"@.len() == 27);
    assert("lookup_hf_metadata_for_bundle_directory"@.len() == 39);
    assert("detect_sharded_sets"@.len() == 19);
    assert("validate_file_type"@.len() == 18);
    assert("get_embedded_metadata"@.len() == 21);
    assert("get_library_model_metadata"@.len() == 26);
    assert("resolve_model_execution_descriptor"@.len() == 34);
    assert("resolve_model_artifact_load_target"@.len() == 34);
    assert("resolve_model_package_facts"@.len() == 27);
    assert("list_model_library_updates_since"@.len() == 32);
    assert("resolve_model_package_facts_summary"@.len() == 35);
    assert("model_package_facts_summary_snapshot"@.len() == 36);
    assert("refetch_model_metadata_from_hf"@.len() == 30);
    assert("adopt_orphan_models"@.len() == 19);
    assert("import_model_in_place"@.len() == 21);
    assert("scan_shared_storage"@.len() == 19);
    assert("get_inference_settings"@.len() == 22);
    assert("update_inference_settings"@.len() == 25);
    assert("update_model_notes"@.len() == 18);
    assert("resolve_model_dependency_requirements"@.len() == 37);
    assert("audit_dependency_pin_compliance"@.len() == 31);
    assert("list_models_needing_review"@.len() == 26);
    assert("submit_model_review"@.len() == 19);
    assert("reset_model_review"@.len() == 18);
    assert("generate_model_migration_dry_run_report"@.len() == 39);
    assert("execute_model_migration"@.len() == 23);
    assert("list_model_migration_reports"@.len() == 28);
    assert("delete_model_migration_report"@.len() == 29);
    assert("prune_model_migration_reports"@.len() == 29);
    assert("set_hf_token"@.len() == 12);
    assert("clear_hf_token"@.len() == 14);
    assert("get_hf_auth_status"@.len() == 18);
    assert("launch_ollama"@.len() == 13);
    assert("stop_ollama"@.len() == 11);
    assert("is_ollama_running"@.len() == 17);
    assert("launch_torch"@.len() == 12);
    assert("stop_torch"@.len() == 10);
    assert("is_torch_running"@.len() == 16);
    assert("open_path"@.len() == 9);
    assert("open_url"@.len() == 8);
    assert("open_active_install"@.len() == 19);
    assert("ollama_list_models"@.len() == 18);
    assert("ollama_list_models_for_profile"@.len() == 30);
    assert("ollama_create_model"@.len() == 19);
    assert("ollama_create_model_for_profile"@.len() == 31);
    assert("ollama_delete_model"@.len() == 19);
    assert("ollama_delete_model_for_profile"@.len() == 31);
    assert("ollama_load_model"@.len() == 17);
    assert("ollama_load_model_for_profile"@.len() == 29);
    assert("ollama_unload_model"@.len() == 19);
    assert("ollama_unload_model_for_profile"@.len() == 31);
    assert("ollama_list_running"@.len() == 19);
    assert("torch_list_slots"@.len() == 16);
    assert("torch_load_model"@.len() == 16);
    assert("torch_unload_model"@.len() == 18);
    assert("torch_get_status"@.len() == 16);
    assert("torch_list_devices"@.len() == 18);
    assert("torch_configure"@.len() == 15);
    assert("get_link_health"@.len() == 15);
    assert("clean_broken_links"@.len() == 18);
    assert("remove_orphaned_links"@.len() == 21);
    assert("get_links_for_model"@.len() == 19);
    assert("delete_model_with_cascade"@.len() == 25);
    assert("get_file_link_count"@.len() == 19);
    assert("check_files_writable"@.len() == 20);
    assert("set_model_link_exclusion"@.len() == 24);
    assert("get_link_exclusions"@.len() == 19);
    assert("start_model_conversion"@.len() == 22);
    assert("get_conversion_progress"@.len() == 23);
    assert("cancel_model_conversion"@.len() == 23);
    assert("list_model_conversions"@.len() == 22);
    assert("check_conversion_environment"@.len() == 28);
    assert("setup_conversion_environment"@.len() == 28);
    assert("get_supported_quant_types"@.len() == 25);
    assert("get_backend_status"@.len() == 18);
    assert("setup_quantization_backend"@.len() == 26);
    assert("start_model_conversion"@[0] != "check_launcher_updates"@[0]);
    assert("start_model_conversion"@[0] != "upsert_runtime_profile"@[0]);
    assert("start_model_conversion"@[0] != "delete_runtime_profile"@[0]);
    assert("start_model_conversion"@[0] != "launch_runtime_profile"@[0]);
    assert("start_model_conversion"@[0] != "get_available_versions"@[0]);
    assert("start_model_conversion"@[0] != "get_installed_versions"@[0]);
    assert("start_model_conversion"@[0] != "validate_installations"@[0]);
    assert("start_model_conversion"@[0] != "calculate_release_size"@[0]);
    assert("start_model_conversion"@[0] != "download_model_from_hf"@[0]);
    assert("start_model_conversion"@[0] != "get_inference_settings"@[0]);
    assert("get_conversion_progress"@[0] != "set_model_runtime_route"@[0]);
    assert("get_conversion_progress"@[4] != "get_github_cache_status"@[4]);
    assert("get_conversion_progress"@[0] != "resume_partial_download"@[0]);
    assert("get_conversion_progress"@[4] != "get_hf_download_details"@[4]);
    assert("get_conversion_progress"@[0] != "execute_model_migration"@[0]);
    assert("cancel_model_conversion"@[0] != "set_model_runtime_route"@[0]);
    assert("cancel_model_conversion"@[0] != "get_github_cache_status"@[0]);
    assert("cancel_model_conversion"@[0] != "resume_partial_download"@[0]);
    assert("cancel_model_conversion"@[0] != "get_hf_download_details"@[0]);
    assert("cancel_model_conversion"@[0] != "execute_model_migration"@[0]);
    assert("cancel_model_conversion"@[0] != "get_conversion_progress"@[0]);
    assert("list_model_conversions"@[0] != "check_launcher_updates"@[0]);
    assert("list_model_conversions"@[0] != "upsert_runtime_profile"@[0]);
    assert("list_model_conversions"@[0] != "delete_runtime_profile"@[0]);
    assert("list_model_conversions"@[1] != "launch_runtime_profile"@[1]);
    assert("list_model_conversions"@[0] != "get_available_versions"@[0]);
    assert("list_model_conversions"@[0] != "get_installed_versions"@[0]);
    assert("list_model_conversions"@[0] != "validate_installations"@[0]);
    assert("list_model_conversions"@[0] != "calculate_release_size"@[0]);
    assert("list_model_conversions"@[0] != "download_model_from_hf"@[0]);
    assert("list_model_conversions"@[0] != "get_inference_settings"@[0]);
    assert("list_model_conversions"@[0] != "start_model_conversion"@[0]);
    assert("check_conversion_environment"@[0] != "install_version_dependencies"@[0]);
    assert("check_conversion_environment"@[0] != "start_model_download_from_hf"@[0]);
    assert("check_conversion_environment"@[0] != "list_model_migration_reports"@[0]);
    assert("setup_conversion_environment"@[0] != "install_version_dependencies"@[0]);
    assert("setup_conversion_environment"@[1] != "start_model_download_from_hf"@[1]);
    assert("setup_conversion_environment"@[0] != "list_model_migration_reports"@[0]);
    assert("setup_conversion_environment"@[0] != "check_conversion_environment"@[0]);
    assert("get_supported_quant_types"@[0] != "clear_model_runtime_route"@[0]);
    assert("get_supported_quant_types"@[4] != "get_installation_progress"@[4]);
    assert("get_supported_quant_types"@[4] != "get_model_download_status"@[4]);
    assert("get_supported_quant_types"@[0] != "update_inference_settings"@[0]);
    assert("get_supported_quant_types"@[0] != "delete_model_with_cascade"@[0]);
    assert("get_backend_status"@[4] != "get_network_status"@[4]);
    assert("get_backend_status"@[4] != "get_library_status"@[4]);
    assert("get_backend_status"@[4] != "get_serving_status"@[4]);
    assert("get_backend_status"@[4] != "get_active_version"@[4]);
    assert("get_backend_status"@[4] != "get_version_status"@[4]);
    assert("get_backend_status"@[4] != "get_related_models"@[4]);
    assert("get_backend_status"@[0] != "validate_file_type"@[0]);
    assert("get_backend_status"@[0] != "update_model_notes"@[0]);
    assert("get_backend_status"@[0] != "reset_model_review"@[0]);
    assert("get_backend_status"@[4] != "get_hf_auth_status"@[4]);
    assert("get_backend_status"@[0] != "ollama_list_models"@[0]);
    assert("get_backend_status"@[0] != "torch_unload_model"@[0]);
    assert("get_backend_status"@[0] != "torch_list_devices"@[0]);
    assert("get_backend_status"@[0] != "clean_broken_links"@[0]);
    assert("setup_quantization_backend"@[0] != "get_release_size_breakdown"@[0]);
    assert("setup_quantization_backend"@[0] != "check_version_dependencies"@[0]);
    assert("setup_quantization_backend"@[0] != "list_interrupted_downloads"@[0]);
    assert("setup_quantization_backend"@[0] != "get_library_model_metadata"@[0]);
    assert("setup_quantization_backend"@[0] != "list_models_needing_review"@[0]);
}

/// Every plugin method that the desktop dispatcher serves is routed to
/// `Plugins`, and needs inference plugins exactly where the dispatcher
/// gates it.
#[verifier::spinoff_prover]
pub proof fn law_plugins_methods_route_to_plugins()
    ensures
        rpc_route("get_plugins"@) == Some(RpcRoute { domain: RpcDomain::Plugins, plugins_only: true }),
        rpc_route("get_plugin"@) == Some(RpcRoute { domain: RpcDomain::Plugins, plugins_only: true }),
        rpc_route("call_plugin_endpoint"@) == Some(RpcRoute { domain: RpcDomain::Plugins, plugins_only: true }),
        rpc_route("check_plugin_health"@) == Some(RpcRoute { domain: RpcDomain::Plugins, plugins_only: true }),
{
    reveal_strlit("get_status");
    reveal_strlit("get_disk_space");
    reveal_strlit("get_system_resources");
    reveal_strlit("get_status_telemetry_snapshot");
    reveal_strlit("get_launcher_version");
    reveal_strlit("check_launcher_updates");
    reveal_strlit("apply_launcher_update");
    reveal_strlit("restart_launcher");
    reveal_strlit("get_sandbox_info");
    reveal_strlit("check_git");
    reveal_strlit("get_network_status");
    reveal_strlit("get_library_status");
    reveal_strlit("get_app_status");
    reveal_strlit("get_runtime_profiles_snapshot");
    reveal_strlit("list_runtime_profile_updates_since");
    reveal_strlit("upsert_runtime_profile");
    reveal_strlit("delete_runtime_profile");
    reveal_strlit("set_model_runtime_route");
    reveal_strlit("clear_model_runtime_route");
    reveal_strlit("launch_runtime_profile");
    reveal_strlit("stop_runtime_profile");
    reveal_strlit("get_serving_status");
    reveal_strlit("list_serving_status_updates_since");
    reveal_strlit("validate_model_serving_config");
    reveal_strlit("serve_model");
    reveal_strlit("unserve_model");
    reveal_strlit("get_available_versions");
    reveal_strlit("get_installed_versions");
    reveal_strlit("get_active_version");
    reveal_strlit("get_default_version");
    reveal_strlit("set_default_version");
    reveal_strlit("switch_version");
    reveal_strlit("install_version");
    reveal_strlit("remove_version");
    reveal_strlit("cancel_installation");
    reveal_strlit("get_installation_progress");
    reveal_strlit("validate_installations");
    reveal_strlit("get_version_status");
    reveal_strlit("get_version_info");
    reveal_strlit("get_release_size_info");
    reveal_strlit("get_release_size_breakdown");
    reveal_strlit("calculate_release_size");
    reveal_strlit("calculate_all_release_sizes");
    reveal_strlit("has_background_fetch_completed");
    reveal_strlit("reset_background_fetch_flag");
    reveal_strlit("get_github_cache_status");
    reveal_strlit("check_version_dependencies");
    reveal_strlit("install_version_dependencies");
    reveal_strlit("get_release_dependencies");
    reveal_strlit("get_models");
    reveal_strlit("refresh_model_index");
    reveal_strlit("import_model");
    reveal_strlit("download_model_from_hf");
    reveal_strlit("start_model_download_from_hf");
    reveal_strlit("get_model_download_status");
    reveal_strlit("cancel_model_download");
    reveal_strlit("pause_model_download");
    reveal_strlit("resume_model_download");
    reveal_strlit("list_model_downloads");
    reveal_strlit("list_interrupted_downloads");
    reveal_strlit("recover_download");
    reveal_strlit("resume_partial_download");
    reveal_strlit("search_hf_models");
    reveal_strlit("get_hf_download_details");
    reveal_strlit("get_related_models");
    reveal_strlit("search_models_fts");
    reveal_strlit("import_batch");
    reveal_strlit("import_external_diffusers_directory");
    reveal_strlit("classify_model_import_paths");
    reveal_strlit("lookup_hf_metadata_for_file");
    reveal_strlit("lookup_hf_metadata_for_bundle_directory");
    reveal_strlit("detect_sharded_sets");
    reveal_strlit("validate_file_type");
    reveal_strlit("get_embedded_metadata");
    reveal_strlit("get_library_model_metadata");
    reveal_strlit("resolve_model_execution_descriptor");
    reveal_strlit("resolve_model_artifact_load_target");
    reveal_strlit("resolve_model_package_facts");
    reveal_strlit("list_model_library_updates_since");
    reveal_strlit("resolve_model_package_facts_summary");
    reveal_strlit("model_package_facts_summary_snapshot");
    reveal_strlit("refetch_model_metadata_from_hf");
    reveal_strlit("adopt_orphan_models");
    reveal_strlit("import_model_in_place");
    reveal_strlit("scan_shared_storage");
    reveal_strlit("get_inference_settings");
    reveal_strlit("update_inference_settings");
    reveal_strlit("update_model_notes");
    reveal_strlit("resolve_model_dependency_requirements");
    reveal_strlit("audit_dependency_pin_compliance");
    reveal_strlit("list_models_needing_review");
    reveal_strlit("submit_model_review");
    reveal_strlit("reset_model_review");
    reveal_strlit("generate_model_migration_dry_run_report");
    reveal_strlit("execute_model_migration");
    reveal_strlit("list_model_migration_reports");
    reveal_strlit("delete_model_migration_report");
    reveal_strlit("prune_model_migration_reports");
    reveal_strlit("set_hf_token");
    reveal_strlit("clear_hf_token");
    reveal_strlit("get_hf_auth_status");
    reveal_strlit("launch_ollama");
    reveal_strlit("stop_ollama");
    reveal_strlit("is_ollama_running");
    reveal_strlit("launch_torch");
    reveal_strlit("stop_torch");
    reveal_strlit("is_torch_running");
    reveal_strlit("open_path");
    reveal_strlit("open_url");
    reveal_strlit("open_active_install");
    reveal_strlit("ollama_list_models");
    reveal_strlit("ollama_list_models_for_profile");
    reveal_strlit("ollama_create_model");
    reveal_strlit("ollama_create_model_for_profile");
    reveal_strlit("ollama_delete_model");
    reveal_strlit("ollama_delete_model_for_profile");
    reveal_strlit("ollama_load_model");
    reveal_strlit("ollama_load_model_for_profile");
    reveal_strlit("ollama_unload_model");
    reveal_strlit("ollama_unload_model_for_profile");
    reveal_strlit("ollama_list_running");
    reveal_strlit("torch_list_slots");
    reveal_strlit("torch_load_model");
    reveal_strlit("torch_unload_model");
    reveal_strlit("torch_get_status");
    reveal_strlit("torch_list_devices");
    reveal_strlit("torch_configure");
    reveal_strlit("get_link_health");
    reveal_strlit("clean_broken_links");
    reveal_strlit("remove_orphaned_links");
    reveal_strlit("get_links_for_model");
    reveal_strlit("delete_model_with_cascade");
    reveal_strlit("get_file_link_count");
    reveal_strlit("check_files_writable");
    reveal_strlit("set_model_link_exclusion");
    reveal_strlit("get_link_exclusions");
    reveal_strlit("start_model_conversion");
    reveal_strlit("get_conversion_progress");
    reveal_strlit("cancel_model_conversion");
    reveal_strlit("list_model_conversions");
    reveal_strlit("check_conversion_environment");
    reveal_strlit("setup_conversion_environment");
    reveal_strlit("get_supported_quant_types");
    reveal_strlit("get_backend_status");
    reveal_strlit("setup_quantization_backend");
    reveal_strlit("get_plugins");
    reveal_strlit("get_plugin");
    reveal_strlit("call_plugin_endpoint");
    reveal_strlit("check_plugin_health");
    assert("get_status"@.len() == 10);
    assert("get_disk_space"@.len() == 14);
    assert("get_system_resources"@.len() == 20);
    assert("get_status_telemetry_snapshot"@.len() == 29);
    assert("get_launcher_version"@.len() == 20);
    assert("check_launcher_updates"@.len() == 22);
    assert("apply_launcher_update"@.len() == 21);
    assert("restart_launcher"@.len() == 16);
    assert("get_sandbox_info"@.len() == 16);
    assert("check_git"@.len() == 9);
    assert("get_network_status"@.len() == 18);
    assert("get_library_status"@.len() == 18);
    assert("get_app_status"@.len() == 14);
    assert("get_runtime_profiles_snapshot"@.len() == 29);
    assert("list_runtime_profile_updates_since"@.len() == 34);
    assert("upsert_runtime_profile"@.len() == 22);
    assert("delete_runtime_profile"@.len() == 22);
    assert("set_model_runtime_route"@.len() == 23);
    assert("clear_model_runtime_route"@.len() == 25);
    assert("launch_runtime_profile"@.len() == 22);
    assert("stop_runtime_profile"@.len() == 20);
    assert("get_serving_status"@.len() == 18);
    assert("list_serving_status_updates_since"@.len() == 33);
    assert("validate_model_serving_config"@.len() == 29);
    assert("serve_model"@.len() == 11);
    assert("unserve_model"@.len() == 13);
    assert("get_available_versions"@.len() == 22);
    assert("get_installed_versions"@.len() == 22);
    assert("get_active_version"@.len() == 18);
    assert("get_default_version"@.len() == 19);
    assert("set_default_version"@.len() == 19);
    assert("switch_version"@.len() == 14);
    assert("install_version"@.len() == 15);
    assert("remove_version"@.len() == 14);
    assert("cancel_installation"@.len() == 19);
    assert("get_installation_progress"@.len() == 25);
    assert("validate_installations"@.len() == 22);
    assert("get_version_status"@.len() == 18);
    assert("get_version_info"@.len() == 16);
    assert("get_release_size_info"@.len() == 21);
    assert("get_release_size_breakdown"@.len() == 26);
    assert("calculate_release_size"@.len() == 22);
    assert("calculate_all_release_sizes"@.len() == 27);
    assert("has_background_fetch_completed"@.len() == 30);
    assert("reset_background_fetch_flag"@.len() == 27);
    assert("get_github_cache_status"@.len() == 23);
    assert("check_version_dependencies"@.len() == 26);
    assert("install_version_dependencies"@.len() == 28);
    assert("get_release_dependencies"@.len() == 24);
    assert("get_models"@.len() == 10);
    assert("refresh_model_index"@.len() == 19);
    assert("import_model"@.len() == 12);
    assert("download_model_from_hf"@.len() == 22);
    assert("start_model_download_from_hf"@.len() == 28);
    assert("get_model_download_status"@.len() == 25);
    assert("cancel_model_download"@.len() == 21);
    assert("pause_model_download"@.len() == 20);
    assert("resume_model_download"@.len() == 21);
    assert("list_model_downloads"@.len() == 20);
    assert("list_interrupted_downloads"@.len() == 26);
    assert("recover_download"@.len() == 16);
    assert("resume_partial_download"@.len() == 23);
    assert("search_hf_models"@.len() == 16);
    assert("get_hf_download_details"@.len() == 23);
    assert("get_related_models"@.len() == 18);
    assert("search_models_fts"@.len() == 17);
    assert("import_batch"@.len() == 12);
    assert("import_external_diffusers_directory"@.len() == 35);
    assert("classify_model_import_paths"@.len() == 27);
    assert("lookup_hf_metadata_for_file"@.len() == 27);
    assert("lookup_hf_metadata_for_bundle_directory"@.len() == 39);
    assert("detect_sharded_sets"@.len() == 19);
    assert("validate_file_type"@.len() == 18);
    assert("get_embedded_metadata"@.len() == 21);
    assert("get_library_model_metadata"@.len() == 26);
    assert("resolve_model_execution_descriptor"@.len() == 34);
    assert("resolve_model_artifact_load_target"@.len() == 34);
    assert("resolve_model_package_facts"@.len() == 27);
    assert("list_model_library_updates_since"@.len() == 32);
    assert("resolve_model_package_facts_summary"@.len() == 35);
    assert("model_package_facts_summary_snapshot"@.len() == 36);
    assert("refetch_model_metadata_from_hf"@.len() == 30);
    assert("adopt_orphan_models"@.len() == 19);
    assert("import_model_in_place"@.len() == 21);
    assert("scan_shared_storage"@.len() == 19);
    assert("get_inference_settings"@.len() == 22);
    assert("update_inference_settings"@.len() == 25);
    assert("update_model_notes"@.len() == 18);
    assert("resolve_model_dependency_requirements"@.len() == 37);
    assert("audit_dependency_pin_compliance"@.len() == 31);
    assert("list_models_needing_review"@.len() == 26);
    assert("submit_model_review"@.len() == 19);
    assert("reset_model_review"@.len() == 18);
    assert("generate_model_migration_dry_run_report"@.len() == 39);
    assert("execute_model_migration"@.len() == 23);
    assert("list_model_migration_reports"@.len() == 28);
    assert("delete_model_migration_report"@.len() == 29);
    assert("prune_model_migration_reports"@.len() == 29);
    assert("set_hf_token"@.len() == 12);
    assert("clear_hf_token"@.len() == 14);
    assert("get_hf_auth_status"@.len() == 18);
    assert("launch_ollama"@.len() == 13);
    assert("stop_ollama"@.len() == 11);
    assert("is_ollama_running"@.len() == 17);
    assert("launch_torch"@.len() == 12);
    assert("stop_torch"@.len() == 10);
    assert("is_torch_running"@.len() == 16);
    assert("open_path"@.len() == 9);
    assert("open_url"@.len() == 8);
    assert("open_active_install"@.len() == 19);
    assert("ollama_list_models"@.len() == 18);
    assert("ollama_list_models_for_profile"@.len() == 30);
    assert("ollama_create_model"@.len() == 19);
    assert("ollama_create_model_for_profile"@.len() == 31);
    assert("ollama_delete_model"@.len() == 19);
    assert("ollama_delete_model_for_profile"@.len() == 31);
    assert("ollama_load_model"@.len() == 17);
    assert("ollama_load_model_for_profile"@.len() == 29);
    assert("ollama_unload_model"@.len() == 19);
    assert("ollama_unload_model_for_profile"@.len() == 31);
    assert("ollama_list_running"@.len() == 19);
    assert("torch_list_slots"@.len() == 16);
    assert("torch_load_model"@.len() == 16);
    assert("torch_unload_model"@.len() == 18);
    assert("torch_get_status"@.len() == 16);
    assert("torch_list_devices"@.len() == 18);
    assert("torch_configure"@.len() == 15);
    assert("get_link_health"@.len() == 15);
    assert("clean_broken_links"@.len() == 18);
    assert("remove_orphaned_links"@.len() == 21);
    assert("get_links_for_model"@.len() == 19);
    assert("delete_model_with_cascade"@.len() == 25);
    assert("get_file_link_count"@.len() == 19);
    assert("check_files_writable"@.len() == 20);
    assert("set_model_link_exclusion"@.len() == 24);
    assert("get_link_exclusions"@.len() == 19);
    assert("start_model_conversion"@.len() == 22);
    assert("get_conversion_progress"@.len() == 23);
    assert("cancel_model_conversion"@.len() == 23);
    assert("list_model_conversions"@.len() == 22);
    assert("check_conversion_environment"@.len() == 28);
    assert("setup_conversion_environment"@.len() == 28);
    assert("get_supported_quant_types"@.len() == 25);
    assert("get_backend_status"@.len() == 18);
    assert("setup_quantization_backend"@.len() == 26);
    assert("get_plugins"@.len() == 11);
    assert("get_plugin"@.len() == 10);
    assert("call_plugin_endpoint"@.len() == 20);
    assert("check_plugin_health"@.len() == 19);
    assert("get_plugins"@[0] != "serve_model"@[0]);
    assert("get_plugins"@[0] != "stop_ollama"@[0]);
    assert("get_plugin"@[4] != "get_status"@[4]);
    assert("get_plugin"@[4] != "get_models"@[4]);
    assert("get_plugin"@[0] != "stop_torch"@[0]);
    assert("call_plugin_endpoint"@[0] != "get_system_resources"@[0]);
    assert("call_plugin_endpoint"@[0] != "get_launcher_version"@[0]);
    assert("call_plugin_endpoint"@[0] != "stop_runtime_profile"@[0]);
    assert("call_plugin_endpoint"@[0] != "pause_model_download"@[0]);
    assert("call_plugin_endpoint"@[0] != "list_model_downloads"@[0]);
    assert("call_plugin_endpoint"@[1] != "check_files_writable"@[1]);
    assert("check_plugin_health"@[0] != "get_default_version"@[0]);
    assert("check_plugin_health"@[0] != "set_default_version"@[0]);
    assert("check_plugin_health"@[1] != "cancel_installation"@[1]);
    assert("check_plugin_health"@[0] != "refresh_model_index"@[0]);
    assert("check_plugin_health"@[0] != "detect_sharded_sets"@[0]);
    assert("check_plugin_health"@[0] != "adopt_orphan_models"@[0]);
    assert("check_plugin_health"@[0] != "scan_shared_storage"@[0]);
    assert("check_plugin_health"@[0] != "submit_model_review"@[0]);
    assert("check_plugin_health"@[0] != "open_active_install"@[0]);
    assert("check_plugin_health"@[0] != "ollama_create_model"@[0]);
    assert("check_plugin_health"@[0] != "ollama_delete_model"@[0]);
    assert("check_plugin_health"@[0] != "ollama_unload_model"@[0]);
    assert("check_plugin_health"@[0] != "ollama_list_running"@[0]);
    assert("check_plugin_health"@[0] != "get_links_for_model"@[0]);
    assert("check_plugin_health"@[0] != "get_file_link_count"@[0]);
    assert("check_plugin_health"@[0] != "get_link_exclusions"@[0]);
}

/// Only the methods that the desktop dispatcher serves have a route; any
/// other name is refused as not found.
pub proof fn law_only_dispatcher_methods_route(m: Seq<char>)
    requires
        rpc_route(m) is Some,
    ensures
        m == "get_status"@
            || m == "get_disk_space"@
            || m == "get_system_resources"@
            || m == "get_status_telemetry_snapshot"@
            || m == "get_launcher_version"@
            || m == "check_launcher_updates"@
            || m == "apply_launcher_update"@
            || m == "restart_launcher"@
            || m == "get_sandbox_info"@
            || m == "check_git"@
            || m == "get_network_status"@
            || m == "get_library_status"@
            || m == "get_app_status"@
            || m == "get_runtime_profiles_snapshot"@
            || m == "list_runtime_profile_updates_since"@
            || m == "upsert_runtime_profile"@
            || m == "delete_runtime_profile"@
            || m == "set_model_runtime_route"@
            || m == "clear_model_runtime_route"@
            || m == "launch_runtime_profile"@
            || m == "stop_runtime_profile"@
            || m == "get_serving_status"@
            || m == "list_serving_status_updates_since"@
            || m == "validate_model_serving_config"@
            || m == "serve_model"@
            || m == "unserve_model"@
            || m == "get_available_versions"@
            || m == "get_installed_versions"@
            || m == "get_active_version"@
            || m == "get_default_version"@
            || m == "set_default_version"@
            || m == "switch_version"@
            || m == "install_version"@
            || m == "remove_version"@
            || m == "cancel_installation"@
            || m == "get_installation_progress"@
            || m == "validate_installations"@
            || m == "get_version_status"@
            || m == "get_version_info"@
            || m == "get_release_size_info"@
            || m == "get_release_size_breakdown"@
            || m == "calculate_release_size"@
            || m == "calculate_all_release_sizes"@
            || m == "has_background_fetch_completed"@
            || m == "reset_background_fetch_flag"@
            || m == "get_github_cache_status"@
            || m == "check_version_dependencies"@
            || m == "install_version_dependencies"@
            || m == "get_release_dependencies"@
            || m == "get_models"@
            || m == "refresh_model_index"@
            || m == "import_model"@
            || m == "download_model_from_hf"@
            || m == "start_model_download_from_hf"@
            || m == "get_model_download_status"@
            || m == "cancel_model_download"@
            || m == "pause_model_download"@
            || m == "resume_model_download"@
            || m == "list_model_downloads"@
            || m == "list_interrupted_downloads"@
            || m == "recover_download"@
            || m == "resume_partial_download"@
            || m == "search_hf_models"@
            || m == "get_hf_download_details"@
            || m == "get_related_models"@
            || m == "search_models_fts"@
            || m == "import_batch"@
            || m == "import_external_diffusers_directory"@
            || m == "classify_model_import_paths"@
            || m == "lookup_hf_metadata_for_file"@
            || m == "lookup_hf_metadata_for_bundle_directory"@
            || m == "detect_sharded_sets"@
            || m == "validate_file_type"@
            || m == "get_embedded_metadata"@
            || m == "get_library_model_metadata"@
            || m == "resolve_model_execution_descriptor"@
            || m == "resolve_model_artifact_load_target"@
            || m == "resolve_model_package_facts"@
            || m == "list_model_library_updates_since"@
            || m == "resolve_model_package_facts_summary"@
            || m == "model_package_facts_summary_snapshot"@
            || m == "refetch_model_metadata_from_hf"@
            || m == "adopt_orphan_models"@
            || m == "import_model_in_place"@
            || m == "scan_shared_storage"@
            || m == "get_inference_settings"@
            || m == "update_inference_settings"@
            || m == "update_model_notes"@
            || m == "resolve_model_dependency_requirements"@
            || m == "audit_dependency_pin_compliance"@
            || m == "list_models_needing_review"@
            || m == "submit_model_review"@
            || m == "reset_model_review"@
            || m == "generate_model_migration_dry_run_report"@
            || m == "execute_model_migration"@
            || m == "list_model_migration_reports"@
            || m == "delete_model_migration_report"@
            || m == "prune_model_migration_reports"@
            || m == "set_hf_token"@
            || m == "clear_hf_token"@
            || m == "get_hf_auth_status"@
            || m == "launch_ollama"@
            || m == "stop_ollama"@
            || m == "is_ollama_running"@
            || m == "launch_torch"@
            || m == "stop_torch"@
            || m == "is_torch_running"@
            || m == "open_path"@
            || m == "open_url"@
            || m == "open_active_install"@
            || m == "ollama_list_models"@
            || m == "ollama_list_models_for_profile"@
            || m == "ollama_create_model"@
            || m == "ollama_create_model_for_profile"@
            || m == "ollama_delete_model"@
            || m == "ollama_delete_model_for_profile"@
            || m == "ollama_load_model"@
            || m == "ollama_load_model_for_profile"@
            || m == "ollama_unload_model"@
            || m == "ollama_unload_model_for_profile"@
            || m == "ollama_list_running"@
            || m == "torch_list_slots"@
            || m == "torch_load_model"@
            || m == "torch_unload_model"@
            || m == "torch_get_status"@
            || m == "torch_list_devices"@
            || m == "torch_configure"@
            || m == "get_link_health"@
            || m == "clean_broken_links"@
            || m == "remove_orphaned_links"@
            || m == "get_links_for_model"@
            || m == "delete_model_with_cascade"@
            || m == "get_file_link_count"@
            || m == "check_files_writable"@
            || m == "set_model_link_exclusion"@
            || m == "get_link_exclusions"@
            || m == "start_model_conversion"@
            || m == "get_conversion_progress"@
            || m == "cancel_model_conversion"@
            || m == "list_model_conversions"@
            || m == "check_conversion_environment"@
            || m == "setup_conversion_environment"@
            || m == "get_supported_quant_types"@
            || m == "get_backend_status"@
            || m == "setup_quantization_backend"@
            || m == "get_plugins"@
            || m == "get_plugin"@
            || m == "call_plugin_endpoint"@
            || m == "check_plugin_health"@,
{
}

} // verus!
