//! Verified core of the Pumas model library: download persistence, recovery
//! identifiers, partial-download finalization, and the local IPC wire format.

pub mod text;
pub mod order;
pub mod recovery_ids;
pub mod recovery_meta;
pub mod recovery_ticket;
pub mod partial_paths;
pub mod partial;
pub mod strings;
pub mod keyed;
pub mod error;
pub mod publication;
pub mod transitions;
pub mod store_model;
pub mod uuid_text;
pub mod store_validate;
pub mod store_invariant;
pub mod store_check;
pub mod store_rows;
pub mod store_copy;
pub mod persistence;
pub mod store_ops;
pub mod admission_queue;
pub mod admission;
pub mod fixture;
pub mod lifecycle_ops;
pub mod relocation_ops;
pub mod store_load;
pub mod inventory;
pub mod store_document;
pub mod publication_steps;
pub mod ipc_protocol;
pub mod ipc_command;
pub mod service;
pub mod rpc_access;
pub mod json_rpc;
pub mod rpc_routes;
pub mod rpc_route_laws;
pub mod destination_queue;
pub mod task_lifecycle;
pub mod task_table;
pub mod launcher;
pub mod migration;
pub mod laws;
