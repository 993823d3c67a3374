/// Errors of provisioning and teardown.
pub mod error;
/// Sandbox and claim names.
pub mod identity;
/// `KEY=VALUE` entries and the string mappings they build.
pub mod labels;
/// The pod and claim manifests of a sandbox, built from a request.
pub mod manifest;
/// The allocation of a sandbox as a state machine, with rollback.
pub mod lifecycle;
/// Which deletes the teardown of an address makes.
pub mod teardown;
