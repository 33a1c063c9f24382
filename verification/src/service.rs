//! The system-service commands. This build runs the core only as a sidecar,
//! so every service operation is refused with the same message and the
//! service is never available.

use vstd::prelude::*;
use vstd::string::StringExecFns;

verus! {

/// The message every service operation is refused with.
pub const SERVICE_DISABLED: &'static str = "本版本已移除系统服务模式，内核仅以 Sidecar 运行。";

fn service_disabled() -> (r: Result<(), String>)
    ensures
        r matches Err(e) && e@ == SERVICE_DISABLED@,
{
    Err(String::from_str(SERVICE_DISABLED))
}

/// Installing the service: always refused.
pub fn install_service() -> (r: Result<(), String>)
    ensures
        r matches Err(e) && e@ == SERVICE_DISABLED@,
{
    service_disabled()
}

/// Uninstalling the service: always refused.
pub fn uninstall_service() -> (r: Result<(), String>)
    ensures
        r matches Err(e) && e@ == SERVICE_DISABLED@,
{
    service_disabled()
}

/// Reinstalling the service: always refused.
pub fn reinstall_service() -> (r: Result<(), String>)
    ensures
        r matches Err(e) && e@ == SERVICE_DISABLED@,
{
    service_disabled()
}

/// Repairing the service: always refused.
pub fn repair_service() -> (r: Result<(), String>)
    ensures
        r matches Err(e) && e@ == SERVICE_DISABLED@,
{
    service_disabled()
}

/// Whether the service can be used: never.
pub fn is_service_available() -> (r: Result<bool, String>)
    ensures
        r == Ok::<bool, String>(false),
{
    Ok(false)
}

} // verus!
