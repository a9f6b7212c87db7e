//! The platform integration the process runs with, set once at start-up.

use vstd::prelude::*;
use std::sync::Arc;
use crate::platform::VirtualFileMode;

verus! {

/// Holds the platform integration once it is set.
#[derive(Debug)]
pub struct PlatformSlot<P> {
    provider: Option<Arc<P>>,
}

impl<P> PlatformSlot<P> {
    pub closed spec fn held(&self) -> Option<P> {
        match self.provider {
            Some(p) => Some(*p),
            None => None,
        }
    }

    pub fn new() -> (r: Self)
        ensures
            r.held() is None,
    {
        PlatformSlot { provider: None }
    }
}

/// Sets the platform integration; refused with "platform provider already
/// initialized" when one is set (the first one stays).
pub fn set_platform_provider<P>(slot: &mut PlatformSlot<P>, provider: Arc<P>) -> (r: Result<(), String>)
    ensures
        old(slot).held() is None ==> r is Ok && final(slot).held() == Some(*provider),
        old(slot).held() is Some ==> r is Err && r->Err_0@ == "platform provider already initialized"@
            && final(slot).held() == old(slot).held(),
{
    if slot.provider.is_some() {
        let mut msg = String::new();
        crate::text::push_str(&mut msg, "platform provider already initialized");
        return Err(msg);
    }
    slot.provider = Some(provider);
    Ok(())
}

/// The platform integration; refused with "platform provider is not
/// initialized" before it is set.
pub fn platform_provider<P>(slot: &PlatformSlot<P>) -> (r: Result<Arc<P>, String>)
    ensures
        match slot.held() {
            Some(p) => r is Ok && *r->Ok_0 == p,
            None => r is Err && r->Err_0@ == "platform provider is not initialized"@,
        },
{
    match &slot.provider {
        Some(p) => Ok(p.clone()),
        None => {
            let mut msg = String::new();
            crate::text::push_str(&mut msg, "platform provider is not initialized");
            Err(msg)
        },
    }
}

/// Whether the mounts sync plain files (the platform has no placeholders);
/// `None` stands for a process without a platform integration.
pub fn is_real_file_sync_mode(platform_mode: Option<VirtualFileMode>) -> (r: bool)
    ensures
        r == (platform_mode == Some(VirtualFileMode::Plain)),
{
    match platform_mode {
        Some(VirtualFileMode::Plain) => true,
        _ => false,
    }
}

} // verus!
