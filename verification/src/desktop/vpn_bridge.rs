//! The bridge between the Android VPN service and the tunnel: at most one
//! VPN runs, and the tunnel's file descriptor is accepted only while one is
//! waiting for it.
use vstd::prelude::*;

verus! {

/// Whether a VPN runs and whether it waits for the tunnel descriptor.
#[derive(Debug, Clone, Copy, PartialEq, Eq, Structural)]
pub struct VpnBridge {
    pub running: bool,
    pub awaiting_fd: bool,
}

impl VpnBridge {
    /// No VPN running.
    pub fn idle() -> (b: Self)
        ensures
            !b.running && !b.awaiting_fd,
    {
        VpnBridge { running: false, awaiting_fd: false }
    }

    /// Claims the VPN slot: an error when one already runs, leaving the
    /// bridge unchanged.
    pub fn start(&mut self) -> (r: Result<(), String>)
        ensures
            old(self).running ==> (r matches Err(e) && e@ == "VPN already running"@ && *final(self)
                == *old(self)),
            !old(self).running ==> r is Ok && final(self).running && final(self).awaiting_fd
                == old(self).awaiting_fd,
    {
        if self.running {
            return Err(String::from_str("VPN already running"));
        }
        self.running = true;
        Ok(())
    }

    /// The VPN now waits for the tunnel descriptor.
    pub fn await_fd(&mut self)
        ensures
            final(self).awaiting_fd,
            final(self).running == old(self).running,
    {
        self.awaiting_fd = true;
    }

    /// The descriptor the service delivers, passed on only while a VPN
    /// waits for it.
    pub fn tun_ready(&self, fd: i32) -> (r: Option<i32>)
        ensures
            r == if self.awaiting_fd {
                Some(fd)
            } else {
                None
            },
    {
        if self.awaiting_fd {
            Some(fd)
        } else {
            None
        }
    }

    /// The VPN's packet pump ended: the slot is free again.
    pub fn finished(&mut self)
        ensures
            !final(self).running,
            final(self).awaiting_fd == old(self).awaiting_fd,
    {
        self.running = false;
    }
}

/// Stops the VPN: the slot is freed and no descriptor is awaited any more.
pub fn stop(bridge: &mut VpnBridge)
    ensures
        !final(bridge).running,
        !final(bridge).awaiting_fd,
{
    bridge.running = false;
    bridge.awaiting_fd = false;
}


} // verus!
