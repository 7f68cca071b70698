use vstd::prelude::*;

use crate::address::Address;
use crate::command::{command_fits, encode, spec_frames, Command};
use crate::errors::Error;
use crate::profile::ProtocolProfile;

verus! {

/// What the adapter layer must do for one command: optionally (re)connect
/// the link first, then write the frames in order. All writes use
/// write-without-response semantics; if a frame's write fails, the frames
/// after it are not attempted and the command fails as a whole.
pub struct WritePlan {
    pub connect_first: bool,
    pub frames: Vec<Vec<u8>>,
}

/// What to do after an adapter-level write failure.
#[derive(Clone, Copy, Debug, PartialEq, Eq, Structural)]
pub enum WriteRecovery {
    /// Reconnect transparently — a single connect call, no re-discovery —
    /// and retry the write once.
    ReconnectAndRetry,
    /// Surface the carried error to the caller.
    GiveUp(Error),
}

/// Recovery rule per profile: ProtocolB attempts one transparent
/// reconnect-and-retry; ProtocolA, and any second failure, surface
/// `WriteFailed`. Nothing else retries silently.
pub open spec fn spec_write_recovery(p: ProtocolProfile, already_retried: bool) -> WriteRecovery {
    if p is ProtocolB && !already_retried {
        WriteRecovery::ReconnectAndRetry
    } else {
        WriteRecovery::GiveUp(Error::WriteFailed)
    }
}

/// The command API facade: one protocol profile and one target address,
/// both fixed at construction and never inferred or changed.
pub struct DeviceSession {
    pub profile: ProtocolProfile,
    pub address: Address,
}

impl DeviceSession {
    /// A session for the device at the given address, speaking the given
    /// firmware family's dialect.
    pub fn new_with_address(profile: ProtocolProfile, address: Address) -> (s: DeviceSession)
        ensures
            s.profile == profile,
            s.address@ == address@,
    {
        DeviceSession { profile, address }
    }

    /// Plan one command send against the link's reported status.
    ///
    /// When the link reports down, ProtocolB reconnects transparently
    /// before writing; ProtocolA writes directly and lets the adapter
    /// surface the failure. The frames are the profile's exact encoding of
    /// the command.
    pub fn plan_send(&self, link_connected: bool, c: Command) -> (plan: WritePlan)
        requires
            command_fits(self.profile, c),
        ensures
            plan.connect_first == (!link_connected && self.profile is ProtocolB),
            plan.frames.deep_view() == spec_frames(self.profile, c),
    {
        let reconnects = match self.profile {
            ProtocolProfile::ProtocolA => false,
            ProtocolProfile::ProtocolB => true,
        };
        WritePlan {
            connect_first: !link_connected && reconnects,
            frames: encode(self.profile, c),
        }
    }

    /// Turn the device on or off.
    pub fn set_power(&self, link_connected: bool, on: bool) -> (plan: WritePlan)
        ensures
            plan.connect_first == (!link_connected && self.profile is ProtocolB),
            plan.frames.deep_view() == spec_frames(self.profile, Command::SetPower(on)),
    {
        self.plan_send(link_connected, Command::SetPower(on))
    }

    /// Set the RGB color channels.
    pub fn set_color(&self, link_connected: bool, r: u8, g: u8, b: u8) -> (plan: WritePlan)
        ensures
            plan.connect_first == (!link_connected && self.profile is ProtocolB),
            plan.frames.deep_view() == spec_frames(self.profile, Command::SetColor(r, g, b)),
    {
        self.plan_send(link_connected, Command::SetColor(r, g, b))
    }

    /// Set the brightness percentage; ProtocolA clamps it to 100.
    pub fn set_brightness(&self, link_connected: bool, pct: u8) -> (plan: WritePlan)
        ensures
            plan.connect_first == (!link_connected && self.profile is ProtocolB),
            plan.frames.deep_view() == spec_frames(self.profile, Command::SetBrightness(pct)),
    {
        self.plan_send(link_connected, Command::SetBrightness(pct))
    }

    /// Set warm-white mode at the given level.
    pub fn set_warm_white(&self, link_connected: bool, level: u8) -> (plan: WritePlan)
        ensures
            plan.connect_first == (!link_connected && self.profile is ProtocolB),
            plan.frames.deep_view() == spec_frames(self.profile, Command::SetWarmWhite(level)),
    {
        self.plan_send(link_connected, Command::SetWarmWhite(level))
    }

    /// Select an animation effect with a speed percentage (clamped to 100).
    /// ProtocolA only: two frames, effect first, then speed; both must be
    /// written in order.
    pub fn set_custom_effect(&self, link_connected: bool, effect_code: u8, speed: u8) -> (plan:
        WritePlan)
        requires
            self.profile is ProtocolA,
        ensures
            plan.connect_first == (!link_connected && self.profile is ProtocolB),
            plan.frames.deep_view() == spec_frames(
                self.profile,
                Command::SetEffect(effect_code, speed),
            ),
    {
        self.plan_send(link_connected, Command::SetEffect(effect_code, speed))
    }

    /// Select a device mode by its code byte. ProtocolB only.
    pub fn set_mode(&self, link_connected: bool, mode_code: u8) -> (plan: WritePlan)
        requires
            self.profile is ProtocolB,
        ensures
            plan.connect_first == (!link_connected && self.profile is ProtocolB),
            plan.frames.deep_view() == spec_frames(self.profile, Command::SetMode(mode_code)),
    {
        self.plan_send(link_connected, Command::SetMode(mode_code))
    }

    /// Decide what to do after the adapter reported a write failure.
    pub fn on_write_failure(&self, already_retried: bool) -> (r: WriteRecovery)
        ensures
            r == spec_write_recovery(self.profile, already_retried),
    {
        let is_b = match self.profile {
            ProtocolProfile::ProtocolA => false,
            ProtocolProfile::ProtocolB => true,
        };
        if is_b && !already_retried {
            WriteRecovery::ReconnectAndRetry
        } else {
            WriteRecovery::GiveUp(Error::WriteFailed)
        }
    }
}

} // verus!
