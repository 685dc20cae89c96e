//! The mute and dim control of the mixer, and the ports the mixer is driven
//! through.

use crate::audio_buffer::AudioBuffer;
use crate::error::CoreError;
use vstd::prelude::*;

verus! {

/// Whether the master output is heard, silenced, or dimmed by 20 dB.
#[derive(Debug, Clone, Copy, PartialEq, Eq, Structural)]
pub enum MuteState {
    Unmuted,
    Muted,
    Dimmed,
}

/// The state after a mute switch: muting always mutes; unmuting undoes a
/// mute and leaves any other state as it is.
pub open spec fn after_mute(state: MuteState, muted: bool) -> MuteState {
    if muted {
        MuteState::Muted
    } else if state == MuteState::Muted {
        MuteState::Unmuted
    } else {
        state
    }
}

/// The state after a dim switch: dimming always dims; undimming undoes a dim
/// and leaves any other state as it is.
pub open spec fn after_dim(state: MuteState, dimmed: bool) -> MuteState {
    if dimmed {
        MuteState::Dimmed
    } else if state == MuteState::Dimmed {
        MuteState::Unmuted
    } else {
        state
    }
}

/// Processing of one block of audio (gain, metering, streaming).
pub trait ProcessAudioUseCase: Send + Sync {
    /// Processes `input` and returns the processed block.
    fn process_block(&mut self, input: AudioBuffer) -> Result<AudioBuffer, CoreError>;
}

/// The mute and dim switches.
pub trait ToggleMuteUseCase: Send + Sync {
    fn set_mute(&mut self, muted: bool);

    fn set_dim(&mut self, dimmed: bool);

    fn get_state(&self) -> MuteState;
}

/// Sends a block of audio to the listeners.
pub trait AudioStreamerPort: Send + Sync {
    fn stream_audio(
        &self,
        buffer: &AudioBuffer,
        sequence_number: u64,
        timestamp_us: u64,
    ) -> Result<(), CoreError>;
}

/// The mute/dim switch of a mixer; it starts unmuted.
#[derive(Debug, Clone, Copy, PartialEq, Eq, Structural)]
pub struct MuteControl {
    pub state: MuteState,
}

impl MuteControl {
    /// An unmuted control.
    pub fn new() -> (c: Self)
        ensures
            c.state == MuteState::Unmuted,
    {
        MuteControl { state: MuteState::Unmuted }
    }
}

impl ToggleMuteUseCase for MuteControl {
    /// Muting always mutes; unmuting undoes a mute and leaves a dim as it is.
    fn set_mute(&mut self, muted: bool)
        ensures
            final(self).state == after_mute(old(self).state, muted),
    {
        if muted {
            self.state = MuteState::Muted;
        } else if self.state == MuteState::Muted {
            self.state = MuteState::Unmuted;
        }
    }

    /// Dimming always dims; undimming undoes a dim and leaves a mute as it is.
    fn set_dim(&mut self, dimmed: bool)
        ensures
            final(self).state == after_dim(old(self).state, dimmed),
    {
        if dimmed {
            self.state = MuteState::Dimmed;
        } else if self.state == MuteState::Dimmed {
            self.state = MuteState::Unmuted;
        }
    }

    /// The current state.
    fn get_state(&self) -> (r: MuteState)
        ensures
            r == self.state,
    {
        self.state
    }
}

/// Unmuting after a mute gives the unmuted state, whatever came before the
/// mute; likewise undimming after a dim.
pub proof fn lemma_switch_off_after_on(state: MuteState)
    ensures
        after_mute(after_mute(state, true), false) == MuteState::Unmuted,
        after_dim(after_dim(state, true), false) == MuteState::Unmuted,
{
}

/// Switching a switch to the position it is in changes nothing the second
/// time.
pub proof fn lemma_switch_idempotent(state: MuteState, on: bool)
    ensures
        after_mute(after_mute(state, on), on) == after_mute(state, on),
        after_dim(after_dim(state, on), on) == after_dim(state, on),
{
}

/// Switching one switch off never leaves the other switch's state: unmuting
/// keeps a dim, undimming keeps a mute; and a switch turned off never leaves
/// its own state on.
pub proof fn lemma_switch_off_keeps_other(state: MuteState)
    ensures
        state == MuteState::Dimmed ==> after_mute(state, false) == MuteState::Dimmed,
        state == MuteState::Muted ==> after_dim(state, false) == MuteState::Muted,
        after_mute(state, false) != MuteState::Muted,
        after_dim(state, false) != MuteState::Dimmed,
{
}

} // verus!
