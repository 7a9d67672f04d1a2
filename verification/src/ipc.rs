//! The command rules of the daemon and the reply rules of the client.
//!
//! The daemon reads a command, decides with [`dispatch`] what it means for
//! the running configuration, performs the resulting disk and atomic-swap
//! work, and answers. The client reads the answer to its request with
//! [`config_from_response`] or [`ack_from_response`].
use vstd::prelude::*;
use crate::config::{DspConfig, DspConfigView, IpcCommand, IpcResponse, PeqBand};

verus! {

/// What the daemon does in answer to one command.
#[derive(Debug)]
pub enum Dispatch<F> {
    /// Reply with this (the running) configuration; nothing changes.
    SendConfig(DspConfig<F>),
    /// Make `config` the running configuration, writing it to disk first when
    /// `persist` holds, and acknowledge.
    Commit { config: DspConfig<F>, persist: bool },
    /// The command names a band that does not exist: reply with an error;
    /// nothing changes.
    BandOutOfRange { band: usize },
    /// Re-read the configuration file and run what it holds.
    Reload,
    /// Exit the daemon.
    Shutdown,
}

/// The value of a [`Dispatch`].
pub enum Effect<F> {
    SendConfig(DspConfigView<F>),
    Commit { config: DspConfigView<F>, persist: bool },
    BandOutOfRange { band: usize },
    Reload,
    Shutdown,
}

impl<F> View for Dispatch<F> {
    type V = Effect<F>;

    open spec fn view(&self) -> Effect<F> {
        match self {
            Dispatch::SendConfig(c) => Effect::SendConfig(c@),
            Dispatch::Commit { config, persist } => Effect::Commit { config: config@, persist: *persist },
            Dispatch::BandOutOfRange { band } => Effect::BandOutOfRange { band: *band },
            Dispatch::Reload => Effect::Reload,
            Dispatch::Shutdown => Effect::Shutdown,
        }
    }
}

/// What a command means when the daemon runs configuration `cur`.
pub open spec fn command_effect<F>(cmd: IpcCommand<F>, cur: DspConfigView<F>) -> Effect<F> {
    match cmd {
        IpcCommand::GetConfig => Effect::SendConfig(cur),
        IpcCommand::SetConfig { config } => Effect::Commit { config: config@, persist: true },
        IpcCommand::SetBandEnabled { band, enabled } => if band < cur.peq.len() {
            Effect::Commit {
                config: cur.with_band(band as int, cur.peq[band as int].with_enabled(enabled)),
                persist: true,
            }
        } else {
            Effect::BandOutOfRange { band }
        },
        IpcCommand::SetBandGain { band, gain_db } => if band < cur.peq.len() {
            Effect::Commit {
                config: cur.with_band(band as int, cur.peq[band as int].with_gain(gain_db)),
                persist: true,
            }
        } else {
            Effect::BandOutOfRange { band }
        },
        IpcCommand::SetHeadYaw { yaw_deg } => Effect::Commit {
            config: cur.with_head_yaw(yaw_deg),
            persist: false,
        },
        IpcCommand::ReloadConfig => Effect::Reload,
        IpcCommand::Shutdown => Effect::Shutdown,
    }
}

/// Decides what the daemon does with `cmd`, given a copy of its running
/// configuration `current`.
pub fn dispatch<F: Copy>(cmd: IpcCommand<F>, current: DspConfig<F>) -> (d: Dispatch<F>)
    ensures
        d@ == command_effect(cmd, current@),
{
    let mut cfg = current;
    match cmd {
        IpcCommand::GetConfig => Dispatch::SendConfig(cfg),
        IpcCommand::SetConfig { config } => Dispatch::Commit { config, persist: true },
        IpcCommand::SetBandEnabled { band, enabled } => {
            if band < cfg.peq.len() {
                let b = cfg.peq[band];
                let nb = PeqBand {
                    freq: b.freq,
                    gain_db: b.gain_db,
                    q: b.q,
                    filter_type: b.filter_type,
                    enabled,
                };
                cfg.peq.set(band, nb);
                Dispatch::Commit { config: cfg, persist: true }
            } else {
                Dispatch::BandOutOfRange { band }
            }
        },
        IpcCommand::SetBandGain { band, gain_db } => {
            if band < cfg.peq.len() {
                let b = cfg.peq[band];
                let nb = PeqBand {
                    freq: b.freq,
                    gain_db,
                    q: b.q,
                    filter_type: b.filter_type,
                    enabled: b.enabled,
                };
                cfg.peq.set(band, nb);
                Dispatch::Commit { config: cfg, persist: true }
            } else {
                Dispatch::BandOutOfRange { band }
            }
        },
        IpcCommand::SetHeadYaw { yaw_deg } => {
            cfg.spatial.hrtf.head_yaw_deg = yaw_deg;
            Dispatch::Commit { config: cfg, persist: false }
        },
        IpcCommand::ReloadConfig => Dispatch::Reload,
        IpcCommand::Shutdown => Dispatch::Shutdown,
    }
}

/// Why a client request did not give the expected answer.
#[derive(Debug)]
pub enum ClientError {
    /// The daemon answered a configuration request with this error message.
    DaemonError(String),
    /// The daemon refused a command with this error message.
    Rejected(String),
    /// The daemon answered with a response of the wrong kind.
    UnexpectedResponse,
}

/// Reads the daemon's answer to a configuration request.
pub fn config_from_response<F>(resp: IpcResponse<F>) -> (r: Result<DspConfig<F>, ClientError>)
    ensures
        match resp {
            IpcResponse::Config { config } => r matches Ok(c) && c@ == config@,
            IpcResponse::Error { message } => r matches Err(ClientError::DaemonError(m))
                && m@ == message@,
            IpcResponse::Ack => r matches Err(ClientError::UnexpectedResponse),
        },
{
    match resp {
        IpcResponse::Config { config } => Ok(config),
        IpcResponse::Error { message } => Err(ClientError::DaemonError(message)),
        IpcResponse::Ack => Err(ClientError::UnexpectedResponse),
    }
}

/// Reads the daemon's answer to a command that expects an acknowledgement.
pub fn ack_from_response<F>(resp: IpcResponse<F>) -> (r: Result<(), ClientError>)
    ensures
        match resp {
            IpcResponse::Ack => r is Ok,
            IpcResponse::Error { message } => r matches Err(ClientError::Rejected(m)) && m@
                == message@,
            IpcResponse::Config { .. } => r matches Err(ClientError::UnexpectedResponse),
        },
{
    match resp {
        IpcResponse::Ack => Ok(()),
        IpcResponse::Error { message } => Err(ClientError::Rejected(message)),
        IpcResponse::Config { .. } => Err(ClientError::UnexpectedResponse),
    }
}

} // verus!

verus! {

/// The band a band command names, if `cmd` is one.
pub open spec fn band_of<F>(cmd: IpcCommand<F>) -> Option<usize> {
    match cmd {
        IpcCommand::SetBandEnabled { band, .. } => Some(band),
        IpcCommand::SetBandGain { band, .. } => Some(band),
        _ => None,
    }
}

/// A read gives back the last write: once the daemon has committed the
/// configuration of a `SetConfig` command, its answer to `GetConfig` is that
/// very configuration.
pub proof fn lemma_read_after_write<F>(cur: DspConfigView<F>, new: DspConfig<F>)
    ensures
        command_effect(IpcCommand::SetConfig { config: new }, cur) == (Effect::Commit {
            config: new@,
            persist: true,
        }),
        command_effect(IpcCommand::<F>::GetConfig, new@) == Effect::SendConfig(new@),
{
}

/// Head-tracking updates are the only commands that change the running
/// configuration without writing it to disk; every other change is written.
pub proof fn lemma_only_head_yaw_skips_disk<F>(cmd: IpcCommand<F>, cur: DspConfigView<F>)
    ensures
        (command_effect(cmd, cur) matches Effect::Commit { persist, .. } && !persist) <==> (
        cmd is SetHeadYaw),
{
}

/// A head-tracking update changes the yaw and nothing else: every other
/// HRTF parameter (speaker azimuths, elevation, wet mix, head size,
/// auto-spin, room level), the spatial mode, the bands, the crossfeed, the
/// rates and the output gain stay as they were, and nothing is written to
/// disk.
pub proof fn lemma_head_yaw_changes_only_yaw<F>(yaw: F, cur: DspConfigView<F>)
    ensures
        command_effect(IpcCommand::SetHeadYaw { yaw_deg: yaw }, cur) matches Effect::Commit {
            config,
            persist,
        } && !persist && config.spatial.hrtf.head_yaw_deg == yaw
            && config.spatial.hrtf.left_azimuth_deg == cur.spatial.hrtf.left_azimuth_deg
            && config.spatial.hrtf.right_azimuth_deg == cur.spatial.hrtf.right_azimuth_deg
            && config.spatial.hrtf.elevation_deg == cur.spatial.hrtf.elevation_deg
            && config.spatial.hrtf.wet == cur.spatial.hrtf.wet
            && config.spatial.hrtf.head_scale == cur.spatial.hrtf.head_scale
            && config.spatial.hrtf.auto_spin_hz == cur.spatial.hrtf.auto_spin_hz
            && config.spatial.hrtf.room_reverb == cur.spatial.hrtf.room_reverb
            && config.spatial.mode == cur.spatial.mode && config.peq == cur.peq
            && config.crossfeed == cur.crossfeed && config.sample_rate == cur.sample_rate
            && config.quantum == cur.quantum && config.output_gain_db == cur.output_gain_db,
{
}

/// A command on an existing band changes only that band, and in it only the
/// field the command names: `SetBandEnabled` keeps the band's frequency,
/// gain, Q and filter type; `SetBandGain` keeps its frequency, Q, filter
/// type and enabled flag. The number of bands stays the same, every other
/// band and setting is kept, and the change is written to disk.
pub proof fn lemma_band_edit_is_local<F>(cmd: IpcCommand<F>, cur: DspConfigView<F>, j: int)
    requires
        band_of(cmd) matches Some(band) && band < cur.peq.len(),
        0 <= j < cur.peq.len(),
    ensures
        command_effect(cmd, cur) matches Effect::Commit { config, persist } && persist
            && config.peq.len() == cur.peq.len() && config.crossfeed == cur.crossfeed
            && config.spatial == cur.spatial && config.output_gain_db == cur.output_gain_db
            && config.sample_rate == cur.sample_rate && config.quantum == cur.quantum && ({
            let old_band = cur.peq[j];
            let new_band = config.peq[j];
            match cmd {
                IpcCommand::SetBandEnabled { band, enabled } => if j == band {
                    &&& new_band.enabled == enabled
                    &&& new_band.freq == old_band.freq
                    &&& new_band.gain_db == old_band.gain_db
                    &&& new_band.q == old_band.q
                    &&& new_band.filter_type == old_band.filter_type
                } else {
                    new_band == old_band
                },
                IpcCommand::SetBandGain { band, gain_db } => if j == band {
                    &&& new_band.gain_db == gain_db
                    &&& new_band.freq == old_band.freq
                    &&& new_band.q == old_band.q
                    &&& new_band.filter_type == old_band.filter_type
                    &&& new_band.enabled == old_band.enabled
                } else {
                    new_band == old_band
                },
                _ => false,
            }
        }),
{
}

/// A command on a band that does not exist is refused and changes nothing.
pub proof fn lemma_missing_band_refused<F>(cmd: IpcCommand<F>, cur: DspConfigView<F>)
    requires
        band_of(cmd) matches Some(band) && band >= cur.peq.len(),
    ensures
        command_effect(cmd, cur) == (Effect::<F>::BandOutOfRange { band: band_of(cmd)->0 }),
{
}

/// Band commands are idempotent: sending the same band command twice leaves
/// the daemon with the configuration that sending it once gives.
pub proof fn lemma_band_edit_idempotent<F>(cmd: IpcCommand<F>, cur: DspConfigView<F>)
    requires
        band_of(cmd) is Some,
    ensures
        command_effect(cmd, cur) matches Effect::Commit { config, .. } ==> command_effect(
            cmd,
            config,
        ) == command_effect(cmd, cur),
{
    match cmd {
        IpcCommand::SetBandEnabled { band, enabled } => {
            if band < cur.peq.len() {
                let c1 = cur.with_band(band as int, cur.peq[band as int].with_enabled(enabled));
                assert(c1.with_band(band as int, c1.peq[band as int].with_enabled(enabled)).peq
                    =~= c1.peq);
            }
        },
        IpcCommand::SetBandGain { band, gain_db } => {
            if band < cur.peq.len() {
                let c1 = cur.with_band(band as int, cur.peq[band as int].with_gain(gain_db));
                assert(c1.with_band(band as int, c1.peq[band as int].with_gain(gain_db)).peq
                    =~= c1.peq);
            }
        },
        _ => {},
    }
}

} // verus!
