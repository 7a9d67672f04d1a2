//! The configuration model shared by the daemon and the control client.
//!
//! Every quantity that the DSP stages compute with (frequencies, gains,
//! angles, mix levels) is carried as a value of the type parameter `F`;
//! the rules of this library only move such values, never compute with
//! them, so they hold for whatever sample type the audio path uses.
use vstd::prelude::*;

verus! {

/// Sample rate that a configuration without one negotiates (48 kHz).
pub fn default_sample_rate() -> (r: u32)
    ensures
        r == 48_000,
{
    48_000
}

/// Block size, in frames, that a configuration without one uses.
pub fn default_quantum() -> (r: u32)
    ensures
        r == 256,
{
    256
}

/// A parametric band without an explicit `enabled` flag is enabled.
pub fn yes() -> (r: bool)
    ensures
        r,
{
    true
}

/// Biquad filter type of one parametric band.
#[derive(Debug, Clone, Copy, PartialEq, Eq, Structural)]
pub enum FilterType {
    Peaking,
    LowShelf,
    HighShelf,
    LowPass,
    HighPass,
    Notch,
    AllPass,
}

/// Which spatial processing stage follows the parametric EQ.
#[derive(Debug, Clone, Copy, PartialEq, Eq, Structural)]
pub enum SpatialMode {
    /// No spatial processing (straight stereo after the EQ).
    Off,
    /// BS2B loudspeaker crossfeed simulation.
    Crossfeed,
    /// HRTF binaural rendering (Woodworth spherical-head model).
    Hrtf,
}

impl Default for SpatialMode {
    /// Spatial processing is off unless configured.
    fn default() -> (m: Self)
        ensures
            m == SpatialMode::Off,
    {
        SpatialMode::Off
    }
}

/// One parametric EQ band.
#[derive(Debug, Clone, Copy)]
pub struct PeqBand<F> {
    /// Centre / corner frequency in Hz.
    pub freq: F,
    /// Gain in dB (ignored for low-pass, high-pass, notch and all-pass).
    pub gain_db: F,
    /// Q factor.
    pub q: F,
    /// Filter type.
    pub filter_type: FilterType,
    /// Enable / disable without removing the band from the configuration.
    pub enabled: bool,
}

impl<F> PeqBand<F> {
    /// The same band with its `enabled` flag replaced.
    pub open spec fn with_enabled(self, enabled: bool) -> PeqBand<F> {
        PeqBand {
            freq: self.freq,
            gain_db: self.gain_db,
            q: self.q,
            filter_type: self.filter_type,
            enabled,
        }
    }

    /// The same band with its gain replaced.
    pub open spec fn with_gain(self, gain_db: F) -> PeqBand<F> {
        PeqBand {
            freq: self.freq,
            gain_db,
            q: self.q,
            filter_type: self.filter_type,
            enabled: self.enabled,
        }
    }
}

/// BS2B crossfeed parameters.
#[derive(Debug, Clone, Copy)]
pub struct CrossfeedConfig<F> {
    /// Crossfeed enabled toggle.
    pub enabled: bool,
    /// Low-pass cutoff of the cross path, in Hz.
    pub cutoff_hz: F,
    /// Gain of the cross-channel signal.
    pub feed_level: F,
    /// Inter-aural delay of the cross path, in (fractional) samples.
    pub delay_samples: F,
}

/// Parameters of the HRTF binaural model.
#[derive(Debug, Clone, Copy)]
pub struct HrtfConfig<F> {
    /// Azimuth of the left virtual speaker in degrees (0 = front, -90 = left).
    pub left_azimuth_deg: F,
    /// Azimuth of the right virtual speaker in degrees.
    pub right_azimuth_deg: F,
    /// Elevation of both virtual speakers in degrees.
    pub elevation_deg: F,
    /// Wet/dry mix.
    pub wet: F,
    /// Head size relative to an average adult head.
    pub head_scale: F,
    /// Auto-rotation speed in Hz.
    pub auto_spin_hz: F,
    /// Room reflection level.
    pub room_reverb: F,
    /// Live head-tracking yaw in degrees (positive = looking right).
    pub head_yaw_deg: F,
}

impl<F> HrtfConfig<F> {
    /// The same HRTF parameters with the head-tracking yaw replaced.
    pub open spec fn with_head_yaw(self, yaw: F) -> HrtfConfig<F> {
        HrtfConfig {
            left_azimuth_deg: self.left_azimuth_deg,
            right_azimuth_deg: self.right_azimuth_deg,
            elevation_deg: self.elevation_deg,
            wet: self.wet,
            head_scale: self.head_scale,
            auto_spin_hz: self.auto_spin_hz,
            room_reverb: self.room_reverb,
            head_yaw_deg: yaw,
        }
    }
}

/// Spatial mode together with the HRTF parameters.
#[derive(Debug, Clone, Copy)]
pub struct SpatialConfig<F> {
    /// Active spatial mode.
    pub mode: SpatialMode,
    /// HRTF parameters (used when the mode is [`SpatialMode::Hrtf`]).
    pub hrtf: HrtfConfig<F>,
}

/// The daemon's whole running configuration.
#[derive(Debug, Clone)]
pub struct DspConfig<F> {
    /// Sample rate negotiated with the audio server.
    pub sample_rate: u32,
    /// Block size in frames.
    pub quantum: u32,
    /// Parametric EQ bands, applied in order to both channels.
    pub peq: Vec<PeqBand<F>>,
    /// Crossfeed settings.
    pub crossfeed: CrossfeedConfig<F>,
    /// Spatial settings.
    pub spatial: SpatialConfig<F>,
    /// Output gain in dB applied after all processing.
    pub output_gain_db: F,
}

/// The value of a [`DspConfig`], with its bands as a sequence.
pub struct DspConfigView<F> {
    pub sample_rate: u32,
    pub quantum: u32,
    pub peq: Seq<PeqBand<F>>,
    pub crossfeed: CrossfeedConfig<F>,
    pub spatial: SpatialConfig<F>,
    pub output_gain_db: F,
}

impl<F> View for DspConfig<F> {
    type V = DspConfigView<F>;

    open spec fn view(&self) -> DspConfigView<F> {
        DspConfigView {
            sample_rate: self.sample_rate,
            quantum: self.quantum,
            peq: self.peq@,
            crossfeed: self.crossfeed,
            spatial: self.spatial,
            output_gain_db: self.output_gain_db,
        }
    }
}

impl<F> DspConfigView<F> {
    /// The same configuration with band `i` replaced by `band`.
    pub open spec fn with_band(self, i: int, band: PeqBand<F>) -> DspConfigView<F> {
        DspConfigView {
            sample_rate: self.sample_rate,
            quantum: self.quantum,
            peq: self.peq.update(i, band),
            crossfeed: self.crossfeed,
            spatial: self.spatial,
            output_gain_db: self.output_gain_db,
        }
    }

    /// The same configuration with the head-tracking yaw replaced.
    pub open spec fn with_head_yaw(self, yaw: F) -> DspConfigView<F> {
        DspConfigView {
            sample_rate: self.sample_rate,
            quantum: self.quantum,
            peq: self.peq,
            crossfeed: self.crossfeed,
            spatial: SpatialConfig { mode: self.spatial.mode, hrtf: self.spatial.hrtf.with_head_yaw(yaw) },
            output_gain_db: self.output_gain_db,
        }
    }
}

/// Commands sent from the control client to the daemon.
#[derive(Debug)]
pub enum IpcCommand<F> {
    /// Replace the entire running configuration.
    SetConfig { config: DspConfig<F> },
    /// Enable or disable one parametric band by index.
    SetBandEnabled { band: usize, enabled: bool },
    /// Set the gain of one parametric band.
    SetBandGain { band: usize, gain_db: F },
    /// Head-tracking update; the daemon does not write it to disk.
    SetHeadYaw { yaw_deg: F },
    /// Reload the configuration from disk.
    ReloadConfig,
    /// Ask the daemon for its running configuration.
    GetConfig,
    /// Shut the daemon down.
    Shutdown,
}

/// Responses sent from the daemon to the control client.
#[derive(Debug)]
pub enum IpcResponse<F> {
    /// The command was carried out.
    Ack,
    Config { config: DspConfig<F> },
    Error { message: String },
}

} // verus!

verus! {

/// What the daemon found at the configuration path.
#[derive(Debug)]
pub enum ConfigFile<F> {
    /// The file could not be read (usually: it does not exist yet); the
    /// reader's error message.
    Unreadable(String),
    /// The file was read but does not hold a valid configuration; the
    /// parser's error message.
    Malformed(String),
    /// The file holds this configuration.
    Parsed(DspConfig<F>),
}

/// Chooses the configuration the daemon starts with, and whether it writes
/// the factory `defaults` to the configuration path: a readable, valid file
/// is used as it is; otherwise the daemon runs the defaults, and writes them
/// only where no file could be read, so a malformed file is never
/// overwritten.
pub fn startup_config<F>(file: ConfigFile<F>, defaults: DspConfig<F>) -> (r: (DspConfig<F>, bool))
    ensures
        match file {
            ConfigFile::Parsed(c) => r.0@ == c@ && !r.1,
            ConfigFile::Malformed(_) => r.0@ == defaults@ && !r.1,
            ConfigFile::Unreadable(_) => r.0@ == defaults@ && r.1,
        },
{
    match file {
        ConfigFile::Parsed(c) => (c, false),
        ConfigFile::Malformed(_) => (defaults, false),
        ConfigFile::Unreadable(_) => (defaults, true),
    }
}

/// Why a reload left the running configuration as it was.
#[derive(Debug)]
pub enum ReloadError {
    /// The configuration file could not be read; the reader's message.
    Read(String),
    /// The configuration file does not hold a valid configuration; the
    /// parser's message.
    Parse(String),
}

/// The outcome of a reload request: the configuration the file holds, which
/// then becomes the running configuration (and is not written back to
/// disk), or the error that leaves the running configuration unchanged.
pub fn reload_outcome<F>(file: ConfigFile<F>) -> (r: Result<DspConfig<F>, ReloadError>)
    ensures
        match file {
            ConfigFile::Parsed(c) => r matches Ok(x) && x@ == c@,
            ConfigFile::Unreadable(m) => r matches Err(ReloadError::Read(e)) && e@ == m@,
            ConfigFile::Malformed(m) => r matches Err(ReloadError::Parse(e)) && e@ == m@,
        },
{
    match file {
        ConfigFile::Parsed(c) => Ok(c),
        ConfigFile::Unreadable(m) => Err(ReloadError::Read(m)),
        ConfigFile::Malformed(m) => Err(ReloadError::Parse(m)),
    }
}

} // verus!
