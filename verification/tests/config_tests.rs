use kz_dsp::config::{
    default_quantum, default_sample_rate, startup_config, reload_outcome, yes, ConfigFile, ReloadError, CrossfeedConfig, DspConfig, FilterType, HrtfConfig,
    IpcCommand, IpcResponse, PeqBand, SpatialConfig, SpatialMode,
};
use kz_dsp::ipc::{ack_from_response, config_from_response, dispatch, ClientError, Dispatch};

fn band(freq: f32, gain_db: f32) -> PeqBand<f32> {
    PeqBand { freq, gain_db, q: 1.0, filter_type: FilterType::Peaking, enabled: true }
}

fn sample_config() -> DspConfig<f32> {
    DspConfig {
        sample_rate: 48_000,
        quantum: 256,
        peq: vec![band(55.0, 3.5), band(200.0, -2.5), band(400.0, -1.8)],
        crossfeed: CrossfeedConfig { enabled: false, cutoff_hz: 700.0, feed_level: 0.45, delay_samples: 14.4 },
        spatial: SpatialConfig {
            mode: SpatialMode::Hrtf,
            hrtf: HrtfConfig {
                left_azimuth_deg: -30.0,
                right_azimuth_deg: 30.0,
                elevation_deg: 0.0,
                wet: 1.0,
                head_scale: 1.0,
                auto_spin_hz: 0.0,
                room_reverb: 0.2,
                head_yaw_deg: 0.0,
            },
        },
        output_gain_db: -3.0,
    }
}

#[test]
fn defaults() {
    assert_eq!(default_sample_rate(), 48_000);
    assert_eq!(default_quantum(), 256);
    assert!(yes());
    assert_eq!(SpatialMode::default(), SpatialMode::Off);
}

#[test]
fn get_config_sends_running_config() {
    match dispatch(IpcCommand::GetConfig, sample_config()) {
        Dispatch::SendConfig(c) => {
            assert_eq!(c.peq.len(), 3);
            assert_eq!(c.output_gain_db, -3.0);
        }
        other => panic!("unexpected {other:?}"),
    }
}

#[test]
fn set_config_commits_and_persists() {
    let mut new_cfg = sample_config();
    new_cfg.quantum = 512;
    new_cfg.peq.truncate(1);
    match dispatch(IpcCommand::SetConfig { config: new_cfg }, sample_config()) {
        Dispatch::Commit { config, persist } => {
            assert!(persist);
            assert_eq!(config.quantum, 512);
            assert_eq!(config.peq.len(), 1);
        }
        other => panic!("unexpected {other:?}"),
    }
}

#[test]
fn read_after_write() {
    let mut new_cfg = sample_config();
    new_cfg.output_gain_db = 1.5;
    let committed = match dispatch(IpcCommand::SetConfig { config: new_cfg }, sample_config()) {
        Dispatch::Commit { config, .. } => config,
        other => panic!("unexpected {other:?}"),
    };
    match dispatch(IpcCommand::GetConfig, committed) {
        Dispatch::SendConfig(c) => assert_eq!(c.output_gain_db, 1.5),
        other => panic!("unexpected {other:?}"),
    }
}

#[test]
fn set_band_enabled_changes_only_that_band() {
    match dispatch(IpcCommand::SetBandEnabled { band: 1, enabled: false }, sample_config()) {
        Dispatch::Commit { config, persist } => {
            assert!(persist);
            assert!(config.peq[0].enabled);
            assert!(!config.peq[1].enabled);
            assert_eq!(config.peq[1].gain_db, -2.5);
            assert_eq!(config.peq[1].freq, 200.0);
            assert!(config.peq[2].enabled);
        }
        other => panic!("unexpected {other:?}"),
    }
}

#[test]
fn set_band_gain_changes_only_that_gain() {
    match dispatch(IpcCommand::SetBandGain { band: 2, gain_db: 6.0 }, sample_config()) {
        Dispatch::Commit { config, persist } => {
            assert!(persist);
            assert_eq!(config.peq[2].gain_db, 6.0);
            assert_eq!(config.peq[2].freq, 400.0);
            assert_eq!(config.peq[0].gain_db, 3.5);
            assert_eq!(config.peq[1].gain_db, -2.5);
        }
        other => panic!("unexpected {other:?}"),
    }
}

#[test]
fn band_edit_is_idempotent() {
    let once = match dispatch(IpcCommand::SetBandGain { band: 0, gain_db: -4.0 }, sample_config()) {
        Dispatch::Commit { config, .. } => config,
        other => panic!("unexpected {other:?}"),
    };
    let twice = match dispatch(IpcCommand::SetBandGain { band: 0, gain_db: -4.0 }, once) {
        Dispatch::Commit { config, .. } => config,
        other => panic!("unexpected {other:?}"),
    };
    assert_eq!(twice.peq[0].gain_db, -4.0);
    assert_eq!(twice.peq.len(), 3);
}

#[test]
fn band_out_of_range_is_refused() {
    assert!(matches!(
        dispatch(IpcCommand::SetBandEnabled { band: 3, enabled: true }, sample_config()),
        Dispatch::BandOutOfRange { band: 3 }
    ));
    assert!(matches!(
        dispatch(IpcCommand::SetBandGain { band: 99, gain_db: 1.0 }, sample_config()),
        Dispatch::BandOutOfRange { band: 99 }
    ));
}

#[test]
fn head_yaw_is_not_persisted() {
    match dispatch(IpcCommand::SetHeadYaw { yaw_deg: 25.0 }, sample_config()) {
        Dispatch::Commit { config, persist } => {
            assert!(!persist);
            assert_eq!(config.spatial.hrtf.head_yaw_deg, 25.0);
            assert_eq!(config.spatial.hrtf.left_azimuth_deg, -30.0);
            assert_eq!(config.peq.len(), 3);
        }
        other => panic!("unexpected {other:?}"),
    }
}

#[test]
fn reload_and_shutdown() {
    assert!(matches!(dispatch(IpcCommand::ReloadConfig, sample_config()), Dispatch::Reload));
    assert!(matches!(dispatch(IpcCommand::Shutdown, sample_config()), Dispatch::Shutdown));
}

#[test]
fn client_reads_config_response() {
    let r = config_from_response(IpcResponse::Config { config: sample_config() });
    assert_eq!(r.unwrap().sample_rate, 48_000);
    let r = config_from_response::<f32>(IpcResponse::Error { message: "boom".to_string() });
    assert!(matches!(r, Err(ClientError::DaemonError(m)) if m == "boom"));
    let r = config_from_response::<f32>(IpcResponse::Ack);
    assert!(matches!(r, Err(ClientError::UnexpectedResponse)));
}

#[test]
fn client_reads_ack_response() {
    assert!(ack_from_response::<f32>(IpcResponse::Ack).is_ok());
    let r = ack_from_response::<f32>(IpcResponse::Error { message: "Band 12 out of range".to_string() });
    assert!(matches!(r, Err(ClientError::Rejected(m)) if m == "Band 12 out of range"));
    let r = ack_from_response(IpcResponse::Config { config: sample_config() });
    assert!(matches!(r, Err(ClientError::UnexpectedResponse)));
}

#[test]
fn startup_uses_parsed_file() {
    let mut file_cfg = sample_config();
    file_cfg.quantum = 1024;
    let (cfg, write) = startup_config(ConfigFile::Parsed(file_cfg), sample_config());
    assert_eq!(cfg.quantum, 1024);
    assert!(!write);
}

#[test]
fn startup_keeps_malformed_file() {
    let (cfg, write) = startup_config::<f32>(ConfigFile::Malformed("expected `=`".to_string()), sample_config());
    assert_eq!(cfg.quantum, 256);
    assert!(!write);
}

#[test]
fn startup_writes_defaults_when_unreadable() {
    let (cfg, write) = startup_config::<f32>(ConfigFile::Unreadable("No such file".to_string()), sample_config());
    assert_eq!(cfg.peq.len(), 3);
    assert!(write);
}

#[test]
fn reload_runs_parsed_file() {
    let mut file_cfg = sample_config();
    file_cfg.sample_rate = 96_000;
    let r = reload_outcome(ConfigFile::Parsed(file_cfg));
    assert_eq!(r.unwrap().sample_rate, 96_000);
}

#[test]
fn reload_reports_read_error() {
    let r = reload_outcome::<f32>(ConfigFile::Unreadable("No such file".to_string()));
    assert!(matches!(r, Err(ReloadError::Read(m)) if m == "No such file"));
}

#[test]
fn reload_reports_parse_error() {
    let r = reload_outcome::<f32>(ConfigFile::Malformed("expected `=`".to_string()));
    assert!(matches!(r, Err(ReloadError::Parse(m)) if m == "expected `=`"));
}
