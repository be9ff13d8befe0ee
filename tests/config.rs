use pdradio::config::{
    audio_blocksize_default, audio_channels_default, audio_samplerate_default, check_format,
    encoder_settings, http_host_default, http_listen_default, http_port_default,
    osc_host_default, osc_listen_default, osc_port_default, plan_startup, shout_format_default,
    shout_port_default, shout_protocol_default, AudioConfig, Config, HTTPConfig, MetaKind,
    MetadataConfig, OSCConfig, PDConfig, ShoutConfig, ShoutFormat, ShoutProtocol,
};
use pdradio::pdradio_error::{PDRadioError, ShoutConnError, ShoutErr};

fn config(format: ShoutFormat, samplerate: i32, channels: i32, blocksize: usize) -> Config {
    Config {
        pd: PDConfig { patch: "main.pd".to_string() },
        audio: AudioConfig { channels, samplerate, blocksize },
        shout: ShoutConfig {
            host: "localhost".to_string(),
            port: 8000,
            user: "source".to_string(),
            password: "SECRET-REDACTED".to_string(),
            mount: "/radio.ogg".to_string(),
            protocol: ShoutProtocol::HTTP,
            format,
        },
        metadata: MetadataConfig { name: None, description: None, genre: None, url: None },
        osc: OSCConfig { listen: false, host: osc_host_default(), port: osc_port_default() },
        http: HTTPConfig { listen: true, host: http_host_default(), port: http_port_default() },
    }
}

#[test]
fn defaults() {
    assert_eq!(audio_channels_default(), 2);
    assert_eq!(audio_samplerate_default(), 44100);
    assert_eq!(audio_blocksize_default(), 4096);
    assert_eq!(shout_port_default(), 8000);
    assert_eq!(shout_protocol_default(), ShoutProtocol::HTTP);
    assert_eq!(shout_format_default(), ShoutFormat::Ogg);
    assert!(!osc_listen_default());
    assert_eq!(osc_host_default(), "0.0.0.0");
    assert_eq!(osc_port_default(), "8080");
    assert!(http_listen_default());
    assert_eq!(http_host_default(), "0.0.0.0");
    assert_eq!(http_port_default(), "9001");
}

#[test]
fn only_ogg_passes_the_format_check() {
    assert!(check_format(ShoutFormat::Ogg).is_ok());
    for f in [ShoutFormat::MP3, ShoutFormat::Webm, ShoutFormat::WebmAudio] {
        let e = check_format(f).err().unwrap();
        assert_eq!(e.0, "Only support OGG format for shoutcast currently");
    }
}

#[test]
fn non_ogg_fails_startup_before_anything_else() {
    for f in [ShoutFormat::MP3, ShoutFormat::Webm, ShoutFormat::WebmAudio] {
        let e = plan_startup(&config(f, 0, 0, 0)).err().unwrap();
        assert_eq!(e.0, "Only support OGG format for shoutcast currently");
    }
}

#[test]
fn valid_startup_plan() {
    let p = plan_startup(&config(ShoutFormat::Ogg, 48000, 2, 4096)).ok().unwrap();
    assert_eq!(p.encoder.samplerate, 48000);
    assert_eq!(p.encoder.channels, 2);
    assert_eq!(p.blocksize, 4096);
}

#[test]
fn only_stereo_starts() {
    for ch in [1, 3, 255] {
        let e = plan_startup(&config(ShoutFormat::Ogg, 48000, ch, 4096)).err().unwrap();
        assert_eq!(e.0, "Error setting encoder channels: only stereo output (2 channels) is supported");
    }
    let e = plan_startup(&config(ShoutFormat::Ogg, 48000, 0, 4096)).err().unwrap();
    assert_eq!(e.0, "Error setting encoder channels: out of range integral type conversion attempted");
}

#[test]
fn zero_blocksize_is_refused() {
    let e = plan_startup(&config(ShoutFormat::Ogg, 48000, 2, 0)).err().unwrap();
    assert_eq!(e.0, "Error setting block size: it must be positive and fit the engine's buffer");
}

#[test]
fn encoder_settings_errors() {
    let e = encoder_settings(0, 2).err().unwrap();
    assert_eq!(e.0, "Error setting encoder samplerate: out of range integral type conversion attempted");
    let e = encoder_settings(-5, 0).err().unwrap();
    assert!(e.0.starts_with("Error setting encoder samplerate"));
    let e = encoder_settings(44100, 0).err().unwrap();
    assert_eq!(e.0, "Error setting encoder channels: out of range integral type conversion attempted");
    let e = encoder_settings(44100, 256).err().unwrap();
    assert!(e.0.starts_with("Error setting encoder channels"));
    let s = encoder_settings(44100, 255).ok().unwrap();
    assert_eq!((s.samplerate, s.channels), (44100, 255));
}

#[test]
fn metadata_entries_in_order() {
    let m = MetadataConfig {
        name: Some("Radio".to_string()),
        description: None,
        genre: Some("ambient".to_string()),
        url: Some("http://example.org".to_string()),
    };
    let v = m.to_shout_metadata();
    let got: Vec<(MetaKind, String)> = v.into_iter().map(|e| (e.kind, e.value)).collect();
    assert_eq!(
        got,
        vec![
            (MetaKind::Name, "Radio".to_string()),
            (MetaKind::Genre, "ambient".to_string()),
            (MetaKind::Url, "http://example.org".to_string())
        ]
    );
    let none = MetadataConfig { name: None, description: None, genre: None, url: None };
    assert!(none.to_shout_metadata().is_empty());
}

#[test]
fn error_messages() {
    assert_eq!(PDRadioError("boom".to_string()).message(), "There is an error: boom");
    assert_eq!(ShoutErr::NoConnect.into_error().0, "Shout: NoConnect");
    assert_eq!(ShoutErr::TLSBadCert.into_error().0, "Shout: TLSBadCert");
    assert_eq!(ShoutConnError::ShoutError(ShoutErr::Retry).into_error().0, "Shout: Retry");
    assert_eq!(ShoutConnError::NulError.into_error().0, "Shout: NulError");
}
