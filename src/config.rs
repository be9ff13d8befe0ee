//! The program's configuration, its default values, and the checks that
//! decide, before anything is started, whether a configuration can run.
use vstd::prelude::*;
use crate::pdradio_error::PDRadioError;

verus! {

pub struct Config {
    pub pd: PDConfig,
    pub audio: AudioConfig,
    pub shout: ShoutConfig,
    pub metadata: MetadataConfig,
    pub osc: OSCConfig,
    pub http: HTTPConfig,
}

pub struct PDConfig {
    /// The path of the patch to load.
    pub patch: String,
}

pub struct AudioConfig {
    pub channels: i32,
    pub samplerate: i32,
    /// The number of frames in each block handed to the encoder.
    pub blocksize: usize,
}

pub fn audio_channels_default() -> (r: i32)
    ensures
        r == 2,
{
    2
}

pub fn audio_samplerate_default() -> (r: i32)
    ensures
        r == 44100,
{
    44100
}

pub fn audio_blocksize_default() -> (r: usize)
    ensures
        r == 4096,
{
    4096
}

/// The protocol spoken to the broadcast server.
#[derive(PartialEq, Eq, Structural, Clone, Copy, Debug)]
pub enum ShoutProtocol {
    HTTP,
    XAudioCast,
    Icy,
    RoarAudio,
}

/// The audio format announced to the broadcast server.
#[derive(PartialEq, Eq, Structural, Clone, Copy, Debug)]
pub enum ShoutFormat {
    Ogg,
    MP3,
    Webm,
    WebmAudio,
}

pub struct ShoutConfig {
    pub host: String,
    pub port: u16,
    pub user: String,
    pub password: String,
    pub mount: String,
    pub protocol: ShoutProtocol,
    pub format: ShoutFormat,
}

pub fn shout_port_default() -> (r: u16)
    ensures
        r == 8000,
{
    8000
}

pub fn shout_protocol_default() -> (r: ShoutProtocol)
    ensures
        r == ShoutProtocol::HTTP,
{
    ShoutProtocol::HTTP
}

pub fn shout_format_default() -> (r: ShoutFormat)
    ensures
        r == ShoutFormat::Ogg,
{
    ShoutFormat::Ogg
}

pub struct OSCConfig {
    pub listen: bool,
    pub host: String,
    pub port: String,
}

pub fn osc_listen_default() -> (r: bool)
    ensures
        r == false,
{
    false
}

pub fn osc_host_default() -> (r: String)
    ensures
        r@ == "0.0.0.0"@,
{
    "0.0.0.0".to_owned()
}

pub fn osc_port_default() -> (r: String)
    ensures
        r@ == "8080"@,
{
    "8080".to_owned()
}

pub struct HTTPConfig {
    pub listen: bool,
    pub host: String,
    pub port: String,
}

pub fn http_listen_default() -> (r: bool)
    ensures
        r == true,
{
    true
}

pub fn http_host_default() -> (r: String)
    ensures
        r@ == "0.0.0.0"@,
{
    "0.0.0.0".to_owned()
}

pub fn http_port_default() -> (r: String)
    ensures
        r@ == "9001"@,
{
    "9001".to_owned()
}

/// Which descriptive field of the stream a metadata entry sets.
#[derive(PartialEq, Eq, Structural, Clone, Copy, Debug)]
pub enum MetaKind {
    Name,
    Description,
    Genre,
    Url,
}

/// One metadata entry attached to the broadcast connection.
pub struct ShoutMeta {
    pub kind: MetaKind,
    pub value: String,
}

pub struct MetadataConfig {
    pub name: Option<String>,
    pub description: Option<String>,
    pub genre: Option<String>,
    pub url: Option<String>,
}

pub open spec fn entry(kind: MetaKind, value: Option<String>) -> Seq<(MetaKind, Seq<char>)> {
    match value {
        Some(v) => seq![(kind, v@)],
        None => Seq::empty(),
    }
}

/// The entries of the fields that are set, in the order name, description,
/// genre, url.
pub open spec fn metadata_entries(m: MetadataConfig) -> Seq<(MetaKind, Seq<char>)> {
    entry(MetaKind::Name, m.name) + entry(MetaKind::Description, m.description) + entry(
        MetaKind::Genre,
        m.genre,
    ) + entry(MetaKind::Url, m.url)
}

pub open spec fn meta_view(v: Seq<ShoutMeta>) -> Seq<(MetaKind, Seq<char>)> {
    v.map_values(|e: ShoutMeta| (e.kind, e.value@))
}

fn push_entry(v: &mut Vec<ShoutMeta>, kind: MetaKind, value: &Option<String>)
    ensures
        meta_view(final(v)@) == meta_view(old(v)@) + entry(kind, *value),
{
    match value {
        Some(s) => {
            let ghost before = v@;
            v.push(ShoutMeta { kind, value: s.clone() });
            assert(meta_view(v@) =~= meta_view(before) + entry(kind, *value));
        },
        None => {
            assert(meta_view(v@) =~= meta_view(v@) + entry(kind, *value));
        },
    }
}

impl MetadataConfig {
    /// The metadata entries to attach to the connection.
    pub fn to_shout_metadata(&self) -> (r: Vec<ShoutMeta>)
        ensures
            meta_view(r@) == metadata_entries(*self),
    {
        let mut v: Vec<ShoutMeta> = Vec::new();
        assert(meta_view(v@) =~= Seq::empty());
        push_entry(&mut v, MetaKind::Name, &self.name);
        push_entry(&mut v, MetaKind::Description, &self.description);
        push_entry(&mut v, MetaKind::Genre, &self.genre);
        push_entry(&mut v, MetaKind::Url, &self.url);
        assert(meta_view(v@) =~= metadata_entries(*self));
        v
    }
}

pub open spec fn unsupported_format_text() -> Seq<char> {
    "Only support OGG format for shoutcast currently"@
}

pub open spec fn samplerate_error_text() -> Seq<char> {
    "Error setting encoder samplerate: out of range integral type conversion attempted"@
}

pub open spec fn channels_error_text() -> Seq<char> {
    "Error setting encoder channels: out of range integral type conversion attempted"@
}

pub open spec fn stereo_error_text() -> Seq<char> {
    "Error setting encoder channels: only stereo output (2 channels) is supported"@
}

pub open spec fn blocksize_error_text() -> Seq<char> {
    "Error setting block size: it must be positive and fit the engine's buffer"@
}

/// Only Ogg can be broadcast.
pub fn check_format(format: ShoutFormat) -> (r: Result<(), PDRadioError>)
    ensures
        r is Ok <==> format == ShoutFormat::Ogg,
        r matches Err(e) ==> e.0@ == unsupported_format_text(),
{
    match format {
        ShoutFormat::Ogg => Ok(()),
        _ => Err(PDRadioError("Only support OGG format for shoutcast currently".to_owned())),
    }
}

/// The encoder's parameters: a sample rate and a channel count, both
/// positive, the count at most 255.
pub struct EncoderSettings {
    pub samplerate: u32,
    pub channels: u8,
}

/// Checks the configured sample rate and channel count for the encoder.
pub fn encoder_settings(samplerate: i32, channels: i32) -> (r: Result<EncoderSettings, PDRadioError>)
    ensures
        r is Ok <==> samplerate > 0 && 0 < channels <= 255,
        r matches Ok(s) ==> s.samplerate == samplerate && s.channels == channels,
        samplerate <= 0 ==> (r matches Err(e) && e.0@ == samplerate_error_text()),
        samplerate > 0 && !(0 < channels <= 255) ==> (r matches Err(e) && e.0@
            == channels_error_text()),
{
    if samplerate <= 0 {
        return Err(
            PDRadioError(
                "Error setting encoder samplerate: out of range integral type conversion attempted".to_owned(),
            ),
        );
    }
    if channels <= 0 || channels > 255 {
        return Err(
            PDRadioError(
                "Error setting encoder channels: out of range integral type conversion attempted".to_owned(),
            ),
        );
    }
    Ok(EncoderSettings { samplerate: samplerate as u32, channels: channels as u8 })
}

/// What the program needs, once the configuration is checked, to start the
/// tick loop: the encoder's parameters and the block size.
///
/// The tick loop takes two channels from the engine's output and hands two
/// to the encoder, so only a stereo configuration can run: a channel count
/// the encoder would accept but other than 2 is refused at startup.
pub struct StartupPlan {
    pub encoder: EncoderSettings,
    pub blocksize: usize,
}

pub open spec fn blocksize_ok(blocksize: usize) -> bool {
    0 < blocksize && 2 * blocksize <= i32::MAX
}

/// Checks a configuration before anything is started.  The format comes
/// first: a format other than Ogg fails here, so no connection is ever
/// attempted for it.  Then the encoder's parameters, then the channel count,
/// which must be 2, then the block size (positive, and a stereo block of it
/// must fit the engine's buffer length).
pub fn plan_startup(config: &Config) -> (r: Result<StartupPlan, PDRadioError>)
    ensures
        r is Ok <==> config.shout.format == ShoutFormat::Ogg && config.audio.samplerate > 0
            && config.audio.channels == 2 && blocksize_ok(config.audio.blocksize),
        config.shout.format != ShoutFormat::Ogg ==> (r matches Err(e) && e.0@
            == unsupported_format_text()),
        r matches Ok(p) ==> p.encoder.samplerate == config.audio.samplerate && p.encoder.channels
            == config.audio.channels && p.blocksize == config.audio.blocksize,
        config.shout.format == ShoutFormat::Ogg && config.audio.samplerate <= 0 ==> (r matches Err(e)
            && e.0@ == samplerate_error_text()),
        config.shout.format == ShoutFormat::Ogg && config.audio.samplerate > 0 && !(0
            < config.audio.channels <= 255) ==> (r matches Err(e) && e.0@ == channels_error_text()),
        config.shout.format == ShoutFormat::Ogg && config.audio.samplerate > 0 && 0
            < config.audio.channels <= 255 && config.audio.channels != 2 ==> (r matches Err(e)
            && e.0@ == stereo_error_text()),
        config.shout.format == ShoutFormat::Ogg && config.audio.samplerate > 0
            && config.audio.channels == 2 && !blocksize_ok(config.audio.blocksize) ==> (r matches Err(
            e,
        ) && e.0@ == blocksize_error_text()),
{
    match check_format(config.shout.format) {
        Ok(()) => {},
        Err(e) => {
            return Err(e);
        },
    }
    let encoder = match encoder_settings(config.audio.samplerate, config.audio.channels) {
        Ok(s) => s,
        Err(e) => {
            return Err(e);
        },
    };
    if config.audio.channels != 2 {
        return Err(
            PDRadioError(
                "Error setting encoder channels: only stereo output (2 channels) is supported".to_owned(),
            ),
        );
    }
    if config.audio.blocksize == 0 || config.audio.blocksize > 1073741823 {
        return Err(
            PDRadioError(
                "Error setting block size: it must be positive and fit the engine's buffer".to_owned(),
            ),
        );
    }
    Ok(StartupPlan { encoder, blocksize: config.audio.blocksize })
}

} // verus!
