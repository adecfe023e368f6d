//! Encoder settings as a scripting caller describes them, and the
//! single-use discipline of one encoder object.

use vstd::prelude::*;
use crate::command::same_text;

verus! {

#[derive(Clone, Copy, Debug, PartialEq, Eq, Structural)]
pub enum VideoSubType {
    Hevc,
    H264,
}

#[derive(Clone, Copy, Debug, PartialEq, Eq, Structural)]
pub enum AudioSubType {
    Aac,
}

#[derive(Clone, Copy, Debug, PartialEq, Eq, Structural)]
pub enum ContainerSubType {
    Mpeg4,
}

/// A settings record that names a sub type this library does not offer.
#[derive(Clone, Copy, Debug, PartialEq, Eq, Structural)]
pub enum SettingsError {
    InvalidVideoSubType,
    InvalidAudioSubType,
    InvalidContainerSubType,
}

impl SettingsError {
    pub open spec fn message_spec(self) -> Seq<char> {
        match self {
            SettingsError::InvalidVideoSubType => "Invalid video sub_type"@,
            SettingsError::InvalidAudioSubType => "Invalid audio sub_type"@,
            SettingsError::InvalidContainerSubType => "Invalid container sub_type"@,
        }
    }

    pub fn message(&self) -> (r: &'static str)
        ensures
            r@ == self.message_spec(),
    {
        match self {
            SettingsError::InvalidVideoSubType => "Invalid video sub_type",
            SettingsError::InvalidAudioSubType => "Invalid audio sub_type",
            SettingsError::InvalidContainerSubType => "Invalid container sub_type",
        }
    }
}

#[derive(Clone, Copy, Debug, PartialEq, Eq, Structural)]
pub struct VideoSettings {
    pub bitrate: u32,
    pub width: u32,
    pub height: u32,
    pub frame_rate: u32,
    pub sub_type: VideoSubType,
}

#[derive(Clone, Copy, Debug, PartialEq, Eq, Structural)]
pub struct AudioSettings {
    pub bitrate: u32,
    pub channel_count: u32,
    pub sample_rate: u32,
    pub bits_per_sample: u32,
    pub sub_type: AudioSubType,
}

#[derive(Clone, Copy, Debug, PartialEq, Eq, Structural)]
pub struct ContainerSettings {
    pub sub_type: ContainerSubType,
}

pub open spec fn video_sub_type_of(name: Seq<char>) -> Option<VideoSubType> {
    if name == "HEVC"@ {
        Some(VideoSubType::Hevc)
    } else if name == "H264"@ {
        Some(VideoSubType::H264)
    } else {
        None
    }
}

/// Builds video settings; the sub type is `"HEVC"` or `"H264"`.
pub fn video_settings(bitrate: u32, width: u32, height: u32, frame_rate: u32, sub_type: &str) -> (r:
    Result<VideoSettings, SettingsError>)
    ensures
        match video_sub_type_of(sub_type@) {
            Some(t) => r == Ok::<VideoSettings, SettingsError>(
                VideoSettings { bitrate, width, height, frame_rate, sub_type: t },
            ),
            None => r == Err::<VideoSettings, SettingsError>(SettingsError::InvalidVideoSubType),
        },
{
    let t = if same_text(sub_type, "HEVC") {
        VideoSubType::Hevc
    } else if same_text(sub_type, "H264") {
        VideoSubType::H264
    } else {
        return Err(SettingsError::InvalidVideoSubType);
    };
    Ok(VideoSettings { bitrate, width, height, frame_rate, sub_type: t })
}

/// Builds audio settings; the sub type is `"AAC"`.
pub fn audio_settings(
    bitrate: u32,
    channel_count: u32,
    sample_rate: u32,
    bits_per_sample: u32,
    sub_type: &str,
) -> (r: Result<AudioSettings, SettingsError>)
    ensures
        sub_type@ == "AAC"@ ==> r == Ok::<AudioSettings, SettingsError>(
            AudioSettings {
                bitrate,
                channel_count,
                sample_rate,
                bits_per_sample,
                sub_type: AudioSubType::Aac,
            },
        ),
        sub_type@ != "AAC"@ ==> r == Err::<AudioSettings, SettingsError>(
            SettingsError::InvalidAudioSubType,
        ),
{
    if !same_text(sub_type, "AAC") {
        return Err(SettingsError::InvalidAudioSubType);
    }
    Ok(AudioSettings { bitrate, channel_count, sample_rate, bits_per_sample, sub_type: AudioSubType::Aac })
}

/// Builds container settings; the sub type is `"MPEG4"`.
pub fn container_settings(sub_type: &str) -> (r: Result<ContainerSettings, SettingsError>)
    ensures
        sub_type@ == "MPEG4"@ ==> r == Ok::<ContainerSettings, SettingsError>(
            ContainerSettings { sub_type: ContainerSubType::Mpeg4 },
        ),
        sub_type@ != "MPEG4"@ ==> r == Err::<ContainerSettings, SettingsError>(
            SettingsError::InvalidContainerSubType,
        ),
{
    if !same_text(sub_type, "MPEG4") {
        return Err(SettingsError::InvalidContainerSubType);
    }
    Ok(ContainerSettings { sub_type: ContainerSubType::Mpeg4 })
}

/// The one error of a single-use encoder: it has already been finalized.
#[derive(Clone, Copy, Debug, PartialEq, Eq, Structural)]
pub struct AlreadyFinalized;

impl AlreadyFinalized {
    pub fn message(&self) -> (r: &'static str)
        ensures
            r@ == "VideoEncoder has already been finalized."@,
    {
        "VideoEncoder has already been finalized."
    }
}

/// Whether one encoder object may still be fed and finished.
pub struct EncoderLifecycle {
    finalized: bool,
}

impl View for EncoderLifecycle {
    type V = bool;

    /// True once the encoder has been handed out for finishing.
    closed spec fn view(&self) -> bool {
        self.finalized
    }
}

/// Finishing: the first call hands the encoder out, every later one fails.
pub open spec fn finish_step(finalized: bool) -> (bool, Result<(), AlreadyFinalized>) {
    if finalized {
        (true, Err(AlreadyFinalized))
    } else {
        (true, Ok(()))
    }
}

impl EncoderLifecycle {
    pub fn new() -> (r: EncoderLifecycle)
        ensures
            r@ == false,
    {
        EncoderLifecycle { finalized: false }
    }

    pub fn is_finalized(&self) -> (r: bool)
        ensures
            r == self@,
    {
        self.finalized
    }

    /// A frame may be sent only before finishing.
    pub fn check_feed(&self) -> (r: Result<(), AlreadyFinalized>)
        ensures
            r is Ok <==> !self@,
    {
        if self.finalized {
            Err(AlreadyFinalized)
        } else {
            Ok(())
        }
    }

    /// Marks the encoder finished; `Ok` means the caller now owns the one
    /// finish of this encoder.
    pub fn begin_finish(&mut self) -> (r: Result<(), AlreadyFinalized>)
        ensures
            (final(self)@, r) == finish_step(old(self)@),
    {
        if self.finalized {
            Err(AlreadyFinalized)
        } else {
            self.finalized = true;
            Ok(())
        }
    }
}

/// Finishing twice in a row never finishes twice: the second attempt fails
/// whatever the first did, and afterwards no frame may be sent.
pub proof fn lemma_finish_once(finalized: bool)
    ensures
        finish_step(finish_step(finalized).0).1 is Err,
        finish_step(finalized).0,
        finish_step(finalized).1 is Ok <==> !finalized,
{
}

} // verus!
