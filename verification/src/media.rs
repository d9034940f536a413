//! Plain-value model of what this library exchanges with the media engine.
//!
//! The engine itself is never called from here. Handles to its resources are
//! known by their identifiers; parameter blocks that the library only passes
//! along are kept as the text in which the client sent them.

use crate::view::views;
use vstd::prelude::*;
use vstd::string::*;

verus! {

/// Identifier of a stream that a participant sends.
#[derive(Debug, Clone, Copy, PartialEq, Eq, Hash, Structural)]
pub struct ProducerId(pub u128);

/// Identifier of a stream that a participant receives.
#[derive(Debug, Clone, Copy, PartialEq, Eq, Hash, Structural)]
pub struct ConsumerId(pub u128);

/// Identifier of a transport between a participant and the media engine.
#[derive(Debug, Clone, Copy, PartialEq, Eq, Hash, Structural)]
pub struct TransportId(pub u128);

/// Whether a stream carries sound or pictures.
#[derive(Debug, Clone, Copy, PartialEq, Eq, Hash, Structural)]
pub enum MediaKind {
    Audio,
    Video,
}

/// Why the media engine could not set up the routing context of a room. Each
/// variant carries the engine's own account of the failure.
#[derive(Debug, Clone, PartialEq, Eq)]
pub enum EngineFailure {
    /// No worker could be started.
    Worker(String),
    /// The worker could not create a router.
    Router(String),
}

/// How much a worker of the media engine logs.
#[derive(Debug, Clone, Copy, PartialEq, Eq, Structural)]
pub enum WorkerLogLevel {
    Debug,
    Warn,
    Error,
    Silent,
}

/// A subject that a worker of the media engine can log about.
#[derive(Debug, Clone, Copy, PartialEq, Eq, Structural)]
pub enum WorkerLogTag {
    Info,
    Ice,
    Dtls,
    Rtp,
    Srtp,
    Rtcp,
    Rtx,
    Bwe,
    Score,
    Simulcast,
    Svc,
    Sctp,
    Message,
}

/// The settings with which a worker of the media engine is started.
#[derive(Debug, Clone, PartialEq, Eq)]
pub struct WorkerSettings {
    pub log_level: WorkerLogLevel,
    pub log_tags: Vec<WorkerLogTag>,
}

/// The subjects that the worker of a room logs about.
pub open spec fn room_log_tags() -> Seq<WorkerLogTag> {
    seq![
        WorkerLogTag::Info,
        WorkerLogTag::Ice,
        WorkerLogTag::Dtls,
        WorkerLogTag::Rtp,
        WorkerLogTag::Srtp,
        WorkerLogTag::Rtcp,
        WorkerLogTag::Rtx,
        WorkerLogTag::Bwe,
        WorkerLogTag::Score,
        WorkerLogTag::Simulcast,
        WorkerLogTag::Svc,
        WorkerLogTag::Sctp,
        WorkerLogTag::Message,
    ]
}

/// The settings of the worker that serves a room: it logs everything, about
/// every subject.
pub fn worker_settings() -> (settings: WorkerSettings)
    ensures
        settings.log_level == WorkerLogLevel::Debug,
        settings.log_tags@ == room_log_tags(),
{
    let mut log_tags: Vec<WorkerLogTag> = Vec::new();
    log_tags.push(WorkerLogTag::Info);
    log_tags.push(WorkerLogTag::Ice);
    log_tags.push(WorkerLogTag::Dtls);
    log_tags.push(WorkerLogTag::Rtp);
    log_tags.push(WorkerLogTag::Srtp);
    log_tags.push(WorkerLogTag::Rtcp);
    log_tags.push(WorkerLogTag::Rtx);
    log_tags.push(WorkerLogTag::Bwe);
    log_tags.push(WorkerLogTag::Score);
    log_tags.push(WorkerLogTag::Simulcast);
    log_tags.push(WorkerLogTag::Svc);
    log_tags.push(WorkerLogTag::Sctp);
    log_tags.push(WorkerLogTag::Message);
    assert(log_tags@ =~= room_log_tags());
    WorkerSettings { log_level: WorkerLogLevel::Debug, log_tags }
}

/// The audio formats that a room offers.
#[derive(Debug, Clone, Copy, PartialEq, Eq, Structural)]
pub enum MimeTypeAudio {
    Opus,
}

/// The video formats that a room offers.
#[derive(Debug, Clone, Copy, PartialEq, Eq, Structural)]
pub enum MimeTypeVideo {
    Vp8,
}

/// A way in which the receiver of a stream reports back to its sender.
#[derive(Debug, Clone, Copy, PartialEq, Eq, Structural)]
pub enum RtcpFeedback {
    Nack,
    NackPli,
    CcmFir,
    GoogRemb,
    TransportCc,
}

/// A codec that a room accepts from its participants.
#[derive(Debug, Clone, PartialEq, Eq)]
pub enum RtpCodecCapability {
    Audio {
        mime_type: MimeTypeAudio,
        preferred_payload_type: Option<u8>,
        clock_rate: u32,
        channels: u8,
        parameters: Vec<(String, u32)>,
        rtcp_feedback: Vec<RtcpFeedback>,
    },
    Video {
        mime_type: MimeTypeVideo,
        preferred_payload_type: Option<u8>,
        clock_rate: u32,
        parameters: Vec<(String, u32)>,
        rtcp_feedback: Vec<RtcpFeedback>,
    },
}

/// What a `RtpCodecCapability` stands for: the same value, with texts and lists as
/// sequences.
pub enum RtpCodecCapabilityView {
    Audio {
        mime_type: MimeTypeAudio,
        preferred_payload_type: Option<u8>,
        clock_rate: u32,
        channels: u8,
        parameters: Seq<(Seq<char>, u32)>,
        rtcp_feedback: Seq<RtcpFeedback>,
    },
    Video {
        mime_type: MimeTypeVideo,
        preferred_payload_type: Option<u8>,
        clock_rate: u32,
        parameters: Seq<(Seq<char>, u32)>,
        rtcp_feedback: Seq<RtcpFeedback>,
    },
}

/// The views of the parameters of a codec, in order.
pub open spec fn parameter_views(parameters: Seq<(String, u32)>) -> Seq<(Seq<char>, u32)> {
    parameters.map_values(|p: (String, u32)| (p.0@, p.1))
}

impl View for RtpCodecCapability {
    type V = RtpCodecCapabilityView;

    open spec fn view(&self) -> RtpCodecCapabilityView {
        match *self {
            RtpCodecCapability::Audio {
                mime_type,
                preferred_payload_type,
                clock_rate,
                channels,
                parameters,
                rtcp_feedback,
            } => RtpCodecCapabilityView::Audio {
                mime_type,
                preferred_payload_type,
                clock_rate,
                channels,
                parameters: parameter_views(parameters@),
                rtcp_feedback: rtcp_feedback@,
            },
            RtpCodecCapability::Video {
                mime_type,
                preferred_payload_type,
                clock_rate,
                parameters,
                rtcp_feedback,
            } => RtpCodecCapabilityView::Video {
                mime_type,
                preferred_payload_type,
                clock_rate,
                parameters: parameter_views(parameters@),
                rtcp_feedback: rtcp_feedback@,
            },
        }
    }
}

/// The one audio codec that a room offers: Opus at 48 kHz in two channels,
/// with in-band error correction.
pub open spec fn offered_audio() -> RtpCodecCapabilityView {
    RtpCodecCapabilityView::Audio {
        mime_type: MimeTypeAudio::Opus,
        preferred_payload_type: None,
        clock_rate: 48000,
        channels: 2,
        parameters: seq![("useinbandfec"@, 1u32)],
        rtcp_feedback: seq![RtcpFeedback::TransportCc],
    }
}

/// The one video codec that a room offers: VP8 at 90 kHz.
pub open spec fn offered_video() -> RtpCodecCapabilityView {
    RtpCodecCapabilityView::Video {
        mime_type: MimeTypeVideo::Vp8,
        preferred_payload_type: None,
        clock_rate: 90000,
        parameters: Seq::empty(),
        rtcp_feedback: seq![
            RtcpFeedback::Nack,
            RtcpFeedback::NackPli,
            RtcpFeedback::CcmFir,
            RtcpFeedback::GoogRemb,
            RtcpFeedback::TransportCc,
        ],
    }
}

/// The codecs that a room accepts from its participants: one for audio and
/// one for video, in this order.
pub fn media_codecs() -> (codecs: Vec<RtpCodecCapability>)
    ensures
        views(codecs@) == seq![offered_audio(), offered_video()],
{
    let mut audio_parameters: Vec<(String, u32)> = Vec::new();
    audio_parameters.push((String::from_str("useinbandfec"), 1u32));
    assert(parameter_views(audio_parameters@) =~= seq![("useinbandfec"@, 1u32)]);
    let mut audio_feedback: Vec<RtcpFeedback> = Vec::new();
    audio_feedback.push(RtcpFeedback::TransportCc);
    assert(audio_feedback@ =~= seq![RtcpFeedback::TransportCc]);
    let audio = RtpCodecCapability::Audio {
        mime_type: MimeTypeAudio::Opus,
        preferred_payload_type: None,
        clock_rate: 48000,
        channels: 2,
        parameters: audio_parameters,
        rtcp_feedback: audio_feedback,
    };
    let video_parameters: Vec<(String, u32)> = Vec::new();
    assert(parameter_views(video_parameters@) =~= Seq::<(Seq<char>, u32)>::empty());
    let mut video_feedback: Vec<RtcpFeedback> = Vec::new();
    video_feedback.push(RtcpFeedback::Nack);
    video_feedback.push(RtcpFeedback::NackPli);
    video_feedback.push(RtcpFeedback::CcmFir);
    video_feedback.push(RtcpFeedback::GoogRemb);
    video_feedback.push(RtcpFeedback::TransportCc);
    assert(video_feedback@ =~= seq![
        RtcpFeedback::Nack,
        RtcpFeedback::NackPli,
        RtcpFeedback::CcmFir,
        RtcpFeedback::GoogRemb,
        RtcpFeedback::TransportCc,
    ]);
    let video = RtpCodecCapability::Video {
        mime_type: MimeTypeVideo::Vp8,
        preferred_payload_type: None,
        clock_rate: 90000,
        parameters: video_parameters,
        rtcp_feedback: video_feedback,
    };
    let mut codecs: Vec<RtpCodecCapability> = Vec::new();
    codecs.push(audio);
    codecs.push(video);
    assert(views(codecs@) =~= seq![offered_audio(), offered_video()]);
    codecs
}

} // verus!
