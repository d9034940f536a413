use rooms::media::{
    media_codecs, worker_settings, MimeTypeAudio, MimeTypeVideo, RtcpFeedback,
    RtpCodecCapability, WorkerLogLevel, WorkerLogTag,
};
use rooms::webrtc::room::RoomId;
use rooms::websocket::{accept, room, QueryParams, Rejection};

#[test]
fn attempt_with_a_readable_room_goes_on() {
    assert_eq!(
        room("67e55044-10b1-426f-9247-bb680e5fe0c8"),
        Ok(RoomId(0x67e55044_10b1_426f_9247_bb680e5fe0c8))
    );
}

#[test]
fn attempt_with_an_unreadable_room_is_turned_down() {
    assert_eq!(
        room("lobby"),
        Err(Rejection { status: 422, reason: "Invalid ID provided".to_string() })
    );
    assert_eq!(
        room(""),
        Err(Rejection { status: 422, reason: "Invalid ID provided".to_string() })
    );
}

#[test]
fn failed_stage_turns_the_attempt_down_with_its_reason() {
    let failed: Result<u8, String> = Err("Unable to create router: x".to_string());
    assert_eq!(
        accept(failed),
        Err(Rejection { status: 500, reason: "Unable to create router: x".to_string() })
    );
}

#[test]
fn passed_stage_hands_its_value_on() {
    let passed: Result<u8, String> = Ok(3);
    assert_eq!(accept(passed), Ok(3));
}

#[test]
fn query_params_carry_the_display_name() {
    let params = QueryParams { name: "Ada".to_string() };
    assert_eq!(params.name, "Ada");
}

#[test]
fn room_offers_one_audio_and_one_video_codec() {
    let codecs = media_codecs();
    assert_eq!(
        codecs,
        vec![
            RtpCodecCapability::Audio {
                mime_type: MimeTypeAudio::Opus,
                preferred_payload_type: None,
                clock_rate: 48000,
                channels: 2,
                parameters: vec![("useinbandfec".to_string(), 1)],
                rtcp_feedback: vec![RtcpFeedback::TransportCc],
            },
            RtpCodecCapability::Video {
                mime_type: MimeTypeVideo::Vp8,
                preferred_payload_type: None,
                clock_rate: 90000,
                parameters: vec![],
                rtcp_feedback: vec![
                    RtcpFeedback::Nack,
                    RtcpFeedback::NackPli,
                    RtcpFeedback::CcmFir,
                    RtcpFeedback::GoogRemb,
                    RtcpFeedback::TransportCc,
                ],
            },
        ]
    );
}

#[test]
fn worker_of_a_room_logs_everything() {
    let settings = worker_settings();
    assert_eq!(settings.log_level, WorkerLogLevel::Debug);
    assert_eq!(
        settings.log_tags,
        vec![
            WorkerLogTag::Info,
            WorkerLogTag::Ice,
            WorkerLogTag::Dtls,
            WorkerLogTag::Rtp,
            WorkerLogTag::Srtp,
            WorkerLogTag::Rtcp,
            WorkerLogTag::Rtx,
            WorkerLogTag::Bwe,
            WorkerLogTag::Score,
            WorkerLogTag::Simulcast,
            WorkerLogTag::Svc,
            WorkerLogTag::Sctp,
            WorkerLogTag::Message,
        ]
    );
}
