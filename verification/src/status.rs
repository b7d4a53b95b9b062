//! What the relay tells the operator about itself.

use crate::text::{amplitude_string, amplitude_text, join2, join4, owned};
use vstd::prelude::*;

verus! {

/// The state of affairs as the operator is to see it.
#[derive(Debug, PartialEq, Eq)]
pub enum Status {
    Ready,
    Monitoring,
    Stopped,
    /// The microphone could not be opened, and why.
    CaptureFailed(String),
    Recording,
    Processing,
    /// A recording ended without a single sample.
    NoAudio,
    Transcribing,
    Transcribed(String),
    Conversing,
    Replied(String),
    /// The reply reached the sink, and the relay listens again.
    DeliveredAndListening,
    /// The reply reached the sink.
    Delivered,
    /// A turn failed, and why.
    Failed(String),
    CalibratingSilence,
    CalibratingVoice,
    /// Calibration is complete: the two thresholds, in millionths of full
    /// scale.
    Calibrated { silence: u32, start: u32 },
    /// A typed turn is on its way.
    Sending,
    HistoryCleared,
    /// Another preset is in force; its name.
    Switched(String),
}

/// A [`Status`] as plain values.
pub enum StatusView {
    Ready,
    Monitoring,
    Stopped,
    CaptureFailed(Seq<char>),
    Recording,
    Processing,
    NoAudio,
    Transcribing,
    Transcribed(Seq<char>),
    Conversing,
    Replied(Seq<char>),
    DeliveredAndListening,
    Delivered,
    Failed(Seq<char>),
    CalibratingSilence,
    CalibratingVoice,
    Calibrated { silence: u32, start: u32 },
    Sending,
    HistoryCleared,
    Switched(Seq<char>),
}

impl View for Status {
    type V = StatusView;

    open spec fn view(&self) -> StatusView {
        match *self {
            Status::Ready => StatusView::Ready,
            Status::Monitoring => StatusView::Monitoring,
            Status::Stopped => StatusView::Stopped,
            Status::CaptureFailed(e) => StatusView::CaptureFailed(e@),
            Status::Recording => StatusView::Recording,
            Status::Processing => StatusView::Processing,
            Status::NoAudio => StatusView::NoAudio,
            Status::Transcribing => StatusView::Transcribing,
            Status::Transcribed(t) => StatusView::Transcribed(t@),
            Status::Conversing => StatusView::Conversing,
            Status::Replied(t) => StatusView::Replied(t@),
            Status::DeliveredAndListening => StatusView::DeliveredAndListening,
            Status::Delivered => StatusView::Delivered,
            Status::Failed(e) => StatusView::Failed(e@),
            Status::CalibratingSilence => StatusView::CalibratingSilence,
            Status::CalibratingVoice => StatusView::CalibratingVoice,
            Status::Calibrated { silence, start } => StatusView::Calibrated { silence, start },
            Status::Sending => StatusView::Sending,
            Status::HistoryCleared => StatusView::HistoryCleared,
            Status::Switched(name) => StatusView::Switched(name@),
        }
    }
}

impl StatusView {
    /// The status as a line of text.
    pub open spec fn text(self) -> Seq<char> {
        match self {
            StatusView::Ready => "Ready. Press Start to begin monitoring."@,
            StatusView::Monitoring => "Monitoring... Speak to start recording."@,
            StatusView::Stopped => "Stopped."@,
            StatusView::CaptureFailed(e) => "Error: "@ + e,
            StatusView::Recording => "Recording... Speak now!"@,
            StatusView::Processing => "Processing audio..."@,
            StatusView::NoAudio => "No audio recorded"@,
            StatusView::Transcribing => "Transcribing audio..."@,
            StatusView::Transcribed(t) => "Transcribed: "@ + t,
            StatusView::Conversing => "Asking Eliza..."@,
            StatusView::Replied(t) => "Eliza: "@ + t,
            StatusView::DeliveredAndListening => "Sent to VRChat! Ready for next input."@,
            StatusView::Delivered => "Sent to VRChat!"@,
            StatusView::Failed(e) => "❌ Error: "@ + e,
            StatusView::CalibratingSilence => "キャリブレーション: 静かにしてください... (2秒)"@,
            StatusView::CalibratingVoice => "キャリブレーション: 話してください... (2秒以上)"@,
            StatusView::Calibrated { silence, start } => "✓ キャリブレーション完了! silence="@
                + amplitude_text(silence) + ", start="@ + amplitude_text(start),
            StatusView::Sending => "Sending to Eliza..."@,
            StatusView::HistoryCleared => "Conversation history cleared"@,
            StatusView::Switched(name) => "Switched to "@ + name,
        }
    }
}

impl Status {
    /// The status as a line of text.
    pub fn text(&self) -> (r: String)
        ensures
            r@ == self@.text(),
    {
        match self {
            Status::Ready => owned("Ready. Press Start to begin monitoring."),
            Status::Monitoring => owned("Monitoring... Speak to start recording."),
            Status::Stopped => owned("Stopped."),
            Status::CaptureFailed(e) => join2("Error: ", e.as_str()),
            Status::Recording => owned("Recording... Speak now!"),
            Status::Processing => owned("Processing audio..."),
            Status::NoAudio => owned("No audio recorded"),
            Status::Transcribing => owned("Transcribing audio..."),
            Status::Transcribed(t) => join2("Transcribed: ", t.as_str()),
            Status::Conversing => owned("Asking Eliza..."),
            Status::Replied(t) => join2("Eliza: ", t.as_str()),
            Status::DeliveredAndListening => owned("Sent to VRChat! Ready for next input."),
            Status::Delivered => owned("Sent to VRChat!"),
            Status::Failed(e) => join2("❌ Error: ", e.as_str()),
            Status::CalibratingSilence => owned("キャリブレーション: 静かにしてください... (2秒)"),
            Status::CalibratingVoice => owned("キャリブレーション: 話してください... (2秒以上)"),
            Status::Calibrated { silence, start } => join4(
                "✓ キャリブレーション完了! silence=",
                amplitude_string(*silence).as_str(),
                ", start=",
                amplitude_string(*start).as_str(),
            ),
            Status::Sending => owned("Sending to Eliza..."),
            Status::HistoryCleared => owned("Conversation history cleared"),
            Status::Switched(name) => join2("Switched to ", name.as_str()),
        }
    }
}

} // verus!
