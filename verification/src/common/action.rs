//! Chat action indicators (typing, uploading, ...).
use vstd::prelude::*;

verus! {

/// Chat action types for platform indicators
///
/// Used by the framework to show the appropriate indicator (typing, uploading,
/// and so on). Platforms that only support typing map every variant onto it.
#[derive(Debug, Clone, Copy, PartialEq, Eq)]
pub enum ChatAction {
    /// User is typing a message
    Typing,
    /// User is uploading a photo
    UploadPhoto,
    /// User is recording a video
    RecordVideo,
    /// User is uploading a video
    UploadVideo,
    /// User is recording audio/voice
    RecordVoice,
    /// User is uploading audio/voice
    UploadVoice,
    /// User is uploading a document
    UploadDocument,
    /// User is choosing a sticker
    ChooseSticker,
    /// User is finding a location
    FindLocation,
    /// User is recording a video note
    RecordVideoNote,
    /// User is uploading a video note
    UploadVideoNote,
}

/// The wire name of each action, as Telegram and the CLI protocol spell it.
pub open spec fn action_name(action: ChatAction) -> Seq<char> {
    match action {
        ChatAction::Typing => "typing"@,
        ChatAction::UploadPhoto => "upload_photo"@,
        ChatAction::RecordVideo => "record_video"@,
        ChatAction::UploadVideo => "upload_video"@,
        ChatAction::RecordVoice => "record_voice"@,
        ChatAction::UploadVoice => "upload_voice"@,
        ChatAction::UploadDocument => "upload_document"@,
        ChatAction::ChooseSticker => "choose_sticker"@,
        ChatAction::FindLocation => "find_location"@,
        ChatAction::RecordVideoNote => "record_video_note"@,
        ChatAction::UploadVideoNote => "upload_video_note"@,
    }
}

/// The wire name of `action`.
pub fn action_string(action: ChatAction) -> (r: &'static str)
    ensures
        r@ == action_name(action),
{
    match action {
        ChatAction::Typing => "typing",
        ChatAction::UploadPhoto => "upload_photo",
        ChatAction::RecordVideo => "record_video",
        ChatAction::UploadVideo => "upload_video",
        ChatAction::RecordVoice => "record_voice",
        ChatAction::UploadVoice => "upload_voice",
        ChatAction::UploadDocument => "upload_document",
        ChatAction::ChooseSticker => "choose_sticker",
        ChatAction::FindLocation => "find_location",
        ChatAction::RecordVideoNote => "record_video_note",
        ChatAction::UploadVideoNote => "upload_video_note",
    }
}

} // verus!
