//! The hand-maintained media union of the client library, which the emitter
//! leaves out (it is on the skip-list).
use vstd::prelude::*;
use crate::text::same_text;

verus! {

/// A media item of a media group. On the wire it is tagged by a lower-case
/// `type` field; each kind wraps the emitted struct named `InputMedia<Kind>`.
#[derive(Clone, Copy, Debug, PartialEq, Eq, Structural)]
pub enum InputMedia {
    Photo,
    Video,
    Audio,
    Document,
    Animation,
}

/// The emitted struct that a media kind wraps.
pub open spec fn payload_type_of(k: InputMedia) -> Seq<char> {
    match k {
        InputMedia::Photo => "InputMediaPhoto"@,
        InputMedia::Video => "InputMediaVideo"@,
        InputMedia::Audio => "InputMediaAudio"@,
        InputMedia::Document => "InputMediaDocument"@,
        InputMedia::Animation => "InputMediaAnimation"@,
    }
}

/// The wire tag of a media kind.
pub open spec fn tag_of(k: InputMedia) -> Seq<char> {
    match k {
        InputMedia::Photo => "photo"@,
        InputMedia::Video => "video"@,
        InputMedia::Audio => "audio"@,
        InputMedia::Document => "document"@,
        InputMedia::Animation => "animation"@,
    }
}

impl InputMedia {
    /// The name of the emitted struct this kind wraps.
    pub fn payload_type(&self) -> (r: String)
        ensures
            r@ == payload_type_of(*self),
    {
        match self {
            InputMedia::Photo => String::from_str("InputMediaPhoto"),
            InputMedia::Video => String::from_str("InputMediaVideo"),
            InputMedia::Audio => String::from_str("InputMediaAudio"),
            InputMedia::Document => String::from_str("InputMediaDocument"),
            InputMedia::Animation => String::from_str("InputMediaAnimation"),
        }
    }

    /// The value of the `type` tag on the wire.
    pub fn tag(&self) -> (r: String)
        ensures
            r@ == tag_of(*self),
    {
        match self {
            InputMedia::Photo => String::from_str("photo"),
            InputMedia::Video => String::from_str("video"),
            InputMedia::Audio => String::from_str("audio"),
            InputMedia::Document => String::from_str("document"),
            InputMedia::Animation => String::from_str("animation"),
        }
    }

    /// The kind that wraps the emitted struct `name`, if any does.
    pub fn from_payload_type(name: &str) -> (r: Option<InputMedia>)
        ensures
            r matches Some(k) ==> payload_type_of(k) == name@,
            r is None ==> forall|k: InputMedia| payload_type_of(k) != name@,
    {
        if same_text(name, "InputMediaPhoto") {
            Some(InputMedia::Photo)
        } else if same_text(name, "InputMediaVideo") {
            Some(InputMedia::Video)
        } else if same_text(name, "InputMediaAudio") {
            Some(InputMedia::Audio)
        } else if same_text(name, "InputMediaDocument") {
            Some(InputMedia::Document)
        } else if same_text(name, "InputMediaAnimation") {
            Some(InputMedia::Animation)
        } else {
            None
        }
    }
}

} // verus!
