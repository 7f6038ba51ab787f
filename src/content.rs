use vstd::prelude::*;

verus! {

/// The encrypted-file wrapper of a media message: it holds its own content reference.
#[derive(Clone)]
pub struct EncryptedFile {
    pub url: String,
}

/// What every media message carries: a display filename and a content
/// reference, given directly or inside an encrypted-file wrapper.
#[derive(Clone)]
pub struct MediaContent {
    pub body: String,
    pub url: Option<String>,
    pub file: Option<EncryptedFile>,
}

/// The content of a message, by kind.
#[derive(Clone)]
pub enum MessageContent {
    Image(MediaContent),
    Video(MediaContent),
    Audio(MediaContent),
    File(MediaContent),
    Text(String),
    Other,
}

/// A media message reduced to what the relay needs. `encrypted` is set when
/// the reference came from the encrypted-file wrapper: the bytes behind it are
/// relayed as they are, still encrypted.
pub struct MediaDescriptor {
    pub filename: String,
    pub reference: String,
    pub encrypted: bool,
}

pub open spec fn media_of(c: MessageContent) -> Option<MediaContent> {
    match c {
        MessageContent::Image(m) => Some(m),
        MessageContent::Video(m) => Some(m),
        MessageContent::Audio(m) => Some(m),
        MessageContent::File(m) => Some(m),
        _ => None,
    }
}

/// The reference of a media message: the direct one if present, else the one
/// in the encrypted-file wrapper; with whether it came from the wrapper.
pub open spec fn media_reference(m: MediaContent) -> Option<(Seq<char>, bool)> {
    match m.url {
        Some(u) => Some((u@, false)),
        None => match m.file {
            Some(f) => Some((f.url@, true)),
            None => None,
        },
    }
}

/// `(filename, reference, encrypted)` of a supported message, or `None`.
pub open spec fn extracted(c: MessageContent) -> Option<(Seq<char>, Seq<char>, bool)> {
    match media_of(c) {
        Some(m) => match media_reference(m) {
            Some((r, e)) => Some((m.body@, r, e)),
            None => None,
        },
        None => None,
    }
}

/// Reduces an image, video, audio or file message to its filename and
/// reference; any other kind, or a media message without any reference, is
/// unsupported (`None`).
pub fn extract_media(c: &MessageContent) -> (r: Option<MediaDescriptor>)
    ensures
        match (r, extracted(*c)) {
            (Some(d), Some((f, u, e))) => d.filename@ == f && d.reference@ == u && d.encrypted == e,
            (None, None) => true,
            _ => false,
        },
{
    let m = match c {
        MessageContent::Image(m) => m,
        MessageContent::Video(m) => m,
        MessageContent::Audio(m) => m,
        MessageContent::File(m) => m,
        MessageContent::Text(_) => {
            return None;
        },
        MessageContent::Other => {
            return None;
        },
    };
    match &m.url {
        Some(u) => Some(MediaDescriptor { filename: m.body.clone(), reference: u.clone(), encrypted: false }),
        None => match &m.file {
            Some(f) => Some(
                MediaDescriptor { filename: m.body.clone(), reference: f.url.clone(), encrypted: true },
            ),
            None => None,
        },
    }
}

} // verus!
