//! What the Linux side of the capture needs of the media framework.
use vstd::prelude::*;

use crate::error::CaptureError;

verus! {

/// The name of the backend.
pub fn backend_name() -> (r: &'static str)
    ensures
        r@ == "Linux (GStreamer)"@,
{
    "Linux (GStreamer)"
}

/// Elements without which nothing works. The screen source is looked for when
/// a capture starts, because which one is needed depends on the session.
pub fn required_elements() -> (r: Vec<String>)
    ensures
        crate::text::views(r@) == seq!["videoconvert"@, "videoscale"@, "pulsesrc"@],
{
    let mut list: Vec<String> = Vec::new();
    list.push("videoconvert".to_owned());
    list.push("videoscale".to_owned());
    list.push("pulsesrc".to_owned());
    assert(crate::text::views(list@) =~= seq!["videoconvert"@, "videoscale"@, "pulsesrc"@]);
    list
}

/// The AAC encoders to look for, best first.
pub open spec fn aac_names() -> Seq<Seq<char>> {
    seq!["fdkaacenc"@, "avenc_aac"@, "voaacenc"@, "faac"@]
}

/// The AAC encoders to look for, best first.
pub fn aac_encoders() -> (r: Vec<String>)
    ensures
        crate::text::views(r@) == aac_names(),
{
    let mut list: Vec<String> = Vec::new();
    list.push("fdkaacenc".to_owned());
    list.push("avenc_aac".to_owned());
    list.push("voaacenc".to_owned());
    list.push("faac".to_owned());
    assert(crate::text::views(list@) =~= aac_names());
    list
}

/// An element of the chain that makes pictures for the player.
#[derive(Debug, Clone, Copy, PartialEq, Eq, Structural)]
pub enum PictureElement {
    /// Scales the picture.
    Scale,
    /// Converts its colours.
    Convert,
    /// Lets square pixels in RGBA pass, between these widths.
    Filter { min_width: i32, max_width: i32 },
}

/// The chain that turns decoded frames into small pictures. It scales before
/// it converts, so the colour conversion runs on the small picture.
pub fn player_video_chain(max_width: i32) -> (r: Vec<PictureElement>)
    ensures
        r@ == seq![
            PictureElement::Scale,
            PictureElement::Convert,
            PictureElement::Filter { min_width: 16, max_width },
        ],
{
    let mut chain: Vec<PictureElement> = Vec::new();
    chain.push(PictureElement::Scale);
    chain.push(PictureElement::Convert);
    chain.push(PictureElement::Filter { min_width: 16, max_width });
    assert(chain@ =~= seq![
        PictureElement::Scale,
        PictureElement::Convert,
        PictureElement::Filter { min_width: 16, max_width },
    ]);
    chain
}

/// Why an executable has no icon: on Linux it carries none.
pub fn extract_png(exe: &str) -> (r: CaptureError)
    ensures
        r matches CaptureError::Media { path, reason } && path@ == exe@ && reason@
            == "executables have no embedded icon on Linux"@,
{
    CaptureError::Media {
        path: exe.to_owned(),
        reason: "executables have no embedded icon on Linux".to_owned(),
    }
}

} // verus!
