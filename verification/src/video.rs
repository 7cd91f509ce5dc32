//! Video output format catalog.
//!
//! The recorder that pipes frames to an encoder does process I/O and lives
//! in the application shell; the closed set of formats it supports is
//! modeled here.

use vstd::prelude::*;

verus! {

/// Supported video output formats.
#[derive(Debug, Clone, Copy, PartialEq, Eq, Structural)]
pub enum VideoFormat {
    /// H.264 encoded MP4 (best compatibility).
    MP4,
    /// VP9 encoded WebM (open format, good quality).
    WebM,
    /// Animated GIF (limited colors, large files).
    GIF,
}

impl Default for VideoFormat {
    fn default() -> (r: Self)
        ensures
            r == VideoFormat::MP4,
    {
        VideoFormat::MP4
    }
}

impl VideoFormat {
    /// The file extension of this format.
    pub open spec fn spec_extension(self) -> Seq<char> {
        match self {
            VideoFormat::MP4 => "mp4"@,
            VideoFormat::WebM => "webm"@,
            VideoFormat::GIF => "gif"@,
        }
    }

    /// The display name of this format.
    pub open spec fn spec_name(self) -> Seq<char> {
        match self {
            VideoFormat::MP4 => "MP4 (H.264)"@,
            VideoFormat::WebM => "WebM (VP9)"@,
            VideoFormat::GIF => "GIF"@,
        }
    }

    /// Get the file extension for this format.
    pub fn extension(&self) -> (r: &str)
        ensures
            r@ == self.spec_extension(),
    {
        match self {
            VideoFormat::MP4 => "mp4",
            VideoFormat::WebM => "webm",
            VideoFormat::GIF => "gif",
        }
    }

    /// Get all available formats.
    pub fn all() -> (r: Vec<VideoFormat>)
        ensures
            r@ == seq![VideoFormat::MP4, VideoFormat::WebM, VideoFormat::GIF],
    {
        let r = vec![VideoFormat::MP4, VideoFormat::WebM, VideoFormat::GIF];
        assert(r@ =~= seq![VideoFormat::MP4, VideoFormat::WebM, VideoFormat::GIF]);
        r
    }

    /// Get the display name for this format.
    pub fn name(&self) -> (r: &'static str)
        ensures
            r@ == self.spec_name(),
    {
        match self {
            VideoFormat::MP4 => "MP4 (H.264)",
            VideoFormat::WebM => "WebM (VP9)",
            VideoFormat::GIF => "GIF",
        }
    }
}

} // verus!
