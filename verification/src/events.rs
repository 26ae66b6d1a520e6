//! Names of the events exchanged with the user interface.

use vstd::prelude::*;

verus! {

/// An event published to, or received from, the user interface.
#[derive(Clone, Copy, Debug, PartialEq, Eq, Structural)]
pub enum Events {
    OnOffConfigTrayItem,
    RefreshOverlay,
    NewTranslatedText,
    DownloadProgress,
    StopDownload,
}

impl Events {
    /// The name under which the event travels.
    pub open spec fn name(self) -> Seq<char> {
        match self {
            Events::OnOffConfigTrayItem => "OnOffConfigTrayItem"@,
            Events::RefreshOverlay => "RefreshOverlay"@,
            Events::NewTranslatedText => "NewTranslatedText"@,
            Events::DownloadProgress => "DownloadProgress"@,
            Events::StopDownload => "StopDownload"@,
        }
    }

    pub fn as_str(&self) -> (name: &'static str)
        ensures
            name@ == self.name(),
    {
        match self {
            Events::OnOffConfigTrayItem => "OnOffConfigTrayItem",
            Events::RefreshOverlay => "RefreshOverlay",
            Events::NewTranslatedText => "NewTranslatedText",
            Events::DownloadProgress => "DownloadProgress",
            Events::StopDownload => "StopDownload",
        }
    }

    /// Two events travel under the same name only if they are the same event.
    pub proof fn name_is_injective(a: Events, b: Events)
        requires
            a.name() == b.name(),
        ensures
            a == b,
    {
        reveal_strlit("OnOffConfigTrayItem");
        reveal_strlit("RefreshOverlay");
        reveal_strlit("NewTranslatedText");
        reveal_strlit("DownloadProgress");
        reveal_strlit("StopDownload");
        assert("OnOffConfigTrayItem"@.len() == 19);
        assert("RefreshOverlay"@.len() == 14);
        assert("NewTranslatedText"@.len() == 17);
        assert("DownloadProgress"@.len() == 16);
        assert("StopDownload"@.len() == 12);
    }
}

} // verus!
