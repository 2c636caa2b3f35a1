//! The texts that the display is configured with.

use vstd::prelude::*;
use vstd::string::*;

verus! {

/// The configured texts. The library takes them as they are: defaults and
/// validation belong to whoever loads the configuration.
#[derive(Debug, Clone, PartialEq, Eq)]
pub struct DirenvConfig {
    /// The template that the display is laid out by.
    pub format: String,
    /// The glyph that stands before the state.
    pub symbol: String,
    /// The style of the display.
    pub style: String,
    /// Shown where the governing file is allowed.
    pub allowed_msg: String,
    /// Shown where the governing file is neither allowed nor denied.
    pub not_allowed_msg: String,
    /// Shown where the governing file is denied.
    pub denied_msg: String,
    /// Shown where a file is loaded in the session.
    pub loaded_msg: String,
    /// Shown where none is.
    pub unloaded_msg: String,
}

pub struct DirenvConfigView {
    pub format: Seq<char>,
    pub symbol: Seq<char>,
    pub style: Seq<char>,
    pub allowed_msg: Seq<char>,
    pub not_allowed_msg: Seq<char>,
    pub denied_msg: Seq<char>,
    pub loaded_msg: Seq<char>,
    pub unloaded_msg: Seq<char>,
}

impl View for DirenvConfig {
    type V = DirenvConfigView;

    open spec fn view(&self) -> DirenvConfigView {
        DirenvConfigView {
            format: self.format@,
            symbol: self.symbol@,
            style: self.style@,
            allowed_msg: self.allowed_msg@,
            not_allowed_msg: self.not_allowed_msg@,
            denied_msg: self.denied_msg@,
            loaded_msg: self.loaded_msg@,
            unloaded_msg: self.unloaded_msg@,
        }
    }
}

} // verus!
