//! The resolved state and its two decoders: the structured status report
//! and the older line-oriented one.

use crate::json::{json_decoded, parse_json, Json};
use crate::raw::{spec_raw_state, RCStatusView, RawDirenvState, StateView};
use crate::status::{AllowStatus, ParseError};
use crate::text::{
    lines, slice_views, spec_lines, spec_strip_prefix, spec_trim, strip_prefix, to_chars,
    to_string, trim,
};
use vstd::prelude::*;
use vstd::string::*;

verus! {

/// Which configuration file governs a directory, which one is loaded in the
/// session, and whether each may be loaded.
#[derive(Debug, Clone, PartialEq, Eq)]
pub struct DirenvState {
    /// The nearest configuration file at or above the directory.
    pub rc_path: Option<String>,
    /// The configuration file that is loaded in the session.
    pub loaded_rc_path: Option<String>,
    /// The status of `rc_path`.
    pub allowed: Option<AllowStatus>,
    /// The status of `loaded_rc_path`.
    pub loaded_allowed: Option<AllowStatus>,
}

pub struct DirenvStateView {
    pub rc_path: Option<Seq<char>>,
    pub loaded_rc_path: Option<Seq<char>>,
    pub allowed: Option<AllowStatus>,
    pub loaded_allowed: Option<AllowStatus>,
}

impl View for DirenvState {
    type V = DirenvStateView;

    open spec fn view(&self) -> DirenvStateView {
        DirenvStateView {
            rc_path: self.rc_path.deep_view(),
            loaded_rc_path: self.loaded_rc_path.deep_view(),
            allowed: self.allowed,
            loaded_allowed: self.loaded_allowed,
        }
    }
}

impl DeepView for DirenvState {
    type V = DirenvStateView;

    open spec fn deep_view(&self) -> DirenvStateView {
        self@
    }
}

impl DirenvStateView {
    /// The state in which nothing is known.
    pub open spec fn unknown() -> DirenvStateView {
        DirenvStateView { rc_path: None, loaded_rc_path: None, allowed: None, loaded_allowed: None }
    }

    /// Whether there is anything to show: a governing file or a loaded one.
    pub open spec fn applicable(self) -> bool {
        self.rc_path is Some || self.loaded_rc_path is Some
    }
}

/// The view of a result that holds a state.
pub open spec fn state_result_view<E>(r: Result<DirenvState, E>) -> Result<DirenvStateView, E> {
    match r {
        Ok(s) => Ok(s@),
        Err(e) => Err(e),
    }
}

/// One file of a structured report, decoded: its path and its status; both
/// absent where the report gives no file.
pub open spec fn spec_decode_rc(rc: Option<RCStatusView>) -> Result<
    (Option<Seq<char>>, Option<AllowStatus>),
    ParseError,
> {
    match rc {
        None => Ok((None, None)),
        Some(rc) => match AllowStatus::spec_from_code(rc.allowed) {
            Ok(a) => Ok((Some(rc.path), Some(a))),
            Err(e) => Err(e),
        },
    }
}

/// The state that a structured report describes. The found file is decoded
/// first, so its error is the one reported where both codes are unknown.
pub open spec fn spec_from_raw(raw: StateView) -> Result<DirenvStateView, ParseError> {
    match spec_decode_rc(raw.found_rc) {
        Err(e) => Err(e),
        Ok((rc_path, allowed)) => match spec_decode_rc(raw.loaded_rc) {
            Err(e) => Err(e),
            Ok((loaded_rc_path, loaded_allowed)) => Ok(
                DirenvStateView { rc_path, loaded_rc_path, allowed, loaded_allowed },
            ),
        },
    }
}

/// What one line of a report adds to what the lines before it gave. A line
/// that begins with none of the four labels adds nothing.
pub open spec fn spec_scan_line(acc: DirenvStateView, line: Seq<char>) -> Result<
    DirenvStateView,
    ParseError,
> {
    if let Some(rest) = spec_strip_prefix(line, "Found RC path"@) {
        Ok(DirenvStateView { rc_path: Some(spec_trim(rest)), ..acc })
    } else if let Some(rest) = spec_strip_prefix(line, "Found RC allowed"@) {
        match AllowStatus::spec_from_token(spec_trim(rest)) {
            Ok(a) => Ok(DirenvStateView { allowed: Some(a), ..acc }),
            Err(e) => Err(e),
        }
    } else if let Some(rest) = spec_strip_prefix(line, "Loaded RC path"@) {
        Ok(DirenvStateView { loaded_rc_path: Some(spec_trim(rest)), ..acc })
    } else if let Some(rest) = spec_strip_prefix(line, "Loaded RC allowed"@) {
        match AllowStatus::spec_from_token(spec_trim(rest)) {
            Ok(a) => Ok(DirenvStateView { loaded_allowed: Some(a), ..acc }),
            Err(e) => Err(e),
        }
    } else {
        Ok(acc)
    }
}

/// What the lines give, taken in order; the first line that fails ends the
/// scan with its error.
pub open spec fn spec_scan_lines(acc: DirenvStateView, lines: Seq<Seq<char>>) -> Result<
    DirenvStateView,
    ParseError,
>
    decreases lines.len(),
{
    if lines.len() == 0 {
        Ok(acc)
    } else {
        match spec_scan_line(acc, lines[0]) {
            Err(e) => Err(e),
            Ok(next) => spec_scan_lines(next, lines.drop_first()),
        }
    }
}

/// The state that a line-oriented report describes. A report that names no
/// found file, or no status for it, describes none.
pub open spec fn spec_from_lines(text: Seq<char>) -> Result<DirenvStateView, ParseError> {
    match spec_scan_lines(DirenvStateView::unknown(), spec_lines(text)) {
        Err(e) => Err(e),
        Ok(st) => if st.rc_path is None || st.allowed is None {
            Err(ParseError::UnknownState)
        } else {
            Ok(st)
        },
    }
}

/// The state that a report describes, given what the report reads as when
/// taken for JSON: the structured decoding where the document has the
/// shape of a report, else the line-oriented one.
pub open spec fn spec_from_document(doc: Option<Json>, text: Seq<char>) -> Result<
    DirenvStateView,
    ParseError,
> {
    match doc {
        Some(j) => match spec_raw_state(j) {
            Some(raw) => spec_from_raw(raw),
            None => spec_from_lines(text),
        },
        None => spec_from_lines(text),
    }
}

impl DirenvState {
    /// Decodes the status codes of a structured report.
    pub fn from_raw(raw: RawDirenvState) -> (r: Result<DirenvState, ParseError>)
        ensures
            state_result_view(r) == spec_from_raw(raw@),
    {
        let (rc_path, allowed) = match raw.state.found_rc {
            None => (None, None),
            Some(rc) => match AllowStatus::try_from(rc.allowed) {
                Ok(a) => (Some(rc.path), Some(a)),
                Err(e) => { return Err(e); },
            },
        };
        let (loaded_rc_path, loaded_allowed) = match raw.state.loaded_rc {
            None => (None, None),
            Some(rc) => match AllowStatus::try_from(rc.allowed) {
                Ok(a) => (Some(rc.path), Some(a)),
                Err(e) => { return Err(e); },
            },
        };
        Ok(DirenvState { rc_path, loaded_rc_path, allowed, loaded_allowed })
    }

    /// Decodes a line-oriented report.
    pub fn from_lines(s: &str) -> (r: Result<DirenvState, ParseError>)
        ensures
            state_result_view(r) == spec_from_lines(s@),
    {
        let chars = to_chars(s);
        let all = lines(chars.as_slice());
        let found_path = to_chars("Found RC path");
        let found_allowed = to_chars("Found RC allowed");
        let loaded_path = to_chars("Loaded RC path");
        let loaded_allowed_label = to_chars("Loaded RC allowed");

        let mut rc_path: Option<String> = None;
        let mut loaded_rc_path: Option<String> = None;
        let mut allowed: Option<AllowStatus> = None;
        let mut loaded_allowed: Option<AllowStatus> = None;

        let ghost views = slice_views(all@);
        let mut i: usize = 0;
        assert(views.skip(0) == views);
        while i < all.len()
            invariant
                i <= all.len(),
                views == slice_views(all@),
                views == spec_lines(s@),
                found_path@ == "Found RC path"@,
                found_allowed@ == "Found RC allowed"@,
                loaded_path@ == "Loaded RC path"@,
                loaded_allowed_label@ == "Loaded RC allowed"@,
                spec_scan_lines(DirenvStateView::unknown(), views) == spec_scan_lines(
                    DirenvStateView {
                        rc_path: rc_path.deep_view(),
                        loaded_rc_path: loaded_rc_path.deep_view(),
                        allowed,
                        loaded_allowed,
                    },
                    views.skip(i as int),
                ),
            decreases all.len() - i,
        {
            let line = all[i];
            proof {
                assert(views.skip(i as int)[0] == line@);
                assert(views.skip(i as int).drop_first() == views.skip(i + 1));
            }
            if let Some(rest) = strip_prefix(line, found_path.as_slice()) {
                rc_path = Some(to_string(trim(rest)));
            } else if let Some(rest) = strip_prefix(line, found_allowed.as_slice()) {
                let token = to_string(trim(rest));
                match AllowStatus::from_str(token.as_str()) {
                    Ok(a) => { allowed = Some(a); },
                    Err(e) => { return Err(e); },
                }
            } else if let Some(rest) = strip_prefix(line, loaded_path.as_slice()) {
                loaded_rc_path = Some(to_string(trim(rest)));
            } else if let Some(rest) = strip_prefix(line, loaded_allowed_label.as_slice()) {
                let token = to_string(trim(rest));
                match AllowStatus::from_str(token.as_str()) {
                    Ok(a) => { loaded_allowed = Some(a); },
                    Err(e) => { return Err(e); },
                }
            }
            i += 1;
        }
        if rc_path.is_none() || allowed.is_none() {
            return Err(ParseError::UnknownState);
        }
        Ok(DirenvState { rc_path, loaded_rc_path, allowed, loaded_allowed })
    }

    /// Decodes a status report: as a structured report where the text is a
    /// JSON document with the shape of one, else as a line-oriented report.
    pub fn from_str(s: &str) -> (r: Result<DirenvState, ParseError>)
        ensures
            state_result_view(r) == spec_from_document(json_decoded(s@), s@),
    {
        match parse_json(s) {
            Ok(doc) => match RawDirenvState::from_json(&doc) {
                Some(raw) => DirenvState::from_raw(raw),
                None => DirenvState::from_lines(s),
            },
            Err(_) => DirenvState::from_lines(s),
        }
    }
}

} // verus!
