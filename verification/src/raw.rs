//! The structured status report: a JSON document with an object `state`
//! whose members `foundRC` and `loadedRC` are each `null`, absent, or an
//! object with an integer `allowed` and a string `path`.

use crate::json::{
    json_as_str, json_as_u64, json_content, json_get, json_is_null, json_is_object, spec_member,
    Json,
};
use serde_json::Value;
use vstd::prelude::*;
use vstd::string::*;

verus! {

/// One configuration file as the structured report gives it: its status
/// code, not yet decoded, and its path.
#[derive(Debug, Clone, PartialEq, Eq)]
pub struct RCStatus {
    pub allowed: u8,
    pub path: String,
}

pub struct RCStatusView {
    pub allowed: u8,
    pub path: Seq<char>,
}

impl View for RCStatus {
    type V = RCStatusView;

    open spec fn view(&self) -> RCStatusView {
        RCStatusView { allowed: self.allowed, path: self.path@ }
    }
}

impl DeepView for RCStatus {
    type V = RCStatusView;

    open spec fn deep_view(&self) -> RCStatusView {
        self@
    }
}

/// The two files of a structured report: the one found for the directory
/// and the one loaded in the session.
#[derive(Debug, Clone, PartialEq, Eq)]
pub struct State {
    pub found_rc: Option<RCStatus>,
    pub loaded_rc: Option<RCStatus>,
}

pub struct StateView {
    pub found_rc: Option<RCStatusView>,
    pub loaded_rc: Option<RCStatusView>,
}

impl View for State {
    type V = StateView;

    open spec fn view(&self) -> StateView {
        StateView {
            found_rc: self.found_rc.deep_view(),
            loaded_rc: self.loaded_rc.deep_view(),
        }
    }
}

/// A structured report as read, before its status codes are decoded.
#[derive(Debug, Clone, PartialEq, Eq)]
pub struct RawDirenvState {
    pub state: State,
}

impl View for RawDirenvState {
    type V = StateView;

    open spec fn view(&self) -> StateView {
        self.state@
    }
}

/// The file that a JSON value describes: an object whose `allowed` is an
/// integer from 0 to 255 and whose `path` is a string.
pub open spec fn spec_rc_status(j: Json) -> Option<RCStatusView> {
    match (spec_member(j, "allowed"@), spec_member(j, "path"@)) {
        (Some(Json::Unsigned(n)), Some(Json::Text(p))) => if n <= 255 {
            Some(RCStatusView { allowed: n as u8, path: p })
        } else {
            None
        },
        _ => None,
    }
}

/// The member `key` of `parent` as an optional file: `Some(None)` where the
/// member is absent or `null`, `None` where it is present and describes no
/// file.
pub open spec fn spec_optional_rc(parent: Json, key: Seq<char>) -> Option<Option<RCStatusView>> {
    match spec_member(parent, key) {
        None => Some(None),
        Some(Json::Null) => Some(None),
        Some(j) => match spec_rc_status(j) {
            Some(rc) => Some(Some(rc)),
            None => None,
        },
    }
}

/// The report that a JSON document holds, or `None` where it has not the
/// shape of one.
pub open spec fn spec_raw_state(doc: Json) -> Option<StateView> {
    match spec_member(doc, "state"@) {
        Some(Json::Object(fields)) => {
            let st = Json::Object(fields);
            match (spec_optional_rc(st, "foundRC"@), spec_optional_rc(st, "loadedRC"@)) {
                (Some(found_rc), Some(loaded_rc)) => Some(StateView { found_rc, loaded_rc }),
                _ => None,
            }
        },
        _ => None,
    }
}

impl RCStatus {
    /// Reads one file from a JSON value.
    pub fn from_json(v: &Value) -> (r: Option<RCStatus>)
        ensures
            r.deep_view() == spec_rc_status(json_content(*v)),
    {
        let allowed = match json_get(v, "allowed") {
            Some(a) => match json_as_u64(a) {
                Some(n) => n,
                None => { return None; },
            },
            None => { return None; },
        };
        let path = match json_get(v, "path") {
            Some(p) => match json_as_str(p) {
                Some(t) => t,
                None => { return None; },
            },
            None => { return None; },
        };
        if allowed > 255 {
            return None;
        }
        Some(RCStatus { allowed: allowed as u8, path: path.to_owned() })
    }
}

/// Reads the optional file under `key`.
fn optional_rc(parent: &Value, key: &str) -> (r: Option<Option<RCStatus>>)
    ensures
        match r {
            Some(rc) => spec_optional_rc(json_content(*parent), key@) == Some(rc.deep_view()),
            None => spec_optional_rc(json_content(*parent), key@) is None,
        },
{
    match json_get(parent, key) {
        None => Some(None),
        Some(j) => {
            if json_is_null(j) {
                Some(None)
            } else {
                match RCStatus::from_json(j) {
                    Some(rc) => Some(Some(rc)),
                    None => None,
                }
            }
        },
    }
}

impl RawDirenvState {
    /// Reads a structured report from a JSON document. Members that the
    /// report does not define are passed over.
    pub fn from_json(doc: &Value) -> (r: Option<RawDirenvState>)
        ensures
            r.deep_view() == spec_raw_state(json_content(*doc)),
    {
        let st = match json_get(doc, "state") {
            Some(st) => st,
            None => { return None; },
        };
        if !json_is_object(st) {
            return None;
        }
        let found_rc = match optional_rc(st, "foundRC") {
            Some(rc) => rc,
            None => { return None; },
        };
        let loaded_rc = match optional_rc(st, "loadedRC") {
            Some(rc) => rc,
            None => { return None; },
        };
        Some(RawDirenvState { state: State { found_rc, loaded_rc } })
    }
}

impl DeepView for RawDirenvState {
    type V = StateView;

    open spec fn deep_view(&self) -> StateView {
        self@
    }
}

} // verus!
