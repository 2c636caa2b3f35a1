//! From a snapshot to what is displayed: which state counts, the rule that
//! decides whether anything is displayed for it, and the named texts that
//! a template is then filled with.

use crate::config::{DirenvConfig, DirenvConfigView};
use crate::context::{Context, ContextView};
use crate::json::json_decoded;
use crate::resolve::spec_from_env;
use crate::state::{spec_from_document, DirenvState, DirenvStateView};
use crate::status::AllowStatus;
use crate::text::str_eq;
use vstd::prelude::*;
use vstd::string::*;

verus! {

/// What is handed to the template engine: the template, the style, and the
/// text of each variable that the template may name.
#[derive(Debug, Clone, PartialEq, Eq)]
pub struct Module {
    /// The template, as configured.
    pub format: String,
    /// The style, as configured.
    pub style: String,
    /// The variable `symbol`.
    pub symbol: String,
    /// The variable `rc_path`; without a text where no file governs.
    pub rc_path: Option<String>,
    /// The variable `allowed`; without a text where no status is known.
    pub allowed: Option<String>,
    /// The variable `loaded`.
    pub loaded: String,
}

pub struct ModuleView {
    pub format: Seq<char>,
    pub style: Seq<char>,
    pub symbol: Seq<char>,
    pub rc_path: Option<Seq<char>>,
    pub allowed: Option<Seq<char>>,
    pub loaded: Seq<char>,
}

impl View for Module {
    type V = ModuleView;

    open spec fn view(&self) -> ModuleView {
        ModuleView {
            format: self.format@,
            style: self.style@,
            symbol: self.symbol@,
            rc_path: self.rc_path.deep_view(),
            allowed: self.allowed.deep_view(),
            loaded: self.loaded@,
        }
    }
}

impl DeepView for Module {
    type V = ModuleView;

    open spec fn deep_view(&self) -> ModuleView {
        self@
    }
}

impl ModuleView {
    /// The text of a variable of the template, or `None` for a name that is
    /// no variable or has no text.
    pub open spec fn variable(self, name: Seq<char>) -> Option<Seq<char>> {
        if name == "symbol"@ {
            Some(self.symbol)
        } else if name == "rc_path"@ {
            self.rc_path
        } else if name == "allowed"@ {
            self.allowed
        } else if name == "loaded"@ {
            Some(self.loaded)
        } else {
            None
        }
    }

    /// The text of a style variable of the template: `style` is the only
    /// one.
    pub open spec fn style_variable(self, name: Seq<char>) -> Option<Seq<char>> {
        if name == "style"@ {
            Some(self.style)
        } else {
            None
        }
    }
}

/// The configured text for a status.
pub open spec fn spec_allowed_msg(config: DirenvConfigView, status: AllowStatus) -> Seq<char> {
    match status {
        AllowStatus::Allowed => config.allowed_msg,
        AllowStatus::NotAllowed => config.not_allowed_msg,
        AllowStatus::Denied => config.denied_msg,
    }
}

/// The texts for a state. `loaded` goes by whether a file is loaded, not by
/// that file's status.
pub open spec fn spec_tokens(state: DirenvStateView, config: DirenvConfigView) -> ModuleView {
    ModuleView {
        format: config.format,
        style: config.style,
        symbol: config.symbol,
        rc_path: state.rc_path,
        allowed: match state.allowed {
            Some(status) => Some(spec_allowed_msg(config, status)),
            None => None,
        },
        loaded: if state.loaded_rc_path is Some {
            config.loaded_msg
        } else {
            config.unloaded_msg
        },
    }
}

/// What is displayed for a state: nothing where there is neither a
/// governing nor a loaded file, else its texts.
pub open spec fn spec_display(state: DirenvStateView, config: DirenvConfigView) -> Option<
    ModuleView,
> {
    if state.applicable() {
        Some(spec_tokens(state, config))
    } else {
        None
    }
}

/// The state that the status report of the snapshot gives, where there is
/// a report and it can be decoded.
pub open spec fn spec_reported(ctx: ContextView) -> Option<DirenvStateView> {
    match ctx.status_output {
        Some(text) => match spec_from_document(json_decoded(text), text) {
            Ok(state) => Some(state),
            Err(_) => None,
        },
        None => None,
    }
}

/// The state of the snapshot: what the status report gives; without a
/// report that can be decoded, what the snapshot itself resolves to; and
/// none where that fails too.
pub open spec fn spec_state(ctx: ContextView) -> Option<DirenvStateView> {
    match spec_reported(ctx) {
        Some(state) => Some(state),
        None => match spec_from_env(ctx) {
            Ok(state) => Some(state),
            Err(_) => None,
        },
    }
}

/// What is displayed for a snapshot.
pub open spec fn spec_module(ctx: ContextView) -> Option<ModuleView> {
    match spec_state(ctx) {
        Some(state) => spec_display(state, ctx.config),
        None => None,
    }
}

impl Module {
    /// What is displayed for a state, or `None` where nothing is.
    pub fn new(state: &DirenvState, config: &DirenvConfig) -> (r: Option<Module>)
        ensures
            r.deep_view() == spec_display(state@, config@),
    {
        if state.rc_path.is_none() && state.loaded_rc_path.is_none() {
            return None;
        }
        let allowed = match state.allowed {
            Some(AllowStatus::Allowed) => Some(config.allowed_msg.clone()),
            Some(AllowStatus::NotAllowed) => Some(config.not_allowed_msg.clone()),
            Some(AllowStatus::Denied) => Some(config.denied_msg.clone()),
            None => None,
        };
        let loaded = if state.loaded_rc_path.is_some() {
            config.loaded_msg.clone()
        } else {
            config.unloaded_msg.clone()
        };
        let rc_path = match &state.rc_path {
            Some(p) => Some(p.clone()),
            None => None,
        };
        Some(
            Module {
                format: config.format.clone(),
                style: config.style.clone(),
                symbol: config.symbol.clone(),
                rc_path,
                allowed,
                loaded,
            },
        )
    }

    /// The text of a variable of the template.
    pub fn variable(&self, name: &str) -> (r: Option<&String>)
        ensures
            r.deep_view() == self@.variable(name@),
    {
        if str_eq(name, "symbol") {
            Some(&self.symbol)
        } else if str_eq(name, "rc_path") {
            self.rc_path.as_ref()
        } else if str_eq(name, "allowed") {
            self.allowed.as_ref()
        } else if str_eq(name, "loaded") {
            Some(&self.loaded)
        } else {
            None
        }
    }

    /// The text of a style variable of the template.
    pub fn style_variable(&self, name: &str) -> (r: Option<&String>)
        ensures
            r.deep_view() == self@.style_variable(name@),
    {
        if str_eq(name, "style") {
            Some(&self.style)
        } else {
            None
        }
    }
}

impl DirenvState {
    /// The state of a snapshot: decoded from its status report where that
    /// succeeds, else resolved from the snapshot itself.
    pub fn resolve(context: &Context) -> (r: Option<DirenvState>)
        ensures
            r.deep_view() == spec_state(context@),
    {
        if let Some(text) = &context.status_output {
            if let Ok(state) = DirenvState::from_str(text.as_str()) {
                return Some(state);
            }
        }
        match DirenvState::from_env(context) {
            Ok(state) => Some(state),
            Err(_) => None,
        }
    }
}

/// What is displayed for a snapshot, or `None` where nothing is: where no
/// state can be had, and where the state has neither a governing nor a
/// loaded file.
pub fn module(context: &Context) -> (r: Option<Module>)
    ensures
        r.deep_view() == spec_module(context@),
{
    let state = match DirenvState::resolve(context) {
        Some(state) => state,
        None => { return None; },
    };
    Module::new(&state, &context.config)
}

} // verus!
