use vstd::prelude::*;

use crate::chars::char_count;
use crate::keys::{
    action_matches, compile, compile_keybinding_overrides, overrides_view, strs_view, KeyBindings,
    KeybindingOverride,
};
use crate::layout::{page_size_for, repo_list_page_size, Viewport};
use crate::model::{opt_action_view, Action, RouteContext};
use crate::routing::{
    commit_box_active, commit_box_focused, filter_active, prompt_input_active, prompt_input_focused,
    repo_subview_filter_focused, route_key, route_key_exec, workspace_search_active,
    workspace_search_focused,
};

verus! {

/// An input event from the terminal.
#[derive(Clone, Debug, PartialEq, Eq)]
pub enum InputEvent {
    Resize { width: u16, height: u16 },
    KeyPressed(String),
    Paste(String),
}

/// What the application does with an input event.
#[derive(Clone, Debug, PartialEq, Eq)]
pub enum InputOutcome {
    /// The viewport changed; the state stays as it is and a render is scheduled.
    ScheduleRender,
    /// The event asks for an action.
    Dispatch(Action<String>),
    /// The event asks for nothing; the state stays as it is.
    Ignored,
}

/// Where pasted text goes: into the focused text input (the commit box, an input
/// prompt, the workspace search, the subview filter, in that order); empty text and
/// text with no focused input go nowhere.
pub open spec fn route_paste(ctx: RouteContext, text: Seq<char>) -> Option<Action<Seq<char>>> {
    if text.len() == 0 {
        None
    } else if commit_box_active(ctx) {
        Some(Action::AppendCommitInput { text })
    } else if prompt_input_active(ctx) {
        Some(Action::AppendPromptInput { text })
    } else if workspace_search_active(ctx) {
        Some(Action::AppendWorkspaceSearch { text })
    } else if filter_active(ctx) {
        Some(Action::AppendRepoSubviewFilter { text })
    } else {
        None
    }
}

/// The terminal front end's own state: the compiled keybinding overrides and the
/// viewport. The application state that keys are routed against is handed in.
pub struct TuiApp {
    keybinding_overrides: KeyBindings,
    viewport: Viewport,
}

impl TuiApp {
    pub closed spec fn bindings(&self) -> Map<Seq<char>, Seq<Seq<char>>> {
        self.keybinding_overrides@
    }

    pub closed spec fn current_viewport(&self) -> Viewport {
        self.viewport
    }

    /// A front end with the configured keybinding overrides compiled and the default
    /// viewport.
    pub fn new(overrides: &Vec<KeybindingOverride>) -> (app: TuiApp)
        ensures
            app.bindings() == compile(overrides_view(overrides@)),
            app.current_viewport() == (Viewport { width: 120, height: 32 }),
    {
        TuiApp {
            keybinding_overrides: compile_keybinding_overrides(overrides),
            viewport: Viewport::default(),
        }
    }

    /// The viewport the next frame is rendered into.
    pub fn viewport(&self) -> (v: Viewport)
        ensures
            v == self.current_viewport(),
    {
        self.viewport
    }

    /// Takes the new terminal size; nothing else changes.
    pub fn resize(&mut self, width: u16, height: u16)
        ensures
            final(self).current_viewport() == (Viewport { width, height }),
            final(self).bindings() == old(self).bindings(),
    {
        self.viewport = Viewport { width, height };
    }

    /// The page size of repository lists in the current viewport.
    pub fn repo_list_page_size(&self) -> (n: usize)
        ensures
            n == page_size_for(self.current_viewport().height),
    {
        repo_list_page_size(self.viewport)
    }

    /// Whether the key press triggers the action (see `action_matches`).
    pub fn binding_matches_action(
        &self,
        action_id: &str,
        raw: &str,
        normalized: &str,
        defaults: &[&str],
    ) -> (res: bool)
        ensures
            res == action_matches(self.bindings(), action_id@, raw@, normalized@, strs_view(defaults@)),
    {
        self.keybinding_overrides.binding_matches_action(action_id, raw, normalized, defaults)
    }

    /// The action a key press asks for in the given state (see `route_key`).
    pub fn route_key(&self, ctx: &RouteContext, key: &str) -> (res: Option<Action<String>>)
        ensures
            opt_action_view(res) == route_key(
                self.bindings(),
                *ctx,
                page_size_for(self.current_viewport().height) as usize,
                key@,
            ),
    {
        let page_size = self.repo_list_page_size();
        route_key_exec(&self.keybinding_overrides, ctx, page_size, key)
    }

    /// The action pasted text asks for in the given state (see `route_paste`).
    pub fn route_paste(&self, ctx: &RouteContext, text: String) -> (res: Option<Action<String>>)
        ensures
            opt_action_view(res) == route_paste(*ctx, text@),
    {
        if char_count(text.as_str()) == 0 {
            None
        } else if commit_box_focused(ctx) {
            Some(Action::AppendCommitInput { text })
        } else if prompt_input_focused(ctx) {
            Some(Action::AppendPromptInput { text })
        } else if workspace_search_focused(ctx) {
            Some(Action::AppendWorkspaceSearch { text })
        } else if repo_subview_filter_focused(ctx) {
            Some(Action::AppendRepoSubviewFilter { text })
        } else {
            None
        }
    }

    /// Handles an input event: a resize takes the new size and schedules a render, a key
    /// press and a paste are routed in the given state.
    pub fn handle_input(&mut self, ctx: &RouteContext, input: InputEvent) -> (res: InputOutcome)
        ensures
            match input {
                InputEvent::Resize { width, height } => {
                    &&& res == InputOutcome::ScheduleRender
                    &&& final(self).current_viewport() == (Viewport { width, height })
                },
                InputEvent::KeyPressed(key) => {
                    &&& final(self).current_viewport() == old(self).current_viewport()
                    &&& match route_key(
                        old(self).bindings(),
                        *ctx,
                        page_size_for(old(self).current_viewport().height) as usize,
                        key@,
                    ) {
                        Some(a) => res matches InputOutcome::Dispatch(x) && x@ == a,
                        None => res == InputOutcome::Ignored,
                    }
                },
                InputEvent::Paste(text) => {
                    &&& final(self).current_viewport() == old(self).current_viewport()
                    &&& match route_paste(*ctx, text@) {
                        Some(a) => res matches InputOutcome::Dispatch(x) && x@ == a,
                        None => res == InputOutcome::Ignored,
                    }
                },
            },
            final(self).bindings() == old(self).bindings(),
    {
        match input {
            InputEvent::Resize { width, height } => {
                self.resize(width, height);
                InputOutcome::ScheduleRender
            },
            InputEvent::KeyPressed(key) => match self.route_key(ctx, key.as_str()) {
                Some(action) => InputOutcome::Dispatch(action),
                None => InputOutcome::Ignored,
            },
            InputEvent::Paste(text) => match self.route_paste(ctx, text) {
                Some(action) => InputOutcome::Dispatch(action),
                None => InputOutcome::Ignored,
            },
        }
    }
}

} // verus!
