//! Script hooks: the events that user scripts can handle, the actions they
//! can ask of the browser, and the snippet that runs a hook when an event
//! fires. A hook is a script function named after its event (`on_start`,
//! `on_quit`, `on_key(key)`); an event whose hook is not defined does
//! nothing.
use vstd::prelude::*;
use crate::text::{chars_of, push_str, string_from_chars};

verus! {

/// Event hooks that scripts can define.
#[derive(Debug, Clone)]
pub enum ScriptEvent {
    /// Fired when the browser starts.
    OnStart,
    /// Fired when the browser is quitting.
    OnQuit,
    /// Fired on key press with the key name.
    OnKey(String),
}

/// Actions that scripts can trigger.
#[derive(Debug, Clone)]
pub enum ScriptAction {
    /// Navigate to a URL.
    Navigate(String),
    /// Add a bookmark.
    AddBookmark { url: String, title: String },
}

/// The name of the script function that handles an event.
pub open spec fn hook_name_of(event: ScriptEvent) -> Seq<char> {
    match event {
        ScriptEvent::OnStart => "on_start"@,
        ScriptEvent::OnQuit => "on_quit"@,
        ScriptEvent::OnKey(_) => "on_key"@,
    }
}

/// The snippet that calls an event's hook when the scripts define it, with
/// the key name as the argument of `on_key`.
pub open spec fn hook_script_of(event: ScriptEvent) -> Seq<char> {
    let name = hook_name_of(event);
    match event {
        ScriptEvent::OnKey(key) => "if is_def_fn(\""@ + name + "\", 1) { "@ + name + "(\""@ + key@
            + "\"); }"@,
        _ => "if is_def_fn(\""@ + name + "\", 0) { "@ + name + "(); }"@,
    }
}

/// The name of the script function that handles an event.
pub fn hook_name(event: &ScriptEvent) -> (r: &'static str)
    ensures
        r@ == hook_name_of(*event),
{
    match event {
        ScriptEvent::OnStart => "on_start",
        ScriptEvent::OnQuit => "on_quit",
        ScriptEvent::OnKey(_) => "on_key",
    }
}

/// The snippet that runs an event's hook.
pub fn hook_script(event: &ScriptEvent) -> (r: String)
    ensures
        r@ == hook_script_of(*event),
{
    let name = hook_name(event);
    let mut out = chars_of("if is_def_fn(\"");
    push_str(&mut out, name);
    match event {
        ScriptEvent::OnKey(key) => {
            push_str(&mut out, "\", 1) { ");
            push_str(&mut out, name);
            push_str(&mut out, "(\"");
            push_str(&mut out, key.as_str());
            push_str(&mut out, "\"); }");
        },
        _ => {
            push_str(&mut out, "\", 0) { ");
            push_str(&mut out, name);
            push_str(&mut out, "(); }");
        },
    }
    string_from_chars(out.as_slice())
}

} // verus!
