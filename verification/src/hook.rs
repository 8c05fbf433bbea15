//! Hook events fired by the agent runtime, and the result a handler returns.

use vstd::prelude::*;
use crate::strutil::{lower_of, lowercase, push_char, str_eq};

verus! {

/// The events a plugin can subscribe to.
#[derive(Debug, Clone, Copy, PartialEq, Eq, Structural)]
pub enum HookEvent {
    PreToolUse,
    PostToolUse,
    Stop,
    SessionStart,
    SessionEnd,
    SubagentStop,
    Notification,
    PermissionRequest,
    UserPromptSubmit,
    PreCompact,
}

/// The sequence with every `-` and `_` removed.
pub open spec fn strip_seps(s: Seq<char>) -> Seq<char>
    decreases s.len(),
{
    if s.len() == 0 {
        Seq::empty()
    } else {
        let rest = strip_seps(s.drop_last());
        if s.last() == '-' || s.last() == '_' {
            rest
        } else {
            rest.push(s.last())
        }
    }
}

/// Case folding with `-` and `_` removed: the normal form under which event
/// names are compared.
pub open spec fn norm_seq(s: Seq<char>) -> Seq<char> {
    strip_seps(lower_of(s))
}

/// Which event a name denotes: comparison is case-insensitive and ignores
/// `-` and `_` separators.
pub open spec fn spec_event_of(s: Seq<char>) -> Option<HookEvent> {
    let n = norm_seq(s);
    if n == "pretooluse"@ {
        Some(HookEvent::PreToolUse)
    } else if n == "posttooluse"@ {
        Some(HookEvent::PostToolUse)
    } else if n == "stop"@ {
        Some(HookEvent::Stop)
    } else if n == "sessionstart"@ {
        Some(HookEvent::SessionStart)
    } else if n == "sessionend"@ {
        Some(HookEvent::SessionEnd)
    } else if n == "subagentstop"@ {
        Some(HookEvent::SubagentStop)
    } else if n == "notification"@ {
        Some(HookEvent::Notification)
    } else if n == "permissionrequest"@ {
        Some(HookEvent::PermissionRequest)
    } else if n == "userpromptsubmit"@ {
        Some(HookEvent::UserPromptSubmit)
    } else if n == "precompact"@ {
        Some(HookEvent::PreCompact)
    } else {
        None
    }
}

/// The canonical (documented) name of each event.
pub open spec fn spec_event_name(e: HookEvent) -> Seq<char> {
    match e {
        HookEvent::PreToolUse => "PreToolUse"@,
        HookEvent::PostToolUse => "PostToolUse"@,
        HookEvent::Stop => "Stop"@,
        HookEvent::SessionStart => "SessionStart"@,
        HookEvent::SessionEnd => "SessionEnd"@,
        HookEvent::SubagentStop => "SubagentStop"@,
        HookEvent::Notification => "Notification"@,
        HookEvent::PermissionRequest => "PermissionRequest"@,
        HookEvent::UserPromptSubmit => "UserPromptSubmit"@,
        HookEvent::PreCompact => "PreCompact"@,
    }
}

impl HookEvent {
    /// Parses an event name: `PreToolUse`, `pretooluse`, `pre-tool-use` and
    /// `pre_tool_use` all denote the same event.
    pub fn from_str(s: &str) -> (r: Option<HookEvent>)
        ensures
            r == spec_event_of(s@),
    {
        let n = normalize_event_name(s);
        let ns = n.as_str();
        if str_eq(ns, "pretooluse") {
            Some(HookEvent::PreToolUse)
        } else if str_eq(ns, "posttooluse") {
            Some(HookEvent::PostToolUse)
        } else if str_eq(ns, "stop") {
            Some(HookEvent::Stop)
        } else if str_eq(ns, "sessionstart") {
            Some(HookEvent::SessionStart)
        } else if str_eq(ns, "sessionend") {
            Some(HookEvent::SessionEnd)
        } else if str_eq(ns, "subagentstop") {
            Some(HookEvent::SubagentStop)
        } else if str_eq(ns, "notification") {
            Some(HookEvent::Notification)
        } else if str_eq(ns, "permissionrequest") {
            Some(HookEvent::PermissionRequest)
        } else if str_eq(ns, "userpromptsubmit") {
            Some(HookEvent::UserPromptSubmit)
        } else if str_eq(ns, "precompact") {
            Some(HookEvent::PreCompact)
        } else {
            None
        }
    }

    /// The canonical name of the event.
    pub fn as_str(&self) -> (r: &'static str)
        ensures
            r@ == spec_event_name(*self),
    {
        match self {
            HookEvent::PreToolUse => "PreToolUse",
            HookEvent::PostToolUse => "PostToolUse",
            HookEvent::Stop => "Stop",
            HookEvent::SessionStart => "SessionStart",
            HookEvent::SessionEnd => "SessionEnd",
            HookEvent::SubagentStop => "SubagentStop",
            HookEvent::Notification => "Notification",
            HookEvent::PermissionRequest => "PermissionRequest",
            HookEvent::UserPromptSubmit => "UserPromptSubmit",
            HookEvent::PreCompact => "PreCompact",
        }
    }
}

/// Lowercases a name and removes `-` and `_`.
fn normalize_event_name(s: &str) -> (r: String)
    ensures
        r@ == norm_seq(s@),
{
    let low = lowercase(s);
    let lw = low.as_str();
    let n = lw.unicode_len();
    let mut r = String::new();
    let mut i: usize = 0;
    while i < n
        invariant
            n == lw@.len(),
            lw@ == lower_of(s@),
            i <= n,
            r@ == strip_seps(lw@.subrange(0, i as int)),
        decreases n - i,
    {
        let ghost pre = lw@.subrange(0, i as int);
        let c = lw.get_char(i);
        if c != '-' && c != '_' {
            push_char(&mut r, c);
        }
        proof {
            let post = lw@.subrange(0, i + 1 as int);
            assert(post.drop_last() =~= pre);
            assert(post.last() == lw@[i as int]);
        }
        i = i + 1;
    }
    proof {
        assert(lw@.subrange(0, n as int) =~= lw@);
    }
    r
}

/// What a hook handler decided.
#[derive(Debug, Clone)]
pub enum HookResult {
    /// Allow the action to proceed.
    Allow,
    /// Block the action.
    Block { message: String },
    /// An error occurred; it is reported but does not block.
    Error { message: String },
}

impl HookResult {
    /// The process exit code that reports this result: blocking exits with 2,
    /// everything else with 0.
    pub fn exit_code(&self) -> (r: i32)
        ensures
            r == (if self is Block { 2int } else { 0int }),
    {
        match self {
            HookResult::Allow => 0,
            HookResult::Block { .. } => 2,
            HookResult::Error { .. } => 0,
        }
    }
}

} // verus!
