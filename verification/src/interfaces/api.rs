//! The roots of the HTTP API.
//!
//! All endpoints fall under one of the roots and are subject to what the
//! root promises. A root can be switched off by a flag.
use vstd::prelude::*;

verus! {

/// The value of the first flag called `name`, if there is one.
pub open spec fn flag_of(flags: Seq<(Seq<char>, bool)>, name: Seq<char>) -> Option<bool>
    decreases flags.len(),
{
    if flags.len() == 0 {
        None
    } else if flags.first().0 == name {
        Some(flags.first().1)
    } else {
        flag_of(flags.drop_first(), name)
    }
}

/// The value of the first flag called `name`, if there is one.
pub fn flag(flags: &Vec<(String, bool)>, name: &str) -> (value: Option<bool>)
    ensures
        value == flag_of(flags.deep_view(), name@),
{
    let ghost all = flags.deep_view();
    let mut i: usize = 0;
    assert(all.skip(0) =~= all);
    while i < flags.len()
        invariant
            i <= flags.len(),
            all == flags.deep_view(),
            flag_of(all, name@) == flag_of(all.skip(i as int), name@),
        decreases flags.len() - i,
    {
        proof {
            assert(all.skip(i as int).first() == all[i as int]);
            assert(all.skip(i as int).drop_first() =~= all.skip(i + 1));
        }
        if crate::text::str_eq(flags[i].0.as_str(), name) {
            return Some(flags[i].1);
        }
        i += 1;
    }
    None
}

/// Enumerates all possible API roots.
#[derive(Clone, Copy, Debug, PartialEq, Eq, Structural)]
pub enum APIRoot {
    /// API root for all endpoints that are not yet stable.
    ///
    /// Endpoints in this root are NOT subject to ANY compatibility guarantees!
    UnstableAPI,
    /// Introspection APIs not yet stable.
    UnstableIntrospect,
    /// Specialised endpoints for the WebUI project.
    UnstableWebUI,
}

impl APIRoot {
    /// Whether the root is served under the given flags. The unstable roots
    /// are served unless the flag `unstable` is off. The introspection root
    /// is served unless the flag `unstable` or the flag `introspect` is off.
    pub open spec fn spec_enabled(self, flags: Seq<(Seq<char>, bool)>) -> bool {
        let unstable = match flag_of(flags, "unstable"@) {
            Some(flag) => flag,
            None => true,
        };
        let introspect = match flag_of(flags, "introspect"@) {
            Some(flag) => flag,
            None => true,
        };
        match self {
            APIRoot::UnstableAPI => unstable,
            APIRoot::UnstableWebUI => unstable,
            APIRoot::UnstableIntrospect => unstable && introspect,
        }
    }

    /// The path under which the endpoints of the root are served.
    pub open spec fn spec_prefix(self) -> Seq<char> {
        match self {
            APIRoot::UnstableAPI => "/api/unstable"@,
            APIRoot::UnstableIntrospect => "/api/unstable/introspect"@,
            APIRoot::UnstableWebUI => "/api/unstable/webui"@,
        }
    }

    /// Whether the root is served under the given flags.
    pub fn enabled(&self, flags: &Vec<(String, bool)>) -> (enabled: bool)
        ensures
            enabled == self.spec_enabled(flags.deep_view()),
    {
        match self {
            APIRoot::UnstableAPI | APIRoot::UnstableWebUI => match flag(flags, "unstable") {
                Some(flag) => flag,
                None => true,
            },
            APIRoot::UnstableIntrospect => match flag(flags, "unstable") {
                Some(false) => false,
                _ => match flag(flags, "introspect") {
                    Some(flag) => flag,
                    None => true,
                },
            },
        }
    }

    /// The path under which the endpoints of the root are served.
    pub fn prefix(&self) -> (prefix: &'static str)
        ensures
            prefix@ == self.spec_prefix(),
    {
        match self {
            APIRoot::UnstableAPI => "/api/unstable",
            APIRoot::UnstableIntrospect => "/api/unstable/introspect",
            APIRoot::UnstableWebUI => "/api/unstable/webui",
        }
    }
}

/// The most events that the list of recent events holds.
pub const RECENT_EVENTS_LIMIT: usize = 100;

/// How the list of recent events is scanned: newest first, and at most
/// `RECENT_EVENTS_LIMIT` of them.
pub fn recent_events_options() -> (options: crate::streams::events::ScanOptions)
    ensures
        options == (crate::streams::events::ScanOptions {
            limit: Some(RECENT_EVENTS_LIMIT),
            reverse: true,
        }),
{
    crate::streams::events::ScanOptions { limit: Some(RECENT_EVENTS_LIMIT), reverse: true }
}

} // verus!
