use vstd::prelude::*;
use vstd::string::*;
use crate::token::same_text;

verus! {

/// What the front end is told when the application is launched with a URL.
#[derive(Clone, Copy, Debug, PartialEq, Eq, Structural)]
pub enum LaunchEvent {
    DeepLinkReceived,
    OauthCallback,
    SessionToken,
}

impl LaunchEvent {
    /// The event's name on the wire.
    pub open spec fn label(self) -> Seq<char> {
        match self {
            LaunchEvent::DeepLinkReceived => "deep-link-received"@,
            LaunchEvent::OauthCallback => "oauth-callback"@,
            LaunchEvent::SessionToken => "session-token"@,
        }
    }

    pub fn as_str(&self) -> (r: &'static str)
        ensures
            r@ == self.label(),
    {
        match self {
            LaunchEvent::DeepLinkReceived => "deep-link-received",
            LaunchEvent::OauthCallback => "oauth-callback",
            LaunchEvent::SessionToken => "session-token",
        }
    }
}

/// Whether `s` begins with `p`.
pub open spec fn has_prefix(s: Seq<char>, p: Seq<char>) -> bool {
    p.len() <= s.len() && s.subrange(0, p.len() as int) == p
}

/// Whether `p` stands in `s` at position `i`.
pub open spec fn occurs_at(s: Seq<char>, p: Seq<char>, i: int) -> bool {
    0 <= i && i + p.len() <= s.len() && s.subrange(i, i + p.len()) == p
}

/// Whether `p` stands anywhere in `s`.
pub open spec fn has_part(s: Seq<char>, p: Seq<char>) -> bool {
    exists|i: int| occurs_at(s, p, i)
}

/// The events that a launch URL calls for: a deep link of the application's
/// own scheme is announced under all three names, any other URL that speaks
/// of a login carries a session token, and everything else is ignored.
pub open spec fn events_for(url: Seq<char>) -> Seq<LaunchEvent> {
    if has_prefix(url, "myapp://"@) {
        seq![LaunchEvent::DeepLinkReceived, LaunchEvent::OauthCallback, LaunchEvent::SessionToken]
    } else if has_part(url, "login"@) {
        seq![LaunchEvent::SessionToken]
    } else {
        Seq::empty()
    }
}

/// The events that a command line calls for: those of its first argument,
/// the word after the program's name.
pub open spec fn launch_events_of(argv: Seq<String>) -> Seq<LaunchEvent> {
    if argv.len() > 1 {
        events_for(argv[1]@)
    } else {
        Seq::empty()
    }
}

pub fn text_starts_with(s: &str, p: &str) -> (r: bool)
    ensures
        r == has_prefix(s@, p@),
{
    let n = s.unicode_len();
    let m = p.unicode_len();
    if m > n {
        false
    } else {
        same_text(s.substring_char(0, m), p)
    }
}

pub fn text_contains(s: &str, p: &str) -> (r: bool)
    ensures
        r == has_part(s@, p@),
{
    let n = s.unicode_len();
    let m = p.unicode_len();
    if m > n {
        return false;
    }
    let last = n - m;
    let mut i: usize = 0;
    while i < last
        invariant
            last == n - m,
            n == s@.len(),
            m == p@.len(),
            i <= last,
            forall|j: int| 0 <= j < i ==> !occurs_at(s@, p@, j),
        decreases last - i,
    {
        if same_text(s.substring_char(i, i + m), p) {
            assert(occurs_at(s@, p@, i as int));
            return true;
        }
        i += 1;
    }
    let found = same_text(s.substring_char(last, n), p);
    assert(found == occurs_at(s@, p@, last as int));
    found
}

/// Decides which events a launch URL calls for.
pub fn url_events(url: &str) -> (r: Vec<LaunchEvent>)
    ensures
        r@ == events_for(url@),
{
    let mut events: Vec<LaunchEvent> = Vec::new();
    if text_starts_with(url, "myapp://") {
        events.push(LaunchEvent::DeepLinkReceived);
        events.push(LaunchEvent::OauthCallback);
        events.push(LaunchEvent::SessionToken);
        assert(events@ =~= events_for(url@));
    } else if text_contains(url, "login") {
        events.push(LaunchEvent::SessionToken);
        assert(events@ =~= events_for(url@));
    }
    events
}

/// Decides which events the command line of a second launch calls for.
pub fn launch_events(argv: &Vec<String>) -> (r: Vec<LaunchEvent>)
    ensures
        r@ == launch_events_of(argv@),
{
    if argv.len() > 1 {
        url_events(argv[1].as_str())
    } else {
        Vec::new()
    }
}

} // verus!
