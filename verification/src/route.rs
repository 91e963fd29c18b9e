//! The two places that the example serves.
use vstd::prelude::*;

verus! {

/// A place that a request can ask for.
#[derive(Clone, Copy, Debug, PartialEq, Eq, Structural)]
pub enum Route {
    /// `/`: queues two messages and sends the client on.
    SetMessages,
    /// `/read-messages`: shows what is queued.
    ReadMessages,
}

impl Route {
    /// The path under which the route is served.
    pub open spec fn spec_path(self) -> Seq<char> {
        match self {
            Route::SetMessages => "/"@,
            Route::ReadMessages => "/read-messages"@,
        }
    }

    /// The route that is served under `path`, if any.
    pub open spec fn spec_from_path(path: Seq<char>) -> Option<Route> {
        if path == "/"@ {
            Some(Route::SetMessages)
        } else if path == "/read-messages"@ {
            Some(Route::ReadMessages)
        } else {
            None
        }
    }

    /// The path under which the route is served.
    pub fn path(self) -> (path: &'static str)
        ensures
            path@ == self.spec_path(),
    {
        match self {
            Route::SetMessages => "/",
            Route::ReadMessages => "/read-messages",
        }
    }

    /// Finds the route of a request path. The match is exact: `None` for
    /// every other path.
    pub fn from_path(path: &str) -> (route: Option<Route>)
        ensures
            route == Route::spec_from_path(path@),
    {
        if str_equal(path, "/") {
            Some(Route::SetMessages)
        } else if str_equal(path, "/read-messages") {
            Some(Route::ReadMessages)
        } else {
            None
        }
    }
}

/// Whether two strings hold the same characters.
fn str_equal(left: &str, right: &str) -> (same: bool)
    ensures
        same == (left@ == right@),
{
    let a = left.to_owned();
    let b = right.to_owned();
    a == b
}

} // verus!
