//! The routes the server answers: the home page and the static files always,
//! the reload socket in development mode only.

use vstd::prelude::*;

verus! {

/// One of the server's routes.
#[derive(Clone, Copy, Debug, PartialEq, Eq, Structural)]
pub enum Route {
    /// `GET /`: the home page.
    Home,
    /// `GET /static/<path>`: a file of the static-asset directory.
    StaticFiles,
    /// `GET /ws`: the upgrade to the reload socket.
    ReloadSocket,
}

impl Route {
    /// The path that the route is mounted at.
    pub open spec fn path_spec(self) -> Seq<char> {
        match self {
            Route::Home => "/"@,
            Route::StaticFiles => "/static"@,
            Route::ReloadSocket => "/ws"@,
        }
    }

    pub fn path(self) -> (path: &'static str)
        ensures
            path@ == self.path_spec(),
    {
        match self {
            Route::Home => "/",
            Route::StaticFiles => "/static",
            Route::ReloadSocket => "/ws",
        }
    }
}

/// The routes of a server, in the order they are registered: with the reload
/// socket exactly in development mode.
pub open spec fn routes_spec(dev_mode: bool) -> Seq<Route> {
    if dev_mode {
        seq![Route::Home, Route::StaticFiles, Route::ReloadSocket]
    } else {
        seq![Route::Home, Route::StaticFiles]
    }
}

/// The routes to register.
pub fn routes(dev_mode: bool) -> (table: Vec<Route>)
    ensures
        table@ == routes_spec(dev_mode),
        table@.contains(Route::ReloadSocket) == dev_mode,
{
    let mut table: Vec<Route> = Vec::new();
    table.push(Route::Home);
    table.push(Route::StaticFiles);
    if dev_mode {
        table.push(Route::ReloadSocket);
    }
    proof {
        assert(table@ =~= routes_spec(dev_mode));
        if dev_mode {
            assert(table@[2] == Route::ReloadSocket);
        }
    }
    table
}

} // verus!
