//! Request paths.

use vstd::prelude::*;

verus! {

/// The path of a request, as it stands on the request line.
#[derive(Eq, Hash, PartialEq, Debug)]
pub struct Route {
    pub route: String,
}

impl View for Route {
    type V = Seq<char>;

    /// A route is its path, as a sequence of characters.
    open spec fn view(&self) -> Seq<char> {
        self.route@
    }
}

impl Route {
    /// The route with the path `route`.
    pub fn new(route: &str) -> (r: Self)
        ensures
            r@ == route@,
    {
        Route { route: route.to_owned() }
    }
}

impl vstd::std_specs::convert::FromSpecImpl<&str> for Route {
    /// The conversion is stated over the route's view, by `from` itself.
    open spec fn obeys_from_spec() -> bool {
        false
    }

    open spec fn from_spec(route: &str) -> Route {
        arbitrary()
    }
}

impl From<&str> for Route {
    fn from(route: &str) -> (r: Route)
        ensures
            r@ == route@,
    {
        Route::new(route)
    }
}

} // verus!
