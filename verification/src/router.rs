//! The route table of the light server: two address templates, held in a `matchit` router.

use vstd::prelude::*;

verus! {

/// What an address asks for.
#[derive(Debug, Clone, Copy, PartialEq, Eq, Structural)]
pub enum Command {
    /// Set one color of a light: `/lights/{id}/{color}`.
    Color,
    /// Switch a light off: `/reset/{id}`.
    Reset,
}

/// A matched address with the text bound to each parameter of its template.
#[derive(Debug, Clone, PartialEq, Eq)]
pub enum RouteMatch {
    Color { id: String, color: String },
    Reset { id: String },
}

/// A matched address, as mathematical values.
pub enum BoundRoute {
    Color { id: Seq<char>, color: Seq<char> },
    Reset { id: Seq<char> },
}

impl View for RouteMatch {
    type V = BoundRoute;

    open spec fn view(&self) -> BoundRoute {
        match self {
            RouteMatch::Color { id, color } => BoundRoute::Color { id: id@, color: color@ },
            RouteMatch::Reset { id } => BoundRoute::Reset { id: id@ },
        }
    }
}

/// `matchit::Router`, the router that holds the routes. Nothing is known of its inside:
/// what it holds is spoken of through [`router_routes`].
#[verifier::external_type_specification]
#[verifier::external_body]
#[verifier::reject_recursive_types(T)]
pub struct ExRouter<T>(matchit::Router<T>);

/// `matchit::InsertError`, the router's reason for refusing a template. It is carried
/// through and never read.
#[verifier::external_type_specification]
#[verifier::external_body]
pub struct ExInsertError(matchit::InsertError);

/// The routes that a router holds: template and command, in the order of insertion.
pub uninterp spec fn router_routes(router: matchit::Router<Command>) -> Seq<(Seq<char>, Command)>;

/// Whether `matchit` accepts `route` as a further template beside `routes`.
pub uninterp spec fn insert_accepted(routes: Seq<(Seq<char>, Command)>, route: Seq<char>) -> bool;

/// What `matchit` finds for `path` among `routes`: the command of the matching route
/// and the parameters it bound, as pairs of name and text, or `None` where no route
/// matches.
pub uninterp spec fn route_lookup(routes: Seq<(Seq<char>, Command)>, path: Seq<char>) -> Option<
    (Command, Seq<(Seq<char>, Seq<char>)>),
>;

/// The parameters of a match as pairs of mathematical texts.
pub open spec fn params_view(params: Seq<(String, String)>) -> Seq<(Seq<char>, Seq<char>)> {
    Seq::new(params.len(), |i: int| (params[i].0@, params[i].1@))
}

/// Calls `matchit::Router::new`.
///
/// Not proved: that the new router holds no route.
#[verifier::external_body]
fn router_new() -> (router: matchit::Router<Command>)
    ensures
        router_routes(router) == Seq::<(Seq<char>, Command)>::empty(),
{
    matchit::Router::new()
}

/// Calls `matchit::Router::insert`.
///
/// `matchit` panics on a template with more than 25 parameters. Each parameter takes at
/// least three characters, so a template of fewer than 78 characters is safe.
///
/// Not proved: that whether the template is accepted depends on the routes held and on
/// the template alone, and that an accepted template is added behind the routes held.
/// Of a router that refused a template nothing is claimed.
#[verifier::external_body]
fn router_insert(router: &mut matchit::Router<Command>, route: &str, value: Command) -> (inserted:
    Result<(), matchit::InsertError>)
    requires
        route@.len() < 78,
    ensures
        inserted is Ok <==> insert_accepted(router_routes(*old(router)), route@),
        inserted is Ok ==> router_routes(*final(router)) == router_routes(*old(router)).push(
            (route@, value),
        ),
{
    router.insert(route, value)
}

/// Calls `matchit::Router::at` and copies the command and the parameters out of the
/// match.
///
/// Not proved: that the result depends on the routes held and on the path alone, so
/// that it is `route_lookup` of them.
#[verifier::external_body]
fn router_at(router: &matchit::Router<Command>, path: &str) -> (found: Option<
    (Command, Vec<(String, String)>),
>)
    ensures
        match found {
            Some((command, params)) => route_lookup(router_routes(*router), path@) == Some(
                (command, params_view(params@)),
            ),
            None => route_lookup(router_routes(*router), path@) is None,
        },
{
    match router.at(path) {
        Ok(found) => {
            let params = found.params.iter();
            Some((*found.value, params.map(|(k, v)| (k.to_string(), v.to_string())).collect()))
        },
        Err(_) => None,
    }
}

/// The template of the color route.
pub open spec fn color_route() -> Seq<char> {
    "/lights/{id}/{color}"@
}

/// The template of the reset route.
pub open spec fn reset_route() -> Seq<char> {
    "/reset/{id}"@
}

/// The two routes of the light server, in the order in which they are registered.
pub open spec fn route_table() -> Seq<(Seq<char>, Command)> {
    seq![(color_route(), Command::Color), (reset_route(), Command::Reset)]
}

/// The first of the two templates of [`route_table`] that `matchit` refuses when they
/// are registered one after the other, or `None` where it accepts both.
pub open spec fn refused_route() -> Option<RouteTableError> {
    if !insert_accepted(Seq::empty(), color_route()) {
        Some(RouteTableError::ColorRouteRefused)
    } else if !insert_accepted(seq![(color_route(), Command::Color)], reset_route()) {
        Some(RouteTableError::ResetRouteRefused)
    } else {
        None
    }
}

/// The text bound to the first parameter called `name`, if there is one.
pub open spec fn param_value(params: Seq<(Seq<char>, Seq<char>)>, name: Seq<char>) -> Option<
    Seq<char>,
>
    decreases params.len(),
{
    if params.len() == 0 {
        None
    } else if params[0].0 == name {
        Some(params[0].1)
    } else {
        param_value(params.drop_first(), name)
    }
}

/// The match that a command and its parameters make: `None` where a parameter that the
/// command's template names is not among them.
pub open spec fn spec_bind(command: Command, params: Seq<(Seq<char>, Seq<char>)>) -> Option<
    BoundRoute,
> {
    match command {
        Command::Color => match (param_value(params, "id"@), param_value(params, "color"@)) {
            (Some(id), Some(color)) => Some(BoundRoute::Color { id, color }),
            _ => None,
        },
        Command::Reset => match param_value(params, "id"@) {
            Some(id) => Some(BoundRoute::Reset { id }),
            None => None,
        },
    }
}

/// What the route table makes of an address.
pub open spec fn spec_route(path: Seq<char>) -> Option<BoundRoute> {
    match route_lookup(route_table(), path) {
        Some((command, params)) => spec_bind(command, params),
        None => None,
    }
}

/// The text bound to the first parameter called `name`, if there is one.
pub fn find_param(params: &Vec<(String, String)>, name: &str) -> (text: Option<String>)
    ensures
        match text {
            Some(text) => param_value(params_view(params@), name@) == Some(text@),
            None => param_value(params_view(params@), name@) is None,
        },
{
    let wanted = String::from_str(name);
    let ghost all = params_view(params@);
    let mut i: usize = 0;
    assert(all.skip(0) =~= all);
    while i < params.len()
        invariant
            i <= params.len(),
            all == params_view(params@),
            wanted@ == name@,
            param_value(all.skip(i as int), name@) == param_value(all, name@),
        decreases params.len() - i,
    {
        let ghost rest = all.skip(i as int);
        assert(rest[0] == all[i as int]);
        assert(rest.drop_first() =~= all.skip(i + 1));
        if params[i].0 == wanted {
            return Some(params[i].1.clone());
        }
        i += 1;
    }
    assert(all.skip(i as int).len() == 0);
    None
}

/// Makes the match of a command and the parameters that the router bound: `None` where
/// a parameter that the command's template names is not among them.
pub fn bind_route(command: Command, params: &Vec<(String, String)>) -> (bound: Option<RouteMatch>)
    ensures
        match bound {
            Some(route) => spec_bind(command, params_view(params@)) == Some(route@),
            None => spec_bind(command, params_view(params@)) is None,
        },
{
    match command {
        Command::Color => {
            let id = find_param(params, "id");
            let color = find_param(params, "color");
            match (id, color) {
                (Some(id), Some(color)) => Some(RouteMatch::Color { id, color }),
                _ => None,
            }
        },
        Command::Reset => match find_param(params, "id") {
            Some(id) => Some(RouteMatch::Reset { id }),
            None => None,
        },
    }
}

/// Why the route table could not be built.
#[derive(Debug, Clone, Copy, PartialEq, Eq, Structural)]
pub enum RouteTableError {
    /// The router refused the template of the color route.
    ColorRouteRefused,
    /// The router refused the template of the reset route.
    ResetRouteRefused,
}

/// The route table of the light server. It holds the two routes of [`route_table`] from
/// its making on, and nothing changes it.
pub struct RouteTable {
    router: matchit::Router<Command>,
}

impl RouteTable {
    #[verifier::type_invariant]
    spec fn holds_route_table(self) -> bool {
        router_routes(self.router) == route_table()
    }

    /// Registers the two routes. The table is made exactly when the router accepts both
    /// templates; otherwise the error names the first that it refused.
    pub fn new() -> (table: Result<Self, RouteTableError>)
        ensures
            match table {
                Ok(_) => refused_route() is None,
                Err(error) => refused_route() == Some(error),
            },
    {
        proof {
            reveal_strlit("/lights/{id}/{color}");
            reveal_strlit("/reset/{id}");
        }
        let mut router = router_new();
        if router_insert(&mut router, "/lights/{id}/{color}", Command::Color).is_err() {
            return Err(RouteTableError::ColorRouteRefused);
        }
        assert(router_routes(router) =~= seq![(color_route(), Command::Color)]);
        if router_insert(&mut router, "/reset/{id}", Command::Reset).is_err() {
            return Err(RouteTableError::ResetRouteRefused);
        }
        assert(router_routes(router) =~= route_table());
        Ok(RouteTable { router })
    }

    /// Matches an address against the two routes and binds the parameters of the one
    /// that matches.
    pub fn route(&self, path: &str) -> (found: Option<RouteMatch>)
        ensures
            match found {
                Some(route) => spec_route(path@) == Some(route@),
                None => spec_route(path@) is None,
            },
    {
        proof {
            use_type_invariant(self);
        }
        match router_at(&self.router, path) {
            Some((command, params)) => bind_route(command, &params),
            None => None,
        }
    }
}

} // verus!
