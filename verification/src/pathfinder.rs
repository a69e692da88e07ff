//! The path finding state of a moving unit: idle, waiting for a route, or
//! following one (possibly while a new route is being computed).

use vstd::prelude::*;
use crate::slim::Slim;

verus! {

/// Where a unit stands with its route; `P` is a point of the ground plane.
#[derive(Debug)]
pub enum PathFinder<P> {
    Idle,
    /// A route from the first point to the second has been asked for.
    Queued(P, P),
    /// The unit follows these waypoints.
    Ready(Vec<P>),
    /// The unit follows these waypoints while a new route, from the first point
    /// to the second, has been asked for.
    ReQueue(Vec<P>, P, P),
}

/// The abstract state of a path finder: its waypoints are a sequence.
pub enum PathState<P> {
    Idle,
    Queued(P, P),
    Ready(Seq<P>),
    ReQueue(Seq<P>, P, P),
}

impl<P> View for PathFinder<P> {
    type V = PathState<P>;

    open spec fn view(&self) -> PathState<P> {
        match self {
            PathFinder::Idle => PathState::Idle,
            PathFinder::Queued(s, e) => PathState::Queued(*s, *e),
            PathFinder::Ready(p) => PathState::Ready(p@),
            PathFinder::ReQueue(p, s, e) => PathState::ReQueue(p@, *s, *e),
        }
    }
}

/// The trip that is waiting for a route, if any.
pub open spec fn pending_trip<P>(s: PathState<P>) -> Option<(P, P)> {
    match s {
        PathState::Queued(a, b) => Some((a, b)),
        PathState::ReQueue(_, a, b) => Some((a, b)),
        _ => None,
    }
}

/// The waypoints being followed, if any.
pub open spec fn current_path<P>(s: PathState<P>) -> Option<Seq<P>> {
    match s {
        PathState::Ready(p) => Some(p),
        PathState::ReQueue(p, _, _) => Some(p),
        _ => None,
    }
}

/// The state after a new trip has been asked for: the route being followed is
/// kept, and the trip replaces any trip that was waiting.
pub open spec fn with_trip<P>(s: PathState<P>, start: P, end: P) -> PathState<P> {
    match current_path(s) {
        Some(p) => PathState::ReQueue(p, start, end),
        None => PathState::Queued(start, end),
    }
}

/// The state after the route being followed is dropped: a waiting trip stays.
pub open spec fn without_route<P>(s: PathState<P>) -> PathState<P> {
    match pending_trip(s) {
        Some((start, end)) => PathState::Queued(start, end),
        None => PathState::Idle,
    }
}

/// A copy of the waypoints.
fn copy_path<P: Copy>(path: &Vec<P>) -> (r: Vec<P>)
    ensures
        r@ == path@,
{
    let mut r: Vec<P> = Vec::new();
    let mut i: usize = 0;
    while i < path.len()
        invariant
            0 <= i <= path.len(),
            r@ == path@.take(i as int),
        decreases path.len() - i,
    {
        r.push(path[i]);
        proof { assert(path@.take(i + 1) =~= path@.take(i as int).push(path@[i as int])); }
        i = i + 1;
    }
    proof { assert(path@.take(path.len() as int) =~= path@); }
    r
}

impl<P: Copy> Default for PathFinder<P> {
    fn default() -> (r: Self)
        ensures
            r@ == PathState::<P>::Idle,
    {
        PathFinder::Idle
    }
}

impl<P: Copy> PathFinder<P> {
    /// The trip waiting for a route, if any.
    pub fn trip(&self) -> (r: Option<(P, P)>)
        ensures
            r == pending_trip(self@),
    {
        match self {
            PathFinder::Queued(start, end) => Some((*start, *end)),
            PathFinder::ReQueue(_, start, end) => Some((*start, *end)),
            _ => None,
        }
    }

    /// Asks for a route from `start` to `end`, keeping any route being followed.
    pub fn set_trip(&mut self, trip: (P, P))
        ensures
            final(self)@ == with_trip(old(self)@, trip.0, trip.1),
    {
        let (start, end) = trip;
        let next = match self {
            PathFinder::Idle => PathFinder::Queued(start, end),
            PathFinder::Queued(_, _) => PathFinder::Queued(start, end),
            PathFinder::Ready(path) => PathFinder::ReQueue(copy_path(path), start, end),
            PathFinder::ReQueue(path, _, _) => PathFinder::ReQueue(copy_path(path), start, end),
        };
        *self = next;
    }

    /// A copy of the waypoints being followed, if any.
    pub fn path(&self) -> (r: Option<Vec<P>>)
        ensures
            r matches Some(p) ==> current_path(self@) == Some(p@),
            r is None ==> current_path(self@) is None,
    {
        match self {
            PathFinder::Ready(path) => Some(copy_path(path)),
            PathFinder::ReQueue(path, _, _) => Some(copy_path(path)),
            _ => None,
        }
    }

    /// Drops the first waypoint, once the unit has reached it.
    pub fn reach_waypoint(&mut self)
        requires
            old(self)@ matches PathState::Ready(p) ==> p.len() > 0,
            old(self)@ matches PathState::ReQueue(p, _, _) ==> p.len() > 0,
        ensures
            final(self)@ == match old(self)@ {
                PathState::Ready(p) => PathState::Ready(p.drop_first()),
                PathState::ReQueue(p, a, b) => PathState::ReQueue(p.drop_first(), a, b),
                other => other,
            },
    {
        match self {
            PathFinder::Ready(path) => {
                path.remove(0);
            },
            PathFinder::ReQueue(path, _, _) => {
                path.remove(0);
            },
            _ => {},
        }
        proof {
            match old(self)@ {
                PathState::Ready(p) => { assert(p.remove(0) =~= p.drop_first()); },
                PathState::ReQueue(p, _, _) => { assert(p.remove(0) =~= p.drop_first()); },
                _ => {},
            }
        }
    }
}

impl<P: Copy> PathFinder<P> {
    /// Drops the route being followed, once it has run out of waypoints; a trip
    /// waiting for a route is kept.
    pub fn clear_path(&mut self)
        ensures
            final(self)@ == without_route(old(self)@),
    {
        let next = match self {
            PathFinder::Ready(_) => PathFinder::Idle,
            PathFinder::ReQueue(_, start, end) => PathFinder::Queued(*start, *end),
            PathFinder::Queued(start, end) => PathFinder::Queued(*start, *end),
            PathFinder::Idle => PathFinder::Idle,
        };
        *self = next;
    }
}

impl<P: Copy> Slim for PathFinder<P> {
    /// An idle path finder is saved as the default.
    open spec fn nothing_to_save(&self) -> bool {
        self@ is Idle
    }

    /// The copy is in the same state, with the same points.
    open spec fn same_content(&self, copy: &Self) -> bool {
        copy@ == self@
    }

    fn slim(&self) -> (r: Option<Self>) {
        match self {
            PathFinder::Idle => None,
            PathFinder::Queued(start, end) => Some(PathFinder::Queued(*start, *end)),
            PathFinder::Ready(path) => Some(PathFinder::Ready(copy_path(path))),
            PathFinder::ReQueue(path, start, end) => Some(PathFinder::ReQueue(copy_path(path), *start, *end)),
        }
    }
}

/// The cells of a route found from a start cell, without that start cell; no
/// route gives none.
pub open spec fn route_from(found: Option<Vec<(isize, isize)>>) -> Seq<(isize, isize)> {
    match found {
        Some(cells) => cells@.drop_first(),
        None => Seq::empty(),
    }
}

/// The cells a unit walks through, from the cells of a route found from its
/// start cell: the start cell itself is left out; no route gives none.
pub fn route_cells(found: Option<Vec<(isize, isize)>>) -> (r: Vec<(isize, isize)>)
    requires
        found matches Some(cells) ==> cells.len() > 0,
    ensures
        r@ == route_from(found),
{
    match found {
        Some(mut cells) => {
            cells.remove(0);
            cells
        },
        None => Vec::new(),
    }
}

/// The routes handed back, in order, for a trip from the cell `start` to the
/// cell `end`, given what the search over the grid `found`: a trip that stays
/// in its cell first gets an empty route; then the route found (without its
/// start cell) is handed back, or an empty one when there is none. The unit
/// follows the last.
pub fn trip_routes(start: (isize, isize), end: (isize, isize), found: Option<Vec<(isize, isize)>>) -> (r: Vec<Vec<(isize, isize)>>)
    requires
        found matches Some(cells) ==> cells.len() > 0,
    ensures
        r.len() == (if start == end { 2nat } else { 1nat }),
        start == end ==> r@[0]@ == Seq::<(isize, isize)>::empty(),
        r@[r.len() - 1]@ == route_from(found),
{
    let mut r: Vec<Vec<(isize, isize)>> = Vec::new();
    if start.0 == end.0 && start.1 == end.1 {
        r.push(Vec::new());
    }
    r.push(route_cells(found));
    r
}

/// Asking for a trip never loses the route being followed, and the trip asked
/// for last is the one waiting; dropping the route never loses the trip that
/// is waiting.
pub proof fn lemma_set_trip_keeps_route<P>(s: PathState<P>, start: P, end: P)
    ensures
        current_path(with_trip(s, start, end)) == current_path(s),
        pending_trip(with_trip(s, start, end)) == Some((start, end)),
        current_path(without_route(s)) is None,
        pending_trip(without_route(s)) == pending_trip(s),
{
}

} // verus!
