//! The mouse-driven input state machines of the camera: placing a building,
//! noticing clicks that land on the interface, and dragging selection boxes.

use vstd::prelude::*;
use crate::identifiers::EntityId;

verus! {

/// Where the placement of a building stands. `I` is what the placement is
/// about (the constructor and the order it builds); the entity is the ghost
/// that shows the building before it is placed.
#[derive(Debug)]
pub enum PlacementStatus<I> {
    Idle,
    Began(I),
    Placing(I, EntityId),
    Rotating(I, EntityId),
    Canceled(I, EntityId),
    Completed(I, EntityId),
}

/// What the camera has to do, besides updating the placement status.
#[derive(Debug)]
pub enum PlacementEffect<I> {
    Nothing,
    /// The placement has begun: tell the constructor's commander to begin
    /// building (the ghost is now held by the status).
    AnnounceBegin,
    /// Move the ghost to the point under the cursor.
    FollowCursor,
    /// Turn the ghost towards the point under the cursor.
    RotateGhost,
    /// Turn the ghost towards the cursor, then tell the constructor's commander
    /// to finish the building where the ghost stands.
    RotateAndFinish,
    /// Remove the ghost of a canceled placement.
    Despawn(EntityId),
    /// Take the built order out of the constructor's queue and remove the ghost.
    Release(I, EntityId),
}

/// What the camera observed this frame.
#[derive(Debug, Clone, Copy)]
pub struct PlacementInput {
    /// The ghost that was just spawned, when the placement has just begun.
    pub new_ghost: Option<EntityId>,
    /// The left mouse button went down this frame.
    pub pressed: bool,
    /// The left mouse button went up this frame.
    pub released: bool,
    /// The constructor still exists.
    pub constructor_alive: bool,
}

/// The next status and the effect of one frame of building placement.
pub open spec fn placement_next<I>(s: PlacementStatus<I>, input: PlacementInput) -> (PlacementStatus<I>, PlacementEffect<I>) {
    match s {
        PlacementStatus::Idle => (PlacementStatus::Idle, PlacementEffect::Nothing),
        PlacementStatus::Began(info) => (PlacementStatus::Placing(info, input.new_ghost->0), PlacementEffect::AnnounceBegin),
        PlacementStatus::Placing(info, g) => (
            if !input.constructor_alive {
                PlacementStatus::Canceled(info, g)
            } else if input.pressed {
                PlacementStatus::Rotating(info, g)
            } else {
                PlacementStatus::Placing(info, g)
            },
            PlacementEffect::FollowCursor,
        ),
        PlacementStatus::Rotating(info, g) => if !input.constructor_alive {
            (PlacementStatus::Canceled(info, g), PlacementEffect::Nothing)
        } else if input.released {
            (PlacementStatus::Completed(info, g), PlacementEffect::RotateAndFinish)
        } else {
            (PlacementStatus::Rotating(info, g), PlacementEffect::RotateGhost)
        },
        PlacementStatus::Canceled(info, g) => (PlacementStatus::Idle, PlacementEffect::Despawn(g)),
        PlacementStatus::Completed(info, g) => (PlacementStatus::Idle, PlacementEffect::Release(info, g)),
    }
}

/// The placement of a building, with the last `U` frames of whether a
/// placement was under way (so that a click that ends a placement is not
/// also taken as a selection).
#[derive(Debug)]
pub struct CurrentPlacement<I, const U: usize> {
    pub status: PlacementStatus<I>,
    pub placing: [bool; U],
}

/// A placement is under way.
pub open spec fn active<I>(s: PlacementStatus<I>) -> bool {
    !(s is Idle)
}

/// The frame history after one frame: every entry moves one place towards the
/// front, and the last records `now`.
pub open spec fn shifted(history: Seq<bool>, now: bool) -> Seq<bool> {
    if history.len() == 0 { history } else { history.drop_first().push(now) }
}

impl<I, const U: usize> CurrentPlacement<I, U> {
    /// No placement, and none in the recent frames.
    pub fn new() -> (r: Self)
        ensures
            r.status is Idle,
            forall|i: int| 0 <= i < U ==> !r.placing@[i],
    {
        Self { status: PlacementStatus::Idle, placing: [false; U] }
    }

    /// Whether a placement is under way, or was in the oldest recorded frame.
    pub fn placing(&self) -> (r: bool)
        ensures
            r == ((U > 0 && self.placing@[0]) || active(self.status)),
    {
        let first = if U > 0 { self.placing[0] } else { false };
        first || !matches!(self.status, PlacementStatus::Idle)
    }

    /// Whether the placement has just begun, so that a ghost is to be spawned.
    pub fn needs_ghost(&self) -> (r: bool)
        ensures
            r == (self.status is Began),
    {
        matches!(self.status, PlacementStatus::Began(_))
    }

    /// One frame of building placement.
    pub fn step(&mut self, input: PlacementInput) -> (effect: PlacementEffect<I>)
        requires
            old(self).status is Began ==> input.new_ghost is Some,
        ensures
            final(self).placing@ == shifted(old(self).placing@, active(old(self).status)),
            (final(self).status, effect) == placement_next(old(self).status, input),
    {
        let now = !matches!(self.status, PlacementStatus::Idle);
        let mut i: usize = 1;
        let ghost history = self.placing@;
        while i < U
            invariant
                1 <= i <= U || U == 0,
                self.placing@.len() == U,
                history.len() == U,
                self.status == old(self).status,
                forall|j: int| 0 <= j < i - 1 ==> self.placing@[j] == history[j + 1],
                forall|j: int| i - 1 <= j < U ==> self.placing@[j] == history[j],
            decreases U - i,
        {
            self.placing[i - 1] = self.placing[i];
            i = i + 1;
        }
        if U > 0 {
            self.placing[U - 1] = now;
        }
        proof {
            if U > 0 {
                assert(self.placing@ =~= history.drop_first().push(now));
            } else {
                assert(self.placing@ =~= history);
            }
        }
        let mut status = PlacementStatus::Idle;
        std::mem::swap(&mut status, &mut self.status);
        let (next, effect) = match status {
            PlacementStatus::Idle => (PlacementStatus::Idle, PlacementEffect::Nothing),
            PlacementStatus::Began(info) => {
                let g = match input.new_ghost {
                    Some(spawned) => spawned,
                    None => 0,
                };
                (PlacementStatus::Placing(info, g), PlacementEffect::AnnounceBegin)
            },
            PlacementStatus::Placing(info, g) => {
                let next = if !input.constructor_alive {
                    PlacementStatus::Canceled(info, g)
                } else if input.pressed {
                    PlacementStatus::Rotating(info, g)
                } else {
                    PlacementStatus::Placing(info, g)
                };
                (next, PlacementEffect::FollowCursor)
            },
            PlacementStatus::Rotating(info, g) => {
                if !input.constructor_alive {
                    (PlacementStatus::Canceled(info, g), PlacementEffect::Nothing)
                } else if input.released {
                    (PlacementStatus::Completed(info, g), PlacementEffect::RotateAndFinish)
                } else {
                    (PlacementStatus::Rotating(info, g), PlacementEffect::RotateGhost)
                }
            },
            PlacementStatus::Canceled(_info, g) => (PlacementStatus::Idle, PlacementEffect::Despawn(g)),
            PlacementStatus::Completed(info, g) => (PlacementStatus::Idle, PlacementEffect::Release(info, g)),
        };
        self.status = next;
        effect
    }
}


/// A placement that was canceled or completed is over one frame later, and
/// its ghost is removed; without a placement nothing happens; a placement whose
/// constructor is gone is canceled.
pub proof fn lemma_placement_lifecycle<I>(s: PlacementStatus<I>, input: PlacementInput)
    ensures
        s is Idle ==> placement_next(s, input).0 is Idle && placement_next(s, input).1 is Nothing,
        s is Canceled ==> placement_next(s, input).0 is Idle
            && placement_next(s, input).1 == PlacementEffect::<I>::Despawn(s->Canceled_1),
        s is Completed ==> placement_next(s, input).0 is Idle
            && placement_next(s, input).1 == PlacementEffect::Release(s->Completed_0, s->Completed_1),
        (s is Placing || s is Rotating) && !input.constructor_alive ==> placement_next(s, input).0 is Canceled,
        placement_next(s, input).0 is Completed ==> s is Rotating && input.released && input.constructor_alive,
{
}

/// Which of the last `N` frames had a click land on the interface, and whether
/// the left button is held since such a click.
#[derive(Debug, Clone, Copy)]
pub struct UiHit<const N: usize> {
    pub hitting: [bool; N],
    pub holding: bool,
}

/// The frame history of interface hits after one frame: the newest entry is
/// cleared and every entry moves one place towards the front; a press on the
/// interface, or the release of a button held since one, marks every frame.
pub open spec fn ui_hit_next(hitting: Seq<bool>, holding: bool, pressed_on_ui: bool, left_released: bool) -> (Seq<bool>, bool) {
    let cleared = hitting.update(hitting.len() - 1, false);
    let moved = cleared.drop_first().push(cleared.last());
    let holding1 = holding || pressed_on_ui;
    let all = Seq::new(hitting.len(), |i: int| true);
    if left_released && holding1 {
        (all, false)
    } else if pressed_on_ui {
        (all, true)
    } else {
        (moved, holding)
    }
}

impl<const N: usize> UiHit<N> {
    /// No hits, and nothing held.
    pub fn new() -> (r: Self)
        ensures
            !r.holding,
            forall|i: int| 0 <= i < N ==> !r.hitting@[i],
    {
        UiHit { hitting: [false; N], holding: false }
    }

    /// One frame of interface hit detection: `pressed_on_ui` tells whether a
    /// visible interface element was pressed, `left_released` whether the left
    /// button was released.
    pub fn step(&mut self, pressed_on_ui: bool, left_released: bool)
        requires
            N > 0,
        ensures
            (final(self).hitting@, final(self).holding)
                == ui_hit_next(old(self).hitting@, old(self).holding, pressed_on_ui, left_released),
    {
        let ghost start = self.hitting@;
        self.hitting[N - 1] = false;
        let ghost cleared = self.hitting@;
        let mut b: usize = 1;
        while b < N
            invariant
                1 <= b <= N,
                self.hitting@.len() == N,
                self.holding == old(self).holding,
                cleared.len() == N,
                forall|j: int| 0 <= j < b - 1 ==> self.hitting@[j] == cleared[j + 1],
                forall|j: int| b - 1 <= j < N ==> self.hitting@[j] == cleared[j],
            decreases N - b,
        {
            self.hitting[b - 1] = self.hitting[b];
            b = b + 1;
        }
        proof {
            assert(self.hitting@ =~= cleared.drop_first().push(cleared.last()));
            assert(cleared =~= start.update(start.len() - 1, false));
        }
        let ghost all = Seq::new(N as nat, |i: int| true);
        if pressed_on_ui {
            self.mark_all();
            self.holding = true;
        }
        if left_released && self.holding {
            self.holding = false;
            self.mark_all();
        }
        proof {
            if pressed_on_ui || (left_released && old(self).holding) {
                assert(self.hitting@ =~= all);
            }
        }
    }

    fn mark_all(&mut self)
        ensures
            final(self).holding == old(self).holding,
            forall|i: int| 0 <= i < N ==> final(self).hitting@[i],
    {
        let mut b: usize = 0;
        while b < N
            invariant
                0 <= b <= N,
                self.holding == old(self).holding,
                forall|j: int| 0 <= j < b ==> self.hitting@[j],
            decreases N - b,
        {
            self.hitting[b] = true;
            b = b + 1;
        }
    }
}

/// Whether a selection box is being dragged.
#[derive(Debug, Clone, Copy, PartialEq, Eq, Structural)]
pub enum BoxSelectStatus {
    Idle,
    Dragging,
}

/// How a finished click selects: the object under the cursor, or a box.
#[derive(Debug, Clone, Copy, PartialEq, Eq, Structural)]
pub enum SelectionKind {
    Single,
    Box,
}

/// What the camera does with the drag box this frame.
#[derive(Debug, Clone, Copy, PartialEq, Eq, Structural)]
pub enum BoxSelectEffect {
    Nothing,
    /// Start a box at the cursor.
    StartDrag,
    /// Stretch the box to the cursor.
    Drag,
    /// Stretch the box to the cursor, then select.
    Finish(SelectionKind),
}

/// The next drag status and the effect of one frame: `blocked` when the
/// click belongs to the interface or to a placement, `showing` when the box
/// (stretched to the cursor) is large enough to show.
pub open spec fn box_select_next(s: BoxSelectStatus, blocked: bool, pressed: bool, released: bool, showing: bool) -> (BoxSelectStatus, BoxSelectEffect) {
    if blocked {
        (s, BoxSelectEffect::Nothing)
    } else {
        match s {
            BoxSelectStatus::Idle => if pressed {
                (BoxSelectStatus::Dragging, BoxSelectEffect::StartDrag)
            } else {
                (BoxSelectStatus::Idle, BoxSelectEffect::Nothing)
            },
            BoxSelectStatus::Dragging => if released {
                (BoxSelectStatus::Idle, BoxSelectEffect::Finish(if showing { SelectionKind::Box } else { SelectionKind::Single }))
            } else {
                (BoxSelectStatus::Dragging, BoxSelectEffect::Drag)
            },
        }
    }
}

/// One frame of the selection box.
pub fn box_select_step(s: BoxSelectStatus, blocked: bool, pressed: bool, released: bool, showing: bool) -> (r: (BoxSelectStatus, BoxSelectEffect))
    ensures
        r == box_select_next(s, blocked, pressed, released, showing),
{
    if blocked {
        return (s, BoxSelectEffect::Nothing);
    }
    match s {
        BoxSelectStatus::Idle => {
            if pressed {
                (BoxSelectStatus::Dragging, BoxSelectEffect::StartDrag)
            } else {
                (BoxSelectStatus::Idle, BoxSelectEffect::Nothing)
            }
        },
        BoxSelectStatus::Dragging => {
            if released {
                let kind = if showing { SelectionKind::Box } else { SelectionKind::Single };
                (BoxSelectStatus::Idle, BoxSelectEffect::Finish(kind))
            } else {
                (BoxSelectStatus::Dragging, BoxSelectEffect::Drag)
            }
        },
    }
}

} // verus!
