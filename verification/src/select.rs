//! Selectable objects, and the rules by which clicks and drag boxes select them.

use vstd::prelude::*;
use crate::team::{TeamPlayer, same_player};

verus! {

/// How an object takes part in a selection.
#[derive(Debug, Clone, Copy, PartialEq, Eq, Structural)]
pub enum SelectableType {
    ///This entity cannot be selected at the same time as other entities.
    Single,
    ///This entity can be selected at the same time as other entities.
    MultiSelect,
    ///Attempting to select this entity will clear selection.
    Clear,
}

/// Whether an object is selected, and how it can be selected.
#[derive(Debug, Clone, Copy, PartialEq, Eq, Structural)]
pub struct Selectable {
    pub selected: bool,
    pub context: SelectableType,
}

impl Selectable {
    /// An unselected object that is only ever selected alone.
    pub fn single() -> (r: Self)
        ensures
            r == (Selectable { selected: false, context: SelectableType::Single }),
    {
        Self { selected: false, context: SelectableType::Single }
    }

    /// An unselected object that can be selected together with others.
    pub fn multiselect() -> (r: Self)
        ensures
            r == (Selectable { selected: false, context: SelectableType::MultiSelect }),
    {
        Self { selected: false, context: SelectableType::MultiSelect }
    }

    /// An unselected object that clears the selection when clicked.
    pub fn clear() -> (r: Self)
        ensures
            r == (Selectable { selected: false, context: SelectableType::Clear }),
    {
        Self { selected: false, context: SelectableType::Clear }
    }
}

/// The object at `i` belongs to `player`.
pub open spec fn owned_by(owners: Seq<TeamPlayer>, player: TeamPlayer, i: int) -> bool {
    same_player(owners[i], player)
}

/// Some object is selected, whoever owns it.
pub open spec fn any_selected(objects: Seq<Selectable>) -> bool {
    exists|i: int| 0 <= i < objects.len() && (#[trigger] objects[i]).selected
}

/// `s` with its `selected` flag set to `flag`.
pub open spec fn with_selected(s: Selectable, flag: bool) -> Selectable {
    Selectable { selected: flag, context: s.context }
}

/// The objects after every object of `player` has been deselected.
pub open spec fn deselect_owned(objects: Seq<Selectable>, owners: Seq<TeamPlayer>, player: TeamPlayer) -> Seq<Selectable> {
    Seq::new(objects.len(), |i: int|
        if owned_by(owners, player, i) { with_selected(objects[i], false) } else { objects[i] })
}

/// The outcome of a click: the objects afterwards, and whether the clicked
/// object is sent an activation command.
///
/// `clicked` is the index of the object under the cursor, if any; `add` is
/// whether the click extends the current selection (shift held).
pub open spec fn single_selection(
    objects: Seq<Selectable>,
    owners: Seq<TeamPlayer>,
    player: TeamPlayer,
    clicked: Option<usize>,
    add: bool,
) -> (Seq<Selectable>, bool) {
    match clicked {
        None => (if add { objects } else { deselect_owned(objects, owners, player) }, false),
        Some(c) => {
            let ctx = objects[c as int].context;
            if ctx == SelectableType::Clear && !add {
                (deselect_owned(objects, owners, player), false)
            } else if any_selected(objects) && add {
                if ctx == SelectableType::MultiSelect && owned_by(owners, player, c as int) {
                    (objects.update(c as int, with_selected(objects[c as int], true)), true)
                } else {
                    (objects, true)
                }
            } else {
                let d = deselect_owned(objects, owners, player);
                if owned_by(owners, player, c as int) {
                    (d.update(c as int, with_selected(d[c as int], true)), true)
                } else {
                    (d, true)
                }
            }
        },
    }
}

/// The object at `i` is owned by `player` and lies inside the drag box.
pub open spec fn boxed(owners: Seq<TeamPlayer>, player: TeamPlayer, inside: Seq<bool>, i: int) -> bool {
    owned_by(owners, player, i) && inside[i]
}

/// How many of the first `n` objects are boxed.
pub open spec fn boxed_count(owners: Seq<TeamPlayer>, player: TeamPlayer, inside: Seq<bool>, n: int) -> nat
    decreases n,
{
    if n <= 0 {
        0
    } else {
        boxed_count(owners, player, inside, n - 1) + if boxed(owners, player, inside, n - 1) { 1nat } else { 0nat }
    }
}

/// Whether a boxed object is selected by the box: objects that can be selected
/// together always are, objects that are selected alone only when nothing else
/// is boxed, and clearing objects never.
pub open spec fn box_selects(s: Selectable, count: nat) -> bool {
    s.context == SelectableType::MultiSelect || (s.context == SelectableType::Single && count == 1)
}

/// The objects after a drag box selection; `inside` tells which objects the
/// box covers on screen.
pub open spec fn box_selection(
    objects: Seq<Selectable>,
    owners: Seq<TeamPlayer>,
    player: TeamPlayer,
    inside: Seq<bool>,
    add: bool,
) -> Seq<Selectable> {
    let base = if add { objects } else { deselect_owned(objects, owners, player) };
    let count = boxed_count(owners, player, inside, objects.len() as int);
    Seq::new(objects.len(), |i: int|
        if boxed(owners, player, inside, i) && box_selects(objects[i], count) {
            with_selected(base[i], true)
        } else {
            base[i]
        })
}

/// Deselects every object of `player`.
fn deselect_all_owned(objects: &mut Vec<Selectable>, owners: &Vec<TeamPlayer>, player: TeamPlayer)
    requires
        old(objects).len() == owners.len(),
    ensures
        final(objects)@ == deselect_owned(old(objects)@, owners@, player),
{
    let n = objects.len();
    let mut i: usize = 0;
    while i < n
        invariant
            n == objects.len(),
            n == owners.len(),
            n == old(objects)@.len(),
            0 <= i <= n,
            forall|j: int| 0 <= j < i ==> objects@[j] == deselect_owned(old(objects)@, owners@, player)[j],
            forall|j: int| i <= j < n ==> objects@[j] == old(objects)@[j],
        decreases n - i,
    {
        if owners[i] == player {
            let s = objects[i];
            objects.set(i, Selectable { selected: false, context: s.context });
        }
        i = i + 1;
    }
    assert(objects@ =~= deselect_owned(old(objects)@, owners@, player));
}

/// Whether any object is selected.
fn some_selected(objects: &Vec<Selectable>) -> (r: bool)
    ensures
        r == any_selected(objects@),
{
    let n = objects.len();
    let mut i: usize = 0;
    while i < n
        invariant
            n == objects.len(),
            0 <= i <= n,
            forall|j: int| 0 <= j < i ==> !(#[trigger] objects@[j]).selected,
        decreases n - i,
    {
        if objects[i].selected {
            return true;
        }
        i = i + 1;
    }
    false
}

/// Applies a click to the selection. `clicked` is the index of the object under
/// the cursor, if any, and `add` whether the selection is extended (shift
/// held). Returns whether the clicked object is to be sent an activation
/// command.
pub fn select_single(
    objects: &mut Vec<Selectable>,
    owners: &Vec<TeamPlayer>,
    player: TeamPlayer,
    clicked: Option<usize>,
    add: bool,
) -> (activate: bool)
    requires
        old(objects).len() == owners.len(),
        clicked matches Some(c) ==> c < old(objects).len(),
    ensures
        (final(objects)@, activate) == single_selection(old(objects)@, owners@, player, clicked, add),
{
    let empty = !some_selected(objects);
    match clicked {
        Some(c) => {
            let ctx = objects[c].context;
            if ctx == SelectableType::Clear && !add {
                deselect_all_owned(objects, owners, player);
                return false;
            }
            if !empty && add {
                if ctx == SelectableType::MultiSelect && owners[c] == player {
                    objects.set(c, Selectable { selected: true, context: ctx });
                }
            } else {
                deselect_all_owned(objects, owners, player);
                if owners[c] == player {
                    let s = objects[c];
                    objects.set(c, Selectable { selected: true, context: s.context });
                }
            }
            true
        },
        None => {
            if !add {
                deselect_all_owned(objects, owners, player);
            }
            false
        },
    }
}

/// Applies a drag box to the selection. `inside[i]` tells whether object `i`
/// lies inside the box on screen, and `add` whether the selection is extended.
pub fn select_box(
    objects: &mut Vec<Selectable>,
    owners: &Vec<TeamPlayer>,
    player: TeamPlayer,
    inside: &Vec<bool>,
    add: bool,
)
    requires
        old(objects).len() == owners.len(),
        old(objects).len() == inside.len(),
    ensures
        final(objects)@ == box_selection(old(objects)@, owners@, player, inside@, add),
{
    let ghost initial = objects@;
    if !add {
        deselect_all_owned(objects, owners, player);
    }
    let ghost base = objects@;
    let n = objects.len();
    let mut count: usize = 0;
    let mut i: usize = 0;
    while i < n
        invariant
            n == objects.len(),
            n == owners.len(),
            n == inside.len(),
            0 <= i <= n,
            count == boxed_count(owners@, player, inside@, i as int),
            count <= i,
        decreases n - i,
    {
        if owners[i] == player && inside[i] {
            count = count + 1;
        }
        i = i + 1;
    }
    let mut k: usize = 0;
    while k < n
        invariant
            n == objects.len(),
            n == owners.len(),
            n == inside.len(),
            n == initial.len(),
            base.len() == n,
            0 <= k <= n,
            count == boxed_count(owners@, player, inside@, n as int),
            base == (if add { initial } else { deselect_owned(initial, owners@, player) }),
            forall|j: int| 0 <= j < n ==> (#[trigger] base[j]).context == initial[j].context,
            forall|j: int| 0 <= j < k ==> objects@[j] == box_selection(initial, owners@, player, inside@, add)[j],
            forall|j: int| k <= j < n ==> objects@[j] == base[j],
        decreases n - k,
    {
        if owners[k] == player && inside[k] {
            let s = objects[k];
            match s.context {
                SelectableType::Single => {
                    if count == 1 {
                        objects.set(k, Selectable { selected: true, context: s.context });
                    }
                },
                SelectableType::MultiSelect => {
                    objects.set(k, Selectable { selected: true, context: s.context });
                },
                SelectableType::Clear => {},
            }
        }
        k = k + 1;
    }
    assert(objects@ =~= box_selection(initial, owners@, player, inside@, add));
}

/// The object is selected and is one that is only ever selected alone.
pub open spec fn focusable(s: Selectable) -> bool {
    s.selected && s.context == SelectableType::Single
}

/// The object that the context menu focuses on: the one selected single object,
/// when there is exactly one, and otherwise none.
pub fn context_focus(objects: &Vec<Selectable>) -> (r: Option<usize>)
    ensures
        r matches Some(i) ==> i < objects.len() && focusable(objects@[i as int])
            && forall|j: int| 0 <= j < objects.len() && j != i ==> !focusable(#[trigger] objects@[j]),
        r is None ==> !exists|i: int| 0 <= i < objects.len() && focusable(#[trigger] objects@[i])
            && forall|j: int| 0 <= j < objects.len() && j != i ==> !focusable(#[trigger] objects@[j]),
{
    let n = objects.len();
    let mut found: Option<usize> = None;
    let mut i: usize = 0;
    while i < n
        invariant
            n == objects.len(),
            0 <= i <= n,
            found matches Some(f) ==> f < i && focusable(objects@[f as int])
                && forall|j: int| 0 <= j < i && j != f ==> !focusable(#[trigger] objects@[j]),
            found is None ==> forall|j: int| 0 <= j < i ==> !focusable(#[trigger] objects@[j]),
        decreases n - i,
    {
        let s = objects[i];
        if s.selected && s.context == SelectableType::Single {
            match found {
                Some(f) => {
                    assert(focusable(objects@[f as int]) && focusable(objects@[i as int]));
                    return None;
                },
                None => {
                    found = Some(i);
                },
            }
        }
        i = i + 1;
    }
    found
}


/// Neither a click nor a drag box ever changes an object of another owner, and
/// neither changes how many objects there are.
pub proof fn lemma_selection_keeps_others(
    objects: Seq<Selectable>,
    owners: Seq<TeamPlayer>,
    player: TeamPlayer,
    clicked: Option<usize>,
    inside: Seq<bool>,
    add: bool,
    j: int,
)
    requires
        objects.len() == owners.len(),
        objects.len() == inside.len(),
        clicked matches Some(c) ==> c < objects.len(),
        0 <= j < objects.len(),
        !owned_by(owners, player, j),
    ensures
        single_selection(objects, owners, player, clicked, add).0.len() == objects.len(),
        single_selection(objects, owners, player, clicked, add).0[j] == objects[j],
        box_selection(objects, owners, player, inside, add).len() == objects.len(),
        box_selection(objects, owners, player, inside, add)[j] == objects[j],
{
}

/// A plain click (without extending) on an object of the player that does not
/// clear the selection leaves that object the only selected object of the
/// player, and activates it.
pub proof fn lemma_plain_click_selects_only_clicked(
    objects: Seq<Selectable>,
    owners: Seq<TeamPlayer>,
    player: TeamPlayer,
    c: usize,
)
    requires
        objects.len() == owners.len(),
        c < objects.len(),
        owned_by(owners, player, c as int),
        objects[c as int].context != SelectableType::Clear,
    ensures
        ({
            let (after, activate) = single_selection(objects, owners, player, Some(c), false);
            &&& activate
            &&& forall|j: int| 0 <= j < objects.len() && owned_by(owners, player, j)
                ==> (#[trigger] after[j]).selected == (j == c)
        }),
{
}

/// A plain click on an object that clears the selection deselects every object
/// of the player and activates nothing.
pub proof fn lemma_clear_click_deselects(
    objects: Seq<Selectable>,
    owners: Seq<TeamPlayer>,
    player: TeamPlayer,
    c: usize,
)
    requires
        objects.len() == owners.len(),
        c < objects.len(),
        objects[c as int].context == SelectableType::Clear,
    ensures
        ({
            let (after, activate) = single_selection(objects, owners, player, Some(c), false);
            &&& !activate
            &&& forall|j: int| 0 <= j < objects.len() && owned_by(owners, player, j)
                ==> !(#[trigger] after[j]).selected
        }),
{
}

/// After a drag box that does not extend the selection, the player's selected
/// objects are exactly the boxed ones that the box may select.
pub proof fn lemma_box_replaces_selection(
    objects: Seq<Selectable>,
    owners: Seq<TeamPlayer>,
    player: TeamPlayer,
    inside: Seq<bool>,
)
    requires
        objects.len() == owners.len(),
        objects.len() == inside.len(),
    ensures
        forall|j: int| 0 <= j < objects.len() && owned_by(owners, player, j)
            ==> (#[trigger] box_selection(objects, owners, player, inside, false)[j]).selected
                == (inside[j] && box_selects(objects[j], boxed_count(owners, player, inside, objects.len() as int))),
{
}


/// A shift-click while something is selected never deselects anything: every
/// object other than the clicked one is left exactly as it was, and the clicked
/// one ends up selected exactly when it was selected already or is a
/// multi-selectable object of the player. The click activates the object.
pub proof fn lemma_shift_click_keeps_selection(
    objects: Seq<Selectable>,
    owners: Seq<TeamPlayer>,
    player: TeamPlayer,
    c: usize,
)
    requires
        objects.len() == owners.len(),
        c < objects.len(),
        exists|k: int| 0 <= k < objects.len() && (#[trigger] objects[k]).selected,
    ensures
        ({
            let (after, activate) = single_selection(objects, owners, player, Some(c), true);
            &&& activate
            &&& after.len() == objects.len()
            &&& forall|j: int| 0 <= j < objects.len() && j != c ==> #[trigger] after[j] == objects[j]
            &&& after[c as int].context == objects[c as int].context
            &&& after[c as int].selected == (objects[c as int].selected
                || (objects[c as int].context == SelectableType::MultiSelect && owners[c as int] == player))
        }),
{
}

/// A shift-drag box adds to the selection: no object is deselected, no object
/// changes kind, objects of others and objects outside the box are untouched,
/// and every multi-selectable object of the player inside the box is selected
/// afterwards (as it is without shift).
pub proof fn lemma_box_adds_to_selection(
    objects: Seq<Selectable>,
    owners: Seq<TeamPlayer>,
    player: TeamPlayer,
    inside: Seq<bool>,
    add: bool,
)
    requires
        objects.len() == owners.len(),
        objects.len() == inside.len(),
    ensures
        box_selection(objects, owners, player, inside, add).len() == objects.len(),
        forall|j: int| 0 <= j < objects.len() ==>
            (#[trigger] box_selection(objects, owners, player, inside, add)[j]).context == objects[j].context,
        forall|j: int| 0 <= j < objects.len() && owners[j] == player && inside[j]
            && objects[j].context == SelectableType::MultiSelect
            ==> (#[trigger] box_selection(objects, owners, player, inside, add)[j]).selected,
        add ==> forall|j: int| 0 <= j < objects.len() && objects[j].selected
            ==> (#[trigger] box_selection(objects, owners, player, inside, add)[j]).selected,
        add ==> forall|j: int| 0 <= j < objects.len() && !(owners[j] == player && inside[j])
            ==> #[trigger] box_selection(objects, owners, player, inside, add)[j] == objects[j],
{
}


/// A click on nothing activates nothing; with shift held it changes nothing,
/// and without it every object of the player ends up deselected while the
/// objects of others are left as they were.
pub proof fn lemma_click_on_nothing(objects: Seq<Selectable>, owners: Seq<TeamPlayer>, player: TeamPlayer, add: bool)
    requires
        objects.len() == owners.len(),
    ensures
        ({
            let (after, activate) = single_selection(objects, owners, player, None, add);
            &&& !activate
            &&& after.len() == objects.len()
            &&& add ==> after == objects
            &&& !add ==> forall|j: int| 0 <= j < objects.len() ==>
                (#[trigger] after[j]).context == objects[j].context
                && (owners[j] == player ==> !after[j].selected)
                && (owners[j] != player ==> after[j] == objects[j])
        }),
{
}

} // verus!
