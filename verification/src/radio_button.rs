//! Radio buttons and the groups that hold them: membership and selection.
//!
//! A [`RadioRegistry`] holds every button and every group, each named by its index. A group
//! keeps its members by id in a [`BTreeMap`]; they are listed in increasing id order, which is
//! the order in which they joined. Each operation changes the registry and returns, in order,
//! the changes that callbacks are told of.

use std::collections::BTreeMap;
use vstd::prelude::*;
use vstd::std_specs::btree::spec_keys_iter;
use vstd::std_specs::iter::IteratorSpec;
use crate::ordered::{law_rank, lemma_increasing_keys, lemma_u64_keys, lemma_walk, rank};

verus! {

/// An error that can occur from operations on a group.
#[derive(Debug, Clone, Copy, PartialEq, Eq, Structural)]
pub enum RadioButtonError {
    /// Requested an operation on a radio button that isn't in the group.
    NotInGroup,
    /// Attempted to add a button that was already in the group.
    AlreadyInGroup,
}

/// A change that the callbacks are told of.
#[derive(Debug, Clone, Copy, PartialEq, Eq)]
pub enum RadioEvent {
    /// The button's selected state changed to `selected`.
    Button { button: usize, selected: bool },
    /// The group's selection changed to `selection` (a button), or was cleared.
    Group { group: usize, selection: Option<usize> },
}

/// The state of one button.
#[derive(Debug, Clone, Copy)]
pub struct ButtonEntry {
    /// The group the button is in, and its id within that group.
    pub membership: Option<(usize, u64)>,
    /// Whether the button is shown as selected.
    pub selected: bool,
}

/// The state of one group.
pub struct GroupEntry {
    /// The button of each member, by id.
    members: BTreeMap<u64, usize>,
    /// The id of the selected member.
    selection: Option<u64>,
    /// The id the next member added gets.
    next_id: u64,
}

/// The state of one group, as values.
#[verifier::ext_equal]
pub struct GroupView {
    pub members: Map<u64, usize>,
    pub selection: Option<u64>,
    pub next_id: u64,
}

/// The state of every button and every group, as values.
#[verifier::ext_equal]
pub struct RadioView {
    pub buttons: Seq<ButtonEntry>,
    pub groups: Seq<GroupView>,
}

impl GroupEntry {
    pub closed spec fn view(&self) -> GroupView {
        GroupView { members: self.members@, selection: self.selection, next_id: self.next_id }
    }
}

/// The registry of all buttons and groups.
pub struct RadioRegistry {
    reg: Registry,
}

/// The buttons and groups, free to be changed one field at a time.
struct Registry {
    buttons: Vec<ButtonEntry>,
    groups: Vec<GroupEntry>,
}

impl View for Registry {
    type V = RadioView;

    closed spec fn view(&self) -> RadioView {
        RadioView {
            buttons: self.buttons@,
            groups: self.groups@.map_values(|g: GroupEntry| g.view()),
        }
    }
}

impl View for RadioRegistry {
    type V = RadioView;

    closed spec fn view(&self) -> RadioView {
        self.reg@
    }
}

impl RadioRegistry {
    /// The registry is always consistent.
    #[verifier::type_invariant]
    spec fn consistent(self) -> bool {
        radio_wf(self.reg@)
    }
}

} // verus!

verus! {

impl RadioRegistry {
    /// An empty registry.
    pub fn new() -> (r: RadioRegistry)
        ensures
            r@.buttons.len() == 0,
            r@.groups.len() == 0,
            radio_wf(r@),
    {
        RadioRegistry { reg: Registry::new() }
    }

    /// Adds a new group with no members; returns its index.
    pub fn new_group(&mut self) -> (g: usize)
        ensures
            g == old(self)@.groups.len(),
            final(self)@.buttons == old(self)@.buttons,
            final(self)@.groups == old(self)@.groups.push(
                GroupView { members: Map::empty(), selection: None, next_id: 0 },
            ),
            radio_wf(final(self)@),
    {
        proof {
            use_type_invariant(&*self);
        }
        let mut reg = Registry::new();
        std::mem::swap(&mut reg, &mut self.reg);
        let r = reg.new_group();
        self.reg = reg;
        r
    }

    /// Adds a new button that is in no group and is not selected; returns its index.
    pub fn new_button(&mut self) -> (b: usize)
        ensures
            b == old(self)@.buttons.len(),
            final(self)@.groups == old(self)@.groups,
            final(self)@.buttons == old(self)@.buttons.push(
                ButtonEntry { membership: None, selected: false },
            ),
            radio_wf(final(self)@),
    {
        proof {
            use_type_invariant(&*self);
        }
        let mut reg = Registry::new();
        std::mem::swap(&mut reg, &mut self.reg);
        let r = reg.new_button();
        self.reg = reg;
        r
    }

    /// The number of buttons.
    pub fn num_buttons(&self) -> (n: usize)
        ensures
            n == self@.buttons.len(),
    {
        proof {
            use_type_invariant(self);
        }
        self.reg.num_buttons()
    }

    /// The number of groups.
    pub fn num_groups(&self) -> (n: usize)
        ensures
            n == self@.groups.len(),
    {
        proof {
            use_type_invariant(self);
        }
        self.reg.num_groups()
    }

    /// Whether button `b` is shown as selected.
    pub fn is_selected(&self, b: usize) -> (r: bool)
        requires
            b < self@.buttons.len(),
        ensures
            r == self@.buttons[b as int].selected,
    {
        proof {
            use_type_invariant(self);
        }
        self.reg.is_selected(b)
    }

    /// The group that button `b` is in.
    pub fn group_of(&self, b: usize) -> (r: Option<usize>)
        requires
            b < self@.buttons.len(),
        ensures
            r == (match self@.buttons[b as int].membership {
                Some((g, _)) => Some(g),
                None => None,
            }),
    {
        proof {
            use_type_invariant(self);
        }
        self.reg.group_of(b)
    }

    /// The selected button of group `g`.
    pub fn selection(&self, g: usize) -> (r: Option<usize>)
        requires
            g < self@.groups.len(),
        ensures
            r == (match self@.groups[g as int].selection {
                Some(id) => Some(button_of(self@.groups[g as int], id)),
                None => None,
            }),
    {
        proof {
            use_type_invariant(self);
        }
        self.reg.selection(g)
    }

    /// The buttons of group `g`, in increasing id order: the order in which they joined.
    pub fn members(&self, g: usize) -> (r: Vec<usize>)
        requires
            g < self@.groups.len(),
        ensures
            r@.len() == self@.groups[g as int].members.len(),
            forall|i: int| 0 <= i < r@.len() ==> #[trigger] member_at(self@.groups[g as int], r@[i], i),
    {
        proof {
            use_type_invariant(self);
        }
        self.reg.members(g)
    }

    /// Removes button `b` from group `g`.
    ///
    /// Fails with `NotInGroup` where `b` is not in `g`; else `b` leaves `g` and is shown as not
    /// selected, and where it was the selection the selection is cleared and the group's
    /// callbacks are told.
    pub fn remove(&mut self, b: usize, g: usize) -> (r: Result<Vec<RadioEvent>, RadioButtonError>)
        requires
            b < old(self)@.buttons.len(),
            g < old(self)@.groups.len(),
        ensures
            radio_wf(final(self)@),
            !is_member(old(self)@, b, g) ==> r == Err::<Vec<RadioEvent>, _>(
                RadioButtonError::NotInGroup,
            ) && final(self)@ == old(self)@,
            is_member(old(self)@, b, g) ==> (r matches Ok(ev) && final(self)@ == spec_remove(
                old(self)@,
                b,
                g,
            ).0 && ev@ == spec_remove(old(self)@, b, g).1),
    {
        proof {
            use_type_invariant(&*self);
        }
        let mut reg = Registry::new();
        std::mem::swap(&mut reg, &mut self.reg);
        let r = reg.remove(b, g);
        self.reg = reg;
        r
    }

    /// The next id group `g` gives a member.
    pub fn next_id(&self, g: usize) -> (r: u64)
        requires
            g < self@.groups.len(),
        ensures
            r == self@.groups[g as int].next_id,
    {
        proof {
            use_type_invariant(self);
        }
        self.reg.next_id(g)
    }

    /// Selects button `b` of group `g`.
    ///
    /// Fails with `NotInGroup` where `b` is not in `g`; else the old selection, where it is
    /// another member, is shown as not selected, `b` becomes the selection and is shown as
    /// selected, and the group's callbacks are told.
    pub fn select(&mut self, b: usize, g: usize) -> (r: Result<Vec<RadioEvent>, RadioButtonError>)
        requires
            b < old(self)@.buttons.len(),
            g < old(self)@.groups.len(),
        ensures
            radio_wf(final(self)@),
            !is_member(old(self)@, b, g) ==> r == Err::<Vec<RadioEvent>, _>(
                RadioButtonError::NotInGroup,
            ) && final(self)@ == old(self)@,
            is_member(old(self)@, b, g) ==> (r matches Ok(ev) && final(self)@ == spec_select(
                old(self)@,
                b,
                g,
            ).0 && ev@ == spec_select(old(self)@, b, g).1),
    {
        proof {
            use_type_invariant(&*self);
        }
        let mut reg = Registry::new();
        std::mem::swap(&mut reg, &mut self.reg);
        let r = reg.select(b, g);
        self.reg = reg;
        r
    }

    /// Clears the selection of group `g`: where there is one, it is shown as not selected and
    /// the group's callbacks are told.
    pub fn clear_selection(&mut self, g: usize) -> (ev: Vec<RadioEvent>)
        requires
            g < old(self)@.groups.len(),
        ensures
            radio_wf(final(self)@),
            final(self)@ == spec_clear_selection(old(self)@, g).0,
            ev@ == spec_clear_selection(old(self)@, g).1,
    {
        proof {
            use_type_invariant(&*self);
        }
        let mut reg = Registry::new();
        std::mem::swap(&mut reg, &mut self.reg);
        let r = reg.clear_selection(g);
        self.reg = reg;
        r
    }

    /// Adds button `b` to group `g`.
    ///
    /// Fails with `AlreadyInGroup` where `b` is in `g`; else `b` first leaves the group it is
    /// in, then joins `g` under `g`'s next id. It joins shown as not selected: leaving a group
    /// unselects it, and a button in no group that is shown as selected is unselected.
    pub fn add(&mut self, b: usize, g: usize) -> (r: Result<Vec<RadioEvent>, RadioButtonError>)
        requires
            b < old(self)@.buttons.len(),
            g < old(self)@.groups.len(),
            old(self)@.groups[g as int].next_id < u64::MAX,
        ensures
            radio_wf(final(self)@),
            is_member(old(self)@, b, g) ==> r == Err::<Vec<RadioEvent>, _>(
                RadioButtonError::AlreadyInGroup,
            ) && final(self)@ == old(self)@,
            !is_member(old(self)@, b, g) ==> (r matches Ok(ev) && final(self)@ == spec_add(
                old(self)@,
                b,
                g,
            ).0 && ev@ == spec_add(old(self)@, b, g).1),
    {
        proof {
            use_type_invariant(&*self);
        }
        let mut reg = Registry::new();
        std::mem::swap(&mut reg, &mut self.reg);
        let r = reg.add(b, g);
        self.reg = reg;
        r
    }

    /// Adds button `b` to group `g` and then selects it.
    pub fn add_selected(&mut self, b: usize, g: usize) -> (r: Result<
        Vec<RadioEvent>,
        RadioButtonError,
    >)
        requires
            b < old(self)@.buttons.len(),
            g < old(self)@.groups.len(),
            old(self)@.groups[g as int].next_id < u64::MAX,
        ensures
            radio_wf(final(self)@),
            is_member(old(self)@, b, g) ==> r == Err::<Vec<RadioEvent>, _>(
                RadioButtonError::AlreadyInGroup,
            ) && final(self)@ == old(self)@,
            !is_member(old(self)@, b, g) ==> (r matches Ok(ev) && final(self)@ == spec_add_selected(
                old(self)@,
                b,
                g,
            ).0 && ev@ == spec_add_selected(old(self)@, b, g).1),
    {
        proof {
            use_type_invariant(&*self);
        }
        let mut reg = Registry::new();
        std::mem::swap(&mut reg, &mut self.reg);
        let r = reg.add_selected(b, g);
        self.reg = reg;
        r
    }

    /// Selects button `b`: through its group where it has one, else directly.
    pub fn button_select(&mut self, b: usize) -> (ev: Vec<RadioEvent>)
        requires
            b < old(self)@.buttons.len(),
        ensures
            radio_wf(final(self)@),
            final(self)@ == spec_button_select(old(self)@, b).0,
            ev@ == spec_button_select(old(self)@, b).1,
    {
        proof {
            use_type_invariant(&*self);
        }
        let mut reg = Registry::new();
        std::mem::swap(&mut reg, &mut self.reg);
        let r = reg.button_select(b);
        self.reg = reg;
        r
    }

    /// Unselects button `b` where it is shown as selected: its group's selection is cleared
    /// where it has a group, else it is shown as not selected.
    pub fn button_unselect(&mut self, b: usize) -> (ev: Vec<RadioEvent>)
        requires
            b < old(self)@.buttons.len(),
        ensures
            radio_wf(final(self)@),
            final(self)@ == spec_button_unselect(old(self)@, b).0,
            ev@ == spec_button_unselect(old(self)@, b).1,
    {
        proof {
            use_type_invariant(&*self);
        }
        let mut reg = Registry::new();
        std::mem::swap(&mut reg, &mut self.reg);
        let r = reg.button_unselect(b);
        self.reg = reg;
        r
    }

    /// Builds a button: in `group`, selected where `selected` says so; without a group it is
    /// selected directly. Returns the new button and the events.
    pub fn build_button(&mut self, group: Option<usize>, selected: bool) -> (r: (
        usize,
        Vec<RadioEvent>,
    ))
        requires
            group matches Some(g) ==> g < old(self)@.groups.len() && old(self)@.groups[g as int].next_id
                < u64::MAX,
        ensures
            radio_wf(final(self)@),
            r.0 == old(self)@.buttons.len(),
            ({
                let v0 = RadioView {
                    buttons: old(self)@.buttons.push(ButtonEntry { membership: None, selected: false }),
                    groups: old(self)@.groups,
                };
                let expected = match group {
                    Some(g) => if selected {
                        spec_add_selected(v0, r.0, g)
                    } else {
                        spec_add(v0, r.0, g)
                    },
                    None => if selected {
                        spec_button_select(v0, r.0)
                    } else {
                        (v0, Seq::empty())
                    },
                };
                &&& final(self)@ == expected.0
                &&& r.1@ == expected.1
            }),
    {
        proof {
            use_type_invariant(&*self);
        }
        let mut reg = Registry::new();
        std::mem::swap(&mut reg, &mut self.reg);
        let r = reg.build_button(group, selected);
        self.reg = reg;
        r
    }

    /// Selects the member of group `g` at the first position (in increasing id order, the order
    /// in which members joined) whose entry in `matches` is `true`; does nothing where there is
    /// none.
    pub fn select_first_matching(&mut self, g: usize, matches: &Vec<bool>) -> (ev: Vec<RadioEvent>)
        requires
            g < old(self)@.groups.len(),
            matches@.len() == old(self)@.groups[g as int].members.len(),
        ensures
            radio_wf(final(self)@),
            match first_true(matches@) {
                Some(i) => {
                    let grp = old(self)@.groups[g as int];
                    let b = button_of(grp, id_at(grp, i));
                    &&& final(self)@ == spec_select(old(self)@, b, g).0
                    &&& ev@ == spec_select(old(self)@, b, g).1
                },
                None => final(self)@ == old(self)@ && ev@.len() == 0,
            },
    {
        proof {
            use_type_invariant(&*self);
        }
        let mut reg = Registry::new();
        std::mem::swap(&mut reg, &mut self.reg);
        let r = reg.select_first_matching(g, matches);
        self.reg = reg;
        r
    }

    /// Removes the member of group `g` at the first position (in increasing id order) whose
    /// entry in `matches` is `true`. Returns whether one was removed, and the events.
    pub fn remove_first_matching(&mut self, g: usize, matches: &Vec<bool>) -> (r: (
        bool,
        Vec<RadioEvent>,
    ))
        requires
            g < old(self)@.groups.len(),
            matches@.len() == old(self)@.groups[g as int].members.len(),
        ensures
            radio_wf(final(self)@),
            r.0 == first_true(matches@) is Some,
            match first_true(matches@) {
                Some(i) => {
                    let grp = old(self)@.groups[g as int];
                    let b = button_of(grp, id_at(grp, i));
                    &&& final(self)@ == spec_remove(old(self)@, b, g).0
                    &&& r.1@ == spec_remove(old(self)@, b, g).1
                },
                None => final(self)@ == old(self)@ && r.1@.len() == 0,
            },
    {
        proof {
            use_type_invariant(&*self);
        }
        let mut reg = Registry::new();
        std::mem::swap(&mut reg, &mut self.reg);
        let r = reg.remove_first_matching(g, matches);
        self.reg = reg;
        r
    }
}

/// The button of the member with id `id`.
pub open spec fn button_of(g: GroupView, id: u64) -> usize {
    g.members[id]
}

/// Each button's group lists it under its id.
pub open spec fn buttons_ok(v: RadioView) -> bool {
    forall|b: int|
        0 <= b < v.buttons.len() ==> ((#[trigger] v.buttons[b]).membership matches Some((g, id))
            ==> {
            &&& 0 <= g < v.groups.len()
            &&& v.groups[g as int].members.contains_key(id)
            &&& v.groups[g as int].members[id] == b as usize
        })
}

/// Group `g`'s members name buttons that are in it under that id, ids are below the next id,
/// the selection is a member that is shown as selected, and no other member is shown as
/// selected.
pub open spec fn group_ok(v: RadioView, g: int) -> bool {
    let grp = v.groups[g];
    &&& grp.members.dom().finite()
    &&& forall|id: u64|
        #[trigger] grp.members.contains_key(id) ==> {
            &&& grp.members[id] < v.buttons.len()
            &&& v.buttons[grp.members[id] as int].membership == Some((g as usize, id))
            &&& id < grp.next_id
        }
    &&& grp.selection matches Some(id) ==> grp.members.contains_key(id) && v.buttons[grp.members[id] as int].selected
    &&& forall|id: u64|
        #[trigger] grp.members.contains_key(id) && v.buttons[grp.members[id] as int].selected
            ==> grp.selection == Some(id)
}

/// The registry is consistent: see [`buttons_ok`] and [`group_ok`].
pub open spec fn radio_wf(v: RadioView) -> bool {
    &&& v.buttons.len() <= usize::MAX
    &&& v.groups.len() <= usize::MAX
    &&& buttons_ok(v)
    &&& forall|g: int| 0 <= g < v.groups.len() ==> #[trigger] group_ok(v, g)
}

/// Whether button `b` is in group `g`.
pub open spec fn is_member(v: RadioView, b: usize, g: usize) -> bool {
    v.buttons[b as int].membership matches Some((gg, _)) && gg == g
}

/// The id of button `b` within its group.
pub open spec fn member_id(v: RadioView, b: usize) -> u64 {
    v.buttons[b as int].membership.unwrap().1
}

/// The id of the member at position `i` of group `grp`'s list, in increasing id order.
pub open spec fn id_at(grp: GroupView, i: int) -> u64 {
    choose|id: u64| grp.members.contains_key(id) && rank(grp.members.dom(), id) == i
}

/// `b` is the button at position `i` of group `grp`'s list.
pub open spec fn member_at(grp: GroupView, b: usize, i: int) -> bool {
    exists|id: u64|
        grp.members.contains_key(id) && #[trigger] rank(grp.members.dom(), id) == i
            && grp.members[id] == b
}

/// Sets the shown state of button `b`; the callbacks hear of it only where it changed.
pub open spec fn spec_set_selected(v: RadioView, b: usize, selected: bool) -> (
    RadioView,
    Seq<RadioEvent>,
) {
    if v.buttons[b as int].selected == selected {
        (v, Seq::empty())
    } else {
        (
            RadioView {
                buttons: v.buttons.update(
                    b as int,
                    ButtonEntry { selected, ..v.buttons[b as int] },
                ),
                ..v
            },
            seq![RadioEvent::Button { button: b, selected }],
        )
    }
}

/// Group `g` with its fields replaced.
pub open spec fn with_group(v: RadioView, g: usize, grp: GroupView) -> RadioView {
    RadioView { groups: v.groups.update(g as int, grp), ..v }
}

/// Button `b` with its membership replaced.
pub open spec fn with_membership(v: RadioView, b: usize, m: Option<(usize, u64)>) -> RadioView {
    RadioView {
        buttons: v.buttons.update(b as int, ButtonEntry { membership: m, ..v.buttons[b as int] }),
        ..v
    }
}

/// Member `b` (which is in group `g`) leaving `g`: the selection is cleared where it was `b`,
/// and only then is the group's callback told.
pub open spec fn spec_leave(v: RadioView, b: usize, g: usize) -> (RadioView, Seq<RadioEvent>) {
    let grp = v.groups[g as int];
    let id = member_id(v, b);
    let was_selected = grp.selection == Some(id);
    let new_grp = GroupView {
        members: grp.members.remove(id),
        selection: if was_selected {
            None
        } else {
            grp.selection
        },
        next_id: grp.next_id,
    };
    (
        with_membership(with_group(v, g, new_grp), b, None),
        if was_selected {
            seq![RadioEvent::Group { group: g, selection: None }]
        } else {
            Seq::empty()
        },
    )
}

/// Removing member `b` (which is in group `g`) from `g`: it leaves `g` and is shown as not
/// selected; its callbacks hear of that first, then the group's hear of a cleared selection.
pub open spec fn spec_remove(v: RadioView, b: usize, g: usize) -> (RadioView, Seq<RadioEvent>) {
    let (v1, ev1) = spec_leave(v, b, g);
    let (v2, ev2) = spec_set_selected(v1, b, false);
    (v2, ev2 + ev1)
}

/// Adding button `b` (which is not in group `g`) to `g`, after it leaves its old group; it
/// joins not selected, so the group's selection stays its only selected member.
pub open spec fn spec_add(v: RadioView, b: usize, g: usize) -> (RadioView, Seq<RadioEvent>) {
    let (v1, ev1) = match v.buttons[b as int].membership {
        Some((og, _)) => spec_remove(v, b, og),
        None => spec_set_selected(v, b, false),
    };
    let grp = v1.groups[g as int];
    let id = grp.next_id;
    let new_grp = GroupView {
        members: grp.members.insert(id, b),
        selection: grp.selection,
        next_id: (grp.next_id + 1) as u64,
    };
    (with_membership(with_group(v1, g, new_grp), b, Some((g, id))), ev1)
}

/// Selecting member `b` of group `g`: the old selection, where it is another member, is
/// unselected, `b` is selected, and the group's callbacks are told. Where `b` already is the
/// selection no button changes, so no button's callbacks are told.
pub open spec fn spec_select(v: RadioView, b: usize, g: usize) -> (RadioView, Seq<RadioEvent>) {
    let grp = v.groups[g as int];
    let (v1, ev1) = match grp.selection {
        Some(oid) => if oid == member_id(v, b) {
            (v, Seq::empty())
        } else {
            spec_set_selected(v, button_of(grp, oid), false)
        },
        None => (v, Seq::empty()),
    };
    let v2 = with_group(v1, g, GroupView { selection: Some(member_id(v, b)), ..grp });
    let (v3, ev3) = spec_set_selected(v2, b, true);
    (v3, ev1 + ev3 + seq![RadioEvent::Group { group: g, selection: Some(b) }])
}

/// Clearing the selection of group `g`, where it has one.
pub open spec fn spec_clear_selection(v: RadioView, g: usize) -> (RadioView, Seq<RadioEvent>) {
    let grp = v.groups[g as int];
    match grp.selection {
        None => (v, Seq::empty()),
        Some(id) => {
            let v1 = with_group(v, g, GroupView { selection: None, ..grp });
            let (v2, ev2) = spec_set_selected(v1, button_of(grp, id), false);
            (v2, ev2 + seq![RadioEvent::Group { group: g, selection: None }])
        },
    }
}

/// Adding button `b` to group `g` and then selecting it.
pub open spec fn spec_add_selected(v: RadioView, b: usize, g: usize) -> (RadioView, Seq<RadioEvent>) {
    let (v1, e1) = spec_add(v, b, g);
    let (v2, e2) = spec_select(v1, b, g);
    (v2, e1 + e2)
}

/// Selecting button `b` on its own: through its group where it has one, else directly.
pub open spec fn spec_button_select(v: RadioView, b: usize) -> (RadioView, Seq<RadioEvent>) {
    match v.buttons[b as int].membership {
        Some((g, _)) => spec_select(v, b, g),
        None => spec_set_selected(v, b, true),
    }
}

/// Unselecting button `b` on its own: where it is shown as selected, its group's selection is
/// cleared where it has a group, else it is shown as not selected.
pub open spec fn spec_button_unselect(v: RadioView, b: usize) -> (RadioView, Seq<RadioEvent>) {
    if v.buttons[b as int].selected {
        match v.buttons[b as int].membership {
            Some((g, _)) => spec_clear_selection(v, g),
            None => spec_set_selected(v, b, false),
        }
    } else {
        (v, Seq::empty())
    }
}

/// The first index at which `s` holds `true`.
pub open spec fn first_true(s: Seq<bool>) -> Option<int> {
    if exists|i: int| 0 <= i < s.len() && s[i] {
        Some(choose|i: int| 0 <= i < s.len() && s[i] && forall|j: int| 0 <= j < i ==> !s[j])
    } else {
        None
    }
}

} // verus!

verus! {

/// A member's button has that member's group and id as its membership.
proof fn lemma_member(v: RadioView, g: int, id: u64)
    requires
        radio_wf(v),
        0 <= g < v.groups.len(),
        v.groups[g].members.contains_key(id),
    ensures
        v.groups[g].members[id] < v.buttons.len(),
        v.buttons[v.groups[g].members[id] as int].membership == Some((g as usize, id)),
{
    assert(group_ok(v, g));
}

/// A button is a member of its group under its id.
proof fn lemma_button(v: RadioView, b: usize)
    requires
        radio_wf(v),
        b < v.buttons.len(),
        v.buttons[b as int].membership is Some,
    ensures
        ({
            let (g, id) = v.buttons[b as int].membership.unwrap();
            &&& g < v.groups.len()
            &&& v.groups[g as int].members.contains_key(id)
            &&& v.groups[g as int].members[id] == b
        }),
{
    assert(buttons_ok(v) && v.buttons[b as int] == v.buttons[b as int]);
}

/// A button in no group is no group's member.
proof fn lemma_not_member(v: RadioView, b: usize, g: int, id: u64)
    requires
        radio_wf(v),
        b < v.buttons.len(),
        0 <= g < v.groups.len(),
        v.groups[g].members.contains_key(id),
        v.buttons[b as int].membership is None || v.buttons[b as int].membership != Some(
            (g as usize, id),
        ),
    ensures
        v.groups[g].members[id] != b,
{
    lemma_member(v, g, id);
}

proof fn lemma_set_selected_wf(v: RadioView, b: usize, selected: bool)
    requires
        radio_wf(v),
        b < v.buttons.len(),
        v.buttons[b as int].membership is None,
    ensures
        radio_wf(spec_set_selected(v, b, selected).0),
        spec_set_selected(v, b, selected).0.buttons.len() == v.buttons.len(),
        spec_set_selected(v, b, selected).0.groups == v.groups,
        forall|bi: int|
            0 <= bi < v.buttons.len() ==> (#[trigger] spec_set_selected(v, b, selected).0.buttons[bi]).membership
                == v.buttons[bi].membership,
{
    let nv = spec_set_selected(v, b, selected).0;
    assert forall|bi: int| 0 <= bi < v.buttons.len() implies (#[trigger] nv.buttons[bi]).membership
        == v.buttons[bi].membership && (bi != b as int ==> nv.buttons[bi] == v.buttons[bi]) by {}
    assert forall|g2: int| 0 <= g2 < nv.groups.len() implies #[trigger] group_ok(nv, g2) by {
        assert(group_ok(v, g2));
        let grp = v.groups[g2];
        assert forall|id: u64| #[trigger] grp.members.contains_key(id) implies nv.buttons[grp.members[id] as int]
            == v.buttons[grp.members[id] as int] by {
            lemma_not_member(v, b, g2, id);
        }
    }
}

proof fn lemma_leave_wf(v: RadioView, b: usize, g: usize)
    requires
        radio_wf(v),
        b < v.buttons.len(),
        g < v.groups.len(),
        is_member(v, b, g),
    ensures
        radio_wf(spec_leave(v, b, g).0),
        spec_leave(v, b, g).0.buttons.len() == v.buttons.len(),
        spec_leave(v, b, g).0.groups.len() == v.groups.len(),
        spec_leave(v, b, g).0.buttons[b as int].membership is None,
{
    let id = member_id(v, b);
    lemma_button(v, b);
    let nv = spec_leave(v, b, g).0;
    let grp = v.groups[g as int];
    assert forall|bi: int| 0 <= bi < nv.buttons.len() implies ((#[trigger] nv.buttons[bi]).membership matches Some((g2, id2))
        ==> {
        &&& 0 <= g2 < nv.groups.len()
        &&& nv.groups[g2 as int].members.contains_key(id2)
        &&& nv.groups[g2 as int].members[id2] == bi as usize
    }) by {
        if bi != b as int {
            if let Some((g2, id2)) = nv.buttons[bi].membership {
                lemma_button(v, bi as usize);
                if g2 == g && id2 == id {
                    assert(grp.members[id] == b);
                }
            }
        }
    }
    assert forall|g2: int| 0 <= g2 < nv.groups.len() implies #[trigger] group_ok(nv, g2) by {
        assert(group_ok(v, g2));
        let og = v.groups[g2];
        let ng = nv.groups[g2];
        assert forall|id2: u64| #[trigger] ng.members.contains_key(id2) implies nv.buttons[ng.members[id2] as int]
            == v.buttons[ng.members[id2] as int] && ng.members[id2] == og.members[id2]
            && og.members.contains_key(id2) by {
            lemma_member(v, g2, id2);
            if g2 == g as int {
                assert(id2 != id);
            }
        }
        if let Some(sid) = ng.selection {
            assert(og.selection == Some(sid));
            if g2 == g as int {
                assert(sid != id);
            }
            assert(ng.members.contains_key(sid));
        }
    }
}

proof fn lemma_remove_wf(v: RadioView, b: usize, g: usize)
    requires
        radio_wf(v),
        b < v.buttons.len(),
        g < v.groups.len(),
        is_member(v, b, g),
    ensures
        radio_wf(spec_remove(v, b, g).0),
        spec_remove(v, b, g).0.buttons.len() == v.buttons.len(),
        spec_remove(v, b, g).0.groups.len() == v.groups.len(),
        spec_remove(v, b, g).0.buttons[b as int].membership is None,
        !spec_remove(v, b, g).0.buttons[b as int].selected,
{
    lemma_leave_wf(v, b, g);
    let v1 = spec_leave(v, b, g).0;
    lemma_set_selected_wf(v1, b, false);
}

proof fn lemma_select_wf(v: RadioView, b: usize, g: usize)
    requires
        radio_wf(v),
        b < v.buttons.len(),
        g < v.groups.len(),
        is_member(v, b, g),
    ensures
        radio_wf(spec_select(v, b, g).0),
        spec_select(v, b, g).0.buttons.len() == v.buttons.len(),
        spec_select(v, b, g).0.groups.len() == v.groups.len(),
        forall|bi: int|
            0 <= bi < v.buttons.len() ==> (#[trigger] spec_select(v, b, g).0.buttons[bi]).membership
                == v.buttons[bi].membership,
{
    let grp = v.groups[g as int];
    let id = member_id(v, b);
    lemma_button(v, b);
    let nv = spec_select(v, b, g).0;
    let ob_op: Option<usize> = match grp.selection {
        Some(oid) => Some(button_of(grp, oid)),
        None => None,
    };
    if let Some(oid) = grp.selection {
        assert(group_ok(v, g as int));
        lemma_member(v, g as int, oid);
    }
    assert forall|bi: int| 0 <= bi < v.buttons.len() implies (#[trigger] nv.buttons[bi]).membership
        == v.buttons[bi].membership && (bi != b as int && (ob_op is None || bi != ob_op.unwrap() as int)
        ==> nv.buttons[bi] == v.buttons[bi]) by {}
    assert(nv.buttons[b as int].selected);
    assert forall|g2: int| 0 <= g2 < nv.groups.len() implies #[trigger] group_ok(nv, g2) by {
        assert(group_ok(v, g2));
        let og = v.groups[g2];
        let ng = nv.groups[g2];
        if g2 != g as int {
            assert(ng == og);
            assert forall|id2: u64| #[trigger] og.members.contains_key(id2) implies nv.buttons[og.members[id2] as int]
                == v.buttons[og.members[id2] as int] by {
                lemma_member(v, g2, id2);
                if let Some(ob) = ob_op {
                    lemma_member(v, g as int, grp.selection.unwrap());
                }
            }
        } else {
            assert(ng.members == og.members);
            assert(ng.selection == Some(id));
            assert forall|id2: u64| #[trigger] ng.members.contains_key(id2) && nv.buttons[ng.members[id2] as int].selected
                implies ng.selection == Some(id2) by {
                lemma_member(v, g2, id2);
                if id2 != id {
                    let m = og.members[id2];
                    assert(m != b);
                    if v.buttons[m as int].selected {
                        assert(og.selection == Some(id2));
                    }
                }
            }
        }
    }
    assert forall|bi: int| 0 <= bi < nv.buttons.len() implies ((#[trigger] nv.buttons[bi]).membership matches Some((g2, id2))
        ==> {
        &&& 0 <= g2 < nv.groups.len()
        &&& nv.groups[g2 as int].members.contains_key(id2)
        &&& nv.groups[g2 as int].members[id2] == bi as usize
    }) by {
        assert(nv.buttons[bi].membership == v.buttons[bi].membership);
        if let Some((g2, id2)) = nv.buttons[bi].membership {
            lemma_button(v, bi as usize);
        }
    }
}

proof fn lemma_clear_selection_wf(v: RadioView, g: usize)
    requires
        radio_wf(v),
        g < v.groups.len(),
    ensures
        radio_wf(spec_clear_selection(v, g).0),
        spec_clear_selection(v, g).0.buttons.len() == v.buttons.len(),
        spec_clear_selection(v, g).0.groups.len() == v.groups.len(),
        forall|bi: int|
            0 <= bi < v.buttons.len() ==> (#[trigger] spec_clear_selection(v, g).0.buttons[bi]).membership
                == v.buttons[bi].membership,
{
    let grp = v.groups[g as int];
    assert(group_ok(v, g as int));
    let nv = spec_clear_selection(v, g).0;
    if let Some(id) = grp.selection {
        lemma_member(v, g as int, id);
        let ob = button_of(grp, id);
        assert forall|bi: int| 0 <= bi < v.buttons.len() implies (#[trigger] nv.buttons[bi]).membership
            == v.buttons[bi].membership && (bi != ob as int ==> nv.buttons[bi] == v.buttons[bi]) by {}
        assert forall|g2: int| 0 <= g2 < nv.groups.len() implies #[trigger] group_ok(nv, g2) by {
            assert(group_ok(v, g2));
            let og = v.groups[g2];
            assert forall|id2: u64| #[trigger] og.members.contains_key(id2) implies (nv.buttons[og.members[id2] as int]
                == v.buttons[og.members[id2] as int] || (g2 == g as int && id2 == id)) by {
                lemma_member(v, g2, id2);
            }
            if g2 != g as int {
                assert(nv.groups[g2] == og);
            } else {
                assert(nv.groups[g2].members == og.members);
                assert forall|id2: u64| #[trigger] og.members.contains_key(id2) && nv.buttons[og.members[id2] as int].selected
                    implies nv.groups[g2].selection == Some(id2) by {
                    lemma_member(v, g2, id2);
                    if id2 != id {
                        assert(og.selection == Some(id2));
                    }
                }
            }
        }
        assert forall|bi: int| 0 <= bi < nv.buttons.len() implies ((#[trigger] nv.buttons[bi]).membership matches Some((g2, id2))
            ==> {
            &&& 0 <= g2 < nv.groups.len()
            &&& nv.groups[g2 as int].members.contains_key(id2)
            &&& nv.groups[g2 as int].members[id2] == bi as usize
        }) by {
            if let Some((g2, id2)) = nv.buttons[bi].membership {
                lemma_button(v, bi as usize);
            }
        }
    }
}

proof fn lemma_add_wf(v: RadioView, b: usize, g: usize)
    requires
        radio_wf(v),
        b < v.buttons.len(),
        g < v.groups.len(),
        !is_member(v, b, g),
        v.groups[g as int].next_id < u64::MAX,
    ensures
        radio_wf(spec_add(v, b, g).0),
        spec_add(v, b, g).0.buttons.len() == v.buttons.len(),
        spec_add(v, b, g).0.groups.len() == v.groups.len(),
{
    let v1 = match v.buttons[b as int].membership {
        Some((og, _)) => spec_remove(v, b, og),
        None => spec_set_selected(v, b, false),
    }.0;
    if let Some((og, _)) = v.buttons[b as int].membership {
        lemma_button(v, b);
        lemma_remove_wf(v, b, og);
        assert(og != g);
    } else {
        lemma_set_selected_wf(v, b, false);
    }
    assert(radio_wf(v1));
    assert(v1.buttons[b as int].membership is None);
    assert(!v1.buttons[b as int].selected);
    assert(v1.groups[g as int].next_id == v.groups[g as int].next_id);
    let grp = v1.groups[g as int];
    let id = grp.next_id;
    let nv = spec_add(v, b, g).0;
    assert(group_ok(v1, g as int));
    assert(!grp.members.contains_key(id));
    assert forall|g2: int| 0 <= g2 < nv.groups.len() implies #[trigger] group_ok(nv, g2) by {
        assert(group_ok(v1, g2));
        let og = v1.groups[g2];
        let ng = nv.groups[g2];
        assert forall|id2: u64| #[trigger] og.members.contains_key(id2) implies nv.buttons[og.members[id2] as int]
            == v1.buttons[og.members[id2] as int] by {
            lemma_not_member(v1, b, g2, id2);
        }
        if g2 != g as int {
            assert(ng == og);
        } else {
            assert(ng.members == og.members.insert(id, b));
            assert forall|id2: u64| #[trigger] ng.members.contains_key(id2) implies {
                &&& ng.members[id2] < nv.buttons.len()
                &&& nv.buttons[ng.members[id2] as int].membership == Some((g2 as usize, id2))
                &&& id2 < ng.next_id
            } by {
                if id2 != id {
                    assert(og.members.contains_key(id2));
                }
            }
            assert forall|id2: u64| #[trigger] ng.members.contains_key(id2) && nv.buttons[ng.members[id2] as int].selected
                implies ng.selection == Some(id2) by {
                if id2 != id {
                    assert(og.members.contains_key(id2));
                }
            }
            if let Some(sid) = ng.selection {
                assert(og.members.contains_key(sid));
                assert(sid != id);
            }
        }
    }
    assert forall|bi: int| 0 <= bi < nv.buttons.len() implies ((#[trigger] nv.buttons[bi]).membership matches Some((g2, id2))
        ==> {
        &&& 0 <= g2 < nv.groups.len()
        &&& nv.groups[g2 as int].members.contains_key(id2)
        &&& nv.groups[g2 as int].members[id2] == bi as usize
    }) by {
        if bi != b as int {
            assert(nv.buttons[bi] == v1.buttons[bi]);
            if let Some((g2, id2)) = nv.buttons[bi].membership {
                lemma_button(v1, bi as usize);
                if g2 == g {
                    assert(id2 != id);
                }
            }
        }
    }
}

} // verus!

verus! {

/// The key at position `i` of a walk of `m`: its `i`-th smallest key.
fn key_at(m: &BTreeMap<u64, usize>, i: usize) -> (k: u64)
    requires
        i < m@.dom().len(),
    ensures
        m@.contains_key(k),
        rank(m@.dom(), k) == i,
{
    broadcast use vstd::std_specs::btree::group_btree_axioms;

    proof {
        lemma_u64_keys();
    }
    let ghost rem = IteratorSpec::remaining(&spec_keys_iter(m));
    let ghost dom = m@.dom();
    proof {
        lemma_increasing_keys(rem);
        lemma_walk(rem.unref(), dom);
        assert forall|q: int| 0 <= q < rem.len() implies #[trigger] rank(dom, *rem[q]) == q by {
            assert(rem.unref()[q] == *rem[q]);
        }
    }
    let mut c: usize = 0;
    for k in it: m.keys()
        invariant
            it.seq() == rem,
            c == it.index(),
            rem.len() == dom.len(),
            i < dom.len(),
            dom == m@.dom(),
            rem.unref().to_set() == dom,
            forall|q: int| 0 <= q < rem.len() ==> #[trigger] rank(dom, *rem[q]) == q,
            c <= i,
    {
        if c == i {
            proof {
                assert(rem.unref()[i as int] == *rem[i as int]);
                assert(rem.unref().to_set().contains(rem.unref()[i as int]));
                assert(rank(dom, *rem[i as int]) == i);
            }
            return *k;
        }
        c = c + 1;
    }
    proof {
        assert(false);
    }
    0
}

/// `id_at` names the member at its position: the id of rank `i`.
proof fn lemma_id_at(grp: GroupView, id: u64, i: int)
    requires
        grp.members.dom().finite(),
        grp.members.contains_key(id),
        rank(grp.members.dom(), id) == i,
    ensures
        id_at(grp, i) == id,
{
    let c = id_at(grp, i);
    assert(grp.members.contains_key(c) && rank(grp.members.dom(), c) == i);
    if c < id {
        law_rank(grp.members.dom(), c, id);
    } else if id < c {
        law_rank(grp.members.dom(), id, c);
    }
}

impl Registry {
    /// An empty registry.
    fn new() -> (r: Registry)
        ensures
            r@.buttons.len() == 0,
            r@.groups.len() == 0,
            radio_wf(r@),
    {
        Registry { buttons: Vec::new(), groups: Vec::new() }
    }

    /// Adds a new group with no members; returns its index.
    fn new_group(&mut self) -> (g: usize)
        requires
            radio_wf(old(self)@),
        ensures
            g == old(self)@.groups.len(),
            final(self)@.buttons == old(self)@.buttons,
            final(self)@.groups == old(self)@.groups.push(
                GroupView { members: Map::empty(), selection: None, next_id: 0 },
            ),
            radio_wf(final(self)@),
    {
        broadcast use vstd::std_specs::btree::group_btree_axioms;

        let g = self.groups.len();
        let members: BTreeMap<u64, usize> = BTreeMap::new();
        self.groups.push(GroupEntry { members, selection: None, next_id: 0 });
        proof {
            assert(self.groups@.len() == self.groups.len());
            assert(self@.groups =~~= old(self)@.groups.push(
                GroupView { members: Map::empty(), selection: None, next_id: 0 },
            ));
            assert forall|gi: int| 0 <= gi < self@.groups.len() implies #[trigger] group_ok(self@, gi) by {
                if gi < old(self)@.groups.len() {
                    assert(group_ok(old(self)@, gi));
                    assert(self@.groups[gi] == old(self)@.groups[gi]);
                } else {
                    assert(self@.groups[gi].members.dom() =~= Set::<u64>::empty());
                }
            }
            assert forall|b: int| 0 <= b < self@.buttons.len() implies ((#[trigger] self@.buttons[b]).membership matches Some((gg, id))
                ==> {
                &&& 0 <= gg < self@.groups.len()
                &&& self@.groups[gg as int].members.contains_key(id)
                &&& self@.groups[gg as int].members[id] == b as usize
            }) by {
                if let Some((gg, id)) = self@.buttons[b].membership {
                    lemma_button(old(self)@, b as usize);
                    assert(old(self)@.groups[gg as int] == self@.groups[gg as int]);
                }
            }
        }
        g
    }

    /// Adds a new button that is in no group and is not selected; returns its index.
    fn new_button(&mut self) -> (b: usize)
        requires
            radio_wf(old(self)@),
        ensures
            b == old(self)@.buttons.len(),
            final(self)@.groups == old(self)@.groups,
            final(self)@.buttons == old(self)@.buttons.push(
                ButtonEntry { membership: None, selected: false },
            ),
            radio_wf(final(self)@),
    {
        let b = self.buttons.len();
        self.buttons.push(ButtonEntry { membership: None, selected: false });
        proof {
            assert(self.buttons@.len() == self.buttons.len());
            assert(self@.groups =~~= old(self)@.groups);
            assert forall|gi: int| 0 <= gi < self@.groups.len() implies #[trigger] group_ok(self@, gi) by {
                assert(group_ok(old(self)@, gi));
                let grp = self@.groups[gi];
                assert forall|id: u64| #[trigger] grp.members.contains_key(id) implies
                    self@.buttons[grp.members[id] as int] == old(self)@.buttons[grp.members[id] as int] by {}
            }
            assert forall|bi: int| 0 <= bi < self@.buttons.len() implies ((#[trigger] self@.buttons[bi]).membership matches Some((gg, id))
                ==> {
                &&& 0 <= gg < self@.groups.len()
                &&& self@.groups[gg as int].members.contains_key(id)
                &&& self@.groups[gg as int].members[id] == bi as usize
            }) by {
                if bi < old(self)@.buttons.len() {
                    assert(self@.buttons[bi] == old(self)@.buttons[bi]);
                    if let Some((gg, id)) = self@.buttons[bi].membership {
                        lemma_button(old(self)@, bi as usize);
                    }
                }
            }
        }
        b
    }

    /// The number of buttons.
    fn num_buttons(&self) -> (n: usize)
        ensures
            n == self@.buttons.len(),
    {
        self.buttons.len()
    }

    /// The number of groups.
    fn num_groups(&self) -> (n: usize)
        ensures
            n == self@.groups.len(),
    {
        self.groups.len()
    }

    /// Whether button `b` is shown as selected.
    fn is_selected(&self, b: usize) -> (r: bool)
        requires
            b < self@.buttons.len(),
        ensures
            r == self@.buttons[b as int].selected,
    {
        self.buttons[b].selected
    }

    /// The group that button `b` is in.
    fn group_of(&self, b: usize) -> (r: Option<usize>)
        requires
            b < self@.buttons.len(),
        ensures
            r == (match self@.buttons[b as int].membership {
                Some((g, _)) => Some(g),
                None => None,
            }),
    {
        match self.buttons[b].membership {
            Some((g, _)) => Some(g),
            None => None,
        }
    }

    /// The button of member `id` of group `g`.
    fn button_of_id(&self, g: usize, id: u64) -> (b: usize)
        requires
            g < self@.groups.len(),
            self@.groups[g as int].members.contains_key(id),
        ensures
            b == button_of(self@.groups[g as int], id),
    {
        broadcast use vstd::std_specs::btree::group_btree_axioms;

        proof {
            lemma_u64_keys();
        }
        match self.groups[g].members.get(&id) {
            Some(b) => *b,
            None => 0,
        }
    }

    /// The selected button of group `g`.
    fn selection(&self, g: usize) -> (r: Option<usize>)
        requires
            radio_wf(self@),
            g < self@.groups.len(),
        ensures
            r == (match self@.groups[g as int].selection {
                Some(id) => Some(button_of(self@.groups[g as int], id)),
                None => None,
            }),
    {
        proof {
            assert(group_ok(self@, g as int));
        }
        match self.groups[g].selection {
            Some(id) => Some(self.button_of_id(g, id)),
            None => None,
        }
    }

    /// The buttons of group `g`, in increasing id order: the order in which they joined.
    fn members(&self, g: usize) -> (r: Vec<usize>)
        requires
            g < self@.groups.len(),
        ensures
            r@.len() == self@.groups[g as int].members.len(),
            forall|i: int| 0 <= i < r@.len() ==> #[trigger] member_at(self@.groups[g as int], r@[i], i),
    {
        broadcast use vstd::std_specs::btree::group_btree_axioms;

        proof {
            lemma_u64_keys();
        }
        let members = &self.groups[g].members;
        let ghost grp = self@.groups[g as int];
        let ghost rem = IteratorSpec::remaining(&spec_keys_iter(members));
        let ghost dom = members@.dom();
        proof {
            lemma_increasing_keys(rem);
            lemma_walk(rem.unref(), dom);
            assert forall|q: int| 0 <= q < rem.len() implies #[trigger] rank(dom, *rem[q]) == q by {
                assert(rem.unref()[q] == *rem[q]);
                assert(rem.unref().to_set().contains(rem.unref()[q]));
            }
            assert(grp.members.dom() =~= dom);
        }
        let mut r: Vec<usize> = Vec::new();
        for k in it: members.keys()
            invariant
                it.seq() == rem,
                r@.len() == it.index(),
                rem.len() == dom.len(),
                dom == members@.dom(),
                grp.members == members@,
                rem.unref().to_set() == dom,
                forall|q: int| 0 <= q < rem.len() ==> #[trigger] rank(dom, *rem[q]) == q,
                forall|q: int| 0 <= q < r@.len() ==> #[trigger] member_at(grp, r@[q], q),
        {
            proof {
                assert(rem.unref()[it.index()] == *rem[it.index()]);
                assert(rem.unref().to_set().contains(rem.unref()[it.index()]));
            }
            let b = match members.get(k) {
                Some(b) => *b,
                None => 0,
            };
            proof {
                assert(rank(dom, *rem[it.index()]) == it.index());
            }
            r.push(b);
        }
        r
    }

    /// Removes button `b` from group `g`.
    ///
    /// Fails with `NotInGroup` where `b` is not in `g`; else `b` leaves `g` and is shown as not
    /// selected, and where it was the selection the selection is cleared and the group's
    /// callbacks are told.
    fn remove(&mut self, b: usize, g: usize) -> (r: Result<Vec<RadioEvent>, RadioButtonError>)
        requires
            radio_wf(old(self)@),
            b < old(self)@.buttons.len(),
            g < old(self)@.groups.len(),
        ensures
            radio_wf(final(self)@),
            !is_member(old(self)@, b, g) ==> r == Err::<Vec<RadioEvent>, _>(
                RadioButtonError::NotInGroup,
            ) && final(self)@ == old(self)@,
            is_member(old(self)@, b, g) ==> (r matches Ok(ev) && final(self)@ == spec_remove(
                old(self)@,
                b,
                g,
            ).0 && ev@ == spec_remove(old(self)@, b, g).1),
    {
        broadcast use vstd::std_specs::btree::group_btree_axioms;

        let id = match self.buttons[b].membership {
            Some((gg, id)) => {
                if gg != g {
                    return Err(RadioButtonError::NotInGroup);
                }
                id
            },
            None => {
                return Err(RadioButtonError::NotInGroup);
            },
        };
        proof {
            lemma_u64_keys();
            lemma_remove_wf(old(self)@, b, g);
        }
        let mut grp = GroupEntry { members: BTreeMap::new(), selection: None, next_id: 0 };
        self.groups.set_and_swap(g, &mut grp);
        grp.members.remove(&id);
        let was_selected = match grp.selection {
            Some(sid) => sid == id,
            None => false,
        };
        if was_selected {
            grp.selection = None;
        }
        self.groups.set_and_swap(g, &mut grp);
        let selected = self.buttons[b].selected;
        self.buttons.set(b, ButtonEntry { membership: None, selected });
        proof {
            let lv = spec_leave(old(self)@, b, g);
            assert(self@.buttons =~= lv.0.buttons);
            assert(self@.groups[g as int].members =~= lv.0.groups[g as int].members);
            assert(self@.groups =~~= lv.0.groups);
        }
        let mut events: Vec<RadioEvent> = Vec::new();
        self.set_selected(b, false, &mut events);
        if was_selected {
            events.push(RadioEvent::Group { group: g, selection: None });
        }
        proof {
            let sv = spec_remove(old(self)@, b, g);
            assert(events@ =~= sv.1);
        }
        Ok(events)
    }
}

} // verus!

verus! {

impl Registry {
    /// Sets the shown state of button `b`, adding an event where it changed.
    fn set_selected(&mut self, b: usize, selected: bool, events: &mut Vec<RadioEvent>)
        requires
            b < old(self)@.buttons.len(),
        ensures
            final(self)@ == spec_set_selected(old(self)@, b, selected).0,
            final(events)@ == old(events)@ + spec_set_selected(old(self)@, b, selected).1,
    {
        if self.buttons[b].selected != selected {
            let membership = self.buttons[b].membership;
            self.buttons.set(b, ButtonEntry { membership, selected });
            events.push(RadioEvent::Button { button: b, selected });
            proof {
                let sv = spec_set_selected(old(self)@, b, selected);
                assert(self@.buttons =~= sv.0.buttons);
                assert(self@.groups =~~= sv.0.groups);
            }
        } else {
            assert(old(events)@ + Seq::<RadioEvent>::empty() =~= old(events)@);
        }
    }

    /// Replaces the selection of group `g`.
    fn set_group_selection(&mut self, g: usize, selection: Option<u64>)
        requires
            g < old(self)@.groups.len(),
        ensures
            final(self)@ == with_group(
                old(self)@,
                g,
                GroupView { selection, ..old(self)@.groups[g as int] },
            ),
    {
        let mut grp = GroupEntry { members: BTreeMap::new(), selection: None, next_id: 0 };
        self.groups.set_and_swap(g, &mut grp);
        grp.selection = selection;
        self.groups.set_and_swap(g, &mut grp);
        proof {
            let sv = with_group(
                old(self)@,
                g,
                GroupView { selection, ..old(self)@.groups[g as int] },
            );
            assert(self@.buttons =~= sv.buttons);
            assert(self@.groups =~~= sv.groups);
        }
    }

    /// The next id group `g` gives a member.
    fn next_id(&self, g: usize) -> (r: u64)
        requires
            g < self@.groups.len(),
        ensures
            r == self@.groups[g as int].next_id,
    {
        self.groups[g].next_id
    }

    /// Selects button `b` of group `g`.
    ///
    /// Fails with `NotInGroup` where `b` is not in `g`; else the old selection, where it is
    /// another member, is shown as not selected, `b` becomes the selection and is shown as
    /// selected, and the group's callbacks are told.
    fn select(&mut self, b: usize, g: usize) -> (r: Result<Vec<RadioEvent>, RadioButtonError>)
        requires
            radio_wf(old(self)@),
            b < old(self)@.buttons.len(),
            g < old(self)@.groups.len(),
        ensures
            radio_wf(final(self)@),
            !is_member(old(self)@, b, g) ==> r == Err::<Vec<RadioEvent>, _>(
                RadioButtonError::NotInGroup,
            ) && final(self)@ == old(self)@,
            is_member(old(self)@, b, g) ==> (r matches Ok(ev) && final(self)@ == spec_select(
                old(self)@,
                b,
                g,
            ).0 && ev@ == spec_select(old(self)@, b, g).1),
    {
        let id = match self.buttons[b].membership {
            Some((gg, id)) => {
                if gg != g {
                    return Err(RadioButtonError::NotInGroup);
                }
                id
            },
            None => {
                return Err(RadioButtonError::NotInGroup);
            },
        };
        proof {
            lemma_select_wf(old(self)@, b, g);
            assert(group_ok(old(self)@, g as int));
        }
        let mut events: Vec<RadioEvent> = Vec::new();
        let old_selection = self.groups[g].selection;
        match old_selection {
            Some(oid) => {
                if oid != id {
                    let ob = self.button_of_id(g, oid);
                    proof {
                        lemma_member(old(self)@, g as int, oid);
                    }
                    self.set_selected(ob, false, &mut events);
                }
            },
            None => {},
        }
        self.set_group_selection(g, Some(id));
        self.set_selected(b, true, &mut events);
        events.push(RadioEvent::Group { group: g, selection: Some(b) });
        proof {
            let sv = spec_select(old(self)@, b, g);
            assert(events@ =~= sv.1);
        }
        Ok(events)
    }

    /// Clears the selection of group `g`: where there is one, it is shown as not selected and
    /// the group's callbacks are told.
    fn clear_selection(&mut self, g: usize) -> (ev: Vec<RadioEvent>)
        requires
            radio_wf(old(self)@),
            g < old(self)@.groups.len(),
        ensures
            radio_wf(final(self)@),
            final(self)@ == spec_clear_selection(old(self)@, g).0,
            ev@ == spec_clear_selection(old(self)@, g).1,
    {
        proof {
            lemma_clear_selection_wf(old(self)@, g);
            assert(group_ok(old(self)@, g as int));
        }
        let mut events: Vec<RadioEvent> = Vec::new();
        match self.groups[g].selection {
            Some(id) => {
                let ob = self.button_of_id(g, id);
                proof {
                    lemma_member(old(self)@, g as int, id);
                }
                self.set_group_selection(g, None);
                self.set_selected(ob, false, &mut events);
                events.push(RadioEvent::Group { group: g, selection: None });
                proof {
                    assert(events@ =~= spec_clear_selection(old(self)@, g).1);
                }
            },
            None => {},
        }
        events
    }

    /// Adds button `b` to group `g`.
    ///
    /// Fails with `AlreadyInGroup` where `b` is in `g`; else `b` first leaves the group it is
    /// in, then joins `g` under `g`'s next id. It joins shown as not selected: leaving a group
    /// unselects it, and a button in no group that is shown as selected is unselected.
    fn add(&mut self, b: usize, g: usize) -> (r: Result<Vec<RadioEvent>, RadioButtonError>)
        requires
            radio_wf(old(self)@),
            b < old(self)@.buttons.len(),
            g < old(self)@.groups.len(),
            old(self)@.groups[g as int].next_id < u64::MAX,
        ensures
            radio_wf(final(self)@),
            is_member(old(self)@, b, g) ==> r == Err::<Vec<RadioEvent>, _>(
                RadioButtonError::AlreadyInGroup,
            ) && final(self)@ == old(self)@,
            !is_member(old(self)@, b, g) ==> (r matches Ok(ev) && final(self)@ == spec_add(
                old(self)@,
                b,
                g,
            ).0 && ev@ == spec_add(old(self)@, b, g).1),
    {
        broadcast use vstd::std_specs::btree::group_btree_axioms;

        let mut events: Vec<RadioEvent> = Vec::new();
        match self.buttons[b].membership {
            Some((og, _)) => {
                if og == g {
                    return Err(RadioButtonError::AlreadyInGroup);
                }
                proof {
                    lemma_button(old(self)@, b);
                    lemma_remove_wf(old(self)@, b, og);
                }
                match self.remove(b, og) {
                    Ok(ev) => {
                        events = ev;
                    },
                    Err(_) => {},
                }
            },
            None => {
                self.set_selected(b, false, &mut events);
                assert(events@ =~= spec_set_selected(old(self)@, b, false).1);
            },
        }
        proof {
            lemma_u64_keys();
            lemma_add_wf(old(self)@, b, g);
        }
        let mut grp = GroupEntry { members: BTreeMap::new(), selection: None, next_id: 0 };
        self.groups.set_and_swap(g, &mut grp);
        let id = grp.next_id;
        grp.members.insert(id, b);
        grp.next_id = id + 1;
        self.groups.set_and_swap(g, &mut grp);
        let selected = self.buttons[b].selected;
        self.buttons.set(b, ButtonEntry { membership: Some((g, id)), selected });
        proof {
            let sv = spec_add(old(self)@, b, g);
            assert(self@.buttons =~= sv.0.buttons);
            assert(self@.groups[g as int].members =~= sv.0.groups[g as int].members);
            assert(self@.groups =~~= sv.0.groups);
        }
        Ok(events)
    }
}

} // verus!

verus! {

proof fn lemma_first_true(s: Seq<bool>, i: int)
    requires
        0 <= i < s.len(),
        s[i],
        forall|j: int| 0 <= j < i ==> !s[j],
    ensures
        first_true(s) == Some(i),
{
    let k = choose|k: int| 0 <= k < s.len() && s[k] && forall|j: int| 0 <= j < k ==> !s[j];
    assert(0 <= k < s.len() && s[k] && forall|j: int| 0 <= j < k ==> !s[j]);
    if k < i {
        assert(!s[k]);
    } else if i < k {
        assert(!s[i]);
    }
}

/// The first index at which `s` holds `true`.
fn find_first(s: &Vec<bool>) -> (r: Option<usize>)
    ensures
        r matches Some(i) ==> i < s@.len() && first_true(s@) == Some(i as int),
        r is None ==> first_true(s@) is None,
{
    let mut i: usize = 0;
    while i < s.len()
        invariant
            i <= s@.len(),
            forall|j: int| 0 <= j < i ==> !s@[j],
        decreases s@.len() - i,
    {
        if s[i] {
            proof {
                lemma_first_true(s@, i as int);
            }
            return Some(i);
        }
        i = i + 1;
    }
    None
}

impl Registry {
    /// Adds button `b` to group `g` and then selects it.
    fn add_selected(&mut self, b: usize, g: usize) -> (r: Result<
        Vec<RadioEvent>,
        RadioButtonError,
    >)
        requires
            radio_wf(old(self)@),
            b < old(self)@.buttons.len(),
            g < old(self)@.groups.len(),
            old(self)@.groups[g as int].next_id < u64::MAX,
        ensures
            radio_wf(final(self)@),
            is_member(old(self)@, b, g) ==> r == Err::<Vec<RadioEvent>, _>(
                RadioButtonError::AlreadyInGroup,
            ) && final(self)@ == old(self)@,
            !is_member(old(self)@, b, g) ==> (r matches Ok(ev) && final(self)@ == spec_add_selected(
                old(self)@,
                b,
                g,
            ).0 && ev@ == spec_add_selected(old(self)@, b, g).1),
    {
        let mut events = self.add(b, g)?;
        let mut more = match self.select(b, g) {
            Ok(ev) => ev,
            Err(_) => Vec::new(),
        };
        events.append(&mut more);
        Ok(events)
    }

    /// Selects button `b`: through its group where it has one, else directly.
    fn button_select(&mut self, b: usize) -> (ev: Vec<RadioEvent>)
        requires
            radio_wf(old(self)@),
            b < old(self)@.buttons.len(),
        ensures
            radio_wf(final(self)@),
            final(self)@ == spec_button_select(old(self)@, b).0,
            ev@ == spec_button_select(old(self)@, b).1,
    {
        match self.buttons[b].membership {
            Some((g, _)) => {
                proof {
                    lemma_button(old(self)@, b);
                }
                match self.select(b, g) {
                    Ok(ev) => ev,
                    Err(_) => Vec::new(),
                }
            },
            None => {
                proof {
                    lemma_set_selected_wf(old(self)@, b, true);
                }
                let mut events: Vec<RadioEvent> = Vec::new();
                self.set_selected(b, true, &mut events);
                assert(events@ =~= spec_button_select(old(self)@, b).1);
                events
            },
        }
    }

    /// Unselects button `b` where it is shown as selected: its group's selection is cleared
    /// where it has a group, else it is shown as not selected.
    fn button_unselect(&mut self, b: usize) -> (ev: Vec<RadioEvent>)
        requires
            radio_wf(old(self)@),
            b < old(self)@.buttons.len(),
        ensures
            radio_wf(final(self)@),
            final(self)@ == spec_button_unselect(old(self)@, b).0,
            ev@ == spec_button_unselect(old(self)@, b).1,
    {
        if self.buttons[b].selected {
            match self.buttons[b].membership {
                Some((g, _)) => {
                    proof {
                        lemma_button(old(self)@, b);
                    }
                    self.clear_selection(g)
                },
                None => {
                    proof {
                        lemma_set_selected_wf(old(self)@, b, false);
                    }
                    let mut events: Vec<RadioEvent> = Vec::new();
                    self.set_selected(b, false, &mut events);
                    assert(events@ =~= spec_button_unselect(old(self)@, b).1);
                    events
                },
            }
        } else {
            Vec::new()
        }
    }

    /// Builds a button: in `group`, selected where `selected` says so; without a group it is
    /// selected directly. Returns the new button and the events.
    fn build_button(&mut self, group: Option<usize>, selected: bool) -> (r: (
        usize,
        Vec<RadioEvent>,
    ))
        requires
            radio_wf(old(self)@),
            group matches Some(g) ==> g < old(self)@.groups.len() && old(self)@.groups[g as int].next_id
                < u64::MAX,
        ensures
            radio_wf(final(self)@),
            r.0 == old(self)@.buttons.len(),
            ({
                let v0 = RadioView {
                    buttons: old(self)@.buttons.push(ButtonEntry { membership: None, selected: false }),
                    groups: old(self)@.groups,
                };
                let expected = match group {
                    Some(g) => if selected {
                        spec_add_selected(v0, r.0, g)
                    } else {
                        spec_add(v0, r.0, g)
                    },
                    None => if selected {
                        spec_button_select(v0, r.0)
                    } else {
                        (v0, Seq::empty())
                    },
                };
                &&& final(self)@ == expected.0
                &&& r.1@ == expected.1
            }),
    {
        let b = self.new_button();
        let ghost v0 = self@;
        proof {
            assert(v0 =~~= RadioView {
                buttons: old(self)@.buttons.push(ButtonEntry { membership: None, selected: false }),
                groups: old(self)@.groups,
            });
        }
        let events = match group {
            Some(g) => {
                if selected {
                    match self.add_selected(b, g) {
                        Ok(ev) => ev,
                        Err(_) => Vec::new(),
                    }
                } else {
                    match self.add(b, g) {
                        Ok(ev) => ev,
                        Err(_) => Vec::new(),
                    }
                }
            },
            None => {
                if selected {
                    self.button_select(b)
                } else {
                    Vec::new()
                }
            },
        };
        (b, events)
    }

    /// The button at position `i` of group `g`'s list.
    fn button_at(&self, g: usize, i: usize) -> (b: usize)
        requires
            radio_wf(self@),
            g < self@.groups.len(),
            i < self@.groups[g as int].members.len(),
        ensures
            b == button_of(self@.groups[g as int], id_at(self@.groups[g as int], i as int)),
            b < self@.buttons.len(),
            is_member(self@, b, g),
    {
        proof {
            assert(group_ok(self@, g as int));
        }
        let id = key_at(&self.groups[g].members, i);
        proof {
            lemma_id_at(self@.groups[g as int], id, i as int);
            lemma_member(self@, g as int, id);
        }
        self.button_of_id(g, id)
    }

    /// Selects the member of group `g` at the first position (in increasing id order, the order
    /// in which members joined) whose entry in `matches` is `true`; does nothing where there is
    /// none.
    fn select_first_matching(&mut self, g: usize, matches: &Vec<bool>) -> (ev: Vec<RadioEvent>)
        requires
            radio_wf(old(self)@),
            g < old(self)@.groups.len(),
            matches@.len() == old(self)@.groups[g as int].members.len(),
        ensures
            radio_wf(final(self)@),
            match first_true(matches@) {
                Some(i) => {
                    let grp = old(self)@.groups[g as int];
                    let b = button_of(grp, id_at(grp, i));
                    &&& final(self)@ == spec_select(old(self)@, b, g).0
                    &&& ev@ == spec_select(old(self)@, b, g).1
                },
                None => final(self)@ == old(self)@ && ev@.len() == 0,
            },
    {
        match find_first(matches) {
            Some(i) => {
                let b = self.button_at(g, i);
                match self.select(b, g) {
                    Ok(ev) => ev,
                    Err(_) => Vec::new(),
                }
            },
            None => Vec::new(),
        }
    }

    /// Removes the member of group `g` at the first position (in increasing id order) whose
    /// entry in `matches` is `true`. Returns whether one was removed, and the events.
    fn remove_first_matching(&mut self, g: usize, matches: &Vec<bool>) -> (r: (
        bool,
        Vec<RadioEvent>,
    ))
        requires
            radio_wf(old(self)@),
            g < old(self)@.groups.len(),
            matches@.len() == old(self)@.groups[g as int].members.len(),
        ensures
            radio_wf(final(self)@),
            r.0 == first_true(matches@) is Some,
            match first_true(matches@) {
                Some(i) => {
                    let grp = old(self)@.groups[g as int];
                    let b = button_of(grp, id_at(grp, i));
                    &&& final(self)@ == spec_remove(old(self)@, b, g).0
                    &&& r.1@ == spec_remove(old(self)@, b, g).1
                },
                None => final(self)@ == old(self)@ && r.1@.len() == 0,
            },
    {
        match find_first(matches) {
            Some(i) => {
                let b = self.button_at(g, i);
                match self.remove(b, g) {
                    Ok(ev) => (true, ev),
                    Err(_) => (true, Vec::new()),
                }
            },
            None => (false, Vec::new()),
        }
    }
}

} // verus!

verus! {

/// A button is in at most one group: after it is added to `g`, `g` lists it and no other group
/// does. It joins not selected, and `g`'s selection stays as it was.
pub proof fn law_add_single_group(v: RadioView, b: usize, g: usize)
    requires
        radio_wf(v),
        b < v.buttons.len(),
        g < v.groups.len(),
        !is_member(v, b, g),
        v.groups[g as int].next_id < u64::MAX,
    ensures
        ({
            let nv = spec_add(v, b, g).0;
            &&& is_member(nv, b, g)
            &&& !nv.buttons[b as int].selected
            &&& nv.groups[g as int].selection == v.groups[g as int].selection
            &&& forall|g2: int, id: u64|
                0 <= g2 < nv.groups.len() && g2 != g as int && #[trigger] nv.groups[g2].members.contains_key(id)
                    ==> nv.groups[g2].members[id] != b
        }),
{
    lemma_add_wf(v, b, g);
    let nv = spec_add(v, b, g).0;
    if let Some((og, _)) = v.buttons[b as int].membership {
        lemma_button(v, b);
        lemma_remove_wf(v, b, og);
    }
    assert forall|g2: int, id: u64|
        0 <= g2 < nv.groups.len() && g2 != g as int && #[trigger] nv.groups[g2].members.contains_key(id)
            implies nv.groups[g2].members[id] != b by {
        lemma_member(nv, g2, id);
    }
}

/// After a member is selected, the group's selection is that member and it is shown as
/// selected, and every other member (the one selected before among them) is shown as not
/// selected. Selecting the member that already is the selection tells only the group's
/// callbacks.
pub proof fn law_select(v: RadioView, b: usize, g: usize)
    requires
        radio_wf(v),
        b < v.buttons.len(),
        g < v.groups.len(),
        is_member(v, b, g),
    ensures
        ({
            let nv = spec_select(v, b, g).0;
            let grp = v.groups[g as int];
            &&& nv.groups[g as int].selection == Some(member_id(v, b))
            &&& button_of(nv.groups[g as int], member_id(v, b)) == b
            &&& nv.buttons[b as int].selected
            &&& forall|id: u64|
                #[trigger] grp.members.contains_key(id) && grp.members[id] != b
                    ==> !nv.buttons[grp.members[id] as int].selected
            &&& (grp.selection == Some(member_id(v, b)) ==> spec_select(v, b, g).1 == seq![
                RadioEvent::Group { group: g, selection: Some(b) },
            ])
        }),
{
    lemma_select_wf(v, b, g);
    lemma_button(v, b);
    let nv = spec_select(v, b, g).0;
    if let Some(oid) = v.groups[g as int].selection {
        assert(group_ok(v, g as int));
        lemma_member(v, g as int, oid);
    }
    assert(nv.buttons[b as int].selected);
    assert forall|id: u64| #[trigger] v.groups[g as int].members.contains_key(id) && v.groups[g as int].members[id]
        != b implies !nv.buttons[v.groups[g as int].members[id] as int].selected by {
        assert(group_ok(nv, g as int));
        assert(nv.groups[g as int].members == v.groups[g as int].members);
        lemma_member(v, g as int, id);
    }
    if v.groups[g as int].selection == Some(member_id(v, b)) {
        assert(group_ok(v, g as int));
        assert(v.buttons[b as int].selected);
        assert(spec_select(v, b, g).1 =~= seq![RadioEvent::Group { group: g, selection: Some(b) }]);
    }
}

/// After a member is removed it is in no group, it is not shown as selected, and the group's
/// selection is not that member.
pub proof fn law_remove(v: RadioView, b: usize, g: usize)
    requires
        radio_wf(v),
        b < v.buttons.len(),
        g < v.groups.len(),
        is_member(v, b, g),
    ensures
        ({
            let nv = spec_remove(v, b, g).0;
            &&& nv.buttons[b as int].membership is None
            &&& forall|id: u64|
                #[trigger] nv.groups[g as int].members.contains_key(id) ==> nv.groups[g as int].members[id]
                    != b
            &&& nv.groups[g as int].selection != Some(member_id(v, b))
            &&& !nv.buttons[b as int].selected
        }),
{
    lemma_remove_wf(v, b, g);
    let nv = spec_remove(v, b, g).0;
    assert forall|id: u64| #[trigger] nv.groups[g as int].members.contains_key(id) implies nv.groups[g as int].members[id]
        != b by {
        lemma_member(nv, g as int, id);
    }
}

/// After the selection is cleared the group has none, the member that was selected is shown
/// as not selected, and clearing again changes nothing and tells no callback.
pub proof fn law_clear_selection(v: RadioView, g: usize)
    requires
        radio_wf(v),
        g < v.groups.len(),
    ensures
        ({
            let (nv, _) = spec_clear_selection(v, g);
            let grp = v.groups[g as int];
            &&& nv.groups[g as int].selection is None
            &&& (grp.selection matches Some(oid) ==> !nv.buttons[button_of(grp, oid) as int].selected)
            &&& spec_clear_selection(nv, g).0 == nv
            &&& spec_clear_selection(nv, g).1.len() == 0
        }),
{
    lemma_clear_selection_wf(v, g);
    assert(group_ok(v, g as int));
    if let Some(oid) = v.groups[g as int].selection {
        lemma_member(v, g as int, oid);
    }
}

/// Adding a button that is in no group and not selected, and removing it again, gives the
/// group back its members and its selection, and gives the button back its state.
pub proof fn law_add_remove(v: RadioView, b: usize, g: usize)
    requires
        radio_wf(v),
        b < v.buttons.len(),
        g < v.groups.len(),
        v.buttons[b as int].membership is None,
        !v.buttons[b as int].selected,
        v.groups[g as int].next_id < u64::MAX,
    ensures
        ({
            let v1 = spec_add(v, b, g).0;
            let v2 = spec_remove(v1, b, g).0;
            &&& v2.groups[g as int].members == v.groups[g as int].members
            &&& v2.groups[g as int].selection == v.groups[g as int].selection
            &&& v2.buttons == v.buttons
            &&& spec_add(v, b, g).1.len() == 0
            &&& spec_remove(v1, b, g).1.len() == 0
        }),
{
    lemma_add_wf(v, b, g);
    let v1 = spec_add(v, b, g).0;
    let grp = v.groups[g as int];
    let id = grp.next_id;
    assert(group_ok(v, g as int));
    assert(!grp.members.contains_key(id));
    assert(grp.members.insert(id, b).remove(id) =~= grp.members);
    if let Some(sid) = grp.selection {
        assert(grp.members.contains_key(sid));
    }
    let l1 = spec_leave(v1, b, g).0;
    assert(l1.buttons =~= v.buttons);
    let v2 = spec_remove(v1, b, g).0;
    assert(v2.buttons =~= v.buttons);
}

/// A group has at most one member shown as selected, and where it has one, that member is the
/// group's selection.
pub proof fn law_single_selection(v: RadioView, g: usize)
    requires
        radio_wf(v),
        g < v.groups.len(),
    ensures
        ({
            let grp = v.groups[g as int];
            forall|a: u64, c: u64|
                #[trigger] grp.members.contains_key(a) && #[trigger] grp.members.contains_key(c)
                    && v.buttons[grp.members[a] as int].selected && v.buttons[grp.members[c] as int].selected
                    ==> a == c && grp.selection == Some(a)
        }),
{
    assert(group_ok(v, g as int));
}

} // verus!
