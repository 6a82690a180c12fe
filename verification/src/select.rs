//! The options of a select widget, which one is selected, and how its list is laid out.
//!
//! The options are kept by id in a [`BTreeMap`]; the list shows them in increasing id order,
//! so the position of an option in the list is the number of options with a smaller id.

use std::collections::BTreeMap;
use vstd::prelude::*;
use vstd::std_specs::btree::spec_keys_iter;
use vstd::std_specs::iter::IteratorSpec;
use crate::ordered::{increasing, law_rank, lemma_increasing_keys, lemma_u64_keys, lemma_walk, rank};

verus! {

/// The look of one entry of the option list.
#[derive(Clone, Copy, Debug, PartialEq, Eq, Structural)]
pub struct OptionLook {
    /// The entry has a border below it (every entry but the last).
    pub border_bottom: bool,
    /// The entry is the selected option.
    pub highlighted: bool,
}

/// The options of a select widget by id, and the selected id.
pub struct SelectState {
    options: BTreeMap<u64, String>,
    selected: Option<u64>,
    drop_down_items: usize,
}

/// The options as values: the label of each id.
pub struct SelectView {
    pub options: Map<u64, Seq<char>>,
    pub selected: Option<u64>,
    pub drop_down_items: usize,
}

impl View for SelectState {
    type V = SelectView;

    closed spec fn view(&self) -> SelectView {
        SelectView {
            options: self.options@.map_values(|l: String| l@),
            selected: self.selected,
            drop_down_items: self.drop_down_items,
        }
    }
}

/// The look of the entry of option `id` in a list of `n` entries.
pub open spec fn look_of(v: SelectView, id: u64) -> OptionLook {
    OptionLook {
        border_bottom: rank(v.options.dom(), id) != v.options.len() - 1,
        highlighted: v.selected == Some(id),
    }
}

/// `look` is the look of entry `i`: that of the option of rank `i`.
pub open spec fn look_at(v: SelectView, look: OptionLook, i: int) -> bool {
    exists|id: u64| v.options.contains_key(id) && #[trigger] rank(v.options.dom(), id) == i && look
        == look_of(v, id)
}

/// Whether the popup hides when focus moves: it hides when the widget had focus and no part of
/// it has focus now. Returns the new focus state and whether to hide.
pub fn focus_change(currently_focused: bool, now_focused: bool) -> (r: (bool, bool))
    ensures
        r == (if currently_focused {
            (now_focused, !now_focused)
        } else {
            (now_focused, false)
        }),
{
    if currently_focused {
        if !now_focused {
            (false, true)
        } else {
            (true, false)
        }
    } else {
        (now_focused, false)
    }
}

impl SelectState {
    /// No options and no selection; three items are shown in the drop down.
    pub fn new() -> (s: SelectState)
        ensures
            s@.options == Map::<u64, Seq<char>>::empty(),
            s@.selected is None,
            s@.drop_down_items == 3,
    {
        let s = SelectState { options: BTreeMap::new(), selected: None, drop_down_items: 3 };
        assert(s@.options =~= Map::<u64, Seq<char>>::empty());
        s
    }

    /// The number of options.
    pub fn len(&self) -> (n: usize)
        ensures
            n == self@.options.len(),
    {
        broadcast use vstd::std_specs::btree::group_btree_axioms;

        proof {
            lemma_u64_keys();
            assert(self@.options.dom() =~= self.options@.dom());
        }
        self.options.len()
    }

    /// Adds an option, or relabels the option with that id.
    pub fn add_option(&mut self, id: u64, label: String)
        ensures
            final(self)@.options == old(self)@.options.insert(id, label@),
            final(self)@.selected == old(self)@.selected,
            final(self)@.drop_down_items == old(self)@.drop_down_items,
    {
        proof {
            lemma_u64_keys();
        }
        let ghost l = label@;
        self.options.insert(id, label);
        assert(self@.options =~= old(self)@.options.insert(id, l));
    }

    /// Set the number of items shown in the drop down.
    pub fn set_drop_down_items(&mut self, count: usize)
        ensures
            final(self)@.drop_down_items == count,
            final(self)@.options == old(self)@.options,
            final(self)@.selected == old(self)@.selected,
    {
        self.drop_down_items = count;
    }

    /// The selected id.
    pub fn selected(&self) -> (r: Option<u64>)
        ensures
            r == self@.selected,
    {
        self.selected
    }

    /// The label of option `id`, if it is an option.
    pub fn label_of(&self, id: u64) -> (r: Option<String>)
        ensures
            self@.options.contains_key(id) ==> (r matches Some(l) && l@ == self@.options[id]),
            !self@.options.contains_key(id) ==> r is None,
    {
        broadcast use vstd::std_specs::btree::group_btree_axioms;

        proof {
            lemma_u64_keys();
        }
        match self.options.get(&id) {
            Some(l) => Some(l.clone()),
            None => None,
        }
    }

    /// Select option `id`. Returns `None` where it is already selected (nothing changes);
    /// else the text to show: the option's label, or empty where `id` is not an option.
    pub fn select(&mut self, id: u64) -> (r: Option<String>)
        ensures
            final(self)@.options == old(self)@.options,
            final(self)@.drop_down_items == old(self)@.drop_down_items,
            final(self)@.selected == Some(id),
            old(self)@.selected == Some(id) ==> r is None,
            old(self)@.selected != Some(id) ==> (r matches Some(l) && l@ == (if old(
                self,
            )@.options.contains_key(id) {
                old(self)@.options[id]
            } else {
                Seq::empty()
            })),
    {
        if let Some(cur) = self.selected {
            if cur == id {
                return None;
            }
        }
        self.selected = Some(id);
        match self.label_of(id) {
            Some(l) => Some(l),
            None => Some(String::new()),
        }
    }

    /// The position of the selected option in the list: 0 where nothing, or no option, is
    /// selected.
    pub fn popup_index(&self) -> (r: usize)
        ensures
            r == (match self@.selected {
                Some(id) => if self@.options.contains_key(id) {
                    rank(self@.options.dom(), id)
                } else {
                    0
                },
                None => 0,
            }),
    {
        broadcast use vstd::std_specs::btree::group_btree_axioms;

        proof {
            lemma_u64_keys();
        }
        let ghost rem = IteratorSpec::remaining(&spec_keys_iter(&self.options));
        let ghost dom = self@.options.dom();
        proof {
            lemma_increasing_keys(rem);
            assert(dom =~= self.options@.dom());
            lemma_walk(rem.unref(), dom);
            assert(vstd::std_specs::btree::spec_btree_map_len(&self.options) == self.options@.len());
            assert forall|q: int| 0 <= q < rem.len() implies #[trigger] rank(dom, *rem[q]) == q by {
                assert(rem.unref()[q] == *rem[q]);
            }
        }
        match self.selected {
            Some(id) => {
                let mut i: usize = 0;
                for k in it: self.options.keys()
                    invariant
                        it.seq() == rem,
                        i == it.index(),
                        rem.len() == dom.len(),
                        dom.len() <= usize::MAX,
                        dom == self@.options.dom(),
                        rem.unref().to_set() == dom,
                        forall|q: int| 0 <= q < rem.len() ==> #[trigger] rank(dom, *rem[q]) == q,
                        forall|q: int| 0 <= q < i ==> *rem[q] != id,
                        self@.selected == Some(id),
                {
                    if *k == id {
                        proof {
                            assert(*rem[i as int] == id);
                            assert(rem.unref()[i as int] == *rem[i as int]);
                            assert(rem.unref().to_set().contains(rem.unref()[i as int]));
                            assert(rank(dom, *rem[i as int]) == i);
                            assert(self@.options.contains_key(id));
                        }
                        return i;
                    }
                    i = i + 1;
                }
                proof {
                    if dom.contains(id) {
                        assert(rem.unref().to_set().contains(id));
                        let q = choose|q: int| 0 <= q < rem.unref().len() && rem.unref()[q] == id;
                        assert(*rem[q] == id);
                    }
                }
                0
            },
            None => 0,
        }
    }

    /// The index the popup scrolls to for the option at `index`, so that it shows a third of
    /// the way down: `index - drop_down_items / 3`, or 0 where that is negative.
    pub fn popup_jump_index(&self, index: usize) -> (r: usize)
        ensures
            r as int == (if index >= self@.drop_down_items / 3 {
                index - self@.drop_down_items / 3
            } else {
                0
            }),
    {
        match index.checked_sub(self.drop_down_items / 3) {
            Some(j) => j,
            None => 0,
        }
    }

    /// The number of borders between drop down items: one less than the count, or 0.
    pub fn popup_border_count(&self) -> (r: usize)
        ensures
            r as int == (if self@.drop_down_items >= 1 {
                self@.drop_down_items - 1
            } else {
                0
            }),
    {
        match self.drop_down_items.checked_sub(1) {
            Some(j) => j,
            None => 0,
        }
    }

    /// The look of each entry of the list, in order: entry `i` is that of the option of rank
    /// `i`; every entry but the last has a border below it, and the selected option is
    /// highlighted.
    pub fn option_looks(&self) -> (r: Vec<OptionLook>)
        ensures
            r@.len() == self@.options.len(),
            forall|id: u64|
                #![trigger rank(self@.options.dom(), id)]
                self@.options.contains_key(id) ==> r@[rank(self@.options.dom(), id) as int]
                    == look_of(self@, id),
            forall|i: int| 0 <= i < r@.len() ==> #[trigger] look_at(self@, r@[i], i),
    {
        broadcast use vstd::std_specs::btree::group_btree_axioms;

        proof {
            lemma_u64_keys();
        }
        let n = self.options.len();
        let ghost rem = IteratorSpec::remaining(&spec_keys_iter(&self.options));
        let ghost dom = self@.options.dom();
        proof {
            lemma_increasing_keys(rem);
            assert(dom =~= self.options@.dom());
            lemma_walk(rem.unref(), dom);
            assert(vstd::std_specs::btree::spec_btree_map_len(&self.options) == self.options@.len());
            assert forall|q: int| 0 <= q < rem.len() implies #[trigger] rank(dom, *rem[q]) == q by {
                assert(rem.unref()[q] == *rem[q]);
            }
        }
        let mut r: Vec<OptionLook> = Vec::new();
        let mut i: usize = 0;
        for k in it: self.options.keys()
            invariant
                it.seq() == rem,
                i == it.index(),
                rem.len() == dom.len(),
                n == dom.len(),
                dom == self@.options.dom(),
                forall|q: int| 0 <= q < rem.len() ==> #[trigger] rank(dom, *rem[q]) == q,
                r@.len() == i,
                forall|q: int| 0 <= q < i ==> #[trigger] r@[q] == look_of(self@, *rem[q]),
        {
            let highlighted = match self.selected {
                Some(s) => s == *k,
                None => false,
            };
            r.push(OptionLook { border_bottom: i + 1 != n, highlighted });
            i = i + 1;
        }
        proof {
            assert forall|id: u64| #![trigger rank(self@.options.dom(), id)] self@.options.contains_key(id) implies r@[rank(
                self@.options.dom(),
                id,
            ) as int] == look_of(self@, id) by {
                assert(rem.unref().to_set().contains(id));
                let q = choose|q: int| 0 <= q < rem.unref().len() && rem.unref()[q] == id;
                assert(*rem[q] == id);
                assert(rank(dom, *rem[q]) == q);
            }
            assert forall|q: int| 0 <= q < r@.len() implies #[trigger] look_at(self@, r@[q], q) by {
                assert(rank(dom, *rem[q]) == q);
                assert(rem.unref()[q] == *rem[q]);
                assert(rem.unref().to_set().contains(rem.unref()[q]));
                let id = *rem[q];
                assert(self@.options.contains_key(id));
                assert(rank(self@.options.dom(), id) == q);
                assert(r@[q] == look_of(self@, id));
            }
        }
        r
    }

    /// The ids of the options, in increasing order.
    pub fn ids(&self) -> (r: Vec<u64>)
        ensures
            r@.to_set() == self@.options.dom(),
            increasing(r@),
    {
        broadcast use vstd::std_specs::btree::group_btree_axioms;

        proof {
            lemma_u64_keys();
        }
        let ghost rem = IteratorSpec::remaining(&spec_keys_iter(&self.options));
        proof {
            lemma_increasing_keys(rem);
            assert(self@.options.dom() =~= self.options@.dom());
        }
        let mut r: Vec<u64> = Vec::new();
        for k in it: self.options.keys()
            invariant
                it.seq() == rem,
                r@ == rem.unref().take(it.index()),
        {
            r.push(*k);
            proof {
                assert(rem.unref().take(it.index() + 1) =~= rem.unref().take(it.index()).push(
                    *rem[it.index()],
                ));
            }
        }
        proof {
            assert(rem.unref().take(rem.len() as int) =~= rem.unref());
        }
        r
    }
}

/// In the list of options at most one entry is highlighted, the selected option's, and only one
/// entry, the last, has no border below it: every option with a larger option after it has one.
pub proof fn law_option_looks(v: SelectView)
    requires
        v.options.dom().finite(),
    ensures
        forall|a: u64|
            #[trigger] v.options.contains_key(a) ==> (look_of(v, a).highlighted <==> v.selected
                == Some(a)),
        forall|a: u64, b: u64|
            #[trigger] v.options.contains_key(a) && #[trigger] v.options.contains_key(b)
                && look_of(v, a).highlighted && look_of(v, b).highlighted ==> a == b,
        forall|a: u64, b: u64|
            #[trigger] v.options.contains_key(a) && #[trigger] v.options.contains_key(b) && a < b
                ==> look_of(v, a).border_bottom,
        forall|a: u64, b: u64|
            #[trigger] v.options.contains_key(a) && #[trigger] v.options.contains_key(b)
                && !look_of(v, a).border_bottom && !look_of(v, b).border_bottom ==> a == b,
{
    let dom = v.options.dom();
    assert(v.options.len() == dom.len());
    assert forall|a: u64, b: u64|
        #[trigger] v.options.contains_key(a) && #[trigger] v.options.contains_key(b) && a < b
            implies look_of(v, a).border_bottom by {
        law_rank(dom, a, b);
        law_rank(dom, b, a);
    }
    assert forall|a: u64, b: u64|
        #[trigger] v.options.contains_key(a) && #[trigger] v.options.contains_key(b)
            && !look_of(v, a).border_bottom && !look_of(v, b).border_bottom implies a == b by {
        if a < b {
            law_rank(dom, a, b);
            law_rank(dom, b, a);
        } else if b < a {
            law_rank(dom, b, a);
            law_rank(dom, a, b);
        }
    }
}

} // verus!
