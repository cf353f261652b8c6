//! A selectable ordered list of display strings with wraparound navigation.
use vstd::prelude::*;

verus! {

broadcast use vstd::std_specs::vec::group_vec_axioms;

/// Mathematical model of a selectable list: the display strings and the
/// selected index, if any.
#[verifier::ext_equal]
pub ghost struct ListView {
    pub items: Seq<Seq<char>>,
    pub selected: Option<int>,
}

/// Well-formedness: a non-empty list always has a selection, in range; an
/// empty list never has one.
pub open spec fn list_wf(l: ListView) -> bool {
    match l.selected {
        Some(i) => l.items.len() > 0 && 0 <= i < l.items.len(),
        None => l.items.len() == 0,
    }
}

pub open spec fn next_index(i: int, len: int) -> int {
    if i + 1 < len {
        i + 1
    } else {
        0
    }
}

pub open spec fn prev_index(i: int, len: int) -> int {
    if i == 0 {
        len - 1
    } else {
        i - 1
    }
}

/// One downward navigation step: wraps from the last item to the first;
/// a no-op on an empty list.
pub open spec fn list_next(l: ListView) -> ListView {
    match l.selected {
        Some(i) => ListView { items: l.items, selected: Some(next_index(i, l.items.len() as int)) },
        None => l,
    }
}

/// One upward navigation step: wraps from the first item to the last;
/// a no-op on an empty list.
pub open spec fn list_previous(l: ListView) -> ListView {
    match l.selected {
        Some(i) => ListView { items: l.items, selected: Some(prev_index(i, l.items.len() as int)) },
        None => l,
    }
}

/// A selectable ordered list of display strings. Construction and
/// navigation keep `list_wf` of the view; out-of-range selections are
/// unreachable.
pub struct StatefulList {
    pub items: Vec<String>,
    pub selected: Option<usize>,
}

impl View for StatefulList {
    type V = ListView;

    open spec fn view(&self) -> ListView {
        ListView {
            items: self.items.deep_view(),
            selected: match self.selected {
                Some(i) => Some(i as int),
                None => None,
            },
        }
    }
}

/// Names the result of textwrap's line filling, a function of the text and
/// the width alone.
pub uninterp spec fn fill_of(s: Seq<char>, width: int) -> Seq<char>;

/// Relies on textwrap::fill: re-wraps the text so that no line exceeds the
/// given width; deterministic in its two arguments.
#[verifier::external_body]
fn fill_wrapped(s: &String, width: usize) -> (r: String)
    ensures
        r@ == fill_of(s@, width as int),
{
    textwrap::fill(s.as_str(), width)
}

impl StatefulList {
    /// A new list over the given items, selecting the first when there is
    /// one.
    pub fn with_items(items: Vec<String>) -> (l: StatefulList)
        ensures
            l@.items == items.deep_view(),
            l@.selected == if items.len() > 0 {
                Some(0int)
            } else {
                None::<int>
            },
            list_wf(l@),
    {
        let selected = if items.len() > 0 {
            Some(0usize)
        } else {
            None
        };
        StatefulList { items, selected }
    }

    /// The rows to display: each item re-wrapped to the width left inside a
    /// one-cell border on either side.
    pub fn get_list(&self, width: u16) -> (rows: Vec<String>)
        requires
            width >= 2,
        ensures
            rows.deep_view().len() == self@.items.len(),
            forall|i: int|
                0 <= i < self@.items.len() ==> rows.deep_view()[i] == fill_of(
                    self@.items[i],
                    width - 2,
                ),
    {
        let w = (width - 2) as usize;
        let mut rows: Vec<String> = Vec::new();
        let mut idx: usize = 0;
        while idx < self.items.len()
            invariant
                idx <= self.items.len(),
                rows@.len() == idx,
                w == width - 2,
                forall|j: int| 0 <= j < idx ==> rows@[j]@ == fill_of(self.items@[j]@, width - 2),
            decreases self.items.len() - idx,
        {
            rows.push(fill_wrapped(&self.items[idx], w));
            idx += 1;
        }
        rows
    }

    /// The selected index, if any.
    pub fn selected(&self) -> (r: Option<usize>)
        ensures
            r == self.selected,
    {
        self.selected
    }

    /// Moves the selection one item down, wrapping to the top past the last
    /// item; a no-op on an empty list.
    pub fn next(&mut self)
        requires
            list_wf(old(self)@),
        ensures
            list_wf(final(self)@),
            final(self)@ == list_next(old(self)@),
    {
        proof {
            assert(self.items.deep_view().len() == self.items@.len());
        }
        let len = self.items.len();
        match self.selected {
            Some(i) => {
                let ni = if i + 1 < len {
                    i + 1
                } else {
                    0
                };
                self.selected = Some(ni);
            },
            None => {},
        }
        proof {
            assert(self@ =~= list_next(old(self)@));
        }
    }

    /// Moves the selection one item up, wrapping to the bottom past the
    /// first item; a no-op on an empty list.
    pub fn previous(&mut self)
        requires
            list_wf(old(self)@),
        ensures
            list_wf(final(self)@),
            final(self)@ == list_previous(old(self)@),
    {
        proof {
            assert(self.items.deep_view().len() == self.items@.len());
        }
        let len = self.items.len();
        match self.selected {
            Some(i) => {
                let ni = if i == 0 {
                    len - 1
                } else {
                    i - 1
                };
                self.selected = Some(ni);
            },
            None => {},
        }
        proof {
            assert(self@ =~= list_previous(old(self)@));
        }
    }
}

/// The list after `k` downward navigation steps.
pub open spec fn iterate_next(l: ListView, k: nat) -> ListView
    decreases k,
{
    if k == 0 {
        l
    } else {
        list_next(iterate_next(l, (k - 1) as nat))
    }
}

/// The list after `k` upward navigation steps.
pub open spec fn iterate_previous(l: ListView, k: nat) -> ListView
    decreases k,
{
    if k == 0 {
        l
    } else {
        list_previous(iterate_previous(l, (k - 1) as nat))
    }
}

proof fn lemma_iterate_next_formula(l: ListView, k: nat)
    requires
        list_wf(l),
        l.items.len() > 0,
        k <= l.items.len(),
    ensures
        iterate_next(l, k).items == l.items,
        iterate_next(l, k).selected == Some(
            if l.selected->0 + k < l.items.len() {
                l.selected->0 + k
            } else {
                l.selected->0 + k - l.items.len()
            },
        ),
    decreases k,
{
    if k > 0 {
        lemma_iterate_next_formula(l, (k - 1) as nat);
    }
}

proof fn lemma_iterate_previous_formula(l: ListView, k: nat)
    requires
        list_wf(l),
        l.items.len() > 0,
        k <= l.items.len(),
    ensures
        iterate_previous(l, k).items == l.items,
        iterate_previous(l, k).selected == Some(
            if l.selected->0 - k >= 0 {
                l.selected->0 - k
            } else {
                l.selected->0 - k + l.items.len()
            },
        ),
    decreases k,
{
    if k > 0 {
        lemma_iterate_previous_formula(l, (k - 1) as nat);
    }
}

/// Cyclic navigation downward: on a non-empty list, exactly `len` `next`
/// steps return the selection to its starting index.
pub proof fn lemma_next_cycle(l: ListView)
    requires
        list_wf(l),
        l.items.len() > 0,
    ensures
        iterate_next(l, l.items.len()) == l,
{
    lemma_iterate_next_formula(l, l.items.len());
    assert(iterate_next(l, l.items.len()) =~= l);
}

/// Cyclic navigation upward: on a non-empty list, exactly `len` `previous`
/// steps return the selection to its starting index.
pub proof fn lemma_previous_cycle(l: ListView)
    requires
        list_wf(l),
        l.items.len() > 0,
    ensures
        iterate_previous(l, l.items.len()) == l,
{
    lemma_iterate_previous_formula(l, l.items.len());
    assert(iterate_previous(l, l.items.len()) =~= l);
}

} // verus!
