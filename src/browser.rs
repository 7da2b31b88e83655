//! The selection state: sets, the highlighted set, the cards of that set and
//! the highlighted card, with the navigation rules over them.

use vstd::prelude::*;

use crate::card::{detail_of, Card, DetailLine};
use crate::input::Input;

verus! {

/// What the surrounding loop does after an input has been handled.
#[derive(Clone, Copy, Debug, PartialEq, Eq, Structural)]
pub enum Step {
    /// End the session.
    Quit,
    /// Fetch the cards of the current set and hand them to `set_cards`.
    Reload,
    /// Draw the next frame; nothing else is owed.
    Redraw,
}

/// The selection state as mathematical values.
pub struct BrowserView {
    pub sets: Seq<String>,
    /// The highlighted set; absent exactly when there are no sets.
    pub set_sel: Option<int>,
    pub cards: Seq<Card>,
    /// The highlighted card; 0 when there are no cards.
    pub card_sel: int,
    /// The set whose cards `cards` holds, as it was when they were loaded.
    pub loaded_for: Option<int>,
}

/// `Some(i)` as an `int`, for a selection held as `usize`.
pub open spec fn index_of(o: Option<usize>) -> Option<int> {
    match o {
        Some(i) => Some(i as int),
        None => None,
    }
}

impl BrowserView {
    /// Both selections point into their lists, where the lists are not empty.
    pub open spec fn wf(self) -> bool {
        &&& (self.set_sel is None <==> self.sets.len() == 0)
        &&& (self.set_sel matches Some(i) ==> 0 <= i < self.sets.len())
        &&& (self.loaded_for matches Some(j) ==> 0 <= j < self.sets.len())
        &&& 0 <= self.card_sel
        &&& (self.cards.len() == 0 ==> self.card_sel == 0)
        &&& (self.cards.len() > 0 ==> self.card_sel < self.cards.len())
    }

    /// A fresh state over `sets`: the first set highlighted, no cards loaded.
    pub open spec fn initial(sets: Seq<String>) -> BrowserView {
        BrowserView {
            sets,
            set_sel: if sets.len() == 0 { None } else { Some(0) },
            cards: Seq::empty(),
            card_sel: 0,
            loaded_for: None,
        }
    }

    /// The highlighted set's identifier.
    pub open spec fn current_set(self) -> Option<String> {
        match self.set_sel {
            Some(i) => Some(self.sets[i]),
            None => None,
        }
    }

    /// The highlighted card.
    pub open spec fn current_card(self) -> Option<Card> {
        if self.cards.len() == 0 {
            None
        } else {
            Some(self.cards[self.card_sel])
        }
    }

    /// The cards held are those loaded for the highlighted set.
    pub open spec fn synced(self) -> bool {
        self.loaded_for == self.set_sel
    }

    /// Move the set selection down one, wrapping from the last set to the first.
    pub open spec fn set_down(self) -> BrowserView {
        match self.set_sel {
            Some(i) => BrowserView { set_sel: Some((i + 1) % (self.sets.len() as int)), ..self },
            None => self,
        }
    }

    /// Move the set selection up one, wrapping from the first set to the last.
    pub open spec fn set_up(self) -> BrowserView {
        match self.set_sel {
            Some(i) => BrowserView {
                set_sel: Some((i - 1 + self.sets.len()) % (self.sets.len() as int)),
                ..self
            },
            None => self,
        }
    }

    /// Move the card selection left one, stopping at the first card.
    pub open spec fn card_left(self) -> BrowserView {
        BrowserView { card_sel: if self.card_sel > 0 { self.card_sel - 1 } else { 0 }, ..self }
    }

    /// Move the card selection right one, stopping at the last card.
    pub open spec fn card_right(self) -> BrowserView {
        if self.cards.len() == 0 {
            self
        } else {
            BrowserView {
                card_sel: if self.card_sel + 1 < self.cards.len() {
                    self.card_sel + 1
                } else {
                    self.cards.len() - 1
                },
                ..self
            }
        }
    }

    /// Replace the cards by those loaded for the highlighted set.
    pub open spec fn with_cards(self, cards: Seq<Card>) -> BrowserView {
        BrowserView { cards, card_sel: 0, loaded_for: self.set_sel, ..self }
    }

    /// The state after `input`.
    pub open spec fn after(self, input: Input) -> BrowserView {
        match input {
            Input::SetUp => self.set_up(),
            Input::SetDown => self.set_down(),
            Input::CardLeft => self.card_left(),
            Input::CardRight => self.card_right(),
            Input::Quit => self,
            Input::Ignored => self,
        }
    }

    /// What the loop owes after `input`: a set move on a non-empty set list
    /// asks for a reload, `Quit` ends the session.
    pub open spec fn step_of(self, input: Input) -> Step {
        match input {
            Input::SetUp | Input::SetDown => if self.sets.len() > 0 {
                Step::Reload
            } else {
                Step::Redraw
            },
            Input::Quit => Step::Quit,
            _ => Step::Redraw,
        }
    }

    /// `set_down` applied `k` times.
    pub open spec fn set_down_times(self, k: nat) -> BrowserView
        decreases k,
    {
        if k == 0 {
            self
        } else {
            self.set_down_times((k - 1) as nat).set_down()
        }
    }

    /// `card_right` applied `k` times.
    pub open spec fn card_right_times(self, k: nat) -> BrowserView
        decreases k,
    {
        if k == 0 {
            self
        } else {
            self.card_right_times((k - 1) as nat).card_right()
        }
    }
}

/// `k` moves down from set `i` highlight set `(i + k) mod N`, and change nothing else.
pub proof fn lemma_set_down_times(v: BrowserView, k: nat)
    requires
        v.wf(),
        v.sets.len() > 0,
    ensures
        v.set_down_times(k) == (BrowserView {
            set_sel: Some((v.set_sel->0 + k) % (v.sets.len() as int)),
            ..v
        }),
    decreases k,
{
    let n = v.sets.len() as int;
    let i = v.set_sel->0;
    if k == 0 {
        vstd::arithmetic::div_mod::lemma_small_mod(i as nat, n as nat);
    } else {
        lemma_set_down_times(v, (k - 1) as nat);
        vstd::arithmetic::div_mod::lemma_add_mod_noop_right(1, i + k - 1, n);
    }
}

/// Moving down through the sets as many times as there are sets gives back
/// the state one started from.
pub proof fn lemma_set_down_cycle(v: BrowserView)
    requires
        v.wf(),
        v.sets.len() > 0,
    ensures
        v.set_down_times(v.sets.len()) == v,
{
    let n = v.sets.len() as int;
    let i = v.set_sel->0;
    lemma_set_down_times(v, v.sets.len());
    vstd::arithmetic::div_mod::lemma_mod_add_multiples_vanish(i, n);
    vstd::arithmetic::div_mod::lemma_small_mod(i as nat, n as nat);
}

/// Moving up from the first set highlights the last one.
pub proof fn lemma_set_up_from_first(v: BrowserView)
    requires
        v.wf(),
        v.sets.len() > 0,
        v.set_sel == Some(0int),
    ensures
        v.set_up().set_sel == Some(v.sets.len() - 1),
{
    vstd::arithmetic::div_mod::lemma_small_mod((v.sets.len() - 1) as nat, v.sets.len());
}

/// `k` moves right from card `c` highlight card `min(c + k, M - 1)`, and change
/// nothing else.
pub proof fn lemma_card_right_times(v: BrowserView, k: nat)
    requires
        v.wf(),
        v.cards.len() > 0,
    ensures
        v.card_right_times(k) == (BrowserView {
            card_sel: if v.card_sel + k < v.cards.len() {
                v.card_sel + k
            } else {
                v.cards.len() - 1
            },
            ..v
        }),
    decreases k,
{
    if k > 0 {
        lemma_card_right_times(v, (k - 1) as nat);
    }
}

/// Moving right through the cards at least `M - 1` times ends on the last
/// card, however many more moves follow.
pub proof fn lemma_card_right_clamps(v: BrowserView, k: nat)
    requires
        v.wf(),
        v.cards.len() >= 1,
        k >= v.cards.len() - 1,
    ensures
        v.card_right_times(k).card_sel == v.cards.len() - 1,
        v.card_right_times(k).cards == v.cards,
{
    lemma_card_right_times(v, k);
}

/// Moving left from the first card leaves the state as it was.
pub proof fn lemma_card_left_from_first(v: BrowserView)
    requires
        v.card_sel == 0,
    ensures
        v.card_left() == v,
{
}

/// Every transition keeps both selections inside their lists.
pub proof fn lemma_after_wf(v: BrowserView, input: Input)
    requires
        v.wf(),
    ensures
        v.after(input).wf(),
{
    if v.sets.len() > 0 {
        let n = v.sets.len() as int;
        let i = v.set_sel->0;
        vstd::arithmetic::div_mod::lemma_mod_bound(i + 1, n);
        vstd::arithmetic::div_mod::lemma_mod_bound(i - 1 + n, n);
    }
}

/// A move to another set asks for a reload and leaves the cards marked stale;
/// once the reload hands over the new set's cards, the first of them is
/// highlighted and exactly those cards are held.
pub proof fn lemma_reload_after_set_move(v: BrowserView, input: Input, cards: Seq<Card>)
    requires
        v.wf(),
        input == Input::SetUp || input == Input::SetDown,
        v.after(input).set_sel != v.set_sel,
    ensures
        v.step_of(input) == Step::Reload,
        v.synced() ==> !v.after(input).synced(),
        v.after(input).with_cards(cards).wf(),
        v.after(input).with_cards(cards).synced(),
        v.after(input).with_cards(cards).card_sel == 0,
        v.after(input).with_cards(cards).cards == cards,
        v.after(input).with_cards(cards).current_set() == v.after(input).current_set(),
{
    lemma_after_wf(v, input);
}

/// With no cards there is no current card, and neither card move changes the state.
pub proof fn lemma_no_cards(v: BrowserView)
    requires
        v.wf(),
        v.cards.len() == 0,
    ensures
        v.current_card() is None,
        v.after(Input::CardLeft) == v,
        v.after(Input::CardRight) == v,
{
}

/// The browser's state: the set identifiers, the highlighted set, the cards of
/// that set and the highlighted card.
pub struct App {
    sets: Vec<String>,
    set_selection: Option<usize>,
    cards: Vec<Card>,
    card_selection: usize,
    loaded_for: Option<usize>,
}

impl View for App {
    type V = BrowserView;

    closed spec fn view(&self) -> BrowserView {
        BrowserView {
            sets: self.sets@,
            set_sel: index_of(self.set_selection),
            cards: self.cards@,
            card_sel: self.card_selection as int,
            loaded_for: index_of(self.loaded_for),
        }
    }
}

impl App {
    /// Both selections point into their lists (see `BrowserView::wf`).
    pub open spec fn wf(&self) -> bool {
        self@.wf()
    }

    /// A browser over `sets` with the first set highlighted and no cards yet.
    pub fn new(sets: Vec<String>) -> (r: App)
        ensures
            r.wf(),
            r@ == BrowserView::initial(sets@),
    {
        let sel = if sets.len() == 0 { None } else { Some(0) };
        App { sets, set_selection: sel, cards: Vec::new(), card_selection: 0, loaded_for: None }
    }

    /// Replace the set identifiers; the first is highlighted and the cards are
    /// dropped until the next `set_cards`.
    pub fn set_sets(&mut self, sets: Vec<String>)
        ensures
            final(self).wf(),
            final(self)@ == BrowserView::initial(sets@),
    {
        self.set_selection = if sets.len() == 0 { None } else { Some(0) };
        self.sets = sets;
        self.cards = Vec::new();
        self.card_selection = 0;
        self.loaded_for = None;
    }

    /// Replace the cards by those of the highlighted set; the first is highlighted.
    pub fn set_cards(&mut self, cards: Vec<Card>)
        requires
            old(self).wf(),
        ensures
            final(self).wf(),
            final(self)@ == old(self)@.with_cards(cards@),
    {
        self.cards = cards;
        self.card_selection = 0;
        self.loaded_for = self.set_selection;
    }

    /// Highlight the next set, or the first after the last.
    pub fn next_set(&mut self)
        requires
            old(self).wf(),
        ensures
            final(self).wf(),
            final(self)@ == old(self)@.set_down(),
    {
        match self.set_selection {
            Some(i) => {
                let n = self.sets.len();
                let j: usize = if i >= n - 1 { 0 } else { i + 1 };
                proof {
                    if i + 1 == n {
                        vstd::arithmetic::div_mod::lemma_mod_self_0(n as int);
                    } else {
                        vstd::arithmetic::div_mod::lemma_small_mod((i + 1) as nat, n as nat);
                    }
                }
                self.set_selection = Some(j);
            },
            None => {},
        }
    }

    /// Highlight the previous set, or the last before the first.
    pub fn previous_set(&mut self)
        requires
            old(self).wf(),
        ensures
            final(self).wf(),
            final(self)@ == old(self)@.set_up(),
    {
        match self.set_selection {
            Some(i) => {
                let n = self.sets.len();
                let j: usize = if i == 0 { n - 1 } else { i - 1 };
                proof {
                    if i == 0 {
                        vstd::arithmetic::div_mod::lemma_small_mod((n - 1) as nat, n as nat);
                    } else {
                        vstd::arithmetic::div_mod::lemma_mod_add_multiples_vanish(i - 1, n as int);
                        vstd::arithmetic::div_mod::lemma_small_mod((i - 1) as nat, n as nat);
                    }
                }
                self.set_selection = Some(j);
            },
            None => {},
        }
    }

    /// Highlight the previous card; stays on the first.
    pub fn previous_card(&mut self)
        requires
            old(self).wf(),
        ensures
            final(self).wf(),
            final(self)@ == old(self)@.card_left(),
    {
        self.card_selection = self.card_selection.saturating_sub(1);
    }

    /// Highlight the next card; stays on the last, and does nothing without cards.
    pub fn next_card(&mut self)
        requires
            old(self).wf(),
        ensures
            final(self).wf(),
            final(self)@ == old(self)@.card_right(),
    {
        if self.cards.len() > 0 && self.card_selection < self.cards.len() - 1 {
            self.card_selection = self.card_selection + 1;
        }
    }

    /// The set identifiers, in the order storage listed them.
    pub fn sets(&self) -> (r: &Vec<String>)
        ensures
            r@ == self@.sets,
    {
        &self.sets
    }

    /// The highlighted set's index; absent when there are no sets.
    pub fn set_selection(&self) -> (r: Option<usize>)
        ensures
            index_of(r) == self@.set_sel,
    {
        self.set_selection
    }

    /// The cards of the set they were loaded for.
    pub fn cards(&self) -> (r: &Vec<Card>)
        ensures
            r@ == self@.cards,
    {
        &self.cards
    }

    /// The highlighted card's index; 0 when there are no cards.
    pub fn card_selection(&self) -> (r: usize)
        ensures
            r == self@.card_sel,
    {
        self.card_selection
    }

    /// The highlighted set's identifier; absent when there are no sets.
    pub fn current_set(&self) -> (r: Option<&String>)
        requires
            self.wf(),
        ensures
            r is None <==> self@.current_set() is None,
            r matches Some(s) ==> self@.current_set() == Some(*s),
    {
        match self.set_selection {
            Some(i) => Some(&self.sets[i]),
            None => None,
        }
    }

    /// The highlighted card; absent when there are no cards.
    pub fn current_card(&self) -> (r: Option<&Card>)
        requires
            self.wf(),
        ensures
            r is None <==> self@.current_card() is None,
            r matches Some(c) ==> self@.current_card() == Some(*c),
    {
        if self.cards.len() == 0 {
            None
        } else {
            Some(&self.cards[self.card_selection])
        }
    }

    /// Whether the cards held are those of the highlighted set.
    pub fn is_synced(&self) -> (r: bool)
        ensures
            r == self@.synced(),
    {
        match (self.loaded_for, self.set_selection) {
            (Some(a), Some(b)) => a == b,
            (None, None) => true,
            _ => false,
        }
    }

    /// The detail pane's lines: those of the highlighted card, or none when
    /// there is no card to show.
    pub fn detail(&self) -> (r: Vec<DetailLine>)
        requires
            self.wf(),
        ensures
            r@ == (match self@.current_card() {
                Some(c) => detail_of(c),
                None => Seq::empty(),
            }),
    {
        match self.current_card() {
            Some(c) => c.detail_lines(),
            None => Vec::new(),
        }
    }

    /// Apply one input and say what the surrounding loop owes next.
    pub fn handle(&mut self, input: Input) -> (r: Step)
        requires
            old(self).wf(),
        ensures
            final(self).wf(),
            final(self)@ == old(self)@.after(input),
            r == old(self)@.step_of(input),
    {
        match input {
            Input::SetUp => {
                self.previous_set();
                if self.sets.len() > 0 { Step::Reload } else { Step::Redraw }
            },
            Input::SetDown => {
                self.next_set();
                if self.sets.len() > 0 { Step::Reload } else { Step::Redraw }
            },
            Input::CardLeft => {
                self.previous_card();
                Step::Redraw
            },
            Input::CardRight => {
                self.next_card();
                Step::Redraw
            },
            Input::Quit => Step::Quit,
            Input::Ignored => Step::Redraw,
        }
    }
}

} // verus!
