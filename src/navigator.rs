//! The navigation engine: a stack of screens driven by selection results.
//! The caller runs the loop: take the top screen with `next`, let the user
//! select on it, and hand the screen back with the result to `apply`, until
//! `next` finds the stack empty.
use vstd::prelude::*;
use crate::menu::{MenuResult, Screen};

verus! {

pub struct Navigator {
    stack: Vec<Screen>,
}

impl View for Navigator {
    type V = Seq<Screen>;

    closed spec fn view(&self) -> Seq<Screen> {
        self.stack@
    }
}

/// The stack after the screen `current`, taken off `stack`, led to `result`:
/// a new screen goes on top of `current`; back drops `current`; exit and
/// entered text end everything.
pub open spec fn after(stack: Seq<Screen>, current: Screen, result: MenuResult) -> Seq<Screen> {
    match result {
        MenuResult::Menu(next) => stack.push(current).push(next),
        MenuResult::Back => stack,
        MenuResult::Exit => Seq::empty(),
        MenuResult::Input(_) => Seq::empty(),
    }
}

/// One round of the loop: the top screen is taken and `result` applied. An
/// empty stack has ended the loop and stays empty.
pub open spec fn round(stack: Seq<Screen>, result: MenuResult) -> Seq<Screen> {
    if stack.len() == 0 {
        stack
    } else {
        after(stack.drop_last(), stack.last(), result)
    }
}

/// The stack after a series of rounds.
pub open spec fn rounds(stack: Seq<Screen>, results: Seq<MenuResult>) -> Seq<Screen>
    decreases results.len(),
{
    if results.len() == 0 {
        stack
    } else {
        rounds(round(stack, results[0]), results.drop_first())
    }
}

/// `n` back selections.
pub open spec fn backs(n: nat) -> Seq<MenuResult> {
    Seq::new(n, |i: int| MenuResult::Back)
}

/// Selections that open `screens`, one after the other.
pub open spec fn opening(screens: Seq<Screen>) -> Seq<MenuResult> {
    screens.map_values(|s: Screen| MenuResult::Menu(s))
}

impl Navigator {
    /// A navigator showing `initial`.
    pub fn new(initial: Screen) -> (r: Navigator)
        ensures
            r@ == seq![initial],
    {
        let mut stack: Vec<Screen> = Vec::new();
        stack.push(initial);
        Navigator { stack }
    }

    /// A navigator with no screen.
    pub fn empty() -> (r: Navigator)
        ensures
            r@ == Seq::<Screen>::empty(),
    {
        Navigator { stack: Vec::new() }
    }

    /// Puts `screen` on top.
    pub fn push(&mut self, screen: Screen)
        ensures
            final(self)@ == old(self)@.push(screen),
    {
        self.stack.push(screen);
    }

    /// Takes the top screen off, or `None` when the loop is over.
    pub fn next(&mut self) -> (r: Option<Screen>)
        ensures
            old(self)@.len() == 0 ==> r is None && final(self)@ == old(self)@,
            old(self)@.len() > 0 ==> r == Some(old(self)@.last()) && final(self)@
                == old(self)@.drop_last(),
    {
        self.stack.pop()
    }

    /// Applies the result of a selection on `current`, the screen that
    /// `next` took off.
    pub fn apply(&mut self, current: Screen, result: MenuResult)
        ensures
            final(self)@ == after(old(self)@, current, result),
    {
        match result {
            MenuResult::Menu(next) => {
                self.stack.push(current);
                self.stack.push(next);
            },
            MenuResult::Back => {},
            MenuResult::Exit => {
                self.stack.clear();
            },
            MenuResult::Input(_) => {
                self.stack.clear();
            },
        }
    }

    /// Whether the loop is over.
    pub fn is_done(&self) -> (r: bool)
        ensures
            r == (self@.len() == 0),
    {
        self.stack.len() == 0
    }

    /// How many screens are open.
    pub fn depth(&self) -> (r: usize)
        ensures
            r == self@.len(),
    {
        self.stack.len()
    }
}

/// Backing out of as many screens as were put on top of a stack leaves that
/// stack as it was.
pub proof fn lemma_backs_undo_pushes(base: Seq<Screen>, pushed: Seq<Screen>)
    ensures
        rounds(base + pushed, backs(pushed.len())) == base,
    decreases pushed.len(),
{
    if pushed.len() == 0 {
        assert(base + pushed =~= base);
    } else {
        let s = base + pushed;
        assert(s.drop_last() =~= base + pushed.drop_last());
        assert(backs(pushed.len())[0] == MenuResult::Back);
        assert(backs(pushed.len()).drop_first() =~= backs(pushed.drop_last().len()));
        lemma_backs_undo_pushes(base, pushed.drop_last());
    }
}

/// Pushing any number of screens onto an empty navigator and then going
/// back as many times empties it, which ends the loop.
pub proof fn lemma_push_then_back_terminates(pushed: Seq<Screen>)
    ensures
        rounds(pushed, backs(pushed.len())).len() == 0,
{
    lemma_backs_undo_pushes(Seq::empty(), pushed);
    assert(Seq::<Screen>::empty() + pushed =~= pushed);
}

/// Opening screens one after the other from a screen and then going back
/// as many times returns to that screen alone.
pub proof fn lemma_open_then_back(base: Seq<Screen>, screens: Seq<Screen>)
    requires
        base.len() > 0,
    ensures
        rounds(rounds(base, opening(screens)), backs(screens.len())) == base,
{
    lemma_opening_pushes(base, screens);
    lemma_backs_undo_pushes(base, screens);
}

/// Opening screens one after the other puts them on top, in order.
pub proof fn lemma_opening_pushes(base: Seq<Screen>, screens: Seq<Screen>)
    requires
        base.len() > 0,
    ensures
        rounds(base, opening(screens)) == base + screens,
    decreases screens.len(),
{
    if screens.len() == 0 {
        assert(base + screens =~= base);
    } else {
        let next = round(base, MenuResult::Menu(screens[0]));
        assert(base.drop_last().push(base.last()) =~= base);
        assert(next =~= base.push(screens[0]));
        assert(opening(screens).drop_first() =~= opening(screens.drop_first()));
        lemma_opening_pushes(next, screens.drop_first());
        assert(next + screens.drop_first() =~= base + screens);
    }
}

} // verus!
