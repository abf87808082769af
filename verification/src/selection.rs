//! The circular selection state machine of the menu.

use vstd::prelude::*;

verus! {

/// Number of entries in the menu.
pub const MENU_ITEMS: usize = 4;

/// A directional input that moves the selection.
#[derive(Clone, Copy, Debug, PartialEq, Eq, Structural)]
pub enum Direction {
    Up,
    Down,
}

/// The index reached from `selection` by one move in direction `dir`,
/// wrapping around at both ends of the menu.
pub open spec fn step_index(selection: int, dir: Direction) -> int {
    match dir {
        Direction::Up => (selection - 1) % 4,
        Direction::Down => (selection + 1) % 4,
    }
}

/// The index reached from `selection` after one frame in which the rising
/// edges `up` and `down` were seen. Up is handled before Down.
pub open spec fn after_input(selection: int, up: bool, down: bool) -> int {
    let moved = if up { step_index(selection, Direction::Up) } else { selection };
    if down { step_index(moved, Direction::Down) } else { moved }
}

/// Whether a signal that was `was_active` on the previous frame and is
/// `is_active` on this one has just become active.
pub open spec fn is_rising_edge(was_active: bool, is_active: bool) -> bool {
    !was_active && is_active
}

/// The index reached from `selection` when the signal for direction `dir`
/// takes the values `frames`, one per frame, after having been `was_active`
/// on the frame before the first. The selection moves on rising edges only.
pub open spec fn after_frames(selection: int, dir: Direction, was_active: bool, frames: Seq<bool>) -> int
    decreases frames.len(),
{
    if frames.len() == 0 {
        selection
    } else {
        let moved = if is_rising_edge(was_active, frames[0]) {
            step_index(selection, dir)
        } else {
            selection
        };
        after_frames(moved, dir, frames[0], frames.drop_first())
    }
}

/// The number of rising edges of a signal that takes the values `frames`,
/// one per frame, after having been `was_active` on the frame before.
pub open spec fn rising_edges(was_active: bool, frames: Seq<bool>) -> nat
    decreases frames.len(),
{
    if frames.len() == 0 {
        0
    } else {
        let first: nat = if is_rising_edge(was_active, frames[0]) { 1 } else { 0 };
        first + rising_edges(frames[0], frames.drop_first())
    }
}

/// The index reached from `selection` by `n` moves in direction `dir`.
pub open spec fn after_steps(selection: int, dir: Direction, n: nat) -> int
    decreases n,
{
    if n == 0 {
        selection
    } else {
        after_steps(step_index(selection, dir), dir, (n - 1) as nat)
    }
}

/// The menu state: the index of the selected entry, always below
/// `MENU_ITEMS`.
#[derive(Debug)]
pub struct GameState {
    menu_selection: usize,
}

impl View for GameState {
    type V = int;

    closed spec fn view(&self) -> int {
        self.menu_selection as int
    }
}

impl GameState {
    #[verifier::type_invariant]
    spec fn in_range(self) -> bool {
        self.menu_selection < MENU_ITEMS
    }

    /// The state at the start of a session: the first entry is selected.
    pub fn new() -> (state: Self)
        ensures
            state@ == 0,
    {
        Self { menu_selection: 0 }
    }

    /// The state in which entry `index` is selected; none for an index
    /// outside the menu.
    pub fn with_selection(index: usize) -> (state: Option<Self>)
        ensures
            index < MENU_ITEMS <==> state is Some,
            state is Some ==> state->0@ == index,
    {
        if index < MENU_ITEMS {
            Some(Self { menu_selection: index })
        } else {
            None
        }
    }

    /// The index of the selected entry.
    pub fn selection(&self) -> (index: usize)
        ensures
            index == self@,
            index < MENU_ITEMS,
    {
        proof {
            use_type_invariant(self);
        }
        self.menu_selection
    }

    /// Moves the selection one entry in direction `dir`, wrapping from the
    /// first entry to the last and back.
    pub fn advance(&mut self, dir: Direction)
        ensures
            final(self)@ == step_index(old(self)@, dir),
            0 <= final(self)@ < MENU_ITEMS,
    {
        proof {
            use_type_invariant(&*self);
        }
        match dir {
            Direction::Up => {
                if self.menu_selection > 0 {
                    self.menu_selection -= 1;
                } else {
                    self.menu_selection = MENU_ITEMS - 1;
                }
            },
            Direction::Down => {
                if self.menu_selection < MENU_ITEMS - 1 {
                    self.menu_selection += 1;
                } else {
                    self.menu_selection = 0;
                }
            },
        }
    }

    /// Applies one frame of directional input: `up` and `down` say whether
    /// the respective signal has just become active. Up is handled first.
    pub fn handle_input(&mut self, up: bool, down: bool)
        ensures
            final(self)@ == after_input(old(self)@, up, down),
            0 <= final(self)@ < MENU_ITEMS,
    {
        proof {
            use_type_invariant(&*self);
        }
        if up {
            self.advance(Direction::Up);
        }
        if down {
            self.advance(Direction::Down);
        }
    }

    /// Follows the signal for direction `dir` over a run of frames:
    /// `frames` holds whether the signal was active on each, `was_active`
    /// whether it was on the frame before. The selection moves once for
    /// each rising edge. Returns the number of moves made.
    pub fn follow_signal(&mut self, dir: Direction, was_active: bool, frames: &Vec<bool>) -> (moves: usize)
        ensures
            moves == rising_edges(was_active, frames@),
            final(self)@ == after_frames(old(self)@, dir, was_active, frames@),
            0 <= final(self)@ < MENU_ITEMS,
    {
        proof {
            use_type_invariant(&*self);
            assert(frames@.skip(0) =~= frames@);
        }
        let mut previous = was_active;
        let mut moves: usize = 0;
        let mut i: usize = 0;
        while i < frames.len()
            invariant
                i <= frames.len(),
                moves <= i,
                0 <= self@ < MENU_ITEMS,
                moves + rising_edges(previous, frames@.skip(i as int)) == rising_edges(was_active, frames@),
                after_frames(self@, dir, previous, frames@.skip(i as int)) == after_frames(
                    old(self)@,
                    dir,
                    was_active,
                    frames@,
                ),
            decreases frames.len() - i,
        {
            proof {
                assert(frames@.skip(i as int).drop_first() =~= frames@.skip(i as int + 1));
            }
            if rising_edge(previous, frames[i]) {
                self.advance(dir);
                moves += 1;
            }
            previous = frames[i];
            i += 1;
        }
        moves
    }
}

/// Whether a signal has just become active: it was not active on the
/// previous frame and is active on this one.
pub fn rising_edge(was_active: bool, is_active: bool) -> (edge: bool)
    ensures
        edge == is_rising_edge(was_active, is_active),
{
    !was_active && is_active
}

/// A move never leaves the menu: from an index below `MENU_ITEMS` every
/// direction leads to an index below `MENU_ITEMS`, one step down from 3 is 0
/// and one step up from 0 is 3.
pub proof fn lemma_step_stays_in_range(selection: int, dir: Direction)
    requires
        0 <= selection < 4,
    ensures
        0 <= step_index(selection, dir) < 4,
        step_index(selection, Direction::Up) == if selection == 0 { 3 } else { selection - 1 },
        step_index(selection, Direction::Down) == if selection == 3 { 0 } else { selection + 1 },
{
}

/// The selection moves once for each rising edge and not otherwise: over
/// any run of frames it ends where as many single moves as the signal has
/// rising edges lead.
pub proof fn lemma_one_move_per_rising_edge(selection: int, dir: Direction, was_active: bool, frames: Seq<bool>)
    ensures
        after_frames(selection, dir, was_active, frames) == after_steps(
            selection,
            dir,
            rising_edges(was_active, frames),
        ),
    decreases frames.len(),
{
    if frames.len() > 0 {
        let moved = if is_rising_edge(was_active, frames[0]) {
            step_index(selection, dir)
        } else {
            selection
        };
        lemma_one_move_per_rising_edge(moved, dir, frames[0], frames.drop_first());
    }
}

/// A signal that stays active has no rising edge.
pub proof fn lemma_sustained_hold_has_no_edge(frames: Seq<bool>)
    requires
        forall|i: int| 0 <= i < frames.len() ==> frames[i],
    ensures
        rising_edges(true, frames) == 0,
    decreases frames.len(),
{
    if frames.len() > 0 {
        lemma_sustained_hold_has_no_edge(frames.drop_first());
    }
}

/// Holding a direction over any number of frames without releasing it moves
/// the selection exactly once, not once per frame: a signal that was
/// inactive and is then active on every one of `frames` has one rising edge,
/// and the selection ends one step from where it began.
pub proof fn lemma_hold_advances_once(selection: int, dir: Direction, frames: Seq<bool>)
    requires
        frames.len() >= 1,
        forall|i: int| 0 <= i < frames.len() ==> frames[i],
    ensures
        rising_edges(false, frames) == 1,
        after_frames(selection, dir, false, frames) == step_index(selection, dir),
{
    lemma_sustained_hold_has_no_edge(frames.drop_first());
    lemma_one_move_per_rising_edge(selection, dir, false, frames);
    reveal_with_fuel(after_steps, 2);
}

} // verus!
