//! The input binding layer: raw device inputs bind to logical slots,
//! and a per-player remappable table turns slots into abilities.
//!
//! The layer is recomputed every frame; the only state kept across
//! frames is which slots were pressed last frame, needed to tell a
//! fresh press from a held one. An ability is just activated on a
//! frame exactly when it was not pressed last frame and is pressed
//! this frame.

use vstd::prelude::*;

verus! {

/// Number of logical slots.
pub const SLOT_COUNT: usize = 6;

/// Number of logical abilities.
pub const ABILITY_COUNT: usize = 3;

/// A raw device input: the keys and pointer buttons the game binds.
#[derive(Clone, Copy, Debug, PartialEq, Eq, Structural)]
pub enum RawInput {
    KeyA,
    KeyD,
    ArrowLeft,
    ArrowRight,
    Space,
    KeyQ,
    KeyW,
    KeyE,
    KeyZ,
    KeyX,
    MouseLeft,
    MouseRight,
}

/// A directional movement action, read straight off its bindings.
#[derive(Clone, Copy, Debug, PartialEq, Eq, Structural)]
pub enum Movement {
    Left,
    Right,
}

/// A logical input bucket that raw inputs bind to.
#[derive(Clone, Copy, Debug, PartialEq, Eq, Structural)]
pub enum Slot {
    Primary,
    Secondary,
    Ability1,
    Ability2,
    Ability3,
    Ability4,
}

/// A logical action a slot can trigger.
#[derive(Clone, Copy, Debug, PartialEq, Eq, Structural)]
pub enum Ability {
    Evade,
    Bomb,
    ShootBullet,
}

impl Slot {
    /// The slot's place in the fixed slot order.
    pub open spec fn idx(self) -> int {
        match self {
            Slot::Primary => 0,
            Slot::Secondary => 1,
            Slot::Ability1 => 2,
            Slot::Ability2 => 3,
            Slot::Ability3 => 4,
            Slot::Ability4 => 5,
        }
    }

    /// The slot at a place in the fixed slot order.
    pub open spec fn of_idx(i: int) -> Slot {
        if i == 0 {
            Slot::Primary
        } else if i == 1 {
            Slot::Secondary
        } else if i == 2 {
            Slot::Ability1
        } else if i == 3 {
            Slot::Ability2
        } else if i == 4 {
            Slot::Ability3
        } else {
            Slot::Ability4
        }
    }

    /// The slot's index, as executable code.
    pub fn index(self) -> (i: usize)
        ensures
            i == self.idx(),
            i < SLOT_COUNT,
            Slot::of_idx(i as int) == self,
    {
        match self {
            Slot::Primary => 0,
            Slot::Secondary => 1,
            Slot::Ability1 => 2,
            Slot::Ability2 => 3,
            Slot::Ability3 => 4,
            Slot::Ability4 => 5,
        }
    }

    /// The slot at an index, as executable code.
    pub fn from_index(i: usize) -> (s: Slot)
        requires
            i < SLOT_COUNT,
        ensures
            s == Slot::of_idx(i as int),
            s.idx() == i,
    {
        if i == 0 {
            Slot::Primary
        } else if i == 1 {
            Slot::Secondary
        } else if i == 2 {
            Slot::Ability1
        } else if i == 3 {
            Slot::Ability2
        } else if i == 4 {
            Slot::Ability3
        } else {
            Slot::Ability4
        }
    }
}

impl Ability {
    /// The ability's place in the fixed ability order.
    pub open spec fn idx(self) -> int {
        match self {
            Ability::Evade => 0,
            Ability::Bomb => 1,
            Ability::ShootBullet => 2,
        }
    }

    /// The ability's index, as executable code.
    pub fn index(self) -> (i: usize)
        ensures
            i == self.idx(),
            i < ABILITY_COUNT,
    {
        match self {
            Ability::Evade => 0,
            Ability::Bomb => 1,
            Ability::ShootBullet => 2,
        }
    }
}

/// One action's per-frame record: held, freshly pressed, freshly
/// released.
#[derive(Clone, Copy, Debug, PartialEq, Eq, Structural)]
pub struct ActionData {
    pub pressed: bool,
    pub just_pressed: bool,
    pub just_released: bool,
}

impl ActionData {
    /// The record of an action nothing drives this frame.
    pub fn idle() -> (d: ActionData)
        ensures
            d == (ActionData { pressed: false, just_pressed: false, just_released: false }),
    {
        ActionData { pressed: false, just_pressed: false, just_released: false }
    }
}

/// Whether the raw input is currently down.
pub fn contains_input(down: &Vec<RawInput>, x: RawInput) -> (r: bool)
    ensures
        r == down@.contains(x),
{
    let mut i: usize = 0;
    while i < down.len()
        invariant
            i <= down@.len(),
            forall|k: int| 0 <= k < i ==> down@[k] != x,
        decreases down@.len() - i,
    {
        if down[i] == x {
            return true;
        }
        i = i + 1;
    }
    false
}

/// A slot is pressed exactly when some raw input bound to it is down.
pub open spec fn slot_pressed_spec(
    pairs: Seq<(RawInput, Slot)>,
    down: Seq<RawInput>,
    s: Slot,
) -> bool {
    exists|i: int| 0 <= i < pairs.len() && #[trigger] pairs[i].1 == s && down.contains(pairs[i].0)
}

/// Whether any raw input bound to the slot is down.
pub fn slot_pressed(pairs: &Vec<(RawInput, Slot)>, down: &Vec<RawInput>, s: Slot) -> (r: bool)
    ensures
        r == slot_pressed_spec(pairs@, down@, s),
{
    let mut i: usize = 0;
    while i < pairs.len()
        invariant
            i <= pairs@.len(),
            forall|k: int|
                0 <= k < i ==> !(#[trigger] pairs@[k].1 == s && down@.contains(pairs@[k].0)),
        decreases pairs@.len() - i,
    {
        if pairs[i].1 == s && contains_input(down, pairs[i].0) {
            assert(pairs@[i as int].1 == s && down@.contains(pairs@[i as int].0));
            return true;
        }
        i = i + 1;
    }
    false
}

/// A movement action is pressed exactly when some raw input bound to
/// it is down.
pub open spec fn movement_pressed_spec(
    pairs: Seq<(RawInput, Movement)>,
    down: Seq<RawInput>,
    m: Movement,
) -> bool {
    exists|i: int| 0 <= i < pairs.len() && #[trigger] pairs[i].1 == m && down.contains(pairs[i].0)
}

/// Whether any raw input bound to the movement action is down.
pub fn movement_pressed(
    pairs: &Vec<(RawInput, Movement)>,
    down: &Vec<RawInput>,
    m: Movement,
) -> (r: bool)
    ensures
        r == movement_pressed_spec(pairs@, down@, m),
{
    let mut i: usize = 0;
    while i < pairs.len()
        invariant
            i <= pairs@.len(),
            forall|k: int|
                0 <= k < i ==> !(#[trigger] pairs@[k].1 == m && down@.contains(pairs@[k].0)),
        decreases pairs@.len() - i,
    {
        if pairs[i].1 == m && contains_input(down, pairs[i].0) {
            assert(pairs@[i as int].1 == m && down@.contains(pairs@[i as int].0));
            return true;
        }
        i = i + 1;
    }
    false
}

/// The slot's full record this frame, given which slots were pressed
/// last frame.
pub open spec fn slot_data_spec(
    pairs: Seq<(RawInput, Slot)>,
    down: Seq<RawInput>,
    prev: Seq<bool>,
    i: int,
) -> ActionData {
    let p = slot_pressed_spec(pairs, down, Slot::of_idx(i));
    ActionData { pressed: p, just_pressed: p && !prev[i], just_released: !p && prev[i] }
}

/// All six slots' records this frame.
pub open spec fn slot_states_spec(
    pairs: Seq<(RawInput, Slot)>,
    down: Seq<RawInput>,
    prev: Seq<bool>,
) -> Seq<ActionData> {
    Seq::new(SLOT_COUNT as nat, |i: int| slot_data_spec(pairs, down, prev, i))
}

/// The pressed-set the next frame remembers of this one.
pub open spec fn pressed_after(pairs: Seq<(RawInput, Slot)>, down: Seq<RawInput>) -> Seq<bool> {
    Seq::new(SLOT_COUNT as nat, |i: int| slot_pressed_spec(pairs, down, Slot::of_idx(i)))
}

/// Stage one of the binding layer: computes every slot's record from
/// the raw inputs now down and last frame's pressed-set.
pub fn read_slot_states(
    pairs: &Vec<(RawInput, Slot)>,
    down: &Vec<RawInput>,
    prev: &Vec<bool>,
) -> (st: Vec<ActionData>)
    requires
        prev@.len() == SLOT_COUNT,
    ensures
        st@ == slot_states_spec(pairs@, down@, prev@),
        st@.len() == SLOT_COUNT,
{
    let mut st: Vec<ActionData> = Vec::new();
    let mut i: usize = 0;
    while i < SLOT_COUNT
        invariant
            i <= SLOT_COUNT,
            prev@.len() == SLOT_COUNT,
            st@.len() == i,
            forall|k: int| 0 <= k < i ==> st@[k] == slot_data_spec(pairs@, down@, prev@, k),
        decreases SLOT_COUNT - i,
    {
        let s = Slot::from_index(i);
        let p = slot_pressed(pairs, down, s);
        st.push(
            ActionData {
                pressed: p,
                just_pressed: p && !prev[i],
                just_released: !p && prev[i],
            },
        );
        i = i + 1;
    }
    proof {
        assert(st@ =~= slot_states_spec(pairs@, down@, prev@));
    }
    st
}

/// The remappable slot-to-ability table a player owns.
pub struct AbilitySlotMap {
    /// One entry per slot, in slot order.
    pub slots: Vec<Option<Ability>>,
}

impl AbilitySlotMap {
    /// The table holds one entry per slot.
    pub open spec fn wf(self) -> bool {
        self.slots@.len() == SLOT_COUNT
    }

    /// The ability the slot is bound to, if any.
    pub open spec fn spec_get(self, s: Slot) -> Option<Ability> {
        self.slots@[s.idx()]
    }

    /// Starts with no slot bound.
    pub fn new() -> (m: AbilitySlotMap)
        ensures
            m.wf(),
            forall|i: int| 0 <= i < SLOT_COUNT ==> m.slots@[i] is None,
    {
        let mut slots: Vec<Option<Ability>> = Vec::new();
        let mut i: usize = 0;
        while i < SLOT_COUNT
            invariant
                slots@.len() == i,
                i <= SLOT_COUNT,
                forall|k: int| 0 <= k < i ==> slots@[k] is None,
            decreases SLOT_COUNT - i,
        {
            slots.push(None);
            i = i + 1;
        }
        AbilitySlotMap { slots }
    }

    /// Reads the slot's binding.
    pub fn get(&self, s: Slot) -> (r: Option<Ability>)
        requires
            self.wf(),
        ensures
            r == self.spec_get(s),
    {
        self.slots[s.index()]
    }

    /// Rebinds the slot to the ability, leaving the rest alone.
    pub fn insert(&mut self, s: Slot, a: Ability)
        requires
            old(self).wf(),
        ensures
            final(self).wf(),
            final(self).slots@ == old(self).slots@.update(s.idx(), Some(a)),
            final(self).spec_get(s) == Some(a),
            forall|t: Slot| t != s ==> final(self).spec_get(t) == old(self).spec_get(t),
    {
        let i = s.index();
        self.slots.set(i, Some(a));
        proof {
            assert forall|t: Slot| t != s implies final(self).spec_get(t) == old(
                self,
            ).spec_get(t) by {
                assert(t.idx() != s.idx());
            }
        }
    }
}

/// The slot the copy stage leaves in charge of an ability: the last
/// slot in slot order bound to it, among the first `n` slots.
pub open spec fn winning_slot(m: AbilitySlotMap, a: Ability, n: int) -> Option<int>
    decreases n,
{
    if n <= 0 {
        None
    } else if m.spec_get(Slot::of_idx(n - 1)) == Some(a) {
        Some(n - 1)
    } else {
        winning_slot(m, a, n - 1)
    }
}

/// The ability's record after the copy stage: the record of the slot
/// in charge of it, or idle when no slot is bound to it.
pub open spec fn ability_data_spec(
    m: AbilitySlotMap,
    slot_st: Seq<ActionData>,
    a: Ability,
) -> ActionData {
    match winning_slot(m, a, SLOT_COUNT as int) {
        Some(i) => slot_st[i],
        None => ActionData { pressed: false, just_pressed: false, just_released: false },
    }
}

/// Stage two of the binding layer: copies each bound slot's full
/// record onto the ability its table entry names, a pure relabeling.
/// When several slots name the same ability, the last in slot order
/// wins; an ability no slot names reads idle.
pub fn copy_action_state(m: &AbilitySlotMap, slot_st: &Vec<ActionData>) -> (ab: Vec<ActionData>)
    requires
        m.wf(),
        slot_st@.len() == SLOT_COUNT,
    ensures
        ab@.len() == ABILITY_COUNT,
        ab@[Ability::Evade.idx()] == ability_data_spec(*m, slot_st@, Ability::Evade),
        ab@[Ability::Bomb.idx()] == ability_data_spec(*m, slot_st@, Ability::Bomb),
        ab@[Ability::ShootBullet.idx()] == ability_data_spec(*m, slot_st@, Ability::ShootBullet),
{
    let mut ab: Vec<ActionData> = Vec::new();
    ab.push(ActionData::idle());
    ab.push(ActionData::idle());
    ab.push(ActionData::idle());
    let mut i: usize = 0;
    while i < SLOT_COUNT
        invariant
            i <= SLOT_COUNT,
            m.wf(),
            slot_st@.len() == SLOT_COUNT,
            ab@.len() == ABILITY_COUNT,
            ab@[Ability::Evade.idx()] == winning_data(*m, slot_st@, Ability::Evade, i as int),
            ab@[Ability::Bomb.idx()] == winning_data(*m, slot_st@, Ability::Bomb, i as int),
            ab@[Ability::ShootBullet.idx()] == winning_data(
                *m,
                slot_st@,
                Ability::ShootBullet,
                i as int,
            ),
        decreases SLOT_COUNT - i,
    {
        let s = Slot::from_index(i);
        match m.get(s) {
            Some(a) => {
                ab.set(a.index(), slot_st[i]);
            },
            None => {},
        }
        i = i + 1;
    }
    ab
}

/// The record an ability reads once the first `n` slots have been
/// copied.
pub open spec fn winning_data(
    m: AbilitySlotMap,
    slot_st: Seq<ActionData>,
    a: Ability,
    n: int,
) -> ActionData {
    match winning_slot(m, a, n) {
        Some(i) => slot_st[i],
        None => ActionData { pressed: false, just_pressed: false, just_released: false },
    }
}

/// Whether the ability is just activated this frame: its slot's raw
/// inputs are down now and the slot was not pressed last frame.
pub open spec fn ability_edge_spec(
    m: AbilitySlotMap,
    pairs: Seq<(RawInput, Slot)>,
    down: Seq<RawInput>,
    prev: Seq<bool>,
    a: Ability,
) -> bool {
    ability_data_spec(m, slot_states_spec(pairs, down, prev), a).just_pressed
}

/// Edge triggering: holding the same raw inputs across two consecutive
/// frames produces the just-activated event at most once, on the first
/// of the two frames. On the first frame the event fires exactly when
/// the ability's slot is pressed and was not pressed last frame; on
/// the second frame, with the same inputs down and the bookkeeping
/// advanced, no event fires.
pub proof fn lemma_edge_triggering(
    m: AbilitySlotMap,
    pairs: Seq<(RawInput, Slot)>,
    down: Seq<RawInput>,
    prev: Seq<bool>,
    a: Ability,
)
    requires
        prev.len() == SLOT_COUNT,
    ensures
        ability_edge_spec(m, pairs, down, prev, a) == match winning_slot(
            m,
            a,
            SLOT_COUNT as int,
        ) {
            Some(i) => slot_pressed_spec(pairs, down, Slot::of_idx(i)) && !prev[i],
            None => false,
        },
        !ability_edge_spec(m, pairs, down, pressed_after(pairs, down), a),
{
    match winning_slot(m, a, SLOT_COUNT as int) {
        Some(i) => {
            lemma_winning_slot_in_range(m, a, SLOT_COUNT as int);
            assert(slot_states_spec(pairs, down, prev)[i] == slot_data_spec(
                pairs,
                down,
                prev,
                i,
            ));
            assert(slot_states_spec(pairs, down, pressed_after(pairs, down))[i]
                == slot_data_spec(pairs, down, pressed_after(pairs, down), i));
            assert(pressed_after(pairs, down)[i] == slot_pressed_spec(
                pairs,
                down,
                Slot::of_idx(i),
            ));
        },
        None => {},
    }
}

/// The slot in charge of an ability, when there is one, lies among the
/// first `n` slots.
pub proof fn lemma_winning_slot_in_range(m: AbilitySlotMap, a: Ability, n: int)
    ensures
        winning_slot(m, a, n) matches Some(i) ==> 0 <= i < n,
    decreases n,
{
    if n > 0 {
        lemma_winning_slot_in_range(m, a, n - 1);
    }
}

} // verus!
