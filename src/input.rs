use vstd::prelude::*;

verus! {

/// A gameplay intent that can be bound to keys.
#[derive(Clone, Copy, Debug, PartialEq, Eq, Hash, Structural)]
pub enum GameAction {
    MoveLeft,
    MoveRight,
    MoveUp,
    MoveDown,
    Run,
    Attack,
    Roll,
    SwitchLevel1,
    SwitchLevel2,
}

/// Number of distinct game actions.
pub const ACTION_COUNT: usize = 9;

impl GameAction {
    /// The slot of the action in a binding table.
    pub open spec fn index(self) -> int {
        match self {
            GameAction::MoveLeft => 0,
            GameAction::MoveRight => 1,
            GameAction::MoveUp => 2,
            GameAction::MoveDown => 3,
            GameAction::Run => 4,
            GameAction::Attack => 5,
            GameAction::Roll => 6,
            GameAction::SwitchLevel1 => 7,
            GameAction::SwitchLevel2 => 8,
        }
    }

    pub fn slot(self) -> (r: usize)
        ensures
            r == self.index(),
            r < ACTION_COUNT,
    {
        match self {
            GameAction::MoveLeft => 0,
            GameAction::MoveRight => 1,
            GameAction::MoveUp => 2,
            GameAction::MoveDown => 3,
            GameAction::Run => 4,
            GameAction::Attack => 5,
            GameAction::Roll => 6,
            GameAction::SwitchLevel1 => 7,
            GameAction::SwitchLevel2 => 8,
        }
    }
}

/// A physical keyboard key that an action can be bound to.
#[derive(Clone, Copy, Debug, PartialEq, Eq, Hash, Structural)]
pub enum Key {
    KeyA,
    KeyD,
    KeyE,
    KeyS,
    KeyW,
    ArrowLeft,
    ArrowRight,
    ArrowUp,
    ArrowDown,
    ShiftLeft,
    Space,
    Digit1,
    Digit2,
}

/// What the keyboard reports for one tick: the keys held down, and the keys
/// that went down during this tick.
pub struct KeyboardState {
    pub held: Vec<Key>,
    pub newly_pressed: Vec<Key>,
}

/// Whether `k` occurs in `v`.
fn contains_key(v: &Vec<Key>, k: Key) -> (r: bool)
    ensures
        r == v@.contains(k),
{
    let mut i: usize = 0;
    while i < v.len()
        invariant
            i <= v.len(),
            forall|j: int| 0 <= j < i ==> v@[j] != k,
        decreases v.len() - i,
    {
        if v[i] == k {
            return true;
        }
        i = i + 1;
    }
    false
}

impl KeyboardState {
    /// A keyboard with nothing held and nothing pressed.
    pub fn new() -> (r: KeyboardState)
        ensures
            r.held@.len() == 0,
            r.newly_pressed@.len() == 0,
    {
        KeyboardState { held: Vec::new(), newly_pressed: Vec::new() }
    }

    /// Records that `key` went down this tick: it is held and newly pressed.
    pub fn press(&mut self, key: Key)
        ensures
            final(self).held@ == old(self).held@.push(key),
            final(self).newly_pressed@ == old(self).newly_pressed@.push(key),
    {
        self.held.push(key);
        self.newly_pressed.push(key);
    }

    /// Records that `key` is held down since an earlier tick.
    pub fn hold(&mut self, key: Key)
        ensures
            final(self).held@ == old(self).held@.push(key),
            final(self).newly_pressed@ == old(self).newly_pressed@,
    {
        self.held.push(key);
    }

    /// Whether `key` is held down.
    pub fn pressed(&self, key: Key) -> (r: bool)
        ensures
            r == self.held@.contains(key),
    {
        contains_key(&self.held, key)
    }

    /// Whether `key` went down during this tick.
    pub fn just_pressed(&self, key: Key) -> (r: bool)
        ensures
            r == self.newly_pressed@.contains(key),
    {
        contains_key(&self.newly_pressed, key)
    }
}

/// Whether some key of `keys` occurs in `down`.
pub open spec fn any_key_in(keys: Seq<Key>, down: Seq<Key>) -> bool {
    exists|i: int| 0 <= i < keys.len() && down.contains(#[trigger] keys[i])
}

/// The keys bound to each action. An action without keys is never pressed.
pub struct InputBindings {
    bindings: Vec<Vec<Key>>,
}

impl InputBindings {
    pub closed spec fn wf(self) -> bool {
        self.bindings@.len() == ACTION_COUNT
    }

    /// The keys bound to `action`, in order.
    pub closed spec fn keys_of(self, action: GameAction) -> Seq<Key> {
        self.bindings@[action.index()]@
    }

    /// Whether `action` is held on `keyboard`: some key bound to it is held.
    pub open spec fn action_held(self, action: GameAction, keyboard: KeyboardState) -> bool {
        any_key_in(self.keys_of(action), keyboard.held@)
    }

    /// Whether `action` was triggered on `keyboard` this tick: some key bound
    /// to it went down this tick.
    pub open spec fn action_triggered(self, action: GameAction, keyboard: KeyboardState) -> bool {
        any_key_in(self.keys_of(action), keyboard.newly_pressed@)
    }

    /// A table with no action bound.
    pub fn new() -> (r: InputBindings)
        ensures
            r.wf(),
            forall|a: GameAction| (#[trigger] r.keys_of(a)).len() == 0,
    {
        let mut bindings: Vec<Vec<Key>> = Vec::new();
        let mut i: usize = 0;
        while i < ACTION_COUNT
            invariant
                i <= ACTION_COUNT,
                bindings@.len() == i,
                forall|j: int| 0 <= j < i ==> (#[trigger] bindings@[j])@.len() == 0,
            decreases ACTION_COUNT - i,
        {
            bindings.push(Vec::new());
            i = i + 1;
        }
        InputBindings { bindings }
    }

    /// Binds `action` to `keys`, replacing what it was bound to.
    pub fn insert(&mut self, action: GameAction, keys: Vec<Key>)
        requires
            old(self).wf(),
        ensures
            final(self).wf(),
            final(self).keys_of(action) == keys@,
            forall|a: GameAction| a != action ==> #[trigger] final(self).keys_of(a) == old(
                self,
            ).keys_of(a),
    {
        let slot = action.slot();
        self.bindings.set(slot, keys);
        assert forall|a: GameAction| a != action implies #[trigger] self.keys_of(a) == old(
            self,
        ).keys_of(a) by {
            assert(a.index() != action.index());
        }
    }

    /// The bindings the game starts with.
    pub fn default() -> (r: InputBindings)
        ensures
            r.wf(),
            r.keys_of(GameAction::MoveLeft) == seq![Key::KeyA, Key::ArrowLeft],
            r.keys_of(GameAction::MoveRight) == seq![Key::KeyD, Key::ArrowRight],
            r.keys_of(GameAction::MoveUp) == seq![Key::KeyW, Key::ArrowUp],
            r.keys_of(GameAction::MoveDown) == seq![Key::KeyS, Key::ArrowDown],
            r.keys_of(GameAction::Run) == seq![Key::ShiftLeft],
            r.keys_of(GameAction::Attack) == seq![Key::KeyE],
            r.keys_of(GameAction::Roll) == seq![Key::Space],
            r.keys_of(GameAction::SwitchLevel1) == seq![Key::Digit1],
            r.keys_of(GameAction::SwitchLevel2) == seq![Key::Digit2],
    {
        let mut b = InputBindings::new();
        b.insert(GameAction::MoveLeft, vec![Key::KeyA, Key::ArrowLeft]);
        b.insert(GameAction::MoveRight, vec![Key::KeyD, Key::ArrowRight]);
        b.insert(GameAction::MoveUp, vec![Key::KeyW, Key::ArrowUp]);
        b.insert(GameAction::MoveDown, vec![Key::KeyS, Key::ArrowDown]);
        b.insert(GameAction::Run, vec![Key::ShiftLeft]);
        b.insert(GameAction::Attack, vec![Key::KeyE]);
        b.insert(GameAction::Roll, vec![Key::Space]);
        b.insert(GameAction::SwitchLevel1, vec![Key::Digit1]);
        b.insert(GameAction::SwitchLevel2, vec![Key::Digit2]);
        b
    }

    /// Whether some key bound to `action` is held on `keyboard`.
    pub fn is_pressed(&self, action: GameAction, keyboard: &KeyboardState) -> (r: bool)
        requires
            self.wf(),
        ensures
            r == self.action_held(action, *keyboard),
    {
        let keys = &self.bindings[action.slot()];
        let mut i: usize = 0;
        while i < keys.len()
            invariant
                i <= keys.len(),
                keys@ == self.keys_of(action),
                forall|j: int| 0 <= j < i ==> !keyboard.held@.contains(#[trigger] keys@[j]),
            decreases keys.len() - i,
        {
            if keyboard.pressed(keys[i]) {
                return true;
            }
            i = i + 1;
        }
        false
    }

    /// Whether some key bound to `action` went down on `keyboard` this tick.
    pub fn just_pressed(&self, action: GameAction, keyboard: &KeyboardState) -> (r: bool)
        requires
            self.wf(),
        ensures
            r == self.action_triggered(action, *keyboard),
    {
        let keys = &self.bindings[action.slot()];
        let mut i: usize = 0;
        while i < keys.len()
            invariant
                i <= keys.len(),
                keys@ == self.keys_of(action),
                forall|j: int|
                    0 <= j < i ==> !keyboard.newly_pressed@.contains(#[trigger] keys@[j]),
            decreases keys.len() - i,
        {
            if keyboard.just_pressed(keys[i]) {
                return true;
            }
            i = i + 1;
        }
        false
    }
}

/// An action bound to no key is neither held nor triggered, whatever the
/// keyboard reports.
pub proof fn lemma_unbound_never_pressed(
    bindings: InputBindings,
    action: GameAction,
    keyboard: KeyboardState,
)
    requires
        bindings.keys_of(action).len() == 0,
    ensures
        !bindings.action_held(action, keyboard),
        !bindings.action_triggered(action, keyboard),
{
}

} // verus!
