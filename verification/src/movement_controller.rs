use vstd::prelude::*;

verus! {

/// The keyboard keys the game tells apart; every other key is `Other`.
#[derive(Clone, Copy, PartialEq, Eq, Structural, Hash, Debug)]
pub enum InputKey {
    Left,
    Right,
    Up,
    Down,
    Q,
    W,
    E,
    R,
    A,
    S,
    D,
    F,
    Space,
    Other,
}

/// What a key does in the game.
#[derive(Clone, Copy, PartialEq, Eq, Structural, Hash, Debug)]
pub enum KeyAction {
    NoAction,
    Up,
    Down,
    Left,
    Right,
    Fire,
}

/// Arrow keys and W/A/S/D move, space fires, every other key does nothing.
pub open spec fn action_for(key: InputKey) -> KeyAction {
    match key {
        InputKey::Up | InputKey::W => KeyAction::Up,
        InputKey::Down | InputKey::S => KeyAction::Down,
        InputKey::Left | InputKey::A => KeyAction::Left,
        InputKey::Right | InputKey::D => KeyAction::Right,
        InputKey::Space => KeyAction::Fire,
        _ => KeyAction::NoAction,
    }
}

impl From<InputKey> for KeyAction {
    fn from(key: InputKey) -> (action: KeyAction) {
        match key {
            InputKey::Up | InputKey::W => KeyAction::Up,
            InputKey::Down | InputKey::S => KeyAction::Down,
            InputKey::Left | InputKey::A => KeyAction::Left,
            InputKey::Right | InputKey::D => KeyAction::Right,
            InputKey::Space => KeyAction::Fire,
            _ => KeyAction::NoAction,
        }
    }
}

impl vstd::std_specs::convert::FromSpecImpl<InputKey> for KeyAction {
    open spec fn obeys_from_spec() -> bool {
        true
    }

    open spec fn from_spec(key: InputKey) -> KeyAction {
        action_for(key)
    }
}

/// Whether each action's key is held, for the actions a key has reported on.
pub struct KeyStates {
    none: Option<bool>,
    up: Option<bool>,
    down: Option<bool>,
    left: Option<bool>,
    right: Option<bool>,
    fire: Option<bool>,
}

impl KeyStates {
    spec fn slot(&self, action: KeyAction) -> Option<bool> {
        match action {
            KeyAction::NoAction => self.none,
            KeyAction::Up => self.up,
            KeyAction::Down => self.down,
            KeyAction::Left => self.left,
            KeyAction::Right => self.right,
            KeyAction::Fire => self.fire,
        }
    }
}

impl View for KeyStates {
    type V = Map<KeyAction, bool>;

    closed spec fn view(&self) -> Map<KeyAction, bool> {
        Map::new(|a: KeyAction| self.slot(a) is Some, |a: KeyAction| self.slot(a).unwrap())
    }
}

impl KeyStates {
    /// No action has been reported on yet.
    pub fn new() -> (states: KeyStates)
        ensures
            states@ == Map::<KeyAction, bool>::empty(),
    {
        let states = KeyStates { none: None, up: None, down: None, left: None, right: None, fire: None };
        assert(states@ =~= Map::<KeyAction, bool>::empty());
        states
    }

    /// Whether `action`'s key is held, if a key has reported on it.
    pub fn get(&self, action: KeyAction) -> (held: Option<bool>)
        ensures
            held == (if self@.contains_key(action) { Some(self@[action]) } else { None::<bool> }),
    {
        match action {
            KeyAction::NoAction => self.none,
            KeyAction::Up => self.up,
            KeyAction::Down => self.down,
            KeyAction::Left => self.left,
            KeyAction::Right => self.right,
            KeyAction::Fire => self.fire,
        }
    }

    /// Records whether `action`'s key is held.
    pub fn insert(&mut self, action: KeyAction, held: bool)
        ensures
            final(self)@ == old(self)@.insert(action, held),
    {
        match action {
            KeyAction::NoAction => self.none = Some(held),
            KeyAction::Up => self.up = Some(held),
            KeyAction::Down => self.down = Some(held),
            KeyAction::Left => self.left = Some(held),
            KeyAction::Right => self.right = Some(held),
            KeyAction::Fire => self.fire = Some(held),
        }
        assert(self@ =~= old(self)@.insert(action, held));
    }
}

/// The key states after the keys in `keys` reported, in order, whether they
/// are held (`pressed`): each report overwrites the state of its key's action.
pub open spec fn apply_presses(
    states: Map<KeyAction, bool>,
    keys: Seq<InputKey>,
    pressed: Seq<bool>,
) -> Map<KeyAction, bool>
    decreases keys.len(),
{
    if keys.len() == 0 || pressed.len() == 0 {
        states
    } else {
        apply_presses(states, keys.drop_last(), pressed.drop_last()).insert(
            action_for(keys.last()),
            pressed.last(),
        )
    }
}

/// The keys the controller polls, in the order in which it polls them.
pub open spec fn listened_keys() -> Seq<InputKey> {
    seq![
        InputKey::Left,
        InputKey::Right,
        InputKey::Up,
        InputKey::Down,
        InputKey::Q,
        InputKey::W,
        InputKey::E,
        InputKey::R,
        InputKey::A,
        InputKey::S,
        InputKey::D,
        InputKey::F,
        InputKey::Space,
    ]
}

/// When several polled keys share an action, the last of them decides it:
/// the action is held exactly when that key is; an action that no polled key
/// has keeps its state.
pub proof fn lemma_last_polled_key_decides(
    states: Map<KeyAction, bool>,
    keys: Seq<InputKey>,
    pressed: Seq<bool>,
    action: KeyAction,
)
    requires
        keys.len() == pressed.len(),
    ensures
        forall|i: int|
            0 <= i < keys.len() && action_for(#[trigger] keys[i]) == action && (forall|j: int|
                i < j < keys.len() ==> action_for(keys[j]) != action) ==> apply_presses(
                states,
                keys,
                pressed,
            ).contains_key(action) && apply_presses(states, keys, pressed)[action] == pressed[i],
        (forall|i: int| 0 <= i < keys.len() ==> action_for(#[trigger] keys[i]) != action) ==> apply_presses(
            states,
            keys,
            pressed,
        ).contains_key(action) == states.contains_key(action) && (states.contains_key(action)
            ==> apply_presses(states, keys, pressed)[action] == states[action]),
    decreases keys.len(),
{
    if keys.len() > 0 {
        let ks = keys.drop_last();
        let ps = pressed.drop_last();
        lemma_last_polled_key_decides(states, ks, ps, action);
        let n = keys.len() - 1;
        assert forall|i: int|
            0 <= i < keys.len() && action_for(#[trigger] keys[i]) == action && (forall|j: int|
                i < j < keys.len() ==> action_for(keys[j]) != action) implies apply_presses(
            states,
            keys,
            pressed,
        ).contains_key(action) && apply_presses(states, keys, pressed)[action] == pressed[i] by {
            if i < n {
                assert(action_for(keys[n]) != action);
                assert(ks[i] == keys[i]);
                assert forall|j: int| i < j < ks.len() implies action_for(ks[j]) != action by {
                    assert(ks[j] == keys[j]);
                }
            }
        }
        if forall|i: int| 0 <= i < keys.len() ==> action_for(#[trigger] keys[i]) != action {
            assert(action_for(keys[n]) != action);
            assert forall|i: int| 0 <= i < ks.len() implies action_for(#[trigger] ks[i]) != action by {
                assert(ks[i] == keys[i]);
            }
        }
    }
}

/// Tracks which game actions the player's keys ask for.
pub struct MovementController {
    pub keys_to_listen: Vec<InputKey>,
    pub key_states: KeyStates,
}

impl MovementController {
    pub open spec fn keys(&self) -> Seq<InputKey> {
        self.keys_to_listen@
    }

    /// A controller that polls the arrow keys, Q, W, E, R, A, S, D, F and
    /// space, with no key reported yet.
    pub fn init() -> (controller: MovementController)
        ensures
            controller.keys() == listened_keys(),
            controller.key_states@ == Map::<KeyAction, bool>::empty(),
    {
        let keys_to_listen = vec![
            InputKey::Left,
            InputKey::Right,
            InputKey::Up,
            InputKey::Down,
            InputKey::Q,
            InputKey::W,
            InputKey::E,
            InputKey::R,
            InputKey::A,
            InputKey::S,
            InputKey::D,
            InputKey::F,
            InputKey::Space,
        ];
        MovementController { keys_to_listen, key_states: KeyStates::new() }
    }

    /// The keys the controller polls, in polling order.
    pub fn keys_to_listen(&self) -> (keys: &Vec<InputKey>)
        ensures
            keys@ == self.keys(),
    {
        &self.keys_to_listen
    }

    /// Takes in one poll of the keyboard that is not a mouse event:
    /// `pressed[i]` tells whether the `i`-th polled key is held, and each key
    /// in turn records it as the state of its action.
    pub fn input(&mut self, pressed: &Vec<bool>)
        requires
            pressed.len() == old(self).keys().len(),
        ensures
            final(self).keys() == old(self).keys(),
            final(self).key_states@ == apply_presses(old(self).key_states@, old(self).keys(), pressed@),
    {
        let mut i: usize = 0;
        while i < self.keys_to_listen.len()
            invariant
                i <= self.keys_to_listen.len(),
                self.keys_to_listen@ == old(self).keys_to_listen@,
                pressed.len() == self.keys_to_listen.len(),
                self.key_states@ == apply_presses(
                    old(self).key_states@,
                    self.keys_to_listen@.take(i as int),
                    pressed@.take(i as int),
                ),
            decreases self.keys_to_listen.len() - i,
        {
            let key = self.keys_to_listen[i];
            let action = KeyAction::from(key);
            self.key_states.insert(action, pressed[i]);
            assert(self.keys_to_listen@.take(i as int + 1).drop_last() == self.keys_to_listen@.take(i as int));
            assert(pressed@.take(i as int + 1).drop_last() == pressed@.take(i as int));
            i = i + 1;
        }
        assert(self.keys_to_listen@.take(i as int) == self.keys_to_listen@);
        assert(pressed@.take(i as int) == pressed@);
    }
}

} // verus!
