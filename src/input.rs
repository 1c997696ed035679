use vstd::prelude::*;

verus! {

/// One of the sixteen keys `0` to `F` of the keypad.
#[derive(Debug, Clone, Copy, PartialEq, Eq, Structural)]
pub struct Key {
    x: u8,
}

impl View for Key {
    type V = int;

    closed spec fn view(&self) -> int {
        self.x as int
    }
}

impl Key {
    #[verifier::type_invariant]
    spec fn inv(self) -> bool {
        self.x < 16
    }

    /// The key numbered `x`, as a spec value (meaningful for `x < 16`).
    pub closed spec fn of(x: u8) -> Key {
        Key { x }
    }

    pub broadcast proof fn lemma_of_view(x: u8)
        ensures
            #[trigger] Key::of(x)@ == x as int,
    {
    }

    /// Builds a key; `x` must fit in 4 bits.
    pub fn new(x: u8) -> (r: Self)
        requires
            x < 16,
        ensures
            r@ == x as int,
            r == Key::of(x),
    {
        Key { x }
    }

    pub fn get(&self) -> (r: u8)
        ensures
            r == self@,
            r < 16,
    {
        proof {
            use_type_invariant(self);
        }
        self.x
    }

    pub fn idx(&self) -> (r: usize)
        ensures
            r == self@,
            r < 16,
    {
        proof {
            use_type_invariant(self);
        }
        self.x as usize
    }
}

/// The index of the lowest pressed key in `keys`, if any is pressed.
pub open spec fn first_pressed(keys: Seq<bool>) -> Option<int>
    decreases keys.len(),
{
    if keys.len() == 0 {
        None
    } else if keys[0] {
        Some(0)
    } else {
        match first_pressed(keys.drop_first()) {
            Some(k) => Some(k + 1),
            None => None,
        }
    }
}

/// Whether `k` is the lowest index of a pressed key in `keys`.
pub open spec fn is_first_pressed(keys: Seq<bool>, k: int) -> bool {
    &&& 0 <= k < keys.len()
    &&& keys[k]
    &&& forall|j: int| 0 <= j < k ==> !keys[j]
}

pub proof fn lemma_first_pressed(keys: Seq<bool>)
    ensures
        first_pressed(keys) matches Some(k) ==> is_first_pressed(keys, k as int),
        first_pressed(keys) is None <==> forall|j: int| 0 <= j < keys.len() ==> !keys[j],
    decreases keys.len(),
{
    if keys.len() > 0 && !keys[0] {
        lemma_first_pressed(keys.drop_first());
        assert forall|j: int| 0 < j < keys.len() implies keys[j] == keys.drop_first()[j - 1] by {}
    }
}

/// The press state of the sixteen keys.
#[derive(Debug)]
pub struct Keypad {
    keys: [bool; 16],
}

impl View for Keypad {
    type V = Seq<bool>;

    closed spec fn view(&self) -> Seq<bool> {
        self.keys@
    }
}

impl Keypad {
    pub broadcast proof fn lemma_len(k: &Keypad)
        ensures
            #[trigger] k@.len() == 16,
    {
    }

    /// A keypad with no key pressed.
    pub fn new() -> (r: Self)
        ensures
            r@ == Seq::new(16, |_i: int| false),
    {
        let r = Keypad { keys: [false; 16] };
        assert(r@ =~= Seq::new(16, |_i: int| false));
        r
    }

    pub fn set_pressed(&mut self, key: Key, pressed: bool)
        ensures
            final(self)@ == old(self)@.update(key@ as int, pressed),
    {
        self.keys[key.idx()] = pressed;
    }

    pub fn is_pressed(&self, key: Key) -> (r: bool)
        ensures
            r == self@[key@ as int],
    {
        self.keys[key.idx()]
    }

    /// The lowest-numbered key that is pressed, if any.
    pub fn get_key(&self) -> (r: Option<Key>)
        ensures
            r is Some <==> first_pressed(self@) is Some,
            r matches Some(k) ==> first_pressed(self@) == Some(k@),
    {
        proof {
            lemma_first_pressed(self@);
        }
        let mut i: usize = 0;
        while i < 16
            invariant
                i <= 16,
                self@.len() == 16,
                forall|j: int| 0 <= j < i ==> !self@[j],
            decreases 16 - i,
        {
            if self.keys[i] {
                proof {
                    lemma_first_pressed_unique(self@, i as int);
                }
                return Some(Key::new(i as u8));
            }
            i = i + 1;
        }
        None
    }
}

proof fn lemma_first_pressed_unique(keys: Seq<bool>, k: int)
    requires
        is_first_pressed(keys, k),
    ensures
        first_pressed(keys) == Some(k),
    decreases keys.len(),
{
    lemma_first_pressed(keys);
    if k > 0 {
        lemma_first_pressed_unique(keys.drop_first(), k - 1);
    }
}

impl Default for Keypad {
    fn default() -> (r: Self)
        ensures
            r@ == Seq::new(16, |_i: int| false),
    {
        Self::new()
    }
}

} // verus!
