//! The platform-independent event model: what a decoder hands back for one
//! resolved unit of terminal input, and the errors it can report instead.

use vstd::prelude::*;

verus! {

/// One of the eight keyboard qualifiers a [`KeyModifiers`] set can hold.
#[derive(Debug, Copy, Clone, PartialEq, Eq, Hash, Structural)]
pub enum Modifier {
    Ctrl,
    Alt,
    Shift,
    Meta,
    Super,
    Hyper,
    CapsLock,
    NumLock,
}

impl Modifier {
    /// The single bit that stands for this modifier in the flag byte.
    pub open spec fn mask(self) -> u8 {
        match self {
            Modifier::Ctrl => 0b0000_0001,
            Modifier::Alt => 0b0000_0010,
            Modifier::Shift => 0b0000_0100,
            Modifier::Meta => 0b0000_1000,
            Modifier::Super => 0b0001_0000,
            Modifier::Hyper => 0b0010_0000,
            Modifier::CapsLock => 0b0100_0000,
            Modifier::NumLock => 0b1000_0000,
        }
    }
}

/// A set of modifiers, packed into one byte.
///
/// Its view is the mathematical set of [`Modifier`]s it holds; two values
/// with the same view are the same value
/// ([`KeyModifiers::lemma_view_determines_value`]).
#[derive(Debug, Copy, Clone, PartialEq, Eq, Hash, Structural)]
pub struct KeyModifiers {
    flags: u8,
}

impl View for KeyModifiers {
    type V = Set<Modifier>;

    closed spec fn view(&self) -> Set<Modifier> {
        Set::new(|m: Modifier| self.flags & m.mask() != 0)
    }
}

/// The flag byte that has exactly the bits of the members of `s`.
spec fn flags_of(s: Set<Modifier>) -> u8 {
    (if s.contains(Modifier::Ctrl) { 0b0000_0001u8 } else { 0u8 })
    | (if s.contains(Modifier::Alt) { 0b0000_0010u8 } else { 0u8 })
    | (if s.contains(Modifier::Shift) { 0b0000_0100u8 } else { 0u8 })
    | (if s.contains(Modifier::Meta) { 0b0000_1000u8 } else { 0u8 })
    | (if s.contains(Modifier::Super) { 0b0001_0000u8 } else { 0u8 })
    | (if s.contains(Modifier::Hyper) { 0b0010_0000u8 } else { 0u8 })
    | (if s.contains(Modifier::CapsLock) { 0b0100_0000u8 } else { 0u8 })
    | (if s.contains(Modifier::NumLock) { 0b1000_0000u8 } else { 0u8 })
}

proof fn lemma_flags_bits(
    b0: u8, b1: u8, b2: u8, b3: u8, b4: u8, b5: u8, b6: u8, b7: u8,
)
    by (bit_vector)
    requires
        b0 == 0 || b0 == 0b0000_0001,
        b1 == 0 || b1 == 0b0000_0010,
        b2 == 0 || b2 == 0b0000_0100,
        b3 == 0 || b3 == 0b0000_1000,
        b4 == 0 || b4 == 0b0001_0000,
        b5 == 0 || b5 == 0b0010_0000,
        b6 == 0 || b6 == 0b0100_0000,
        b7 == 0 || b7 == 0b1000_0000,
    ensures
        ({
            let f = b0 | b1 | b2 | b3 | b4 | b5 | b6 | b7;
            &&& (f & 0b0000_0001 != 0 <==> b0 != 0)
            &&& (f & 0b0000_0010 != 0 <==> b1 != 0)
            &&& (f & 0b0000_0100 != 0 <==> b2 != 0)
            &&& (f & 0b0000_1000 != 0 <==> b3 != 0)
            &&& (f & 0b0001_0000 != 0 <==> b4 != 0)
            &&& (f & 0b0010_0000 != 0 <==> b5 != 0)
            &&& (f & 0b0100_0000 != 0 <==> b6 != 0)
            &&& (f & 0b1000_0000 != 0 <==> b7 != 0)
        }),
{
}

proof fn lemma_bits_determine_byte(a: u8, b: u8)
    by (bit_vector)
    requires
        a & 0b0000_0001 != 0 <==> b & 0b0000_0001 != 0,
        a & 0b0000_0010 != 0 <==> b & 0b0000_0010 != 0,
        a & 0b0000_0100 != 0 <==> b & 0b0000_0100 != 0,
        a & 0b0000_1000 != 0 <==> b & 0b0000_1000 != 0,
        a & 0b0001_0000 != 0 <==> b & 0b0001_0000 != 0,
        a & 0b0010_0000 != 0 <==> b & 0b0010_0000 != 0,
        a & 0b0100_0000 != 0 <==> b & 0b0100_0000 != 0,
        a & 0b1000_0000 != 0 <==> b & 0b1000_0000 != 0,
    ensures
        a == b,
{
}

proof fn lemma_bits_contained(o: u8, s: u8)
    by (bit_vector)
    requires
        o & 0b0000_0001 != 0 ==> s & 0b0000_0001 != 0,
        o & 0b0000_0010 != 0 ==> s & 0b0000_0010 != 0,
        o & 0b0000_0100 != 0 ==> s & 0b0000_0100 != 0,
        o & 0b0000_1000 != 0 ==> s & 0b0000_1000 != 0,
        o & 0b0001_0000 != 0 ==> s & 0b0001_0000 != 0,
        o & 0b0010_0000 != 0 ==> s & 0b0010_0000 != 0,
        o & 0b0100_0000 != 0 ==> s & 0b0100_0000 != 0,
        o & 0b1000_0000 != 0 ==> s & 0b1000_0000 != 0,
    ensures
        o & s == o,
{
}

proof fn lemma_single_bits_meet(a: u8, b: u8)
    by (bit_vector)
    requires
        a == 1 || a == 2 || a == 4 || a == 8 || a == 16 || a == 32 || a == 64 || a == 128,
        b == 1 || b == 2 || b == 4 || b == 8 || b == 16 || b == 32 || b == 64 || b == 128,
    ensures
        a & b != 0 <==> a == b,
        0u8 & b == 0,
{
}

/// The masks of the eight modifiers are the eight bits of a byte.
proof fn lemma_masks()
    ensures
        Modifier::Ctrl.mask() == 0b0000_0001,
        Modifier::Alt.mask() == 0b0000_0010,
        Modifier::Shift.mask() == 0b0000_0100,
        Modifier::Meta.mask() == 0b0000_1000,
        Modifier::Super.mask() == 0b0001_0000,
        Modifier::Hyper.mask() == 0b0010_0000,
        Modifier::CapsLock.mask() == 0b0100_0000,
        Modifier::NumLock.mask() == 0b1000_0000,
{
}

impl KeyModifiers {
    /// The value whose members are exactly those of `s`.
    pub closed spec fn of(s: Set<Modifier>) -> KeyModifiers {
        KeyModifiers { flags: flags_of(s) }
    }

    /// `of` builds the value that views as the given set.
    pub broadcast proof fn lemma_of_view(s: Set<Modifier>)
        ensures
            #[trigger] Self::of(s)@ == s,
    {
        let f = flags_of(s);
        lemma_flags_bits(
            if s.contains(Modifier::Ctrl) { 0b0000_0001u8 } else { 0u8 },
            if s.contains(Modifier::Alt) { 0b0000_0010u8 } else { 0u8 },
            if s.contains(Modifier::Shift) { 0b0000_0100u8 } else { 0u8 },
            if s.contains(Modifier::Meta) { 0b0000_1000u8 } else { 0u8 },
            if s.contains(Modifier::Super) { 0b0001_0000u8 } else { 0u8 },
            if s.contains(Modifier::Hyper) { 0b0010_0000u8 } else { 0u8 },
            if s.contains(Modifier::CapsLock) { 0b0100_0000u8 } else { 0u8 },
            if s.contains(Modifier::NumLock) { 0b1000_0000u8 } else { 0u8 },
        );
        assert forall|m: Modifier| Self::of(s)@.contains(m) == s.contains(m) by {
            assert(Self::of(s)@.contains(m) == (f & m.mask() != 0));
        }
        assert(Self::of(s)@ =~= s);
    }

    /// A modifier set is determined by its members: equal views, equal values.
    pub proof fn lemma_view_determines_value(a: KeyModifiers, b: KeyModifiers)
        requires
            a@ == b@,
        ensures
            a == b,
    {
        assert forall|m: Modifier| (a.flags & m.mask() != 0) == (b.flags & m.mask() != 0) by {
            assert(a@.contains(m) == (a.flags & m.mask() != 0));
            assert(b@.contains(m) == (b.flags & m.mask() != 0));
        }
        lemma_masks();
        lemma_bits_determine_byte(a.flags, b.flags);
    }

    proof fn lemma_single(r: KeyModifiers, m: Modifier)
        requires
            r.flags == m.mask(),
        ensures
            r@ == set![m],
            r == Self::of(set![m]),
    {
        assert forall|n: Modifier| r@.contains(n) == (n == m) by {
            lemma_single_bits_meet(m.mask(), n.mask());
        }
        assert(r@ =~= set![m]);
        Self::lemma_of_view(set![m]);
        Self::lemma_view_determines_value(r, Self::of(set![m]));
    }

    proof fn lemma_none(r: KeyModifiers)
        requires
            r.flags == 0,
        ensures
            r@ == Set::<Modifier>::empty(),
            r == Self::of(Set::empty()),
    {
        assert forall|n: Modifier| !r@.contains(n) by {
            lemma_single_bits_meet(n.mask(), n.mask());
        }
        assert(r@ =~= Set::<Modifier>::empty());
        Self::lemma_of_view(Set::empty());
        Self::lemma_view_determines_value(r, Self::of(Set::empty()));
    }

    /// The empty set.
    #[allow(non_snake_case)]
    pub fn NONE() -> (r: Self)
        ensures
            r == Self::of(Set::empty()),
            r@ == Set::<Modifier>::empty(),
    {
        let r = Self { flags: 0b0000_0000 };
        proof {
            Self::lemma_none(r);
        }
        r
    }

    /// The Control modifier key
    #[allow(non_snake_case)]
    pub fn CTRL() -> (r: Self)
        ensures
            r == Self::of(set![Modifier::Ctrl]),
            r@ == set![Modifier::Ctrl],
    {
        let r = Self { flags: 0b0000_0001 };
        proof {
            Self::lemma_single(r, Modifier::Ctrl);
        }
        r
    }

    /// The Alt modifier key
    #[allow(non_snake_case)]
    pub fn ALT() -> (r: Self)
        ensures
            r == Self::of(set![Modifier::Alt]),
            r@ == set![Modifier::Alt],
    {
        let r = Self { flags: 0b0000_0010 };
        proof {
            Self::lemma_single(r, Modifier::Alt);
        }
        r
    }

    /// The Shift modifier key
    #[allow(non_snake_case)]
    pub fn SHIFT() -> (r: Self)
        ensures
            r == Self::of(set![Modifier::Shift]),
            r@ == set![Modifier::Shift],
    {
        let r = Self { flags: 0b0000_0100 };
        proof {
            Self::lemma_single(r, Modifier::Shift);
        }
        r
    }

    /// The Meta modifier key
    #[allow(non_snake_case)]
    pub fn META() -> (r: Self)
        ensures
            r == Self::of(set![Modifier::Meta]),
            r@ == set![Modifier::Meta],
    {
        let r = Self { flags: 0b0000_1000 };
        proof {
            Self::lemma_single(r, Modifier::Meta);
        }
        r
    }

    /// The Super modifier key
    #[allow(non_snake_case)]
    pub fn SUPER() -> (r: Self)
        ensures
            r == Self::of(set![Modifier::Super]),
            r@ == set![Modifier::Super],
    {
        let r = Self { flags: 0b0001_0000 };
        proof {
            Self::lemma_single(r, Modifier::Super);
        }
        r
    }

    /// The Hyper modifier key
    #[allow(non_snake_case)]
    pub fn HYPER() -> (r: Self)
        ensures
            r == Self::of(set![Modifier::Hyper]),
            r@ == set![Modifier::Hyper],
    {
        let r = Self { flags: 0b0010_0000 };
        proof {
            Self::lemma_single(r, Modifier::Hyper);
        }
        r
    }

    /// The Caps Lock modifier key
    #[allow(non_snake_case)]
    pub fn CAPS_LOCK() -> (r: Self)
        ensures
            r == Self::of(set![Modifier::CapsLock]),
            r@ == set![Modifier::CapsLock],
    {
        let r = Self { flags: 0b0100_0000 };
        proof {
            Self::lemma_single(r, Modifier::CapsLock);
        }
        r
    }

    /// The Num Lock modifier key
    #[allow(non_snake_case)]
    pub fn NUM_LOCK() -> (r: Self)
        ensures
            r == Self::of(set![Modifier::NumLock]),
            r@ == set![Modifier::NumLock],
    {
        let r = Self { flags: 0b1000_0000 };
        proof {
            Self::lemma_single(r, Modifier::NumLock);
        }
        r
    }

    /// Whether every modifier of `other` is also held by `self`.
    pub fn is_modifier_pressed(&self, other: Self) -> (res: bool)
        ensures
            res == other@.subset_of(self@),
    {
        let o: u8 = other.flags;
        let s: u8 = self.flags;
        proof {
            if o & s == o {
                assert forall|m: Modifier| other@.contains(m) implies self@.contains(m) by {
                    let k = m.mask();
                    assert(o & k != 0 ==> s & k != 0) by (bit_vector)
                        requires
                            o & s == o,
                    ;
                }
            }
            if other@.subset_of(self@) {
                assert forall|m: Modifier| o & m.mask() != 0 implies s & m.mask() != 0 by {
                    assert(other@.contains(m));
                    assert(self@.contains(m));
                }
                lemma_masks();
                lemma_bits_contained(o, s);
            }
        }
        (o & s) == o
    }

    /// The union of two modifier sets.
    pub fn bitor(self, rhs: Self) -> (res: Self)
        ensures
            res@ == self@.union(rhs@),
            res == Self::of(self@.union(rhs@)),
    {
        let a: u8 = self.flags;
        let b: u8 = rhs.flags;
        let res = Self { flags: a | b };
        proof {
            assert forall|m: Modifier| res@.contains(m) == (self@.contains(m) || rhs@.contains(
                m,
            )) by {
                let k = m.mask();
                assert(((a | b) & k != 0) == (a & k != 0 || b & k != 0)) by (bit_vector);
            }
            assert(res@ =~= self@.union(rhs@));
            Self::lemma_of_view(self@.union(rhs@));
            Self::lemma_view_determines_value(res, Self::of(self@.union(rhs@)));
        }
        res
    }
}

/// `a | b` is the union of the two sets.
impl core::ops::BitOr for KeyModifiers {
    type Output = KeyModifiers;

    fn bitor(self, rhs: KeyModifiers) -> (res: KeyModifiers) {
        KeyModifiers::bitor(self, rhs)
    }
}

impl vstd::std_specs::ops::BitOrSpecImpl for KeyModifiers {
    open spec fn obeys_bitor_spec() -> bool {
        true
    }

    open spec fn bitor_req(self, rhs: KeyModifiers) -> bool {
        true
    }

    open spec fn bitor_spec(self, rhs: KeyModifiers) -> KeyModifiers {
        KeyModifiers::of(self@.union(rhs@))
    }
}

/// Determines which side the key is on the keyboard.
#[derive(Debug, Copy, Clone, PartialEq, Eq, Hash, Structural)]
pub enum KeySide {
    Left,
    Right,
}

/// Determines if the key is pressed down or released.
#[derive(Debug, Copy, Clone, PartialEq, Eq, Hash, Structural)]
pub enum KeyState {
    Pressed,
    Released,
    Repeated,
}

/// The key an event is about.
#[derive(Debug, Copy, Clone, PartialEq, Eq, Hash, Structural)]
pub enum Key {
    /// The Backspace key
    Backspace,
    /// The Up arrow key
    Up,
    /// The Down arrow key
    Down,
    /// The Left arrow key
    Left,
    /// The Right arrow key
    Right,
    /// The Home key
    Home,
    /// The End key
    End,
    /// The PageUp key
    PageUp,
    /// The PageDown key
    PageDown,
    /// The Tab key
    Tab,
    /// The delete key
    Delete,
    /// The insert key
    Insert,
    /// A function key, by its number
    F(u8),
    /// Any character inputted by the keyboard
    Char(char),
    /// The Escape key
    Escape,
    /// Control key
    Control(KeySide),
    /// Alt key
    Alt(KeySide),
    /// Shift key
    Shift(KeySide),
    /// A null byte sent to the terminal
    ///
    /// Can mean several different things
    Null,
}

/// Different events that can happen through the terminal
#[derive(Debug, Copy, Clone, PartialEq, Eq, Hash, Structural)]
pub enum Event {
    /// An event that happens upon a key being pressed
    KeyInput { key: Key, modifiers: KeyModifiers, state: KeyState },
    /// An event that happens upon focus to the terminal window being gained
    FocusGained,
    /// An event that happens upon focus to the terminal window being lost
    FocusLost,
}

impl Event {
    /// The event of `key` going down while exactly the modifiers in `held`
    /// are held: the only kind of event the decoders produce.
    pub open spec fn pressed(key: Key, held: Set<Modifier>) -> Event {
        Event::KeyInput { key, modifiers: KeyModifiers::of(held), state: KeyState::Pressed }
    }

    /// Whether this is a key event in the `Pressed` state.
    pub open spec fn is_press(self) -> bool {
        self matches Event::KeyInput { state, .. } && state == KeyState::Pressed
    }
}

/// Why a poll produced no event.
#[derive(Debug, Copy, Clone, PartialEq, Eq, Hash, Structural)]
pub enum InputError {
    /// No input arrived within the window; the caller may poll again.
    Timeout,
    /// The input ended in the middle of a sequence.
    UnexpectedEof,
    /// Malformed UTF-8 past the maximum width, or a record of a kind that
    /// maps to no event.
    InvalidData,
    /// A byte or record matched no production of the grammar.
    ParseFailure,
    /// The platform reported a failure; the native error code is passed on.
    Os(i32),
}

} // verus!
