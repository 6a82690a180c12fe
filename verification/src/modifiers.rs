//! Held keyboard modifiers, one bit per physical key.

use vstd::prelude::*;
use std::ops::{BitAnd, BitAndAssign, BitOr, BitOrAssign, BitXor, BitXorAssign};

verus! {

/// Mask of the left alt key.
pub open spec fn left_alt_bit() -> u8 { 0x08 }
/// Mask of the right alt key.
pub open spec fn right_alt_bit() -> u8 { 0x04 }
/// Mask of the left ctrl key.
pub open spec fn left_ctrl_bit() -> u8 { 0x20 }
/// Mask of the right ctrl key.
pub open spec fn right_ctrl_bit() -> u8 { 0x10 }
/// Mask of the left shift key.
pub open spec fn left_shift_bit() -> u8 { 0x80 }
/// Mask of the right shift key.
pub open spec fn right_shift_bit() -> u8 { 0x40 }
/// Mask of both shift keys.
pub open spec fn shift_bits() -> u8 { 0xc0 }
/// Mask of both ctrl keys.
pub open spec fn ctrl_bits() -> u8 { 0x30 }
/// Mask of both alt keys.
pub open spec fn alt_bits() -> u8 { 0x0c }

/// The set of held modifier keys.
///
/// Each of the six modifier keys (left/right shift, ctrl and alt) owns one bit.
#[derive(Debug, Clone, Copy, PartialEq, Eq, Structural)]
pub struct Modifiers(u8);

impl Modifiers {
    /// The raw bits of this set.
    pub closed spec fn spec_bits(self) -> u8 {
        self.0
    }

    /// The set whose raw bits are `bits`.
    pub closed spec fn spec_from_bits(bits: u8) -> Modifiers {
        Modifiers(bits)
    }

    /// `spec_from_bits` keeps the bits it is given.
    pub broadcast proof fn lemma_from_bits(bits: u8)
        ensures
            #[trigger] Self::spec_from_bits(bits).spec_bits() == bits,
    {
    }

    /// A set is rebuilt from its bits.
    pub broadcast proof fn lemma_bits_round_trip(m: Modifiers)
        ensures
            #[trigger] Self::spec_from_bits(m.spec_bits()) == m,
    {
    }

    /// Two sets with the same bits are equal.
    pub proof fn lemma_bits_ext(a: Modifiers, b: Modifiers)
        requires
            a.spec_bits() == b.spec_bits(),
        ensures
            a == b,
    {
    }

    /// Whether every bit of `mask` is held.
    pub open spec fn holds(self, mask: u8) -> bool {
        self.spec_bits() & mask == mask
    }

    /// Either shift key is held.
    pub open spec fn spec_shift(self) -> bool {
        self.holds(left_shift_bit()) || self.holds(right_shift_bit())
    }

    /// Either ctrl key is held.
    pub open spec fn spec_ctrl(self) -> bool {
        self.holds(left_ctrl_bit()) || self.holds(right_ctrl_bit())
    }

    /// Either alt key is held.
    pub open spec fn spec_alt(self) -> bool {
        self.holds(left_alt_bit()) || self.holds(right_alt_bit())
    }

    /// Builds a set from raw bits.
    pub fn from_bits(bits: u8) -> (m: Modifiers)
        ensures
            m.spec_bits() == bits,
    {
        Modifiers(bits)
    }

    /// The raw bits of this set.
    pub fn bits(self) -> (b: u8)
        ensures
            b == self.spec_bits(),
    {
        self.0
    }

    /// The empty set.
    pub fn none() -> (m: Modifiers)
        ensures
            m.spec_bits() == 0,
    {
        Modifiers(0)
    }

    /// Only the left alt key.
    pub fn left_alt() -> (m: Modifiers)
        ensures
            m.spec_bits() == left_alt_bit(),
    {
        Modifiers(0b00001000)
    }

    /// Only the left ctrl key.
    pub fn left_ctrl() -> (m: Modifiers)
        ensures
            m.spec_bits() == left_ctrl_bit(),
    {
        Modifiers(0b00100000)
    }

    /// Only the left shift key.
    pub fn left_shift() -> (m: Modifiers)
        ensures
            m.spec_bits() == left_shift_bit(),
    {
        Modifiers(0b10000000)
    }

    /// Only the right alt key.
    pub fn right_alt() -> (m: Modifiers)
        ensures
            m.spec_bits() == right_alt_bit(),
    {
        Modifiers(0b00000100)
    }

    /// Only the right ctrl key.
    pub fn right_ctrl() -> (m: Modifiers)
        ensures
            m.spec_bits() == right_ctrl_bit(),
    {
        Modifiers(0b00010000)
    }

    /// Only the right shift key.
    pub fn right_shift() -> (m: Modifiers)
        ensures
            m.spec_bits() == right_shift_bit(),
    {
        Modifiers(0b01000000)
    }

    /// Whether either shift key is held.
    pub fn shift(self) -> (r: bool)
        ensures
            r == self.spec_shift(),
    {
        self & Self::left_shift() == Self::left_shift() || self & Self::right_shift()
            == Self::right_shift()
    }

    /// Whether either ctrl key is held.
    pub fn ctrl(self) -> (r: bool)
        ensures
            r == self.spec_ctrl(),
    {
        self & Self::left_ctrl() == Self::left_ctrl() || self & Self::right_ctrl()
            == Self::right_ctrl()
    }

    /// Whether either alt key is held.
    pub fn alt(self) -> (r: bool)
        ensures
            r == self.spec_alt(),
    {
        self & Self::left_alt() == Self::left_alt() || self & Self::right_alt()
            == Self::right_alt()
    }
}

impl BitAnd for Modifiers {
    type Output = Modifiers;

    fn bitand(self, rhs: Modifiers) -> (r: Modifiers) {
        Modifiers(self.0 & rhs.0)
    }
}

impl vstd::std_specs::ops::BitAndSpecImpl for Modifiers {
    open spec fn obeys_bitand_spec() -> bool {
        true
    }

    open spec fn bitand_req(self, rhs: Modifiers) -> bool {
        true
    }

    open spec fn bitand_spec(self, rhs: Modifiers) -> Modifiers {
        Modifiers::spec_from_bits(self.spec_bits() & rhs.spec_bits())
    }
}

impl BitOr for Modifiers {
    type Output = Modifiers;

    fn bitor(self, rhs: Modifiers) -> (r: Modifiers) {
        Modifiers(self.0 | rhs.0)
    }
}

impl vstd::std_specs::ops::BitOrSpecImpl for Modifiers {
    open spec fn obeys_bitor_spec() -> bool {
        true
    }

    open spec fn bitor_req(self, rhs: Modifiers) -> bool {
        true
    }

    open spec fn bitor_spec(self, rhs: Modifiers) -> Modifiers {
        Modifiers::spec_from_bits(self.spec_bits() | rhs.spec_bits())
    }
}

impl BitXor for Modifiers {
    type Output = Modifiers;

    fn bitxor(self, rhs: Modifiers) -> (r: Modifiers) {
        Modifiers(self.0 ^ rhs.0)
    }
}

impl vstd::std_specs::ops::BitXorSpecImpl for Modifiers {
    open spec fn obeys_bitxor_spec() -> bool {
        true
    }

    open spec fn bitxor_req(self, rhs: Modifiers) -> bool {
        true
    }

    open spec fn bitxor_spec(self, rhs: Modifiers) -> Modifiers {
        Modifiers::spec_from_bits(self.spec_bits() ^ rhs.spec_bits())
    }
}

impl BitAndAssign for Modifiers {
    fn bitand_assign(&mut self, rhs: Modifiers)
        ensures
            final(self).spec_bits() == old(self).spec_bits() & rhs.spec_bits(),
    {
        *self = Modifiers(self.0 & rhs.0);
    }
}

impl BitOrAssign for Modifiers {
    fn bitor_assign(&mut self, rhs: Modifiers)
        ensures
            final(self).spec_bits() == old(self).spec_bits() | rhs.spec_bits(),
    {
        *self = Modifiers(self.0 | rhs.0);
    }
}

impl BitXorAssign for Modifiers {
    fn bitxor_assign(&mut self, rhs: Modifiers)
        ensures
            final(self).spec_bits() == old(self).spec_bits() ^ rhs.spec_bits(),
    {
        *self = Modifiers(self.0 ^ rhs.0);
    }
}

} // verus!

verus! {

/// Each key's bit of the union of six one-key masks is set exactly when its mask is.
proof fn lemma_key_bits(b1: u8, b2: u8, b3: u8, b4: u8, b5: u8, b6: u8, b: u8)
    by (bit_vector)
    requires
        b == 0u8 | b1 | b2 | b3 | b4 | b5 | b6,
        b1 == 0 || b1 == 0x80,
        b2 == 0 || b2 == 0x40,
        b3 == 0 || b3 == 0x20,
        b4 == 0 || b4 == 0x10,
        b5 == 0 || b5 == 0x08,
        b6 == 0 || b6 == 0x04,
    ensures
        b & 0x80 == 0x80 <==> b1 == 0x80,
        b & 0x40 == 0x40 <==> b2 == 0x40,
        b & 0x20 == 0x20 <==> b3 == 0x20,
        b & 0x10 == 0x10 <==> b4 == 0x10,
        b & 0x08 == 0x08 <==> b5 == 0x08,
        b & 0x04 == 0x04 <==> b6 == 0x04,
        b & 0x03 == 0,
{
}

impl Modifiers {
    /// The set of modifiers held, given which of the six keys are pressed.
    pub fn from_keys(
        l_shift: bool,
        r_shift: bool,
        l_ctrl: bool,
        r_ctrl: bool,
        l_alt: bool,
        r_alt: bool,
    ) -> (m: Modifiers)
        ensures
            m.holds(left_shift_bit()) == l_shift,
            m.holds(right_shift_bit()) == r_shift,
            m.holds(left_ctrl_bit()) == l_ctrl,
            m.holds(right_ctrl_bit()) == r_ctrl,
            m.holds(left_alt_bit()) == l_alt,
            m.holds(right_alt_bit()) == r_alt,
            m.spec_bits() & 0x03 == 0,
    {
        let b1: u8 = if l_shift { 0x80 } else { 0 };
        let b2: u8 = if r_shift { 0x40 } else { 0 };
        let b3: u8 = if l_ctrl { 0x20 } else { 0 };
        let b4: u8 = if r_ctrl { 0x10 } else { 0 };
        let b5: u8 = if l_alt { 0x08 } else { 0 };
        let b6: u8 = if r_alt { 0x04 } else { 0 };
        let b: u8 = 0u8 | b1 | b2 | b3 | b4 | b5 | b6;
        let m = Modifiers(b);
        proof {
            lemma_key_bits(b1, b2, b3, b4, b5, b6, b);
        }
        m
    }
}

} // verus!

verus! {

impl Modifiers {
    /// The bits after the keys of `mask` are pressed.
    pub open spec fn spec_pressed(self, mask: Modifiers) -> u8 {
        self.spec_bits() | mask.spec_bits()
    }

    /// The bits after the keys of `mask` are released.
    pub open spec fn spec_released(self, mask: Modifiers) -> u8 {
        self.spec_bits() & (0xffu8 ^ mask.spec_bits())
    }

    /// This set with the keys of `mask` pressed as well.
    pub fn with_pressed(self, mask: Modifiers) -> (m: Modifiers)
        ensures
            m.spec_bits() == self.spec_pressed(mask),
    {
        self | mask
    }

    /// This set with the keys of `mask` released.
    pub fn with_released(self, mask: Modifiers) -> (m: Modifiers)
        ensures
            m.spec_bits() == self.spec_released(mask),
    {
        self & (Modifiers(255) ^ mask)
    }

    /// Chooses a step by the held modifiers: the medium step while ctrl is held, else the large
    /// step while shift is held, else the small step.
    pub fn choose_step<T: Copy>(self, small: T, medium: T, large: T) -> (r: T)
        ensures
            r == (if self.spec_ctrl() {
                medium
            } else if self.spec_shift() {
                large
            } else {
                small
            }),
    {
        if self.ctrl() {
            medium
        } else if self.shift() {
            large
        } else {
            small
        }
    }
}

/// After a key is pressed it is held.
pub proof fn lemma_pressed_holds(m: u8, k: u8)
    by (bit_vector)
    ensures
        (m | k) & k == k,
{
}

/// Pressing leaves every key that was held, held.
pub proof fn lemma_pressed_keeps(m: u8, k: u8, j: u8)
    by (bit_vector)
    requires
        m & j == j,
    ensures
        (m | k) & j == j,
{
}

/// After a key is released it is no longer held.
pub proof fn lemma_released_clears(m: u8, k: u8)
    by (bit_vector)
    ensures
        (m & (0xffu8 ^ k)) & k == 0,
{
}

/// Releasing keys leaves every other key as it was.
pub proof fn lemma_released_keeps_others(m: u8, k: u8, j: u8)
    by (bit_vector)
    requires
        j & k == 0,
    ensures
        ((m & (0xffu8 ^ k)) & j == j) == (m & j == j),
{
}

/// Pressing keys that were not held and releasing them again gives back the set held before.
pub proof fn lemma_press_release_round_trip(m: u8, k: u8)
    by (bit_vector)
    requires
        m & k == 0,
    ensures
        (m | k) & (0xffu8 ^ k) == m,
{
}

/// Pressing one shift key makes `shift` hold; releasing both shift keys makes it not hold, and
/// leaves `ctrl` and `alt` as they were. The same holds of ctrl and of alt.
pub proof fn lemma_modifier_keys(m: Modifiers, k: Modifiers)
    ensures
        k.spec_bits() == left_shift_bit() || k.spec_bits() == right_shift_bit() ==> Modifiers::spec_from_bits(m.spec_pressed(k)).spec_shift(),
        k.spec_bits() == left_ctrl_bit() || k.spec_bits() == right_ctrl_bit() ==> Modifiers::spec_from_bits(m.spec_pressed(k)).spec_ctrl(),
        k.spec_bits() == left_alt_bit() || k.spec_bits() == right_alt_bit() ==> Modifiers::spec_from_bits(m.spec_pressed(k)).spec_alt(),
        k.spec_bits() == shift_bits() ==> {
            let r = Modifiers::spec_from_bits(m.spec_released(k));
            &&& !r.spec_shift()
            &&& r.spec_ctrl() == m.spec_ctrl()
            &&& r.spec_alt() == m.spec_alt()
        },
        k.spec_bits() == ctrl_bits() ==> {
            let r = Modifiers::spec_from_bits(m.spec_released(k));
            &&& !r.spec_ctrl()
            &&& r.spec_shift() == m.spec_shift()
            &&& r.spec_alt() == m.spec_alt()
        },
        k.spec_bits() == alt_bits() ==> {
            let r = Modifiers::spec_from_bits(m.spec_released(k));
            &&& !r.spec_alt()
            &&& r.spec_shift() == m.spec_shift()
            &&& r.spec_ctrl() == m.spec_ctrl()
        },
{
    broadcast use Modifiers::lemma_from_bits;

    let b = m.spec_bits();
    let kb = k.spec_bits();
    lemma_modifier_bits(b, kb);
}

proof fn lemma_modifier_bits(b: u8, kb: u8)
    by (bit_vector)
    ensures
        kb == 0x80u8 || kb == 0x40u8 ==> ((b | kb) & 0x80u8 == 0x80u8 || (b | kb) & 0x40u8 == 0x40u8),
        kb == 0x20u8 || kb == 0x10u8 ==> ((b | kb) & 0x20u8 == 0x20u8 || (b | kb) & 0x10u8 == 0x10u8),
        kb == 0x08u8 || kb == 0x04u8 ==> ((b | kb) & 0x08u8 == 0x08u8 || (b | kb) & 0x04u8 == 0x04u8),
        kb == 0xc0u8 ==> {
            let r = b & (0xffu8 ^ kb);
            &&& !(r & 0x80u8 == 0x80u8 || r & 0x40u8 == 0x40u8)
            &&& (r & 0x20u8 == 0x20u8 || r & 0x10u8 == 0x10u8) == (b & 0x20u8 == 0x20u8 || b & 0x10u8 == 0x10u8)
            &&& (r & 0x08u8 == 0x08u8 || r & 0x04u8 == 0x04u8) == (b & 0x08u8 == 0x08u8 || b & 0x04u8 == 0x04u8)
        },
        kb == 0x30u8 ==> {
            let r = b & (0xffu8 ^ kb);
            &&& !(r & 0x20u8 == 0x20u8 || r & 0x10u8 == 0x10u8)
            &&& (r & 0x80u8 == 0x80u8 || r & 0x40u8 == 0x40u8) == (b & 0x80u8 == 0x80u8 || b & 0x40u8 == 0x40u8)
            &&& (r & 0x08u8 == 0x08u8 || r & 0x04u8 == 0x04u8) == (b & 0x08u8 == 0x08u8 || b & 0x04u8 == 0x04u8)
        },
        kb == 0x0cu8 ==> {
            let r = b & (0xffu8 ^ kb);
            &&& !(r & 0x08u8 == 0x08u8 || r & 0x04u8 == 0x04u8)
            &&& (r & 0x80u8 == 0x80u8 || r & 0x40u8 == 0x40u8) == (b & 0x80u8 == 0x80u8 || b & 0x40u8 == 0x40u8)
            &&& (r & 0x20u8 == 0x20u8 || r & 0x10u8 == 0x10u8) == (b & 0x20u8 == 0x20u8 || b & 0x10u8 == 0x10u8)
        },
{
}

} // verus!
