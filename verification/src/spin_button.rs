//! The integer value of a spin button: its range, its steps and how it changes.

use vstd::prelude::*;
use crate::modifiers::Modifiers;

verus! {

/// An error than can occur when building a spin button.
#[derive(Debug, Clone, Copy, PartialEq, Eq, Structural)]
pub enum SpinButtonError {
    /// The maximum value is less than the minimum value.
    MaxLessThanMin,
    /// The initial value is not within the minimum and maximum values.
    SetValNotInRange,
}

/// The configured values of a spin button.
#[derive(Debug, Clone, Copy, PartialEq, Eq, Structural)]
pub struct SpinButtonProps {
    pub min: i32,
    pub max: i32,
    pub val: i32,
    pub small_step: i32,
    pub medium_step: i32,
    pub large_step: i32,
}

/// `val` held within `min` and `max`.
pub open spec fn clamp(val: int, min: int, max: int) -> int {
    if val < min {
        min
    } else if val > max {
        max
    } else {
        val
    }
}

/// The number of decimal digits of `n`.
pub open spec fn decimal_digits(n: nat) -> nat
    decreases n,
{
    if n < 10 {
        1
    } else {
        1 + decimal_digits(n / 10)
    }
}

/// `|n|`.
pub open spec fn abs(n: int) -> nat {
    if n < 0 {
        (-n) as nat
    } else {
        n as nat
    }
}

/// The number of characters the entry must have room for: the digits of the longer of the
/// minimum and maximum, and a sign when the minimum is negative.
pub open spec fn spec_entry_places(min: int, max: int) -> nat {
    let places = if decimal_digits(abs(min)) >= decimal_digits(abs(max)) {
        decimal_digits(abs(min))
    } else {
        decimal_digits(abs(max))
    };
    if min < 0 {
        places + 1
    } else {
        places
    }
}

proof fn lemma_digits_bound(n: nat)
    ensures
        1 <= decimal_digits(n) <= n + 1,
    decreases n,
{
    if n >= 10 {
        lemma_digits_bound(n / 10);
    }
}

/// The number of decimal digits of `|n|`.
fn digits_of(n: i32) -> (r: u32)
    ensures
        r == decimal_digits(abs(n as int)),
{
    let mut m: u32 = if n < 0 { (-(n as i64)) as u32 } else { n as u32 };
    let mut places: u32 = 1;
    proof {
        lemma_digits_bound(m as nat);
    }
    while m >= 10
        invariant
            places + decimal_digits(m as nat) == decimal_digits(abs(n as int)) + 1,
            decimal_digits(abs(n as int)) <= abs(n as int) + 1,
            abs(n as int) <= 0x8000_0000,
        decreases m,
    {
        m = m / 10;
        places = places + 1;
    }
    places
}

impl SpinButtonProps {
    /// The defaults: a range and a value of `0`, and steps of `1`.
    pub fn new() -> (p: SpinButtonProps)
        ensures
            p == (SpinButtonProps {
                min: 0,
                max: 0,
                val: 0,
                small_step: 1,
                medium_step: 1,
                large_step: 1,
            }),
    {
        SpinButtonProps { min: 0, max: 0, val: 0, small_step: 1, medium_step: 1, large_step: 1 }
    }

    /// Specify the minimum value.
    pub fn min_value(self, min: i32) -> (p: SpinButtonProps)
        ensures
            p == (SpinButtonProps { min, ..self }),
    {
        SpinButtonProps { min, ..self }
    }

    /// Specify the maximum value.
    pub fn max_value(self, max: i32) -> (p: SpinButtonProps)
        ensures
            p == (SpinButtonProps { max, ..self }),
    {
        SpinButtonProps { max, ..self }
    }

    /// Set the initial value.
    pub fn set_value(self, val: i32) -> (p: SpinButtonProps)
        ensures
            p == (SpinButtonProps { val, ..self }),
    {
        SpinButtonProps { val, ..self }
    }

    /// Set the value of a small step, used when no modifier is held.
    pub fn small_step(self, step: i32) -> (p: SpinButtonProps)
        ensures
            p == (SpinButtonProps { small_step: step, ..self }),
    {
        SpinButtonProps { small_step: step, ..self }
    }

    /// Set the value of a medium step, used while ctrl is held.
    pub fn medium_step(self, step: i32) -> (p: SpinButtonProps)
        ensures
            p == (SpinButtonProps { medium_step: step, ..self }),
    {
        SpinButtonProps { medium_step: step, ..self }
    }

    /// Set the value of a large step, used while shift is held.
    pub fn large_step(self, step: i32) -> (p: SpinButtonProps)
        ensures
            p == (SpinButtonProps { large_step: step, ..self }),
    {
        SpinButtonProps { large_step: step, ..self }
    }

    /// Checks the range and the initial value.
    pub fn validate(&self) -> (r: Result<(), SpinButtonError>)
        ensures
            self.max < self.min ==> r == Err::<(), _>(SpinButtonError::MaxLessThanMin),
            self.min <= self.max && (self.val < self.min || self.val > self.max) ==> r == Err::<
                (),
                _,
            >(SpinButtonError::SetValNotInRange),
            self.min <= self.val <= self.max ==> r is Ok,
    {
        if self.max < self.min {
            return Err(SpinButtonError::MaxLessThanMin);
        }
        if self.val < self.min || self.val > self.max {
            return Err(SpinButtonError::SetValNotInRange);
        }
        Ok(())
    }

    /// The step to use given the held modifiers: medium with ctrl, else large with shift, else
    /// small.
    pub fn step_size(&self, mods: Modifiers) -> (r: i32)
        ensures
            r == (if mods.spec_ctrl() {
                self.medium_step
            } else if mods.spec_shift() {
                self.large_step
            } else {
                self.small_step
            }),
    {
        mods.choose_step(self.small_step, self.medium_step, self.large_step)
    }

    /// The number of characters the entry is sized for when no width is given.
    pub fn entry_places(&self) -> (r: u32)
        ensures
            r == spec_entry_places(self.min as int, self.max as int),
    {
        let min_places = digits_of(self.min);
        let max_places = digits_of(self.max);
        proof {
            lemma_digits_bound(abs(self.min as int));
            lemma_digits_bound(abs(self.max as int));
        }
        let mut places = if min_places >= max_places {
            min_places
        } else {
            max_places
        };
        if self.min < 0 {
            places = places + 1;
        }
        places
    }
}

/// The value after a change, and whether it differs from the value before: only then are the
/// callbacks told.
#[derive(Clone, Copy, Debug, PartialEq, Eq, Structural)]
pub struct ValueChange {
    pub val: i32,
    pub changed: bool,
}

/// The value of a spin button, always within its range.
pub struct SpinButtonState {
    min: i32,
    max: i32,
    val: i32,
}

impl SpinButtonState {
    #[verifier::type_invariant]
    spec fn in_range(self) -> bool {
        self.min <= self.val <= self.max
    }

    pub closed spec fn spec_min(self) -> i32 {
        self.min
    }

    pub closed spec fn spec_max(self) -> i32 {
        self.max
    }

    pub closed spec fn spec_val(self) -> i32 {
        self.val
    }

    /// Starts from the configured range and initial value, or gives the error that `build`
    /// reports for them.
    pub fn build(props: &SpinButtonProps) -> (r: Result<SpinButtonState, SpinButtonError>)
        ensures
            props.max < props.min ==> r == Err::<SpinButtonState, _>(
                SpinButtonError::MaxLessThanMin,
            ),
            props.min <= props.max && (props.val < props.min || props.val > props.max) ==> r
                == Err::<SpinButtonState, _>(SpinButtonError::SetValNotInRange),
            props.min <= props.val <= props.max ==> r is Ok,
            r matches Ok(s) ==> s.spec_min() == props.min && s.spec_max() == props.max
                && s.spec_val() == props.val,
    {
        match props.validate() {
            Err(e) => Err(e),
            Ok(()) => Ok(SpinButtonState { min: props.min, max: props.max, val: props.val }),
        }
    }

    /// The current value.
    pub fn val(&self) -> (r: i32)
        ensures
            r == self.spec_val(),
            self.spec_min() <= r <= self.spec_max(),
    {
        proof {
            use_type_invariant(self);
        }
        self.val
    }

    /// Set the value, clamped to the range. Returns the new value and whether it changed.
    pub fn set(&mut self, val: i32) -> (r: ValueChange)
        ensures
            r.val == clamp(val as int, old(self).spec_min() as int, old(self).spec_max() as int),
            r.changed == (r.val != old(self).spec_val()),
            final(self).spec_val() == r.val,
            final(self).spec_min() == old(self).spec_min(),
            final(self).spec_max() == old(self).spec_max(),
    {
        proof {
            use_type_invariant(&*self);
        }
        let v = if val < self.min {
            self.min
        } else if val > self.max {
            self.max
        } else {
            val
        };
        let changed = v != self.val;
        self.val = v;
        ValueChange { val: v, changed }
    }

    /// Add `amt` to the value, clamped to the range; the sum is taken over the integers, so
    /// it does not wrap. Returns the new value and whether it changed.
    pub fn increment(&mut self, amt: i32) -> (r: ValueChange)
        ensures
            r.val == clamp(
                old(self).spec_val() + amt,
                old(self).spec_min() as int,
                old(self).spec_max() as int,
            ),
            r.changed == (r.val != old(self).spec_val()),
            final(self).spec_val() == r.val,
            final(self).spec_min() == old(self).spec_min(),
            final(self).spec_max() == old(self).spec_max(),
    {
        let val = match self.val.checked_add(amt) {
            Some(v) => v,
            None => {
                if amt > 0 {
                    i32::MAX
                } else {
                    i32::MIN
                }
            },
        };
        self.set(val)
    }

    /// Subtract `amt` from the value, clamped to the range; the difference is taken over the
    /// integers, so it does not wrap. Returns the new value and whether it changed.
    pub fn decrement(&mut self, amt: i32) -> (r: ValueChange)
        ensures
            r.val == clamp(
                old(self).spec_val() - amt,
                old(self).spec_min() as int,
                old(self).spec_max() as int,
            ),
            r.changed == (r.val != old(self).spec_val()),
            final(self).spec_val() == r.val,
            final(self).spec_min() == old(self).spec_min(),
            final(self).spec_max() == old(self).spec_max(),
    {
        let val = match self.val.checked_sub(amt) {
            Some(v) => v,
            None => {
                if amt < 0 {
                    i32::MAX
                } else {
                    i32::MIN
                }
            },
        };
        self.set(val)
    }
}

/// Clamping gives the value where it is in range, the minimum below it and the maximum above.
pub proof fn law_clamp(val: int, min: int, max: int)
    requires
        min <= max,
    ensures
        min <= val <= max ==> clamp(val, min, max) == val,
        val < min ==> clamp(val, min, max) == min,
        val > max ==> clamp(val, min, max) == max,
{
}

/// Setting a value keeps it in range, setting an in-range value gives that value, and setting
/// the same value twice gives what setting it once gave.
pub proof fn lemma_set(val: int, min: int, max: int)
    requires
        min <= max,
    ensures
        min <= clamp(val, min, max) <= max,
        min <= val <= max ==> clamp(val, min, max) == val,
        clamp(clamp(val, min, max), min, max) == clamp(val, min, max),
{
}

/// Incrementing by `amt` and then decrementing by `amt` restores the value, so long as the sum
/// is within the range.
pub proof fn lemma_increment_decrement(val: int, amt: int, min: int, max: int)
    requires
        min <= val <= max,
        min <= val + amt <= max,
    ensures
        clamp(clamp(val + amt, min, max) - amt, min, max) == val,
{
}

/// A step of zero leaves the value as it is.
pub proof fn lemma_zero_step(val: int, min: int, max: int)
    requires
        min <= val <= max,
    ensures
        clamp(val + 0, min, max) == val,
        clamp(val - 0, min, max) == val,
{
}

} // verus!

verus! {

/// `c` is an ASCII decimal digit.
pub open spec fn is_digit(c: char) -> bool {
    '0' <= c <= '9'
}

/// The value of a string of decimal digits.
pub open spec fn digits_value(s: Seq<char>) -> nat
    decreases s.len(),
{
    if s.len() == 0 {
        0
    } else {
        digits_value(s.drop_last()) * 10 + ((s.last() as int - '0' as int) as nat)
    }
}

/// The digits of `s`: all of it, or all but a leading sign.
pub open spec fn parse_body(s: Seq<char>) -> Seq<char> {
    if s.len() > 0 && (s[0] == '-' || s[0] == '+') {
        s.skip(1)
    } else {
        s
    }
}

/// Every character of `s` is a digit.
pub open spec fn all_digits(s: Seq<char>) -> bool {
    forall|i: int| 0 <= i < s.len() ==> is_digit(#[trigger] s[i])
}

/// What parsing `s` as an `i32` gives: an optional `+` or `-`, then one or more ASCII digits,
/// whose value must fit.
pub open spec fn spec_parse_i32(s: Seq<char>) -> Option<i32> {
    let neg = s.len() > 0 && s[0] == '-';
    let body = parse_body(s);
    if body.len() == 0 || !all_digits(body) {
        None
    } else {
        let v: int = if neg {
            -digits_value(body)
        } else {
            digits_value(body) as int
        };
        if i32::MIN <= v <= i32::MAX {
            Some(v as i32)
        } else {
            None
        }
    }
}

/// Parses `s` as an `i32` the way `str::parse` does; see [`spec_parse_i32`].
pub fn parse_i32(s: &Vec<char>) -> (r: Option<i32>)
    ensures
        r == spec_parse_i32(s@),
{
    let n = s.len();
    let neg = n > 0 && s[0] == '-';
    let start: usize = if n > 0 && (s[0] == '-' || s[0] == '+') {
        1
    } else {
        0
    };
    let ghost body = parse_body(s@);
    assert(body =~= s@.skip(start as int));
    if start >= n {
        return None;
    }
    let mut i: usize = start;
    let mut acc: u64 = 0;
    let mut too_big = false;
    while i < n
        invariant
            start <= i <= n,
            n == s@.len(),
            body =~= s@.skip(start as int),
            body == parse_body(s@),
            neg == (s@.len() > 0 && s@[0] == '-'),
            forall|k: int| start <= k < i ==> is_digit(#[trigger] s@[k]),
            !too_big ==> acc == digits_value(body.take(i - start)) && acc <= 0x8000_0000,
            too_big ==> digits_value(body.take(i - start)) > 0x8000_0000,
        decreases n - i,
    {
        let c = s[i];
        if !('0' <= c && c <= '9') {
            proof {
                assert(!is_digit(body[i - start]));
            }
            return None;
        }
        proof {
            assert(body.take(i + 1 - start).drop_last() =~= body.take(i - start));
            assert(body.take(i + 1 - start).last() == c);
        }
        if !too_big {
            let d = (c as u32 - '0' as u32) as u64;
            acc = acc * 10 + d;
            if acc > 0x8000_0000 {
                too_big = true;
            }
        } else {
            proof {
                assert(digits_value(body.take(i + 1 - start)) >= digits_value(body.take(i - start)));
            }
        }
        i = i + 1;
    }
    proof {
        assert(body.take(n - start) =~= body);
        assert forall|k: int| 0 <= k < body.len() implies is_digit(#[trigger] body[k]) by {
            assert(body[k] == s@[k + start]);
        }
        assert(all_digits(body));
    }
    if too_big {
        return None;
    }
    if neg {
        if acc > 0x8000_0000 {
            None
        } else {
            Some((0i64 - acc as i64) as i32)
        }
    } else {
        if acc > 0x7fff_ffff {
            None
        } else {
            Some(acc as i32)
        }
    }
}

/// A key typed into the entry of a spin button.
#[derive(Clone, Copy, Debug, PartialEq, Eq, Structural)]
pub enum EntryKey {
    /// Enter: the entry's text is committed.
    NewLine,
    /// The last character is deleted.
    Backspace,
    /// Another character, and whether it is numeric.
    Char(char, bool),
}

impl SpinButtonState {
    /// Takes a key typed into the entry: enter sets the value parsed from `entry` (or
    /// `fallback` where it does not parse), clamped to the range, and returns it with whether
    /// it changed; backspace
    /// deletes the entry's last character; a numeric character is appended; other keys do
    /// nothing.
    pub fn entry_key(&mut self, entry: &mut Vec<char>, key: EntryKey, fallback: i32) -> (r: Option<
        ValueChange,
    >)
        ensures
            final(self).spec_min() == old(self).spec_min(),
            final(self).spec_max() == old(self).spec_max(),
            key == EntryKey::NewLine ==> ({
                let parsed = match spec_parse_i32(old(entry)@) {
                    Some(v) => v,
                    None => fallback,
                };
                let v = clamp(parsed as int, old(self).spec_min() as int, old(self).spec_max() as int);
                &&& r == Some(ValueChange { val: v as i32, changed: v != old(self).spec_val() })
                &&& final(self).spec_val() == v
                &&& final(entry)@ == old(entry)@
            }),
            key == EntryKey::Backspace ==> (r is None && final(self).spec_val() == old(self).spec_val() && final(entry)@
                == (if old(entry)@.len() > 0 {
                old(entry)@.drop_last()
            } else {
                old(entry)@
            })),
            key matches EntryKey::Char(c, numeric) ==> (r is None && final(self).spec_val() == old(self).spec_val()
                && final(entry)@ == (if numeric {
                old(entry)@.push(c)
            } else {
                old(entry)@
            })),
    {
        match key {
            EntryKey::NewLine => {
                let val = match parse_i32(entry) {
                    Some(v) => v,
                    None => fallback,
                };
                Some(self.set(val))
            },
            EntryKey::Backspace => {
                entry.pop();
                None
            },
            EntryKey::Char(c, numeric) => {
                if numeric {
                    entry.push(c);
                }
                None
            },
        }
    }
}

} // verus!
