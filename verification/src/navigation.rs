//! Focus and keyboard navigation management.
//!
//! The fields of a form and its submit action form one cycle: `count` field
//! slots followed by a single submit slot. [`FocusState`] is the mathematical
//! model of that cycle, [`FocusManager`] the executable state that refines it.

use vstd::prelude::*;

verus! {

/// Abstract state of the focus cycle.
pub struct FocusState {
    /// Number of field slots.
    pub count: nat,
    /// The field slot that was focused last.
    pub index: nat,
    /// Whether the submit slot holds the focus.
    pub submit: bool,
}

impl FocusState {
    /// The index points at an existing slot, or at 0 when there is none.
    pub open spec fn valid(self) -> bool {
        if self.count == 0 {
            self.index == 0
        } else {
            self.index < self.count
        }
    }

    /// Position in the cycle of `count + 1` slots: a field's index, or `count`
    /// for the submit slot.
    pub open spec fn position(self) -> nat {
        if self.submit {
            self.count
        } else {
            self.index
        }
    }

    /// True when field `i` holds the focus.
    pub open spec fn field_focused(self, i: nat) -> bool {
        !self.submit && self.index == i
    }

    pub open spec fn initial(count: nat) -> FocusState {
        FocusState { count, index: 0, submit: false }
    }

    pub open spec fn next(self) -> FocusState {
        if self.submit {
            FocusState { index: 0, submit: false, ..self }
        } else if self.index + 1 >= self.count {
            FocusState { submit: true, ..self }
        } else {
            FocusState { index: self.index + 1, ..self }
        }
    }

    pub open spec fn previous(self) -> FocusState {
        if self.submit {
            FocusState {
                index: if self.count == 0 {
                    0
                } else {
                    (self.count - 1) as nat
                },
                submit: false,
                ..self
            }
        } else if self.index > 0 {
            FocusState { index: (self.index - 1) as nat, ..self }
        } else {
            FocusState { submit: true, ..self }
        }
    }

    pub open spec fn resized(self, count: nat) -> FocusState {
        FocusState {
            count,
            index: if self.index >= count {
                if count == 0 {
                    0
                } else {
                    (count - 1) as nat
                }
            } else {
                self.index
            },
            submit: self.submit,
        }
    }

    pub open spec fn jump(self, index: nat) -> FocusState {
        if index < self.count {
            FocusState { index, submit: false, ..self }
        } else {
            self
        }
    }

    pub open spec fn to_submit(self) -> FocusState {
        FocusState { submit: true, ..self }
    }

    /// The state after `n` steps forward.
    pub open spec fn advance(self, n: nat) -> FocusState
        decreases n,
    {
        if n == 0 {
            self
        } else {
            self.next().advance((n - 1) as nat)
        }
    }

    /// The state after `n` steps backward.
    pub open spec fn retreat(self, n: nat) -> FocusState
        decreases n,
    {
        if n == 0 {
            self
        } else {
            self.previous().retreat((n - 1) as nat)
        }
    }
}

/// Manages focus navigation between form fields.
pub struct FocusManager {
    field_count: usize,
    current_index: usize,
    submit_button_focused: bool,
}

impl View for FocusManager {
    type V = FocusState;

    closed spec fn view(&self) -> FocusState {
        FocusState {
            count: self.field_count as nat,
            index: self.current_index as nat,
            submit: self.submit_button_focused,
        }
    }
}

impl FocusManager {
    /// The invariant of the manager: its state is a valid focus state.
    pub open spec fn wf(&self) -> bool {
        self@.valid()
    }

    /// Creates a new focus manager, focused on the first field.
    pub fn new(field_count: usize) -> (fm: Self)
        ensures
            fm@ == FocusState::initial(field_count as nat),
            fm.wf(),
    {
        Self { field_count, current_index: 0, submit_button_focused: false }
    }

    /// Returns the number of field slots.
    pub fn field_count(&self) -> (n: usize)
        ensures
            n == self@.count,
    {
        self.field_count
    }

    /// Returns the currently focused field index.
    pub fn current_index(&self) -> (i: usize)
        ensures
            i == self@.index,
    {
        self.current_index
    }

    /// Returns whether the submit button is focused.
    pub fn is_submit_focused(&self) -> (b: bool)
        ensures
            b == self@.submit,
    {
        self.submit_button_focused
    }

    /// Moves focus to the next slot of the cycle.
    pub fn focus_next(&mut self)
        requires
            old(self).wf(),
        ensures
            final(self)@ == old(self)@.next(),
            final(self).wf(),
    {
        if self.submit_button_focused {
            self.submit_button_focused = false;
            self.current_index = 0;
        } else if self.current_index + 1 >= self.field_count {
            self.submit_button_focused = true;
        } else {
            self.current_index += 1;
        }
    }

    /// Moves focus to the previous slot of the cycle.
    pub fn focus_previous(&mut self)
        requires
            old(self).wf(),
        ensures
            final(self)@ == old(self)@.previous(),
            final(self).wf(),
    {
        if self.submit_button_focused {
            self.submit_button_focused = false;
            self.current_index = if self.field_count == 0 {
                0
            } else {
                self.field_count - 1
            };
        } else if self.current_index > 0 {
            self.current_index -= 1;
        } else {
            self.submit_button_focused = true;
        }
    }

    /// Sets the total number of fields, pulling the index back into range.
    pub fn set_field_count(&mut self, count: usize)
        ensures
            final(self)@ == old(self)@.resized(count as nat),
            final(self).wf(),
    {
        self.field_count = count;
        if self.current_index >= count {
            self.current_index = if count == 0 {
                0
            } else {
                count - 1
            };
        }
    }

    /// Focuses on a specific field index; an index out of range is ignored.
    pub fn focus_field(&mut self, index: usize)
        requires
            old(self).wf(),
        ensures
            final(self)@ == old(self)@.jump(index as nat),
            final(self).wf(),
    {
        if index < self.field_count {
            self.current_index = index;
            self.submit_button_focused = false;
        }
    }

    /// Focuses on the submit button.
    pub fn focus_submit(&mut self)
        requires
            old(self).wf(),
        ensures
            final(self)@ == old(self)@.to_submit(),
            final(self).wf(),
    {
        self.submit_button_focused = true;
    }
}

/// Every transition keeps a valid state valid and never changes the number of
/// slots; resizing yields a valid state from any state.
pub proof fn lemma_transitions_preserve_validity(s: FocusState, index: nat, count: nat)
    requires
        s.valid(),
    ensures
        s.next().valid() && s.next().count == s.count,
        s.previous().valid() && s.previous().count == s.count,
        s.jump(index).valid() && s.jump(index).count == s.count,
        s.to_submit().valid() && s.to_submit().count == s.count,
        s.resized(count).valid() && s.resized(count).count == count,
{
}

/// Exactly one of "a field has focus" and "the submit action has focus" holds:
/// the focus is on the submit slot, or on exactly one field, never both.
pub proof fn lemma_focus_is_exclusive(s: FocusState)
    requires
        s.valid(),
        s.count > 0,
    ensures
        s.submit <==> s.position() == s.count,
        !s.submit <==> s.position() < s.count,
        !s.submit <==> exists|i: nat| i < s.count && s.field_focused(i),
        forall|i: nat, j: nat| s.field_focused(i) && s.field_focused(j) ==> i == j,
{
    if !s.submit {
        assert(s.index < s.count && s.field_focused(s.index));
    }
}

/// One step forward moves the position by one, modulo the `count + 1` slots of
/// the cycle, and one step backward moves it back by one.
pub proof fn lemma_step_positions(s: FocusState)
    requires
        s.valid(),
    ensures
        s.next().position() == ((s.position() + 1) as int) % ((s.count + 1) as int),
        s.previous().position() == ((s.position() + s.count) as int) % ((s.count + 1) as int),
{
    let m: int = (s.count + 1) as int;
    let p: int = s.position() as int;
    assert(0 <= p < m);
    if p + 1 < m {
        assert((p + 1) % m == p + 1) by (nonlinear_arith)
            requires
                0 <= p + 1 < m,
        ;
    } else {
        assert((p + 1) % m == 0) by (nonlinear_arith)
            requires
                p + 1 == m,
                m > 0,
        ;
    }
    if p >= 1 {
        assert((p + s.count) % m == p - 1) by (nonlinear_arith)
            requires
                1 <= p < m,
                s.count == m - 1,
        ;
    } else {
        assert((p + s.count) % m == s.count) by (nonlinear_arith)
            requires
                p == 0,
                s.count == m - 1,
                m > 0,
        ;
    }
}

/// Forward and backward steps undo each other as far as the focused slot goes.
pub proof fn lemma_next_previous_inverse(s: FocusState)
    requires
        s.valid(),
    ensures
        s.next().previous().position() == s.position(),
        s.previous().next().position() == s.position(),
        s.next().previous().submit == s.submit,
        s.previous().next().submit == s.submit,
{
}

/// After `n` steps forward the position has moved by `n` around the cycle.
pub proof fn lemma_advance_position(s: FocusState, n: nat)
    requires
        s.valid(),
    ensures
        s.advance(n).valid(),
        s.advance(n).count == s.count,
        s.advance(n).position() == ((s.position() + n) as int) % ((s.count + 1) as int),
    decreases n,
{
    let m: int = (s.count + 1) as int;
    let p: int = s.position() as int;
    if n == 0 {
        assert(p % m == p) by (nonlinear_arith)
            requires
                0 <= p < m,
        ;
    } else {
        lemma_step_positions(s);
        lemma_advance_position(s.next(), (n - 1) as nat);
        let q: int = s.next().position() as int;
        assert(q == (p + 1) % m);
        assert((q + (n - 1)) % m == (p + n) % m) by {
            vstd::arithmetic::div_mod::lemma_add_mod_noop(p + 1, n - 1, m);
            vstd::arithmetic::div_mod::lemma_add_mod_noop(q, n - 1, m);
            vstd::arithmetic::div_mod::lemma_mod_twice(p + 1, m);
        }
    }
}

/// After `n` steps backward the position has moved back by `n` around the cycle.
pub proof fn lemma_retreat_position(s: FocusState, n: nat)
    requires
        s.valid(),
    ensures
        s.retreat(n).valid(),
        s.retreat(n).count == s.count,
        s.retreat(n).position() == ((s.position() + n * s.count) as int) % ((s.count + 1) as int),
    decreases n,
{
    let m: int = (s.count + 1) as int;
    let c: int = s.count as int;
    let p: int = s.position() as int;
    if n == 0 {
        assert(0 * c == 0);
        assert(p % m == p) by (nonlinear_arith)
            requires
                0 <= p < m,
        ;
    } else {
        lemma_step_positions(s);
        lemma_retreat_position(s.previous(), (n - 1) as nat);
        let q: int = s.previous().position() as int;
        assert(q == (p + c) % m);
        assert(n * c == c + (n - 1) * c) by (nonlinear_arith);
        assert((q + (n - 1) * c) % m == (p + n * c) % m) by {
            vstd::arithmetic::div_mod::lemma_add_mod_noop(p + c, (n - 1) * c, m);
            vstd::arithmetic::div_mod::lemma_add_mod_noop(q, (n - 1) * c, m);
            vstd::arithmetic::div_mod::lemma_mod_twice(p + c, m);
        }
    }
}

/// Focus cycling: `count + 1` steps forward, or as many backward, lead back to
/// the slot where they began. Where there is a field at all, the slot tells
/// whether the submit action has the focus, so that comes back too.
pub proof fn lemma_full_cycle_returns(s: FocusState)
    requires
        s.valid(),
    ensures
        s.advance(s.count + 1).position() == s.position(),
        s.retreat(s.count + 1).position() == s.position(),
        s.count > 0 ==> s.advance(s.count + 1).submit == s.submit && s.retreat(
            s.count + 1,
        ).submit == s.submit,
{
    let m: int = (s.count + 1) as int;
    let c: int = s.count as int;
    let p: int = s.position() as int;
    lemma_advance_position(s, s.count + 1);
    lemma_retreat_position(s, s.count + 1);
    assert((p + m) % m == p) by (nonlinear_arith)
        requires
            0 <= p < m,
    ;
    assert((p + m * c) % m == p) by {
        vstd::arithmetic::div_mod::lemma_mod_multiples_vanish(c, p, m);
        assert(m * c + p == p + m * c);
        assert(p % m == p) by (nonlinear_arith)
            requires
                0 <= p < m,
        ;
    }
    assert((s.count + 1) * s.count == m * c);
}

} // verus!
