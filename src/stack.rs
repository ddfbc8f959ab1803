use vstd::prelude::*;
use crate::error::VmError;
use crate::value::{jvm_value, ot_obj};

verus! {

/// The integer at `depth` places below the top of `s` (0 is the top).
pub open spec fn int_at(s: Seq<jvm_value>, depth: int) -> Result<i32, VmError> {
    if s.len() <= depth {
        Err(VmError::StackUnderflow)
    } else {
        match s[s.len() - 1 - depth] {
            jvm_value::Int { val } => Ok(val),
            _ => Err(VmError::TypeMismatch),
        }
    }
}

/// The double bit pattern at `depth` places below the top of `s`.
pub open spec fn double_at(s: Seq<jvm_value>, depth: int) -> Result<u64, VmError> {
    if s.len() <= depth {
        Err(VmError::StackUnderflow)
    } else {
        match s[s.len() - 1 - depth] {
            jvm_value::Double { val } => Ok(val),
            _ => Err(VmError::TypeMismatch),
        }
    }
}

/// The operands of a binary integer instruction, as `(left, right)`: the
/// value pushed first is the left operand, the value on top the right one.
/// The top is examined before the value beneath it.
pub open spec fn int_operands(s: Seq<jvm_value>) -> Result<(i32, i32), VmError> {
    match int_at(s, 0) {
        Err(e) => Err(e),
        Ok(right) => match int_at(s, 1) {
            Err(e) => Err(e),
            Ok(left) => Ok((left, right)),
        },
    }
}

/// The operands of a binary double instruction, as `(left, right)` bit patterns.
pub open spec fn double_operands(s: Seq<jvm_value>) -> Result<(u64, u64), VmError> {
    match double_at(s, 0) {
        Err(e) => Err(e),
        Ok(right) => match double_at(s, 1) {
            Err(e) => Err(e),
            Ok(left) => Ok((left, right)),
        },
    }
}

/// `s` with its two top values replaced by `v`.
pub open spec fn replace_two(s: Seq<jvm_value>, v: jvm_value) -> Seq<jvm_value> {
    s.subrange(0, s.len() - 2).push(v)
}

/// Integer division as the instruction set defines it: truncating toward
/// zero, with the one overflowing quotient wrapping around.
pub open spec fn int_div(a: i32, b: i32) -> i32
    recommends
        b != 0,
{
    if b == -1 {
        (0i32).wrapping_sub(a)
    } else {
        match a.checked_div(b) {
            Some(q) => q,
            None => 0,
        }
    }
}

/// Integer remainder with the sign of the dividend.
pub open spec fn int_rem(a: i32, b: i32) -> i32
    recommends
        b != 0,
{
    if b == -1 {
        0
    } else {
        match a.checked_rem(b) {
            Some(m) => m,
            None => 0,
        }
    }
}

/// A per-call operand stack: a strict last-in-first-out sequence of values
/// whose last element is the top.
pub struct InterpEvalStack {
    stack: Vec<jvm_value>,
}

/// Name under which the operand stack is also known.
pub type interp_eval_stack = InterpEvalStack;

impl View for InterpEvalStack {
    type V = Seq<jvm_value>;

    closed spec fn view(&self) -> Seq<jvm_value> {
        self.stack@
    }
}

impl InterpEvalStack {
    /// An empty stack.
    pub fn of() -> (r: InterpEvalStack)
        ensures
            r@ == Seq::<jvm_value>::empty(),
    {
        InterpEvalStack { stack: Vec::new() }
    }

    /// Number of values on the stack.
    pub fn depth(&self) -> (r: usize)
        ensures
            r == self@.len(),
    {
        self.stack.len()
    }

    pub fn push(&mut self, val: jvm_value)
        ensures
            final(self)@ == old(self)@.push(val),
    {
        self.stack.push(val);
    }

    /// Removes and returns the top value; fails on an empty stack.
    pub fn pop(&mut self) -> (r: Result<jvm_value, VmError>)
        ensures
            old(self)@.len() == 0 ==> r == Err::<jvm_value, VmError>(VmError::StackUnderflow)
                && final(self)@ == old(self)@,
            old(self)@.len() > 0 ==> r == Ok::<jvm_value, VmError>(old(self)@.last())
                && final(self)@ == old(self)@.drop_last(),
    {
        match self.stack.pop() {
            Some(value) => Ok(value),
            None => Err(VmError::StackUnderflow),
        }
    }

    /// Removes the top value when it is an integer and returns its payload.
    pub fn pop_int(&mut self) -> (r: Result<i32, VmError>)
        ensures
            r == int_at(old(self)@, 0),
            r is Ok ==> final(self)@ == old(self)@.drop_last(),
            r is Err ==> final(self)@ == old(self)@,
    {
        let n = self.stack.len();
        if n == 0 {
            return Err(VmError::StackUnderflow);
        }
        match self.stack[n - 1] {
            jvm_value::Int { val } => {
                self.stack.pop();
                Ok(val)
            },
            _ => Err(VmError::TypeMismatch),
        }
    }

    /// Removes the two operands of an integer instruction and returns them
    /// as `(left, right)`. On failure the stack is left as it was.
    fn pop_int_operands(&mut self) -> (r: Result<(i32, i32), VmError>)
        ensures
            r == int_operands(old(self)@),
            r is Ok ==> final(self)@ == old(self)@.subrange(0, old(self)@.len() - 2),
            r is Err ==> final(self)@ == old(self)@,
    {
        let n = self.stack.len();
        if n == 0 {
            return Err(VmError::StackUnderflow);
        }
        let right = match self.stack[n - 1] {
            jvm_value::Int { val } => val,
            _ => return Err(VmError::TypeMismatch),
        };
        if n == 1 {
            return Err(VmError::StackUnderflow);
        }
        let left = match self.stack[n - 2] {
            jvm_value::Int { val } => val,
            _ => return Err(VmError::TypeMismatch),
        };
        self.stack.truncate(n - 2);
        Ok((left, right))
    }

    /// Removes the two operands of a double instruction and returns their
    /// bit patterns as `(left, right)`. On failure the stack is left as it was.
    pub fn pop_double_operands(&mut self) -> (r: Result<(u64, u64), VmError>)
        ensures
            r == double_operands(old(self)@),
            r is Ok ==> final(self)@ == old(self)@.subrange(0, old(self)@.len() - 2),
            r is Err ==> final(self)@ == old(self)@,
    {
        let n = self.stack.len();
        if n == 0 {
            return Err(VmError::StackUnderflow);
        }
        let right = match self.stack[n - 1] {
            jvm_value::Double { val } => val,
            _ => return Err(VmError::TypeMismatch),
        };
        if n == 1 {
            return Err(VmError::StackUnderflow);
        }
        let left = match self.stack[n - 2] {
            jvm_value::Double { val } => val,
            _ => return Err(VmError::TypeMismatch),
        };
        self.stack.truncate(n - 2);
        Ok((left, right))
    }
    /// Pops two integers and pushes left + right, wrapping around on overflow.
    pub fn iadd(&mut self) -> (r: Result<(), VmError>)
        ensures
            match int_operands(old(self)@) {
                Ok((a, b)) => r is Ok && final(self)@ == replace_two(old(self)@, jvm_value::Int { val: a.wrapping_add(b) }),
                Err(e) => r == Err::<(), VmError>(e) && final(self)@ == old(self)@,
            },
    {
        let (a, b) = self.pop_int_operands()?;
        self.push(jvm_value::Int { val: a.wrapping_add(b) });
        Ok(())
    }

    /// Pops two integers and pushes left - right, wrapping around on overflow.
    pub fn isub(&mut self) -> (r: Result<(), VmError>)
        ensures
            match int_operands(old(self)@) {
                Ok((a, b)) => r is Ok && final(self)@ == replace_two(old(self)@, jvm_value::Int { val: a.wrapping_sub(b) }),
                Err(e) => r == Err::<(), VmError>(e) && final(self)@ == old(self)@,
            },
    {
        let (a, b) = self.pop_int_operands()?;
        self.push(jvm_value::Int { val: a.wrapping_sub(b) });
        Ok(())
    }

    /// Pops two integers and pushes left * right, wrapping around on overflow.
    pub fn imul(&mut self) -> (r: Result<(), VmError>)
        ensures
            match int_operands(old(self)@) {
                Ok((a, b)) => r is Ok && final(self)@ == replace_two(old(self)@, jvm_value::Int { val: a.wrapping_mul(b) }),
                Err(e) => r == Err::<(), VmError>(e) && final(self)@ == old(self)@,
            },
    {
        let (a, b) = self.pop_int_operands()?;
        self.push(jvm_value::Int { val: a.wrapping_mul(b) });
        Ok(())
    }

    /// Pops two integers and pushes the bitwise and of the two operands.
    pub fn iand(&mut self) -> (r: Result<(), VmError>)
        ensures
            match int_operands(old(self)@) {
                Ok((a, b)) => r is Ok && final(self)@ == replace_two(old(self)@, jvm_value::Int { val: a & b }),
                Err(e) => r == Err::<(), VmError>(e) && final(self)@ == old(self)@,
            },
    {
        let (a, b) = self.pop_int_operands()?;
        self.push(jvm_value::Int { val: a & b });
        Ok(())
    }

    /// Pops two integers and pushes the bitwise or of the two operands.
    pub fn ior(&mut self) -> (r: Result<(), VmError>)
        ensures
            match int_operands(old(self)@) {
                Ok((a, b)) => r is Ok && final(self)@ == replace_two(old(self)@, jvm_value::Int { val: a | b }),
                Err(e) => r == Err::<(), VmError>(e) && final(self)@ == old(self)@,
            },
    {
        let (a, b) = self.pop_int_operands()?;
        self.push(jvm_value::Int { val: a | b });
        Ok(())
    }

    /// Pops two integers and pushes the bitwise exclusive or of the two operands.
    pub fn ixor(&mut self) -> (r: Result<(), VmError>)
        ensures
            match int_operands(old(self)@) {
                Ok((a, b)) => r is Ok && final(self)@ == replace_two(old(self)@, jvm_value::Int { val: a ^ b }),
                Err(e) => r == Err::<(), VmError>(e) && final(self)@ == old(self)@,
            },
    {
        let (a, b) = self.pop_int_operands()?;
        self.push(jvm_value::Int { val: a ^ b });
        Ok(())
    }

    /// Pops a dividend and a divisor (the divisor on top) and pushes their
    /// quotient; a zero divisor fails and leaves the stack as it was.
    pub fn idiv(&mut self) -> (r: Result<(), VmError>)
        ensures
            match int_operands(old(self)@) {
                Ok((a, b)) => if b == 0 {
                    r == Err::<(), VmError>(VmError::DivisionByZero) && final(self)@ == old(self)@
                } else {
                    r is Ok && final(self)@ == replace_two(old(self)@, jvm_value::Int { val: int_div(a, b) })
                },
                Err(e) => r == Err::<(), VmError>(e) && final(self)@ == old(self)@,
            },
    {
        let n = self.stack.len();
        if n >= 1 {
            if let jvm_value::Int { val: 0 } = self.stack[n - 1] {
                if n >= 2 {
                    if let jvm_value::Int { .. } = self.stack[n - 2] {
                        return Err(VmError::DivisionByZero);
                    }
                }
            }
        }
        let (a, b) = self.pop_int_operands()?;
        let q = if b == -1 {
            (0i32).wrapping_sub(a)
        } else {
            match a.checked_div(b) {
                Some(q) => q,
                // not reached: the divisor is neither zero nor minus one
                None => 0,
            }
        };
        self.push(jvm_value::Int { val: q });
        Ok(())
    }

    /// Pops a dividend and a divisor (the divisor on top) and pushes the
    /// remainder; a zero divisor fails and leaves the stack as it was.
    pub fn irem(&mut self) -> (r: Result<(), VmError>)
        ensures
            match int_operands(old(self)@) {
                Ok((a, b)) => if b == 0 {
                    r == Err::<(), VmError>(VmError::DivisionByZero) && final(self)@ == old(self)@
                } else {
                    r is Ok && final(self)@ == replace_two(old(self)@, jvm_value::Int { val: int_rem(a, b) })
                },
                Err(e) => r == Err::<(), VmError>(e) && final(self)@ == old(self)@,
            },
    {
        let n = self.stack.len();
        if n >= 1 {
            if let jvm_value::Int { val: 0 } = self.stack[n - 1] {
                if n >= 2 {
                    if let jvm_value::Int { .. } = self.stack[n - 2] {
                        return Err(VmError::DivisionByZero);
                    }
                }
            }
        }
        let (a, b) = self.pop_int_operands()?;
        let m = if b == -1 {
            0
        } else {
            match a.checked_rem(b) {
                Some(m) => m,
                // not reached: the divisor is neither zero nor minus one
                None => 0,
            }
        };
        self.push(jvm_value::Int { val: m });
        Ok(())
    }

    /// Pops an integer and pushes its negation, wrapping around on overflow.
    pub fn ineg(&mut self) -> (r: Result<(), VmError>)
        ensures
            match int_at(old(self)@, 0) {
                Ok(a) => r is Ok && final(self)@ == old(self)@.drop_last().push(
                    jvm_value::Int { val: (0i32).wrapping_sub(a) },
                ),
                Err(e) => r == Err::<(), VmError>(e) && final(self)@ == old(self)@,
            },
    {
        let a = self.pop_int()?;
        self.push(jvm_value::Int { val: (0i32).wrapping_sub(a) });
        Ok(())
    }

    /// Pushes the null reference.
    pub fn aconst_null(&mut self)
        ensures
            final(self)@.len() == old(self)@.len() + 1,
            final(self)@.drop_last() == old(self)@,
            final(self)@.last() matches jvm_value::ObjRef { val } && val.spec_is_null(),
    {
        self.push(jvm_value::ObjRef { val: ot_obj::get_null() });
    }

    /// Pushes an integer constant.
    pub fn iconst(&mut self, v: i32)
        ensures
            final(self)@ == old(self)@.push(jvm_value::Int { val: v }),
    {
        self.push(jvm_value::Int { val: v });
    }

    /// Pushes a copy of the top value: `[.., x]` becomes `[.., x, x]`.
    pub fn dup(&mut self) -> (r: Result<(), VmError>)
        ensures
            old(self)@.len() == 0 ==> r == Err::<(), VmError>(VmError::StackUnderflow)
                && final(self)@ == old(self)@,
            old(self)@.len() > 0 ==> r is Ok && final(self)@ == old(self)@.push(old(self)@.last()),
    {
        let x = self.pop()?;
        self.push(x);
        self.push(x);
        Ok(())
    }

    /// Copies the top value beneath the two top values:
    /// `[.., b, a]` becomes `[.., a, b, a]`. With fewer than two values the
    /// stack is left as it was.
    pub fn dupX1(&mut self) -> (r: Result<(), VmError>)
        ensures
            old(self)@.len() < 2 ==> r == Err::<(), VmError>(VmError::StackUnderflow)
                && final(self)@ == old(self)@,
            old(self)@.len() >= 2 ==> r is Ok && final(self)@ == old(self)@.subrange(
                0,
                old(self)@.len() - 2,
            ).push(old(self)@.last()).push(old(self)@[old(self)@.len() - 2]).push(
                old(self)@.last(),
            ),
    {
        if self.stack.len() < 2 {
            return Err(VmError::StackUnderflow);
        }
        let a = self.pop()?;
        let b = self.pop()?;
        self.push(a);
        self.push(b);
        self.push(a);
        Ok(())
    }
}


/// The contents of a stack that started as `s` after a run of operations:
/// `Some(v)` pushes `v`, `None` pops (and leaves an empty stack as it is).
pub open spec fn replay(s: Seq<jvm_value>, ops: Seq<Option<jvm_value>>) -> Seq<jvm_value>
    decreases ops.len(),
{
    if ops.len() == 0 {
        s
    } else {
        let t = replay(s, ops.drop_last());
        match ops.last() {
            Some(v) => t.push(v),
            None => if t.len() == 0 {
                t
            } else {
                t.drop_last()
            },
        }
    }
}

/// Number of pushes in a run of operations.
pub open spec fn pushes(ops: Seq<Option<jvm_value>>) -> nat
    decreases ops.len(),
{
    if ops.len() == 0 {
        0
    } else {
        pushes(ops.drop_last()) + if ops.last() is Some {
            1nat
        } else {
            0nat
        }
    }
}

/// Number of pops in a run of operations.
pub open spec fn pops(ops: Seq<Option<jvm_value>>) -> nat
    decreases ops.len(),
{
    if ops.len() == 0 {
        0
    } else {
        pops(ops.drop_last()) + if ops.last() is None {
            1nat
        } else {
            0nat
        }
    }
}

/// Last in, first out: after pushing `v1` and then `v2`, the first pop
/// returns `v2` and the second returns `v1`, leaving the stack as it was.
pub proof fn lemma_lifo(s: Seq<jvm_value>, v1: jvm_value, v2: jvm_value)
    ensures
        s.push(v1).push(v2).len() > 0,
        s.push(v1).push(v2).last() == v2,
        s.push(v1).push(v2).drop_last() == s.push(v1),
        s.push(v1).len() > 0,
        s.push(v1).last() == v1,
        s.push(v1).drop_last() == s,
{
    assert(s.push(v1).push(v2).drop_last() =~= s.push(v1));
    assert(s.push(v1).drop_last() =~= s);
}

/// Starting from an empty stack, a run in which no pop meets an empty stack
/// leaves as many values as it pushed minus what it popped; so once pops have
/// caught up with pushes the stack is empty and the next pop underflows.
pub proof fn lemma_balanced_run_empties(ops: Seq<Option<jvm_value>>)
    requires
        forall|k: int| 0 <= k <= ops.len() ==> pops(#[trigger] ops.subrange(0, k)) <= pushes(
            ops.subrange(0, k),
        ),
    ensures
        replay(Seq::empty(), ops).len() == pushes(ops) - pops(ops),
        pushes(ops) == pops(ops) ==> replay(Seq::empty(), ops).len() == 0,
    decreases ops.len(),
{
    if ops.len() > 0 {
        let front = ops.drop_last();
        assert forall|k: int| 0 <= k <= front.len() implies pops(#[trigger] front.subrange(0, k))
            <= pushes(front.subrange(0, k)) by {
            assert(front.subrange(0, k) =~= ops.subrange(0, k));
        }
        lemma_balanced_run_empties(front);
        assert(ops.subrange(0, ops.len() as int) =~= ops);
    }
}

} // verus!
