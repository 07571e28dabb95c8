use vstd::prelude::*;

verus! {

/// A position inside the bounded stack buffer, kept in `[0, stack_size)`
/// by modular arithmetic.  It stands in for a real address: the emulator
/// has no virtual memory, so every stack access wraps inside the one
/// buffer instead of faulting.
#[derive(Debug, Clone, Copy, PartialEq, Eq, Structural)]
pub struct StackPointer {
    pointer: u64,
    stack_size: u64,
}

/// Offset reached by moving `offset` forward by `amount`, modulo `cap`.
pub open spec fn add_mod(offset: u64, amount: u64, cap: u64) -> int
    recommends
        cap > 0,
{
    (offset + amount) % (cap as int)
}

/// Offset reached by moving `offset` back by `amount`, modulo `cap`:
/// the amount is first reduced modulo the capacity; a subtraction that
/// would underflow wraps around from the top of the buffer.
pub open spec fn sub_mod(offset: u64, amount: u64, cap: u64) -> int
    recommends
        cap > 0,
{
    let m = (amount as int) % (cap as int);
    if offset >= m {
        offset - m
    } else {
        cap - (m - offset)
    }
}

impl StackPointer {
    /// The all-zero pointer that `Default::default` builds.
    pub closed spec fn spec_default() -> StackPointer {
        StackPointer { pointer: 0, stack_size: 0 }
    }

    /// What `spec_default` holds, in terms of the public accessors.
    pub proof fn lemma_spec_default()
        ensures
            StackPointer::spec_default().spec_value() == 0,
            StackPointer::spec_default().capacity() == 0,
    {
    }

    /// The pointer `new` builds: `value` normalized modulo `stack_size`.
    pub closed spec fn spec_new(value: u64, stack_size: u64) -> StackPointer {
        StackPointer { pointer: value % stack_size, stack_size }
    }

    /// The current offset into the stack buffer.
    pub closed spec fn spec_value(&self) -> u64 {
        self.pointer
    }

    /// The capacity of the buffer this pointer addresses.
    pub closed spec fn capacity(&self) -> u64 {
        self.stack_size
    }

    /// The pointer is well formed: its offset lies inside the buffer.
    pub open spec fn inv(&self) -> bool {
        self.capacity() > 0 && self.spec_value() < self.capacity()
    }

    /// Builds a pointer at `value` normalized modulo `stack_size`.
    pub fn new(value: u64, stack_size: u64) -> (r: StackPointer)
        requires
            stack_size > 0,
        ensures
            r == StackPointer::spec_new(value, stack_size),
            r.capacity() == stack_size,
            r.spec_value() == value % stack_size,
            r.inv(),
    {
        StackPointer { pointer: value % stack_size, stack_size }
    }

    /// What `spec_new` builds, in terms of the public accessors.
    pub proof fn lemma_spec_new(value: u64, stack_size: u64)
        requires
            stack_size > 0,
        ensures
            StackPointer::spec_new(value, stack_size).spec_value() == value % stack_size,
            StackPointer::spec_new(value, stack_size).capacity() == stack_size,
            StackPointer::spec_new(value, stack_size).inv(),
    {
    }

    /// Reads the normalized offset.
    pub fn value(&self) -> (r: u64)
        ensures
            r == self.spec_value(),
    {
        self.pointer
    }

    /// Replaces the offset with `value` reduced modulo the capacity.
    pub fn set_wrapping(&mut self, value: u64)
        requires
            old(self).capacity() > 0,
        ensures
            final(self).capacity() == old(self).capacity(),
            final(self).spec_value() == value % old(self).capacity(),
            final(self).inv(),
    {
        self.pointer = value % self.stack_size;
    }

    /// Moves the pointer forward by `amount`, wrapping modulo the capacity.
    pub fn wrapping_add(self, amount: u64) -> (r: StackPointer)
        requires
            self.inv(),
        ensures
            r.capacity() == self.capacity(),
            r.spec_value() == add_mod(self.spec_value(), amount, self.capacity()),
            r.inv(),
    {
        let m: u64 = amount % self.stack_size;
        let room: u64 = self.stack_size - self.pointer;
        let p: u64 = if m < room {
            self.pointer + m
        } else {
            m - room
        };
        proof {
            lemma_wrap_add(self.pointer, amount, self.stack_size);
        }
        StackPointer { pointer: p, stack_size: self.stack_size }
    }

    /// Moves the pointer back by `amount`: the amount is reduced modulo
    /// the capacity, and a subtraction past the bottom of the buffer
    /// wraps around from the top.
    pub fn wrapping_sub(self, amount: u64) -> (r: StackPointer)
        requires
            self.inv(),
        ensures
            r.capacity() == self.capacity(),
            r.spec_value() == sub_mod(self.spec_value(), amount, self.capacity()),
            r.inv(),
    {
        let m: u64 = amount % self.stack_size;
        let p: u64 = if self.pointer >= m {
            self.pointer - m
        } else {
            self.stack_size - (m - self.pointer)
        };
        StackPointer { pointer: p, stack_size: self.stack_size }
    }
}

impl Default for StackPointer {
    /// The all-zero pointer.  Its capacity is zero, so it is not well
    /// formed; `new` or `set_register` must place it in a real buffer
    /// before any arithmetic is done on it.
    fn default() -> (r: StackPointer)
        ensures
            r == StackPointer::spec_default(),
            r.spec_value() == 0,
            r.capacity() == 0,
    {
        StackPointer { pointer: 0, stack_size: 0 }
    }
}

/// For an offset already inside the buffer, the wrap-around branch
/// computation equals the mathematical modular sum.
proof fn lemma_wrap_add(offset: u64, amount: u64, cap: u64)
    requires
        cap > 0,
        offset < cap,
    ensures
        ({
            let m = (amount as int) % (cap as int);
            let p = if m < cap - offset {
                offset + m
            } else {
                m - (cap - offset)
            };
            p == add_mod(offset, amount, cap)
        }),
{
    let c = cap as int;
    let m = (amount as int) % c;
    vstd::arithmetic::div_mod::lemma_add_mod_noop_right(offset as int, amount as int, c);
    vstd::arithmetic::div_mod::lemma_mod_bound(amount as int, c);
    if m < c - offset {
        assert((offset + m) % c == offset + m) by (nonlinear_arith)
            requires
                c > 0,
                0 <= offset + m < c,
        ;
    } else {
        assert((offset + m) % c == offset + m - c) by (nonlinear_arith)
            requires
                c > 0,
                c <= offset + m < 2 * c,
        ;
    }
}

/// A stack pointer is nothing but its offset and capacity: two pointers
/// that agree on both are equal.
pub proof fn lemma_pointer_ext_equal(a: StackPointer, b: StackPointer)
    requires
        a.spec_value() == b.spec_value(),
        a.capacity() == b.capacity(),
    ensures
        a == b,
{
}

/// The branch formula of `sub_mod` is ordinary mathematical modular
/// subtraction.
pub proof fn lemma_sub_mod_is_mod(offset: u64, amount: u64, cap: u64)
    requires
        cap > 0,
        offset < cap,
    ensures
        sub_mod(offset, amount, cap) == (offset - amount) % (cap as int),
{
    let c = cap as int;
    let m = (amount as int) % c;
    vstd::arithmetic::div_mod::lemma_sub_mod_noop_right(offset as int, amount as int, c);
    vstd::arithmetic::div_mod::lemma_mod_bound(amount as int, c);
    if offset >= m {
        vstd::arithmetic::div_mod::lemma_small_mod((offset - m) as nat, cap as nat);
    } else {
        vstd::arithmetic::div_mod::lemma_mod_add_multiples_vanish(offset - m, c);
        vstd::arithmetic::div_mod::lemma_small_mod((c + offset - m) as nat, cap as nat);
    }
}

/// Wraparound law: taking more than the current offset off a well formed
/// pointer lands at `capacity - (amount - offset)`, which is always back
/// inside the buffer, never negative or out of range.
pub proof fn lemma_sub_wraparound(p: StackPointer, amount: u64)
    requires
        p.inv(),
        p.spec_value() < amount < p.capacity(),
    ensures
        sub_mod(p.spec_value(), amount, p.capacity()) == p.capacity() - (amount - p.spec_value()),
        0 <= sub_mod(p.spec_value(), amount, p.capacity()) < p.capacity(),
{
    let c = p.capacity() as int;
    assert((amount as int) % c == amount as int) by (nonlinear_arith)
        requires
            c > 0,
            0 <= amount < c,
    ;
}

/// Stack-pointer invariant: every operation that builds or moves a
/// pointer keeps its offset inside `[0, capacity)`.  `new` establishes
/// the invariant and modular addition and subtraction preserve it, so a
/// pointer driven by any sequence of these operations stays well formed.
pub proof fn lemma_pointer_stays_in_range(p: StackPointer, amount: u64)
    requires
        p.inv(),
    ensures
        0 <= add_mod(p.spec_value(), amount, p.capacity()) < p.capacity(),
        0 <= sub_mod(p.spec_value(), amount, p.capacity()) < p.capacity(),
{
    let c = p.capacity() as int;
    lemma_wrap_add(p.spec_value(), amount, p.capacity());
    assert(0 <= (p.spec_value() + amount) % c < c) by (nonlinear_arith)
        requires
            c > 0,
    ;
    assert(0 <= (amount as int) % c < c) by (nonlinear_arith)
        requires
            c > 0,
    ;
}

} // verus!
