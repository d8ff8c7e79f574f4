use vstd::prelude::*;
use vstd::arithmetic::div_mod::{lemma_add_mod_noop, lemma_mod_self_0, lemma_small_mod};

verus! {

use crate::VisError;

/// Byte width of one tape cell; it fixes the modulus of the cell's
/// wrap-around arithmetic.
#[derive(Clone, Copy, PartialEq, Eq, Structural, Debug)]
pub enum CellSize {
    Byte,
    Word,
    Dword,
    Qword,
}

impl CellSize {
    /// Width in bytes: 1, 2, 4 or 8.
    pub open spec fn bytes_spec(self) -> nat {
        match self {
            CellSize::Byte => 1,
            CellSize::Word => 2,
            CellSize::Dword => 4,
            CellSize::Qword => 8,
        }
    }

    /// The modulus of a cell of this width, `2^(8 * bytes)`: every cell value
    /// lives in `[0, modulus)`.
    pub open spec fn modulus(self) -> nat {
        match self {
            CellSize::Byte => 0x100,
            CellSize::Word => 0x1_0000,
            CellSize::Dword => 0x1_0000_0000,
            CellSize::Qword => 0x1_0000_0000_0000_0000,
        }
    }

    pub fn bytes(self) -> (b: u64)
        ensures
            b == self.bytes_spec(),
    {
        match self {
            CellSize::Byte => 1,
            CellSize::Word => 2,
            CellSize::Dword => 4,
            CellSize::Qword => 8,
        }
    }

    /// Largest value a cell of this width can hold, `modulus - 1`.
    pub fn max_value(self) -> (m: u64)
        ensures
            m as nat == self.modulus() - 1,
    {
        match self {
            CellSize::Byte => 0xFF,
            CellSize::Word => 0xFFFF,
            CellSize::Dword => 0xFFFF_FFFF,
            CellSize::Qword => 0xFFFF_FFFF_FFFF_FFFF,
        }
    }
}

/// One increment with silent wrap-around: `(v + 1) mod m`, for `v < m`.
pub open spec fn wrap_inc(v: nat, m: nat) -> nat {
    if v + 1 == m {
        0
    } else {
        v + 1
    }
}

/// One decrement with silent wrap-around: `(v - 1) mod m`, for `v < m`.
pub open spec fn wrap_dec(v: nat, m: nat) -> nat {
    if v == 0 {
        (m - 1) as nat
    } else {
        (v - 1) as nat
    }
}

/// `k` increments in a row, each with wrap-around.
pub open spec fn iter_inc(v: nat, m: nat, k: nat) -> nat
    decreases k,
{
    if k == 0 {
        v
    } else {
        wrap_inc(iter_inc(v, m, (k - 1) as nat), m)
    }
}

/// Law: for every cell width and every current value, one increment followed
/// by one decrement restores the value, and so does the opposite order.
pub proof fn lemma_inc_dec_round_trip(w: CellSize, v: nat)
    requires
        v < w.modulus(),
    ensures
        wrap_dec(wrap_inc(v, w.modulus()), w.modulus()) == v,
        wrap_inc(wrap_dec(v, w.modulus()), w.modulus()) == v,
{
}

/// `k` wrapping increments amount to adding `k` modulo `m`.
proof fn lemma_iter_inc_mod(v: nat, m: nat, k: nat)
    requires
        v < m,
        2 <= m,
    ensures
        iter_inc(v, m, k) == ((v + k) as int) % (m as int),
    decreases k,
{
    if k == 0 {
        lemma_small_mod(v, m);
    } else {
        lemma_iter_inc_mod(v, m, (k - 1) as nat);
        let u = iter_inc(v, m, (k - 1) as nat);
        lemma_add_mod_noop((v + k - 1) as int, 1, m as int);
        lemma_small_mod(1, m);
        if u + 1 == m {
            lemma_mod_self_0(m as int);
        } else {
            lemma_small_mod((u + 1) as nat, m);
        }
    }
}

/// Law: for every cell width, applying the wrapping increment
/// `2^(8 * bytes)` times returns a cell to its original value.
pub proof fn lemma_inc_full_cycle(w: CellSize, v: nat)
    requires
        v < w.modulus(),
    ensures
        iter_inc(v, w.modulus(), w.modulus()) == v,
{
    let m = w.modulus();
    lemma_iter_inc_mod(v, m, m);
    lemma_add_mod_noop(v as int, m as int, m as int);
    lemma_mod_self_0(m as int);
    lemma_small_mod(v, m);
}

/// An unsigned cell value that can be shown as a decimal label.
pub trait Unsigned {
    /// The number the label shows.
    spec fn val(&self) -> nat;

    fn print(&self) -> (r: usize)
        ensures
            r as nat == self.val(),
    ;
}

impl Unsigned for u8 {
    open spec fn val(&self) -> nat {
        *self as nat
    }

    fn print(&self) -> (r: usize) {
        *self as usize
    }
}

impl Unsigned for u16 {
    open spec fn val(&self) -> nat {
        *self as nat
    }

    fn print(&self) -> (r: usize) {
        *self as usize
    }
}

impl Unsigned for u32 {
    open spec fn val(&self) -> nat {
        *self as nat
    }

    fn print(&self) -> (r: usize) {
        *self as usize
    }
}

impl Unsigned for u64 {
    /// On a surface whose word is narrower than 8 bytes the label is the
    /// value truncated to the word, exactly as the `as usize` cast leaves it.
    open spec fn val(&self) -> nat {
        (*self as usize) as nat
    }

    fn print(&self) -> (r: usize) {
        *self as usize
    }
}

impl Unsigned for usize {
    open spec fn val(&self) -> nat {
        *self as nat
    }

    fn print(&self) -> (r: usize) {
        *self
    }
}

/// A named fixed-size array of unsigned cells plus a pointer into it.
#[derive(Debug, Clone)]
pub struct TapeArr {
    pub name: String,
    pub pointer: usize,
    pub size: CellSize,
    pub vec: Vec<u64>,
}

impl TapeArr {
    /// The tape invariant: at least one cell, the pointer inside the tape,
    /// every cell value below the width's modulus.
    pub open spec fn wf(self) -> bool {
        &&& self.vec.len() > 0
        &&& self.pointer < self.vec.len()
        &&& forall|i: int|
            0 <= i < self.vec.len() ==> ((#[trigger] self.vec[i]) as nat) < self.size.modulus()
    }

    /// A fresh tape: all cells zero, pointer on cell 0. Refused when it would
    /// have no cells.
    pub fn new(name: String, size: CellSize, count: usize) -> (r: Result<TapeArr, VisError>)
        ensures
            r is Ok <==> count > 0,
            r matches Err(e) ==> e == VisError::ZeroCellCount,
            r matches Ok(t) ==> {
                &&& t.wf()
                &&& t.name == name
                &&& t.pointer == 0
                &&& t.size == size
                &&& t.vec.len() == count
                &&& forall|i: int| 0 <= i < count ==> (#[trigger] t.vec[i]) == 0
            },
    {
        if count == 0 {
            return Err(VisError::ZeroCellCount);
        }
        let mut vec: Vec<u64> = Vec::new();
        let mut i: usize = 0;
        while i < count
            invariant
                i <= count,
                vec.len() == i,
                forall|j: int| 0 <= j < i ==> (#[trigger] vec[j]) == 0,
            decreases count - i,
        {
            vec.push(0);
            i += 1;
        }
        Ok(TapeArr { name, pointer: 0, size, vec })
    }

    /// `cells[cell] := (cells[cell] + 1) mod modulus`; always succeeds, the
    /// overflow wraps silently. No other field changes.
    pub fn increment_cell(&mut self, cell: usize)
        requires
            old(self).wf(),
            cell < old(self).vec.len(),
        ensures
            final(self).wf(),
            final(self).vec.len() == old(self).vec.len(),
            final(self).vec[cell as int] as nat == wrap_inc(
                old(self).vec[cell as int] as nat,
                old(self).size.modulus(),
            ),
            forall|i: int|
                0 <= i < old(self).vec.len() && i != cell ==> final(self).vec[i] == old(
                    self,
                ).vec[i],
            final(self).pointer == old(self).pointer,
            final(self).size == old(self).size,
            final(self).name == old(self).name,
    {
        let max = self.size.max_value();
        let v = self.vec[cell];
        if v == max {
            self.vec.set(cell, 0);
        } else {
            self.vec.set(cell, v + 1);
        }
    }

    /// `cells[cell] := (cells[cell] - 1) mod modulus`; the wrap at zero is
    /// symmetric to the increment's. No other field changes.
    pub fn decrement_cell(&mut self, cell: usize)
        requires
            old(self).wf(),
            cell < old(self).vec.len(),
        ensures
            final(self).wf(),
            final(self).vec.len() == old(self).vec.len(),
            final(self).vec[cell as int] as nat == wrap_dec(
                old(self).vec[cell as int] as nat,
                old(self).size.modulus(),
            ),
            forall|i: int|
                0 <= i < old(self).vec.len() && i != cell ==> final(self).vec[i] == old(
                    self,
                ).vec[i],
            final(self).pointer == old(self).pointer,
            final(self).size == old(self).size,
            final(self).name == old(self).name,
    {
        let v = self.vec[cell];
        if v == 0 {
            let max = self.size.max_value();
            self.vec.set(cell, max);
        } else {
            self.vec.set(cell, v - 1);
        }
    }

    /// Move the pointer by `delta`. A move that would leave `[0, cellCount)`
    /// is refused with `OutOfRange` and changes nothing; wrap-around of the
    /// index is never performed.
    pub fn move_pointer(&mut self, delta: i64) -> (r: Result<(), VisError>)
        requires
            old(self).wf(),
        ensures
            final(self).wf(),
            final(self).vec == old(self).vec,
            final(self).size == old(self).size,
            final(self).name == old(self).name,
            r is Ok <==> 0 <= old(self).pointer + delta < old(self).vec.len(),
            r is Ok ==> final(self).pointer == old(self).pointer + delta,
            r matches Err(e) ==> e == VisError::OutOfRange && final(self).pointer == old(
                self,
            ).pointer,
    {
        if delta >= 0 {
            let d = delta as u128;
            let p = self.pointer as u128;
            let l = self.vec.len() as u128;
            if p + d < l {
                self.pointer = self.pointer + delta as usize;
                Ok(())
            } else {
                Err(VisError::OutOfRange)
            }
        } else {
            let d = (-(delta as i128)) as u128;
            let p = self.pointer as u128;
            if d <= p {
                self.pointer = self.pointer - d as usize;
                Ok(())
            } else {
                Err(VisError::OutOfRange)
            }
        }
    }
}

} // verus!
