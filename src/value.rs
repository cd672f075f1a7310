//! Runtime operands as the numeric core sees them, and the registry of user
//! overloads consulted when no native path applies.

use vstd::prelude::*;
use crate::number::{Width, signed_in_range, unsigned_in_range};
use crate::ops::{Protocol, TypeInfo};

verus! {

/// A runtime operand. A float is held as the IEEE-754 bit pattern of the
/// float type of the active width; a non-numeric value as its type's hash.
#[derive(Clone, Copy, Debug, PartialEq, Eq, Structural)]
pub enum Value {
    Signed(i64),
    Unsigned(u64),
    Float(u64),
    Bool(bool),
    Any(u64),
}

/// `v` is a value of the numeric types of width `w`.
pub open spec fn value_wf(w: Width, v: Value) -> bool {
    match v {
        Value::Signed(x) => signed_in_range(w, x as int),
        Value::Unsigned(x) => unsigned_in_range(w, x as int),
        Value::Float(x) => unsigned_in_range(w, x as int),
        _ => true,
    }
}

/// The concrete type of an operand.
pub open spec fn type_info(v: Value) -> TypeInfo {
    match v {
        Value::Signed(_) => TypeInfo::Signed,
        Value::Unsigned(_) => TypeInfo::Unsigned,
        Value::Float(_) => TypeInfo::Float,
        Value::Bool(_) => TypeInfo::Bool,
        Value::Any(h) => TypeInfo::Any(h),
    }
}

impl Value {
    /// The concrete type of this operand.
    pub fn type_info(&self) -> (r: TypeInfo)
        ensures
            r == type_info(*self),
    {
        match self {
            Value::Signed(_) => TypeInfo::Signed,
            Value::Unsigned(_) => TypeInfo::Unsigned,
            Value::Float(_) => TypeInfo::Float,
            Value::Bool(_) => TypeInfo::Bool,
            Value::Any(h) => TypeInfo::Any(*h),
        }
    }

    /// Whether this operand is a value of the numeric types of width `w`.
    pub fn fits(&self, w: Width) -> (r: bool)
        ensures
            r == value_wf(w, *self),
    {
        match (self, w) {
            (Value::Signed(x), Width::W32) => -0x8000_0000 <= *x && *x <= 0x7fff_ffff,
            (Value::Unsigned(x), Width::W32) => *x <= 0xffff_ffff,
            (Value::Float(x), Width::W32) => *x <= 0xffff_ffff,
            _ => true,
        }
    }
}

/// A registered overload: type `target` implements operator `protocol`.
#[derive(Clone, Copy, Debug, PartialEq, Eq, Structural)]
pub struct Overload {
    pub protocol: Protocol,
    pub target: TypeInfo,
}

/// The overloads that user types have registered.
pub struct Registry {
    entries: Vec<Overload>,
}

impl View for Registry {
    type V = Seq<Overload>;

    closed spec fn view(&self) -> Seq<Overload> {
        self.entries@
    }
}

/// Type `target` has an overload for operator `protocol` in `reg`.
pub open spec fn has_overload(reg: Seq<Overload>, protocol: Protocol, target: TypeInfo) -> bool {
    reg.contains(Overload { protocol, target })
}

impl Registry {
    /// A registry with no overloads.
    pub fn new() -> (r: Self)
        ensures
            r@ == Seq::<Overload>::empty(),
    {
        Registry { entries: Vec::new() }
    }

    /// Records that `target` implements `protocol`.
    pub fn register(&mut self, protocol: Protocol, target: TypeInfo)
        ensures
            final(self)@ == old(self)@.push(Overload { protocol, target }),
    {
        self.entries.push(Overload { protocol, target });
    }

    /// Whether `target` implements `protocol`.
    pub fn implements(&self, protocol: Protocol, target: TypeInfo) -> (r: bool)
        ensures
            r == has_overload(self@, protocol, target),
    {
        let wanted = Overload { protocol, target };
        let mut i: usize = 0;
        while i < self.entries.len()
            invariant
                0 <= i <= self.entries@.len(),
                wanted == (Overload { protocol, target }),
                forall|j: int| 0 <= j < i ==> self.entries@[j] != wanted,
            decreases self.entries@.len() - i,
        {
            if self.entries[i] == wanted {
                assert(self@[i as int] == wanted);
                return true;
            }
            i = i + 1;
        }
        false
    }
}

} // verus!
