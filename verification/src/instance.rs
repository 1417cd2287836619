//! The runtime semantics of a generated builder: the state every builder
//! instance moves through while it is filled field by field and then
//! finalized.
//!
//! A builder instance keeps, for each field of its definition in declaration
//! order, an absent-or-present slot.  A setter stores a value into its slot,
//! overwriting unconditionally; finalize reads the slots without consuming
//! them and either assembles the field values or reports the first field
//! still absent, by name, as a recoverable error.

use vstd::prelude::*;

use crate::generate::DefaultInstanceOp;
use crate::laws::all_absent;
use crate::laws::apply_set;

verus! {

/// Finalize was invoked while at least one field was still absent.  The
/// error names the first such field in declaration order; the caller can
/// supply it and finalize again.
#[derive(Debug)]
pub struct IncompleteBuilderError {
    pub missing_field: String,
}

/// A builder instance: one named, absent-or-present slot per field of the
/// generated builder definition, in declaration order.
pub struct BuilderState<V> {
    pub names: Vec<String>,
    pub slots: Vec<Option<V>>,
}

impl<V> BuilderState<V> {
    /// Every slot is paired with the name that finalize would report for it.
    pub open spec fn wf(&self) -> bool {
        self.names@.len() == self.slots@.len()
    }

    /// The single initial state: every field absent.
    pub open spec fn spec_empty(&self) -> bool {
        forall|i: int| 0 <= i < self.slots@.len() ==> (#[trigger] self.slots@[i]) is None
    }

    /// Completeness: every field holds a present value.  This is exactly the
    /// precondition for successful finalization.
    pub open spec fn spec_complete(&self) -> bool {
        forall|i: int| 0 <= i < self.slots@.len() ==> (#[trigger] self.slots@[i]) is Some
    }

    /// Instantiate the generated default instance expression: a builder in
    /// its initial state, every field explicitly absent.
    pub fn from_default(op: &DefaultInstanceOp) -> (b: BuilderState<V>)
        ensures
            b.wf(),
            b.spec_empty(),
            b.slots@ =~= all_absent::<V>(op.absent_fields@.len() as nat),
            b.names@.len() == op.absent_fields@.len(),
            forall|i: int|
                0 <= i < b.names@.len() ==> (#[trigger] b.names@[i])@ == op.absent_fields@[i]@,
    {
        let n = op.absent_fields.len();
        let mut names: Vec<String> = Vec::new();
        let mut slots: Vec<Option<V>> = Vec::new();
        let mut i: usize = 0;
        while i < n
            invariant
                n == op.absent_fields@.len(),
                i <= n,
                names@.len() == i as int,
                slots@.len() == i as int,
                forall|j: int|
                    0 <= j < i ==> (#[trigger] names@[j])@ == op.absent_fields@[j]@,
                forall|j: int| 0 <= j < i ==> (#[trigger] slots@[j]) is None,
            decreases n - i,
        {
            names.push(op.absent_fields[i].clone());
            slots.push(None);
            i = i + 1;
        }
        BuilderState { names, slots }
    }

    /// The generated setter for the field at position `i`: store the value,
    /// marking the field present and overwriting any previous value
    /// unconditionally, then hand the same builder reference back so that the
    /// next setter can be invoked on it.
    pub fn set(&mut self, i: usize, value: V) -> (r: &mut Self)
        requires
            i < old(self).slots@.len(),
        ensures
            r.names@ == old(self).names@,
            r.slots@ == apply_set(old(self).slots@, i as int, value),
            *final(self) == *final(r),
    {
        self.slots.set(i, Some(value));
        self
    }

    /// Whether every field is present, i.e. whether finalize would succeed.
    pub fn is_complete(&self) -> (r: bool)
        ensures
            r == self.spec_complete(),
    {
        let n = self.slots.len();
        let mut i: usize = 0;
        while i < n
            invariant
                n == self.slots@.len(),
                i <= n,
                forall|j: int| 0 <= j < i ==> (#[trigger] self.slots@[j]) is Some,
            decreases n - i,
        {
            if self.slots[i].is_none() {
                return false;
            }
            i = i + 1;
        }
        true
    }
}

impl<V: Copy> BuilderState<V> {
    /// The generated finalize operation: a pure read of the current state.
    /// From a complete builder it assembles the field values in declaration
    /// order; from an empty or partial builder it reports the first absent
    /// field by name and produces no target value.  The builder itself is
    /// left untouched, so it may be filled further and finalized again.
    pub fn build(&self) -> (r: Result<Vec<V>, IncompleteBuilderError>)
        requires
            self.wf(),
        ensures
            r is Ok <==> self.spec_complete(),
            r matches Ok(values) ==> {
                &&& values@.len() == self.slots@.len()
                &&& forall|i: int|
                    0 <= i < values@.len() ==> (#[trigger] values@[i]) == self.slots@[i]->0
            },
            r matches Err(e) ==> exists|i: int|
                {
                    &&& 0 <= i < self.slots@.len()
                    &&& (#[trigger] self.slots@[i]) is None
                    &&& (forall|j: int| 0 <= j < i ==> (#[trigger] self.slots@[j]) is Some)
                    &&& e.missing_field@ == self.names@[i]@
                },
    {
        let n = self.slots.len();
        let mut values: Vec<V> = Vec::new();
        let mut i: usize = 0;
        while i < n
            invariant
                self.wf(),
                n == self.slots@.len(),
                i <= n,
                values@.len() == i as int,
                forall|j: int| 0 <= j < i ==> (#[trigger] self.slots@[j]) is Some,
                forall|j: int|
                    0 <= j < i ==> (#[trigger] values@[j]) == self.slots@[j]->0,
            decreases n - i,
        {
            match &self.slots[i] {
                Some(value) => {
                    values.push(*value);
                },
                None => {
                    return Err(IncompleteBuilderError { missing_field: self.names[i].clone() });
                },
            }
            i = i + 1;
        }
        Ok(values)
    }
}

} // verus!
