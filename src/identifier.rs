use vstd::prelude::*;

use crate::effect::{IdentifierData, MutableRange, ReactiveScope};
use crate::ids::{IdentifierId, InstructionId, Type};
use crate::instruction::{Identifier, IdentifierOperand};

verus! {

/// Every mutable range in `s` has its start at or before its end.
pub open spec fn ranges_ordered(s: Seq<IdentifierData>) -> bool {
    forall|i: int| 0 <= i < s.len() ==> (#[trigger] s[i]).mutable_range.wf()
}

/// `s` after a mutable use of identifier `id` at instruction `at` was seen.
pub open spec fn with_extended_range(s: Seq<IdentifierData>, id: IdentifierId, at: InstructionId) -> Seq<IdentifierData> {
    let d = s[id.0 as int];
    s.update(id.0 as int, IdentifierData { mutable_range: d.mutable_range.extended(at), ..d })
}

/// `s` after identifier `id` was put in `scope`.
pub open spec fn with_scope(s: Seq<IdentifierData>, id: IdentifierId, scope: ReactiveScope) -> Seq<IdentifierData> {
    let d = s[id.0 as int];
    s.update(id.0 as int, IdentifierData { scope: Some(scope), ..d })
}

/// The data of all identifiers of a function, each under its id. Every
/// handle (`Identifier`, `IdentifierOperand`) of one identifier reaches the
/// same entry, so an update made through one is seen through all.
pub struct IdentifierTable {
    data: Vec<IdentifierData>,
}

impl View for IdentifierTable {
    type V = Seq<IdentifierData>;

    closed spec fn view(&self) -> Seq<IdentifierData> {
        self.data@
    }
}

impl IdentifierTable {
    #[verifier::type_invariant]
    spec fn inv(self) -> bool {
        ranges_ordered(self.data@)
    }

    pub open spec fn has(&self, id: IdentifierId) -> bool {
        id.0 < self@.len()
    }

    pub fn new() -> (r: IdentifierTable)
        ensures
            r@ == Seq::<IdentifierData>::empty(),
            ranges_ordered(r@),
    {
        IdentifierTable { data: Vec::new() }
    }

    pub fn len(&self) -> (r: usize)
        ensures
            r == self@.len(),
    {
        self.data.len()
    }

    /// Introduces an identifier declared at instruction `start`: its range
    /// starts there, empty, and it has no scope yet.
    pub fn declare(&mut self, name: Option<String>, start: InstructionId, type_: Type) -> (r: Identifier)
        requires
            old(self)@.len() < u32::MAX,
        ensures
            r.id.0 == old(self)@.len(),
            r.name == name,
            final(self)@ == old(self)@.push(IdentifierData {
                mutable_range: MutableRange { start, end: start },
                scope: None,
                type_,
            }),
            ranges_ordered(final(self)@),
    {
        proof {
            use_type_invariant(&*self);
        }
        let id = IdentifierId(self.data.len() as u32);
        let entry = IdentifierData { mutable_range: MutableRange::starting_at(start), scope: None, type_ };
        let mut data = Vec::new();
        std::mem::swap(&mut data, &mut self.data);
        data.push(entry);
        self.data = data;
        proof {
            use_type_invariant(&*self);
        }
        Identifier { id, name }
    }

    /// The data of identifier `id`.
    pub fn get(&self, id: IdentifierId) -> (r: &IdentifierData)
        requires
            self.has(id),
        ensures
            *r == self@[id.0 as int],
            r.mutable_range.start.0 <= r.mutable_range.end.0,
    {
        proof {
            use_type_invariant(self);
        }
        &self.data[id.0 as usize]
    }

    /// Records a mutable use of identifier `id` at instruction `at`: its
    /// range end moves to `at` if that is later, and never back.
    pub fn extend_mutable_range(&mut self, id: IdentifierId, at: InstructionId)
        requires
            old(self).has(id),
        ensures
            final(self)@ == with_extended_range(old(self)@, id, at),
            ranges_ordered(final(self)@),
    {
        proof {
            use_type_invariant(&*self);
        }
        let mut data = Vec::new();
        std::mem::swap(&mut data, &mut self.data);
        let mut entry = data[id.0 as usize];
        entry.mutable_range.extend_to(at);
        data.set(id.0 as usize, entry);
        proof {
            assert(data@ == with_extended_range(old(self)@, id, at));
        }
        self.data = data;
        proof {
            use_type_invariant(&*self);
        }
    }

    /// Puts identifier `id` in reactive scope `scope`.
    pub fn set_scope(&mut self, id: IdentifierId, scope: ReactiveScope)
        requires
            old(self).has(id),
        ensures
            final(self)@ == with_scope(old(self)@, id, scope),
            ranges_ordered(final(self)@),
    {
        proof {
            use_type_invariant(&*self);
        }
        let mut data = Vec::new();
        std::mem::swap(&mut data, &mut self.data);
        let mut entry = data[id.0 as usize];
        entry.scope = Some(scope);
        data.set(id.0 as usize, entry);
        proof {
            assert(data@ == with_scope(old(self)@, id, scope));
        }
        self.data = data;
        proof {
            use_type_invariant(&*self);
        }
    }

}

/// Recording a mutable use never breaks the order of start and end, so
/// after any sequence of such updates every range starts at or before its end.
pub proof fn lemma_extension_keeps_ranges_ordered(s: Seq<IdentifierData>, id: IdentifierId, at: InstructionId)
    requires
        ranges_ordered(s),
        id.0 < s.len(),
    ensures
        ranges_ordered(with_extended_range(s, id, at)),
{
    assert forall|i: int| 0 <= i < s.len() implies (#[trigger] with_extended_range(s, id, at)[i]).mutable_range.wf() by {
        assert(s[i].mutable_range.wf());
    }
}

/// Two uses of one identifier see the same data: after a mutable use at
/// `at` is recorded through `a`, the range read through `b` is the extended
/// one, and no other identifier's data has changed.
pub proof fn lemma_shared_range_update(
    s: Seq<IdentifierData>,
    a: IdentifierOperand,
    b: IdentifierOperand,
    at: InstructionId,
)
    requires
        a.identifier.id == b.identifier.id,
        a.identifier.id.0 < s.len(),
    ensures
        with_extended_range(s, a.identifier.id, at)[b.identifier.id.0 as int].mutable_range
            == s[b.identifier.id.0 as int].mutable_range.extended(at),
        with_extended_range(s, a.identifier.id, at)[b.identifier.id.0 as int].mutable_range.end.0
            >= at.0,
        forall|j: int| 0 <= j < s.len() && j != a.identifier.id.0 ==> #[trigger] with_extended_range(s, a.identifier.id, at)[j] == s[j],
{
}

} // verus!
