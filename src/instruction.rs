use vstd::prelude::*;

use crate::effect::{Effect, InstructionKind};
use crate::function::Function;
use crate::ids::{IdentifierId, InstrIx, InstructionId};
use crate::value::{BinaryOperator, JsValue};

verus! {

/// A logical variable. Its mutable data lives in an `IdentifierTable`
/// under `id`, so every handle with the same id sees the same data.
#[derive(Clone, Debug)]
pub struct Identifier {
    /// Uniquely identifies this identifier.
    pub id: IdentifierId,
    /// Name for diagnostics; never used for equality.
    pub name: Option<String>,
}

/// A use of an identifier at one instruction, with its effect.
#[derive(Clone, Debug)]
pub struct IdentifierOperand {
    pub identifier: Identifier,
    pub effect: Option<Effect>,
}

/// A use of the result of an earlier instruction, with its effect.
#[derive(Clone, Copy, PartialEq, Eq, Structural, Debug)]
pub struct Operand {
    pub ix: InstrIx,
    pub effect: Option<Effect>,
}

/// The identifier that an instruction declares or assigns.
#[derive(Debug)]
pub struct LValue {
    pub identifier: IdentifierOperand,
    pub kind: InstructionKind,
}

#[derive(Clone, Copy, PartialEq, Eq, Structural, Debug)]
pub enum PlaceOrSpread {
    Place(Operand),
    Spread(Operand),
}

impl PlaceOrSpread {
    pub open spec fn operand(self) -> Operand {
        match self {
            PlaceOrSpread::Place(o) => o,
            PlaceOrSpread::Spread(o) => o,
        }
    }

    /// The same kind of element, holding `o`.
    pub open spec fn with_operand(self, o: Operand) -> PlaceOrSpread {
        match self {
            PlaceOrSpread::Place(_) => PlaceOrSpread::Place(o),
            PlaceOrSpread::Spread(_) => PlaceOrSpread::Spread(o),
        }
    }
}

#[derive(Debug)]
pub struct Array {
    /// `None` is an elided element.
    pub elements: Vec<Option<PlaceOrSpread>>,
}

#[derive(Debug)]
pub struct Binary {
    pub left: Operand,
    pub operator: BinaryOperator,
    pub right: Operand,
}

#[derive(Debug)]
pub struct Call {
    pub callee: Operand,
    pub arguments: Vec<PlaceOrSpread>,
}

#[derive(Debug)]
pub struct FunctionExpression {
    pub dependencies: Vec<Operand>,
    pub lowered_function: Box<Function>,
}

#[derive(Debug, Clone, PartialEq, Eq)]
pub struct Primitive {
    pub value: JsValue,
}

#[derive(Debug)]
pub struct LoadLocal {
    pub place: IdentifierOperand,
}

#[derive(Debug)]
pub struct LoadContext {
    pub place: Operand,
}

#[derive(Debug, PartialEq, Eq, Clone)]
pub struct LoadGlobal {
    pub name: String,
}

#[derive(Debug)]
pub struct DeclareLocal {
    pub lvalue: LValue,
}

/// Declares a variable captured by a closure; its kind is always `Let`.
#[derive(Debug)]
pub struct DeclareContext {
    pub lvalue: LValue,
}

#[derive(Debug)]
pub struct StoreLocal {
    pub lvalue: LValue,
    pub value: Operand,
}

#[derive(Debug)]
pub struct JSXElement {
    pub tag: Operand,
    pub props: Vec<JSXAttribute>,
    pub children: Option<Vec<Operand>>,
}

#[derive(Debug)]
pub enum JSXAttribute {
    Spread { argument: Operand },
    Attribute { name: String, value: Operand },
}

impl JSXAttribute {
    pub open spec fn operand(&self) -> Operand {
        match self {
            JSXAttribute::Spread { argument } => *argument,
            JSXAttribute::Attribute { name: _, value } => *value,
        }
    }

    /// The same attribute, holding `o`.
    pub open spec fn with_operand(&self, o: Operand) -> JSXAttribute {
        match self {
            JSXAttribute::Spread { argument: _ } => JSXAttribute::Spread { argument: o },
            JSXAttribute::Attribute { name, value: _ } => JSXAttribute::Attribute { name: *name, value: o },
        }
    }
}

#[derive(Debug)]
pub enum InstructionValue {
    Array(Array),
    Binary(Binary),
    Call(Call),
    DeclareContext(DeclareContext),
    DeclareLocal(DeclareLocal),
    Function(FunctionExpression),
    JSXElement(JSXElement),
    LoadContext(LoadContext),
    LoadGlobal(LoadGlobal),
    LoadLocal(LoadLocal),
    Primitive(Primitive),
    StoreLocal(StoreLocal),
    /// A removed instruction, kept so that indices stay stable.
    Tombstone,
}

#[derive(Debug)]
pub struct Instruction {
    pub id: InstructionId,
    pub value: InstructionValue,
}

/// The operands of an array's elements, in order, skipping holes.
pub open spec fn element_operands(s: Seq<Option<PlaceOrSpread>>) -> Seq<Operand>
    decreases s.len(),
{
    if s.len() == 0 {
        Seq::empty()
    } else {
        element_operands(s.drop_last()) + match s.last() {
            Some(p) => seq![p.operand()],
            None => Seq::empty(),
        }
    }
}

/// Each of `b` is what `f` may return for the operand at the same place in `a`.
pub open spec fn ops_rewritten<F: Fn(Operand) -> Operand>(f: F, a: Seq<Operand>, b: Seq<Operand>) -> bool {
    &&& a.len() == b.len()
    &&& forall|k: int| 0 <= k < a.len() ==> call_ensures(f, (a[k],), #[trigger] b[k])
}

/// Element `b` is element `a` with its operand, if any, replaced by a result of `f`.
pub open spec fn slot_rewritten<F: Fn(Operand) -> Operand>(
    f: F,
    a: Option<PlaceOrSpread>,
    b: Option<PlaceOrSpread>,
) -> bool {
    match a {
        None => b is None,
        Some(p) => b is Some && b.unwrap() == p.with_operand(b.unwrap().operand())
            && call_ensures(f, (p.operand(),), b.unwrap().operand()),
    }
}

pub proof fn lemma_ops_rewritten_concat<F: Fn(Operand) -> Operand>(
    f: F,
    a1: Seq<Operand>,
    b1: Seq<Operand>,
    a2: Seq<Operand>,
    b2: Seq<Operand>,
)
    requires
        ops_rewritten(f, a1, b1),
        ops_rewritten(f, a2, b2),
    ensures
        ops_rewritten(f, a1 + a2, b1 + b2),
{
    assert forall|k: int| 0 <= k < (a1 + a2).len() implies call_ensures(f, ((a1 + a2)[k],), #[trigger] (b1 + b2)[k]) by {
        if k >= a1.len() {
            assert(call_ensures(f, (a2[k - a1.len()],), b2[k - a1.len()]));
        }
    }
}

proof fn lemma_elements_rewritten<F: Fn(Operand) -> Operand>(
    f: F,
    a: Seq<Option<PlaceOrSpread>>,
    b: Seq<Option<PlaceOrSpread>>,
)
    requires
        a.len() == b.len(),
        forall|i: int| 0 <= i < a.len() ==> slot_rewritten(f, a[i], b[i]),
    ensures
        ops_rewritten(f, element_operands(a), element_operands(b)),
    decreases a.len(),
{
    if a.len() > 0 {
        lemma_elements_rewritten(f, a.drop_last(), b.drop_last());
        let ta: Seq<Operand> = match a.last() {
            Some(p) => seq![p.operand()],
            None => Seq::empty(),
        };
        let tb: Seq<Operand> = match b.last() {
            Some(p) => seq![p.operand()],
            None => Seq::empty(),
        };
        assert(slot_rewritten(f, a[a.len() - 1], b[b.len() - 1]));
        assert(ops_rewritten(f, ta, tb));
        lemma_ops_rewritten_concat(f, element_operands(a.drop_last()), element_operands(b.drop_last()), ta, tb);
    }
}

pub open spec fn children_operands(c: Option<Vec<Operand>>) -> Seq<Operand> {
    match c {
        Some(v) => v@,
        None => Seq::empty(),
    }
}

impl InstructionValue {
    /// Every operand use of the instruction, in evaluation order.
    pub open spec fn operands(&self) -> Seq<Operand> {
        match self {
            InstructionValue::Array(a) => element_operands(a.elements@),
            InstructionValue::Binary(b) => seq![b.left, b.right],
            InstructionValue::Call(c) => seq![c.callee] + c.arguments@.map_values(|p: PlaceOrSpread| p.operand()),
            InstructionValue::StoreLocal(s) => seq![s.value],
            InstructionValue::Function(e) => e.dependencies@,
            InstructionValue::JSXElement(j) => seq![j.tag] + j.props@.map_values(|a: JSXAttribute| a.operand())
                + children_operands(j.children),
            _ => Seq::empty(),
        }
    }

    /// `other` is this value with some of its operands replaced and
    /// nothing else changed.
    pub open spec fn same_but_operands(&self, other: &InstructionValue) -> bool {
        match (self, other) {
            (InstructionValue::Array(x), InstructionValue::Array(y)) => {
                &&& x.elements@.len() == y.elements@.len()
                &&& forall|i: int| 0 <= i < x.elements@.len() ==> match (#[trigger] x.elements@[i], y.elements@[i]) {
                    (None, None) => true,
                    (Some(p), Some(q)) => q == p.with_operand(q.operand()),
                    _ => false,
                }
            },
            (InstructionValue::Binary(x), InstructionValue::Binary(y)) => x.operator == y.operator,
            (InstructionValue::Call(x), InstructionValue::Call(y)) => {
                &&& x.arguments@.len() == y.arguments@.len()
                &&& forall|i: int| 0 <= i < x.arguments@.len()
                    ==> #[trigger] y.arguments@[i] == x.arguments@[i].with_operand(y.arguments@[i].operand())
            },
            (InstructionValue::Function(x), InstructionValue::Function(y)) => {
                &&& x.dependencies@.len() == y.dependencies@.len()
                &&& x.lowered_function == y.lowered_function
            },
            (InstructionValue::JSXElement(x), InstructionValue::JSXElement(y)) => {
                &&& x.props@.len() == y.props@.len()
                &&& forall|i: int| 0 <= i < x.props@.len()
                    ==> #[trigger] y.props@[i] == x.props@[i].with_operand(y.props@[i].operand())
                &&& x.children is Some <==> y.children is Some
                &&& children_operands(x.children).len() == children_operands(y.children).len()
            },
            (InstructionValue::StoreLocal(x), InstructionValue::StoreLocal(y)) => x.lvalue == y.lvalue,
            _ => *self == *other,
        }
    }
}

fn rewrite_elements<F: Fn(Operand) -> Operand>(v: &mut Vec<Option<PlaceOrSpread>>, f: &F)
    requires
        forall|o: Operand| call_requires(*f, (o,)),
    ensures
        final(v)@.len() == old(v)@.len(),
        forall|i: int| 0 <= i < old(v)@.len() ==> slot_rewritten(*f, old(v)@[i], #[trigger] final(v)@[i]),
{
    let ghost start = v@;
    let mut i: usize = 0;
    while i < v.len()
        invariant
            forall|o: Operand| call_requires(*f, (o,)),
            v@.len() == start.len(),
            0 <= i <= v@.len(),
            forall|k: int| 0 <= k < i ==> slot_rewritten(*f, start[k], #[trigger] v@[k]),
            forall|k: int| i <= k < v@.len() ==> #[trigger] v@[k] == start[k],
        decreases v@.len() - i,
    {
        let next = match v[i] {
            Some(PlaceOrSpread::Place(o)) => Some(PlaceOrSpread::Place(f(o))),
            Some(PlaceOrSpread::Spread(o)) => Some(PlaceOrSpread::Spread(f(o))),
            None => None,
        };
        v.set(i, next);
        i += 1;
    }
}

fn rewrite_arguments<F: Fn(Operand) -> Operand>(v: &mut Vec<PlaceOrSpread>, f: &F)
    requires
        forall|o: Operand| call_requires(*f, (o,)),
    ensures
        final(v)@.len() == old(v)@.len(),
        forall|i: int| 0 <= i < old(v)@.len() ==> #[trigger] final(v)@[i] == old(v)@[i].with_operand(final(v)@[i].operand()),
        ops_rewritten(*f, old(v)@.map_values(|p: PlaceOrSpread| p.operand()), final(v)@.map_values(|p: PlaceOrSpread| p.operand())),
{
    let ghost start = v@;
    let mut i: usize = 0;
    while i < v.len()
        invariant
            forall|o: Operand| call_requires(*f, (o,)),
            v@.len() == start.len(),
            0 <= i <= v@.len(),
            forall|k: int| 0 <= k < i ==> #[trigger] v@[k] == start[k].with_operand(v@[k].operand()),
            forall|k: int| 0 <= k < i ==> call_ensures(*f, (start[k].operand(),), #[trigger] v@[k].operand()),
            forall|k: int| i <= k < v@.len() ==> #[trigger] v@[k] == start[k],
        decreases v@.len() - i,
    {
        let next = match v[i] {
            PlaceOrSpread::Place(o) => PlaceOrSpread::Place(f(o)),
            PlaceOrSpread::Spread(o) => PlaceOrSpread::Spread(f(o)),
        };
        v.set(i, next);
        i += 1;
    }
    proof {
        let a = start.map_values(|p: PlaceOrSpread| p.operand());
        let b = v@.map_values(|p: PlaceOrSpread| p.operand());
        assert forall|k: int| 0 <= k < a.len() implies call_ensures(*f, (a[k],), #[trigger] b[k]) by {
            assert(call_ensures(*f, (start[k].operand(),), v@[k].operand()));
        }
    }
}

fn rewrite_operands<F: Fn(Operand) -> Operand>(v: &mut Vec<Operand>, f: &F)
    requires
        forall|o: Operand| call_requires(*f, (o,)),
    ensures
        ops_rewritten(*f, old(v)@, final(v)@),
{
    let ghost start = v@;
    let mut i: usize = 0;
    while i < v.len()
        invariant
            forall|o: Operand| call_requires(*f, (o,)),
            v@.len() == start.len(),
            0 <= i <= v@.len(),
            forall|k: int| 0 <= k < i ==> call_ensures(*f, (start[k],), #[trigger] v@[k]),
            forall|k: int| i <= k < v@.len() ==> #[trigger] v@[k] == start[k],
        decreases v@.len() - i,
    {
        let next = f(v[i]);
        v.set(i, next);
        i += 1;
    }
}

fn rewrite_props<F: Fn(Operand) -> Operand>(v: &mut Vec<JSXAttribute>, f: &F)
    requires
        forall|o: Operand| call_requires(*f, (o,)),
    ensures
        final(v)@.len() == old(v)@.len(),
        forall|i: int| 0 <= i < old(v)@.len() ==> #[trigger] final(v)@[i] == old(v)@[i].with_operand(final(v)@[i].operand()),
        ops_rewritten(*f, old(v)@.map_values(|a: JSXAttribute| a.operand()), final(v)@.map_values(|a: JSXAttribute| a.operand())),
{
    let ghost start = v@;
    let mut i: usize = 0;
    while i < v.len()
        invariant
            forall|o: Operand| call_requires(*f, (o,)),
            v@.len() == start.len(),
            0 <= i <= v@.len(),
            forall|k: int| 0 <= k < i ==> #[trigger] v@[k] == start[k].with_operand(v@[k].operand()),
            forall|k: int| 0 <= k < i ==> call_ensures(*f, (start[k].operand(),), #[trigger] v@[k].operand()),
            forall|k: int| i <= k < v@.len() ==> #[trigger] v@[k] == start[k],
        decreases v@.len() - i,
    {
        let next = match &v[i] {
            JSXAttribute::Spread { argument } => JSXAttribute::Spread { argument: f(*argument) },
            JSXAttribute::Attribute { name, value } => JSXAttribute::Attribute { name: name.clone(), value: f(*value) },
        };
        v.set(i, next);
        i += 1;
    }
    proof {
        let a = start.map_values(|x: JSXAttribute| x.operand());
        let b = v@.map_values(|x: JSXAttribute| x.operand());
        assert forall|k: int| 0 <= k < a.len() implies call_ensures(*f, (a[k],), #[trigger] b[k]) by {
            assert(call_ensures(*f, (start[k].operand(),), v@[k].operand()));
        }
    }
}

impl InstructionValue {
    /// The lvalue that the instruction declares or assigns, if any.
    pub open spec fn store_target(&self) -> Option<LValue> {
        match self {
            InstructionValue::DeclareContext(d) => Some(d.lvalue),
            InstructionValue::DeclareLocal(d) => Some(d.lvalue),
            InstructionValue::StoreLocal(s) => Some(s.lvalue),
            _ => None,
        }
    }

    /// This value with its store target, if it has one, replaced by `lvalue`.
    pub open spec fn with_store_target(&self, lvalue: LValue) -> InstructionValue {
        match self {
            InstructionValue::DeclareContext(_) => InstructionValue::DeclareContext(DeclareContext { lvalue }),
            InstructionValue::DeclareLocal(_) => InstructionValue::DeclareLocal(DeclareLocal { lvalue }),
            InstructionValue::StoreLocal(s) => InstructionValue::StoreLocal(StoreLocal { lvalue, value: s.value }),
            _ => *self,
        }
    }

    /// The identifier that the instruction loads directly, if any.
    pub open spec fn load_source(&self) -> Option<IdentifierOperand> {
        match self {
            InstructionValue::LoadLocal(l) => Some(l.place),
            _ => None,
        }
    }
}

impl Instruction {
    /// Hands the lvalue that the instruction declares or assigns, if any, to
    /// `f` and puts what `f` returns in its place.
    pub fn each_identifier_store<F: Fn(&LValue) -> LValue>(&mut self, f: F)
        requires
            forall|l: LValue| call_requires(f, (&l,)),
        ensures
            final(self).id == old(self).id,
            old(self).value.store_target() is None ==> final(self).value == old(self).value,
            old(self).value.store_target() is Some ==> {
                &&& final(self).value.store_target() is Some
                &&& call_ensures(f, (&old(self).value.store_target().unwrap(),), final(self).value.store_target().unwrap())
                &&& final(self).value == old(self).value.with_store_target(final(self).value.store_target().unwrap())
            },
    {
        match &mut self.value {
            InstructionValue::DeclareContext(instr) => {
                instr.lvalue = f(&instr.lvalue);
            },
            InstructionValue::DeclareLocal(instr) => {
                instr.lvalue = f(&instr.lvalue);
            },
            InstructionValue::StoreLocal(instr) => {
                instr.lvalue = f(&instr.lvalue);
            },
            InstructionValue::Array(_)
            | InstructionValue::Binary(_)
            | InstructionValue::Call(_)
            | InstructionValue::LoadContext(_)
            | InstructionValue::LoadGlobal(_)
            | InstructionValue::LoadLocal(_)
            | InstructionValue::Primitive(_)
            | InstructionValue::Function(_)
            | InstructionValue::JSXElement(_)
            | InstructionValue::Tombstone => {},
        }
    }

    /// As `each_identifier_store`, for a visitor that may fail: on an error
    /// the lvalue is left as it was and the error is returned.
    pub fn try_each_identifier_store<F: Fn(&LValue) -> Result<LValue, E>, E>(&mut self, f: F) -> (r: Result<(), E>)
        requires
            forall|l: LValue| call_requires(f, (&l,)),
        ensures
            final(self).id == old(self).id,
            old(self).value.store_target() is None ==> r is Ok && final(self).value == old(self).value,
            old(self).value.store_target() is Some && r is Ok ==> {
                &&& final(self).value.store_target() is Some
                &&& call_ensures(f, (&old(self).value.store_target().unwrap(),), Ok(final(self).value.store_target().unwrap()))
                &&& final(self).value == old(self).value.with_store_target(final(self).value.store_target().unwrap())
            },
            old(self).value.store_target() is Some && r is Err ==> {
                &&& call_ensures(f, (&old(self).value.store_target().unwrap(),), Err(r->Err_0))
                &&& final(self).value == old(self).value
            },
    {
        match &mut self.value {
            InstructionValue::DeclareContext(instr) => {
                match f(&instr.lvalue) {
                    Ok(lvalue) => instr.lvalue = lvalue,
                    Err(e) => return Err(e),
                }
            },
            InstructionValue::DeclareLocal(instr) => {
                match f(&instr.lvalue) {
                    Ok(lvalue) => instr.lvalue = lvalue,
                    Err(e) => return Err(e),
                }
            },
            InstructionValue::StoreLocal(instr) => {
                match f(&instr.lvalue) {
                    Ok(lvalue) => instr.lvalue = lvalue,
                    Err(e) => return Err(e),
                }
            },
            InstructionValue::Array(_)
            | InstructionValue::Binary(_)
            | InstructionValue::Call(_)
            | InstructionValue::LoadContext(_)
            | InstructionValue::LoadGlobal(_)
            | InstructionValue::LoadLocal(_)
            | InstructionValue::Primitive(_)
            | InstructionValue::Function(_)
            | InstructionValue::JSXElement(_)
            | InstructionValue::Tombstone => {},
        }
        Ok(())
    }

    /// Hands the identifier that the instruction loads directly (a
    /// `LoadLocal`), if any, to `f` and puts what `f` returns in its place.
    /// Uses of earlier results are operands, not identifier loads.
    pub fn each_identifier_load<F: Fn(&IdentifierOperand) -> IdentifierOperand>(&mut self, f: F)
        requires
            forall|p: IdentifierOperand| call_requires(f, (&p,)),
        ensures
            final(self).id == old(self).id,
            old(self).value.load_source() is None ==> final(self).value == old(self).value,
            old(self).value.load_source() is Some ==> {
                &&& final(self).value.load_source() is Some
                &&& call_ensures(f, (&old(self).value.load_source().unwrap(),), final(self).value.load_source().unwrap())
                &&& final(self).value == InstructionValue::LoadLocal(LoadLocal { place: final(self).value.load_source().unwrap() })
            },
    {
        match &mut self.value {
            InstructionValue::LoadLocal(instr) => {
                instr.place = f(&instr.place);
            },
            InstructionValue::Array(_)
            | InstructionValue::Binary(_)
            | InstructionValue::Call(_)
            | InstructionValue::DeclareContext(_)
            | InstructionValue::DeclareLocal(_)
            | InstructionValue::LoadContext(_)
            | InstructionValue::LoadGlobal(_)
            | InstructionValue::Primitive(_)
            | InstructionValue::StoreLocal(_)
            | InstructionValue::Function(_)
            | InstructionValue::JSXElement(_)
            | InstructionValue::Tombstone => {},
        }
    }

    /// Hands each operand use of the instruction to `f`, in evaluation order
    /// (array elements skipping holes; left then right; callee then
    /// arguments; the stored value; function dependencies; JSX tag, then
    /// attributes, then children), and puts what `f` returns in its place.
    pub fn each_operand<F: Fn(Operand) -> Operand>(&mut self, f: F)
        requires
            forall|o: Operand| call_requires(f, (o,)),
        ensures
            final(self).id == old(self).id,
            old(self).value.same_but_operands(&final(self).value),
            ops_rewritten(f, old(self).value.operands(), final(self).value.operands()),
    {
        let ghost before = self.value.operands();
        match &mut self.value {
            InstructionValue::Array(value) => {
                rewrite_elements(&mut value.elements, &f);
                proof {
                    lemma_elements_rewritten(f, old(self).value->Array_0.elements@, value.elements@);
                }
            },
            InstructionValue::Binary(value) => {
                value.left = f(value.left);
                value.right = f(value.right);
                proof {
                    assert(ops_rewritten(f, before, seq![value.left, value.right]));
                }
            },
            InstructionValue::Call(value) => {
                let ghost c0 = value.callee;
                value.callee = f(value.callee);
                let ghost args0 = value.arguments@;
                rewrite_arguments(&mut value.arguments, &f);
                proof {
                    assert(ops_rewritten(f, seq![c0], seq![value.callee]));
                    lemma_ops_rewritten_concat(f, seq![c0], seq![value.callee],
                        args0.map_values(|p: PlaceOrSpread| p.operand()),
                        value.arguments@.map_values(|p: PlaceOrSpread| p.operand()));
                }
            },
            InstructionValue::StoreLocal(value) => {
                value.value = f(value.value);
                proof {
                    assert(ops_rewritten(f, before, seq![value.value]));
                }
            },
            InstructionValue::Function(value) => {
                rewrite_operands(&mut value.dependencies, &f);
            },
            InstructionValue::JSXElement(value) => {
                let ghost t0 = value.tag;
                value.tag = f(value.tag);
                let ghost props0 = value.props@;
                rewrite_props(&mut value.props, &f);
                let ghost ch0 = children_operands(value.children);
                match &mut value.children {
                    Some(children) => {
                        rewrite_operands(children, &f);
                    },
                    None => {},
                }
                proof {
                    assert(ops_rewritten(f, seq![t0], seq![value.tag]));
                    let pa = props0.map_values(|a: JSXAttribute| a.operand());
                    let pb = value.props@.map_values(|a: JSXAttribute| a.operand());
                    lemma_ops_rewritten_concat(f, seq![t0], seq![value.tag], pa, pb);
                    assert(ops_rewritten(f, ch0, children_operands(value.children)));
                    lemma_ops_rewritten_concat(f, seq![t0] + pa, seq![value.tag] + pb, ch0,
                        children_operands(value.children));
                }
            },
            InstructionValue::DeclareContext(_)
            | InstructionValue::LoadContext(_)
            | InstructionValue::LoadGlobal(_)
            | InstructionValue::DeclareLocal(_)
            | InstructionValue::LoadLocal(_)
            | InstructionValue::Primitive(_)
            | InstructionValue::Tombstone => {},
        }
    }
}

/// A binary expression has exactly two operand uses: its left operand, then
/// its right one.
pub proof fn lemma_binary_operands(left: Operand, operator: BinaryOperator, right: Operand)
    ensures
        InstructionValue::Binary(Binary { left, operator, right }).operands() == seq![left, right],
{
}

/// An array `[a, , ...b]` has exactly the operand uses `a` and `b`, in that
/// order: the hole contributes none.
pub proof fn lemma_array_skips_holes(v: InstructionValue, a: Operand, b: Operand)
    requires
        v is Array,
        v->Array_0.elements@ == seq![Some(PlaceOrSpread::Place(a)), None, Some(PlaceOrSpread::Spread(b))],
    ensures
        v.operands() == seq![a, b],
{
    let s = v->Array_0.elements@;
    let s1 = s.drop_last().drop_last();
    assert(s1 =~= seq![Some(PlaceOrSpread::Place(a))]);
    assert(s1.drop_last().len() == 0);
    assert(element_operands(s1.drop_last()) == Seq::<Operand>::empty());
    assert(s1.last() == Some(PlaceOrSpread::Place(a)));
    assert(element_operands(s1) =~= seq![a]);
    assert(s.drop_last().last() is None);
    assert(s.last() == Some(PlaceOrSpread::Spread(b)));
    assert(element_operands(s.drop_last()) =~= seq![a]);
    assert(element_operands(s) =~= seq![a, b]);
}

/// A local store has exactly one store target, its lvalue, no identifier
/// load, and one operand use, the stored value.
pub proof fn lemma_store_local_targets(v: InstructionValue)
    requires
        v is StoreLocal,
    ensures
        v.store_target() == Some(v->StoreLocal_0.lvalue),
        v.load_source() is None,
        v.operands() == seq![v->StoreLocal_0.value],
{
}

} // verus!
