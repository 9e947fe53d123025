//! The form in which instructions are first built: every instruction names
//! its result as a place, and places name identifiers directly.
use vstd::prelude::*;

use crate::effect::{Effect, InstructionKind};
use crate::ids::{IdentifierId, InstrIx, InstructionId};
use crate::instruction as hir;
use crate::instruction::{Identifier, IdentifierOperand, Operand, PlaceOrSpread};
use crate::value::{JsValue, Number};

verus! {

pub struct Instruction {
    pub id: InstructionId,
    /// Where the instruction's result is bound.
    pub lvalue: Place,
    pub value: InstructionValue,
}

pub enum InstructionValue {
    Array(Array),
    DeclareContext(DeclareContext),
    DeclareLocal(DeclareLocal),
    LoadContext(LoadContext),
    LoadLocal(LoadLocal),
    Primitive(Primitive),
    StoreLocal(StoreLocal),
}

pub struct Array {
    pub elements: Vec<ArrayElement>,
}

pub enum ArrayElement {
    Place(Place),
    Spread(Place),
}

impl ArrayElement {
    pub open spec fn place(self) -> Place {
        match self {
            ArrayElement::Place(p) => p,
            ArrayElement::Spread(p) => p,
        }
    }
}

pub struct Primitive {
    pub value: PrimitiveValue,
}

pub enum PrimitiveValue {
    Boolean(bool),
    Null,
    Number(Number),
    String(String),
    Undefined,
}

pub struct LoadLocal {
    pub place: Place,
}

pub struct LoadContext {
    pub place: Place,
}

pub struct DeclareLocal {
    pub lvalue: LValue,
}

/// Declares a variable captured by a closure; its kind is always `Let`.
pub struct DeclareContext {
    pub lvalue: LValue,
}

pub struct StoreLocal {
    pub lvalue: LValue,
    pub value: Place,
}

/// A use of an identifier, with its effect.
#[derive(Clone)]
pub struct Place {
    pub identifier: Identifier,
    pub effect: Option<Effect>,
}

pub struct LValue {
    pub place: Place,
    pub kind: InstructionKind,
}

/// Why a sequence of instructions could not be lowered.
#[derive(Clone, Copy, PartialEq, Eq, Structural, Debug)]
pub enum LowerError {
    /// The instruction uses a place that no earlier instruction produced.
    UndefinedPlace { instruction: InstructionId, identifier: IdentifierId },
}

/// The index of the last instruction before `end` whose result is bound to
/// identifier `id`.
pub open spec fn definition(instrs: Seq<Instruction>, end: int, id: IdentifierId) -> Option<int>
    decreases end,
{
    if end <= 0 {
        None
    } else if instrs[end - 1].lvalue.identifier.id == id {
        Some(end - 1)
    } else {
        definition(instrs, end - 1, id)
    }
}

/// The places that a value uses as earlier results.
pub open spec fn used_places(v: InstructionValue) -> Seq<Place> {
    match v {
        InstructionValue::Array(a) => a.elements@.map_values(|e: ArrayElement| e.place()),
        InstructionValue::LoadContext(l) => seq![l.place],
        InstructionValue::StoreLocal(s) => seq![s.value],
        _ => Seq::empty(),
    }
}

/// Every place that instruction `i` uses was produced before it.
pub open spec fn resolves(instrs: Seq<Instruction>, i: int) -> bool {
    forall|k: int| 0 <= k < used_places(instrs[i].value).len()
        ==> definition(instrs, i, (#[trigger] used_places(instrs[i].value)[k]).identifier.id) is Some
}

/// The operand that place `p`, used by instruction `i`, becomes.
pub open spec fn operand_for(instrs: Seq<Instruction>, i: int, p: Place) -> Operand {
    Operand { ix: InstrIx(definition(instrs, i, p.identifier.id).unwrap() as u32), effect: p.effect }
}

pub open spec fn identifier_operand(p: Place) -> IdentifierOperand {
    IdentifierOperand { identifier: p.identifier, effect: p.effect }
}

pub open spec fn lowered_lvalue(l: LValue) -> hir::LValue {
    hir::LValue { identifier: identifier_operand(l.place), kind: l.kind }
}

pub open spec fn lowered_primitive(v: PrimitiveValue) -> JsValue {
    match v {
        PrimitiveValue::Boolean(b) => JsValue::Boolean(b),
        PrimitiveValue::Null => JsValue::Null,
        PrimitiveValue::Number(n) => JsValue::Number(n),
        PrimitiveValue::String(s) => JsValue::String(s),
        PrimitiveValue::Undefined => JsValue::Undefined,
    }
}

pub open spec fn lowered_element(instrs: Seq<Instruction>, i: int, e: ArrayElement) -> Option<PlaceOrSpread> {
    match e {
        ArrayElement::Place(p) => Some(PlaceOrSpread::Place(operand_for(instrs, i, p))),
        ArrayElement::Spread(p) => Some(PlaceOrSpread::Spread(operand_for(instrs, i, p))),
    }
}

/// `v` is the value of instruction `i` in the pipeline form: places used as
/// results become operands naming the instruction that produced them;
/// declared, assigned and loaded places keep naming their identifier.
pub open spec fn lowers_to(instrs: Seq<Instruction>, i: int, v: hir::InstructionValue) -> bool {
    match instrs[i].value {
        InstructionValue::Array(a) => match v {
            hir::InstructionValue::Array(b) => {
                &&& b.elements@.len() == a.elements@.len()
                &&& forall|k: int| 0 <= k < a.elements@.len()
                    ==> #[trigger] b.elements@[k] == lowered_element(instrs, i, a.elements@[k])
            },
            _ => false,
        },
        InstructionValue::DeclareContext(d) => v == hir::InstructionValue::DeclareContext(
            hir::DeclareContext { lvalue: lowered_lvalue(d.lvalue) },
        ),
        InstructionValue::DeclareLocal(d) => v == hir::InstructionValue::DeclareLocal(
            hir::DeclareLocal { lvalue: lowered_lvalue(d.lvalue) },
        ),
        InstructionValue::LoadContext(l) => v == hir::InstructionValue::LoadContext(
            hir::LoadContext { place: operand_for(instrs, i, l.place) },
        ),
        InstructionValue::LoadLocal(l) => v == hir::InstructionValue::LoadLocal(
            hir::LoadLocal { place: identifier_operand(l.place) },
        ),
        InstructionValue::Primitive(p) => v == hir::InstructionValue::Primitive(
            hir::Primitive { value: lowered_primitive(p.value) },
        ),
        InstructionValue::StoreLocal(s) => v == hir::InstructionValue::StoreLocal(
            hir::StoreLocal { lvalue: lowered_lvalue(s.lvalue), value: operand_for(instrs, i, s.value) },
        ),
    }
}

fn copy_identifier(i: &Identifier) -> (r: Identifier)
    ensures
        r == *i,
{
    let name = match &i.name {
        Some(n) => Some(n.clone()),
        None => None,
    };
    Identifier { id: i.id, name }
}

fn find_definition(instrs: &Vec<Instruction>, end: usize, id: IdentifierId) -> (r: Option<usize>)
    requires
        end <= instrs@.len(),
    ensures
        r is Some <==> definition(instrs@, end as int, id) is Some,
        r is Some ==> definition(instrs@, end as int, id) == Some(r.unwrap() as int),
        r is Some ==> r.unwrap() < end,
{
    let mut j: usize = end;
    while j > 0
        invariant
            j <= end <= instrs@.len(),
            definition(instrs@, end as int, id) == definition(instrs@, j as int, id),
        decreases j,
    {
        if instrs[j - 1].lvalue.identifier.id == id {
            return Some(j - 1);
        }
        j -= 1;
    }
    None
}

fn lower_place(instrs: &Vec<Instruction>, i: usize, p: &Place) -> (r: Result<Operand, LowerError>)
    requires
        i < instrs@.len() <= u32::MAX,
    ensures
        definition(instrs@, i as int, p.identifier.id) is Some ==> r == Ok::<Operand, LowerError>(operand_for(instrs@, i as int, *p)),
        definition(instrs@, i as int, p.identifier.id) is None ==> r == Err::<Operand, LowerError>(
            LowerError::UndefinedPlace { instruction: instrs@[i as int].id, identifier: p.identifier.id },
        ),
{
    match find_definition(instrs, i, p.identifier.id) {
        Some(j) => {
            let o = Operand { ix: InstrIx(j as u32), effect: p.effect };
            Ok(o)
        },
        None => Err(LowerError::UndefinedPlace { instruction: instrs[i].id, identifier: p.identifier.id }),
    }
}

/// `e` reports a place used by instruction `i` that no earlier instruction produced.
pub open spec fn reports_undefined(instrs: Seq<Instruction>, i: int, e: LowerError) -> bool {
    match e {
        LowerError::UndefinedPlace { instruction, identifier } => {
            &&& instruction == instrs[i].id
            &&& definition(instrs, i, identifier) is None
            &&& exists|k: int| 0 <= k < used_places(instrs[i].value).len()
                && (#[trigger] used_places(instrs[i].value)[k]).identifier.id == identifier
        },
    }
}

fn lower_elements(instrs: &Vec<Instruction>, i: usize, a: &Array) -> (r: Result<Vec<Option<PlaceOrSpread>>, LowerError>)
    requires
        i < instrs@.len() <= u32::MAX,
        instrs@[i as int].value == InstructionValue::Array(*a),
    ensures
        r is Ok <==> resolves(instrs@, i as int),
        r is Ok ==> r.unwrap()@.len() == a.elements@.len() && forall|k: int| 0 <= k < a.elements@.len()
            ==> #[trigger] r.unwrap()@[k] == lowered_element(instrs@, i as int, a.elements@[k]),
        r is Err ==> reports_undefined(instrs@, i as int, r->Err_0),
{
    let ghost used = used_places(instrs@[i as int].value);
    let mut out: Vec<Option<PlaceOrSpread>> = Vec::new();
    let mut k: usize = 0;
    while k < a.elements.len()
        invariant
            i < instrs@.len() <= u32::MAX,
            instrs@[i as int].value == InstructionValue::Array(*a),
            used == a.elements@.map_values(|e: ArrayElement| e.place()),
            0 <= k <= a.elements@.len(),
            out@.len() == k,
            forall|m: int| 0 <= m < k ==> definition(instrs@, i as int, (#[trigger] used[m]).identifier.id) is Some,
            forall|m: int| 0 <= m < k ==> #[trigger] out@[m] == lowered_element(instrs@, i as int, a.elements@[m]),
        decreases a.elements@.len() - k,
    {
        let e = match &a.elements[k] {
            ArrayElement::Place(p) => match lower_place(instrs, i, p) {
                Ok(o) => PlaceOrSpread::Place(o),
                Err(err) => {
                    assert(used[k as int] == a.elements@[k as int].place());
                    return Err(err);
                },
            },
            ArrayElement::Spread(p) => match lower_place(instrs, i, p) {
                Ok(o) => PlaceOrSpread::Spread(o),
                Err(err) => {
                    assert(used[k as int] == a.elements@[k as int].place());
                    return Err(err);
                },
            },
        };
        assert(used[k as int] == a.elements@[k as int].place());
        out.push(Some(e));
        k += 1;
    }
    Ok(out)
}

fn lower_lvalue(l: &LValue) -> (r: hir::LValue)
    ensures
        r == lowered_lvalue(*l),
{
    hir::LValue {
        identifier: IdentifierOperand { identifier: copy_identifier(&l.place.identifier), effect: l.place.effect },
        kind: l.kind,
    }
}

fn lower_primitive(v: &PrimitiveValue) -> (r: JsValue)
    ensures
        r == lowered_primitive(*v),
{
    match v {
        PrimitiveValue::Boolean(b) => JsValue::Boolean(*b),
        PrimitiveValue::Null => JsValue::Null,
        PrimitiveValue::Number(n) => JsValue::Number(*n),
        PrimitiveValue::String(s) => JsValue::String(s.clone()),
        PrimitiveValue::Undefined => JsValue::Undefined,
    }
}

fn lower_value(instrs: &Vec<Instruction>, i: usize) -> (r: Result<hir::InstructionValue, LowerError>)
    requires
        i < instrs@.len() <= u32::MAX,
    ensures
        r is Ok <==> resolves(instrs@, i as int),
        r is Ok ==> lowers_to(instrs@, i as int, r.unwrap()),
        r is Err ==> reports_undefined(instrs@, i as int, r->Err_0),
{
    match &instrs[i].value {
        InstructionValue::Array(a) => match lower_elements(instrs, i, a) {
            Ok(elements) => Ok(hir::InstructionValue::Array(hir::Array { elements })),
            Err(e) => Err(e),
        },
        InstructionValue::DeclareContext(d) => Ok(
            hir::InstructionValue::DeclareContext(hir::DeclareContext { lvalue: lower_lvalue(&d.lvalue) }),
        ),
        InstructionValue::DeclareLocal(d) => Ok(
            hir::InstructionValue::DeclareLocal(hir::DeclareLocal { lvalue: lower_lvalue(&d.lvalue) }),
        ),
        InstructionValue::LoadContext(l) => {
            let ghost used = used_places(instrs@[i as int].value);
            assert(used[0] == l.place);
            match lower_place(instrs, i, &l.place) {
                Ok(place) => Ok(hir::InstructionValue::LoadContext(hir::LoadContext { place })),
                Err(e) => Err(e),
            }
        },
        InstructionValue::LoadLocal(l) => {
            let place = IdentifierOperand { identifier: copy_identifier(&l.place.identifier), effect: l.place.effect };
            Ok(hir::InstructionValue::LoadLocal(hir::LoadLocal { place }))
        },
        InstructionValue::Primitive(p) => Ok(
            hir::InstructionValue::Primitive(hir::Primitive { value: lower_primitive(&p.value) }),
        ),
        InstructionValue::StoreLocal(s) => {
            let ghost used = used_places(instrs@[i as int].value);
            assert(used[0] == s.value);
            match lower_place(instrs, i, &s.value) {
                Ok(value) => Ok(hir::InstructionValue::StoreLocal(
                    hir::StoreLocal { lvalue: lower_lvalue(&s.lvalue), value },
                )),
                Err(e) => Err(e),
            }
        },
    }
}

/// Lowers built instructions into the pipeline form, keeping their number,
/// order and ids. A place used as a value becomes an operand naming the last
/// earlier instruction whose result is bound to the same identifier; if
/// there is none, the first instruction with such a place is reported.
pub fn lower(instrs: &Vec<Instruction>) -> (r: Result<Vec<hir::Instruction>, LowerError>)
    requires
        instrs@.len() <= u32::MAX,
    ensures
        r is Ok <==> forall|i: int| 0 <= i < instrs@.len() ==> resolves(instrs@, i),
        r is Ok ==> {
            &&& r.unwrap()@.len() == instrs@.len()
            &&& forall|i: int| 0 <= i < instrs@.len() ==> (#[trigger] r.unwrap()@[i]).id == instrs@[i].id
            &&& forall|i: int| 0 <= i < instrs@.len() ==> lowers_to(instrs@, i, (#[trigger] r.unwrap()@[i]).value)
        },
        r is Err ==> exists|i: int| 0 <= i < instrs@.len() && #[trigger] reports_undefined(instrs@, i, r->Err_0)
            && forall|j: int| 0 <= j < i ==> #[trigger] resolves(instrs@, j),
{
    let mut out: Vec<hir::Instruction> = Vec::new();
    let mut i: usize = 0;
    while i < instrs.len()
        invariant
            instrs@.len() <= u32::MAX,
            0 <= i <= instrs@.len(),
            out@.len() == i,
            forall|j: int| 0 <= j < i ==> resolves(instrs@, j),
            forall|j: int| 0 <= j < i ==> (#[trigger] out@[j]).id == instrs@[j].id,
            forall|j: int| 0 <= j < i ==> lowers_to(instrs@, j, (#[trigger] out@[j]).value),
        decreases instrs@.len() - i,
    {
        match lower_value(instrs, i) {
            Ok(value) => {
                out.push(hir::Instruction { id: instrs[i].id, value });
            },
            Err(e) => {
                let r: Result<Vec<hir::Instruction>, LowerError> = Err(e);
                assert(0 <= i < instrs@.len() && reports_undefined(instrs@, i as int, r->Err_0)
                    && forall|j: int| 0 <= j < i ==> resolves(instrs@, j));
                return r;
            },
        }
        i += 1;
    }
    Ok(out)
}

} // verus!
