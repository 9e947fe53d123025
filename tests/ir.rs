use std::cell::RefCell;

use forget_hir::construction::{
    self, ArrayElement, LowerError, Place, PrimitiveValue,
};
use forget_hir::effect::{Effect, InstructionKind, MutableRange, ReactiveScope};
use forget_hir::function::{BasicBlock, Function, HIR};
use forget_hir::identifier::IdentifierTable;
use forget_hir::ids::{BlockId, IdentifierId, InstrIx, InstructionId, ScopeId, Type};
use forget_hir::instruction::{
    Array, Binary, Call, DeclareLocal, FunctionExpression, Identifier, IdentifierOperand, Instruction,
    InstructionValue, JSXAttribute, JSXElement, LValue, LoadGlobal, LoadLocal, Operand, PlaceOrSpread,
    StoreLocal,
};
use forget_hir::value::{BinaryOperator, JsValue, Number};

fn op(ix: u32) -> Operand {
    Operand { ix: InstrIx(ix), effect: None }
}

fn ident(id: u32, name: &str) -> Identifier {
    Identifier { id: IdentifierId(id), name: Some(name.to_string()) }
}

fn lvalue(id: u32, name: &str, kind: InstructionKind) -> LValue {
    LValue { identifier: IdentifierOperand { identifier: ident(id, name), effect: None }, kind }
}

fn visited(instr: &mut Instruction) -> Vec<u32> {
    let seen = RefCell::new(Vec::new());
    instr.each_operand(|o: Operand| {
        seen.borrow_mut().push(o.ix.0);
        o
    });
    seen.into_inner()
}

#[test]
fn is_mutable_partitions_effects() {
    for e in [Effect::Capture, Effect::Store, Effect::ConditionallyMutate, Effect::Mutate] {
        assert!(e.is_mutable());
    }
    for e in [Effect::Read, Effect::Freeze] {
        assert!(!e.is_mutable());
    }
}

#[test]
fn effect_and_kind_names() {
    assert_eq!(Effect::ConditionallyMutate.as_str(), "mutate?");
    assert_eq!(Effect::Capture.as_str(), "capture");
    assert_eq!(Effect::Freeze.as_str(), "freeze");
    assert_eq!(Effect::Mutate.as_str(), "mutate");
    assert_eq!(Effect::Read.as_str(), "read");
    assert_eq!(Effect::Store.as_str(), "store");
    assert_eq!(InstructionKind::Const.as_str(), "Const");
    assert_eq!(InstructionKind::Let.as_str(), "Let");
    assert_eq!(InstructionKind::Reassign.as_str(), "Reassign");
}

#[test]
fn new_range_is_empty_at_zero() {
    let r = MutableRange::new();
    assert_eq!(r.start, InstructionId(0));
    assert_eq!(r.end, InstructionId(0));
    assert_eq!(MutableRange::default(), r);
}

#[test]
fn extension_keeps_the_largest_end() {
    let mut r = MutableRange::starting_at(InstructionId(5));
    assert_eq!(r.end, InstructionId(5));
    for k in [3, 9, 7, 2] {
        r.extend_to(InstructionId(k));
        assert!(r.start.0 <= r.end.0);
    }
    assert_eq!(r.start, InstructionId(5));
    assert_eq!(r.end, InstructionId(9));
}

#[test]
fn extension_below_start_leaves_range_empty() {
    let mut r = MutableRange::starting_at(InstructionId(4));
    r.extend_to(InstructionId(1));
    assert_eq!(r.end, InstructionId(4));
}

#[test]
fn table_ranges_stay_ordered() {
    let mut t = IdentifierTable::new();
    let x = t.declare(Some("x".to_string()), InstructionId(3), Type::Unknown);
    let y = t.declare(None, InstructionId(6), Type::Var(1));
    assert_eq!(x.id, IdentifierId(0));
    assert_eq!(y.id, IdentifierId(1));
    assert_eq!(t.len(), 2);
    assert_eq!(t.get(y.id).mutable_range, MutableRange::starting_at(InstructionId(6)));
    t.extend_mutable_range(x.id, InstructionId(10));
    t.extend_mutable_range(x.id, InstructionId(1));
    t.extend_mutable_range(y.id, InstructionId(2));
    for id in [x.id, y.id] {
        let r = t.get(id).mutable_range;
        assert!(r.start.0 <= r.end.0);
    }
    assert_eq!(t.get(x.id).mutable_range.end, InstructionId(10));
    assert_eq!(t.get(y.id).mutable_range.end, InstructionId(6));
    assert_eq!(t.get(y.id).type_, Type::Var(1));
}

#[test]
fn operands_of_one_identifier_share_its_range() {
    let mut t = IdentifierTable::new();
    let x = t.declare(Some("x".to_string()), InstructionId(1), Type::Unknown);
    let a = IdentifierOperand { identifier: x.clone(), effect: Some(Effect::Mutate) };
    let b = IdentifierOperand { identifier: x, effect: Some(Effect::Read) };
    t.extend_mutable_range(a.identifier.id, InstructionId(7));
    assert_eq!(t.get(b.identifier.id).mutable_range.end, InstructionId(7));
    t.extend_mutable_range(b.identifier.id, InstructionId(12));
    assert_eq!(t.get(a.identifier.id).mutable_range.end, InstructionId(12));
}

#[test]
fn scope_is_recorded() {
    let mut t = IdentifierTable::new();
    let x = t.declare(None, InstructionId(0), Type::Unknown);
    assert!(t.get(x.id).scope.is_none());
    let scope = ReactiveScope {
        id: ScopeId(4),
        range: MutableRange { start: InstructionId(0), end: InstructionId(5) },
    };
    t.set_scope(x.id, scope);
    assert_eq!(t.get(x.id).scope, Some(scope));
    assert_eq!(t.get(x.id).mutable_range.end, InstructionId(0));
}

#[test]
fn binary_visits_left_then_right() {
    let mut instr = Instruction {
        id: InstructionId(3),
        value: InstructionValue::Binary(Binary { left: op(1), operator: BinaryOperator::Add, right: op(2) }),
    };
    assert_eq!(visited(&mut instr), vec![1, 2]);
}

#[test]
fn array_visits_elements_skipping_holes() {
    let mut instr = Instruction {
        id: InstructionId(3),
        value: InstructionValue::Array(Array {
            elements: vec![Some(PlaceOrSpread::Place(op(4))), None, Some(PlaceOrSpread::Spread(op(8)))],
        }),
    };
    assert_eq!(visited(&mut instr), vec![4, 8]);
}

#[test]
fn call_visits_callee_then_arguments() {
    let mut instr = Instruction {
        id: InstructionId(9),
        value: InstructionValue::Call(Call {
            callee: op(0),
            arguments: vec![PlaceOrSpread::Spread(op(5)), PlaceOrSpread::Place(op(2))],
        }),
    };
    assert_eq!(visited(&mut instr), vec![0, 5, 2]);
}

#[test]
fn jsx_visits_tag_attributes_children() {
    let mut instr = Instruction {
        id: InstructionId(9),
        value: InstructionValue::JSXElement(JSXElement {
            tag: op(1),
            props: vec![
                JSXAttribute::Attribute { name: "a".to_string(), value: op(2) },
                JSXAttribute::Spread { argument: op(3) },
            ],
            children: Some(vec![op(4), op(5)]),
        }),
    };
    assert_eq!(visited(&mut instr), vec![1, 2, 3, 4, 5]);
}

#[test]
fn function_visits_dependencies() {
    let hir = HIR::new(BasicBlock { id: BlockId(0), instructions: vec![] });
    let mut instr = Instruction {
        id: InstructionId(2),
        value: InstructionValue::Function(FunctionExpression {
            dependencies: vec![op(7), op(6)],
            lowered_function: Box::new(Function { body: hir, is_async: false, is_generator: false }),
        }),
    };
    assert_eq!(visited(&mut instr), vec![7, 6]);
}

#[test]
fn operands_are_rewritten_in_place() {
    let mut instr = Instruction {
        id: InstructionId(3),
        value: InstructionValue::Array(Array {
            elements: vec![Some(PlaceOrSpread::Place(op(4))), None, Some(PlaceOrSpread::Spread(op(8)))],
        }),
    };
    instr.each_operand(|o: Operand| Operand { ix: InstrIx(o.ix.0 + 100), effect: Some(Effect::Capture) });
    match &instr.value {
        InstructionValue::Array(a) => {
            assert_eq!(a.elements[0], Some(PlaceOrSpread::Place(Operand { ix: InstrIx(104), effect: Some(Effect::Capture) })));
            assert_eq!(a.elements[1], None);
            assert_eq!(a.elements[2], Some(PlaceOrSpread::Spread(Operand { ix: InstrIx(108), effect: Some(Effect::Capture) })));
        }
        _ => panic!("not an array"),
    }
    assert_eq!(instr.id, InstructionId(3));
}

#[test]
fn loads_and_globals_have_no_operands() {
    let mut load = Instruction {
        id: InstructionId(1),
        value: InstructionValue::LoadLocal(LoadLocal {
            place: IdentifierOperand { identifier: ident(0, "x"), effect: None },
        }),
    };
    assert!(visited(&mut load).is_empty());
    let mut global = Instruction {
        id: InstructionId(1),
        value: InstructionValue::LoadGlobal(LoadGlobal { name: "console".to_string() }),
    };
    assert!(visited(&mut global).is_empty());
    let mut tomb = Instruction { id: InstructionId(1), value: InstructionValue::Tombstone };
    assert!(visited(&mut tomb).is_empty());
}

#[test]
fn store_local_has_one_store_and_no_load() {
    let mut instr = Instruction {
        id: InstructionId(4),
        value: InstructionValue::StoreLocal(StoreLocal { lvalue: lvalue(0, "x", InstructionKind::Reassign), value: op(3) }),
    };
    let stores = RefCell::new(Vec::new());
    instr.each_identifier_store(|l: &LValue| {
        stores.borrow_mut().push(l.identifier.identifier.id);
        LValue {
            identifier: IdentifierOperand { identifier: l.identifier.identifier.clone(), effect: Some(Effect::Store) },
            kind: l.kind,
        }
    });
    assert_eq!(stores.into_inner(), vec![IdentifierId(0)]);
    let loads = RefCell::new(0);
    instr.each_identifier_load(|p: &IdentifierOperand| {
        *loads.borrow_mut() += 1;
        p.clone()
    });
    assert_eq!(loads.into_inner(), 0);
    match &instr.value {
        InstructionValue::StoreLocal(s) => {
            assert_eq!(s.lvalue.identifier.effect, Some(Effect::Store));
            assert_eq!(s.value, op(3));
        }
        _ => panic!("not a store"),
    }
    assert_eq!(visited(&mut instr), vec![3]);
}

#[test]
fn load_local_is_an_identifier_load() {
    let mut instr = Instruction {
        id: InstructionId(1),
        value: InstructionValue::LoadLocal(LoadLocal {
            place: IdentifierOperand { identifier: ident(2, "y"), effect: None },
        }),
    };
    instr.each_identifier_load(|p: &IdentifierOperand| IdentifierOperand {
        identifier: p.identifier.clone(),
        effect: Some(Effect::Read),
    });
    let stores = RefCell::new(0);
    instr.each_identifier_store(|l: &LValue| {
        *stores.borrow_mut() += 1;
        LValue { identifier: l.identifier.clone(), kind: l.kind }
    });
    assert_eq!(stores.into_inner(), 0);
    match &instr.value {
        InstructionValue::LoadLocal(l) => {
            assert_eq!(l.place.effect, Some(Effect::Read));
            assert_eq!(l.place.identifier.id, IdentifierId(2));
        }
        _ => panic!("not a load"),
    }
}

#[test]
fn failing_store_visitor_returns_its_error() {
    let mut instr = Instruction {
        id: InstructionId(0),
        value: InstructionValue::DeclareLocal(DeclareLocal { lvalue: lvalue(1, "z", InstructionKind::Const) }),
    };
    let r: Result<(), String> = instr.try_each_identifier_store(|_l: &LValue| Err("bad".to_string()));
    assert_eq!(r, Err("bad".to_string()));
    match &instr.value {
        InstructionValue::DeclareLocal(d) => assert_eq!(d.lvalue.kind, InstructionKind::Const),
        _ => panic!("not a declaration"),
    }
    let r: Result<(), String> = instr.try_each_identifier_store(|l: &LValue| {
        Ok(LValue { identifier: l.identifier.clone(), kind: InstructionKind::Let })
    });
    assert_eq!(r, Ok(()));
    match &instr.value {
        InstructionValue::DeclareLocal(d) => assert_eq!(d.lvalue.kind, InstructionKind::Let),
        _ => panic!("not a declaration"),
    }
    let mut other = Instruction { id: InstructionId(0), value: InstructionValue::Tombstone };
    let r: Result<(), String> = other.try_each_identifier_store(|_l: &LValue| Err("never".to_string()));
    assert_eq!(r, Ok(()));
}

fn place(id: u32, name: &str) -> Place {
    Place { identifier: ident(id, name), effect: None }
}

fn built(id: u32, result: Place, value: construction::InstructionValue) -> construction::Instruction {
    construction::Instruction { id: InstructionId(id), lvalue: result, value }
}

fn number(v: u64) -> construction::InstructionValue {
    construction::InstructionValue::Primitive(construction::Primitive {
        value: PrimitiveValue::Number(Number::from_bits(v)),
    })
}

fn store_x(value: Place) -> construction::InstructionValue {
    construction::InstructionValue::StoreLocal(construction::StoreLocal {
        lvalue: construction::LValue { place: place(0, "x"), kind: InstructionKind::Reassign },
        value,
    })
}

#[test]
fn lowering_keeps_count_order_and_ids() {
    let instrs = vec![
        built(0, place(10, "t0"), construction::InstructionValue::DeclareLocal(construction::DeclareLocal {
            lvalue: construction::LValue { place: place(0, "x"), kind: InstructionKind::Let },
        })),
        built(1, place(11, "t1"), number(1)),
        built(2, place(12, "t2"), store_x(place(11, "t1"))),
        built(3, place(13, "t3"), number(2)),
        built(4, place(14, "t4"), store_x(place(13, "t3"))),
    ];
    let out = construction::lower(&instrs).unwrap();
    assert_eq!(out.len(), 5);
    for (i, instr) in out.iter().enumerate() {
        assert_eq!(instr.id, InstructionId(i as u32));
    }
    match &out[0].value {
        InstructionValue::DeclareLocal(d) => {
            assert_eq!(d.lvalue.kind, InstructionKind::Let);
            assert_eq!(d.lvalue.identifier.identifier.id, IdentifierId(0));
        }
        _ => panic!("expected a declaration"),
    }
    match &out[1].value {
        InstructionValue::Primitive(p) => assert_eq!(p.value, JsValue::Number(Number::from_bits(1))),
        _ => panic!("expected a primitive"),
    }
    match &out[2].value {
        InstructionValue::StoreLocal(s) => {
            assert_eq!(s.value, op(1));
            assert_eq!(s.lvalue.identifier.identifier.id, IdentifierId(0));
        }
        _ => panic!("expected a store"),
    }
    match &out[4].value {
        InstructionValue::StoreLocal(s) => assert_eq!(s.value, op(3)),
        _ => panic!("expected a store"),
    }
}

#[test]
fn lowering_arrays_and_loads() {
    let instrs = vec![
        built(0, place(5, "a"), number(7)),
        built(1, place(6, "b"), construction::InstructionValue::LoadLocal(construction::LoadLocal { place: place(0, "x") })),
        built(2, place(7, "c"), construction::InstructionValue::Array(construction::Array {
            elements: vec![ArrayElement::Spread(place(6, "b")), ArrayElement::Place(place(5, "a"))],
        })),
        built(3, place(8, "d"), construction::InstructionValue::LoadContext(construction::LoadContext { place: place(7, "c") })),
        built(4, place(9, "e"), construction::InstructionValue::Primitive(construction::Primitive {
            value: PrimitiveValue::String("hi".to_string()),
        })),
    ];
    let out = construction::lower(&instrs).unwrap();
    match &out[1].value {
        InstructionValue::LoadLocal(l) => assert_eq!(l.place.identifier.id, IdentifierId(0)),
        _ => panic!("expected a load"),
    }
    match &out[2].value {
        InstructionValue::Array(a) => {
            assert_eq!(a.elements, vec![Some(PlaceOrSpread::Spread(op(1))), Some(PlaceOrSpread::Place(op(0)))]);
        }
        _ => panic!("expected an array"),
    }
    match &out[3].value {
        InstructionValue::LoadContext(l) => assert_eq!(l.place, op(2)),
        _ => panic!("expected a context load"),
    }
    match &out[4].value {
        InstructionValue::Primitive(p) => assert_eq!(p.value, JsValue::String("hi".to_string())),
        _ => panic!("expected a primitive"),
    }
}

#[test]
fn lowering_uses_latest_definition() {
    let instrs = vec![
        built(0, place(5, "t"), number(1)),
        built(1, place(5, "t"), number(2)),
        built(2, place(6, "u"), store_x(place(5, "t"))),
    ];
    let out = construction::lower(&instrs).unwrap();
    match &out[2].value {
        InstructionValue::StoreLocal(s) => assert_eq!(s.value, op(1)),
        _ => panic!("expected a store"),
    }
}

#[test]
fn lowering_reports_undefined_place() {
    let instrs = vec![
        built(0, place(5, "t"), number(1)),
        built(1, place(6, "u"), store_x(place(9, "missing"))),
        built(2, place(7, "v"), store_x(place(8, "also_missing"))),
    ];
    assert_eq!(
        construction::lower(&instrs).err(),
        Some(LowerError::UndefinedPlace { instruction: InstructionId(1), identifier: IdentifierId(9) })
    );
    let self_use = vec![built(0, place(5, "t"), store_x(place(5, "t")))];
    assert_eq!(
        construction::lower(&self_use).err(),
        Some(LowerError::UndefinedPlace { instruction: InstructionId(0), identifier: IdentifierId(5) })
    );
    assert_eq!(construction::lower(&vec![]).unwrap().len(), 0);
}

#[test]
fn number_keeps_nan_payload_and_zero_sign() {
    let nan = f64::from_bits(0x7ff8_0000_dead_beef);
    let n = Number::from_bits(nan.to_bits());
    assert_eq!(f64::from_bits(n.to_bits()).to_bits(), nan.to_bits());
    let std_nan = Number::from_bits(f64::NAN.to_bits());
    assert_eq!(f64::from_bits(std_nan.to_bits()).to_bits(), f64::NAN.to_bits());
    assert_eq!(std_nan, Number::from_bits(f64::NAN.to_bits()));
    assert_ne!(Number::from_bits((-0.0f64).to_bits()), Number::from_bits(0.0f64.to_bits()));
}

#[test]
fn hir_blocks_by_id() {
    let mut hir = HIR::new(BasicBlock { id: BlockId(0), instructions: vec![InstrIx(0)] });
    assert_eq!(hir.entry, BlockId(0));
    hir.push_block(BasicBlock { id: BlockId(2), instructions: vec![InstrIx(1), InstrIx(2)] });
    hir.push_block(BasicBlock { id: BlockId(1), instructions: vec![] });
    assert_eq!(hir.block(BlockId(2)).instructions, vec![InstrIx(1), InstrIx(2)]);
    assert_eq!(hir.block(BlockId(0)).id, BlockId(0));
    let order: Vec<BlockId> = hir.blocks.keys().copied().collect();
    assert_eq!(order, vec![BlockId(0), BlockId(2), BlockId(1)]);
    hir.block_mut(BlockId(1)).instructions.push(InstrIx(3));
    assert_eq!(hir.block(BlockId(1)).instructions, vec![InstrIx(3)]);
    hir.push_block(BasicBlock { id: BlockId(2), instructions: vec![] });
    assert!(hir.block(BlockId(2)).instructions.is_empty());
    let order: Vec<BlockId> = hir.blocks.keys().copied().collect();
    assert_eq!(order, vec![BlockId(0), BlockId(2), BlockId(1)]);
}
