//! Behaviour of the hand-expanded consumer enum: wrapper construction,
//! conversion and evaluation.

use enum_newtype::ast::Attribute;
use enum_newtype::op::{
    Op, Reg, Value, __enum_newtype_Add, __enum_newtype_Const, __enum_newtype_Mul,
    __enum_newtype_Sub,
};

#[test]
fn wrapper_conversion_equals_direct_construction() {
    let wrapper = __enum_newtype_Add { lhs: Reg(0), rhs: Reg(1) };
    let through_conversion: Op = wrapper.into();
    let direct = Op::Add(__enum_newtype_Add { lhs: Reg(0), rhs: Reg(1) });
    assert_eq!(through_conversion, direct);

    let wrapper = __enum_newtype_Const { value: Value(9) };
    assert_eq!(Op::from(wrapper), Op::Const(__enum_newtype_Const { value: Value(9) }));
}

#[test]
fn converted_and_direct_values_evaluate_alike() {
    let regs = [Value(10), Value(3)];
    let through_conversion = Op::from(__enum_newtype_Sub { lhs: Reg(0), rhs: Reg(1) });
    let direct = Op::Sub(__enum_newtype_Sub { lhs: Reg(0), rhs: Reg(1) });
    assert_eq!(through_conversion.eval(&regs).0, direct.eval(&regs).0);
    assert_eq!(through_conversion.eval(&regs).0, 7);
}

#[test]
fn eval_computes_each_operation() {
    let regs = [Value(6), Value(7)];
    assert_eq!(Op::Add(__enum_newtype_Add { lhs: Reg(0), rhs: Reg(1) }).eval(&regs).0, 13);
    assert_eq!(Op::Sub(__enum_newtype_Sub { lhs: Reg(1), rhs: Reg(0) }).eval(&regs).0, 1);
    assert_eq!(Op::Mul(__enum_newtype_Mul { lhs: Reg(0), rhs: Reg(1) }).eval(&regs).0, 42);
    assert_eq!(Op::Const(__enum_newtype_Const { value: Value(55) }).eval(&regs).0, 55);
}

#[test]
fn attribute_classification_goes_by_the_path_token() {
    let derive = Attribute { path: "derive".to_string(), tokens: "(Debug)".to_string() };
    let doc = Attribute { path: "doc".to_string(), tokens: "= \"text\"".to_string() };
    let other = Attribute { path: "serde".to_string(), tokens: "(rename_all)".to_string() };

    assert!(derive.is_derive_attribute());
    assert!(!derive.is_docs_attribute());
    assert!(doc.is_docs_attribute());
    assert!(!doc.is_derive_attribute());
    assert!(!other.is_derive_attribute());
    assert!(!other.is_docs_attribute());

    assert_eq!(derive.filter_derive(), Some(&derive));
    assert_eq!(derive.filter_docs(), None);
    assert_eq!(doc.filter_docs(), Some(&doc));
    assert_eq!(doc.filter_derive(), None);
}
