use runtime::{jvm_value, ot_obj, InterpEvalStack, VmError};

fn ival(v: i32) -> jvm_value {
    jvm_value::Int { val: v }
}

fn stack_of(vals: &[jvm_value]) -> InterpEvalStack {
    let mut s = InterpEvalStack::of();
    for v in vals {
        s.push(*v);
    }
    s
}

#[test]
fn lifo_push_pop() {
    let mut s = InterpEvalStack::of();
    let v1 = jvm_value::Long { val: -5 };
    let v2 = jvm_value::Char { val: 'q' };
    s.push(v1);
    s.push(v2);
    assert_eq!(s.pop(), Ok(v2));
    assert_eq!(s.pop(), Ok(v1));
}

#[test]
fn pop_after_balanced_run_underflows() {
    let mut s = InterpEvalStack::of();
    assert_eq!(s.pop(), Err(VmError::StackUnderflow));
    s.push(ival(1));
    s.push(ival(2));
    assert!(s.pop().is_ok());
    s.push(ival(3));
    assert!(s.pop().is_ok());
    assert!(s.pop().is_ok());
    assert_eq!(s.depth(), 0);
    assert_eq!(s.pop(), Err(VmError::StackUnderflow));
}

#[test]
fn iadd_three_four() {
    let mut s = InterpEvalStack::of();
    s.push(ival(3));
    s.push(ival(4));
    assert_eq!(s.iadd(), Ok(()));
    assert_eq!(s.pop(), Ok(ival(7)));
    assert_eq!(s.depth(), 0);
}

#[test]
fn iadd_wraps_on_overflow() {
    let mut s = stack_of(&[ival(i32::MAX), ival(1)]);
    assert_eq!(s.iadd(), Ok(()));
    assert_eq!(s.pop(), Ok(ival(i32::MIN)));
}

#[test]
fn idiv_ten_three() {
    let mut s = InterpEvalStack::of();
    s.push(ival(10));
    s.push(ival(3));
    assert_eq!(s.idiv(), Ok(()));
    assert_eq!(s.pop(), Ok(ival(3)));
}

#[test]
fn irem_ten_three() {
    let mut s = InterpEvalStack::of();
    s.push(ival(10));
    s.push(ival(3));
    assert_eq!(s.irem(), Ok(()));
    assert_eq!(s.pop(), Ok(ival(1)));
}

#[test]
fn isub_left_minus_right() {
    let mut s = stack_of(&[ival(10), ival(3)]);
    assert_eq!(s.isub(), Ok(()));
    assert_eq!(s.pop(), Ok(ival(7)));
}

#[test]
fn imul_product() {
    let mut s = stack_of(&[ival(6), ival(-7)]);
    assert_eq!(s.imul(), Ok(()));
    assert_eq!(s.pop(), Ok(ival(-42)));
}

#[test]
fn idiv_truncates_toward_zero() {
    let mut s = stack_of(&[ival(-7), ival(2)]);
    assert_eq!(s.idiv(), Ok(()));
    assert_eq!(s.pop(), Ok(ival(-3)));
    let mut s = stack_of(&[ival(-7), ival(2)]);
    assert_eq!(s.irem(), Ok(()));
    assert_eq!(s.pop(), Ok(ival(-1)));
}

#[test]
fn idiv_min_by_minus_one_wraps() {
    let mut s = stack_of(&[ival(i32::MIN), ival(-1)]);
    assert_eq!(s.idiv(), Ok(()));
    assert_eq!(s.pop(), Ok(ival(i32::MIN)));
    let mut s = stack_of(&[ival(i32::MIN), ival(-1)]);
    assert_eq!(s.irem(), Ok(()));
    assert_eq!(s.pop(), Ok(ival(0)));
}

#[test]
fn idiv_by_zero_fails_and_keeps_stack() {
    let mut s = stack_of(&[ival(10), ival(0)]);
    assert_eq!(s.idiv(), Err(VmError::DivisionByZero));
    assert_eq!(s.depth(), 2);
    assert_eq!(s.irem(), Err(VmError::DivisionByZero));
    assert_eq!(s.pop(), Ok(ival(0)));
    assert_eq!(s.pop(), Ok(ival(10)));
}

#[test]
fn iadd_type_mismatch_keeps_stack() {
    let mut s = stack_of(&[jvm_value::Long { val: 1 }, ival(2)]);
    assert_eq!(s.iadd(), Err(VmError::TypeMismatch));
    assert_eq!(s.depth(), 2);
    let mut s = stack_of(&[ival(1), jvm_value::Boolean { val: true }]);
    assert_eq!(s.iadd(), Err(VmError::TypeMismatch));
}

#[test]
fn iadd_with_one_operand_underflows() {
    let mut s = stack_of(&[ival(1)]);
    assert_eq!(s.iadd(), Err(VmError::StackUnderflow));
    assert_eq!(s.depth(), 1);
    let mut e = InterpEvalStack::of();
    assert_eq!(e.imul(), Err(VmError::StackUnderflow));
}

#[test]
fn ineg_negates_and_wraps() {
    let mut s = stack_of(&[ival(5)]);
    assert_eq!(s.ineg(), Ok(()));
    assert_eq!(s.pop(), Ok(ival(-5)));
    let mut s = stack_of(&[ival(i32::MIN)]);
    assert_eq!(s.ineg(), Ok(()));
    assert_eq!(s.pop(), Ok(ival(i32::MIN)));
    let mut s = stack_of(&[jvm_value::Short { val: 2 }]);
    assert_eq!(s.ineg(), Err(VmError::TypeMismatch));
}

#[test]
fn bitwise_instructions() {
    let mut s = stack_of(&[ival(0b1100), ival(0b1010)]);
    assert_eq!(s.iand(), Ok(()));
    assert_eq!(s.pop(), Ok(ival(0b1000)));
    let mut s = stack_of(&[ival(0b1100), ival(0b1010)]);
    assert_eq!(s.ior(), Ok(()));
    assert_eq!(s.pop(), Ok(ival(0b1110)));
    let mut s = stack_of(&[ival(0b1100), ival(0b1010)]);
    assert_eq!(s.ixor(), Ok(()));
    assert_eq!(s.pop(), Ok(ival(0b0110)));
}

#[test]
fn dup_copies_top() {
    let x = jvm_value::Byte { val: 9 };
    let mut s = stack_of(&[x]);
    assert_eq!(s.dup(), Ok(()));
    assert_eq!(s.depth(), 2);
    assert_eq!(s.pop(), Ok(x));
    assert_eq!(s.pop(), Ok(x));
    assert_eq!(s.dup(), Err(VmError::StackUnderflow));
}

#[test]
fn dup_x1_inserts_copy_beneath() {
    let c = ival(1);
    let b = ival(2);
    let a = ival(3);
    let mut s = stack_of(&[c, b, a]);
    assert_eq!(s.dupX1(), Ok(()));
    assert_eq!(s.depth(), 4);
    assert_eq!(s.pop(), Ok(a));
    assert_eq!(s.pop(), Ok(b));
    assert_eq!(s.pop(), Ok(a));
    assert_eq!(s.pop(), Ok(c));
    let mut one = stack_of(&[a]);
    assert_eq!(one.dupX1(), Err(VmError::StackUnderflow));
    assert_eq!(one.depth(), 1);
}

#[test]
fn constants_push_values() {
    let mut s = InterpEvalStack::of();
    s.iconst(-1);
    s.aconst_null();
    match s.pop() {
        Ok(jvm_value::ObjRef { val }) => assert!(val.is_null()),
        other => panic!("expected a reference, got {:?}", other),
    }
    assert_eq!(s.pop(), Ok(ival(-1)));
    assert_eq!(ot_obj::get_null().get_mark(), 0);
}

#[test]
fn pop_int_checks_kind() {
    let mut s = stack_of(&[ival(4), jvm_value::Float { val: 0 }]);
    assert_eq!(s.pop_int(), Err(VmError::TypeMismatch));
    assert_eq!(s.depth(), 2);
    assert!(s.pop().is_ok());
    assert_eq!(s.pop_int(), Ok(4));
    assert_eq!(s.pop_int(), Err(VmError::StackUnderflow));
}

#[test]
fn pop_double_operands_left_then_right() {
    let left = 1.5f64.to_bits();
    let right = 2.25f64.to_bits();
    let mut s = stack_of(&[jvm_value::Double { val: left }, jvm_value::Double { val: right }]);
    assert_eq!(s.pop_double_operands(), Ok((left, right)));
    assert_eq!(s.depth(), 0);
    let mut m = stack_of(&[ival(1), jvm_value::Double { val: right }]);
    assert_eq!(m.pop_double_operands(), Err(VmError::TypeMismatch));
    assert_eq!(m.depth(), 2);
}

#[test]
fn value_kind_letters() {
    assert_eq!(ival(0).name(), 'I');
    assert_eq!(jvm_value::Long { val: 0 }.name(), 'J');
    assert_eq!(jvm_value::Boolean { val: false }.name(), 'Z');
    assert_eq!(jvm_value::ObjRef { val: ot_obj::get_null() }.name(), 'A');
}

#[test]
fn null_handle_reports_null() {
    assert!(ot_obj::get_null().is_null());
    assert!(ot_obj::of(0, 0).is_null());
    assert!(!ot_obj::of(1, 0).is_null());
    assert!(!ot_obj::of(0, 7).is_null());
}
