use databend_core::columns::MutablePrimitiveColumn;
use databend_core::types::NumberDataType;

#[test]
fn new_column_is_empty_and_typed_by_its_values() {
    let col = MutablePrimitiveColumn::<i32>::new();
    assert_eq!(col.len(), 0);
    assert_eq!(col.data_type(), NumberDataType::Int32);
    let col = MutablePrimitiveColumn::<u8>::with_capacity(16);
    assert_eq!(col.len(), 0);
    assert_eq!(col.data_type(), NumberDataType::UInt8);
}

#[test]
fn appended_values_are_kept_in_order() {
    let mut col = MutablePrimitiveColumn::<i64>::new();
    col.append_value(3);
    col.push(-1);
    col.append_default();
    assert_eq!(col.values(), &vec![3, -1, 0]);
    assert_eq!(col.len(), 3);
}

#[test]
fn from_data_keeps_values_and_type() {
    let col = MutablePrimitiveColumn::from_data(NumberDataType::UInt16, vec![1u16, 2, 3]);
    assert_eq!(col.values(), &vec![1, 2, 3]);
    assert_eq!(col.data_type(), NumberDataType::UInt16);
}

#[test]
fn to_column_hands_over_all_values_and_empties_the_builder() {
    let mut col = MutablePrimitiveColumn::<u32>::default();
    col.append_value(7);
    col.append_value(8);
    let column = col.to_column();
    assert_eq!(column.values, vec![7, 8]);
    assert_eq!(col.len(), 0);
    assert_eq!(col.data_type(), NumberDataType::UInt32);
}

#[test]
fn finish_hands_over_all_values_and_empties_the_builder() {
    let mut col = MutablePrimitiveColumn::<i8>::new();
    col.push(-5);
    col.shrink_to_fit();
    assert_eq!(col.values(), &vec![-5]);
    let column = col.finish();
    assert_eq!(column.values, vec![-5]);
    assert!(col.values().is_empty());
}

#[test]
fn primitive_columns_have_no_validity() {
    let col = MutablePrimitiveColumn::<u64>::new();
    assert!(col.validity().is_none());
}
