//! Builders of primitive columns: values are appended one by one and the
//! builder is then turned into an immutable column.
use vstd::prelude::*;
use std::sync::Arc;

use crate::types::NumberDataType;

verus! {

/// The primitive value types a column can hold.
pub trait PrimitiveType: Copy + Sized {
    /// The column type of values of this type.
    spec fn spec_data_type() -> NumberDataType;

    /// The default value of this type.
    spec fn spec_default() -> Self;

    fn data_type() -> (r: NumberDataType)
        ensures
            r == Self::spec_data_type(),
    ;

    fn default_value() -> (r: Self)
        ensures
            r == Self::spec_default(),
    ;
}

impl PrimitiveType for u8 {
    open spec fn spec_data_type() -> NumberDataType {
        NumberDataType::UInt8
    }

    open spec fn spec_default() -> u8 {
        0
    }

    fn data_type() -> (r: NumberDataType) {
        NumberDataType::UInt8
    }

    fn default_value() -> (r: u8) {
        0
    }
}

impl PrimitiveType for u16 {
    open spec fn spec_data_type() -> NumberDataType {
        NumberDataType::UInt16
    }

    open spec fn spec_default() -> u16 {
        0
    }

    fn data_type() -> (r: NumberDataType) {
        NumberDataType::UInt16
    }

    fn default_value() -> (r: u16) {
        0
    }
}

impl PrimitiveType for u32 {
    open spec fn spec_data_type() -> NumberDataType {
        NumberDataType::UInt32
    }

    open spec fn spec_default() -> u32 {
        0
    }

    fn data_type() -> (r: NumberDataType) {
        NumberDataType::UInt32
    }

    fn default_value() -> (r: u32) {
        0
    }
}

impl PrimitiveType for u64 {
    open spec fn spec_data_type() -> NumberDataType {
        NumberDataType::UInt64
    }

    open spec fn spec_default() -> u64 {
        0
    }

    fn data_type() -> (r: NumberDataType) {
        NumberDataType::UInt64
    }

    fn default_value() -> (r: u64) {
        0
    }
}

impl PrimitiveType for i8 {
    open spec fn spec_data_type() -> NumberDataType {
        NumberDataType::Int8
    }

    open spec fn spec_default() -> i8 {
        0
    }

    fn data_type() -> (r: NumberDataType) {
        NumberDataType::Int8
    }

    fn default_value() -> (r: i8) {
        0
    }
}

impl PrimitiveType for i16 {
    open spec fn spec_data_type() -> NumberDataType {
        NumberDataType::Int16
    }

    open spec fn spec_default() -> i16 {
        0
    }

    fn data_type() -> (r: NumberDataType) {
        NumberDataType::Int16
    }

    fn default_value() -> (r: i16) {
        0
    }
}

impl PrimitiveType for i32 {
    open spec fn spec_data_type() -> NumberDataType {
        NumberDataType::Int32
    }

    open spec fn spec_default() -> i32 {
        0
    }

    fn data_type() -> (r: NumberDataType) {
        NumberDataType::Int32
    }

    fn default_value() -> (r: i32) {
        0
    }
}

impl PrimitiveType for i64 {
    open spec fn spec_data_type() -> NumberDataType {
        NumberDataType::Int64
    }

    open spec fn spec_default() -> i64 {
        0
    }

    fn data_type() -> (r: NumberDataType) {
        NumberDataType::Int64
    }

    fn default_value() -> (r: i64) {
        0
    }
}

/// The values of a builder after each of `pushed` is appended in turn (by
/// `push`, `append_value` or `append_default`), starting from `values`.
pub open spec fn after_pushes<T>(values: Seq<T>, pushed: Seq<T>) -> Seq<T>
    decreases pushed.len(),
{
    if pushed.len() == 0 {
        values
    } else {
        after_pushes(values, pushed.drop_last()).push(pushed.last())
    }
}

/// Appending values one by one keeps every value, in order: after any
/// sequence of pushes the builder holds its old values followed by the
/// pushed ones, which is what `finish` and `to_column` then hand over.
pub proof fn lemma_pushes_kept_in_order<T>(values: Seq<T>, pushed: Seq<T>)
    ensures
        after_pushes(values, pushed) == values + pushed,
    decreases pushed.len(),
{
    if pushed.len() > 0 {
        lemma_pushes_kept_in_order(values, pushed.drop_last());
        assert(values + pushed == (values + pushed.drop_last()).push(pushed.last()));
    }
}

/// An immutable column of primitive values.
#[derive(Debug)]
pub struct PrimitiveColumn<T> {
    pub values: Vec<T>,
}

/// A column of primitive values under construction.
#[derive(Debug)]
pub struct MutablePrimitiveColumn<T: PrimitiveType> {
    data_type: NumberDataType,
    values: Vec<T>,
}

impl<T: PrimitiveType> View for MutablePrimitiveColumn<T> {
    type V = Seq<T>;

    /// The values appended so far, in order.
    closed spec fn view(&self) -> Seq<T> {
        self.values@
    }
}

impl<T: PrimitiveType> MutablePrimitiveColumn<T> {
    /// The column type the builder was made with.
    pub closed spec fn spec_data_type(&self) -> NumberDataType {
        self.data_type
    }

    pub fn data_type(&self) -> (r: NumberDataType)
        ensures
            r == self.spec_data_type(),
    {
        self.data_type
    }

    /// An empty builder of the column type of `T`, with room for `capacity`
    /// values.
    pub fn with_capacity(capacity: usize) -> (r: Self)
        ensures
            r@ == Seq::<T>::empty(),
            r.spec_data_type() == T::spec_data_type(),
    {
        let data_type = T::data_type();
        MutablePrimitiveColumn { data_type, values: Vec::with_capacity(capacity) }
    }

    /// Appends the default value of `T`.
    pub fn append_default(&mut self)
        ensures
            final(self)@ == old(self)@.push(T::spec_default()),
            final(self).spec_data_type() == old(self).spec_data_type(),
    {
        self.append_value(T::default_value());
    }

    /// Primitive columns hold no nulls: there is no validity bitmap.
    pub fn validity(&self) -> (r: Option<&Vec<bool>>)
        ensures
            r is None,
    {
        None
    }

    /// Releases spare capacity; the values stay.
    pub fn shrink_to_fit(&mut self)
        ensures
            final(self)@ == old(self)@,
            final(self).spec_data_type() == old(self).spec_data_type(),
    {
        vec_shrink_to_fit(&mut self.values);
    }

    pub fn len(&self) -> (r: usize)
        ensures
            r == self@.len(),
    {
        self.values.len()
    }

    /// Hands the values over to an immutable column and leaves the builder
    /// empty.
    pub fn to_column(&mut self) -> (r: Arc<PrimitiveColumn<T>>)
        ensures
            r.values@ == old(self)@,
            final(self)@ == Seq::<T>::empty(),
            final(self).spec_data_type() == old(self).spec_data_type(),
    {
        self.shrink_to_fit();
        let mut values: Vec<T> = Vec::new();
        std::mem::swap(&mut values, &mut self.values);
        Arc::new(PrimitiveColumn { values })
    }

    /// An empty builder of the column type of `T`.
    pub fn new() -> (r: Self)
        ensures
            r@ == Seq::<T>::empty(),
            r.spec_data_type() == T::spec_data_type(),
    {
        Self::with_capacity(0)
    }

    /// A builder holding `values`, of column type `data_type`.
    pub fn from_data(data_type: NumberDataType, values: Vec<T>) -> (r: Self)
        ensures
            r@ == values@,
            r.spec_data_type() == data_type,
    {
        Self { data_type, values }
    }

    pub fn append_value(&mut self, val: T)
        ensures
            final(self)@ == old(self)@.push(val),
            final(self).spec_data_type() == old(self).spec_data_type(),
    {
        self.values.push(val);
    }

    pub fn values(&self) -> (r: &Vec<T>)
        ensures
            r@ == self@,
    {
        &self.values
    }

    /// Appends a value (as a scalar column builder).
    pub fn push(&mut self, value: T)
        ensures
            final(self)@ == old(self)@.push(value),
            final(self).spec_data_type() == old(self).spec_data_type(),
    {
        self.values.push(value);
    }

    /// Hands the values over to an immutable column and leaves the builder
    /// empty (as a scalar column builder).
    pub fn finish(&mut self) -> (r: PrimitiveColumn<T>)
        ensures
            r.values@ == old(self)@,
            final(self)@ == Seq::<T>::empty(),
            final(self).spec_data_type() == old(self).spec_data_type(),
    {
        self.shrink_to_fit();
        let mut values: Vec<T> = Vec::new();
        std::mem::swap(&mut values, &mut self.values);
        PrimitiveColumn { values }
    }
}

impl<T: PrimitiveType> Default for MutablePrimitiveColumn<T> {
    fn default() -> (r: Self)
        ensures
            r@ == Seq::<T>::empty(),
            r.spec_data_type() == T::spec_data_type(),
    {
        Self::new()
    }
}

/// Calls `Vec::shrink_to_fit`, which std documents as reducing the capacity
/// only; the elements stay.
#[verifier::external_body]
fn vec_shrink_to_fit<T>(v: &mut Vec<T>)
    ensures
        final(v)@ == old(v)@,
{
    v.shrink_to_fit();
}

} // verus!
