use vstd::prelude::*;

verus! {

/// A capability for joining two element sequences end to end, offered in
/// several calling conventions; implementers choose the storage, the
/// contract fixes the result's contents where one can be promised.
pub trait Concat<T> {
    /// Join two borrowed slices into a freshly owned vector holding the
    /// elements of `left` followed by those of `right`.
    fn concat_0(left: &[T], right: &[T]) -> (r: Vec<T>)
        ensures
            r@ == left@ + right@,
    ;

    /// Join two owned vectors, consuming both, into one holding the elements
    /// of `left` followed by those of `right`.
    fn concat_2(left: Vec<T>, right: Vec<T>) -> (r: Vec<T>)
        ensures
            r@ == left@ + right@,
    ;

    /// Hand back a borrowed slice in place of the joined sequence; no owned
    /// result exists, so nothing is promised of its contents.
    fn concat_3<'a>(left: &'a [T], right: &'a [T]) -> &'a [T];
}

} // verus!
