//! Views of the containers that decoders return.

use vstd::prelude::*;

verus! {

/// The views of the items of a sequence, in order.
pub open spec fn views<T: View>(items: Seq<T>) -> Seq<T::V> {
    Seq::new(items.len(), |i: int| items[i]@)
}

/// The view of what an optional value holds.
pub open spec fn maybe<T: View>(value: Option<T>) -> Option<T::V> {
    match value {
        Some(held) => Some(held@),
        None => None,
    }
}

/// The views of the items of an optional list.
pub open spec fn maybe_views<T: View>(items: Option<Vec<T>>) -> Option<Seq<T::V>> {
    match items {
        Some(held) => Some(views(held@)),
        None => None,
    }
}

/// The view of the outcome of decoding an optional list.
pub open spec fn optional_list_outcome<T: View, E: View>(
    result: Result<Option<Vec<T>>, E>,
) -> Result<Option<Seq<T::V>>, E::V> {
    match result {
        Ok(items) => Ok(maybe_views(items)),
        Err(error) => Err(error@),
    }
}

/// The view of the outcome of decoding an optional value.
pub open spec fn optional_outcome<T: View, E: View>(result: Result<Option<T>, E>) -> Result<
    Option<T::V>,
    E::V,
> {
    match result {
        Ok(value) => Ok(maybe(value)),
        Err(error) => Err(error@),
    }
}

/// The view of the outcome of decoding a list.
pub open spec fn list_outcome<T: View, E: View>(result: Result<Vec<T>, E>) -> Result<
    Seq<T::V>,
    E::V,
> {
    match result {
        Ok(items) => Ok(views(items@)),
        Err(error) => Err(error@),
    }
}

/// The view of a decoding outcome: of the value on success, of the error on
/// failure.
pub open spec fn outcome<T: View, E: View>(result: Result<T, E>) -> Result<T::V, E::V> {
    match result {
        Ok(value) => Ok(value@),
        Err(error) => Err(error@),
    }
}

} // verus!
