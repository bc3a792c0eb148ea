//! A content hash that is either borrowed or shared.

use crate::hash::ContentHash;
use std::sync::Arc;
use vstd::prelude::*;

verus! {

/// A content hash held by reference or by reference count.
#[derive(Clone, Debug)]
pub enum HashCow<'lt> {
    Borrowed(&'lt ContentHash),
    Owned(Arc<ContentHash>),
}

impl<'lt> View for HashCow<'lt> {
    type V = Seq<u8>;

    open spec fn view(&self) -> Seq<u8> {
        match self {
            HashCow::Borrowed(h) => h@,
            HashCow::Owned(h) => h@,
        }
    }
}

impl<'lt> HashCow<'lt> {
    /// Holds the shared hash `hash`.
    pub fn from_arc(hash: Arc<ContentHash>) -> (r: Self)
        ensures
            r@ == hash@,
    {
        HashCow::Owned(hash)
    }

    /// Holds `hash`, moved behind a reference count.
    pub fn from_hash(hash: ContentHash) -> (r: Self)
        ensures
            r@ == hash@,
    {
        Self::from_arc(Arc::new(hash))
    }

    /// Holds a reference to `hash`.
    pub fn from_ref(hash: &'lt ContentHash) -> (r: Self)
        ensures
            r@ == hash@,
    {
        HashCow::Borrowed(hash)
    }

    /// The hash behind a reference count, copied there when borrowed.
    pub fn to_arc(&self) -> (r: Arc<ContentHash>)
        ensures
            r@ == self@,
    {
        match self {
            HashCow::Borrowed(h) => Arc::new(**h),
            HashCow::Owned(h) => h.clone(),
        }
    }

    /// The hash, by reference.
    pub fn to_ref(&self) -> (r: &ContentHash)
        ensures
            r@ == self@,
    {
        match self {
            HashCow::Borrowed(h) => h,
            HashCow::Owned(h) => &**h,
        }
    }
}

} // verus!
