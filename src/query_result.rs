use vstd::prelude::*;

use crate::error::Error;

verus! {

/// The documents that one execution of a query returned, in order.
#[derive(Clone, Debug)]
pub struct QueryResult<T>(pub Vec<T>);

impl<T> QueryResult<T> {
    /// The result holding `documents`.
    pub fn new(documents: Vec<T>) -> (r: Self)
        ensures
            r.0@ == documents@,
    {
        QueryResult(documents)
    }

    /// The number of documents.
    pub fn len(&self) -> (r: usize)
        ensures
            r == self.0@.len(),
    {
        self.0.len()
    }

    /// Whether there is no document.
    pub fn is_empty(&self) -> (r: bool)
        ensures
            r == (self.0@.len() == 0),
    {
        self.0.len() == 0
    }

    /// Appends the documents of `other` after those of this result, in their order.
    pub fn append(&mut self, other: QueryResult<T>)
        ensures
            final(self).0@ == old(self).0@ + other.0@,
    {
        let mut rest = other.0;
        self.0.append(&mut rest);
    }

    /// The only document of this result; an error holding the number of documents when there
    /// is none or more than one.
    pub fn uniq(self) -> (r: Result<T, Error>)
        ensures
            self.0@.len() == 1 ==> r == Ok::<T, Error>(self.0@[0]),
            self.0@.len() != 1 ==> r == Err::<T, Error>(Error::NotFound { count: self.0@.len() as usize }),
    {
        let mut documents = self.0;
        if documents.len() != 1 {
            return Err(Error::NotFound { count: documents.len() });
        }
        Ok(documents.remove(0))
    }

    /// The first document of this result, if there is one.
    pub fn first_record(self) -> (r: Option<T>)
        ensures
            self.0@.len() == 0 ==> r is None,
            self.0@.len() > 0 ==> r == Some(self.0@[0]),
    {
        let mut documents = self.0;
        if documents.len() == 0 {
            None
        } else {
            Some(documents.remove(0))
        }
    }
}

impl<T> From<Vec<T>> for QueryResult<T> {
    fn from(documents: Vec<T>) -> (r: QueryResult<T>) {
        QueryResult(documents)
    }
}

impl<T> vstd::std_specs::convert::FromSpecImpl<Vec<T>> for QueryResult<T> {
    open spec fn obeys_from_spec() -> bool {
        true
    }

    open spec fn from_spec(documents: Vec<T>) -> QueryResult<T> {
        QueryResult(documents)
    }
}

} // verus!
