use vstd::prelude::*;

use crate::query_result::QueryResult;

verus! {

/// The model of an optional continuation handle.
pub open spec fn handle_view(h: Option<String>) -> Option<Seq<char>> {
    match h {
        None => None,
        Some(s) => Some(s@),
    }
}

/// What a [`QueryCursor`] holds.
pub struct CursorView<T> {
    /// The first batch, returned with the statement's execution.
    pub first: Seq<T>,
    /// The handle to ask the executor for the next batch with; none once exhausted.
    pub handle: Option<Seq<char>>,
    pub batch_size: u32,
    /// Every batch handed out so far, the first included, in order.
    pub batches: Seq<Seq<T>>,
}

/// Batched results of a query: the first batch, and a continuation handle with which the
/// executor is asked for each further batch, strictly one after the other.
///
/// The cursor decides and the caller performs the fetch: [`QueryCursor::next_request`] says
/// what to ask the executor for, or that there is nothing more; [`QueryCursor::receive`] takes
/// the executor's answer.
pub struct QueryCursor<T> {
    result: QueryResult<T>,
    handle: Option<String>,
    batch_size: u32,
    batches: Ghost<Seq<Seq<T>>>,
}

impl<T> View for QueryCursor<T> {
    type V = CursorView<T>;

    closed spec fn view(&self) -> CursorView<T> {
        CursorView {
            first: self.result.0@,
            handle: handle_view(self.handle),
            batch_size: self.batch_size,
            batches: self.batches@,
        }
    }
}

impl<T> QueryCursor<T> {
    /// A cursor on the first batch `result`, with the executor's continuation `handle` (none
    /// when there is no further batch) and the size to ask each further batch with.
    pub fn new(result: QueryResult<T>, handle: Option<String>, batch_size: u32) -> (r: Self)
        ensures
            r@ == (CursorView {
                first: result.0@,
                handle: handle_view(handle),
                batch_size,
                batches: seq![result.0@],
            }),
    {
        let batches: Ghost<Seq<Seq<T>>> = Ghost(Seq::empty().push(result.0@));
        let r = QueryCursor { result, handle, batch_size, batches };
        assert(r@.batches =~= seq![r@.first]);
        r
    }

    /// The first batch.
    pub fn result(&self) -> (r: &QueryResult<T>)
        ensures
            r.0@ == self@.first,
    {
        &self.result
    }

    /// Whether the executor has further batches.
    pub fn has_more(&self) -> (r: bool)
        ensures
            r == (self@.handle is Some),
    {
        self.handle.is_some()
    }

    /// What to ask the executor for next: the continuation handle and the batch size, or
    /// nothing once the cursor is exhausted.
    pub fn next_request(&self) -> (r: Option<(String, u32)>)
        ensures
            match self@.handle {
                None => r is None,
                Some(h) => match r {
                    Some((id, size)) => id@ == h && size == self@.batch_size,
                    None => false,
                },
            },
    {
        match &self.handle {
            None => None,
            Some(h) => Some((h.clone(), self.batch_size)),
        }
    }

    /// Takes the executor's answer to [`QueryCursor::next_request`]: a batch with the handle for
    /// the one after it (none when it was the last), or a failure. The batch is handed back
    /// unchanged; a failure is handed back unchanged too and ends the cursor.
    pub fn receive<E>(&mut self, answer: Result<(Vec<T>, Option<String>), E>) -> (r: Result<QueryResult<T>, E>)
        requires
            old(self)@.handle is Some,
        ensures
            final(self)@.first == old(self)@.first,
            final(self)@.batch_size == old(self)@.batch_size,
            match answer {
                Ok((documents, handle)) => {
                    &&& r is Ok
                    &&& r->Ok_0.0@ == documents@
                    &&& final(self)@.handle == handle_view(handle)
                    &&& final(self)@.batches == old(self)@.batches.push(documents@)
                },
                Err(e) => {
                    &&& r == Err::<QueryResult<T>, E>(e)
                    &&& final(self)@.handle is None
                    &&& final(self)@.batches == old(self)@.batches
                },
            },
    {
        match answer {
            Ok((documents, handle)) => {
                self.handle = handle;
                proof {
                    self.batches@ = self.batches@.push(documents@);
                }
                Ok(QueryResult(documents))
            },
            Err(e) => {
                self.handle = None;
                Err(e)
            },
        }
    }
}

/// A fresh cursor has handed out exactly its first batch.
pub proof fn lemma_drain_start<T>(c: CursorView<T>)
    requires
        c.batches == seq![c.first],
    ensures
        c.batches.flatten() == c.first,
{
    c.batches.lemma_flatten_one_element();
}

/// Draining a cursor loses and repeats nothing: a consumer that holds every document handed out
/// before a [`QueryCursor::receive`] and appends the batch it returns holds every document
/// handed out after it, the new ones after the earlier ones, each batch in its order.
pub proof fn lemma_drain_step<T>(before: CursorView<T>, after: CursorView<T>, collected: Seq<T>, batch: Seq<T>)
    requires
        collected == before.batches.flatten(),
        after.batches == before.batches.push(batch),
    ensures
        collected + batch == after.batches.flatten(),
        (collected + batch).len() == collected.len() + batch.len(),
        forall|i: int| 0 <= i < collected.len() ==> (collected + batch)[i] == collected[i],
        forall|i: int| 0 <= i < batch.len() ==> (collected + batch)[collected.len() + i] == batch[i],
{
    before.batches.lemma_flatten_push(batch);
}

} // verus!
