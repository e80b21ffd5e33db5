//! The stream between two stages of a pipeline.

use crate::datablocks::data_block::{BlockView, DataBlock};
use crate::error::{Error, ErrorView};
use std::collections::VecDeque;
use vstd::prelude::*;

verus! {

/// A stream as contracts see it: the items it has yet to yield, in order.
pub type StreamView = Seq<Result<BlockView, ErrorView>>;

/// One item of a stream as contracts see it.
pub open spec fn item_view(item: Result<DataBlock, Error>) -> Result<BlockView, ErrorView> {
    match item {
        Ok(block) => Ok(block@),
        Err(error) => Err(error@),
    }
}

/// A finite sequence of blocks and failures that is read once, front to back.
///
/// The one reader owns the stream; what it has taken the stream yields no more.
#[derive(Debug, PartialEq, Eq)]
pub struct DataBlockStream {
    items: VecDeque<Result<DataBlock, Error>>,
}

impl View for DataBlockStream {
    type V = StreamView;

    closed spec fn view(&self) -> StreamView {
        self.items@.map_values(|item: Result<DataBlock, Error>| item_view(item))
    }
}

impl DataBlockStream {
    /// Builds the stream that yields nothing.
    pub fn empty() -> (s: DataBlockStream)
        ensures
            s@ == StreamView::empty(),
    {
        let s = DataBlockStream { items: VecDeque::new() };
        assert(s@ =~= StreamView::empty());
        s
    }

    /// Puts `item` behind all that the stream has yet to yield.
    pub fn push(&mut self, item: Result<DataBlock, Error>)
        ensures
            final(self)@ == old(self)@.push(item_view(item)),
    {
        self.items.push_back(item);
        assert(self@ =~= old(self)@.push(item_view(item)));
    }

    /// Returns the number of items that the stream has yet to yield.
    pub fn len(&self) -> (n: usize)
        ensures
            n == self@.len(),
    {
        self.items.len()
    }

    /// Takes the next item off the stream; `None` where the stream has ended.
    pub fn next(&mut self) -> (r: Option<Result<DataBlock, Error>>)
        ensures
            match r {
                Some(item) => {
                    &&& old(self)@.len() > 0
                    &&& item_view(item) == old(self)@[0]
                    &&& final(self)@ == old(self)@.drop_first()
                },
                None => old(self)@.len() == 0 && final(self)@ == old(self)@,
            },
    {
        let r = self.items.pop_front();
        assert(r is Some ==> self@ =~= old(self)@.drop_first());
        r
    }
}

} // verus!
