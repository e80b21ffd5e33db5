//! A stream over blocks that are in memory already.

use crate::datablocks::data_block::{BlockView, DataBlock};
use crate::datastreams::stream::{DataBlockStream, StreamView};
use crate::datavalues::data_schema::{DataSchema, FieldView};
use crate::error::ErrorView;
use vstd::prelude::*;

verus! {

/// The blocks that pass a limit of `limit` rows: whole blocks as long as
/// they fit, then the first rows of the block that does not, and nothing
/// once the limit is used up.
pub open spec fn truncate(blocks: Seq<BlockView>, limit: nat) -> Seq<BlockView>
    decreases blocks.len(),
{
    if blocks.len() == 0 || limit == 0 {
        Seq::empty()
    } else if blocks[0].rows() <= limit {
        seq![blocks[0]] + truncate(blocks.drop_first(), (limit - blocks[0].rows()) as nat)
    } else {
        seq![blocks[0].take(limit)]
    }
}

/// The rows of all of `blocks` together.
pub open spec fn rows_of(blocks: Seq<BlockView>) -> nat
    decreases blocks.len(),
{
    if blocks.len() == 0 {
        0
    } else {
        blocks[0].rows() + rows_of(blocks.drop_first())
    }
}

/// Under a limit as many rows pass as there are, and no more than the limit.
pub proof fn lemma_truncate_rows(blocks: Seq<BlockView>, limit: nat)
    ensures
        rows_of(truncate(blocks, limit)) == if rows_of(blocks) <= limit {
            rows_of(blocks)
        } else {
            limit
        },
    decreases blocks.len(),
{
    if blocks.len() == 0 || limit == 0 {
    } else if blocks[0].rows() <= limit {
        let rest = truncate(blocks.drop_first(), (limit - blocks[0].rows()) as nat);
        lemma_truncate_rows(blocks.drop_first(), (limit - blocks[0].rows()) as nat);
        assert((seq![blocks[0]] + rest).drop_first() =~= rest);
    } else {
        let cut = seq![blocks[0].take(limit)];
        assert(cut.drop_first() =~= Seq::<BlockView>::empty());
        assert(rows_of(cut.drop_first()) == 0);
    }
}

/// What a memory stream over `blocks` yields: the blocks in their order, cut
/// to `limit` rows where there is a limit. No item is a failure.
pub open spec fn replay(blocks: Seq<BlockView>, limit: Option<nat>) -> StreamView {
    let kept = match limit {
        Some(n) => truncate(blocks, n),
        None => blocks,
    };
    kept.map_values(|b: BlockView| Ok::<BlockView, ErrorView>(b))
}

/// A row limit as contracts see it.
pub open spec fn limit_view(limit: Option<usize>) -> Option<nat> {
    match limit {
        Some(n) => Some(n as nat),
        None => None,
    }
}

/// A producer that replays a fixed list of blocks, and never fails.
#[derive(Debug, PartialEq, Eq)]
pub struct MemoryStream {
    schema: DataSchema,
    limit: Option<usize>,
    blocks: Vec<DataBlock>,
}

impl MemoryStream {
    /// The schema the stream was made with.
    pub closed spec fn schema_view(&self) -> Seq<FieldView> {
        self.schema@
    }

    /// The row limit the stream was made with.
    pub closed spec fn limit_view(&self) -> Option<nat> {
        limit_view(self.limit)
    }

    /// The blocks the stream was made with.
    pub closed spec fn blocks_view(&self) -> Seq<BlockView> {
        self.blocks@.map_values(|b: DataBlock| b@)
    }

    /// Builds the stream that replays `blocks` in order, cut to `limit` rows
    /// where `limit` is given.
    pub fn create(schema: DataSchema, limit: Option<usize>, blocks: Vec<DataBlock>) -> (s:
        MemoryStream)
        ensures
            s.schema_view() == schema@,
            s.limit_view() == limit_view(limit),
            s.blocks_view() == blocks@.map_values(|b: DataBlock| b@),
    {
        MemoryStream { schema, limit, blocks }
    }

    /// Returns the schema the stream was made with.
    pub fn schema(&self) -> (s: &DataSchema)
        ensures
            s@ == self.schema_view(),
    {
        &self.schema
    }

    /// Turns the producer into the stream of what it replays.
    pub fn into_stream(self) -> (s: DataBlockStream)
        ensures
            s@ == replay(self.blocks_view(), self.limit_view()),
    {
        let ghost all = self.blocks_view();
        let ghost wanted = replay(all, self.limit_view());
        let mut out = DataBlockStream::empty();
        let mut left: Option<usize> = self.limit;
        assert(all.skip(0) =~= all);
        assert(out@ + wanted =~= wanted);
        for block in it: self.blocks
            invariant
                it.seq().map_values(|b: DataBlock| b@) == all,
                out@ + replay(all.skip(it.index() as int), limit_view(left)) == wanted,
        {
            let ghost rest = all.skip(it.index() as int);
            let ghost after = all.skip(it.index() + 1);
            assert(rest.len() > 0 && rest[0] == block@ && rest.drop_first() =~= after);
            match left {
                None => {
                    out.push(Ok(block));
                    assert(replay(rest, None) =~= seq![Ok::<BlockView, ErrorView>(block@)] + replay(
                        after,
                        None,
                    ));
                },
                Some(n) => {
                    let rows = block.num_rows();
                    if n == 0 {
                        assert(replay(after, Some(0nat)) =~= StreamView::empty());
                    } else if rows <= n {
                        out.push(Ok(block));
                        left = Some(n - rows);
                        assert(replay(rest, Some(n as nat)) =~= seq![
                            Ok::<BlockView, ErrorView>(block@),
                        ] + replay(after, Some((n - rows) as nat)));
                    } else {
                        out.push(Ok(block.take_rows(n)));
                        left = Some(0);
                        assert(replay(after, Some(0nat)) =~= StreamView::empty());
                        assert(replay(rest, Some(n as nat)) =~= seq![
                            Ok::<BlockView, ErrorView>(block@.take(n as nat)),
                        ]);
                    }
                },
            }
            assert(out@ + replay(after, limit_view(left)) =~= wanted);
        }
        assert(all.skip(all.len() as int) =~= Seq::<BlockView>::empty());
        assert(out@ =~= wanted);
        out
    }
}

} // verus!
