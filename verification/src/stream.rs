//! The batches a producer has delivered to a scan and the scan has not
//! consumed yet, oldest first.

use vstd::prelude::*;
use crate::batch::{Batch, BatchView};

verus! {

/// What a producer delivers: a batch, or the news that it failed.
#[derive(Debug)]
pub enum StreamItem {
    Batch(Batch),
    Failure(String),
}

/// What a [`StreamItem`] stands for.
pub ghost enum StreamItemView {
    Batch(BatchView),
    Failure(Seq<char>),
}

impl View for StreamItem {
    type V = StreamItemView;

    open spec fn view(&self) -> StreamItemView {
        match self {
            StreamItem::Batch(b) => StreamItemView::Batch(b@),
            StreamItem::Failure(text) => StreamItemView::Failure(text@),
        }
    }
}

/// The views of a list of items, in order.
pub open spec fn items_view(items: Seq<StreamItem>) -> Seq<StreamItemView> {
    items.map_values(|item: StreamItem| item@)
}

/// `item` is a batch without rows.
pub open spec fn is_empty_batch(item: StreamItemView) -> bool {
    item matches StreamItemView::Batch(b) && b.num_rows == 0
}

/// Index of the first item at or after `from` that is not a batch without
/// rows, or the number of items when only such batches follow.
pub open spec fn first_substantial_from(items: Seq<StreamItemView>, from: int) -> int
    decreases items.len() - from,
{
    if from < 0 || from >= items.len() {
        items.len() as int
    } else if !is_empty_batch(items[from]) {
        from
    } else {
        first_substantial_from(items, from + 1)
    }
}

pub proof fn lemma_first_substantial(items: Seq<StreamItemView>, from: int)
    requires
        0 <= from <= items.len(),
    ensures
        from <= first_substantial_from(items, from) <= items.len(),
        first_substantial_from(items, from) < items.len() ==> !is_empty_batch(
            items[first_substantial_from(items, from)],
        ),
        forall|j: int| from <= j < first_substantial_from(items, from) ==> is_empty_batch(items[j]),
    decreases items.len() - from,
{
    if from < items.len() && is_empty_batch(items[from]) {
        lemma_first_substantial(items, from + 1);
    }
}

/// The delivered and not yet consumed items of one scan.
#[derive(Debug)]
pub struct BatchStream {
    items: Vec<StreamItem>,
}

impl View for BatchStream {
    type V = Seq<StreamItemView>;

    closed spec fn view(&self) -> Seq<StreamItemView> {
        items_view(self.items@)
    }
}

impl BatchStream {
    /// A stream that delivers `items`, first to last, and then ends.
    pub fn new(items: Vec<StreamItem>) -> (stream: BatchStream)
        ensures
            stream@ == items_view(items@),
    {
        BatchStream { items }
    }

    /// The number of items not yet consumed.
    pub fn remaining(&self) -> (n: usize)
        ensures
            n == self@.len(),
    {
        self.items.len()
    }

    /// Adds `item` behind the items already delivered.
    pub fn deliver(&mut self, item: StreamItem)
        ensures
            final(self)@ == old(self)@.push(item@),
    {
        self.items.push(item);
    }

    /// Takes the oldest item, if there is one.
    pub fn next(&mut self) -> (item: Option<StreamItem>)
        ensures
            match item {
                Some(first) => old(self)@.len() > 0 && first@ == old(self)@[0] && final(self)@
                    == old(self)@.skip(1),
                None => old(self)@.len() == 0 && final(self)@ == old(self)@,
            },
    {
        if self.items.len() == 0 {
            None
        } else {
            let first = self.items.remove(0);
            Some(first)
        }
    }

    /// Whether every remaining item is a batch without rows.
    pub fn is_drained(&self) -> (drained: bool)
        ensures
            drained == (first_substantial_from(self@, 0) >= self@.len()),
    {
        let ghost items = self@;
        let mut i: usize = 0;
        while i < self.items.len()
            invariant
                i <= self.items@.len(),
                items == self@,
                first_substantial_from(items, 0) == first_substantial_from(items, i as int),
            decreases self.items@.len() - i,
        {
            match &self.items[i] {
                StreamItem::Failure(_) => {
                    return false;
                },
                StreamItem::Batch(b) => {
                    if b.num_rows() != 0 {
                        return false;
                    }
                },
            }
            i += 1;
        }
        true
    }
}

} // verus!
