use vstd::prelude::*;

use crate::wrapper_types::NDWrapper;

verus! {

/// A collection that arrives either as a map keyed by strings or as a plain
/// sequence; readers only care about the values, in order.
#[derive(Debug)]
pub enum MapOrSeq<V> {
    Keyed(Vec<(String, V)>),
    Plain(Vec<V>),
}

impl<V> MapOrSeq<V> {
    /// The values this collection holds, in order, without any keys.
    pub open spec fn spec_values(self) -> Seq<V> {
        match self {
            MapOrSeq::Keyed(pairs) => pairs@.map_values(|p: (String, V)| p.1),
            MapOrSeq::Plain(items) => items@,
        }
    }

    /// The values in order, keys dropped.
    pub fn values(&self) -> (r: Vec<&V>)
        ensures
            r@.len() == self.spec_values().len(),
            forall|i: int| 0 <= i < r@.len() ==> *(#[trigger] r@[i]) == self.spec_values()[i],
    {
        match self {
            MapOrSeq::Keyed(pairs) => {
                let mut out: Vec<&V> = Vec::new();
                let mut i: usize = 0;
                while i < pairs.len()
                    invariant
                        i <= pairs@.len(),
                        out@.len() == i as int,
                        forall|j: int| 0 <= j < i as int ==> *(#[trigger] out@[j]) == pairs@[j].1,
                    decreases pairs@.len() - i,
                {
                    out.push(&pairs[i].1);
                    i = i + 1;
                }
                out
            },
            MapOrSeq::Plain(items) => {
                let mut out: Vec<&V> = Vec::new();
                let mut i: usize = 0;
                while i < items.len()
                    invariant
                        i <= items@.len(),
                        out@.len() == i as int,
                        forall|j: int| 0 <= j < i as int ==> *(#[trigger] out@[j]) == items@[j],
                    decreases items@.len() - i,
                {
                    out.push(&items[i]);
                    i = i + 1;
                }
                out
            },
        }
    }
}

/// A release date that arrives either as a bare year or as a full date.
#[derive(Debug)]
pub enum YearOrYMD {
    Year(u64),
    YMD(NDWrapper),
}

} // verus!
