//! What is known of a source table before its columns are classified.

use vstd::prelude::*;

verus! {

/// A source table as it is described to the transformer.
#[derive(Debug, Clone)]
pub struct SourceTableDetail {
    pub schema_name: String,
    pub table_name: String,
    pub column_details: Vec<String>,
}

/// The tracked source object behind the column at a position of its table.
#[derive(Debug, Clone, Copy, PartialEq, Eq, Structural)]
pub struct ColumnLink {
    pub column_ordinal_position: i32,
    pub pk_source_objects: i32,
}

/// The tracked source objects behind the columns of one table.
#[derive(Debug)]
pub struct TableLinks {
    pub column_links: Vec<ColumnLink>,
}

/// The link at `k` is the first for the column at the given position.
pub open spec fn first_link_at(links: Seq<ColumnLink>, position: i32, k: int) -> bool {
    &&& 0 <= k < links.len()
    &&& links[k].column_ordinal_position == position
    &&& forall|e: int| 0 <= e < k ==> (#[trigger] links[e]).column_ordinal_position != position
}

impl TableLinks {
    /// The source object behind the column at the given position: that of
    /// the first link for it, and nothing where no link is for it.
    pub fn find_pk_source_objects(&self, column_ordinal_position: i32) -> (found: Option<i32>)
        ensures
            match found {
                Some(pk) => exists|k: int|
                    first_link_at(self.column_links@, column_ordinal_position, k)
                        && #[trigger] self.column_links@[k].pk_source_objects == pk,
                None => forall|e: int|
                    0 <= e < self.column_links.len() ==> (
                    #[trigger] self.column_links@[e]).column_ordinal_position
                        != column_ordinal_position,
            },
    {
        let mut k: usize = 0;
        while k < self.column_links.len()
            invariant
                k <= self.column_links.len(),
                forall|e: int|
                    0 <= e < k ==> (#[trigger] self.column_links@[e]).column_ordinal_position
                        != column_ordinal_position,
            decreases self.column_links.len() - k,
        {
            if self.column_links[k].column_ordinal_position == column_ordinal_position {
                assert(first_link_at(self.column_links@, column_ordinal_position, k as int));
                return Some(self.column_links[k].pk_source_objects);
            }
            k += 1;
        }
        None
    }
}

} // verus!
