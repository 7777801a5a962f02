//! Result retrieval: the descriptor a statement submission returns, the
//! modeled columnar batches, and the rules applied to a drained stream.

use vstd::prelude::*;
use vstd::string::StringExecFns;
use crate::errors::ClientError;

verus! {

/// One server-side endpoint of a result descriptor, carrying an optional
/// opaque retrieval ticket.
pub struct TicketEndpoint {
    /// The opaque token authorizing retrieval of one result stream.
    pub ticket: Option<Vec<u8>>,
}

/// What a statement submission returns: the server-side endpoints from which
/// the results can be retrieved, in server order.
pub struct ResultDescriptor {
    /// The endpoints, in server order.
    pub endpoints: Vec<TicketEndpoint>,
}

impl ResultDescriptor {
    /// The retrieval ticket of the first endpoint. The design assumes a
    /// single endpoint: multi-endpoint fan-out is an explicit non-goal, and
    /// later endpoints are deliberately not consulted.
    pub fn first_ticket(&self) -> (r: Result<&Vec<u8>, ClientError>)
        ensures
            match r {
                Ok(t) => self.endpoints@.len() > 0 && self.endpoints@[0].ticket == Some(*t),
                Err(e) => {
                    &&& e matches ClientError::ExecutionError(m)
                    &&& if self.endpoints@.len() == 0 {
                        m@ == "No endpoint in flight info"@
                    } else {
                        self.endpoints@[0].ticket is None && m@ == "No ticket in endpoint"@
                    }
                },
            },
    {
        if self.endpoints.len() == 0 {
            return Err(
                ClientError::ExecutionError(String::from_str("No endpoint in flight info")),
            );
        }
        match &self.endpoints[0].ticket {
            Some(t) => Ok(t),
            None => Err(ClientError::ExecutionError(String::from_str("No ticket in endpoint"))),
        }
    }
}

/// One column of a modeled result batch. Sixty-four-bit integer columns are
/// held exactly — affected-row counts arrive in one — and thirty-two-bit
/// integer columns likewise; a column of any other server type is held only
/// by its row count, since no client rule reads its values.
pub enum ColumnData {
    /// A 64-bit integer column.
    Int64(Vec<i64>),
    /// A 32-bit integer column.
    Int32(Vec<i32>),
    /// A column of another type, by its row count.
    Other(usize),
}

impl ColumnData {
    /// The number of rows in the column.
    pub open spec fn spec_rows(&self) -> nat {
        match self {
            ColumnData::Int64(v) => v@.len(),
            ColumnData::Int32(v) => v@.len(),
            ColumnData::Other(n) => *n as nat,
        }
    }

    /// The number of rows in the column.
    pub fn rows(&self) -> (r: usize)
        ensures
            r == self.spec_rows(),
    {
        match self {
            ColumnData::Int64(v) => v.len(),
            ColumnData::Int32(v) => v.len(),
            ColumnData::Other(n) => *n,
        }
    }
}

/// One named, typed column.
pub struct Column {
    /// The column name.
    pub name: String,
    /// The column values.
    pub data: ColumnData,
}

/// A modeled columnar batch: an ordered sequence of rows under a fixed
/// schema of named, typed columns. Immutable once materialized.
pub struct ResultBatch {
    /// The columns, in schema order.
    pub columns: Vec<Column>,
}

impl ResultBatch {
    /// The number of rows: that of the first column, or zero without
    /// columns.
    pub open spec fn spec_rows(&self) -> nat {
        if self.columns@.len() == 0 {
            0
        } else {
            self.columns@[0].data.spec_rows()
        }
    }

    /// Every column has the same number of rows.
    pub open spec fn well_formed(&self) -> bool {
        forall|i: int|
            0 <= i < self.columns@.len() ==> (#[trigger] self.columns@[i].data).spec_rows()
                == self.spec_rows()
    }
}

/// The shape under which a result carries an affected-row count: at least
/// one batch, whose first column is a 64-bit integer column with at least
/// one row.
pub open spec fn has_affected_count(batches: Seq<ResultBatch>) -> bool {
    &&& batches.len() > 0
    &&& batches[0].columns@.len() > 0
    &&& batches[0].columns@[0].data is Int64
    &&& batches[0].columns@[0].data->Int64_0@.len() > 0
}

/// The count itself: the single integer value in the first column of the
/// first batch.
pub open spec fn spec_affected_count(batches: Seq<ResultBatch>) -> i64
    recommends
        has_affected_count(batches),
{
    batches[0].columns@[0].data->Int64_0@[0]
}

/// Extracts the affected-row count a write statement reports: the single
/// integer value in the first column of the first batch, or nothing when
/// the result does not have that shape.
pub fn affected_row_count(batches: &Vec<ResultBatch>) -> (r: Option<i64>)
    ensures
        r is Some <==> has_affected_count(batches@),
        r matches Some(c) ==> c == spec_affected_count(batches@),
{
    if batches.len() == 0 {
        return None;
    }
    let first = &batches[0];
    if first.columns.len() == 0 {
        return None;
    }
    match &first.columns[0].data {
        ColumnData::Int64(v) => {
            if v.len() > 0 {
                Some(v[0])
            } else {
                None
            }
        },
        _ => None,
    }
}

/// Applies the rule on a fully drained result stream: zero batches is
/// anomalous — even a write statement returns one batch carrying its
/// affected-row count — and fails; otherwise the batches pass through
/// unchanged, in order.
///
/// Law: draining a result stream that yielded zero batches always fails
/// with `EmptyResultError`, regardless of statement kind.
pub fn check_drained<T>(batches: Vec<T>) -> (r: Result<Vec<T>, ClientError>)
    ensures
        batches@.len() == 0 ==> (r matches Err(e) && e is EmptyResultError),
        batches@.len() > 0 ==> (r matches Ok(b) && b == batches),
{
    if batches.len() == 0 {
        Err(ClientError::EmptyResultError)
    } else {
        Ok(batches)
    }
}

} // verus!
