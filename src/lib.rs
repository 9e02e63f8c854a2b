//! Query-execution cursors over sorted document ids, with the "optional" combinator
//! that makes every id in a bounded range match, and the query-error record.

pub mod query_error;
pub mod iterator;
pub mod leaves;
pub mod optional;
