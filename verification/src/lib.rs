//! Support for PostgreSQL's `ltree` type in typed query expressions: the
//! type's wire identifiers, its SQL functions and its comparison and
//! containment operators, written into queries with diesel's PostgreSQL
//! query builder.
//!
//! ```text
//! let path = Column::<Ltree>::new("nodes", "path");
//! let below = path.contained_by(text2ltree("top.middle"));
//! assert_eq!(render(&below).unwrap(), "\"nodes\".\"path\" <@ text2ltree($1)");
//! ```

pub mod builder;
pub mod dsl;
pub mod expression;
pub mod functions;
pub mod types;

pub use crate::dsl::{Infix, LtreeExtensions, Operator};
pub use crate::expression::{render, AsExpression, Bound, Column, Expression};
pub use crate::functions::{
    index, index_from, ltree2text, nlevel, subltree, subpath, subpath_from, text2ltree, Arguments,
    Call, Index, IndexFrom, Ltree2text, Nlevel, SqlFunction, Subltree, Subpath, SubpathFrom,
    Text2ltree,
};
pub use crate::types::{Ltree, TypeMetadata, LTREE_ARRAY_OID, LTREE_OID};
