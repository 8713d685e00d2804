//! The `ltree` SQL type, its wire identifiers, and the other SQL types
//! that its functions take and return.

use vstd::prelude::*;

verus! {

/// `diesel::types::Integer`, diesel's marker of the SQL type `integer`.
/// Its alias `Int4` is the name used here.
#[verifier::external_type_specification]
#[verifier::external_body]
pub struct ExInteger(diesel::types::Integer);

/// `diesel::types::Text`, diesel's marker of the SQL type `text`.
#[verifier::external_type_specification]
#[verifier::external_body]
pub struct ExText(diesel::types::Text);

/// `diesel::types::Bool`, diesel's marker of the SQL type `boolean`.
#[verifier::external_type_specification]
#[verifier::external_body]
pub struct ExBool(diesel::types::Bool);

/// OID of the `ltree` scalar type.
pub const LTREE_OID: u32 = 24754;

/// OID of the `ltree[]` array type.
pub const LTREE_ARRAY_OID: u32 = 24757;

/// The SQL type `ltree`: a path of labels separated by dots, such as
/// `top.middle.bottom`. A marker without data, which stands for the type
/// wherever an expression's SQL type is declared.
#[derive(Clone, Copy, Debug)]
pub struct Ltree;

/// The pair of OIDs by which PostgreSQL tags the values of a type on the
/// wire.
#[derive(Clone, Copy, Debug, PartialEq, Eq, Structural)]
pub struct TypeMetadata {
    /// OID of the scalar type.
    pub oid: u32,
    /// OID of the array type whose elements have the scalar type.
    pub array_oid: u32,
}

impl Ltree {
    /// The wire identifiers of `ltree` and `ltree[]` that are built in.
    ///
    /// The OIDs of an extension's types are given out when the extension
    /// is installed, so these hold for one installation. See
    /// [`Ltree::resolve_metadata`] for a database that may differ.
    pub fn metadata() -> (meta: TypeMetadata)
        ensures
            meta.oid == LTREE_OID,
            meta.array_oid == LTREE_ARRAY_OID,
    {
        TypeMetadata { oid: LTREE_OID, array_oid: LTREE_ARRAY_OID }
    }

    /// The name under which the catalog `pg_type` lists the type.
    pub fn sql_name() -> (name: &'static str)
        ensures
            name@ == "ltree"@,
    {
        "ltree"
    }

    /// The wire identifiers to use with a database whose catalog was asked
    /// for the type by its name.
    ///
    /// `catalog` is what the catalog answered, with a zero OID where it
    /// does not know the type: no type has the OID zero. `configured` is
    /// the pair that the application was configured with, if any. The
    /// catalog's answer is taken where it knows the type, else the
    /// configured pair, else the built-in pair.
    pub fn resolve_metadata(
        catalog: TypeMetadata,
        configured: Option<TypeMetadata>,
    ) -> (meta: TypeMetadata)
        ensures
            catalog.oid != 0 ==> meta == catalog,
            catalog.oid == 0 && configured is Some ==> meta == configured->0,
            catalog.oid == 0 && configured is None ==> meta == (TypeMetadata {
                oid: LTREE_OID,
                array_oid: LTREE_ARRAY_OID,
            }),
    {
        if catalog.oid != 0 {
            catalog
        } else {
            match configured {
                Some(pair) => pair,
                None => Ltree::metadata(),
            }
        }
    }
}

} // verus!
