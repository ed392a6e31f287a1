//! The trusted boundary to the polars dataframe library.
//!
//! The library's own types (`Row`, `DataFrame`, `Schema`, `PolarsError`) are
//! declared opaque here, and what a row, a schema or a frame holds is named
//! by uninterpreted spec functions over this crate's scalar model:
//!
//! - a polars value maps to the [`TaggedScalar`] of its kind, floats to
//!   their bit-pattern variants, and values of kinds outside the model to
//!   [`TaggedScalar::Unknown`];
//! - a polars dtype maps to the [`TypeTag`] of its kind, dtypes outside the
//!   model to [`TypeTag::Unknown`].
//!
//! Each wrapper below is believed, not verified: its contract states only
//! what the polars source shows of the call it makes.

use vstd::prelude::*;

use crate::scalar::TaggedScalar;
use crate::scalar::TaggedScalar as Sc;
use crate::scalar::TypeTag;
use crate::scalar::TypeTag as Tg;
use crate::scalar::tag_of;
use crate::table::FieldDesc;
use crate::table::field_entries;
use crate::table::distinct_names;
use polars::frame::DataFrame;
use polars::frame::row::Row;
use polars::prelude::AnyValue as Pv;
use polars::prelude::DataType as Dt;
use polars::error::PolarsError;

verus! {

/// polars' columnar table, opaque to the verifier.
#[verifier::external_type_specification]
#[verifier::external_body]
pub struct ExDataFrame(DataFrame);

/// polars' row of dynamically typed values, opaque to the verifier.
#[verifier::external_type_specification]
#[verifier::external_body]
pub struct ExRow<'a>(Row<'a>);

/// polars' schema, an ordered map from column name to dtype, opaque to the
/// verifier.
#[verifier::external_type_specification]
#[verifier::external_body]
#[verifier::reject_recursive_types(F)]
#[verifier::reject_recursive_types(M)]
pub struct ExSchema<F, M>(polars_schema::Schema<F, M>);

/// polars' error value, carried through unchanged.
#[verifier::external_type_specification]
#[verifier::external_body]
pub struct ExPolarsError(PolarsError);

/// polars' dtype, the schema's field type.
#[verifier::external_type_specification]
#[verifier::external_body]
pub struct ExDataType(Dt);

/// polars' column, reached only through `DataFrame` impls.
#[verifier::external_type_specification]
#[verifier::external_body]
pub struct ExColumn(polars::prelude::Column);

/// The values a polars row holds, in order, in this crate's scalar model.
pub uninterp spec fn row_vals(r: Row<'static>) -> Seq<TaggedScalar>;

/// The cells a dataframe holds, row by row, in this crate's scalar model.
pub uninterp spec fn df_vals(df: DataFrame) -> Seq<Seq<TaggedScalar>>;

/// The column dtypes of a dataframe, in column order, as this crate's tags.
pub uninterp spec fn df_tags(df: DataFrame) -> Seq<TypeTag>;

/// The column names of a dataframe, in column order.
pub uninterp spec fn df_names(df: DataFrame) -> Seq<Seq<char>>;

/// The entries of a polars schema: one (name, tag) pair per field, in order.
pub uninterp spec fn schema_entries(s: polars::prelude::Schema) -> Seq<(Seq<char>, TypeTag)>;

/// Whether this layer can hand the scalar to polars itself.  A float
/// payload would have to be rebuilt from its bit pattern, which the
/// verifier does not admit, and `Unknown` names no polars value.
pub open spec fn representable(s: TaggedScalar) -> bool {
    tag_of(s) != TypeTag::Float32 && tag_of(s) != TypeTag::Float64 && tag_of(s)
        != TypeTag::Unknown
}

/// Relies on polars' `Row::new`: the row holds exactly the given values,
/// in order.  Text and binary payloads are handed over as polars' owned
/// variants of the same text and bytes.
#[verifier::external_body]
pub fn row_schema(row: Vec<TaggedScalar>) -> (r: Row<'static>)
    requires
        forall|i: int| 0 <= i < row@.len() ==> representable(#[trigger] row@[i]),
    ensures
        row_vals(r) == row@,
{
    Row::new(
        row.into_iter().map(|s| match s {
            Sc::Int8(v) => Pv::Int8(v), Sc::Int16(v) => Pv::Int16(v),
            Sc::Int32(v) => Pv::Int32(v), Sc::Int64(v) => Pv::Int64(v),
            Sc::UInt8(v) => Pv::UInt8(v), Sc::UInt16(v) => Pv::UInt16(v),
            Sc::UInt32(v) => Pv::UInt32(v), Sc::UInt64(v) => Pv::UInt64(v),
            Sc::Boolean(v) => Pv::Boolean(v), Sc::Utf8(v) => Pv::StringOwned(v.into()),
            Sc::Binary(v) => Pv::BinaryOwned(v), Sc::Null => Pv::Null,
            _ => Pv::Null,
        }).collect(),
    )
}

/// Relies on polars' `DataFrame::dtypes`: one dtype per column, in column
/// order, mapped here to this crate's tags.
#[verifier::external_body]
pub(crate) fn df_dtypes(df: &DataFrame) -> (r: Vec<TypeTag>)
    ensures
        r@ == df_tags(*df),
{
    df.dtypes().into_iter().map(|t| match t {
        Dt::Int8 => Tg::Int8, Dt::Int16 => Tg::Int16,
        Dt::Int32 => Tg::Int32, Dt::Int64 => Tg::Int64,
        Dt::UInt8 => Tg::UInt8, Dt::UInt16 => Tg::UInt16,
        Dt::UInt32 => Tg::UInt32, Dt::UInt64 => Tg::UInt64,
        Dt::Float32 => Tg::Float32, Dt::Float64 => Tg::Float64,
        Dt::Boolean => Tg::Boolean, Dt::String => Tg::Utf8,
        Dt::Binary => Tg::Binary, Dt::Null => Tg::Null,
        _ => Tg::Unknown,
    }).collect()
}

/// Relies on polars' `Schema::from_iter` over `Field::new`: one entry per
/// descriptor, in order.  The schema is an ordered map keyed by name, so
/// the stated entries are only owed when the names are pairwise distinct.
#[verifier::external_body]
pub(crate) fn schema_of_fields(fields: Vec<FieldDesc>) -> (s: polars::prelude::Schema)
    ensures
        distinct_names(field_entries(fields@).map_values(|e: (Seq<char>, TypeTag)| e.0))
            ==> schema_entries(s) == field_entries(fields@),
{
    polars::prelude::Schema::from_iter(fields.into_iter().map(|f|
        polars::prelude::Field::new(f.name.as_str().into(), match f.tag {
            Tg::Int8 => Dt::Int8, Tg::Int16 => Dt::Int16,
            Tg::Int32 => Dt::Int32, Tg::Int64 => Dt::Int64,
            Tg::UInt8 => Dt::UInt8, Tg::UInt16 => Dt::UInt16,
            Tg::UInt32 => Dt::UInt32, Tg::UInt64 => Dt::UInt64,
            Tg::Float32 => Dt::Float32, Tg::Float64 => Dt::Float64,
            Tg::Boolean => Dt::Boolean, Tg::Utf8 => Dt::String,
            Tg::Binary => Dt::Binary, Tg::Null => Dt::Null,
            Tg::Unknown => Dt::Unknown(Default::default()),
        })))
}

/// The tags a row's values carry, in order.
pub open spec fn row_tag_seq(r: Row<'static>) -> Seq<TypeTag> {
    row_vals(r).map_values(|s: TaggedScalar| tag_of(s))
}

/// Whether none of the row's values is of a kind outside the model.
pub open spec fn row_modeled(r: Row<'static>) -> bool {
    forall|j: int|
        0 <= j < row_vals(r).len() ==> tag_of(#[trigger] row_vals(r)[j]) != TypeTag::Unknown
}

/// Whether none of the rows holds a value of a kind outside the model.
pub open spec fn rows_modeled(rows: Seq<Row<'static>>) -> bool {
    forall|i: int| 0 <= i < rows.len() ==> row_modeled(#[trigger] rows[i])
}

/// Whether every row carries, positionally, the same tags as the first:
/// the shape on which table construction is owed success.
pub open spec fn rows_aligned(rows: Seq<Row<'static>>) -> bool {
    forall|i: int| 0 <= i < rows.len() ==> row_tag_seq(#[trigger] rows[i]) == row_tag_seq(rows[0])
}

/// Relies on the shape of polars' `AnyValue` and `Row` (a public tuple
/// struct over a value vector): reads each value's variant and returns
/// this crate's tag for it, kinds outside the model as `Unknown`.  A pure
/// match over the variants; unlike polars' own `AnyValue::dtype`, which
/// aborts on categorical and enumerated values, it never panics.
#[verifier::external_body]
pub(crate) fn row_tags(r: &Row<'static>) -> (t: Vec<TypeTag>)
    ensures
        t@ == row_tag_seq(*r),
{
    r.0.iter().map(|v| match v {
        Pv::Int8(_) => Tg::Int8, Pv::Int16(_) => Tg::Int16,
        Pv::Int32(_) => Tg::Int32, Pv::Int64(_) => Tg::Int64,
        Pv::UInt8(_) => Tg::UInt8, Pv::UInt16(_) => Tg::UInt16,
        Pv::UInt32(_) => Tg::UInt32, Pv::UInt64(_) => Tg::UInt64,
        Pv::Float32(_) => Tg::Float32, Pv::Float64(_) => Tg::Float64,
        Pv::Boolean(_) => Tg::Boolean, Pv::String(_) | Pv::StringOwned(_) => Tg::Utf8,
        Pv::Binary(_) | Pv::BinaryOwned(_) => Tg::Binary, Pv::Null => Tg::Null,
        _ => Tg::Unknown,
    }).collect()
}

/// Relies on polars' `Schema::from(&Row)` and
/// `DataFrame::from_rows_iter_and_schema`: the schema is inferred from the
/// first row's dtypes, then the rows are transposed into columns.  The
/// rows must hold only modeled kinds: on a categorical or enumerated
/// value, polars' `AnyValue::dtype` aborts instead of returning.  On rows
/// whose tags align with the first row's, every cell lands in the buffer
/// of its own dtype and construction succeeds.  Elsewhere polars decides:
/// it converts some mismatched cells (numerics are cast, numbers are even
/// formatted into text columns) and rejects others, so on other shapes
/// nothing is promised either way; what is stated of a returned frame
/// still holds.  A cell whose dtype equals its column's, or a null cell,
/// is stored unchanged; of a converted cell nothing is stated.
#[verifier::external_body]
pub(crate) fn df_build(rows: &Vec<Row<'static>>) -> (r: Result<DataFrame, PolarsError>)
    requires
        rows@.len() > 0,
        rows_modeled(rows@),
    ensures
        rows_aligned(rows@) ==> r is Ok,
        r matches Ok(df) ==> {
            &&& df_tags(df) == row_tag_seq(rows@[0])
            &&& df_vals(df).len() == rows@.len()
            &&& forall|i: int|
                0 <= i < rows@.len() ==> (#[trigger] df_vals(df)[i]).len() == row_vals(
                    rows@[0],
                ).len()
            &&& forall|i: int, j: int|
                {
                    &&& 0 <= i < rows@.len()
                    &&& 0 <= j < row_vals(rows@[0]).len()
                    &&& j < row_vals(rows@[i]).len()
                    &&& (tag_of(row_vals(rows@[i])[j]) == tag_of(row_vals(rows@[0])[j])
                        || row_vals(rows@[i])[j] == TaggedScalar::Null)
                } ==> #[trigger] df_vals(df)[i][j] == row_vals(rows@[i])[j]
        },
{
    let schema = polars::prelude::Schema::from(&rows[0]);
    DataFrame::from_rows_iter_and_schema(rows.iter(), &schema)
}

/// Relies on polars' `DataFrame::set_column_names`: it succeeds exactly
/// when one name is given per column and no name repeats; on success only
/// the column names change, positionally; on failure the frame is left as
/// it was.
#[verifier::external_body]
pub(crate) fn df_set_column_names(df: &mut DataFrame, names: &Vec<String>) -> (r: Result<(), PolarsError>)
    ensures
        r is Ok <==> (names@.len() == df_tags(*old(df)).len() && distinct_names(names@.map_values(|s: String| s@))),
        r is Ok ==> df_names(*final(df)) == names@.map_values(|s: String| s@),
        df_tags(*final(df)) == df_tags(*old(df)),
        df_vals(*final(df)) == df_vals(*old(df)),
        r is Err ==> df_names(*final(df)) == df_names(*old(df)),
{
    df.set_column_names(names.as_slice())
}

} // verus!
