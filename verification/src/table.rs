//! Row, schema and table assembly: field descriptors built from (name, tag)
//! pairs or read off an existing dataframe, and dataframes assembled from
//! rows of tagged scalars.

use vstd::prelude::*;

use crate::scalar::TaggedScalar;
use crate::scalar::TypeTag;
use crate::scalar::tag_of;
use crate::upstream::df_build;
use crate::upstream::df_dtypes;
use crate::upstream::df_names;
use crate::upstream::df_set_column_names;
use crate::upstream::df_tags;
use crate::upstream::df_vals;
use crate::upstream::row_vals;
use crate::upstream::schema_entries;
use crate::upstream::row_modeled;
use crate::upstream::row_tag_seq;
use crate::upstream::row_tags;
use crate::upstream::rows_aligned;
use crate::upstream::rows_modeled;
use crate::upstream::schema_of_fields;
use polars::frame::DataFrame;
use polars::frame::row::Row;
use polars::error::PolarsError;

verus! {

/// A field descriptor: a column name paired with the tag of the values the
/// column is declared to hold.
#[derive(Clone, Debug)]
pub struct FieldDesc {
    pub name: String,
    pub tag: TypeTag,
}

/// How assembling a table or a schema can fail.
#[derive(Debug)]
pub enum DfError {
    /// No rows were given, so no schema can be inferred.
    EmptyRows,
    /// The name count does not match the column count.
    NameCount,
    /// A later row disagrees with the first in length or positional tags.
    RowShape,
    /// A value of a kind outside the model (compound, categorical or
    /// temporal kinds are out of scope).
    Unsupported,
    /// An error of the dataframe library, propagated unchanged.
    Upstream(PolarsError),
}

/// The (name, tag) entries a sequence of field descriptors stands for.
pub open spec fn field_entries(fields: Seq<FieldDesc>) -> Seq<(Seq<char>, TypeTag)> {
    fields.map_values(|f: FieldDesc| (f.name@, f.tag))
}

/// Whether the names are pairwise distinct.
pub open spec fn distinct_names(names: Seq<Seq<char>>) -> bool {
    forall|i: int, j: int| 0 <= i < j < names.len() ==> names[i] != names[j]
}

/// Build field descriptors from (name, tag) pairs: a pure, one-to-one,
/// order-preserving mapping.
pub fn row_fields(desc: Vec<(String, TypeTag)>) -> (r: Vec<FieldDesc>)
    ensures
        r@.len() == desc@.len(),
        forall|i: int|
            0 <= i < desc@.len() ==> (#[trigger] r@[i]).name == desc@[i].0 && r@[i].tag
                == desc@[i].1,
{
    let mut out: Vec<FieldDesc> = Vec::new();
    let mut i: usize = 0;
    while i < desc.len()
        invariant
            i <= desc@.len(),
            out@.len() == i,
            forall|k: int|
                0 <= k < i ==> (#[trigger] out@[k]).name == desc@[k].0 && out@[k].tag
                    == desc@[k].1,
        decreases desc@.len() - i,
    {
        let pair = &desc[i];
        out.push(FieldDesc { name: pair.0.clone(), tag: pair.1 });
        i = i + 1;
    }
    out
}

/// Read the dataframe's column tags and pair them, positionally, with the
/// given names.  Fails unless exactly one name is given per column.
pub fn named_fields(df: &DataFrame, n: Vec<String>) -> (r: Result<Vec<FieldDesc>, DfError>)
    ensures
        n@.len() != df_tags(*df).len() <==> r is Err,
        r matches Err(e) ==> e is NameCount,
        r matches Ok(v) ==> {
            &&& v@.len() == df_tags(*df).len()
            &&& forall|i: int|
                0 <= i < v@.len() ==> (#[trigger] v@[i]).name == n@[i] && v@[i].tag == df_tags(
                    *df,
                )[i]
        },
{
    let tags = df_dtypes(df);
    if n.len() != tags.len() {
        return Err(DfError::NameCount);
    }
    let mut out: Vec<FieldDesc> = Vec::new();
    let mut i: usize = 0;
    while i < tags.len()
        invariant
            i <= tags@.len(),
            tags@.len() == n@.len(),
            tags@ == df_tags(*df),
            out@.len() == i,
            forall|k: int|
                0 <= k < i ==> (#[trigger] out@[k]).name == n@[k] && out@[k].tag == tags@[k],
        decreases tags@.len() - i,
    {
        out.push(FieldDesc { name: n[i].clone(), tag: tags[i] });
        i = i + 1;
    }
    Ok(out)
}

/// Derive a schema for the dataframe's columns under the given names: the
/// tags are the frame's, positionally; the names are the caller's.  Fails
/// unless exactly one name is given per column.  The schema's entries are
/// owed only when the names are pairwise distinct, since a polars schema
/// is an ordered map keyed by name.
pub fn named_schema(df: &DataFrame, n: Vec<String>) -> (r: Result<polars::prelude::Schema, DfError>)
    ensures
        n@.len() != df_tags(*df).len() <==> r is Err,
        r matches Err(e) ==> e is NameCount,
        r matches Ok(s) ==> (distinct_names(
            Seq::new(df_tags(*df).len(), |i: int| n@[i]@),
        ) ==> schema_entries(s) == Seq::new(
            df_tags(*df).len(),
            |i: int| (n@[i]@, df_tags(*df)[i]),
        )),
{
    let fields = match named_fields(df, n) {
        Ok(v) => v,
        Err(e) => {
            return Err(e);
        },
    };
    let ghost target_names: Seq<Seq<char>> = Seq::new(df_tags(*df).len(), |i: int| n@[i]@);
    let ghost target: Seq<(Seq<char>, TypeTag)> = Seq::new(
        df_tags(*df).len(),
        |i: int| (n@[i]@, df_tags(*df)[i]),
    );
    proof {
        assert(field_entries(fields@) =~= target);
        assert(field_entries(fields@).map_values(|e: (Seq<char>, TypeTag)| e.0)
            =~= target_names);
    }
    let s = schema_of_fields(fields);
    Ok(s)
}

/// Whether the two tag vectors hold the same tags in the same order.
fn tags_equal(a: &Vec<TypeTag>, b: &Vec<TypeTag>) -> (r: bool)
    ensures
        r == (a@ == b@),
{
    if a.len() != b.len() {
        proof {
            assert(a@ != b@);
        }
        return false;
    }
    let mut i: usize = 0;
    while i < a.len()
        invariant
            i <= a@.len(),
            a@.len() == b@.len(),
            forall|k: int| 0 <= k < i ==> a@[k] == b@[k],
        decreases a@.len() - i,
    {
        if a[i] != b[i] {
            return false;
        }
        i = i + 1;
    }
    proof {
        assert(a@ =~= b@);
    }
    true
}

/// Whether every tag is within the model (not `Unknown`).
fn tags_modeled(t: &Vec<TypeTag>) -> (r: bool)
    ensures
        r == (forall|j: int| 0 <= j < t@.len() ==> t@[j] != TypeTag::Unknown),
{
    let mut i: usize = 0;
    while i < t.len()
        invariant
            i <= t@.len(),
            forall|k: int| 0 <= k < i ==> t@[k] != TypeTag::Unknown,
        decreases t@.len() - i,
    {
        if matches!(t[i], TypeTag::Unknown) {
            return false;
        }
        i = i + 1;
    }
    true
}

/// Assemble a dataframe from rows and column names: the schema is inferred
/// from the first row's dtypes, the rows are transposed into columns, and
/// the synthetic column names are overwritten by the given ones.  Succeeds
/// exactly on a nonempty row sequence whose rows all carry the first row's
/// tags, all of modeled kinds, with one distinct name per column.  A row
/// of another shape is rejected here before the dataframe library sees it;
/// a name list the library rejects surfaces its error unchanged.
pub fn df_from_vec(rows: &Vec<Row<'static>>, n: &Vec<String>) -> (r: Result<DataFrame, DfError>)
    ensures
        r is Ok <==> (rows@.len() > 0 && rows_aligned(rows@) && rows_modeled(rows@) && n@.len()
            == row_vals(rows@[0]).len() && distinct_names(n@.map_values(|s: String| s@))),
        rows@.len() == 0 ==> (r matches Err(e) && e is EmptyRows),
        rows@.len() > 0 && !row_modeled(rows@[0]) ==> (r matches Err(e) && e is Unsupported),
        rows@.len() > 0 && row_modeled(rows@[0]) && !rows_aligned(rows@) ==> (r matches Err(e)
            && e is RowShape),
        rows@.len() > 0 && rows_aligned(rows@) && rows_modeled(rows@) && !(n@.len() == row_vals(
            rows@[0],
        ).len() && distinct_names(n@.map_values(|s: String| s@))) ==> (r matches Err(e)
            && e is Upstream),
        r matches Ok(df) ==> {
            &&& df_vals(df).len() == rows@.len()
            &&& df_tags(df) == row_tag_seq(rows@[0])
            &&& df_names(df) == n@.map_values(|s: String| s@)
            &&& forall|i: int|
                0 <= i < rows@.len() ==> (#[trigger] df_vals(df)[i]).len() == row_vals(
                    rows@[0],
                ).len()
            &&& forall|i: int, j: int|
                0 <= i < rows@.len() && 0 <= j < row_vals(rows@[0]).len()
                    ==> #[trigger] df_vals(df)[i][j] == row_vals(rows@[i])[j]
        },
{
    if rows.len() == 0 {
        return Err(DfError::EmptyRows);
    }
    let tags0 = row_tags(&rows[0]);
    if !tags_modeled(&tags0) {
        proof {
            assert(!row_modeled(rows@[0]));
        }
        return Err(DfError::Unsupported);
    }
    proof {
        assert forall|j: int| 0 <= j < row_vals(rows@[0]).len() implies tag_of(
            #[trigger] row_vals(rows@[0])[j],
        ) != TypeTag::Unknown by {
            assert(row_tag_seq(rows@[0])[j] == tag_of(row_vals(rows@[0])[j]));
        }
        assert(row_modeled(rows@[0]));
    }
    let mut i: usize = 1;
    while i < rows.len()
        invariant
            1 <= i <= rows@.len(),
            rows@.len() > 0,
            tags0@ == row_tag_seq(rows@[0]),
            forall|j: int| 0 <= j < tags0@.len() ==> tags0@[j] != TypeTag::Unknown,
            row_modeled(rows@[0]),
            forall|k: int| 0 <= k < i ==> row_tag_seq(#[trigger] rows@[k]) == row_tag_seq(
                rows@[0],
            ),
        decreases rows@.len() - i,
    {
        let ti = row_tags(&rows[i]);
        if !tags_equal(&ti, &tags0) {
            return Err(DfError::RowShape);
        }
        i = i + 1;
    }
    proof {
        assert(rows_aligned(rows@));
        assert forall|k: int| 0 <= k < rows@.len() implies row_modeled(#[trigger] rows@[k]) by {
            assert(row_tag_seq(rows@[k]) == row_tag_seq(rows@[0]));
            assert forall|j: int| 0 <= j < row_vals(rows@[k]).len() implies tag_of(
                #[trigger] row_vals(rows@[k])[j],
            ) != TypeTag::Unknown by {
                assert(row_tag_seq(rows@[k])[j] == tag_of(row_vals(rows@[k])[j]));
                assert(row_tag_seq(rows@[0])[j] != TypeTag::Unknown);
            }
        }
    }
    let built = match df_build(rows) {
        Ok(d) => d,
        Err(e) => {
            return Err(DfError::Upstream(e));
        },
    };
    let mut df = built;
    match df_set_column_names(&mut df, n) {
        Ok(_) => {
            proof {
                assert forall|i2: int, j: int|
                    0 <= i2 < rows@.len() && 0 <= j < row_vals(rows@[0]).len() implies #[trigger] df_vals(
                    df,
                )[i2][j] == row_vals(rows@[i2])[j] by {
                    assert(row_tag_seq(rows@[i2]) == row_tag_seq(rows@[0]));
                    assert(row_tag_seq(rows@[i2])[j] == tag_of(row_vals(rows@[i2])[j]));
                    assert(row_tag_seq(rows@[0])[j] == tag_of(row_vals(rows@[0])[j]));
                }
            }
            Ok(df)
        },
        Err(e) => Err(DfError::Upstream(e)),
    }
}

} // verus!
