use anyvalue_dataframe::scalar::TaggedScalar;
use anyvalue_dataframe::scalar::TypeTag;
use anyvalue_dataframe::scalar::to_any_binary;
use anyvalue_dataframe::scalar::to_any_bool;
use anyvalue_dataframe::scalar::to_any_i32;
use anyvalue_dataframe::scalar::to_any_i64;
use anyvalue_dataframe::scalar::to_any_utf8;
use anyvalue_dataframe::table::DfError;
use anyvalue_dataframe::table::df_from_vec;
use anyvalue_dataframe::table::named_fields;
use anyvalue_dataframe::table::named_schema;
use anyvalue_dataframe::table::row_fields;
use anyvalue_dataframe::upstream::row_schema;
use polars::frame::row::Row;
use polars::prelude::AnyValue;
use polars::prelude::DataType;

fn sample_rows() -> Vec<Row<'static>> {
    vec![
        row_schema(vec![to_any_i64(1), to_any_utf8(String::from("a"))]),
        row_schema(vec![to_any_i64(2), to_any_utf8(String::from("b"))]),
        row_schema(vec![to_any_i64(3), to_any_utf8(String::from("c"))]),
    ]
}

fn xy_names() -> Vec<String> {
    vec![String::from("x"), String::from("y")]
}

#[test]
fn field_descriptors_in_order() {
    let descs = row_fields(vec![
        (String::from("a"), TypeTag::Int64),
        (String::from("b"), TypeTag::Utf8),
    ]);
    assert_eq!(descs.len(), 2);
    assert_eq!(descs[0].name, "a");
    assert_eq!(descs[0].tag, TypeTag::Int64);
    assert_eq!(descs[1].name, "b");
    assert_eq!(descs[1].tag, TypeTag::Utf8);
}

#[test]
fn three_rows_two_columns() {
    let df = df_from_vec(&sample_rows(), &xy_names()).unwrap();
    assert_eq!(df.height(), 3);
    assert_eq!(df.width(), 2);
    let names = df.get_column_names();
    assert_eq!(names[0].as_str(), "x");
    assert_eq!(names[1].as_str(), "y");
    let x = df.column("x").unwrap();
    assert_eq!(x.get(0).unwrap(), AnyValue::Int64(1));
    assert_eq!(x.get(1).unwrap(), AnyValue::Int64(2));
    assert_eq!(x.get(2).unwrap(), AnyValue::Int64(3));
    let y = df.column("y").unwrap();
    assert_eq!(y.get(0).unwrap(), AnyValue::String("a"));
    assert_eq!(y.get(1).unwrap(), AnyValue::String("b"));
    assert_eq!(y.get(2).unwrap(), AnyValue::String("c"));
}

#[test]
fn bool_binary_and_null_cells() {
    let rows = vec![
        row_schema(vec![
            to_any_bool(true),
            to_any_binary(vec![1, 2]),
            TaggedScalar::Null,
        ]),
        row_schema(vec![
            to_any_bool(false),
            to_any_binary(vec![255]),
            TaggedScalar::Null,
        ]),
    ];
    let names = vec![String::from("b"), String::from("bin"), String::from("n")];
    let df = df_from_vec(&rows, &names).unwrap();
    assert_eq!(df.height(), 2);
    assert_eq!(df.width(), 3);
    let b = df.column("b").unwrap();
    assert_eq!(b.get(0).unwrap(), AnyValue::Boolean(true));
    assert_eq!(b.get(1).unwrap(), AnyValue::Boolean(false));
    let bin = df.column("bin").unwrap();
    assert_eq!(bin.get(0).unwrap(), AnyValue::Binary(&[1, 2]));
    assert_eq!(bin.get(1).unwrap(), AnyValue::Binary(&[255]));
    let n = df.column("n").unwrap();
    assert_eq!(n.get(0).unwrap(), AnyValue::Null);
    assert_eq!(n.get(1).unwrap(), AnyValue::Null);
}

#[test]
fn empty_rows_fail() {
    let r = df_from_vec(&Vec::new(), &xy_names());
    assert!(matches!(r, Err(DfError::EmptyRows)));
}

#[test]
fn name_count_mismatch_fails() {
    let names = vec![String::from("x"), String::from("y"), String::from("z")];
    let r = df_from_vec(&sample_rows(), &names);
    assert!(matches!(r, Err(DfError::Upstream(_))));
    let r = df_from_vec(&sample_rows(), &vec![String::from("x")]);
    assert!(matches!(r, Err(DfError::Upstream(_))));
}

#[test]
fn mixed_tag_column_fails() {
    let rows = vec![
        row_schema(vec![to_any_i64(1)]),
        row_schema(vec![to_any_utf8(String::from("oops"))]),
    ];
    let r = df_from_vec(&rows, &vec![String::from("x")]);
    assert!(matches!(r, Err(DfError::RowShape)));
    let rows = vec![
        row_schema(vec![to_any_i64(1)]),
        row_schema(vec![to_any_i32(2)]),
    ];
    let r = df_from_vec(&rows, &vec![String::from("x")]);
    assert!(matches!(r, Err(DfError::RowShape)));
}

#[test]
fn mixed_length_rows_fail() {
    let rows = vec![
        row_schema(vec![to_any_i64(1), to_any_i64(2)]),
        row_schema(vec![to_any_i64(3)]),
    ];
    let r = df_from_vec(&rows, &xy_names());
    assert!(matches!(r, Err(DfError::RowShape)));
}

#[test]
fn unmodeled_kind_fails() {
    let rows = vec![Row::new(vec![AnyValue::Date(10)])];
    let r = df_from_vec(&rows, &vec![String::from("d")]);
    assert!(matches!(r, Err(DfError::Unsupported)));
}

#[test]
fn named_fields_reads_dtypes() {
    let df = df_from_vec(&sample_rows(), &xy_names()).unwrap();
    let fields = named_fields(&df, vec![String::from("left"), String::from("right")]).unwrap();
    assert_eq!(fields.len(), 2);
    assert_eq!(fields[0].name, "left");
    assert_eq!(fields[0].tag, TypeTag::Int64);
    assert_eq!(fields[1].name, "right");
    assert_eq!(fields[1].tag, TypeTag::Utf8);
}

#[test]
fn named_fields_surplus_names_fail() {
    let df = df_from_vec(&sample_rows(), &xy_names()).unwrap();
    let r = named_fields(
        &df,
        vec![String::from("p"), String::from("q"), String::from("extra")],
    );
    assert!(matches!(r, Err(DfError::NameCount)));
}

#[test]
fn named_schema_pairs_names_with_dtypes() {
    let df = df_from_vec(&sample_rows(), &xy_names()).unwrap();
    let schema = named_schema(&df, xy_names()).unwrap();
    assert_eq!(schema.len(), 2);
    let (n0, d0) = schema.get_at_index(0).unwrap();
    assert_eq!(n0.as_str(), "x");
    assert_eq!(*d0, DataType::Int64);
    let (n1, d1) = schema.get_at_index(1).unwrap();
    assert_eq!(n1.as_str(), "y");
    assert_eq!(*d1, DataType::String);
}

#[test]
fn named_schema_too_few_names_fails() {
    let df = df_from_vec(&sample_rows(), &xy_names()).unwrap();
    let r = named_schema(&df, vec![String::from("only")]);
    assert!(matches!(r, Err(DfError::NameCount)));
    let r = named_fields(&df, Vec::new());
    assert!(matches!(r, Err(DfError::NameCount)));
}
