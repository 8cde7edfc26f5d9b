use greptimedb_ffi::column::{Column, Values};
use greptimedb_ffi::error::Error;
use greptimedb_ffi::row::{wire_row_count, Batch, RowBuilder};
use greptimedb_ffi::schema::{DataType, Role};
use greptimedb_ffi::value::Value;

fn empty_values() -> Values {
    Values::new()
}

fn ts_and_v() -> RowBuilder {
    let mut b = RowBuilder::new("cpu".to_string());
    b.add_col("ts".to_string(), DataType::Int64.code(), Role::Timestamp.code()).unwrap();
    b.add_col("v".to_string(), DataType::Float64.code(), Role::Field.code()).unwrap();
    b
}

fn lengths(b: &RowBuilder) -> Vec<usize> {
    b.columns()
        .iter()
        .map(|c| {
            let v = &c.values;
            v.i8_values.len()
                + v.i16_values.len()
                + v.i32_values.len()
                + v.i64_values.len()
                + v.u8_values.len()
                + v.u16_values.len()
                + v.u32_values.len()
                + v.u64_values.len()
                + v.f32_values.len()
                + v.f64_values.len()
                + v.bool_values.len()
                + v.string_values.len()
                + v.timestamp_second_values.len()
                + v.timestamp_millisecond_values.len()
                + v.timestamp_microsecond_values.len()
                + v.timestamp_nanosecond_values.len()
        })
        .collect()
}

#[test]
fn a_new_builder_has_no_column_and_no_row() {
    let b = RowBuilder::new("cpu".to_string());
    assert_eq!(b.table_name(), "cpu");
    assert_eq!(b.column_count(), 0);
    assert_eq!(b.row_count(), 0);
    assert!(b.columns().is_empty());
}

#[test]
fn a_declared_column_is_empty_and_keeps_its_codes() {
    let mut b = RowBuilder::new("cpu".to_string());
    assert_eq!(b.add_col("host".to_string(), 12, 0), Ok(()));
    assert_eq!(b.column_count(), 1);
    assert_eq!(
        b.columns()[0],
        Column { column_name: "host".to_string(), semantic_type: 0, datatype: 12, values: empty_values() }
    );
    assert_eq!(b.row_count(), 0);
}

#[test]
fn columns_keep_the_order_of_declaration_and_may_share_a_name() {
    let mut b = RowBuilder::new("t".to_string());
    b.add_col("a".to_string(), 3, 1).unwrap();
    b.add_col("b".to_string(), 4, 1).unwrap();
    b.add_col("a".to_string(), 10, 1).unwrap();
    let names: Vec<&str> = b.columns().iter().map(|c| c.column_name.as_str()).collect();
    assert_eq!(names, vec!["a", "b", "a"]);
    let types: Vec<i32> = b.columns().iter().map(|c| c.datatype).collect();
    assert_eq!(types, vec![3, 4, 10]);
}

#[test]
fn an_unknown_type_code_is_an_invalid_column() {
    let mut b = RowBuilder::new("t".to_string());
    assert_eq!(
        b.add_col("c".to_string(), 26, 1),
        Err(Error::InvalidColumnDef { name: "c".to_string(), data_type: 26, semantic_type: 1 })
    );
    assert_eq!(
        b.add_col("d".to_string(), -1, 1),
        Err(Error::InvalidColumnDef { name: "d".to_string(), data_type: -1, semantic_type: 1 })
    );
    assert_eq!(b.column_count(), 0);
}

#[test]
fn an_unknown_role_code_is_an_invalid_column() {
    let mut b = RowBuilder::new("t".to_string());
    assert_eq!(
        b.add_col("c".to_string(), 4, 3),
        Err(Error::InvalidColumnDef { name: "c".to_string(), data_type: 4, semantic_type: 3 })
    );
    assert_eq!(b.column_count(), 0);
}

#[test]
fn one_row_of_a_timestamp_and_a_float() {
    let mut b = ts_and_v();
    let row = [Value::from_i64(1690000000000), Value::from_bits(3.14f64.to_bits())];
    assert_eq!(b.add_row(&row), Ok(()));
    assert_eq!(b.row_count(), 1);
    let batch = b.drain_into_batch();
    assert_eq!(batch.table_name, "cpu");
    assert_eq!(batch.columns.len(), 2);
    assert_eq!(batch.row_count, 1);
    assert_eq!(batch.columns[0].column_name, "ts");
    assert_eq!(batch.columns[0].datatype, 4);
    assert_eq!(batch.columns[0].semantic_type, 2);
    assert_eq!(batch.columns[0].values.i64_values, vec![1690000000000]);
    assert_eq!(batch.columns[1].column_name, "v");
    assert_eq!(batch.columns[1].datatype, 10);
    assert_eq!(batch.columns[1].semantic_type, 1);
    let floats: Vec<f64> = batch.columns[1].values.f64_values.iter().map(|b| f64::from_bits(*b)).collect();
    assert_eq!(floats, vec![3.14]);
    // nothing went anywhere else
    let mut rest = empty_values();
    rest.i64_values = vec![1690000000000];
    assert_eq!(batch.columns[0].values, rest);
}

#[test]
fn one_value_against_two_columns_is_a_schema_mismatch() {
    let mut b = ts_and_v();
    assert_eq!(
        b.add_row(&[Value::from_i64(1)]),
        Err(Error::SchemaMismatch { value_len: 1, schema_len: 2 })
    );
}

#[test]
fn a_row_of_the_wrong_length_changes_nothing() {
    let mut b = ts_and_v();
    b.add_row(&[Value::from_i64(1), Value::from_bits(2)]).unwrap();
    let before: Vec<Column> = ts_and_v_with_one_row().columns;
    assert_eq!(b.add_row(&[]), Err(Error::SchemaMismatch { value_len: 0, schema_len: 2 }));
    assert_eq!(
        b.add_row(&[Value::from_i64(1), Value::from_bits(2), Value::from_bits(3)]),
        Err(Error::SchemaMismatch { value_len: 3, schema_len: 2 })
    );
    assert_eq!(b.row_count(), 1);
    assert_eq!(b.columns(), &before);
}

fn ts_and_v_with_one_row() -> Batch {
    let mut b = ts_and_v();
    b.add_row(&[Value::from_i64(1), Value::from_bits(2)]).unwrap();
    b.drain_into_batch()
}

#[test]
fn a_row_for_no_column_counts_too() {
    let mut b = RowBuilder::new("t".to_string());
    assert_eq!(b.add_row(&[]), Ok(()));
    assert_eq!(b.add_row(&[]), Ok(()));
    assert_eq!(b.row_count(), 2);
    assert_eq!(b.add_row(&[Value::from_bits(0)]), Err(Error::SchemaMismatch { value_len: 1, schema_len: 0 }));
    assert_eq!(b.row_count(), 2);
}

#[test]
fn rows_and_columns_stay_in_lockstep() {
    let mut b = RowBuilder::new("t".to_string());
    b.add_col("a".to_string(), DataType::Int32.code(), 1).unwrap();
    b.add_col("b".to_string(), DataType::String.code(), 0).unwrap();
    b.add_col("c".to_string(), DataType::Boolean.code(), 1).unwrap();
    b.add_col("d".to_string(), DataType::TimestampMillisecond.code(), 2).unwrap();
    assert_eq!(lengths(&b), vec![0, 0, 0, 0]);
    for n in 1..=25usize {
        let row = [
            Value::from_i32(n as i32),
            Value::from_str("x"),
            Value::from_bool(n % 2 == 0),
            Value::from_i64(n as i64 * 1000),
        ];
        assert_eq!(b.add_row(&row), Ok(()));
        assert_eq!(b.row_count(), n);
        assert_eq!(lengths(&b), vec![n, n, n, n]);
        // a row of the wrong length in between does not disturb the count
        assert!(b.add_row(&row[..3]).is_err());
        assert_eq!(b.row_count(), n);
        assert_eq!(lengths(&b), vec![n, n, n, n]);
    }
}

#[test]
fn every_type_fills_its_own_values() {
    let mut b = RowBuilder::new("all".to_string());
    let types = [
        DataType::Boolean,
        DataType::Int8,
        DataType::Int16,
        DataType::Int32,
        DataType::Int64,
        DataType::Uint8,
        DataType::Uint16,
        DataType::Uint32,
        DataType::Uint64,
        DataType::Float32,
        DataType::Float64,
        DataType::String,
        DataType::TimestampSecond,
        DataType::TimestampMillisecond,
        DataType::TimestampMicrosecond,
        DataType::TimestampNanosecond,
    ];
    for t in types {
        b.add_col(format!("{:?}", t), t.code(), 1).unwrap();
    }
    let row = [
        Value::from_bool(true),
        Value::from_i8(-8),
        Value::from_i16(-16),
        Value::from_i32(-32),
        Value::from_i64(-64),
        Value::from_u8(8),
        Value::from_u16(16),
        Value::from_u32(32),
        Value::from_bits(64),
        Value::from_u32(1.5f32.to_bits()),
        Value::from_bits(2.5f64.to_bits()),
        Value::from_str("text"),
        Value::from_i64(1),
        Value::from_i64(2),
        Value::from_i64(3),
        Value::from_i64(4),
    ];
    assert_eq!(b.add_row(&row), Ok(()));
    let cols = b.columns();
    let only = |fill: &dyn Fn(&mut Values)| {
        let mut v = empty_values();
        fill(&mut v);
        v
    };
    assert_eq!(cols[0].values, only(&|v| v.bool_values = vec![true]));
    assert_eq!(cols[1].values, only(&|v| v.i8_values = vec![-8]));
    assert_eq!(cols[2].values, only(&|v| v.i16_values = vec![-16]));
    assert_eq!(cols[3].values, only(&|v| v.i32_values = vec![-32]));
    assert_eq!(cols[4].values, only(&|v| v.i64_values = vec![-64]));
    assert_eq!(cols[5].values, only(&|v| v.u8_values = vec![8]));
    assert_eq!(cols[6].values, only(&|v| v.u16_values = vec![16]));
    assert_eq!(cols[7].values, only(&|v| v.u32_values = vec![32]));
    assert_eq!(cols[8].values, only(&|v| v.u64_values = vec![64]));
    assert_eq!(cols[9].values, only(&|v| v.f32_values = vec![1.5f32.to_bits()]));
    assert_eq!(cols[10].values, only(&|v| v.f64_values = vec![2.5f64.to_bits()]));
    assert_eq!(cols[11].values, only(&|v| v.string_values = vec!["text".to_string()]));
    assert_eq!(cols[12].values, only(&|v| v.timestamp_second_values = vec![1]));
    assert_eq!(cols[13].values, only(&|v| v.timestamp_millisecond_values = vec![2]));
    assert_eq!(cols[14].values, only(&|v| v.timestamp_microsecond_values = vec![3]));
    assert_eq!(cols[15].values, only(&|v| v.timestamp_nanosecond_values = vec![4]));
}

#[test]
fn a_narrow_column_reads_its_own_bytes_only() {
    let mut b = RowBuilder::new("t".to_string());
    b.add_col("flag".to_string(), DataType::Boolean.code(), 1).unwrap();
    b.add_col("small".to_string(), DataType::Int8.code(), 1).unwrap();
    b.add_col("mid".to_string(), DataType::Uint16.code(), 1).unwrap();
    let row = [
        Value::from_bits(0xaaaa_aaaa_aaaa_aa01),
        Value::from_bits(0xaaaa_aaaa_aaaa_aafe),
        Value::from_bits(0xaaaa_aaaa_aaaa_1234),
    ];
    b.add_row(&row).unwrap();
    assert_eq!(b.columns()[0].values.bool_values, vec![true]);
    assert_eq!(b.columns()[1].values.i8_values, vec![-2]);
    assert_eq!(b.columns()[2].values.u16_values, vec![0x1234]);
}

#[test]
fn values_keep_the_order_of_their_rows() {
    let mut b = RowBuilder::new("t".to_string());
    b.add_col("n".to_string(), DataType::Uint32.code(), 1).unwrap();
    b.add_col("s".to_string(), DataType::String.code(), 0).unwrap();
    for (n, s) in [(3u32, "c"), (1, "a"), (2, "b")] {
        b.add_row(&[Value::from_u32(n), Value::from_str(s)]).unwrap();
    }
    assert_eq!(b.columns()[0].values.u32_values, vec![3, 1, 2]);
    assert_eq!(b.columns()[1].values.string_values, vec!["c", "a", "b"]);
}

#[test]
fn a_column_of_a_type_the_builder_cannot_fill_is_unsupported() {
    // binary, date and datetime are known to the protocol, but no cell can be read as one
    for code in [11, 13, 14, 19, 25, 30, 31, 32, 40, 41, 42] {
        let mut b = RowBuilder::new("t".to_string());
        assert_eq!(b.add_col("c".to_string(), code, 1), Ok(()));
        assert_eq!(b.add_row(&[Value::from_bits(0)]), Err(Error::UnsupportedDataType { data_type: code }));
        assert_eq!(b.row_count(), 0);
        assert_eq!(lengths(&b), vec![0]);
    }
}

#[test]
fn a_string_cell_without_text_is_a_null_pointer() {
    let mut b = RowBuilder::new("t".to_string());
    b.add_col("s".to_string(), DataType::String.code(), 0).unwrap();
    assert_eq!(b.add_row(&[Value::from_text(None)]), Err(Error::NullPointer));
    assert_eq!(b.add_row(&[Value::from_bits(0x7fff_0000_1000)]), Err(Error::NullPointer));
    assert_eq!(b.row_count(), 0);
    assert_eq!(lengths(&b), vec![0]);
}

#[test]
fn a_string_cell_that_is_not_utf8_is_refused() {
    let mut b = RowBuilder::new("t".to_string());
    b.add_col("s".to_string(), DataType::String.code(), 0).unwrap();
    assert_eq!(b.add_row(&[Value::from_text(Some(vec![b'a', 0xff]))]), Err(Error::InvalidCString));
    assert_eq!(b.row_count(), 0);
    assert_eq!(lengths(&b), vec![0]);
}

#[test]
fn a_cell_that_cannot_be_read_stops_the_row_where_it_stands() {
    let mut b = RowBuilder::new("t".to_string());
    b.add_col("a".to_string(), DataType::Int32.code(), 1).unwrap();
    b.add_col("b".to_string(), DataType::String.code(), 0).unwrap();
    b.add_col("c".to_string(), DataType::Int32.code(), 1).unwrap();
    b.add_row(&[Value::from_i32(1), Value::from_str("one"), Value::from_i32(10)]).unwrap();
    let r = b.add_row(&[Value::from_i32(2), Value::from_text(None), Value::from_i32(20)]);
    assert_eq!(r, Err(Error::NullPointer));
    // the row is not counted; the cell before the failure was appended, those after were not
    assert_eq!(b.row_count(), 1);
    assert_eq!(b.columns()[0].values.i32_values, vec![1, 2]);
    assert_eq!(b.columns()[1].values.string_values, vec!["one"]);
    assert_eq!(b.columns()[2].values.i32_values, vec![10]);
}

#[test]
fn the_first_cell_that_cannot_be_read_gives_the_error() {
    let mut b = RowBuilder::new("t".to_string());
    b.add_col("a".to_string(), 11, 1).unwrap();
    b.add_col("b".to_string(), DataType::String.code(), 0).unwrap();
    let r = b.add_row(&[Value::from_bits(0), Value::from_text(None)]);
    assert_eq!(r, Err(Error::UnsupportedDataType { data_type: 11 }));
    let mut b = RowBuilder::new("t".to_string());
    b.add_col("b".to_string(), DataType::String.code(), 0).unwrap();
    b.add_col("a".to_string(), 11, 1).unwrap();
    let r = b.add_row(&[Value::from_text(Some(vec![0x80])), Value::from_bits(0)]);
    assert_eq!(r, Err(Error::InvalidCString));
}

#[test]
fn draining_takes_the_rows_and_keeps_the_columns() {
    let mut b = ts_and_v();
    b.add_row(&[Value::from_i64(1), Value::from_bits(10)]).unwrap();
    b.add_row(&[Value::from_i64(2), Value::from_bits(20)]).unwrap();
    let batch = b.drain_into_batch();
    assert_eq!(batch.row_count, 2);
    assert_eq!(batch.columns[0].values.i64_values, vec![1, 2]);
    assert_eq!(batch.columns[1].values.f64_values, vec![10, 20]);
    assert_eq!(b.row_count(), 0);
    assert_eq!(b.table_name(), "cpu");
    assert_eq!(b.columns(), ts_and_v().columns());
}

#[test]
fn a_second_drain_right_after_the_first_is_empty() {
    let mut b = ts_and_v();
    b.add_row(&[Value::from_i64(1), Value::from_bits(10)]).unwrap();
    let _first = b.drain_into_batch();
    let second = b.drain_into_batch();
    assert_eq!(second.row_count, 0);
    assert_eq!(second.table_name, "cpu");
    assert_eq!(&second.columns, ts_and_v().columns());
    let third = b.drain_into_batch();
    assert_eq!(third, second);
    assert_eq!(b.columns(), ts_and_v().columns());
}

#[test]
fn draining_a_builder_without_rows_gives_an_empty_batch() {
    let mut b = RowBuilder::new("t".to_string());
    let batch = b.drain_into_batch();
    assert_eq!(batch, Batch { table_name: "t".to_string(), columns: vec![], row_count: 0 });
}

#[test]
fn a_drained_builder_builds_the_next_batch() {
    let mut b = ts_and_v();
    b.add_row(&[Value::from_i64(1), Value::from_bits(10)]).unwrap();
    let first = b.drain_into_batch();
    b.add_row(&[Value::from_i64(2), Value::from_bits(20)]).unwrap();
    b.add_row(&[Value::from_i64(3), Value::from_bits(30)]).unwrap();
    assert_eq!(b.row_count(), 2);
    let second = b.drain_into_batch();
    assert_eq!(first.columns[0].values.i64_values, vec![1]);
    assert_eq!(second.row_count, 2);
    assert_eq!(second.columns[0].values.i64_values, vec![2, 3]);
    assert_eq!(second.columns[1].values.f64_values, vec![20, 30]);
}

#[test]
fn a_column_declared_after_rows_starts_empty() {
    let mut b = RowBuilder::new("t".to_string());
    b.add_col("a".to_string(), DataType::Int64.code(), 1).unwrap();
    b.add_row(&[Value::from_i64(1)]).unwrap();
    b.add_col("b".to_string(), DataType::Int64.code(), 1).unwrap();
    assert_eq!(b.row_count(), 1);
    assert_eq!(lengths(&b), vec![1, 0]);
}

#[test]
fn the_builder_tells_which_cells_are_read_as_strings() {
    let mut b = RowBuilder::new("t".to_string());
    b.add_col("a".to_string(), DataType::Int64.code(), 1).unwrap();
    b.add_col("b".to_string(), DataType::String.code(), 0).unwrap();
    b.add_col("c".to_string(), 11, 1).unwrap();
    assert!(!b.reads_text(3, 0));
    assert!(b.reads_text(3, 1));
    assert!(!b.reads_text(3, 2));
    assert!(!b.reads_text(3, 3));
    assert!(!b.reads_text(3, usize::MAX));
    // no cell of a row of the wrong length is read as a string
    assert!(!b.reads_text(2, 1));
    assert!(!b.reads_text(4, 1));
    assert!(!b.reads_text(0, 1));
}

#[test]
fn a_single_column_appends_by_its_type() {
    let mut c = Column { column_name: "n".to_string(), semantic_type: 1, datatype: 7, values: Values::new() };
    assert_eq!(c.push(&Value::from_u32(9)), Ok(()));
    assert_eq!(c.values.u32_values, vec![9]);
    let mut d = Column { column_name: "n".to_string(), semantic_type: 1, datatype: 99, values: Values::new() };
    assert_eq!(d.push(&Value::from_u32(9)), Err(Error::UnsupportedDataType { data_type: 99 }));
    assert_eq!(d.values, Values::new());
    let mut v = Values::new();
    assert_eq!(v.push(DataType::Int16, &Value::from_i16(-5)), Ok(()));
    assert_eq!(v.push(DataType::String, &Value::from_text(None)), Err(Error::NullPointer));
    assert_eq!(v.i16_values, vec![-5]);
    assert!(v.string_values.is_empty());
}

#[test]
fn a_batch_counts_rows_in_32_bits() {
    assert_eq!(wire_row_count(0), 0);
    assert_eq!(wire_row_count(1), 1);
    assert_eq!(wire_row_count(0xffff_ffff), u32::MAX);
    assert_eq!(wire_row_count(0x1_0000_0000), 0);
    assert_eq!(wire_row_count(0x1_0000_0005), 5);
    assert_eq!(wire_row_count(usize::MAX), u32::MAX);
}

#[test]
fn a_row_refused_at_its_first_cell_changes_nothing() {
    let mut b = RowBuilder::new("t".to_string());
    b.add_col("s".to_string(), DataType::String.code(), 0).unwrap();
    b.add_col("n".to_string(), DataType::Int32.code(), 1).unwrap();
    b.add_row(&[Value::from_str("a"), Value::from_i32(1)]).unwrap();
    assert_eq!(b.add_row(&[Value::from_text(None), Value::from_i32(2)]), Err(Error::NullPointer));
    assert_eq!(b.row_count(), 1);
    assert_eq!(lengths(&b), vec![1, 1]);
    assert_eq!(b.add_row(&[Value::from_str("b"), Value::from_i32(3)]), Ok(()));
    assert_eq!(b.row_count(), 2);
    assert_eq!(lengths(&b), vec![2, 2]);
}
