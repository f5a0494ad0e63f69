use adbc_dummy::options::Statistics;
use adbc_dummy::statistics::{GetStatisticsBuilder, StatisticValue};
use arrow_array::cast::AsArray;
use arrow_array::types::{Float64Type, Int16Type, Int64Type, UInt64Type};
use arrow_array::{Array, ArrayRef, StructArray};

fn items(lists: &ArrayRef, i: usize) -> StructArray {
    lists.as_list::<i32>().value(i).as_struct().clone()
}

#[test]
fn statistics_of_nothing_are_empty() {
    let batch = GetStatisticsBuilder::default().finish().unwrap().inner;
    assert_eq!(batch.num_rows(), 0);
}

#[test]
fn statistics_hold_every_kind_of_value() {
    let mut builder = GetStatisticsBuilder::new();
    builder.append_catalog(Some("cat"));
    builder.append_db_schema(Some("empty"));
    builder.append_db_schema(None);
    builder.append_statistic("t", Some("a"), 3i16, StatisticValue::Int64(-5), true);
    builder.append_statistic(
        "t",
        None,
        Statistics::RowCount,
        StatisticValue::Float64(2.75f64.to_bits()),
        false,
    );
    builder.append_statistic(
        "u",
        Some("b"),
        Statistics::Other { key: 1024, name: "own".to_string() },
        StatisticValue::Binary(vec![0, 255, 7]),
        true,
    );
    builder.append_catalog(None);
    builder.append_db_schema(Some("last"));
    builder.append_statistic(
        "v",
        None,
        Statistics::NullCount,
        StatisticValue::UInt64(u64::MAX),
        false,
    );
    let batch = builder.finish().unwrap().inner;
    assert_eq!(batch.num_rows(), 2);
    assert!(batch.column(0).is_null(1));
    let schemas = items(batch.column(1), 0);
    assert_eq!(schemas.column(0).as_string::<i32>().value(0), "empty");
    assert!(schemas.column(0).is_null(1));
    assert_eq!(items(schemas.column(1), 0).len(), 0);
    let rows = items(schemas.column(1), 1);
    let tables = rows.column(0).as_string::<i32>();
    assert_eq!((tables.value(0), tables.value(1), tables.value(2)), ("t", "t", "u"));
    assert_eq!(rows.column(1).as_string::<i32>().value(0), "a");
    assert!(rows.column(1).is_null(1));
    assert_eq!(rows.column(1).as_string::<i32>().value(2), "b");
    assert_eq!(rows.column(2).as_primitive::<Int16Type>().values().to_vec(), vec![3, 6, 1024]);
    let values = rows.column(3).as_union();
    assert_eq!(values.type_ids().to_vec(), vec![0, 2, 3]);
    assert_eq!(values.value(0).as_primitive::<Int64Type>().value(0), -5);
    assert_eq!(values.value(1).as_primitive::<Float64Type>().value(0), 2.75);
    assert_eq!(values.value(2).as_binary::<i32>().value(0), [0u8, 255, 7]);
    let approximate = rows.column(4).as_boolean();
    assert!(approximate.value(0) && !approximate.value(1) && approximate.value(2));
    let last = items(items(batch.column(1), 1).column(1), 0);
    assert_eq!(last.len(), 1);
    let values = last.column(3).as_union();
    assert_eq!(values.type_ids().to_vec(), vec![1]);
    assert_eq!(values.value(0).as_primitive::<UInt64Type>().value(0), u64::MAX);
}

#[test]
fn statistics_values_of_one_kind_stay_in_order() {
    let mut builder = GetStatisticsBuilder::new();
    builder.append_catalog(Some("c")).append_db_schema(Some("s"));
    for i in 0..5 {
        builder.append_statistic("t", None, i as i16, StatisticValue::Int64(i * 10), false);
        builder.append_statistic("t", None, i as i16, StatisticValue::UInt64(i as u64), false);
    }
    let batch = builder.finish().unwrap().inner;
    let rows = items(items(batch.column(1), 0).column(1), 0);
    let values = rows.column(3).as_union();
    assert_eq!(values.offsets().unwrap().to_vec(), vec![0, 0, 1, 1, 2, 2, 3, 3, 4, 4]);
    for i in 0..5 {
        let signed = values.value(2 * i);
        assert_eq!(signed.as_primitive::<Int64Type>().value(0), i as i64 * 10);
        let unsigned = values.value(2 * i + 1);
        assert_eq!(unsigned.as_primitive::<UInt64Type>().value(0), i as u64);
    }
}

#[test]
fn statistics_values_are_stored_densely() {
    let mut builder = GetStatisticsBuilder::new();
    builder.append_catalog(Some("c"));
    builder.append_db_schema(None);
    builder.append_statistic("t", None, 1i16, StatisticValue::Int64(10), false);
    builder.append_statistic("t", None, 2i16, StatisticValue::UInt64(20), true);
    builder.append_statistic("u", Some("x"), 3i16, StatisticValue::Int64(30), false);
    let batch = builder.finish().unwrap().inner;
    assert_eq!(batch.column(1).as_list::<i32>().value_offsets(), [0, 1]);
    let schemas = batch.column(1).as_list::<i32>().values().as_struct();
    assert_eq!(schemas.column(1).as_list::<i32>().value_offsets(), [0, 3]);
    let rows = schemas.column(1).as_list::<i32>().values().as_struct();
    let values = rows.column(3).as_union();
    assert_eq!(values.type_ids().to_vec(), vec![0, 1, 0]);
    assert_eq!(values.offsets().unwrap().to_vec(), vec![0, 0, 1]);
    assert_eq!(values.child(0).as_primitive::<Int64Type>().values().to_vec(), vec![10, 30]);
    assert_eq!(values.child(1).as_primitive::<UInt64Type>().values().to_vec(), vec![20]);
    assert_eq!((values.child(2).len(), values.child(3).len()), (0, 0));
}

#[test]
fn statistics_have_their_keys() {
    let keys = [
        (Statistics::AverageByteWidth, 0),
        (Statistics::DistinctCount, 1),
        (Statistics::MaxByteWidth, 2),
        (Statistics::MaxValue, 3),
        (Statistics::MinValue, 4),
        (Statistics::NullCount, 5),
        (Statistics::RowCount, 6),
        (Statistics::Other { key: -3, name: String::new() }, -3),
    ];
    for (statistic, key) in keys {
        assert_eq!(i16::from(statistic), key);
    }
}

#[test]
fn statistics_take_small_integers_as_keys() {
    let mut builder = GetStatisticsBuilder::new();
    builder.append_catalog(None).append_db_schema(None);
    builder.append_statistic("t", None, -8i8, StatisticValue::Int64(0), false);
    builder.append_statistic("t", None, 200u8, StatisticValue::Int64(0), false);
    builder.append_statistic("t", None, true, StatisticValue::Int64(0), false);
    builder.append_statistic("t", None, false, StatisticValue::Int64(0), false);
    builder.append_statistic("t", None, i16::MIN, StatisticValue::Int64(0), false);
    let batch = builder.finish().unwrap().inner;
    let rows = items(items(batch.column(1), 0).column(1), 0);
    assert_eq!(
        rows.column(2).as_primitive::<Int16Type>().values().to_vec(),
        vec![-8, 200, 1, 0, i16::MIN]
    );
}
