use adbc_dummy::info::GetInfoBuilder;
use adbc_dummy::options::InfoCode;
use arrow_array::cast::AsArray;
use arrow_array::types::{Int32Type, Int64Type, UInt32Type};
use arrow_array::{Array, RecordBatch, UnionArray};

fn rows(batch: &RecordBatch) -> (Vec<u32>, UnionArray) {
    let codes = batch.column(0).as_primitive::<UInt32Type>().values().to_vec();
    (codes, batch.column(1).as_union().clone())
}

#[test]
fn info_of_nothing_is_empty() {
    let batch = GetInfoBuilder::new().finish().unwrap().inner;
    assert_eq!(batch.num_rows(), 0);
    assert_eq!(batch.num_columns(), 2);
}

#[test]
fn info_rows_hold_codes_and_values() {
    let mut builder = GetInfoBuilder::new();
    builder
        .append_int64(InfoCode::DriverAdbcVersion, -7)
        .append_string(InfoCode::VendorName, "first")
        .append_int32_bitmask(InfoCode::VendorSubstrait, i32::MIN)
        .append_string(InfoCode::DriverName, "\u{e9}\u{4e16}")
        .append_bool(InfoCode::VendorSql, false)
        .append_int64(InfoCode::VendorVersion, i64::MAX);
    let batch = builder.finish().unwrap().inner;
    let (codes, union) = rows(&batch);
    assert_eq!(codes, vec![103, 0, 4, 100, 3, 1]);
    assert_eq!(union.type_ids().to_vec(), vec![2, 0, 3, 0, 1, 2]);
    assert_eq!(union.offsets().unwrap().to_vec(), vec![0, 0, 0, 1, 0, 1]);
    assert_eq!(union.value(0).as_primitive::<Int64Type>().value(0), -7);
    assert_eq!(union.value(1).as_string::<i32>().value(0), "first");
    assert_eq!(union.value(2).as_primitive::<Int32Type>().value(0), i32::MIN);
    assert_eq!(union.value(3).as_string::<i32>().value(0), "\u{e9}\u{4e16}");
    assert!(!union.value(4).as_boolean().value(0));
    assert_eq!(union.value(5).as_primitive::<Int64Type>().value(0), i64::MAX);
}

#[test]
fn info_string_lists_keep_their_items_apart() {
    let mut builder = GetInfoBuilder::new();
    builder
        .append_string_list(InfoCode::DriverVersion, &["a", "bc"])
        .append_string_list(InfoCode::DriverName, &[])
        .append_string_list(InfoCode::VendorName, &["", "d"]);
    let batch = builder.finish().unwrap().inner;
    let (_, union) = rows(&batch);
    let lists: Vec<Vec<String>> = (0..3)
        .map(|i| {
            let list = union.value(i).as_list::<i32>().value(0);
            let items = list.as_string::<i32>();
            (0..items.len()).map(|j| items.value(j).to_string()).collect()
        })
        .collect();
    assert_eq!(
        lists,
        vec![
            vec!["a".to_string(), "bc".to_string()],
            vec![],
            vec!["".to_string(), "d".to_string()],
        ]
    );
}

fn map_entries(union: &UnionArray, row: usize) -> Vec<(i32, Vec<i32>)> {
    let value = union.value(row);
    let entries = value.as_map().value(0);
    let keys = entries.column(0).as_primitive::<Int32Type>();
    let lists = entries.column(1).as_list::<i32>();
    (0..entries.len())
        .map(|i| {
            let items = lists.value(i);
            (keys.value(i), items.as_primitive::<Int32Type>().values().to_vec())
        })
        .collect()
}

#[test]
fn info_maps_keep_their_entries_apart() {
    let mut builder = GetInfoBuilder::new();
    builder
        .append_int32_to_int32_list_map(InfoCode::VendorName, &[(42, vec![1, 2, 3]), (7, vec![])])
        .append_int32_to_int32_list_map(InfoCode::VendorVersion, &[])
        .append_int32_to_int32_list_map(InfoCode::VendorSql, &[(-1, vec![9])]);
    let batch = builder.finish().unwrap().inner;
    let (codes, union) = rows(&batch);
    assert_eq!(codes, vec![0, 1, 3]);
    assert_eq!(union.type_ids().to_vec(), vec![5, 5, 5]);
    assert_eq!(map_entries(&union, 0), vec![(42, vec![1, 2, 3]), (7, vec![])]);
    assert_eq!(map_entries(&union, 1), vec![]);
    assert_eq!(map_entries(&union, 2), vec![(-1, vec![9])]);
}

#[test]
fn info_codes_have_their_numbers() {
    let codes = [
        (InfoCode::VendorName, 0),
        (InfoCode::VendorVersion, 1),
        (InfoCode::VendorArrowVersion, 2),
        (InfoCode::VendorSql, 3),
        (InfoCode::VendorSubstrait, 4),
        (InfoCode::VendorSubstraitMinVersion, 5),
        (InfoCode::VendorSubstraitMaxVersion, 6),
        (InfoCode::DriverName, 100),
        (InfoCode::DriverVersion, 101),
        (InfoCode::DriverArrowVersion, 102),
        (InfoCode::DriverAdbcVersion, 103),
    ];
    for (code, number) in codes {
        assert_eq!(u32::from(&code), number);
    }
}

#[test]
fn info_values_are_stored_densely() {
    let mut builder = GetInfoBuilder::new();
    for i in 0..4 {
        builder.append_int64(InfoCode::VendorName, i).append_bool(InfoCode::VendorSql, i == 2);
        if i % 2 == 0 {
            builder.append_string(InfoCode::DriverName, "x");
        }
    }
    let batch = builder.finish().unwrap().inner;
    let (_, union) = rows(&batch);
    let ids = union.type_ids().to_vec();
    let offsets = union.offsets().unwrap().to_vec();
    for i in 0..ids.len() {
        let earlier = (0..i).filter(|j| ids[*j] == ids[i]).count();
        assert_eq!(offsets[i] as usize, earlier);
    }
    for k in 0..6 {
        let named = ids.iter().filter(|id| **id == k).count();
        assert_eq!(union.child(k).len(), named);
    }
}
