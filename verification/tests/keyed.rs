use pumas_core::keyed::{insert_key, Keyed};

fn keys(v: &[Keyed<u32>]) -> Vec<&str> {
    v.iter().map(|e| e.key.as_str()).collect()
}

#[test]
fn new_keys_keep_a_sorted_list_sorted() {
    let mut v: Vec<Keyed<u32>> = vec![Keyed { key: "b".to_string(), value: 2 }];
    insert_key(&mut v, "d".to_string(), 4);
    insert_key(&mut v, "a".to_string(), 1);
    insert_key(&mut v, "c".to_string(), 3);
    assert_eq!(keys(&v), vec!["a", "b", "c", "d"]);
    insert_key(&mut v, "b".to_string(), 20);
    assert_eq!(keys(&v), vec!["a", "b", "c", "d"]);
    assert_eq!(v[1].value, 20);
}
