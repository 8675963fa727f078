use vk_generator::CommandTable;
use vk_generator::WrappedFlags;

#[test]
fn a_resolver_that_knows_nothing_leaves_every_slot_empty() {
    let mut table = CommandTable::new(4);
    assert_eq!(table.len(), 4);
    assert_eq!(table.load_with(&vec![0, 0, 0, 0]), Err(vec![0, 1, 2, 3]));
    for i in 0..4 {
        assert!(!table.is_loaded(i));
    }
}

#[test]
fn loading_twice_with_the_same_resolver_changes_nothing() {
    let answers = vec![0x1000, 0, 0x3000, 0, 0];
    let mut table = CommandTable::new(5);
    let first = table.load_with(&answers);
    let loaded: Vec<bool> = (0..5).map(|i| table.is_loaded(i)).collect();
    let second = table.load_with(&answers);
    assert_eq!(first, Err(vec![1, 3, 4]));
    assert_eq!(second, first);
    assert_eq!((0..5).map(|i| table.is_loaded(i)).collect::<Vec<_>>(), loaded);
    assert_eq!(loaded, [true, false, true, false, false]);
}

#[test]
fn a_later_load_fills_only_what_is_still_empty() {
    let mut table = CommandTable::new(3);
    assert_eq!(table.load_with(&vec![7, 0, 0]), Err(vec![1, 2]));
    assert_eq!(table.load_with(&vec![0, 8, 0]), Err(vec![2]));
    assert!(table.is_loaded(0));
    assert_eq!(table.load_with(&vec![0, 0, 9]), Ok(()));
    assert_eq!(table.load_with(&vec![0, 0, 0]), Ok(()));
    assert!(table.is_loaded(0) && table.is_loaded(1) && table.is_loaded(2));
}

#[test]
fn a_table_without_commands_is_loaded() {
    let mut table = CommandTable::new(0);
    assert_eq!(table.load_with(&vec![]), Ok(()));
    assert_eq!(table.len(), 0);
}

#[test]
fn the_operators_work_on_the_flag_words() {
    let all = 0b1111;
    let a = WrappedFlags::from_flags(0b0101, all).unwrap();
    let b = WrappedFlags::from_flags(0b0110, all).unwrap();
    assert_eq!((a | b).flags(), 0b0111);
    assert_eq!((a & b).flags(), 0b0100);
    assert_eq!((a ^ b).flags(), 0b0011);
    assert_eq!((a - b).flags(), 0b0001);
    assert_eq!((b - a).flags(), 0b0010);
    assert_eq!((!a).flags(), 0b1010);
    assert_eq!((a - a), WrappedFlags::empty(all));
    assert_eq!((a | !a), WrappedFlags::all(all));
}

#[test]
fn flags_are_made_and_tested() {
    let all = 0b1011;
    assert_eq!(WrappedFlags::empty(all).flags(), 0);
    assert_eq!(WrappedFlags::all(all).flags(), all);
    assert!(WrappedFlags::empty(all).is_empty());
    assert!(WrappedFlags::all(all).is_all());
    assert!(!WrappedFlags::all(all).is_empty());
    assert_eq!(WrappedFlags::from_flags(0b0100, all), None);
    assert_eq!(WrappedFlags::from_flags(0b1111, all), None);
    assert_eq!(WrappedFlags::from_flags_truncate(0b1111, all).flags(), 0b1011);
    let a = WrappedFlags::from_flags(0b0011, all).unwrap();
    let b = WrappedFlags::from_flags(0b0001, all).unwrap();
    let c = WrappedFlags::from_flags(0b1000, all).unwrap();
    assert!(a.intersects(b));
    assert!(!a.intersects(c));
    assert!(a.subset(b));
    assert!(!b.subset(a));
    assert!(!a.is_all());
    assert!((a | c).is_all());
}
