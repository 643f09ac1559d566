use channel_store::{Channel, Channels, Get, GetMut, GetRef};
use std::mem::MaybeUninit;

#[test]
fn tuple_of_channels_can_get() {
    let mut ch1 = Channel::fill(0, 10);
    let mut ch2 = Channel::fill(0, 10);

    assert_eq!((&ch1, &ch2).get(0), (0, 0));
    assert_eq!((&ch1, &ch2).get_ref(0), (&0, &0));
    assert_eq!((&mut ch1, &mut ch2).get_mut(0), (&mut 0, &mut 0));

    let mut owned = (ch1, ch2);

    assert_eq!(owned.get(0), (0, 0));
    assert_eq!(owned.get_ref(0), (&0, &0));
    assert_eq!(owned.get_mut(0), (&mut 0, &mut 0));
}

#[test]
fn fill_gives_length_and_value_everywhere() {
    let ch = Channel::fill(7u32, 10);
    assert_eq!(ch.store().len(), 10);
    for i in 0..10usize {
        assert_eq!(*ch.get_ref(i), 7);
        assert_eq!(ch.get(i), 7);
    }
}

#[test]
fn fill_of_length_zero_is_empty() {
    let ch = Channel::fill(String::from("x"), 0);
    assert!(ch.store().is_empty());
    assert_eq!(ch.take_store(), Vec::<String>::new());
}

#[test]
fn fill_duplicates_owned_values() {
    let ch = Channel::fill(String::from("voxel"), 3);
    assert_eq!(ch.get(0), "voxel");
    assert_eq!(ch.get_ref(2), "voxel");
    assert_eq!(ch.take_store(), vec!["voxel".to_string(); 3]);
}

#[test]
fn new_wraps_the_store_as_it_is() {
    let ch = Channel::<i32>::new(vec![3, 1, 4, 1, 5]);
    assert_eq!(ch.store(), &vec![3, 1, 4, 1, 5]);
    assert_eq!(*ch.get_ref(0), 3);
    assert_eq!(*ch.get_ref(2), 4);
    assert_eq!(*ch.get_ref(4), 5);
}

#[test]
fn reset_values_overwrites_all_and_keeps_length() {
    let mut ch = Channel::<i32>::new(vec![3, 1, 4, 1, 5]);
    ch.reset_values(9);
    assert_eq!(ch.store().len(), 5);
    for i in 0..5usize {
        assert_eq!(*ch.get_ref(i), 9);
    }
    assert_eq!(ch.take_store(), vec![9; 5]);
}

#[test]
fn reset_values_on_one_element_and_on_none() {
    let mut one = Channel::<String>::new(vec!["a".to_string()]);
    one.reset_values("b".to_string());
    assert_eq!(one.take_store(), vec!["b".to_string()]);

    let mut none = Channel::<u8>::new(Vec::new());
    none.reset_values(1);
    assert!(none.store().is_empty());
}

#[test]
fn write_through_get_mut_is_read_back() {
    let mut ch = Channel::<i32>::new(vec![10, 20, 30, 40]);
    *ch.get_mut(2) = 99;
    assert_eq!(*ch.get_ref(2), 99);
    assert_eq!(*ch.get_ref(0), 10);
    assert_eq!(*ch.get_ref(1), 20);
    assert_eq!(*ch.get_ref(3), 40);
    assert_eq!(ch.store().len(), 4);
}

#[test]
fn get_mut_lends_the_stored_element() {
    let mut ch = Channel::<i32>::new(vec![10, 20, 30]);
    assert_eq!(*ch.get_mut(1), 20);
    let mut r = &mut ch;
    *r.get_mut(0) += 1;
    assert_eq!(ch.take_store(), vec![11, 20, 30]);
}

#[test]
fn store_mut_changes_are_seen_by_reads() {
    let mut ch = Channel::<u8>::new(vec![1, 2, 3]);
    ch.store_mut()[1] = 7;
    ch.store_mut().swap(0, 2);
    assert_eq!(ch.get(0), 3);
    assert_eq!(ch.get(1), 7);
    assert_eq!(ch.get(2), 1);
}

#[test]
fn take_store_then_new_gives_an_equal_channel() {
    let ch = Channel::<i32>::new(vec![1, 2, 3]);
    let again = Channel::<i32>::new(ch.clone().take_store());
    assert_eq!(again, ch);
    assert!(again == ch);
}

#[test]
fn channels_differ_when_stores_differ() {
    let a = Channel::<i32>::new(vec![1, 2, 3]);
    let b = Channel::<i32>::new(vec![1, 2, 4]);
    let c = Channel::<i32>::new(vec![1, 2]);
    assert_ne!(a, b);
    assert_ne!(a, c);
    assert_eq!(a.clone(), a);
}

#[test]
fn pair_reads_are_the_members_reads() {
    let c1 = Channel::<i32>::new(vec![1, 2, 3]);
    let c2 = Channel::<char>::new(vec!['a', 'b', 'c']);
    for i in 0..3usize {
        assert_eq!((&c1, &c2).get_ref(i), (c1.get_ref(i), c2.get_ref(i)));
        assert_eq!((&c1, &c2).get(i), (c1.get(i), c2.get(i)));
    }
    let pair = (c1, c2);
    assert_eq!(pair.get(1), (2, 'b'));
    assert_eq!(pair.get_ref(2), (&3, &'c'));
}

#[test]
fn pair_get_mut_writes_reach_both_members() {
    let mut pair = (Channel::<i32>::new(vec![1, 2, 3]), Channel::<char>::new(vec!['a', 'b', 'c']));
    {
        let (n, c) = pair.get_mut(1);
        *n = 20;
        *c = 'z';
    }
    assert_eq!(pair.0.store(), &vec![1, 20, 3]);
    assert_eq!(pair.1.store(), &vec!['a', 'z', 'c']);

    let (mut c1, mut c2) = pair;
    {
        let mut both = (&mut c1, &mut c2);
        let (n, c) = both.get_mut(0);
        *n = 10;
        *c = 'y';
    }
    assert_eq!(c1.take_store(), vec![10, 20, 3]);
    assert_eq!(c2.take_store(), vec!['y', 'z', 'c']);
}

#[test]
fn pair_fill_is_fill_of_each_member() {
    let pair: (Channel<i32>, Channel<u8>) = Channels::fill((1, 2), 5);
    assert_eq!(pair, (Channel::fill(1, 5), Channel::fill(2u8, 5)));
}

#[test]
fn pair_reset_is_reset_of_each_member() {
    let mut pair = (Channel::<i32>::new(vec![1, 2, 3]), Channel::<u8>::new(vec![4, 5]));
    Channels::reset_values(&mut pair, (7, 8));
    let mut c1 = Channel::<i32>::new(vec![1, 2, 3]);
    let mut c2 = Channel::<u8>::new(vec![4, 5]);
    c1.reset_values(7);
    c2.reset_values(8);
    assert_eq!(pair, (c1, c2));
    assert_eq!(pair.0.store(), &vec![7, 7, 7]);
    assert_eq!(pair.1.store(), &vec![8, 8]);
}

#[test]
fn single_channel_through_the_trait() {
    let mut ch: Channel<i32> = Channels::fill(4, 3);
    assert_eq!(ch.store(), &vec![4, 4, 4]);
    Channels::reset_values(&mut ch, 6);
    assert_eq!(ch.store(), &vec![6, 6, 6]);
}

#[test]
fn one_tuple_fills_and_resets() {
    let mut one: (Channel<i32>,) = Channels::fill((4,), 2);
    assert_eq!(one.0.store(), &vec![4, 4]);
    one.reset_values((5,));
    assert_eq!(one.0.store(), &vec![5, 5]);
}

#[test]
fn triple_fills_and_resets() {
    let mut t: (Channel<i32>, Channel<u8>, Channel<char>) = Channels::fill((1, 2, 'c'), 2);
    assert_eq!(t.0.store(), &vec![1, 1]);
    assert_eq!(t.1.store(), &vec![2, 2]);
    assert_eq!(t.2.store(), &vec!['c', 'c']);
    t.reset_values((3, 4, 'd'));
    assert_eq!(t.0.store(), &vec![3, 3]);
    assert_eq!(t.1.store(), &vec![4, 4]);
    assert_eq!(t.2.store(), &vec!['d', 'd']);
}

#[test]
fn quadruple_and_quintuple_fill_and_reset() {
    let mut q: (Channel<i32>, Channel<u8>, Channel<char>, Channel<bool>) =
        Channels::fill((1, 2, 'c', true), 1);
    assert_eq!(q.3.store(), &vec![true]);
    q.reset_values((5, 6, 'e', false));
    assert_eq!(q.0.store(), &vec![5]);
    assert_eq!(q.1.store(), &vec![6]);
    assert_eq!(q.2.store(), &vec!['e']);
    assert_eq!(q.3.store(), &vec![false]);

    let mut f: (Channel<i32>, Channel<u8>, Channel<char>, Channel<bool>, Channel<i64>) =
        Channels::fill((1, 2, 'c', true, -1), 2);
    assert_eq!(f.4.store(), &vec![-1, -1]);
    f.reset_values((0, 0, 'z', false, 9));
    assert_eq!(f.0.store(), &vec![0, 0]);
    assert_eq!(f.2.store(), &vec!['z', 'z']);
    assert_eq!(f.4.store(), &vec![9, 9]);
}

#[test]
fn sextuple_fills_and_resets_each_member_with_its_own_value() {
    type Six = (Channel<i32>, Channel<i32>, Channel<i32>, Channel<i32>, Channel<i32>, Channel<i32>);
    let mut s: Six = Channels::fill((1, 2, 3, 4, 5, 6), 3);
    assert_eq!(s.0.store(), &vec![1; 3]);
    assert_eq!(s.1.store(), &vec![2; 3]);
    assert_eq!(s.2.store(), &vec![3; 3]);
    assert_eq!(s.3.store(), &vec![4; 3]);
    assert_eq!(s.4.store(), &vec![5; 3]);
    assert_eq!(s.5.store(), &vec![6; 3]);
    s.reset_values((6, 5, 4, 3, 2, 1));
    assert_eq!(s.0.store(), &vec![6; 3]);
    assert_eq!(s.1.store(), &vec![5; 3]);
    assert_eq!(s.2.store(), &vec![4; 3]);
    assert_eq!(s.3.store(), &vec![3; 3]);
    assert_eq!(s.4.store(), &vec![2; 3]);
    assert_eq!(s.5.store(), &vec![1; 3]);
}

#[test]
fn nested_tuples_compose() {
    let mut n: ((Channel<i32>, Channel<u8>), Channel<char>) = Channels::fill(((1, 2), 'c'), 2);
    assert_eq!((n.0).0.store(), &vec![1, 1]);
    assert_eq!((n.0).1.store(), &vec![2, 2]);
    n.reset_values(((3, 4), 'd'));
    assert_eq!((n.0).1.store(), &vec![4, 4]);
    assert_eq!(n.1.store(), &vec!['d', 'd']);
}

#[test]
fn fill_read_and_reset_scenario() {
    let c = Channel::fill(0, 10);
    assert_eq!(c.get(0), 0);
    assert_eq!(c.get(9), 0);

    let (mut c1, c2) = (Channel::fill(1, 5), Channel::fill(2, 5));
    assert_eq!((&c1, &c2).get(3), (1, 2));

    c1.reset_values(9);
    for i in 0..5usize {
        assert_eq!(c1.get(i), 9);
        assert_eq!(c2.get(i), 2);
    }
}

#[test]
fn maybe_uninit_reserves_exactly_the_size() {
    let mut ch = Channel::<MaybeUninit<u64>>::maybe_uninit(6);
    assert_eq!(ch.store().len(), 6);
    for i in 0..6usize {
        ch.get_mut(i).write(i as u64 * 3);
    }
    assert_eq!(ch.store().len(), 6);

    let none = Channel::<MaybeUninit<String>>::maybe_uninit(0);
    assert!(none.store().is_empty());
}

#[test]
fn store_survives_an_encoding_round_trip() {
    let ch = Channel::<i32>::new(vec![-1, 0, 7]);
    let text = serde_json::to_string(ch.store()).unwrap();
    assert_eq!(text, "[-1,0,7]");
    let back: Vec<i32> = serde_json::from_str(&text).unwrap();
    assert_eq!(Channel::<i32>::new(back), ch);
}

#[test]
fn boxed_slice_store_reads_writes_and_resets() {
    let mut ch = Channel::<i32, Box<[i32]>>::new(vec![1, 2, 3].into_boxed_slice());
    assert_eq!(*ch.get_ref(1), 2);
    assert_eq!(ch.get(2), 3);
    *ch.get_mut(0) = 5;
    assert_eq!(ch.store().as_ref(), &[5, 2, 3]);
    ch.reset_values(8);
    assert_eq!(ch.take_store().as_ref(), &[8, 8, 8]);
}

#[test]
fn borrowed_slice_store_is_read_only() {
    let data = [4u8, 5, 6];
    let ch = Channel::<u8, &[u8]>::new(&data);
    assert_eq!(*ch.get_ref(0), 4);
    assert_eq!(ch.get(2), 6);
    assert_eq!(ch.take_store(), &[4, 5, 6]);
}

#[test]
fn mutably_borrowed_slice_store_writes_through() {
    let mut data = [4u8, 5, 6];
    {
        let mut ch = Channel::<u8, &mut [u8]>::new(&mut data);
        assert_eq!(*ch.get_ref(1), 5);
        *ch.get_mut(1) = 50;
        assert_eq!(ch.get(1), 50);
    }
    assert_eq!(data, [4, 50, 6]);
    {
        let mut ch = Channel::<u8, &mut [u8]>::new(&mut data);
        ch.reset_values(1);
    }
    assert_eq!(data, [1, 1, 1]);
}

#[test]
fn triple_reads_and_writes_by_one_offset() {
    let mut t = (
        Channel::<i32>::new(vec![1, 2]),
        Channel::<u8>::new(vec![3, 4]),
        Channel::<char>::new(vec!['a', 'b']),
    );
    assert_eq!(t.get(1), (2, 4, 'b'));
    assert_eq!(t.get_ref(0), (&1, &3, &'a'));
    {
        let (x, y, z) = t.get_mut(0);
        *x = 10;
        *y = 30;
        *z = 'q';
    }
    assert_eq!(t.get(0), (10, 30, 'q'));
    assert_eq!(t.get(1), (2, 4, 'b'));
}

#[test]
fn sextuple_reads_and_writes_by_one_offset() {
    let mut s = (
        Channel::<i32>::new(vec![1, 2]),
        Channel::<i32>::new(vec![3, 4]),
        Channel::<i32>::new(vec![5, 6]),
        Channel::<i32>::new(vec![7, 8]),
        Channel::<i32>::new(vec![9, 10]),
        Channel::<i32>::new(vec![11, 12]),
    );
    assert_eq!(s.get(1), (2, 4, 6, 8, 10, 12));
    assert_eq!(s.get_ref(0), (&1, &3, &5, &7, &9, &11));
    {
        let m = s.get_mut(1);
        *m.0 = -2;
        *m.5 = -12;
    }
    assert_eq!(s.get(1), (-2, 4, 6, 8, 10, -12));
    assert_eq!(s.get(0), (1, 3, 5, 7, 9, 11));
    {
        let (mut a, mut b, mut c, mut d, mut e, mut f) = s;
        {
            let mut borrowed = (&mut a, &mut b, &mut c, &mut d, &mut e, &mut f);
            let m = borrowed.get_mut(0);
            *m.2 = 55;
        }
        assert_eq!(c.take_store(), vec![55, 6]);
        assert_eq!(a.take_store(), vec![1, -2]);
    }
}

#[test]
fn pair_of_stores_survives_an_encoding_round_trip() {
    let pair = (Channel::<i32>::new(vec![1, 2]), Channel::<bool>::new(vec![true, false]));
    let text = serde_json::to_string(&(pair.0.store(), pair.1.store())).unwrap();
    assert_eq!(text, "[[1,2],[true,false]]");
    let (first, second): (Vec<i32>, Vec<bool>) = serde_json::from_str(&text).unwrap();
    assert_eq!((Channel::<i32>::new(first), Channel::<bool>::new(second)), pair);
}
