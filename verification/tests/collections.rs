use pino::collections::{StackMap, StackSet, StackString, StackVec};
use pino::error::PinoError;
use std::cell::Cell;
use std::rc::Rc;

#[test]
fn vec_starts_empty() {
    let v: StackVec<u32, 4> = StackVec::new();
    assert_eq!(v.len(), 0);
    assert!(v.is_empty());
    assert!(!v.is_full());
    assert_eq!(v.capacity(), 4);
    assert_eq!(v.as_slice(), &[] as &[u32]);
}

#[test]
fn vec_pushes_keep_order_up_to_capacity() {
    let mut v: StackVec<u32, 3> = StackVec::new();
    assert_eq!(v.push(10), Ok(()));
    assert_eq!(v.push(20), Ok(()));
    assert_eq!(v.push(30), Ok(()));
    assert_eq!(v.as_slice(), &[10, 20, 30]);
    assert!(v.is_full());
    assert_eq!(v.len(), 3);
}

#[test]
fn vec_push_beyond_capacity_fails_and_changes_nothing() {
    let mut v: StackVec<u32, 2> = StackVec::new();
    v.push(1).unwrap();
    v.push(2).unwrap();
    assert_eq!(v.push(3), Err(PinoError::Custom(0x1001)));
    assert_eq!(v.as_slice(), &[1, 2]);
    assert_eq!(v.len(), 2);
}

#[test]
fn vec_of_capacity_zero_refuses_every_push() {
    let mut v: StackVec<u8, 0> = StackVec::new();
    assert!(v.is_full());
    assert_eq!(v.push(1), Err(PinoError::Custom(0x1001)));
    assert_eq!(v.pop(), None);
}

#[test]
fn vec_push_then_pop_returns_value_and_restores_length() {
    let mut v: StackVec<String, 4> = StackVec::new();
    v.push("a".to_string()).unwrap();
    let before = v.len();
    v.push("b".to_string()).unwrap();
    assert_eq!(v.pop(), Some("b".to_string()));
    assert_eq!(v.len(), before);
    assert_eq!(v.as_slice(), &["a".to_string()]);
}

#[test]
fn vec_pop_on_empty_is_none() {
    let mut v: StackVec<u32, 4> = StackVec::new();
    assert_eq!(v.pop(), None);
    assert_eq!(v.len(), 0);
}

#[test]
fn vec_mutable_slice_writes_through() {
    let mut v: StackVec<u32, 4> = StackVec::new();
    v.push(1).unwrap();
    v.push(2).unwrap();
    {
        let s = v.as_mut_slice();
        assert_eq!(s.len(), 2);
        s[0] = 7;
    }
    assert_eq!(v.as_slice(), &[7, 2]);
}

#[test]
fn vec_iterates_in_index_order() {
    let mut v: StackVec<u32, 4> = StackVec::new();
    v.push(3).unwrap();
    v.push(1).unwrap();
    v.push(2).unwrap();
    let seen: Vec<u32> = v.iter().copied().collect();
    assert_eq!(seen, vec![3, 1, 2]);
    for x in v.iter_mut() {
        *x += 10;
    }
    assert_eq!(v.as_slice(), &[13, 11, 12]);
}

#[test]
fn vec_clear_then_reuse() {
    let mut v: StackVec<u32, 2> = StackVec::new();
    v.push(1).unwrap();
    v.push(2).unwrap();
    v.clear();
    assert!(v.is_empty());
    assert_eq!(v.push(9), Ok(()));
    assert_eq!(v.as_slice(), &[9]);
}

#[test]
fn vec_default_is_empty() {
    let v: StackVec<u8, 3> = Default::default();
    assert!(v.is_empty());
}

#[derive(Default)]
struct Tally {
    drops: Option<Rc<Cell<usize>>>,
}

impl Drop for Tally {
    fn drop(&mut self) {
        if let Some(counter) = &self.drops {
            counter.set(counter.get() + 1);
        }
    }
}

#[test]
fn vec_clear_finalizes_each_element_once() {
    let counter = Rc::new(Cell::new(0usize));
    let mut v: StackVec<Tally, 8> = StackVec::new();
    for _ in 0..3 {
        assert!(v.push(Tally { drops: Some(counter.clone()) }).is_ok());
    }
    assert_eq!(counter.get(), 0);
    v.clear();
    assert_eq!(counter.get(), 3);
    assert_eq!(v.len(), 0);
    drop(v);
    assert_eq!(counter.get(), 3);
}

#[test]
fn vec_drop_finalizes_each_element_once() {
    let counter = Rc::new(Cell::new(0usize));
    {
        let mut v: StackVec<Tally, 8> = StackVec::new();
        for _ in 0..5 {
            assert!(v.push(Tally { drops: Some(counter.clone()) }).is_ok());
        }
        let popped = v.pop();
        assert!(popped.is_some());
        drop(popped);
        assert_eq!(counter.get(), 1);
    }
    assert_eq!(counter.get(), 5);
}

#[test]
fn map_insert_then_get() {
    let mut m: StackMap<u32, String, 4> = StackMap::new();
    assert_eq!(m.insert(1, "one".to_string()), Ok(None));
    assert_eq!(m.get(&1), Some(&"one".to_string()));
    assert_eq!(m.get(&2), None);
    assert!(m.contains_key(&1));
    assert!(!m.contains_key(&2));
    assert_eq!(m.len(), 1);
}

#[test]
fn map_second_insert_overwrites_in_place() {
    let mut m: StackMap<u32, u32, 4> = StackMap::new();
    m.insert(1, 10).unwrap();
    m.insert(2, 20).unwrap();
    m.insert(3, 30).unwrap();
    assert_eq!(m.insert(2, 21), Ok(Some(20)));
    assert_eq!(m.len(), 3);
    assert_eq!(m.get(&2), Some(&21));
    // the overwritten entry kept its slot: removing the first key leaves
    // key 2 in front of key 3, and a full map still takes the overwrite
    assert_eq!(m.remove(&1), Some(10));
    assert_eq!(m.get(&2), Some(&21));
    assert_eq!(m.get(&3), Some(&30));
}

#[test]
fn map_full_rejects_new_key_but_overwrites_old() {
    let mut m: StackMap<u8, u8, 2> = StackMap::new();
    m.insert(1, 1).unwrap();
    m.insert(2, 2).unwrap();
    assert!(m.is_full());
    assert_eq!(m.insert(3, 3), Err(PinoError::Custom(0x1002)));
    assert_eq!(m.len(), 2);
    assert_eq!(m.get(&1), Some(&1));
    assert_eq!(m.get(&2), Some(&2));
    assert_eq!(m.get(&3), None);
    assert_eq!(m.insert(2, 9), Ok(Some(2)));
    assert_eq!(m.get(&2), Some(&9));
}

#[test]
fn map_remove_then_get_is_none_and_order_stays() {
    let mut m: StackMap<u32, char, 5> = StackMap::new();
    m.insert(1, 'a').unwrap();
    m.insert(2, 'b').unwrap();
    m.insert(3, 'c').unwrap();
    m.insert(4, 'd').unwrap();
    assert_eq!(m.remove(&2), Some('b'));
    assert_eq!(m.get(&2), None);
    assert_eq!(m.len(), 3);
    assert_eq!(m.get(&1), Some(&'a'));
    assert_eq!(m.get(&3), Some(&'c'));
    assert_eq!(m.get(&4), Some(&'d'));
    assert_eq!(m.remove(&2), None);
    assert_eq!(m.remove(&4), Some('d'));
    assert_eq!(m.remove(&1), Some('a'));
    assert_eq!(m.remove(&3), Some('c'));
    assert!(m.is_empty());
}

#[test]
fn map_get_mut_writes_through() {
    let mut m: StackMap<u32, u32, 4> = StackMap::new();
    m.insert(5, 50).unwrap();
    m.insert(6, 60).unwrap();
    if let Some(v) = m.get_mut(&6) {
        *v += 1;
    }
    assert_eq!(m.get(&6), Some(&61));
    assert_eq!(m.get(&5), Some(&50));
    assert!(m.get_mut(&7).is_none());
}

#[test]
fn map_clear_empties() {
    let mut m: StackMap<u32, u32, 4> = StackMap::new();
    m.insert(5, 50).unwrap();
    m.clear();
    assert!(m.is_empty());
    assert_eq!(m.get(&5), None);
    assert_eq!(m.capacity(), 4);
}

#[test]
fn map_drop_finalizes_each_value_once() {
    let counter = Rc::new(Cell::new(0usize));
    {
        let mut m: StackMap<u32, Tally, 4> = StackMap::new();
        m.insert(1, Tally { drops: Some(counter.clone()) }).unwrap();
        m.insert(2, Tally { drops: Some(counter.clone()) }).unwrap();
        let old = m.insert(1, Tally { drops: Some(counter.clone()) }).unwrap();
        assert!(old.is_some());
        drop(old);
        assert_eq!(counter.get(), 1);
        let gone = m.remove(&2);
        drop(gone);
        assert_eq!(counter.get(), 2);
    }
    assert_eq!(counter.get(), 3);
}

#[test]
fn set_insert_reports_novelty() {
    let mut s: StackSet<u32, 2> = StackSet::new();
    assert_eq!(s.insert(7), Ok(true));
    assert_eq!(s.insert(7), Ok(false));
    assert_eq!(s.len(), 1);
    assert_eq!(s.insert(8), Ok(true));
    assert!(s.is_full());
    assert_eq!(s.insert(9), Err(PinoError::Custom(0x1002)));
    assert_eq!(s.insert(8), Ok(false));
    assert!(s.contains(&7));
    assert!(!s.contains(&9));
}

#[test]
fn set_remove_reports_membership() {
    let mut s: StackSet<u32, 4> = StackSet::new();
    s.insert(1).unwrap();
    s.insert(2).unwrap();
    assert!(s.remove(&1));
    assert!(!s.remove(&1));
    assert!(!s.contains(&1));
    assert!(s.contains(&2));
    assert_eq!(s.len(), 1);
    s.clear();
    assert!(s.is_empty());
    assert_eq!(s.capacity(), 4);
}

#[test]
fn string_push_str_appends() {
    let mut s: StackString<16> = StackString::new();
    assert!(s.is_empty());
    assert_eq!(s.push_str("hello"), Ok(()));
    assert_eq!(s.push_str(", world"), Ok(()));
    assert_eq!(s.as_str(), "hello, world");
    assert_eq!(s.len(), 12);
    assert_eq!(s.capacity(), 16);
    assert!(!s.is_full());
}

#[test]
fn string_failing_push_str_leaves_text_unchanged() {
    let mut s: StackString<8> = StackString::new();
    s.push_str("abcdef").unwrap();
    let before = s.as_str().to_string();
    assert_eq!(s.push_str("xyz"), Err(PinoError::Custom(0x1003)));
    assert_eq!(s.as_str(), before);
    assert_eq!(s.len(), 6);
    assert_eq!(s.push_str("gh"), Ok(()));
    assert!(s.is_full());
    assert_eq!(s.as_str(), "abcdefgh");
}

#[test]
fn string_push_char_encodes_utf8() {
    let mut s: StackString<7> = StackString::new();
    assert_eq!(s.push('a'), Ok(()));
    assert_eq!(s.push('é'), Ok(()));
    assert_eq!(s.push('€'), Ok(()));
    assert_eq!(s.len(), 6);
    assert_eq!(s.as_str(), "aé€");
    // four more bytes do not fit in the one that is left
    assert_eq!(s.push('😀'), Err(PinoError::Custom(0x1003)));
    assert_eq!(s.as_str(), "aé€");
    assert_eq!(s.push('z'), Ok(()));
    assert!(s.is_full());
}

#[test]
fn string_hex_of_one_byte() {
    let mut s: StackString<8> = StackString::new();
    assert_eq!(s.push_pubkey(&[0xAB]), Ok(()));
    assert_eq!(s.as_str(), "ab");
}

#[test]
fn string_hex_of_nothing_is_a_no_op() {
    let mut s: StackString<4> = StackString::new();
    assert_eq!(s.push_pubkey(&[]), Ok(()));
    assert_eq!(s.as_str(), "");
    s.push_str("full").unwrap();
    assert_eq!(s.push_pubkey(&[]), Ok(()));
    assert_eq!(s.as_str(), "full");
}

#[test]
fn string_hex_uses_lowercase_alphabet() {
    let mut s: StackString<64> = StackString::new();
    let bytes = [0x01, 0x23, 0x45, 0x67, 0x89, 0xab, 0xcd, 0xef, 0x00, 0xff];
    assert_eq!(s.push_pubkey(&bytes), Ok(()));
    assert_eq!(s.as_str(), "0123456789abcdef00ff");
}

#[test]
fn string_hex_of_a_key_fills_sixty_four_bytes() {
    let key = [0x5au8; 32];
    let mut s: StackString<64> = StackString::new();
    assert_eq!(s.push_pubkey(&key), Ok(()));
    assert_eq!(s.len(), 64);
    assert_eq!(s.as_str(), "5a".repeat(32));
}

#[test]
fn string_hex_that_does_not_fit_writes_nothing() {
    let mut s: StackString<5> = StackString::new();
    s.push_str("k=").unwrap();
    assert_eq!(s.push_pubkey(&[0x12, 0x34]), Err(PinoError::Custom(0x1003)));
    assert_eq!(s.as_str(), "k=");
    assert_eq!(s.len(), 2);
    assert_eq!(s.push_pubkey(&[0x12]), Ok(()));
    assert_eq!(s.as_str(), "k=12");
}

#[test]
fn string_clear_then_append_overwrites() {
    let mut s: StackString<8> = StackString::new();
    s.push_str("abcdefgh").unwrap();
    s.clear();
    assert_eq!(s.len(), 0);
    assert_eq!(s.as_str(), "");
    s.push_str("xy").unwrap();
    assert_eq!(s.as_str(), "xy");
}

#[test]
fn set_has_no_member_twice_and_none_after_removal() {
    let mut s: StackSet<u8, 3> = StackSet::new();
    assert_eq!(s.insert(1), Ok(true));
    assert_eq!(s.insert(2), Ok(true));
    assert_eq!(s.insert(1), Ok(false));
    assert_eq!(s.len(), 2);
    assert!(s.contains(&1));
    assert!(s.remove(&1));
    assert!(!s.contains(&1));
    assert!(!s.remove(&1));
    assert_eq!(s.len(), 1);
}

#[test]
fn map_overwrites_a_present_key_even_when_full() {
    let mut m: StackMap<u8, u8, 3> = StackMap::new();
    m.insert(1, 10).unwrap();
    m.insert(2, 20).unwrap();
    m.insert(3, 30).unwrap();
    assert!(m.is_full());
    assert_eq!(m.insert(2, 21), Ok(Some(20)));
    assert_eq!(m.len(), 3);
    assert_eq!(m.get(&1), Some(&10));
    assert_eq!(m.get(&2), Some(&21));
    assert_eq!(m.get(&3), Some(&30));
    assert_eq!(m.contains_key(&2), m.get(&2).is_some());
}
