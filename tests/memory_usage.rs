use loupe::{
    add_saturating, decimal_text, parse_address, size_of_address, size_of_extra, size_of_items_extra,
    size_of_items_full, size_of_owner, size_of_referent, size_of_val, MemoryUsage,
    POINTER_BYTE_SIZE,
};
use std::cell::UnsafeCell;
use std::collections::{BTreeSet, HashMap, HashSet};
use std::marker::PhantomData;
use std::path::PathBuf;
use std::ptr::NonNull;
use std::sync::Arc;

fn measure<T: MemoryUsage + ?Sized>(value: &T) -> usize {
    MemoryUsage::size_of_val(value, &mut BTreeSet::new())
}

#[test]
fn test_size_of_val_helper() {
    assert_eq!(size_of_val(&"abc"), 2 * POINTER_BYTE_SIZE + 1 * 3);
}

#[test]
fn test_primitives() {
    assert_eq!(measure(&true), 1);
    assert_eq!(measure(&'a'), 4);
    assert_eq!(measure(&1i8), 1);
    assert_eq!(measure(&1i16), 2);
    assert_eq!(measure(&1i32), 4);
    assert_eq!(measure(&1i64), 8);
    assert_eq!(measure(&1isize), POINTER_BYTE_SIZE);
    assert_eq!(measure(&1u8), 1);
    assert_eq!(measure(&1u16), 2);
    assert_eq!(measure(&1u32), 4);
    assert_eq!(measure(&1u64), 8);
    assert_eq!(measure(&1usize), POINTER_BYTE_SIZE);
}

#[test]
fn test_pointer_byte_size() {
    assert_eq!(POINTER_BYTE_SIZE, std::mem::size_of::<usize>());
}

#[test]
fn memory_usage_test_reference() {
    assert_eq!(measure(&&1i8), POINTER_BYTE_SIZE + 1);
    assert_eq!(measure(&&1i64), POINTER_BYTE_SIZE + 8);
}

#[test]
fn memory_usage_test_mutable_reference() {
    assert_eq!(measure(&&mut 1i8), POINTER_BYTE_SIZE + 1);
    assert_eq!(measure(&&mut 1i64), POINTER_BYTE_SIZE + 8);
}

#[test]
fn ptr_test_reference() {
    assert_eq!(measure(&&1i8), POINTER_BYTE_SIZE + 1);
    assert_eq!(measure(&&1i64), POINTER_BYTE_SIZE + 8);
}

#[test]
fn ptr_test_mutable_reference() {
    assert_eq!(measure(&&mut 1i8), POINTER_BYTE_SIZE + 1);
    assert_eq!(measure(&&mut 1i64), POINTER_BYTE_SIZE + 8);
}

#[test]
fn test_reference_counted_once_per_tracker() {
    let x: i64 = 7;
    let r = &x;
    let mut tracker: BTreeSet<usize> = BTreeSet::new();
    assert_eq!(MemoryUsage::size_of_val(&r, &mut tracker), POINTER_BYTE_SIZE + 8);
    assert_eq!(MemoryUsage::size_of_val(&r, &mut tracker), POINTER_BYTE_SIZE);
    let mut other: HashSet<usize> = HashSet::new();
    assert_eq!(MemoryUsage::size_of_val(&r, &mut other), POINTER_BYTE_SIZE + 8);
    assert_eq!(MemoryUsage::size_of_val(&r, &mut other), POINTER_BYTE_SIZE);
}

#[test]
fn test_slice() {
    assert_eq!(measure(&[1i16]), 2 * 1);
    assert_eq!(measure(&[1i16, 2]), 2 * 2);
    assert_eq!(measure(&[1i16, 2, 3]), 2 * 3);
}

#[test]
fn test_slice_dynamically_sized() {
    let slice: &[i16] = &[];
    assert_eq!(measure(&slice), 2 * POINTER_BYTE_SIZE + 2 * 0);

    let slice: &[i16] = &[1];
    assert_eq!(measure(&slice), 2 * POINTER_BYTE_SIZE + 2 * 1);

    let slice: &[i16] = &[1, 2];
    assert_eq!(measure(&slice), 2 * POINTER_BYTE_SIZE + 2 * 2);

    let slice: &[i16] = &[1, 2, 3];
    assert_eq!(measure(&slice), 2 * POINTER_BYTE_SIZE + 2 * 3);
}

#[test]
fn test_array() {
    let array: [i16; 0] = [0; 0];
    assert_eq!(measure(&array), 2 * 0);

    let array: [i16; 1] = [0; 1];
    assert_eq!(measure(&array), 2 * 1);

    let array: [i16; 2] = [0; 2];
    assert_eq!(measure(&array), 2 * 2);

    let array: [i16; 3] = [0; 3];
    assert_eq!(measure(&array), 2 * 3);

    let array: [[i16; 3]; 5] = [[0; 3]; 5];
    assert_eq!(measure(&array), 2 * 3 * 5);
}

#[test]
fn test_array_of_references_adds_referents() {
    let a: i32 = 1;
    let b: i32 = 2;
    let array: [&i32; 3] = [&a, &b, &a];
    assert_eq!(measure(&array), 3 * POINTER_BYTE_SIZE + 4 + 4);
}

#[test]
fn test_str() {
    let string: &str = "";
    assert_eq!(measure(&string), 2 * POINTER_BYTE_SIZE + 1 * 0);

    let string: &str = "a";
    assert_eq!(measure(&string), 2 * POINTER_BYTE_SIZE + 1 * 1);

    let string: &str = "ab";
    assert_eq!(measure(&string), 2 * POINTER_BYTE_SIZE + 1 * 2);

    let string: &str = "abc";
    assert_eq!(measure(&string), 2 * POINTER_BYTE_SIZE + 1 * 3);

    let string: &str = "…";
    assert_eq!(measure(&string), 2 * POINTER_BYTE_SIZE + 1 * 3);
}

#[test]
fn test_string() {
    let header = std::mem::size_of::<String>();

    let string: String = "".to_string();
    assert_eq!(measure(&string), header + string.capacity());

    let string: String = "a".to_string();
    assert_eq!(measure(&string), header + string.capacity());
    assert!(string.capacity() >= 1);

    let string: String = "ab".to_string();
    assert_eq!(measure(&string), header + string.capacity());

    let string: String = "abc".to_string();
    assert_eq!(measure(&string), header + string.capacity());

    let string: String = "…".to_string();
    assert_eq!(measure(&string), header + string.capacity());
    assert!(string.capacity() >= 3);
}

#[test]
fn test_string_counts_capacity() {
    let mut string: String = String::with_capacity(32);
    string.push_str("abc");
    assert_eq!(measure(&string), std::mem::size_of::<String>() + string.capacity());
    assert!(measure(&string) >= std::mem::size_of::<String>() + 32);
}

#[test]
fn memory_usage_test_tuple() {
    let tuple: (i8, i8) = (1, 2);
    assert_eq!(measure(&tuple), 1 /* i8 */ + 1 /* i8 */);

    let tuple: (i8, i16) = (1, 2);
    assert_eq!(measure(&tuple), 1 /* i8 */ + 2 /* i16 */ + 1 /* padding */);

    let tuple: (i8, i16, i32) = (1, 2, 3);
    assert_eq!(
        measure(&tuple),
        1 /* i8 */ + 2 /* i16 */ + 4 /* i32 */ + 1 /* padding */
    );

    let tuple: (i32, i32) = (1, 2);
    assert_eq!(measure(&tuple), 4 /* i32 */ + 4 /* i32 */);

    let tuple: (&str, &str) = ("", "");
    assert_eq!(
        measure(&tuple),
        2 * POINTER_BYTE_SIZE + 1 * 0 /* str */ + 2 * POINTER_BYTE_SIZE + 1 * 0 /* str */
    );

    let tuple: (&str, &str) = ("a", "bc");
    assert_eq!(
        measure(&tuple),
        2 * POINTER_BYTE_SIZE + 1 * 1 /* str */ + 2 * POINTER_BYTE_SIZE + 1 * 2 /* str */
    );

    let tuple: (&str, (i64, i64, i8)) = ("abc", (1, 2, 3));
    assert_eq!(
        measure(&tuple),
        2 * POINTER_BYTE_SIZE + 1 * 3 /* str */ + 8 /* i64 */ + 8 /* i64 */ + 1 /* i8 */ + 7 /* padding */
    );
}

#[test]
fn test_wide_tuple() {
    let tuple: (u8, u8, u8, u8, u8, u8, u8, u8, u8, u8, u8, u8) = (0, 1, 2, 3, 4, 5, 6, 7, 8, 9, 10, 11);
    assert_eq!(measure(&tuple), 12);
    let tuple: (u8, Box<u32>) = (1, Box::new(2));
    assert_eq!(measure(&tuple), 2 * POINTER_BYTE_SIZE + 4);
}

#[test]
fn test_box() {
    let b: Box<i8> = Box::new(1);
    assert_eq!(measure(&b), POINTER_BYTE_SIZE + 1);

    let b: Box<i32> = Box::new(1);
    assert_eq!(measure(&b), POINTER_BYTE_SIZE + 4);

    let b: Box<&str> = Box::new("abc");
    assert_eq!(measure(&b), POINTER_BYTE_SIZE + 2 * POINTER_BYTE_SIZE + 1 * 3);

    let b: Box<(i8, i16)> = Box::new((1, 2));
    assert_eq!(
        measure(&b),
        POINTER_BYTE_SIZE + 1 /* i8 */ + 2 /* i16 */ + 1 /* padding */
    );
}

#[test]
fn test_boxed_slice() {
    let b: Box<[u8]> = vec![].into_boxed_slice();
    assert_eq!(measure(&b), 2 * POINTER_BYTE_SIZE);

    let b: Box<[u8]> = vec![1, 2, 3].into_boxed_slice();
    assert_eq!(measure(&b), 2 * POINTER_BYTE_SIZE + 1 * 3);
}

#[test]
fn test_option() {
    let option: Option<i8> = None;
    assert_eq!(measure(&option), 1 /* variant */ + 1 /* padding */);

    let option: Option<i8> = Some(1);
    assert_eq!(measure(&option), 1 /* variant */ + 1 /* padding */ + 1 /* i8 */);

    let option: Option<i32> = None;
    assert_eq!(measure(&option), 1 /* variant */ + 7 /* padding */);

    let option: Option<i32> = Some(1);
    assert_eq!(measure(&option), 1 /* variant */ + 7 /* padding */ + 4 /* i32 */);

    let option: Option<&str> = None;
    assert_eq!(measure(&option), 1 /* variant */ + 15 /* padding */);

    let option: Option<&str> = Some("abc");
    assert_eq!(
        measure(&option),
        1 /* variant */ + 15 /* padding */ + 2 * POINTER_BYTE_SIZE + 1 * 3 /* &str */
    );
}

#[test]
fn test_result() {
    let result: Result<i8, i16> = Err(2);
    assert_eq!(measure(&result), 1 /* variant */ + 3 /* padding */ + 2 /* i16 */);

    let result: Result<i8, i16> = Ok(1);
    assert_eq!(measure(&result), 1 /* variant */ + 3 /* padding */ + 1 /* i8 */);

    let result: Result<i32, ()> = Ok(1);
    assert_eq!(measure(&result), 1 /* variant */ + 7 /* padding */ + 4 /* i32 */);
}

#[test]
fn test_vec() {
    let empty_vec_size = std::mem::size_of_val(&Vec::<i8>::new());

    let mut vec: Vec<i8> = Vec::new();
    assert_eq!(measure(&vec), empty_vec_size + 1 * 0);

    vec.push(1);
    assert_eq!(measure(&vec), empty_vec_size + 1 * 1);

    vec.push(2);
    assert_eq!(measure(&vec), empty_vec_size + 1 * 2);

    vec.push(3);
    assert_eq!(measure(&vec), empty_vec_size + 1 * 3);
}

#[test]
fn test_vec_not_unique() {
    let empty_vec_size = std::mem::size_of_val(&Vec::<&i32>::new());

    let mut vec: Vec<&i32> = Vec::new();
    assert_eq!(measure(&vec), empty_vec_size);

    let one: i32 = 1;
    vec.push(&one);
    assert_eq!(measure(&vec), empty_vec_size + POINTER_BYTE_SIZE + 4);

    let two: i32 = 2;
    vec.push(&two);
    assert_eq!(
        measure(&vec),
        empty_vec_size + POINTER_BYTE_SIZE + 4 + POINTER_BYTE_SIZE + 4
    );

    // Push a reference to an item that already exists!
    vec.push(&one);
    assert_eq!(
        measure(&vec),
        empty_vec_size + POINTER_BYTE_SIZE + 4 + POINTER_BYTE_SIZE + 4 + POINTER_BYTE_SIZE + 0
    );
}

#[test]
fn test_vec_of_vecs() {
    let header = std::mem::size_of::<Vec<u16>>();
    let outer: Vec<Vec<u16>> = vec![vec![1, 2], vec![], vec![3]];
    assert_eq!(measure(&outer), header + (header + 4) + header + (header + 2));
}

#[test]
fn memory_usage_test_arc() {
    let empty_arc_size = std::mem::size_of_val(&Arc::new(()));

    let arc: Arc<i32> = Arc::new(1);
    assert_eq!(measure(&arc), empty_arc_size + 4);

    let arc: Arc<Option<i32>> = Arc::new(Some(1));
    assert_eq!(measure(&arc), empty_arc_size + POINTER_BYTE_SIZE + 4);
}

#[test]
fn sync_test_arc() {
    let empty_arc_size = std::mem::size_of_val(&Arc::new(()));

    let arc: Arc<i32> = Arc::new(1);
    assert_eq!(measure(&arc), empty_arc_size + 4);

    let arc: Arc<Option<i32>> = Arc::new(Some(1));
    assert_eq!(measure(&arc), empty_arc_size + POINTER_BYTE_SIZE + 4);
}

#[test]
fn test_shared_owners_each_count_in_full() {
    let shared: Arc<u64> = Arc::new(5);
    let owners: Vec<Arc<u64>> = vec![shared.clone(), shared.clone()];
    let header = std::mem::size_of::<Vec<Arc<u64>>>();
    assert_eq!(measure(&owners), header + 2 * (POINTER_BYTE_SIZE + 8));
}

#[test]
fn test_phantom_and_unit() {
    assert_eq!(measure(&PhantomData::<u64>), 0);
    assert_eq!(measure(&()), 0);
}

#[test]
fn test_measuring_leaves_value_unchanged() {
    let one: i32 = 1;
    let value: (Vec<&i32>, Option<String>, [u8; 3]) =
        (vec![&one, &one], Some("abc".to_string()), [1, 2, 3]);
    let before = format!("{:?}", value);
    let first = measure(&value);
    let after = format!("{:?}", value);
    assert_eq!(before, after);
    assert_eq!(measure(&value), first);
}

fn address_of<T: ?Sized>(value: &T) -> usize {
    parse_address(&format!("{:p}", value)).unwrap()
}

#[test]
fn memory_usage_test_pointer() {
    let mut tracker: BTreeSet<usize> = BTreeSet::new();

    let x = 1i8;
    let ptr = address_of(&x);
    assert_eq!(size_of_address(ptr, &mut tracker), POINTER_BYTE_SIZE);

    let ptr = address_of(&x);
    assert_eq!(size_of_address(ptr, &mut tracker), 0);
}

#[test]
fn memory_usage_test_mutable_pointer() {
    let mut tracker: BTreeSet<usize> = BTreeSet::new();

    let mut x = 1i8;
    let ptr = address_of(&mut x);
    assert_eq!(size_of_address(ptr, &mut tracker), POINTER_BYTE_SIZE);

    let ptr = address_of(&mut x);
    assert_eq!(size_of_address(ptr, &mut tracker), 0);
}

#[test]
fn memory_usage_test_nonnull_pointer() {
    let mut x = 1i8;
    let ptr = NonNull::from(&mut x);
    let address = parse_address(&format!("{:p}", ptr)).unwrap();
    assert_eq!(size_of_address(address, &mut BTreeSet::new()), POINTER_BYTE_SIZE);
}

#[test]
fn ptr_test_pointer() {
    let mut tracker: BTreeSet<usize> = BTreeSet::new();

    let x = 1i8;
    let ptr = address_of(&x);
    assert_eq!(size_of_address(ptr, &mut tracker), POINTER_BYTE_SIZE);

    let ptr = address_of(&x);
    assert_eq!(size_of_address(ptr, &mut tracker), 0);
}

#[test]
fn ptr_test_mutable_pointer() {
    let mut tracker: BTreeSet<usize> = BTreeSet::new();

    let mut x = 1i8;
    let ptr = address_of(&mut x);
    assert_eq!(size_of_address(ptr, &mut tracker), POINTER_BYTE_SIZE);

    let ptr = address_of(&mut x);
    assert_eq!(size_of_address(ptr, &mut tracker), 0);
}

#[test]
fn ptr_test_nonnull_pointer() {
    let mut x = 1i8;
    let ptr = NonNull::from(&mut x);
    let address = parse_address(&format!("{:p}", ptr)).unwrap();
    assert_eq!(size_of_address(address, &mut BTreeSet::new()), POINTER_BYTE_SIZE);
}

#[test]
fn test_unsafecell() {
    let cell = UnsafeCell::<i8>::new(1);
    assert_eq!(measure(&cell), POINTER_BYTE_SIZE);
}

#[test]
fn test_unsafecell_charged_once() {
    let cell = UnsafeCell::<[u8; 64]>::new([0; 64]);
    let mut tracker: BTreeSet<usize> = BTreeSet::new();
    assert_eq!(MemoryUsage::size_of_val(&cell, &mut tracker), POINTER_BYTE_SIZE);
    assert_eq!(MemoryUsage::size_of_val(&cell, &mut tracker), 0);
    assert!(tracker.contains(&address_of(&cell)));
}

#[test]
fn test_hashmap() {
    let mut hashmap: HashMap<i8, i32> = HashMap::new();
    let empty_hashmap_size = std::mem::size_of_val(&hashmap);
    assert_eq!(measure(&hashmap), empty_hashmap_size + 1 * 0 + 4 * 0);

    hashmap.insert(1, 1);
    assert_eq!(measure(&hashmap), empty_hashmap_size + 1 * 1 + 4 * 1);

    hashmap.insert(2, 2);
    assert_eq!(measure(&hashmap), empty_hashmap_size + 1 * 2 + 4 * 2);
}

#[test]
fn test_hashmap_not_unique() {
    let mut hashmap: HashMap<i8, &i32> = HashMap::new();
    let empty_hashmap_size = std::mem::size_of_val(&hashmap);
    assert_eq!(
        measure(&hashmap),
        empty_hashmap_size + 1 * 0 + (POINTER_BYTE_SIZE + 4) * 0
    );

    let one: i32 = 1;
    hashmap.insert(1, &one);
    assert_eq!(
        measure(&hashmap),
        empty_hashmap_size + 1 * 1 + (POINTER_BYTE_SIZE + 4) * 1
    );

    let two: i32 = 2;
    hashmap.insert(2, &two);
    assert_eq!(
        measure(&hashmap),
        empty_hashmap_size + 1 * 2 + (POINTER_BYTE_SIZE + 4) * 2
    );

    // Push a reference to an item that already exists!
    hashmap.insert(3, &one);
    assert_eq!(
        measure(&hashmap),
        empty_hashmap_size + 1 * 3 + (POINTER_BYTE_SIZE + 4) * 2 + POINTER_BYTE_SIZE + 0
    );
}

#[test]
fn test_hashmap_of_strings() {
    let mut hashmap: HashMap<u32, String> = HashMap::new();
    hashmap.insert(7, String::with_capacity(10));
    let header = std::mem::size_of_val(&hashmap);
    let capacity = hashmap[&7].capacity();
    assert_eq!(measure(&hashmap), header + 4 + std::mem::size_of::<String>() + capacity);
}

#[test]
fn test_address_tracked_in_hash_set() {
    let mut tracker: HashSet<usize> = HashSet::new();
    assert_eq!(size_of_address(16, &mut tracker), POINTER_BYTE_SIZE);
    assert_eq!(size_of_address(32, &mut tracker), POINTER_BYTE_SIZE);
    assert_eq!(size_of_address(16, &mut tracker), 0);
    assert!(tracker.contains(&16) && tracker.contains(&32));
}

#[test]
fn test_referent_counted_once_per_address() {
    let value: u32 = 9;
    let mut tracker: BTreeSet<usize> = BTreeSet::new();
    assert_eq!(size_of_referent(&value, Some(64), &mut tracker), 4);
    assert_eq!(size_of_referent(&value, Some(64), &mut tracker), 0);
    assert_eq!(size_of_referent(&value, Some(72), &mut tracker), 4);
    assert_eq!(size_of_referent(&value, None, &mut tracker), 4);
    assert_eq!(size_of_referent(&value, None, &mut tracker), 4);
}

#[test]
fn test_parse_address() {
    assert_eq!(parse_address("0x1f"), Some(31));
    assert_eq!(parse_address("0x7FfE"), Some(0x7ffe));
    assert_eq!(parse_address("0x0"), Some(0));
    assert_eq!(parse_address("0x"), None);
    assert_eq!(parse_address("1f"), None);
    assert_eq!(parse_address("0y1f"), None);
    assert_eq!(parse_address("0x1g"), None);
    assert_eq!(parse_address(""), None);
    assert_eq!(parse_address(&format!("{:#x}", usize::MAX)), Some(usize::MAX));
    assert_eq!(parse_address(&format!("{:#x}0", usize::MAX)), None);
}

#[test]
fn test_sizes_of_parts() {
    let mut tracker: BTreeSet<usize> = BTreeSet::new();
    let b: Box<u32> = Box::new(3);
    assert_eq!(size_of_extra(&b, &mut tracker), 4);
    assert_eq!(size_of_owner(POINTER_BYTE_SIZE, &7u64, &mut tracker), POINTER_BYTE_SIZE + 8);
    let items: Vec<Box<u16>> = vec![Box::new(1), Box::new(2)];
    assert_eq!(size_of_items_extra(items.as_slice(), &mut tracker), 4);
    assert_eq!(size_of_items_full(items.as_slice(), &mut tracker), 2 * (POINTER_BYTE_SIZE + 2));
}

#[test]
fn test_decimal_text() {
    assert_eq!(decimal_text(0), "0");
    assert_eq!(decimal_text(7), "7");
    assert_eq!(decimal_text(10), "10");
    assert_eq!(decimal_text(1234), "1234");
    assert_eq!(decimal_text(usize::MAX), usize::MAX.to_string());
}

#[test]
fn test_pathbuf() {
    let mut path = PathBuf::new();
    let empty_path_size = std::mem::size_of_val(&path);

    path.push("foo");
    assert_eq!(measure(&path), empty_path_size + 8);

    path.push("foobar");
    assert_eq!(measure(&path), empty_path_size + 16);
}

#[test]
fn test_slice_reference_counted_once_per_tracker() {
    let data: [u32; 4] = [1, 2, 3, 4];
    let slice: &[u32] = &data;
    let mut tracker: BTreeSet<usize> = BTreeSet::new();
    assert_eq!(MemoryUsage::size_of_val(&slice, &mut tracker), 2 * POINTER_BYTE_SIZE + 16);
    assert_eq!(MemoryUsage::size_of_val(&slice, &mut tracker), 2 * POINTER_BYTE_SIZE);
    let again: &[u32] = &data;
    assert_eq!(MemoryUsage::size_of_val(&again, &mut tracker), 2 * POINTER_BYTE_SIZE);
}

#[test]
fn test_str_reference_counted_once_per_tracker() {
    let text: String = "shared text".to_string();
    let first: &str = text.as_str();
    let second: &str = text.as_str();
    let pair: (&str, &str) = (first, second);
    assert_eq!(measure(&pair), 4 * POINTER_BYTE_SIZE + 11);
}

#[test]
fn test_parse_fat_pointer_address() {
    assert_eq!(parse_address("Pointer { addr: 0x1f, metadata: 3 }"), Some(31));
    assert_eq!(parse_address("Pointer { addr: 0x7ffe10, metadata: 0 }"), Some(0x7ffe10));
    assert_eq!(parse_address("Pointer { addr: 0x, metadata: 3 }"), None);
    assert_eq!(parse_address("Pointer { addr: 0x1f }"), None);
    assert_eq!(parse_address("Pointer { addr: 1f, metadata: 3 }"), None);
    assert_eq!(parse_address("Pointer { adr: 0x1f, metadata: 3 }"), None);
    let data: [u8; 3] = [1, 2, 3];
    let slice: &[u8] = &data;
    let text = format!("{:p}", slice);
    assert_eq!(parse_address(&text), Some(parse_address(&format!("{:p}", &data)).unwrap()));
}

#[test]
fn test_add_saturating() {
    assert_eq!(add_saturating(2, 3), 5);
    assert_eq!(add_saturating(usize::MAX, 1), usize::MAX);
    assert_eq!(add_saturating(usize::MAX - 1, 1), usize::MAX);
    assert_eq!(add_saturating(usize::MAX / 2 + 1, usize::MAX / 2 + 1), usize::MAX);
}

#[test]
fn test_tuple_of_strings() {
    let triple: (String, String, String) =
        (String::with_capacity(5), "ab".to_string(), String::new());
    let expected = std::mem::size_of::<(String, String, String)>()
        + triple.0.capacity()
        + triple.1.capacity()
        + triple.2.capacity();
    assert_eq!(measure(&triple), expected);
}
