use ngx::base::{Addr, Array};

fn header() -> Addr {
    Addr::new(0x6000).unwrap()
}

#[test]
fn a_view_shows_what_the_header_counts() {
    let view = Array::new(header(), vec![10u32, 20, 30]);
    assert_eq!(view.as_ptr(), header());
    assert_eq!(view.len(), 3);
    assert_eq!(&view[..], &[10, 20, 30]);
    assert_eq!(view[1], 20);
    assert_eq!(view.get(0), Some(&10));
    assert_eq!(view.get(2), Some(&30));
    assert_eq!(view.get(3), None);
    assert_eq!(view.get(usize::MAX), None);

    let empty: Array<u32> = Array::new(header(), Vec::new());
    assert_eq!(empty.len(), 0);
    assert_eq!(empty.get(0), None);
    assert!(empty.is_empty());
}

#[test]
fn push_appends_when_nginx_gave_a_slot() {
    let mut view = Array::new(header(), vec![1u8]);
    assert_eq!(view.push(2, 0x6100), Ok(()));
    assert_eq!(view.push(3, 0x6101), Ok(()));
    assert_eq!(&view[..], &[1, 2, 3]);
    assert_eq!(view.as_ptr(), header());
}

#[test]
fn push_fails_when_nginx_gave_none() {
    let mut view = Array::new(header(), vec![1u8]);
    assert_eq!(view.push(2, 0), Err(()));
    assert_eq!(&view[..], &[1]);
    assert_eq!(view.len(), 1);
}

#[test]
fn a_slice_taken_before_a_push_is_out_of_date_after_it() {
    // nginx moves the storage when it grows: what was read before describes
    // the old place and the old count
    let mut view = Array::new(header(), vec![1u32, 2]);
    let before: Vec<u32> = view.to_vec();
    let count_before = view.len();
    assert_eq!(view.push(3, 0x9000), Ok(()));
    assert_ne!(&view[..], &before[..]);
    assert_eq!(view.len(), count_before + 1);
    assert_eq!(&view[..count_before], &before[..]);
    assert_eq!(view[count_before], 3);
}

#[test]
fn elements_can_be_replaced_in_place() {
    let mut view = Array::new(header(), vec![1u32, 2, 3]);
    view[1] = 20;
    for item in view.iter_mut() {
        *item += 1;
    }
    assert_eq!(&view[..], &[2, 21, 4]);
    assert_eq!(view.len(), 3);
}

#[test]
fn skipping_the_first_leaves_the_arguments() {
    let args = Array::new(header(), vec![b"name".to_vec(), b"one".to_vec(), b"two".to_vec()]);
    let rest = args.skip_first().unwrap();
    assert_eq!(rest.as_ptr(), header());
    assert_eq!(&rest[..], &[b"one".to_vec(), b"two".to_vec()]);

    let only = Array::new(header(), vec![b"name".to_vec()]);
    assert_eq!(only.skip_first().unwrap().len(), 0);

    let none: Array<Vec<u8>> = Array::new(header(), Vec::new());
    assert!(none.skip_first().is_none());
}
