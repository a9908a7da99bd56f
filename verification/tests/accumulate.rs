use accumulate::accumulate_buffer;
use accumulate::accumulate_fixed;
use accumulate::accumulate_view;
use accumulate::try_accumulate_buffer;
use accumulate::try_accumulate_fixed;
use accumulate::try_accumulate_view;
use accumulate::IndexOutOfRange;

#[test]
fn valid_indices_update_destination_only() {
    let buf: Vec<i32> = vec![3, 4, 5];
    let out: Vec<i32> = accumulate_buffer(buf, 2, 0);
    assert_eq!(out, vec![3, 4, 8]);
}

#[test]
fn self_addition_doubles_the_slot() {
    let buf: Vec<i32> = vec![7, 9];
    let out: Vec<i32> = accumulate_buffer(buf, 1, 1);
    assert_eq!(out, vec![7, 18]);
}

#[test]
fn self_addition_wraps_at_signed_min() {
    let arr: [i32; 1] = [i32::MIN];
    let out: [i32; 1] = accumulate_fixed(arr, 0, 0);
    assert_eq!(out, [0]);
}

#[test]
fn double_application_is_not_idempotent() {
    let mut view: [i32; 2] = [10, 3];
    accumulate_view(&mut view, 0, 1);
    let once: i32 = view[0];
    accumulate_view(&mut view, 0, 1);
    let twice: i32 = view[0];
    assert_eq!(once, 13);
    assert_eq!(twice, 16);
    assert_ne!(twice, once);
}

#[test]
fn addition_wraps_at_signed_max() {
    let buf: Vec<i32> = vec![2147483647, 1];
    let out: Vec<i32> = accumulate_buffer(buf, 0, 1);
    assert_eq!(out, vec![-2147483648, 1]);
}

#[test]
fn all_three_shapes_agree() {
    let data: [i32; 4] = [2, -5, 7, 0];

    let from_fixed: [i32; 4] = accumulate_fixed(data, 1, 2);

    let mut view: [i32; 4] = data;
    accumulate_view(&mut view, 1, 2);

    let buf: Vec<i32> = data.to_vec();
    let from_buffer: Vec<i32> = accumulate_buffer(buf, 1, 2);

    assert_eq!(from_fixed, [2, 2, 7, 0]);
    assert_eq!(from_fixed.to_vec(), view.to_vec());
    assert_eq!(view.to_vec(), from_buffer);
}

#[test]
fn concrete_scenario_first_plus_last() {
    let buf: Vec<i32> = vec![1, 2, 3, 4, 5, 6, 7, 8, 9, 10];
    let out: Vec<i32> = accumulate_buffer(buf, 0, 9);
    assert_eq!(out, vec![11, 2, 3, 4, 5, 6, 7, 8, 9, 10]);
}

#[test]
fn concrete_scenario_pair() {
    let arr: [i32; 2] = [5, 5];
    let out: [i32; 2] = accumulate_fixed(arr, 1, 0);
    assert_eq!(out, [5, 10]);
}

#[test]
fn checked_view_accepts_valid_indices() {
    let mut view: [i32; 3] = [1, 2, 3];
    let res: Result<(), IndexOutOfRange> = try_accumulate_view(&mut view, 0, 2);
    assert_eq!(res, Ok(()));
    assert_eq!(view, [4, 2, 3]);
}

#[test]
fn checked_view_rejects_destination_out_of_range() {
    let mut view: [i32; 2] = [1, 2];
    let res: Result<(), IndexOutOfRange> = try_accumulate_view(&mut view, 2, 0);
    assert_eq!(res, Err(IndexOutOfRange { index: 2, len: 2 }));
    assert_eq!(view, [1, 2]);
}

#[test]
fn checked_view_rejects_source_out_of_range() {
    let mut view: [i32; 2] = [1, 2];
    let res: Result<(), IndexOutOfRange> = try_accumulate_view(&mut view, 0, 5);
    assert_eq!(res, Err(IndexOutOfRange { index: 5, len: 2 }));
    assert_eq!(view, [1, 2]);
}

#[test]
fn checked_view_reports_destination_first() {
    let mut view: [i32; 2] = [1, 2];
    let res: Result<(), IndexOutOfRange> = try_accumulate_view(&mut view, 9, 7);
    assert_eq!(res, Err(IndexOutOfRange { index: 9, len: 2 }));
    assert_eq!(view, [1, 2]);
}

#[test]
fn checked_fixed_accepts_and_rejects() {
    let mut arr: [i32; 2] = [5, 5];
    let ok: Result<(), IndexOutOfRange> = try_accumulate_fixed(&mut arr, 1, 0);
    assert_eq!(ok, Ok(()));
    assert_eq!(arr, [5, 10]);

    let err: Result<(), IndexOutOfRange> = try_accumulate_fixed(&mut arr, 1, 2);
    assert_eq!(err, Err(IndexOutOfRange { index: 2, len: 2 }));
    assert_eq!(arr, [5, 10]);
}

#[test]
fn checked_buffer_accepts_and_rejects() {
    let mut buf: Vec<i32> = vec![8, -8];
    let ok: Result<(), IndexOutOfRange> = try_accumulate_buffer(&mut buf, 0, 1);
    assert_eq!(ok, Ok(()));
    assert_eq!(buf, vec![0, -8]);

    let err: Result<(), IndexOutOfRange> = try_accumulate_buffer(&mut buf, 2, 0);
    assert_eq!(err, Err(IndexOutOfRange { index: 2, len: 2 }));
    assert_eq!(buf, vec![0, -8]);
}

#[test]
fn checked_buffer_rejects_on_empty() {
    let mut buf: Vec<i32> = Vec::new();
    let res: Result<(), IndexOutOfRange> = try_accumulate_buffer(&mut buf, 0, 0);
    assert_eq!(res, Err(IndexOutOfRange { index: 0, len: 0 }));
    assert_eq!(buf, Vec::<i32>::new());
}
