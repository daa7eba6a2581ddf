use std::task::Waker;

use cyw43_ioctl::{IoctlError, IoctlState, IoctlType, PendingIoctl, StatusCode};

fn waker() -> &'static Waker {
    Waker::noop()
}

/// Issues a request and lets the bus task pick it up.
fn issue_and_pick_up(
    s: &mut IoctlState,
    kind: IoctlType,
    cmd: u32,
    iface: u32,
    buf: Vec<u8>,
) -> PendingIoctl {
    s.do_ioctl(kind, cmd, iface, buf);
    s.wait_pending(waker()).expect("a pending request")
}

#[test]
fn scenario_short_response() {
    let mut s = IoctlState::new();
    let p = issue_and_pick_up(&mut s, IoctlType::Put, 1, 0, vec![0, 0, 0, 0]);
    assert_eq!(p.kind, IoctlType::Put);
    assert_eq!(p.cmd, 1);
    assert_eq!(p.iface, 0);
    assert_eq!(p.buf, vec![0, 0, 0, 0]);
    assert!(s.ioctl_done(&[9, 9], Ok(())));
    let (result, buf) = s.wait_complete(waker()).expect("completed");
    assert_eq!(result, Ok(2));
    assert_eq!(buf, vec![9, 9, 0, 0]);
}

#[test]
fn scenario_long_response_truncated() {
    let mut s = IoctlState::new();
    let p = issue_and_pick_up(&mut s, IoctlType::Get, 7, 1, vec![0, 0]);
    assert_eq!(p.kind, IoctlType::Get);
    assert_eq!(p.cmd, 7);
    assert_eq!(p.iface, 1);
    assert!(s.ioctl_done(&[1, 2, 3, 4], Ok(())));
    let (result, buf) = s.wait_complete(waker()).expect("completed");
    assert_eq!(result, Ok(2));
    assert_eq!(buf, vec![1, 2]);
}

#[test]
fn scenario_failure_status() {
    let mut s = IoctlState::new();
    issue_and_pick_up(&mut s, IoctlType::Get, 3, 0, vec![4, 5, 6]);
    assert!(s.ioctl_done(&[1, 1, 1], Err(IoctlError::from(5))));
    let (result, buf) = s.wait_complete(waker()).expect("completed");
    assert_eq!(result, Err(IoctlError::Status(StatusCode::new(5).unwrap())));
    assert_eq!(i32::from(result.unwrap_err()), 5);
    assert_eq!(buf, vec![4, 5, 6]);
}

#[test]
fn scenario_stray_completion_when_idle() {
    let mut s = IoctlState::new();
    assert!(!s.ioctl_done(&[1, 2, 3], Ok(())));
    let (result, buf) = s.wait_complete(waker()).expect("idle cell is done");
    assert_eq!(result, Ok(0));
    assert!(buf.is_empty());
}

#[test]
fn stray_completion_while_pending_is_ignored() {
    let mut s = IoctlState::new();
    s.do_ioctl(IoctlType::Put, 2, 0, vec![7, 7]);
    assert!(!s.ioctl_done(&[1, 2], Ok(())));
    assert!(s.wait_complete(waker()).is_none());
    let p = s.wait_pending(waker()).expect("still pending");
    assert_eq!(p.buf, vec![7, 7]);
    s.ioctl_done(&[1], Ok(()));
    let (result, buf) = s.wait_complete(waker()).expect("completed");
    assert_eq!(result, Ok(1));
    assert_eq!(buf, vec![1, 7]);
}

#[test]
fn duplicate_completion_is_ignored() {
    let mut s = IoctlState::new();
    issue_and_pick_up(&mut s, IoctlType::Get, 1, 0, vec![0, 0, 0]);
    assert!(s.ioctl_done(&[5], Ok(())));
    assert!(!s.ioctl_done(&[8, 8, 8], Err(IoctlError::from(-3))));
    let (result, buf) = s.wait_complete(waker()).expect("completed");
    assert_eq!(result, Ok(1));
    assert_eq!(buf, vec![5, 0, 0]);
}

#[test]
fn equal_lengths_copy_everything() {
    let mut s = IoctlState::new();
    issue_and_pick_up(&mut s, IoctlType::Get, 1, 0, vec![0, 0, 0]);
    s.ioctl_done(&[3, 2, 1], Ok(()));
    let (result, buf) = s.wait_complete(waker()).expect("completed");
    assert_eq!(result, Ok(3));
    assert_eq!(buf, vec![3, 2, 1]);
}

#[test]
fn empty_response_and_empty_buffer() {
    let mut s = IoctlState::new();
    issue_and_pick_up(&mut s, IoctlType::Get, 1, 0, vec![6, 6]);
    s.ioctl_done(&[], Ok(()));
    let (result, buf) = s.wait_complete(waker()).expect("completed");
    assert_eq!(result, Ok(0));
    assert_eq!(buf, vec![6, 6]);

    issue_and_pick_up(&mut s, IoctlType::Get, 1, 0, Vec::new());
    s.ioctl_done(&[1, 2], Ok(()));
    let (result, buf) = s.wait_complete(waker()).expect("completed");
    assert_eq!(result, Ok(0));
    assert!(buf.is_empty());
}

#[test]
fn nothing_to_pick_up_when_idle() {
    let mut s = IoctlState::new();
    assert!(s.wait_pending(waker()).is_none());
}

#[test]
fn request_is_picked_up_once() {
    let mut s = IoctlState::new();
    issue_and_pick_up(&mut s, IoctlType::Put, 9, 2, vec![1]);
    assert!(s.wait_pending(waker()).is_none());
    assert!(s.wait_complete(waker()).is_none());
}

#[test]
fn cancel_pending_request() {
    let mut s = IoctlState::new();
    s.do_ioctl(IoctlType::Put, 4, 0, vec![1, 2]);
    s.cancel_ioctl();
    assert!(s.wait_pending(waker()).is_none());
    let (result, buf) = s.wait_complete(waker()).expect("cancelled");
    assert_eq!(result, Ok(0));
    assert_eq!(buf, vec![1, 2]);
}

#[test]
fn cancel_sent_request() {
    let mut s = IoctlState::new();
    issue_and_pick_up(&mut s, IoctlType::Get, 4, 0, vec![1, 2]);
    s.cancel_ioctl();
    assert!(s.wait_pending(waker()).is_none());
    assert!(!s.ioctl_done(&[9, 9], Ok(())));
    let (result, buf) = s.wait_complete(waker()).expect("cancelled");
    assert_eq!(result, Ok(0));
    assert_eq!(buf, vec![1, 2]);
}

#[test]
fn cancel_done_request() {
    let mut s = IoctlState::new();
    issue_and_pick_up(&mut s, IoctlType::Get, 4, 0, vec![0]);
    s.ioctl_done(&[3], Err(IoctlError::from(7)));
    s.cancel_ioctl();
    assert!(s.wait_pending(waker()).is_none());
    let (result, buf) = s.wait_complete(waker()).expect("cancelled");
    assert_eq!(result, Ok(0));
    assert_eq!(buf, vec![0]);
}

#[test]
fn result_stays_after_buffer_is_returned() {
    let mut s = IoctlState::new();
    issue_and_pick_up(&mut s, IoctlType::Get, 1, 0, vec![0, 0]);
    s.ioctl_done(&[4], Ok(()));
    let (first, buf) = s.wait_complete(waker()).expect("completed");
    assert_eq!(buf, vec![4, 0]);
    let (again, rest) = s.wait_complete(waker()).expect("still done");
    assert_eq!(first, again);
    assert!(rest.is_empty());
}

#[test]
fn new_request_replaces_previous_one() {
    let mut s = IoctlState::new();
    s.do_ioctl(IoctlType::Get, 1, 0, vec![1]);
    s.do_ioctl(IoctlType::Put, 2, 3, vec![2, 2]);
    let p = s.wait_pending(waker()).expect("pending");
    assert_eq!(p.cmd, 2);
    assert_eq!(p.iface, 3);
    assert_eq!(p.kind, IoctlType::Put);
    assert_eq!(p.buf, vec![2, 2]);
}

#[test]
fn status_round_trip() {
    for v in [1, -1, 5, -42, i32::MIN, i32::MAX] {
        let e = IoctlError::from(v);
        assert_eq!(e, IoctlError::Status(StatusCode::new(v).unwrap()));
        assert_eq!(i32::from(e), v);
        assert_eq!(IoctlError::from(i32::from(e)), e);
    }
}

#[test]
fn zero_status_falls_back_to_max() {
    let e = IoctlError::from(0);
    assert_eq!(e, IoctlError::Status(StatusCode::new(i32::MAX).unwrap()));
    assert_eq!(i32::from(e), i32::MAX);
    assert_eq!(IoctlError::from(i32::from(e)), e);
}

#[test]
fn zero_is_no_status_code() {
    assert!(StatusCode::new(0).is_none());
    assert_eq!(StatusCode::new(-7).map(|c| c.get()), Some(-7));
}

#[test]
fn direction_codes() {
    assert_eq!(IoctlType::Get.value(), 0);
    assert_eq!(IoctlType::Put.value(), 2);
}
