use contain::failure::Failure;
use contain::idmap::{
    mapping_content, push_decimal, push_signed_decimal, single_mapping_writes, FileWrite,
};
use contain::linux::{Reply, Request};

fn decimal(n: u64) -> Vec<u8> {
    let mut out = Vec::new();
    push_decimal(&mut out, n);
    out
}

fn signed(n: i32) -> Vec<u8> {
    let mut out = Vec::new();
    push_signed_decimal(&mut out, n);
    out
}

#[test]
fn decimal_digits_of_small_numbers() {
    assert_eq!(decimal(0), b"0".to_vec());
    assert_eq!(decimal(7), b"7".to_vec());
    assert_eq!(decimal(9), b"9".to_vec());
    assert_eq!(decimal(10), b"10".to_vec());
    assert_eq!(decimal(99), b"99".to_vec());
    assert_eq!(decimal(100), b"100".to_vec());
    assert_eq!(decimal(1000), b"1000".to_vec());
    assert_eq!(decimal(65534), b"65534".to_vec());
}

#[test]
fn decimal_digits_of_large_numbers() {
    assert_eq!(decimal(4_294_967_295), b"4294967295".to_vec());
    assert_eq!(decimal(u64::MAX), b"18446744073709551615".to_vec());
    assert_eq!(decimal(1_000_000_007), b"1000000007".to_vec());
}

#[test]
fn decimal_agrees_with_std_formatting() {
    for n in (0u64..3000).chain([u32::MAX as u64, u64::MAX - 1, 10_000_000_000]) {
        assert_eq!(decimal(n), format!("{}", n).into_bytes());
    }
}

#[test]
fn decimal_is_appended() {
    let mut out = b"pid ".to_vec();
    push_decimal(&mut out, 42);
    assert_eq!(out, b"pid 42".to_vec());
}

#[test]
fn signed_decimal_has_a_minus_sign() {
    assert_eq!(signed(0), b"0".to_vec());
    assert_eq!(signed(31337), b"31337".to_vec());
    assert_eq!(signed(-1), b"-1".to_vec());
    assert_eq!(signed(-120), b"-120".to_vec());
    assert_eq!(signed(i32::MAX), b"2147483647".to_vec());
    assert_eq!(signed(i32::MIN), b"-2147483648".to_vec());
}

#[test]
fn mapping_line_maps_id_zero_with_range_one() {
    assert_eq!(mapping_content(1000), b"0 1000 1".to_vec());
    assert_eq!(mapping_content(0), b"0 0 1".to_vec());
    assert_eq!(mapping_content(u32::MAX), b"0 4294967295 1".to_vec());
}

#[test]
fn writes_name_the_files_of_the_process() {
    let uid = FileWrite::uid_map(4242, 1000);
    assert_eq!(uid.path, b"/proc/4242/uid_map".to_vec());
    assert_eq!(uid.content, b"0 1000 1".to_vec());
    let deny = FileWrite::setgroups(4242);
    assert_eq!(deny.path, b"/proc/4242/setgroups".to_vec());
    assert_eq!(deny.content, b"deny".to_vec());
    let gid = FileWrite::gid_map(4242, 100);
    assert_eq!(gid.path, b"/proc/4242/gid_map".to_vec());
    assert_eq!(gid.content, b"0 100 1".to_vec());
}

#[test]
fn deny_is_written_before_the_gid_mapping() {
    for &(pid, uid, gid) in &[(1i32, 0u32, 0u32), (4242, 1000, 100), (i32::MAX, u32::MAX, 7)] {
        let writes = single_mapping_writes(pid, uid, gid);
        assert_eq!(writes.len(), 3);
        let deny = writes.iter().position(|w| w.content == b"deny".to_vec()).unwrap();
        let gid_map = writes.iter().position(|w| w.path.ends_with(b"/gid_map")).unwrap();
        let uid_map = writes.iter().position(|w| w.path.ends_with(b"/uid_map")).unwrap();
        assert!(deny < gid_map);
        assert!(uid_map < deny);
        assert_eq!(writes[0], FileWrite::uid_map(pid, uid));
        assert_eq!(writes[1], FileWrite::setgroups(pid));
        assert_eq!(writes[2], FileWrite::gid_map(pid, gid));
    }
}

#[test]
fn single_mapping_of_one_process() {
    let writes = single_mapping_writes(77, 501, 20);
    assert_eq!(
        writes,
        vec![
            FileWrite { path: b"/proc/77/uid_map".to_vec(), content: b"0 501 1".to_vec() },
            FileWrite { path: b"/proc/77/setgroups".to_vec(), content: b"deny".to_vec() },
            FileWrite { path: b"/proc/77/gid_map".to_vec(), content: b"0 20 1".to_vec() },
        ]
    );
}

#[test]
fn write_becomes_a_request() {
    let request = FileWrite::gid_map(9, 5).into_request();
    assert_eq!(
        request,
        Request::WriteFile { path: b"/proc/9/gid_map".to_vec(), content: b"0 5 1".to_vec() }
    );
}

#[test]
fn complete_write_is_accepted() {
    let write = FileWrite::uid_map(4242, 1000);
    assert_eq!(write.check(Reply::Wrote { count: 8 }), Ok(()));
    assert_eq!(FileWrite::setgroups(1).check(Reply::Wrote { count: 4 }), Ok(()));
}

#[test]
fn partial_write_is_an_identity_write_failure() {
    let write = FileWrite::uid_map(4242, 1000);
    assert_eq!(write.check(Reply::Wrote { count: 7 }), Err(Failure::IdentityWriteFailure));
    assert_eq!(write.check(Reply::Wrote { count: 0 }), Err(Failure::IdentityWriteFailure));
    assert_eq!(write.check(Reply::Wrote { count: 9 }), Err(Failure::IdentityWriteFailure));
}

#[test]
fn rejected_write_is_an_identity_write_failure() {
    let write = FileWrite::gid_map(4242, 1000);
    assert_eq!(write.check(Reply::Failed), Err(Failure::IdentityWriteFailure));
    assert_eq!(write.check(Reply::Done), Err(Failure::IdentityWriteFailure));
    assert_eq!(write.check(Reply::Returned { value: 8 }), Err(Failure::IdentityWriteFailure));
}
