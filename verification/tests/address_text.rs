use portmap::IpAddress;

fn v6(groups: [u16; 8]) -> String {
    IpAddress::V6(groups).to_text()
}

#[test]
fn ipv4_is_dotted_decimal() {
    assert_eq!(IpAddress::V4([10, 0, 0, 5]).to_text(), "10.0.0.5");
    assert_eq!(IpAddress::V4([0, 0, 0, 0]).to_text(), "0.0.0.0");
    assert_eq!(IpAddress::V4([255, 255, 255, 255]).to_text(), "255.255.255.255");
    assert_eq!(IpAddress::V4([192, 168, 1, 100]).to_text(), "192.168.1.100");
}

#[test]
fn ipv6_all_zero_is_two_colons() {
    assert_eq!(v6([0, 0, 0, 0, 0, 0, 0, 0]), "::");
}

#[test]
fn ipv6_loopback() {
    assert_eq!(v6([0, 0, 0, 0, 0, 0, 0, 1]), "::1");
}

#[test]
fn ipv6_run_in_the_middle() {
    assert_eq!(v6([0x2001, 0xdb8, 0, 0, 0, 0, 0, 1]), "2001:db8::1");
}

#[test]
fn ipv6_run_at_the_end() {
    assert_eq!(v6([0xfe80, 0, 0, 0, 0, 0, 0, 0]), "fe80::");
    assert_eq!(v6([1, 2, 3, 4, 5, 6, 0, 0]), "1:2:3:4:5:6::");
}

#[test]
fn ipv6_without_zero_groups() {
    assert_eq!(v6([1, 2, 3, 4, 5, 6, 7, 8]), "1:2:3:4:5:6:7:8");
    assert_eq!(
        v6([0xffff, 0xabcd, 0x1234, 0x0f0f, 0x10, 0x100, 0x1000, 0xa]),
        "ffff:abcd:1234:f0f:10:100:1000:a"
    );
}

#[test]
fn ipv6_single_zero_group_is_written_out() {
    assert_eq!(v6([1, 0, 2, 3, 4, 5, 6, 7]), "1:0:2:3:4:5:6:7");
    assert_eq!(v6([0, 1, 2, 3, 4, 5, 6, 7]), "0:1:2:3:4:5:6:7");
    assert_eq!(v6([1, 2, 3, 4, 5, 6, 7, 0]), "1:2:3:4:5:6:7:0");
}

#[test]
fn ipv6_longest_run_is_shortened() {
    assert_eq!(v6([1, 0, 0, 2, 0, 0, 0, 3]), "1:0:0:2::3");
    assert_eq!(v6([1, 0, 0, 0, 2, 0, 0, 3]), "1::2:0:0:3");
}

#[test]
fn ipv6_first_of_equal_runs_is_shortened() {
    assert_eq!(v6([1, 0, 0, 2, 3, 0, 0, 4]), "1::2:3:0:0:4");
    assert_eq!(v6([0, 0, 1, 2, 3, 4, 0, 0]), "::1:2:3:4:0:0");
}

#[test]
fn ipv6_mapped_ipv4_is_dotted() {
    assert_eq!(v6([0, 0, 0, 0, 0, 0xffff, 0xc000, 0x0201]), "::ffff:192.0.2.1");
    assert_eq!(v6([0, 0, 0, 0, 0, 0xffff, 0, 0]), "::ffff:0.0.0.0");
    assert_eq!(v6([0, 0, 0, 0, 0, 0xffff, 0xffff, 0xffff]), "::ffff:255.255.255.255");
}

#[test]
fn ipv6_almost_mapped_is_hexadecimal() {
    assert_eq!(v6([0, 0, 0, 0, 0, 0xfffe, 0xc000, 0x0201]), "::fffe:c000:201");
    assert_eq!(v6([0, 0, 0, 0, 0, 0, 0xc000, 0x0201]), "::c000:201");
    assert_eq!(v6([1, 0, 0, 0, 0, 0xffff, 0xc000, 0x0201]), "1::ffff:c000:201");
}
