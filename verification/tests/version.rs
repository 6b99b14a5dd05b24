use dsh_desktop::version::{dsh_version, extract_version, find_semver, reported_version};

fn lines(list: &[&str]) -> Vec<String> {
    list.iter().map(|s| s.to_string()).collect()
}

fn found(line: &str) -> Option<String> {
    find_semver(line)
}

#[test]
fn versions_are_found_in_the_usual_lines() {
    assert_eq!(found("0.1.0"), Some("0.1.0".to_string()));
    assert_eq!(found("v0.1.0"), Some("0.1.0".to_string()));
    assert_eq!(found("dsh 0.1.0-rc.6"), Some("0.1.0-rc.6".to_string()));
    assert_eq!(found("npm http fetch dsh-0.1.0.tgz"), Some("0.1.0".to_string()));
}

#[test]
fn suffixes_belong_to_the_version() {
    assert_eq!(found("1.2.3-alpha.1-x y"), Some("1.2.3-alpha.1-x".to_string()));
    assert_eq!(found("1.2.3+build.5"), Some("1.2.3+build.5".to_string()));
    assert_eq!(found("1.2.3-rc.1+exp.sha-5114 end"), Some("1.2.3-rc.1+exp.sha-5114".to_string()));
    assert_eq!(found("1.2.3-"), Some("1.2.3-".to_string()));
    assert_eq!(found("1.2.3+"), Some("1.2.3".to_string()));
    assert_eq!(found("1.2.3+ x"), Some("1.2.3".to_string()));
}

#[test]
fn the_leftmost_version_is_taken() {
    assert_eq!(found("10.20 then 1.2.3 and 4.5.6"), Some("1.2.3".to_string()));
    assert_eq!(found("1.2.3.4"), Some("1.2.3".to_string()));
    assert_eq!(found("1..2.3.4"), Some("2.3.4".to_string()));
    assert_eq!(found("1.2.x 007.08.09"), Some("007.08.09".to_string()));
}

#[test]
fn lines_without_a_version_have_none() {
    assert_eq!(found(""), None);
    assert_eq!(found("1.2"), None);
    assert_eq!(found("1.2."), None);
    assert_eq!(found("a.b.c"), None);
    assert_eq!(found("版本 １.２.３"), None);
}

#[test]
fn text_around_a_version_may_be_of_any_kind() {
    assert_eq!(found("版本：0.1.0-rc.6（本地）"), Some("0.1.0-rc.6".to_string()));
}

#[test]
fn a_version_found_is_found_again() {
    for line in ["x 1.2.3-rc.1+b y", "1.2.3-", "dsh-0.1.0.tgz", "9.9.9+"] {
        let version = found(line).unwrap();
        assert_eq!(found(&version), Some(version));
    }
}

#[test]
fn a_prefix_without_digits_is_ignored() {
    assert_eq!(found("dsh version v1.2.3-x"), found("1.2.3-x"));
}

#[test]
fn the_last_line_with_a_version_counts() {
    let log = lines(&["dsh 0.0.9", "dsh 0.1.0-rc.6", "done", ""]);
    assert_eq!(extract_version(&log), Some("0.1.0-rc.6".to_string()));
    assert_eq!(extract_version(&lines(&["done", ""])), None);
    assert_eq!(extract_version(&[]), None);
}

#[test]
fn an_unreported_version_is_unknown() {
    assert_eq!(reported_version(&lines(&["$ git pull"])), "unknown");
    assert_eq!(reported_version(&lines(&["$ git pull", "v2.0.0"])), "2.0.0");
}

#[test]
fn printed_output_is_split_into_lines() {
    assert_eq!(dsh_version(b"npx 10.1.0\r\ndsh 0.1.0-rc.6\r\n"), "0.1.0-rc.6");
    assert_eq!(dsh_version(b"0.1.0-rc\n.6\n"), "0.1.0-rc");
    assert_eq!(dsh_version(b"\xff\xfe 1.2.3\xff"), "1.2.3");
    assert_eq!(dsh_version("版本 0.1.0\n完成".as_bytes()), "0.1.0");
    assert_eq!(dsh_version(b""), "unknown");
}
