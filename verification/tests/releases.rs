use jorik_cli::releases::newest_release;
use jorik_cli::text::trim_start_char;

fn releases_tags(tags: &[&str]) -> Vec<String> {
    tags.iter().map(|t| t.to_string()).collect()
}

#[test]
fn newest_release_is_the_highest_version_above_the_running_one() {
    let tags = releases_tags(&["v0.1.0", "v0.2.0", "v0.3.0-beta.1", "v0.2.5"]);
    assert_eq!(newest_release(&tags, "0.1.0"), Some(2));
    assert_eq!(newest_release(&tags, "0.2.0"), Some(2));
    assert_eq!(newest_release(&tags, "0.3.0-beta.1"), None);
    assert_eq!(newest_release(&tags, "0.3.0"), None);
    assert_eq!(newest_release(&releases_tags(&["v0.1.0"]), "0.1.0"), None);
    assert_eq!(newest_release(&releases_tags(&[]), "0.1.0"), None);
}

#[test]
fn tags_that_name_no_version_are_passed_over() {
    let tags = releases_tags(&["nightly", "vv1.0.0", "1.2", "v1.0", ""]);
    assert_eq!(newest_release(&tags, "0.1.0"), Some(1));
    assert_eq!(newest_release(&releases_tags(&["latest", "v", "1"]), "0.1.0"), None);
    // without a running version that parses nothing is offered
    assert_eq!(newest_release(&releases_tags(&["v9.9.9"]), "banana"), None);
    assert_eq!(newest_release(&releases_tags(&["v9.9.9"]), "v0.1.0"), None);
}

#[test]
fn order_of_versions_is_that_of_semver() {
    assert_eq!(newest_release(&releases_tags(&["1.0.0-alpha", "1.0.0"]), "0.1.0"), Some(1));
    assert_eq!(newest_release(&releases_tags(&["1.0.0", "1.0.0-alpha"]), "0.1.0"), Some(0));
    assert_eq!(newest_release(&releases_tags(&["v1.0.0", "1.0.0"]), "0.1.0"), Some(0));
    assert_eq!(newest_release(&releases_tags(&["1.0.0-beta.2", "1.0.0-beta.11"]), "0.1.0"), Some(1));
    assert_eq!(newest_release(&releases_tags(&["1.0.0+b1", "1.0.0+b2"]), "0.1.0"), Some(1));
    assert_eq!(newest_release(&releases_tags(&["0.10.0", "0.9.0"]), "0.1.0"), Some(0));
}

#[test]
fn trim_start_char_removes_the_whole_run() {
    assert_eq!(trim_start_char("v1.0.0", 'v'), "1.0.0");
    assert_eq!(trim_start_char("vvv1v", 'v'), "1v");
    assert_eq!(trim_start_char("1.0.0", 'v'), "1.0.0");
    assert_eq!(trim_start_char("vv", 'v'), "");
    assert_eq!(trim_start_char("", 'v'), "");
}
