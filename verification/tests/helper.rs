use k8s_wfx::helper::{
    eq_ignore_ascii_case, path_components, str_eq, str_lt, to_file_time, to_split_file_time,
};

#[test]
fn file_time_of_unix_epoch_is_the_epoch_offset() {
    assert_eq!(to_file_time(0), 116444736000000000);
}

#[test]
fn file_time_counts_ten_thousand_ticks_per_millisecond() {
    assert_eq!(to_file_time(1), 116444736000010000);
    assert_eq!(to_file_time(-1), 116444735999990000);
    assert_eq!(to_file_time(1_700_000_000_000), 133_444_736_000_000_000);
}

#[test]
fn file_time_grows_with_the_instant() {
    assert!(to_file_time(5) < to_file_time(6));
}

#[test]
fn split_file_time_gives_low_and_high_halves() {
    let ft = to_file_time(1_700_000_000_000);
    let (low, high) = to_split_file_time(1_700_000_000_000);
    assert_eq!(high as i64, ft >> 32);
    assert_eq!(low as u32 as i64, ft & 0xffff_ffff);
    assert_eq!(((high as i64) << 32) | (low as u32 as i64), ft);
}

#[test]
fn split_file_time_of_epoch() {
    // 116444736000000000 = 0x019DB1DED53E8000
    let (low, high) = to_split_file_time(0);
    assert_eq!(high, 0x019DB1DE);
    assert_eq!(low as u32, 0xD53E8000);
    assert!(low < 0);
}

#[test]
fn split_file_time_before_1601_has_negative_high_half() {
    let m = -20_000_000_000_000i64;
    let ft = to_file_time(m);
    assert!(ft < 0);
    let (low, high) = to_split_file_time(m);
    assert_eq!(((high as i64) << 32) + (low as u32 as i64), ft);
    assert!(high < 0);
}

fn comps(p: &str) -> Vec<String> {
    path_components(p)
}

#[test]
fn components_of_root_are_empty() {
    assert!(comps("/").is_empty());
    assert!(comps("").is_empty());
    assert!(comps("//").is_empty());
}

#[test]
fn components_skip_separators_dots_and_parents() {
    assert_eq!(comps("/docker-desktop/pod"), vec!["docker-desktop", "pod"]);
    assert_eq!(comps("a//b/"), vec!["a", "b"]);
    assert_eq!(comps("./a/./b/../c"), vec!["a", "b", "c"]);
    assert_eq!(comps("/.../x"), vec!["...", "x"]);
    assert_eq!(comps("/ctx/pod/my-pod"), vec!["ctx", "pod", "my-pod"]);
}

#[test]
fn components_agree_with_std_path() {
    for p in ["/a/b", "a//b/", "./a/./b/../c", "/", "", "..", "/ü/ß/.x", "x/./y/"] {
        let expected: Vec<String> = std::path::Path::new(p)
            .components()
            .filter_map(|c| match c {
                std::path::Component::Normal(s) => Some(s.to_str().unwrap().to_string()),
                _ => None,
            })
            .collect();
        assert_eq!(comps(p), expected, "path {}", p);
    }
}

#[test]
fn joined_components_split_back() {
    let segs = vec!["ctx", "pod", "name-1"];
    let joined = format!("/{}", segs.join("/"));
    assert_eq!(comps(&joined), segs);
}

#[test]
fn string_equality() {
    assert!(str_eq("pod", "pod"));
    assert!(!str_eq("pod", "pods"));
    assert!(!str_eq("pod", "Pod"));
    assert!(str_eq("", ""));
}

#[test]
fn ascii_case_insensitive_equality() {
    assert!(eq_ignore_ascii_case("Pod", "pod"));
    assert!(eq_ignore_ascii_case("DEPLOYMENTS", "deployments"));
    assert!(!eq_ignore_ascii_case("pod", "pods"));
    assert!(!eq_ignore_ascii_case("Ü", "ü"));
    assert!(eq_ignore_ascii_case("", ""));
    assert_eq!(eq_ignore_ascii_case("aZ[", "Az{"), "aZ[".eq_ignore_ascii_case("Az{"));
}

#[test]
fn string_order_is_lexicographic() {
    assert!(str_lt("apps", "batch"));
    assert!(str_lt("", "a"));
    assert!(str_lt("app", "apps"));
    assert!(!str_lt("apps", "app"));
    assert!(!str_lt("x", "x"));
    assert!(str_lt("Z", "a"));
    for (a, b) in [("é", "z"), ("z", "é"), ("ab", "aé"), ("", "")] {
        assert_eq!(str_lt(a, b), a < b);
    }
}
