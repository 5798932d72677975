use addon_publish::pattern::{try_match, usable};
use addon_publish::validate::{IMAGE_NAME_PATTERN, REGISTRY_PATTERN};

#[test]
fn patterns_of_the_rules_can_be_used() {
    assert!(usable(REGISTRY_PATTERN));
    assert!(usable(IMAGE_NAME_PATTERN));
}

#[test]
fn a_broken_pattern_cannot_be_used() {
    assert!(!usable("foo(bar"));
    assert_eq!(try_match("foo(bar", "foo(bar"), None);
}

#[test]
fn a_pattern_matches_anywhere_in_the_text() {
    assert_eq!(try_match("a+b", "xxaab"), Some(true));
    assert_eq!(try_match("^a+b$", "xxaab"), Some(false));
    assert_eq!(try_match("", ""), Some(true));
}

#[test]
fn registry_addresses() {
    for address in ["docker.io", "localhost:5000", "", "my registry", "host:٣"] {
        assert_eq!(try_match(REGISTRY_PATTERN, address), Some(true), "{}", address);
    }
    for address in ["host:", "host:port", "a:1:2", ":x"] {
        assert_eq!(try_match(REGISTRY_PATTERN, address), Some(false), "{}", address);
    }
}

#[test]
fn image_names() {
    for name in ["img", "my_image-1", "img:latest", "a:1"] {
        assert_eq!(try_match(IMAGE_NAME_PATTERN, name), Some(true), "{}", name);
    }
    for name in ["", "Img", "img:", "img:v1.0", "a/b", "img:LATEST", "im g"] {
        assert_eq!(try_match(IMAGE_NAME_PATTERN, name), Some(false), "{}", name);
    }
}
