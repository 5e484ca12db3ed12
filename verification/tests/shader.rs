//! Bundled shader pack.

use rck_core::shader::{bundled, list};

#[test]
fn bundled_lookup_works() {
    assert!(bundled("focus-vignette").is_some());
    assert!(bundled("nonexistent").is_none());
}

#[test]
fn every_listed_shader_is_bundled() {
    assert_eq!(list(), &["focus-vignette", "progress-pulse", "agent-active"]);
    for name in list() {
        let src = bundled(name).unwrap();
        assert!(src.contains("void main"));
    }
    assert!(bundled("focus-vignette").unwrap().contains("iFocus"));
}
