//! Tests for the live-handle registry.

use cue_rs::lifecycle::Registry;

#[test]
fn registry_starts_empty() {
    let reg = Registry::new();
    assert_eq!(reg.outstanding(), 0);
    assert!(!reg.is_live(1));
}

#[test]
fn registry_tracks_acquire_and_release() {
    let mut reg = Registry::new();
    reg.acquire(10);
    reg.acquire(11);
    assert_eq!(reg.outstanding(), 2);
    assert!(reg.is_live(10));
    assert!(reg.is_live(11));
    assert!(!reg.is_live(12));
    reg.release(10);
    assert_eq!(reg.outstanding(), 1);
    assert!(!reg.is_live(10));
    assert!(reg.is_live(11));
    reg.release(11);
    assert_eq!(reg.outstanding(), 0);
    assert!(!reg.is_live(11));
}

#[test]
fn registry_releases_out_of_order() {
    // Values and their context may be released in any order; an
    // early-return error path that releases only what it acquired leaves
    // nothing outstanding.
    let mut reg = Registry::new();
    reg.acquire(1);
    reg.acquire(2);
    reg.acquire(3);
    reg.release(2);
    assert!(reg.is_live(1) && !reg.is_live(2) && reg.is_live(3));
    reg.release(1);
    reg.release(3);
    assert_eq!(reg.outstanding(), 0);
}

#[test]
fn registry_handle_can_be_reacquired_after_release() {
    let mut reg = Registry::new();
    reg.acquire(5);
    reg.release(5);
    reg.acquire(5);
    assert!(reg.is_live(5));
    assert_eq!(reg.outstanding(), 1);
}
