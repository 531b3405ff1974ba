//! The handle: its owners and its mode.

use localization::localization::{
    localization_addref, localization_new, localization_release,
};

#[test]
fn last_owner_frees_the_handle() {
    let mut handle = localization_new(true);
    localization_addref(&mut handle);
    localization_addref(&mut handle);
    localization_addref(&mut handle);
    assert_eq!(handle.refcnt(), 3);
    assert!(!localization_release(&mut handle));
    assert!(!localization_release(&mut handle));
    assert!(localization_release(&mut handle));
    assert_eq!(handle.refcnt(), 0);
}

#[test]
fn release_undoes_addref() {
    let mut handle = localization_new(false);
    localization_addref(&mut handle);
    localization_addref(&mut handle);
    assert!(!localization_release(&mut handle));
    localization_addref(&mut handle);
    assert!(!localization_release(&mut handle));
    assert!(localization_release(&mut handle));
}

#[test]
fn handle_turns_async_once() {
    let mut handle = localization_new(true);
    assert!(handle.is_sync());
    assert!(handle.set_async());
    assert!(!handle.is_sync());
    assert!(!handle.set_async());
    assert!(!handle.is_sync());
}

#[test]
fn async_handle_stays_async() {
    let mut handle = localization_new(false);
    assert!(!handle.set_async());
    assert!(!handle.is_sync());
}
