use glkit::utils::{is_error_message, Profile, DEBUG_TYPE_ERROR};

#[test]
fn profile_masks() {
    assert_eq!(Profile::from_mask(1), Profile::Core);
    assert_eq!(Profile::from_mask(2), Profile::Compatibility);
    assert_eq!(Profile::from_mask(0), Profile::Unknown);
    assert_eq!(Profile::from_mask(3), Profile::Unknown);
    assert_eq!(Profile::from_mask(-1), Profile::Unknown);
}

#[test]
fn profile_names() {
    assert_eq!(Profile::Core.name(), "core");
    assert_eq!(Profile::Compatibility.name(), "compatibility");
    assert_eq!(Profile::Unknown.name(), "unknown");
}

#[test]
fn only_the_error_type_is_an_error() {
    assert_eq!(DEBUG_TYPE_ERROR, 0x824C);
    assert!(is_error_message(0x824C));
    assert!(!is_error_message(0x824D));
    assert!(!is_error_message(0x8251));
    assert!(!is_error_message(0));
}
