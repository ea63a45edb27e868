use media_wizard::platform::{HostWindowHandle, IDesktopWindowXamlSourceNative, PlatformError};

#[test]
fn attaching_a_native_handle_records_it() {
    let mut source = IDesktopWindowXamlSourceNative::new();
    assert!(source.attach_to_window(&HostWindowHandle::Native(0x40a2)).is_ok());
    assert_eq!(source.get_window_handle().expect("attached"), 0x40a2);
}

#[test]
fn a_foreign_handle_is_unsupported_and_fatal() {
    let mut source = IDesktopWindowXamlSourceNative::new();
    let r = source.attach_to_window(&HostWindowHandle::Other);
    assert!(matches!(r, Err(PlatformError::UnsupportedPlatform)));
    assert!(matches!(source.get_window_handle(), Err(PlatformError::NotAttached)));
}

#[test]
fn no_handle_before_attachment() {
    let source = IDesktopWindowXamlSourceNative::new();
    assert!(matches!(source.get_window_handle(), Err(PlatformError::NotAttached)));
}

#[test]
fn reattaching_replaces_the_handle() {
    let mut source = IDesktopWindowXamlSourceNative::new();
    assert!(source.attach_to_window(&HostWindowHandle::Native(1)).is_ok());
    assert!(source.attach_to_window(&HostWindowHandle::Native(2)).is_ok());
    assert_eq!(source.get_window_handle().expect("attached"), 2);
}
