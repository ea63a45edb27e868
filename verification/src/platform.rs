//! The narrow platform abstraction behind which the native window
//! attachment lives: the engine's visual tree must be attached to a host
//! window before it can be shown, and only the platform whose window-handle
//! representation the engine understands is supported.
//!
//! The native dispatch itself (querying the host's UI subsystem and handing
//! it the raw handle) is the application's; this module keeps the verified
//! bookkeeping: which handle a source is attached to, and the rule that any
//! other handle representation is a fatal configuration error, not a
//! recoverable one.

use vstd::prelude::*;

verus! {

/// A host window's raw handle as the windowing layer reports it: either
/// the native representation the engine understands, carrying the numeric
/// handle value, or some other platform's.
pub enum HostWindowHandle {
    Native(u64),
    Other,
}

/// Why an attachment request was refused.
#[derive(Debug)]
pub enum PlatformError {
    /// The host window belongs to a platform whose handle representation
    /// the engine does not understand: an unrecoverable configuration
    /// error.
    UnsupportedPlatform,
    /// No window has been attached yet, so there is no handle to hand out.
    NotAttached,
}

/// The attachment state of the native source hosting the wizard's visual
/// tree: at most one host window, recorded by its handle value.
pub struct IDesktopWindowXamlSourceNative {
    attached: Option<u64>,
}

impl View for IDesktopWindowXamlSourceNative {
    type V = Option<u64>;

    closed spec fn view(&self) -> Option<u64> {
        self.attached
    }
}

impl IDesktopWindowXamlSourceNative {
    /// A fresh source, attached to nothing.
    pub fn new() -> (s: Self)
        ensures
            s@ is None,
    {
        IDesktopWindowXamlSourceNative { attached: None }
    }

    /// Attaches the source to a host window. A native handle is recorded;
    /// any other representation is refused as `UnsupportedPlatform` and
    /// the source is left untouched.
    pub fn attach_to_window(&mut self, handle: &HostWindowHandle) -> (r: Result<(), PlatformError>)
        ensures
            match handle {
                HostWindowHandle::Native(h) => r is Ok && final(self)@ == Some(*h),
                HostWindowHandle::Other => r == Result::<(), PlatformError>::Err(
                    PlatformError::UnsupportedPlatform,
                ) && final(self)@ == old(self)@,
            },
    {
        match handle {
            HostWindowHandle::Native(h) => {
                self.attached = Some(*h);
                Ok(())
            },
            HostWindowHandle::Other => Err(PlatformError::UnsupportedPlatform),
        }
    }

    /// The handle of the window the source is attached to, or `NotAttached`
    /// when no attachment has happened yet.
    pub fn get_window_handle(&self) -> (r: Result<u64, PlatformError>)
        ensures
            match self@ {
                Some(h) => r == Result::<u64, PlatformError>::Ok(h),
                None => r == Result::<u64, PlatformError>::Err(PlatformError::NotAttached),
            },
    {
        match self.attached {
            Some(h) => Ok(h),
            None => Err(PlatformError::NotAttached),
        }
    }
}

} // verus!
