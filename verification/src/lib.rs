//! Verified core of a client for the mobile image mounter service of iOS
//! devices, as reached through libimobiledevice.
//!
//! The service itself is driven by the device; this library holds what the
//! client decides: which status codes mean which error, how each request's
//! arguments are laid out for the service, and in which order missing inputs
//! are reported.

pub mod c_string;
pub mod error;
pub mod mounter;

pub use c_string::{c_string, optional_c_string};
pub use error::{
    check_status, check_status_with, MobileImageMounterError, MOBILE_IMAGE_MOUNTER_E_COMMAND_FAILED,
    MOBILE_IMAGE_MOUNTER_E_CONN_FAILED, MOBILE_IMAGE_MOUNTER_E_DEVICE_LOCKED,
    MOBILE_IMAGE_MOUNTER_E_INVALID_ARG, MOBILE_IMAGE_MOUNTER_E_NOT_SUPPORTED,
    MOBILE_IMAGE_MOUNTER_E_PLIST_ERROR, MOBILE_IMAGE_MOUNTER_E_SUCCESS,
    MOBILE_IMAGE_MOUNTER_E_UNKNOWN_ERROR,
};
pub use mounter::{
    MobileImageMounter, MountImageRequest, PersonalizationManifestRequest, UploadImageRequest,
};
