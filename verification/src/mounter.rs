use vstd::prelude::*;
use vstd::string::StringSliceAdditionalSpecFns;

use crate::c_string::{
    c_arg_view, c_string, c_string_bytes, has_nul, optional_c_string, optional_c_string_bytes,
};
use crate::error::{error_from_code, status_result, MobileImageMounterError, MOBILE_IMAGE_MOUNTER_E_SUCCESS};

verus! {

/// A length as the service's 32-bit length arguments carry it: the length
/// modulo 2^32, as a cast to `u32` leaves it.
pub open spec fn wrap_u32(n: int) -> int {
    n % 0x1_0000_0000
}

/// A client of the mobile image mounter service on one device.
///
/// The client handle is the address of the connection that the service
/// opened; this library carries it into every request and never reads it.
pub struct MobileImageMounter {
    client: usize,
}

/// The arguments of an upload of a disk image: the image type (absent for the
/// empty string), the size in bytes of the image file, and the signature's
/// bytes and their count.
pub struct UploadImageRequest {
    pub client: usize,
    pub image_type: Option<Vec<u8>>,
    pub image_size: u64,
    pub signature: Vec<u8>,
    pub signature_size: u32,
}

/// The arguments of a mount of an uploaded disk image: the image's path on the
/// host as a C string, the signature's bytes and their count, and the image
/// type (absent for the empty string).
pub struct MountImageRequest {
    pub client: usize,
    pub image_path: Vec<u8>,
    pub signature: Vec<u8>,
    pub signature_size: u32,
    pub image_type: Option<Vec<u8>>,
}

/// The arguments of a query for a personalization manifest: the image type
/// (absent for the empty string), and the signature's bytes and their count.
pub struct PersonalizationManifestRequest {
    pub client: usize,
    pub image_type: Option<Vec<u8>>,
    pub signature: Vec<u8>,
    pub signature_size: u32,
}

/// The bytes of an optional string argument, if there is one.
pub open spec fn str_arg_bytes(s: Option<&str>) -> Option<Seq<u8>> {
    match s {
        Some(s) => Some(s.spec_bytes()),
        None => None,
    }
}

/// The bytes that an optional byte buffer holds, if there is one.
pub open spec fn bytes_arg(v: Option<Vec<u8>>) -> Option<Seq<u8>> {
    match v {
        Some(v) => Some(v@),
        None => None,
    }
}

/// A mount request as plain values: the client handle, the image path as a
/// C string, the signature's bytes, their count and the optional image type.
pub type MountRequestValue = (usize, Seq<u8>, Seq<u8>, int, Option<Seq<u8>>);

/// The mount that a client asks for, given the bytes of the image's
/// canonical path (`None` where it has none), of the image type and of the
/// signature (`None` where it could not be read). A missing image is reported
/// before a missing signature.
pub open spec fn mount_request_spec(
    client: usize,
    image_path: Option<Seq<u8>>,
    image_type: Seq<u8>,
    signature: Option<Seq<u8>>,
) -> Result<MountRequestValue, MobileImageMounterError> {
    match image_path {
        None => Err(MobileImageMounterError::DmgNotFound),
        Some(path) => match signature {
            None => Err(MobileImageMounterError::SignatureNotFound),
            Some(sig) => Ok(
                (
                    client,
                    c_string_bytes(path),
                    sig,
                    wrap_u32(sig.len() as int),
                    optional_c_string_bytes(image_type),
                ),
            ),
        },
    }
}

/// A built mount request as plain values.
pub open spec fn mount_request_view(
    r: Result<MountImageRequest, MobileImageMounterError>,
) -> Result<MountRequestValue, MobileImageMounterError> {
    match r {
        Ok(req) => Ok(
            (
                req.client,
                req.image_path@,
                req.signature@,
                req.signature_size as int,
                c_arg_view(req.image_type),
            ),
        ),
        Err(e) => Err(e),
    }
}

/// The result of opening a client from the client handle and the status code
/// that the service answered.
pub open spec fn open_result(
    client: usize,
    status: int,
    r: Result<MobileImageMounter, MobileImageMounterError>,
) -> bool {
    match r {
        Ok(m) => status == MOBILE_IMAGE_MOUNTER_E_SUCCESS && m.client_handle() == client,
        Err(e) => status != MOBILE_IMAGE_MOUNTER_E_SUCCESS && e == error_from_code(status),
    }
}

fn wrap_len_u32(n: usize) -> (r: u32)
    ensures
        r as int == wrap_u32(n as int),
{
    let r = n as u32;
    assert(r as int == n as int % 0x1_0000_0000) by (bit_vector)
        requires
            r == n as u32,
    ;
    r
}

impl MobileImageMounter {
    /// The client handle that this client carries.
    pub closed spec fn client_handle(&self) -> usize {
        self.client
    }

    /// The client handle that this client carries.
    pub fn client(&self) -> (c: usize)
        ensures
            c == self.client_handle(),
    {
        self.client
    }

    /// The client that the service opened on a lockdown service, from the
    /// handle it filled in and the status code it answered: the client when
    /// the service reports success, else the error that the code names.
    pub fn new(client: usize, status: i32) -> (r: Result<MobileImageMounter, MobileImageMounterError>)
        ensures
            open_result(client, status as int, r),
    {
        let result = MobileImageMounterError::from_code(status);
        if result != MobileImageMounterError::Success {
            return Err(result);
        }
        Ok(MobileImageMounter { client })
    }

    /// The client that the service opened when asked to start it under a
    /// label, from the handle it filled in and the status code it answered:
    /// the client when the service reports success, else the error that the
    /// code names.
    pub fn start_service(client: usize, status: i32) -> (r: Result<
        MobileImageMounter,
        MobileImageMounterError,
    >)
        ensures
            open_result(client, status as int, r),
    {
        let result = MobileImageMounterError::from_code(status);
        if result != MobileImageMounterError::Success {
            return Err(result);
        }
        Ok(MobileImageMounter { client })
    }

    /// The arguments of an upload, from the size of the image file and the
    /// bytes of the signature file (`None` where the file could not be read)
    /// and the image type. A missing image is reported before a missing
    /// signature.
    pub fn upload_image(
        &self,
        image_size: Option<usize>,
        image_type: &str,
        signature: Option<Vec<u8>>,
    ) -> (r: Result<UploadImageRequest, MobileImageMounterError>)
        requires
            image_size is Some && signature is Some ==> !has_nul(image_type.spec_bytes()),
        ensures
            match r {
                Ok(req) => {
                    &&& image_size is Some && signature is Some
                    &&& req.client == self.client_handle()
                    &&& req.image_size == image_size->0
                    &&& req.signature@ == signature->0@
                    &&& req.signature_size == wrap_u32(signature->0@.len() as int)
                    &&& c_arg_view(req.image_type) == optional_c_string_bytes(
                        image_type.spec_bytes(),
                    )
                },
                Err(e) => {
                    ||| image_size is None && e == MobileImageMounterError::DmgNotFound
                    ||| image_size is Some && signature is None && e
                        == MobileImageMounterError::SignatureNotFound
                },
            },
    {
        let dmg_size = match image_size {
            Some(size) => size,
            None => return Err(MobileImageMounterError::DmgNotFound),
        };
        let signature = match signature {
            Some(bytes) => bytes,
            None => return Err(MobileImageMounterError::SignatureNotFound),
        };
        let image_type = optional_c_string(image_type);
        let signature_size = wrap_len_u32(signature.len());
        Ok(
            UploadImageRequest {
                client: self.client,
                image_type,
                image_size: dmg_size as u64,
                signature,
                signature_size,
            },
        )
    }

    /// The arguments of a mount, from the image's canonical path on the host
    /// (`None` where it does not exist or cannot be resolved), the image type
    /// and the signature's bytes (`None` where they could not be read). A
    /// missing image is reported before a missing signature.
    pub fn mount_image(
        &self,
        image_path: Option<&str>,
        image_type: &str,
        signature: Option<Vec<u8>>,
    ) -> (r: Result<MountImageRequest, MobileImageMounterError>)
        requires
            image_path matches Some(p) ==> !has_nul(p.spec_bytes()),
            image_path is Some && signature is Some ==> !has_nul(image_type.spec_bytes()),
        ensures
            mount_request_view(r) == mount_request_spec(
                self.client_handle(),
                str_arg_bytes(image_path),
                image_type.spec_bytes(),
                bytes_arg(signature),
            ),
    {
        let image_path = match image_path {
            Some(path) => c_string(path),
            None => return Err(MobileImageMounterError::DmgNotFound),
        };
        let signature = match signature {
            Some(bytes) => bytes,
            None => return Err(MobileImageMounterError::SignatureNotFound),
        };
        let image_type = optional_c_string(image_type);
        let signature_size = wrap_len_u32(signature.len());
        Ok(
            MountImageRequest {
                client: self.client,
                image_path,
                signature,
                signature_size,
                image_type,
            },
        )
    }

    /// The arguments of a mount with options: the same as those of a plain
    /// mount, with the same early errors; the options themselves are handed to
    /// the service as they are.
    pub fn mount_image_with_options(
        &self,
        image_path: Option<&str>,
        image_type: &str,
        signature: Option<Vec<u8>>,
    ) -> (r: Result<MountImageRequest, MobileImageMounterError>)
        requires
            image_path matches Some(p) ==> !has_nul(p.spec_bytes()),
            image_path is Some && signature is Some ==> !has_nul(image_type.spec_bytes()),
        ensures
            mount_request_view(r) == mount_request_spec(
                self.client_handle(),
                str_arg_bytes(image_path),
                image_type.spec_bytes(),
                bytes_arg(signature),
            ),
    {
        self.mount_image(image_path, image_type, signature)
    }

    /// The arguments of a query for a personalization manifest, from the
    /// image type and the bytes of the signature file (`None` where it could
    /// not be read).
    pub fn query_personalization_manifest(
        &self,
        image_type: &str,
        signature: Option<Vec<u8>>,
    ) -> (r: Result<PersonalizationManifestRequest, MobileImageMounterError>)
        requires
            !has_nul(image_type.spec_bytes()),
        ensures
            match r {
                Ok(req) => {
                    &&& signature is Some
                    &&& req.client == self.client_handle()
                    &&& req.signature@ == signature->0@
                    &&& req.signature_size == wrap_u32(signature->0@.len() as int)
                    &&& c_arg_view(req.image_type) == optional_c_string_bytes(
                        image_type.spec_bytes(),
                    )
                },
                Err(e) => signature is None && e == MobileImageMounterError::SignatureNotFound,
            },
    {
        let image_type = optional_c_string(image_type);
        let signature = match signature {
            Some(bytes) => bytes,
            None => return Err(MobileImageMounterError::SignatureNotFound),
        };
        let signature_size = wrap_len_u32(signature.len());
        Ok(
            PersonalizationManifestRequest {
                client: self.client,
                image_type,
                signature,
                signature_size,
            },
        )
    }
}

/// Opening a client reads the service's status code as every other call does:
/// it succeeds exactly when a call that answers only that code succeeds, and
/// fails with the same error.
pub proof fn lemma_open_reads_status_as_calls_do(
    client: usize,
    status: int,
    r: Result<MobileImageMounter, MobileImageMounterError>,
)
    requires
        open_result(client, status, r),
    ensures
        r is Ok <==> status_result(status) is Ok,
        r matches Err(e) ==> status_result(status) == Err::<(), MobileImageMounterError>(e),
{
}

/// A mount whose image is found but whose signature cannot be read fails with
/// `SignatureNotFound`, whatever the image type.
pub proof fn lemma_mount_missing_signature(
    client: usize,
    image_path: Seq<u8>,
    type_a: Seq<u8>,
    type_b: Seq<u8>,
)
    ensures
        mount_request_spec(client, Some(image_path), type_a, None) == Err::<
            MountRequestValue,
            MobileImageMounterError,
        >(MobileImageMounterError::SignatureNotFound),
        mount_request_spec(client, Some(image_path), type_a, None) == mount_request_spec(
            client,
            Some(image_path),
            type_b,
            None,
        ),
{
}

/// Two mounts of images with the same canonical path, the same type and the
/// same signature ask for the same mount, which names that canonical path.
pub proof fn lemma_mount_depends_on_canonical_path(
    client: usize,
    path_a: Seq<u8>,
    path_b: Seq<u8>,
    image_type: Seq<u8>,
    signature: Option<Seq<u8>>,
)
    requires
        path_a == path_b,
    ensures
        mount_request_spec(client, Some(path_a), image_type, signature) == mount_request_spec(
            client,
            Some(path_b),
            image_type,
            signature,
        ),
        mount_request_spec(client, Some(path_a), image_type, signature) matches Ok(v) ==> v.1
            == c_string_bytes(path_b),
{
}

/// The 32-bit length argument is the length truncated to 32 bits: it lies
/// below 2^32, differs from the length by a multiple of 2^32, and equals the
/// length whenever the length fits in 32 bits.
pub proof fn lemma_wrap_u32_truncates(n: int)
    requires
        0 <= n,
    ensures
        0 <= wrap_u32(n) < 0x1_0000_0000,
        (n - wrap_u32(n)) % 0x1_0000_0000 == 0,
        n < 0x1_0000_0000 ==> wrap_u32(n) == n,
        wrap_u32(n + 0x1_0000_0000) == wrap_u32(n),
{
    assert(0 <= wrap_u32(n) < 0x1_0000_0000) by (nonlinear_arith)
        requires
            0 <= n,
    ;
}

/// A mount whose image and signature are present names the client, passes
/// the canonical path whole followed by one NUL, passes the signature whole
/// with its length (its exact length below 4 GiB), and passes the image type
/// as a C string exactly when the type is not empty.
pub proof fn lemma_mount_request_contents(
    client: usize,
    image_path: Seq<u8>,
    image_type: Seq<u8>,
    signature: Seq<u8>,
)
    ensures
        mount_request_spec(client, Some(image_path), image_type, Some(signature)) matches Ok(v) && {
            &&& v.0 == client
            &&& v.1 == image_path.push(0u8)
            &&& v.2 == signature
            &&& 0 <= v.3 < 0x1_0000_0000
            &&& (signature.len() - v.3) % 0x1_0000_0000 == 0
            &&& signature.len() < 0x1_0000_0000 ==> v.3 == signature.len()
            &&& (v.4 is None <==> image_type.len() == 0)
            &&& image_type.len() > 0 ==> v.4 == Some(image_type.push(0u8))
        },
{
    lemma_wrap_u32_truncates(signature.len() as int);
}

} // verus!
