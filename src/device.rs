use vstd::prelude::*;

use crate::error::CaptureError;

verus! {

/// `D3D_DRIVER_TYPE_HARDWARE`: a device backed by the GPU.
pub const DRIVER_TYPE_HARDWARE: i32 = 1;

/// `D3D11_CREATE_DEVICE_BGRA_SUPPORT`: the device takes the BGRA formats that
/// the capture interop needs.
pub const CREATE_DEVICE_BGRA_SUPPORT: u32 = 0x20;

/// The parameters a native device is created with.
#[derive(Clone, Copy, Debug, PartialEq, Eq, Structural)]
pub struct DeviceRequest {
    pub driver_type: i32,
    pub flags: u32,
}

/// The device request: a hardware device with BGRA support.
pub fn device_request() -> (r: DeviceRequest)
    ensures
        r.driver_type == DRIVER_TYPE_HARDWARE,
        r.flags == CREATE_DEVICE_BGRA_SUPPORT,
{
    DeviceRequest { driver_type: DRIVER_TYPE_HARDWARE, flags: CREATE_DEVICE_BGRA_SUPPORT }
}

/// The native and the interop form of one GPU device, each given by the
/// identity of the object it stands for.
pub struct DevicePair {
    native: usize,
    interop: usize,
}

impl DevicePair {
    /// Both forms stand for the same device, in every pair there is.
    #[verifier::type_invariant]
    spec fn same_device(&self) -> bool {
        self.native == self.interop
    }

    pub closed spec fn native_spec(&self) -> usize {
        self.native
    }

    pub closed spec fn interop_spec(&self) -> usize {
        self.interop
    }

    /// Binds a native device to the device that its interop form leads back
    /// to, as reported after bridging (`None` where bridging failed).
    pub fn bind(native: usize, interop: Option<usize>) -> (r: Result<DevicePair, CaptureError>)
        ensures
            r is Ok <==> interop == Some(native),
            r is Err ==> r == Err::<DevicePair, CaptureError>(CaptureError::DeviceCreation),
            r is Ok ==> r->Ok_0.native_spec() == native && r->Ok_0.interop_spec() == native,
    {
        match interop {
            Some(i) => if i == native {
                Ok(DevicePair { native, interop: i })
            } else {
                Err(CaptureError::DeviceCreation)
            },
            None => Err(CaptureError::DeviceCreation),
        }
    }

    /// The native device's identity, which is the interop form's too.
    pub fn native(&self) -> (r: usize)
        ensures
            r == self.native_spec(),
            r == self.interop_spec(),
    {
        proof {
            use_type_invariant(self);
        }
        self.native
    }

    /// The identity of the device behind the interop form, which is the
    /// native device's too.
    pub fn interop(&self) -> (r: usize)
        ensures
            r == self.interop_spec(),
            r == self.native_spec(),
    {
        proof {
            use_type_invariant(self);
        }
        self.interop
    }
}

} // verus!
