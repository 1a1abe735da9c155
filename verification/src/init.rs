//! The initialization record handed to the kernel: two fixed 128-byte
//! nul-terminated name fields and a speed code. Validation happens here,
//! before any kernel call is attempted.

use vstd::prelude::*;
use crate::errors::InitError;
use crate::usb::UsbSpeed;

verus! {

/// Size of each name field, terminating nul included.
pub const UDC_NAME_LENGTH_MAX: usize = 128;

/// A name padded with nul bytes to the fixed field size.
pub open spec fn nul_padded(name: Seq<u8>) -> Seq<u8> {
    Seq::new(UDC_NAME_LENGTH_MAX as nat, |i: int| if i < name.len() { name[i] } else { 0u8 })
}

/// A name is acceptable when it leaves room for its nul terminator and
/// holds no interior nul byte.
pub open spec fn name_fits(name: Seq<u8>) -> bool {
    name.len() < UDC_NAME_LENGTH_MAX
}

/// No interior nul byte: the field would otherwise encode a shorter C
/// string than the caller intended.
pub open spec fn name_has_no_nul(name: Seq<u8>) -> bool {
    forall|i: int| 0 <= i < name.len() ==> name[i] != 0u8
}

/// The validated initialization record: both name fields already padded to
/// their fixed size, and the numeric speed code.
pub struct Init {
    pub driver_name: Vec<u8>,
    pub device_name: Vec<u8>,
    pub speed: u8,
}

impl Init {
    /// Both name fields have their fixed wire size.
    pub open spec fn wf(self) -> bool {
        &&& self.driver_name@.len() == UDC_NAME_LENGTH_MAX
        &&& self.device_name@.len() == UDC_NAME_LENGTH_MAX
    }

    /// Validate the two names and build the padded record.
    ///
    /// Validation rejects, before anything reaches the kernel, a name that
    /// cannot fit its field together with a nul terminator, and a name with
    /// an interior nul. Length is checked first for both names, then the
    /// nul check runs.
    pub fn new(driver: &[u8], device: &[u8], speed: UsbSpeed) -> (r: Result<Init, InitError>)
        ensures
            r is Ok <==> name_fits(driver@) && name_fits(device@)
                && name_has_no_nul(driver@) && name_has_no_nul(device@),
            !(name_fits(driver@) && name_fits(device@)) ==> r == Err::<Init, InitError>(
                InitError::NameTooLong,
            ),
            name_fits(driver@) && name_fits(device@)
                && !(name_has_no_nul(driver@) && name_has_no_nul(device@)) ==> r == Err::<
                Init,
                InitError,
            >(InitError::NameHasNul),
            r matches Ok(ini) ==> ini.wf() && ini.driver_name@ == nul_padded(driver@)
                && ini.device_name@ == nul_padded(device@) && ini.speed == speed.code_spec(),
    {
        if driver.len() >= UDC_NAME_LENGTH_MAX || device.len() >= UDC_NAME_LENGTH_MAX {
            return Err(InitError::NameTooLong);
        }
        if contains_nul(driver) || contains_nul(device) {
            return Err(InitError::NameHasNul);
        }
        let driver_name = pad_name(driver);
        let device_name = pad_name(device);
        Ok(Init { driver_name, device_name, speed: speed.code() })
    }

    /// Serialize the record in its wire layout: the two padded name fields
    /// back to back, then the speed code byte.
    pub fn to_bytes(&self) -> (r: Vec<u8>)
        requires
            self.wf(),
        ensures
            r@ == self.driver_name@ + self.device_name@ + seq![self.speed],
            r@.len() == 2 * UDC_NAME_LENGTH_MAX + 1,
    {
        let mut out: Vec<u8> = Vec::new();
        append_bytes(&mut out, &self.driver_name);
        append_bytes(&mut out, &self.device_name);
        out.push(self.speed);
        proof {
            assert(out@ =~= self.driver_name@ + self.device_name@ + seq![self.speed]);
        }
        out
    }
}

/// Whether the slice holds a nul byte.
fn contains_nul(s: &[u8]) -> (r: bool)
    ensures
        r == !name_has_no_nul(s@),
{
    let mut i: usize = 0;
    while i < s.len()
        invariant
            0 <= i <= s@.len(),
            forall|k: int| 0 <= k < i ==> s@[k] != 0u8,
        decreases s@.len() - i,
    {
        if s[i] == 0 {
            return true;
        }
        i = i + 1;
    }
    false
}

/// Copy `name` and pad it with nul bytes to the fixed field size.
fn pad_name(name: &[u8]) -> (r: Vec<u8>)
    requires
        name@.len() < UDC_NAME_LENGTH_MAX,
    ensures
        r@ == nul_padded(name@),
{
    let mut out: Vec<u8> = Vec::new();
    let mut i: usize = 0;
    while i < name.len()
        invariant
            0 <= i <= name@.len(),
            out@ =~= name@.subrange(0, i as int),
        decreases name@.len() - i,
    {
        out.push(name[i]);
        i = i + 1;
    }
    while out.len() < UDC_NAME_LENGTH_MAX
        invariant
            name@.len() <= out@.len() <= UDC_NAME_LENGTH_MAX,
            out@.subrange(0, name@.len() as int) =~= name@,
            forall|k: int| name@.len() <= k < out@.len() ==> out@[k] == 0u8,
        decreases UDC_NAME_LENGTH_MAX - out@.len(),
    {
        out.push(0);
    }
    proof {
        assert(out@ =~= nul_padded(name@));
    }
    out
}

/// Append every byte of `src` to `out`.
fn append_bytes(out: &mut Vec<u8>, src: &Vec<u8>)
    ensures
        final(out)@ == old(out)@ + src@,
{
    let mut i: usize = 0;
    while i < src.len()
        invariant
            0 <= i <= src@.len(),
            out@ =~= old(out)@ + src@.subrange(0, i as int),
        decreases src@.len() - i,
    {
        out.push(src[i]);
        i = i + 1;
    }
    proof {
        assert(out@ =~= old(out)@ + src@);
    }
}

} // verus!
