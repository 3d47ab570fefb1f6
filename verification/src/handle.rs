//! The session with the backend, the devices it lists, and an open device
//! with its table of options.

use crate::acquisition::{Acquisition, AcquisitionState};
use crate::options::{Descriptor, Opt};
use crate::parameters::Parameters;
use crate::status::{result_of, Error, SANE_STATUS_GOOD};
use crate::version::Version;
use vstd::prelude::*;
use vstd::string::StringSliceAdditionalSpecFns;

verus! {

/// The backend runtime, initialised. It is to be kept for as long as any
/// device of it is in use, and shut down exactly once.
#[derive(Debug)]
pub struct Context {}

/// What the backend says of one device that it found.
#[derive(Debug)]
pub struct Device {
    pub name: String,
    pub vendor: String,
    pub model: String,
    pub type_: String,
}

/// The bytes that name a device to the backend: the name, and a zero byte
/// after it. A name that holds a zero byte itself has none.
pub open spec fn connection_bytes(name: Seq<u8>) -> Option<Seq<u8>> {
    if name.contains(0u8) {
        None
    } else {
        Some(name.push(0u8))
    }
}

/// The name of a device as the backend takes it, terminated by a zero byte.
/// A name that holds a zero byte is refused with `Error::BadName`, before
/// anything is handed to the backend.
pub fn connection_name(name: &str) -> (r: Result<Vec<u8>, Error>)
    ensures
        match connection_bytes(name.spec_bytes()) {
            Some(bytes) => r matches Ok(v) && v@ == bytes,
            None => r matches Err(e) && e == Error::BadName,
        },
{
    let bytes = name.as_bytes();
    let mut out: Vec<u8> = Vec::new();
    let mut i: usize = 0;
    while i < bytes.len()
        invariant
            i <= bytes.len(),
            bytes@ == name.spec_bytes(),
            out@ == bytes@.take(i as int),
            forall|k: int| 0 <= k < i ==> bytes@[k] != 0,
        decreases bytes.len() - i,
    {
        if bytes[i] == 0 {
            assert(bytes@[i as int] == 0u8);
            assert(bytes@.contains(0u8));
            return Err(Error::BadName);
        }
        out.push(bytes[i]);
        assert(out@ =~= bytes@.take(i + 1));
        i = i + 1;
    }
    assert(bytes@.take(i as int) =~= bytes@);
    assert(!bytes@.contains(0u8));
    out.push(0u8);
    Ok(out)
}

impl Context {
    /// The session and the backend's version, from the status and the version
    /// code with which the backend answered its initialisation.
    pub fn init(status: u32, version_code: i32) -> (r: Result<(Context, Version), Error>)
        ensures
            match result_of(status) {
                Ok(_) => r matches Ok(p) && p.1 == Version(version_code),
                Err(e) => r matches Err(f) && f == e,
            },
    {
        if status != SANE_STATUS_GOOD {
            return Err(Error::Status(status));
        }
        Ok((Context {  }, Version(version_code)))
    }

    /// The devices of one enumeration, from the backend's status and the
    /// entries of its list up to the terminating one. An empty list is no
    /// error.
    pub fn devices(&self, status: u32, found: Vec<Device>) -> (r: Result<Vec<Device>, Error>)
        ensures
            match result_of(status) {
                Ok(_) => r matches Ok(list) && list == found,
                Err(e) => r matches Err(f) && f == e,
            },
    {
        if status != SANE_STATUS_GOOD {
            return Err(Error::Status(status));
        }
        Ok(found)
    }
}

impl Device {
    pub fn name(&self) -> (name: &str)
        ensures
            name@ == self.name@,
    {
        self.name.as_str()
    }

    pub fn vendor(&self) -> (vendor: &str)
        ensures
            vendor@ == self.vendor@,
    {
        self.vendor.as_str()
    }

    pub fn model(&self) -> (model: &str)
        ensures
            model@ == self.model@,
    {
        self.model.as_str()
    }

    pub fn type_(&self) -> (type_: &str)
        ensures
            type_@ == self.type_@,
    {
        self.type_.as_str()
    }

    /// The name under which the backend opens this device.
    pub fn open(&self) -> (r: Result<Vec<u8>, Error>)
        ensures
            match connection_bytes(vstd::utf8::encode_utf8(self.name@)) {
                Some(bytes) => r matches Ok(v) && v@ == bytes,
                None => r matches Err(e) && e == Error::BadName,
            },
    {
        connection_name(self.name.as_str())
    }
}

/// The number of options that a device has, option 0 counted, or why the
/// backend's answer gives none.
pub open spec fn count_outcome(first: Descriptor, status: u32, value: i32) -> Result<
    usize,
    Error,
> {
    if !first.holds_count() {
        Err(Error::Protocol)
    } else if status != SANE_STATUS_GOOD {
        Err(Error::Status(status))
    } else if value < 1 {
        Err(Error::Protocol)
    } else {
        Ok(value as usize)
    }
}

/// The number of options of a device, from the descriptor of option 0, and
/// the status and the value with which the backend answered the reading of
/// that option.
///
/// Option 0 must be an integer in the size of a word; any other type or size
/// is a breach of the protocol, as is a count below one, which would not even
/// count option 0 itself.
pub fn option_count(first: &Descriptor, status: u32, value: i32) -> (r: Result<usize, Error>)
    ensures
        r == count_outcome(*first, status, value),
{
    if !first.is_count() {
        return Err(Error::Protocol);
    }
    if status != SANE_STATUS_GOOD {
        return Err(Error::Status(status));
    }
    if value < 1 {
        return Err(Error::Protocol);
    }
    Ok(value as usize)
}

/// An open device: the table of its option descriptors, option 0 first.
#[derive(Debug)]
pub struct Handle {
    table: Vec<Descriptor>,
}

impl Handle {
    /// The descriptors of all options, by index.
    pub closed spec fn table(&self) -> Seq<Descriptor> {
        self.table@
    }

    /// The table starts with the count of the options.
    pub open spec fn wf(&self) -> bool {
        self.table().len() >= 1 && self.table()[0].holds_count()
    }

    /// The handle of a device with `count` options, whose descriptors are
    /// given by index.
    ///
    /// `Error::Protocol` unless there are as many descriptors as options, and
    /// the first of them is that of a count.
    pub fn new(count: usize, table: Vec<Descriptor>) -> (r: Result<Handle, Error>)
        ensures
            r is Ok <==> count == table@.len() && count >= 1 && table@[0].holds_count(),
            r matches Ok(h) ==> h.table() == table@ && h.wf(),
            r matches Err(e) ==> e == Error::Protocol,
    {
        if count != table.len() || count < 1 {
            return Err(Error::Protocol);
        }
        if !table[0].is_count() {
            return Err(Error::Protocol);
        }
        Ok(Handle { table })
    }

    /// The value of option 0: the number of options, itself counted.
    pub fn count(&self) -> (count: usize)
        ensures
            count == self.table().len(),
    {
        self.table.len()
    }

    /// The descriptor of the option at `index`, where there is one.
    pub fn get_descriptor(&self, index: usize) -> (r: Option<&Descriptor>)
        ensures
            r is Some <==> index < self.table().len(),
            r matches Some(d) ==> *d == self.table()[index as int],
    {
        if index < self.table.len() {
            Some(&self.table[index])
        } else {
            None
        }
    }

    /// The descriptors of the options that can be set: all but option 0, in
    /// the order of their indices.
    pub fn descriptors(&self) -> (r: Vec<&Descriptor>)
        requires
            self.wf(),
        ensures
            r@.len() == self.table().len() - 1,
            forall|k: int| 0 <= k < r@.len() ==> *#[trigger] r@[k] == self.table()[k + 1],
    {
        let mut out: Vec<&Descriptor> = Vec::new();
        let mut i: usize = 1;
        while i < self.table.len()
            invariant
                1 <= i <= self.table.len(),
                out@.len() == i - 1,
                forall|k: int| 0 <= k < out@.len() ==> *#[trigger] out@[k] == self.table@[k + 1],
            decreases self.table.len() - i,
        {
            out.push(&self.table[i]);
            i = i + 1;
        }
        out
    }

    /// The options that can be set, each with its index and its descriptor.
    ///
    /// The indices run from 1 up to, and not including, the value of option
    /// 0, so there is one option less than that value says.
    pub fn options(&self) -> (r: Vec<Opt<'_>>)
        requires
            self.wf(),
        ensures
            r@.len() == self.table().len() - 1,
            forall|k: int|
                0 <= k < r@.len() ==> {
                    &&& (#[trigger] r@[k]).index == k + 1
                    &&& 1 <= r@[k].index < self.table().len()
                    &&& *r@[k].descriptor == self.table()[k + 1]
                },
    {
        let mut out: Vec<Opt<'_>> = Vec::new();
        let mut i: usize = 1;
        while i < self.table.len()
            invariant
                1 <= i <= self.table.len(),
                out@.len() == i - 1,
                forall|k: int|
                    0 <= k < out@.len() ==> {
                        &&& (#[trigger] out@[k]).index == k + 1
                        &&& *out@[k].descriptor == self.table@[k + 1]
                    },
            decreases self.table.len() - i,
        {
            out.push(Opt { descriptor: &self.table[i], index: i });
            i = i + 1;
        }
        out
    }

    /// The parameters of the image to come, from the status and the values
    /// with which the backend answered.
    pub fn parameters(&self, status: u32, raw: Parameters) -> (r: Result<Parameters, Error>)
        ensures
            match result_of(status) {
                Ok(_) => r matches Ok(p) && p == raw,
                Err(e) => r matches Err(f) && f == e,
            },
    {
        if status != SANE_STATUS_GOOD {
            return Err(Error::Status(status));
        }
        Ok(raw)
    }

    /// A scan pass on this device, from the status with which the backend
    /// answered the start and the parameters that it gave after it. The pass
    /// borrows the handle for as long as it lives.
    ///
    /// Any status but success is the error, and there is no pass. Parameters
    /// that give no byte count are an error as in [`Acquisition::new`].
    pub fn start(&self, status: u32, parameters: Parameters) -> (r: Result<
        Acquisition<'_>,
        Error,
    >)
        ensures
            status != SANE_STATUS_GOOD ==> (r matches Err(e) && e == Error::Status(status)),
            status == SANE_STATUS_GOOD ==> match parameters.size_outcome() {
                Ok(n) => r matches Ok(a) && a@ == AcquisitionState::initial(
                    *self,
                    parameters,
                    n as nat,
                ) && a@.wf(),
                Err(e) => r matches Err(f) && f == e,
            },
    {
        if status != SANE_STATUS_GOOD {
            return Err(Error::Status(status));
        }
        Acquisition::new(self, parameters)
    }
}

} // verus!
