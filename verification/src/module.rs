//! A module of the target: a loaded image with its name, its place in the
//! address space and a copy of its bytes.
use vstd::prelude::*;
use crate::errors::MemoryError;
use crate::memory::{ImageView, MemoryImage, address_view};
use crate::signature::{Signature, find_signature, signature_result};
use crate::tlhelp32::ModuleDescriptor;

verus! {

/// A module together with the bytes that were read from it.
pub struct Module {
    name: String,
    path: String,
    pid: u32,
    image: MemoryImage,
}

/// Judges the transfer of `msize` bytes from `address` on: `transferred` is
/// what the read gave, `None` where the system reported a failure. The
/// image exists exactly when the read gave `msize` bytes and all of them
/// have an address; a shorter or longer run is a failed read.
pub fn read_module(address: usize, msize: usize, transferred: Option<Vec<u8>>) -> (image: Result<
    MemoryImage,
    MemoryError,
>)
    ensures
        match image {
            Ok(image) => transferred matches Some(bytes) && bytes@.len() == msize && address
                + msize <= usize::MAX && image.wf() && image@ == (ImageView {
                base: address as int,
                bytes: bytes@,
            }),
            Err(error) => error == MemoryError::ReadMemoryError && !(transferred matches Some(
                bytes,
            ) && bytes@.len() == msize && address + msize <= usize::MAX),
        },
{
    match transferred {
        Some(bytes) => {
            if bytes.len() != msize {
                return Err(MemoryError::ReadMemoryError);
            }
            match MemoryImage::new(address, bytes) {
                Ok(image) => Ok(image),
                Err(_) => Err(MemoryError::ReadMemoryError),
            }
        },
        None => Err(MemoryError::ReadMemoryError),
    }
}

impl Module {
    /// The name of the module.
    pub closed spec fn spec_name(&self) -> Seq<char> {
        self.name@
    }

    /// The path of the module.
    pub closed spec fn spec_path(&self) -> Seq<char> {
        self.path@
    }

    /// The process that the module belongs to.
    pub closed spec fn spec_pid(&self) -> u32 {
        self.pid
    }

    /// The bytes of the module and their place in the address space.
    pub closed spec fn image(&self) -> ImageView {
        self.image@
    }

    /// Builds the module from its descriptor and from what the read of its
    /// bytes gave (see `read_module`): the read has to give exactly as many
    /// bytes as the descriptor says.
    pub fn new(descriptor: ModuleDescriptor, pid: u32, transferred: Option<Vec<u8>>) -> (module:
        Result<Module, MemoryError>)
        ensures
            match module {
                Ok(module) => {
                    &&& transferred matches Some(bytes) && bytes@.len() == descriptor.size
                        && module.image() == (ImageView {
                        base: descriptor.base_address as int,
                        bytes: bytes@,
                    })
                    &&& descriptor.base_address + descriptor.size <= usize::MAX
                    &&& module.spec_name() == descriptor.name@
                    &&& module.spec_path() == descriptor.path@
                    &&& module.spec_pid() == pid
                },
                Err(error) => error == MemoryError::ReadMemoryError && !(transferred matches Some(
                    bytes,
                ) && bytes@.len() == descriptor.size && descriptor.base_address + descriptor.size
                    <= usize::MAX),
            },
    {
        match read_module(descriptor.base_address, descriptor.size, transferred) {
            Ok(image) => Ok(Module { name: descriptor.name, path: descriptor.path, pid, image }),
            Err(error) => Err(error),
        }
    }

    /// The name of the module.
    pub fn name(&self) -> (name: &str)
        ensures
            name@ == self.spec_name(),
    {
        self.name.as_str()
    }

    /// The path of the module.
    pub fn path(&self) -> (path: &str)
        ensures
            path@ == self.spec_path(),
    {
        self.path.as_str()
    }

    /// The process that the module belongs to.
    pub fn pid(&self) -> (pid: u32)
        ensures
            pid == self.spec_pid(),
    {
        self.pid
    }

    /// The address at which the module is loaded.
    pub fn base_address(&self) -> (address: usize)
        ensures
            address == self.image().base,
    {
        self.image.base_address()
    }

    /// The size of the module in bytes.
    pub fn base_size(&self) -> (size: usize)
        ensures
            size == self.image().bytes.len(),
    {
        self.image.len()
    }

    /// The bytes of the module.
    pub fn data(&self) -> (bytes: &[u8])
        ensures
            bytes@ == self.image().bytes,
    {
        self.image.data()
    }

    /// The bytes of the module with their place in the address space.
    pub fn memory(&self) -> (image: &MemoryImage)
        ensures
            image@ == self.image(),
    {
        &self.image
    }

    /// Searches the module for a signature and gives the address it stands
    /// for (see `find_signature` of the signature module).
    pub fn find_signature(&self, signature: &Signature) -> (result: Result<usize, MemoryError>)
        ensures
            signature_result(self.image(), signature, address_view(result)),
    {
        find_signature(&self.image, signature)
    }
}

} // verus!
