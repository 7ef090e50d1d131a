//! A captured range of the target's address space.
//!
//! The host transfers bytes between the target and an image; every typed
//! read and write of the library works on the image, so that what a read
//! returns and what a write changes is stated over plain bytes.
use vstd::prelude::*;
use crate::errors::MemoryError;
use crate::value::MemoryValue;

verus! {

/// What an image holds: the address of its first byte and the bytes from
/// there on.
pub struct ImageView {
    pub base: int,
    pub bytes: Seq<u8>,
}

impl ImageView {
    /// The address one past the last byte.
    pub open spec fn end(self) -> int {
        self.base + self.bytes.len()
    }

    /// Whether the `size` bytes from `address` on all lie inside the image.
    pub open spec fn covers(self, address: int, size: int) -> bool {
        0 <= size && self.base <= address && address + size <= self.end()
    }

    /// The `size` bytes from `address` on.
    pub open spec fn slice(self, address: int, size: int) -> Seq<u8> {
        self.bytes.subrange(address - self.base, address - self.base + size)
    }

    /// The image after `data` was written from `address` on.
    pub open spec fn store(self, address: int, data: Seq<u8>) -> ImageView {
        ImageView {
            base: self.base,
            bytes: Seq::new(
                self.bytes.len(),
                |i: int|
                    if address - self.base <= i < address - self.base + data.len() {
                        data[i - (address - self.base)]
                    } else {
                        self.bytes[i]
                    },
            ),
        }
    }

    /// The value of type `T` that the bytes from `address` on stand for.
    pub open spec fn value_at<T: MemoryValue>(self, address: int) -> T {
        T::decode(self.slice(address, T::width() as int))
    }
}

/// An address that may be missing, as a mathematical integer.
pub open spec fn address_view(address: Result<usize, MemoryError>) -> Result<int, MemoryError> {
    match address {
        Ok(address) => Ok(address as int),
        Err(error) => Err(error),
    }
}

/// A run of bytes of the target together with the address it was taken from.
pub struct MemoryImage {
    base: usize,
    bytes: Vec<u8>,
}

impl View for MemoryImage {
    type V = ImageView;

    closed spec fn view(&self) -> ImageView {
        ImageView { base: self.base as int, bytes: self.bytes@ }
    }
}

impl MemoryImage {
    /// Every byte of an image has an address.
    pub open spec fn wf(&self) -> bool {
        0 <= self@.base && self@.end() <= usize::MAX
    }

    #[verifier::type_invariant]
    spec fn inv(self) -> bool {
        self.base + self.bytes@.len() <= usize::MAX
    }

    /// The image of `bytes` taken from `base` on. It is refused where the
    /// last byte would lie beyond the address space.
    pub fn new(base: usize, bytes: Vec<u8>) -> (image: Result<MemoryImage, MemoryError>)
        ensures
            match image {
                Ok(image) => base + bytes@.len() <= usize::MAX && image.wf() && image@ == (
                ImageView { base: base as int, bytes: bytes@ }),
                Err(error) => base + bytes@.len() > usize::MAX && error
                    == MemoryError::AddressOutOfBounds,
            },
    {
        if bytes.len() > usize::MAX - base {
            Err(MemoryError::AddressOutOfBounds)
        } else {
            Ok(MemoryImage { base, bytes })
        }
    }

    /// The address of the first byte.
    pub fn base_address(&self) -> (base: usize)
        ensures
            base == self@.base,
            self.wf(),
    {
        proof {
            use_type_invariant(self);
        }
        self.base
    }

    /// The number of bytes.
    pub fn len(&self) -> (len: usize)
        ensures
            len == self@.bytes.len(),
            self.wf(),
    {
        proof {
            use_type_invariant(self);
        }
        self.bytes.len()
    }

    /// The bytes, the one at the base address first.
    pub fn data(&self) -> (bytes: &[u8])
        ensures
            bytes@ == self@.bytes,
            self.wf(),
    {
        proof {
            use_type_invariant(self);
        }
        self.bytes.as_slice()
    }

    /// Whether the `size` bytes from `address` on all lie inside the image.
    pub fn covers(&self, address: usize, size: usize) -> (inside: bool)
        ensures
            inside == self@.covers(address as int, size as int),
    {
        proof {
            use_type_invariant(self);
        }
        address >= self.base && size <= self.bytes.len() && address - self.base
            <= self.bytes.len() - size
    }

    /// Reads `length` bytes from `address` on. The read succeeds exactly
    /// when all of them lie inside the image; no shorter run is ever
    /// returned.
    pub fn read_bytes(&self, address: usize, length: usize) -> (bytes: Result<
        Vec<u8>,
        MemoryError,
    >)
        ensures
            match bytes {
                Ok(bytes) => self@.covers(address as int, length as int) && bytes@
                    == self@.slice(address as int, length as int),
                Err(error) => !self@.covers(address as int, length as int) && error
                    == MemoryError::ReadMemoryError,
            },
    {
        if !self.covers(address, length) {
            return Err(MemoryError::ReadMemoryError);
        }
        let start: usize = address - self.base;
        let mut bytes: Vec<u8> = Vec::new();
        let mut i: usize = 0;
        while i < length
            invariant
                i <= length,
                start + length <= self.bytes.len(),
                bytes@ == self.bytes@.subrange(start as int, start + i),
            decreases length - i,
        {
            bytes.push(self.bytes[start + i]);
            assert(bytes@ =~= self.bytes@.subrange(start as int, start + i + 1));
            i += 1;
        }
        Ok(bytes)
    }

    /// Writes `data` from `address` on. The write succeeds exactly when all
    /// of it lies inside the image; otherwise nothing is written.
    pub fn write_bytes(&mut self, address: usize, data: &[u8]) -> (written: Result<
        (),
        MemoryError,
    >)
        ensures
            match written {
                Ok(_) => old(self)@.covers(address as int, data@.len() as int) && final(self)@
                    == old(self)@.store(address as int, data@),
                Err(error) => !old(self)@.covers(address as int, data@.len() as int) && error
                    == MemoryError::WriteMemoryError && final(self)@ == old(self)@,
            },
            final(self).wf(),
    {
        proof {
            use_type_invariant(&*self);
        }
        if !self.covers(address, data.len()) {
            return Err(MemoryError::WriteMemoryError);
        }
        let start: usize = address - self.base;
        let length: usize = data.len();
        let mut bytes: Vec<u8> = Vec::new();
        core::mem::swap(&mut self.bytes, &mut bytes);
        let ghost before = bytes@;
        let mut i: usize = 0;
        while i < length
            invariant
                i <= length,
                length == data@.len(),
                bytes.len() == before.len(),
                start + length <= bytes.len(),
                forall|k: int|
                    0 <= k < before.len() ==> bytes@[k] == if start <= k < start + i {
                        data@[k - start]
                    } else {
                        before[k]
                    },
            decreases length - i,
        {
            bytes.set(start + i, data[i]);
            i += 1;
        }
        self.bytes = bytes;
        assert(self@.bytes =~= old(self)@.store(address as int, data@).bytes);
        Ok(())
    }

    /// Reads a value of type `T` at `address`: all of its bytes or none.
    pub fn read<T: MemoryValue>(&self, address: usize) -> (value: Result<T, MemoryError>)
        ensures
            match value {
                Ok(value) => self@.covers(address as int, T::width() as int) && value
                    == self@.value_at::<T>(address as int),
                Err(error) => !self@.covers(address as int, T::width() as int) && error
                    == MemoryError::ReadMemoryError,
            },
    {
        match self.read_bytes(address, T::size()) {
            Ok(bytes) => Ok(T::from_bytes(bytes.as_slice())),
            Err(error) => Err(error),
        }
    }

    /// Writes `value` at `address`: all of its bytes or none.
    pub fn write<T: MemoryValue>(&mut self, address: usize, value: T) -> (written: Result<
        (),
        MemoryError,
    >)
        ensures
            match written {
                Ok(_) => old(self)@.covers(address as int, T::width() as int) && final(self)@
                    == old(self)@.store(address as int, value.encode()),
                Err(error) => !old(self)@.covers(address as int, T::width() as int) && error
                    == MemoryError::WriteMemoryError && final(self)@ == old(self)@,
            },
            final(self).wf(),
    {
        proof {
            value.lemma_round_trip();
        }
        let bytes = value.to_bytes();
        self.write_bytes(address, bytes.as_slice())
    }
}

/// What was written is what is read back: after `data` was stored at
/// `address`, the bytes from `address` on are `data`.
pub proof fn lemma_store_then_slice(image: ImageView, address: int, data: Seq<u8>)
    requires
        image.covers(address, data.len() as int),
    ensures
        image.store(address, data).covers(address, data.len() as int),
        image.store(address, data).slice(address, data.len() as int) == data,
{
    assert(image.store(address, data).slice(address, data.len() as int) =~= data);
}

/// A write leaves every byte outside the written run as it was.
pub proof fn lemma_store_keeps_the_rest(image: ImageView, address: int, data: Seq<u8>, other: int)
    requires
        image.covers(address, data.len() as int),
        image.covers(other, 1),
        other < address || address + data.len() <= other,
    ensures
        image.store(address, data).slice(other, 1) == image.slice(other, 1),
{
    assert(image.store(address, data).slice(other, 1) =~= image.slice(other, 1));
}

/// Round trip: for every value and every address at which it can be
/// written, writing the value and then reading one of its type at the same
/// address gives the value back.
pub proof fn lemma_write_then_read<T: MemoryValue>(image: ImageView, address: int, value: T)
    requires
        image.covers(address, T::width() as int),
    ensures
        image.store(address, value.encode()).covers(address, T::width() as int),
        image.store(address, value.encode()).value_at::<T>(address) == value,
{
    value.lemma_round_trip();
    lemma_store_then_slice(image, address, value.encode());
}

} // verus!
