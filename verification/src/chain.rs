//! Pointer chains: a base address followed by offsets, each offset but the
//! last leading to a pointer that is read and followed.
//!
//! The walk is written as a sequence of steps, so that the reads can be made
//! by whoever has access to the target: a step either names the address of
//! the pointer that has to be read next, or holds the final address.
use vstd::prelude::*;
use crate::errors::MemoryError;
use crate::memory::{ImageView, MemoryImage, address_view};
use crate::value::{MemoryValue, le4, le8};

verus! {

/// The size in bytes of a pointer of the target: four where the target runs
/// in the 32-bit compatibility mode, eight otherwise.
pub open spec fn pointer_width(is_wow64: bool) -> nat {
    if is_wow64 {
        4
    } else {
        8
    }
}

/// The address that the bytes of a pointer of the target spell.
pub open spec fn pointer_value(bytes: Seq<u8>, is_wow64: bool) -> int {
    if is_wow64 {
        le4(bytes)
    } else {
        le8(bytes)
    }
}

/// A walk that waits for a pointer: what it is made of.
pub struct DerefView {
    /// The whole chain: base, offsets, final offset.
    pub chain: Seq<usize>,
    /// The index of the offset that is added to the pointer once it is read.
    pub next: int,
    /// The address at which the pointer is read.
    pub address: int,
    /// Whether the target has four-byte pointers.
    pub is_wow64: bool,
}

/// A step of a walk: what it is made of.
pub enum StepView {
    /// The pointer at an address has to be read.
    Deref(DerefView),
    /// The walk has reached its final address.
    Done(int),
}

/// Where a walk stands after the offset at `index` was added to `current`:
/// at its end if the offset was the last one, else before the next pointer.
pub open spec fn after_offset(chain: Seq<usize>, index: int, current: int, is_wow64: bool) -> Result<
    StepView,
    MemoryError,
> {
    let address = current + chain[index];
    if address > usize::MAX {
        Err(MemoryError::AddressOutOfBounds)
    } else if index == chain.len() - 1 {
        Ok(StepView::Done(address))
    } else {
        Ok(StepView::Deref(DerefView { chain, next: index + 1, address, is_wow64 }))
    }
}

/// The first step of the walk along `chain`. A chain needs a base and a
/// final offset at least.
pub open spec fn chain_start(chain: Seq<usize>, is_wow64: bool) -> Result<StepView, MemoryError> {
    if chain.len() < 2 {
        Err(MemoryError::AddressOutOfBounds)
    } else {
        after_offset(chain, 1, chain[0] as int, is_wow64)
    }
}

/// The step that follows a read: `transferred` is what the read gave, `None`
/// where it failed.
pub open spec fn chain_resume(pending: DerefView, transferred: Option<Seq<u8>>) -> Result<
    StepView,
    MemoryError,
> {
    match transferred {
        None => Err(MemoryError::ReadMemoryError),
        Some(bytes) => if bytes.len() != pointer_width(pending.is_wow64) {
            Err(MemoryError::ReadMemoryError)
        } else if pointer_value(bytes, pending.is_wow64) > usize::MAX {
            Err(MemoryError::AddressOutOfBounds)
        } else {
            after_offset(
                pending.chain,
                pending.next,
                pointer_value(bytes, pending.is_wow64),
                pending.is_wow64,
            )
        },
    }
}

/// What a read of `size` bytes at `address` gives on an image.
pub open spec fn transfer(image: ImageView, address: int, size: int) -> Option<Seq<u8>> {
    if image.covers(address, size) {
        Some(image.slice(address, size))
    } else {
        None
    }
}

/// The final address of a walk that waits for a pointer, when every read is
/// made on `image`.
pub open spec fn chain_finish(image: ImageView, pending: DerefView) -> Result<int, MemoryError>
    decreases pending.chain.len() - pending.next,
    when pending.next < pending.chain.len()
{
    match chain_resume(
        pending,
        transfer(image, pending.address, pointer_width(pending.is_wow64) as int),
    ) {
        Err(error) => Err(error),
        Ok(StepView::Done(address)) => Ok(address),
        Ok(StepView::Deref(next)) => chain_finish(image, next),
    }
}

/// The final address of a walk from a given step on, when every read is made
/// on `image`.
pub open spec fn chain_outcome(image: ImageView, step: Result<StepView, MemoryError>) -> Result<
    int,
    MemoryError,
> {
    match step {
        Err(error) => Err(error),
        Ok(StepView::Done(address)) => Ok(address),
        Ok(StepView::Deref(pending)) => chain_finish(image, pending),
    }
}

/// The address that `chain` leads to in `image`: start at `chain[0]`; for
/// each offset but the last, add it and replace the address by the pointer
/// read there; at last add the final offset.
pub open spec fn chain_target(image: ImageView, chain: Seq<usize>, is_wow64: bool) -> Result<
    int,
    MemoryError,
> {
    chain_outcome(image, chain_start(chain, is_wow64))
}

/// A chain of a base and one offset leads to their sum, and no pointer is
/// read on the way: the walk is at its end when it starts, whatever the
/// memory holds.
pub proof fn lemma_chain_of_two(image: ImageView, chain: Seq<usize>, is_wow64: bool)
    requires
        chain.len() == 2,
        chain[0] + chain[1] <= usize::MAX,
    ensures
        chain_start(chain, is_wow64) == Ok::<StepView, MemoryError>(
            StepView::Done(chain[0] + chain[1]),
        ),
        chain_target(image, chain, is_wow64) == Ok::<int, MemoryError>(chain[0] + chain[1]),
{
}

/// A chain of a base and two offsets reads exactly one pointer, the one at
/// base plus first offset, and leads to that pointer plus the second offset.
pub proof fn lemma_chain_of_three(chain: Seq<usize>, is_wow64: bool, pointer: Seq<u8>)
    requires
        chain.len() == 3,
        chain[0] + chain[1] <= usize::MAX,
        pointer.len() == pointer_width(is_wow64),
        pointer_value(pointer, is_wow64) + chain[2] <= usize::MAX,
    ensures
        chain_start(chain, is_wow64) == Ok::<StepView, MemoryError>(
            StepView::Deref(
                DerefView { chain, next: 2, address: chain[0] + chain[1], is_wow64 },
            ),
        ),
        chain_resume(
            DerefView { chain, next: 2, address: chain[0] + chain[1], is_wow64 },
            Some(pointer),
        ) == Ok::<StepView, MemoryError>(
            StepView::Done(pointer_value(pointer, is_wow64) + chain[2]),
        ),
{
    assert(pointer_value(pointer, is_wow64) >= 0);
}

/// On an image, a chain of a base and two offsets leads to the pointer
/// stored at base plus first offset, plus the second offset.
pub proof fn lemma_chain_of_three_on_image(image: ImageView, chain: Seq<usize>, is_wow64: bool)
    requires
        chain.len() == 3,
        chain[0] + chain[1] <= usize::MAX,
        image.covers(chain[0] + chain[1], pointer_width(is_wow64) as int),
        pointer_value(
            image.slice(chain[0] + chain[1], pointer_width(is_wow64) as int),
            is_wow64,
        ) + chain[2] <= usize::MAX,
    ensures
        chain_target(image, chain, is_wow64) == Ok::<int, MemoryError>(
            pointer_value(
                image.slice(chain[0] + chain[1], pointer_width(is_wow64) as int),
                is_wow64,
            ) + chain[2],
        ),
{
    let pointer = image.slice(chain[0] + chain[1], pointer_width(is_wow64) as int);
    lemma_chain_of_three(chain, is_wow64, pointer);
}

/// A walk that waits for the pointer at `address()` to be read.
pub struct PendingDeref {
    chain: Vec<usize>,
    next: usize,
    address: usize,
    is_wow64: bool,
}

impl View for PendingDeref {
    type V = DerefView;

    closed spec fn view(&self) -> DerefView {
        DerefView {
            chain: self.chain@,
            next: self.next as int,
            address: self.address as int,
            is_wow64: self.is_wow64,
        }
    }
}

/// A step of a walk along a pointer chain.
pub enum ChainStep {
    /// The pointer at an address has to be read, and the walk resumed with it.
    Deref(PendingDeref),
    /// The walk has reached its final address.
    Done(usize),
}

impl View for ChainStep {
    type V = StepView;

    open spec fn view(&self) -> StepView {
        match self {
            ChainStep::Deref(pending) => StepView::Deref(pending@),
            ChainStep::Done(address) => StepView::Done(*address as int),
        }
    }
}

/// The view of a step that may have failed.
pub open spec fn step_view(step: Result<ChainStep, MemoryError>) -> Result<StepView, MemoryError> {
    match step {
        Ok(step) => Ok(step@),
        Err(error) => Err(error),
    }
}

/// The view of bytes that may be missing.
pub open spec fn bytes_view(bytes: Option<Vec<u8>>) -> Option<Seq<u8>> {
    match bytes {
        Some(bytes) => Some(bytes@),
        None => None,
    }
}

impl PendingDeref {
    /// A walk waits before an offset of its chain.
    pub open spec fn wf(&self) -> bool {
        0 <= self@.next < self@.chain.len() && 0 <= self@.address <= usize::MAX
    }

    #[verifier::type_invariant]
    spec fn inv(self) -> bool {
        self.next < self.chain@.len()
    }

    /// The address of the pointer that has to be read.
    pub fn address(&self) -> (address: usize)
        ensures
            address == self@.address,
            self.wf(),
    {
        proof {
            use_type_invariant(self);
        }
        self.address
    }

    /// The number of bytes that have to be read there.
    pub fn width(&self) -> (width: usize)
        ensures
            width == pointer_width(self@.is_wow64),
            self.wf(),
    {
        proof {
            use_type_invariant(self);
        }
        if self.is_wow64 {
            4
        } else {
            8
        }
    }

    /// Goes on with what the read gave: `None` where it failed, else the
    /// bytes transferred. A failed read, or one of another size than
    /// `width()`, ends the walk with `ReadMemoryError`; a pointer or a sum
    /// that is no address ends it with `AddressOutOfBounds`.
    pub fn resume(self, transferred: Option<Vec<u8>>) -> (step: Result<ChainStep, MemoryError>)
        ensures
            step_view(step) == chain_resume(self@, bytes_view(transferred)),
    {
        proof {
            use_type_invariant(&self);
        }
        let bytes = match transferred {
            Some(bytes) => bytes,
            None => {
                return Err(MemoryError::ReadMemoryError);
            },
        };
        if bytes.len() != self.width() {
            return Err(MemoryError::ReadMemoryError);
        }
        let pointer: u64 = if self.is_wow64 {
            u32::from_bytes(bytes.as_slice()) as u64
        } else {
            u64::from_bytes(bytes.as_slice())
        };
        if pointer > usize::MAX as u64 {
            return Err(MemoryError::AddressOutOfBounds);
        }
        advance(self.chain, self.next, pointer as usize, self.is_wow64)
    }
}

/// Adds the offset at `index` to `current` and says where the walk stands.
fn advance(chain: Vec<usize>, index: usize, current: usize, is_wow64: bool) -> (step: Result<
    ChainStep,
    MemoryError,
>)
    requires
        index < chain@.len(),
    ensures
        step_view(step) == after_offset(chain@, index as int, current as int, is_wow64),
{
    let offset: usize = chain[index];
    if offset > usize::MAX - current {
        return Err(MemoryError::AddressOutOfBounds);
    }
    let address: usize = current + offset;
    if index == chain.len() - 1 {
        Ok(ChainStep::Done(address))
    } else {
        Ok(ChainStep::Deref(PendingDeref { chain, next: index + 1, address, is_wow64 }))
    }
}

/// Starts the walk along `chain` in a target whose pointers take four bytes
/// (`is_wow64`) or eight. A chain of fewer than two elements is refused with
/// `AddressOutOfBounds`.
pub fn start_chain(chain: Vec<usize>, is_wow64: bool) -> (step: Result<ChainStep, MemoryError>)
    ensures
        step_view(step) == chain_start(chain@, is_wow64),
{
    if chain.len() < 2 {
        return Err(MemoryError::AddressOutOfBounds);
    }
    let base: usize = chain[0];
    advance(chain, 1, base, is_wow64)
}

/// Walks from `step` to the end, making every read on `image`.
pub fn finish_chain(image: &MemoryImage, from: Result<ChainStep, MemoryError>) -> (address: Result<
    usize,
    MemoryError,
>)
    ensures
        address_view(address) == chain_outcome(image@, step_view(from)),
{
    let ghost outcome = chain_outcome(image@, step_view(from));
    let mut step = from;
    loop
        invariant
            chain_outcome(image@, step_view(step)) == outcome,
            outcome == chain_outcome(image@, step_view(from)),
        decreases
            match step {
                Ok(ChainStep::Deref(pending)) => pending@.chain.len() - pending@.next + 1,
                _ => 0,
            },
    {
        match step {
            Err(error) => {
                return Err(error);
            },
            Ok(ChainStep::Done(address)) => {
                return Ok(address);
            },
            Ok(ChainStep::Deref(pending)) => {
                let transferred = match image.read_bytes(pending.address(), pending.width()) {
                    Ok(bytes) => Some(bytes),
                    Err(_) => None,
                };
                step = pending.resume(transferred);
            },
        }
    }
}

/// Follows `chain` in `image` and gives the address it leads to.
pub fn resolve_chain(image: &MemoryImage, chain: Vec<usize>, is_wow64: bool) -> (address: Result<
    usize,
    MemoryError,
>)
    ensures
        address_view(address) == chain_target(image@, chain@, is_wow64),
{
    finish_chain(image, start_chain(chain, is_wow64))
}

} // verus!
