//! Byte signatures: a pattern with wildcards that marks a place in a module,
//! and the adjustments that lead from the match to the address wanted.
use vstd::prelude::*;
use crate::errors::MemoryError;
use crate::memory::{ImageView, MemoryImage, address_view};
use crate::value::MemoryValue;

verus! {

/// One position of a pattern.
#[derive(Debug, Clone, Copy, PartialEq, Eq, Structural)]
pub enum PatternToken {
    /// The byte at this position must be this one.
    Byte(u8),
    /// Any byte may stand at this position.
    Wildcard,
}

/// A pattern and the fix-up that turns its match into an address.
#[derive(Debug, Clone)]
pub struct Signature {
    /// A name for messages; it takes no part in the search.
    pub name: String,
    /// The tokens, compared with successive bytes of the image.
    pub pattern: Vec<PatternToken>,
    /// Signed adjustments, added to the match address one after the other.
    pub offsets: Vec<isize>,
    /// A last signed adjustment, added once after the offsets.
    pub extra: isize,
    /// The address found is taken as it is; it needs no fix-up.
    pub relative: bool,
    /// The address found holds a displacement relative to the end of its
    /// instruction, which is resolved.
    pub rip_relative: bool,
    /// The number of bytes from the displacement to the end of its
    /// instruction.
    pub rip_offset: usize,
}

/// Whether a token accepts a byte.
pub open spec fn token_matches(token: PatternToken, byte: u8) -> bool {
    match token {
        PatternToken::Wildcard => true,
        PatternToken::Byte(wanted) => wanted == byte,
    }
}

/// Whether the whole pattern lies inside the image from `position` on and
/// every token accepts its byte.
pub open spec fn matches_at(image: Seq<u8>, pattern: Seq<PatternToken>, position: int) -> bool {
    &&& 0 <= position
    &&& position + pattern.len() <= image.len()
    &&& forall|j: int|
        0 <= j < pattern.len() ==> token_matches(#[trigger] pattern[j], image[position + j])
}

/// Whether `position` is where the pattern matches first.
pub open spec fn first_match(image: Seq<u8>, pattern: Seq<PatternToken>, position: int) -> bool {
    &&& matches_at(image, pattern, position)
    &&& forall|earlier: int| 0 <= earlier < position ==> !matches_at(image, pattern, earlier)
}

/// Whether the pattern matches nowhere.
pub open spec fn no_match(image: Seq<u8>, pattern: Seq<PatternToken>) -> bool {
    forall|position: int| !matches_at(image, pattern, position)
}

/// The address reached from `address` by adding the adjustments one after
/// the other, or `None` as soon as one of them leads outside the image.
pub open spec fn adjusted(image: ImageView, address: int, deltas: Seq<isize>) -> Option<int>
    decreases deltas.len(),
{
    if deltas.len() == 0 {
        Some(address)
    } else {
        let next = address + deltas[0];
        if image.covers(next, 1) {
            adjusted(image, next, deltas.skip(1))
        } else {
            None
        }
    }
}

/// The absolute address that a displacement at `address` refers to: the
/// address, plus the length of the rest of the instruction, plus the signed
/// four-byte displacement stored there.
pub open spec fn rip_target(image: ImageView, address: int, rip_offset: int) -> Result<
    int,
    MemoryError,
> {
    let target = address + rip_offset + image.value_at::<i32>(address);
    if image.covers(address, 4) && 0 <= target <= usize::MAX {
        Ok(target)
    } else {
        Err(MemoryError::RIPRelativeFailed)
    }
}

/// The address that a signature gives once its pattern was found at
/// `position` of the image.
pub open spec fn located(image: ImageView, signature: &Signature, position: int) -> Result<
    int,
    MemoryError,
> {
    match adjusted(image, image.base + position, signature.offsets@.push(signature.extra)) {
        None => Err(MemoryError::AddressOutOfBounds),
        Some(address) => if signature.rip_relative {
            rip_target(image, address, signature.rip_offset as int)
        } else {
            Ok(address)
        },
    }
}

/// What a search for a signature in an image comes to.
pub open spec fn signature_result(
    image: ImageView,
    signature: &Signature,
    result: Result<int, MemoryError>,
) -> bool {
    ||| no_match(image.bytes, signature.pattern@) && result == Err::<int, MemoryError>(
        MemoryError::SignatureNotFound,
    )
    ||| exists|position: int|
        first_match(image.bytes, signature.pattern@, position) && result == located(
            image,
            signature,
            position,
        )
}

/// First-match policy: the pattern has at most one first match, so a search
/// has one answer.
pub proof fn lemma_first_match_is_unique(
    image: Seq<u8>,
    pattern: Seq<PatternToken>,
    position: int,
    other: int,
)
    requires
        first_match(image, pattern, position),
        first_match(image, pattern, other),
    ensures
        position == other,
{
    if position < other {
        assert(!matches_at(image, pattern, position));
    } else if other < position {
        assert(!matches_at(image, pattern, other));
    }
}

/// A search for a signature has exactly one outcome.
pub proof fn lemma_signature_result_is_unique(
    image: ImageView,
    signature: &Signature,
    first: Result<int, MemoryError>,
    second: Result<int, MemoryError>,
)
    requires
        signature_result(image, signature, first),
        signature_result(image, signature, second),
    ensures
        first == second,
{
    let bytes = image.bytes;
    let pattern = signature.pattern@;
    if exists|position: int| first_match(bytes, pattern, position) {
        let found = choose|position: int| first_match(bytes, pattern, position);
        assert(matches_at(bytes, pattern, found));
        assert(!no_match(bytes, pattern));
        let p = choose|position: int|
            first_match(bytes, pattern, position) && first == located(image, signature, position);
        let q = choose|position: int|
            first_match(bytes, pattern, position) && second == located(image, signature, position);
        lemma_first_match_is_unique(bytes, pattern, p, q);
    }
}

/// Instruction-relative fix-up: where the four bytes at address `address`
/// spell the displacement `displacement`, least significant byte first, and
/// the instruction ends `rip_offset` bytes after `address`, the target is
/// exactly `address + rip_offset + displacement`, whatever the sign of the
/// displacement, as long as that is an address.
pub proof fn lemma_rip_target_is_exact(
    image: ImageView,
    address: int,
    rip_offset: int,
    displacement: i32,
)
    requires
        image.covers(address, 4),
        image.slice(address, 4) == displacement.encode(),
        0 <= address + rip_offset + displacement <= usize::MAX,
    ensures
        rip_target(image, address, rip_offset) == Ok::<int, MemoryError>(
            address + rip_offset + displacement,
        ),
{
    displacement.lemma_round_trip();
}

/// Whether a token accepts a byte.
pub fn token_accepts(token: PatternToken, byte: u8) -> (accepts: bool)
    ensures
        accepts == token_matches(token, byte),
{
    match token {
        PatternToken::Wildcard => true,
        PatternToken::Byte(wanted) => wanted == byte,
    }
}

/// Whether the pattern matches the image at `position`.
pub fn pattern_matches_at(image: &[u8], pattern: &[PatternToken], position: usize) -> (matches:
    bool)
    ensures
        matches == matches_at(image@, pattern@, position as int),
{
    if pattern.len() > image.len() || position > image.len() - pattern.len() {
        return false;
    }
    let mut j: usize = 0;
    while j < pattern.len()
        invariant
            j <= pattern.len(),
            position + pattern.len() <= image.len(),
            forall|k: int|
                0 <= k < j ==> token_matches(#[trigger] pattern@[k], image@[position + k]),
        decreases pattern.len() - j,
    {
        if !token_accepts(pattern[j], image[position + j]) {
            return false;
        }
        j += 1;
    }
    true
}

/// The first position at which the pattern matches the image, if there is
/// one. A pattern that would run past the end of the image does not match.
pub fn find_pattern(image: &[u8], pattern: &[PatternToken]) -> (found: Option<usize>)
    ensures
        match found {
            Some(position) => first_match(image@, pattern@, position as int),
            None => no_match(image@, pattern@),
        },
{
    if pattern.len() > image.len() {
        return None;
    }
    let last: usize = image.len() - pattern.len();
    let mut position: usize = 0;
    while position <= last
        invariant
            position <= last + 1,
            last == image.len() - pattern.len(),
            forall|earlier: int| 0 <= earlier < position ==> !matches_at(image@, pattern@, earlier),
        decreases last + 1 - position,
    {
        if pattern_matches_at(image, pattern, position) {
            return Some(position);
        }
        position += 1;
    }
    None
}

/// Adds the adjustments to `address` one after the other, and stops as soon
/// as one of them leads outside the image.
fn adjust(image: &MemoryImage, address: usize, offsets: &[isize], extra: isize) -> (reached:
    Option<usize>)
    ensures
        match reached {
            Some(reached) => adjusted(image@, address as int, offsets@.push(extra)) == Some(
                reached as int,
            ),
            None => adjusted(image@, address as int, offsets@.push(extra)) == None::<int>,
        },
{
    let ghost deltas = offsets@.push(extra);
    let mut current: usize = address;
    let mut i: usize = 0;
    assert(deltas.skip(0) =~= deltas);
    while i < offsets.len()
        invariant
            i <= offsets.len(),
            deltas == offsets@.push(extra),
            adjusted(image@, address as int, deltas) == adjusted(
                image@,
                current as int,
                deltas.skip(i as int),
            ),
        decreases offsets.len() - i,
    {
        assert(deltas.skip(i as int)[0] == offsets@[i as int]);
        assert(deltas.skip(i as int).skip(1) =~= deltas.skip(i + 1));
        match step(image, current, offsets[i]) {
            Some(next) => {
                current = next;
            },
            None => {
                return None;
            },
        }
        i += 1;
    }
    let ghost rest = deltas.skip(i as int);
    assert(rest.len() == 1 && rest[0] == extra);
    assert(adjusted(image@, current + extra, rest.skip(1)) == Some(current + extra));
    step(image, current, extra)
}

/// Adds one adjustment to `address`, if that leads to a byte of the image.
fn step(image: &MemoryImage, address: usize, delta: isize) -> (next: Option<usize>)
    ensures
        match next {
            Some(next) => next == address + delta && image@.covers(address + delta, 1),
            None => !image@.covers(address + delta, 1),
        },
{
    let base: usize = image.base_address();
    let size: usize = image.len();
    let moved: i128 = address as i128 + delta as i128;
    if moved < base as i128 || moved >= base as i128 + size as i128 {
        None
    } else {
        Some(moved as usize)
    }
}

/// Resolves the displacement stored at `address`.
fn resolve_rip(image: &MemoryImage, address: usize, rip_offset: usize) -> (target: Result<
    usize,
    MemoryError,
>)
    ensures
        address_view(target) == rip_target(image@, address as int, rip_offset as int),
{
    match image.read::<i32>(address) {
        Ok(displacement) => {
            let target: i128 = address as i128 + rip_offset as i128 + displacement as i128;
            if target < 0 || target > usize::MAX as i128 {
                Err(MemoryError::RIPRelativeFailed)
            } else {
                Ok(target as usize)
            }
        },
        Err(_) => Err(MemoryError::RIPRelativeFailed),
    }
}

/// Searches the image for the signature and gives the address it stands
/// for.
///
/// The pattern is looked for position by position; the first match counts.
/// Its absolute address is the base of the image plus the position. The
/// offsets are added to it one after the other, then `extra`; each address
/// reached on the way must be that of a byte of the image. With
/// `rip_relative` the four bytes at the address reached are read as a signed
/// displacement, and the result is that address plus `rip_offset` plus the
/// displacement. Otherwise the address reached is the result.
pub fn find_signature(image: &MemoryImage, signature: &Signature) -> (result: Result<
    usize,
    MemoryError,
>)
    ensures
        signature_result(image@, signature, address_view(result)),
{
    let position = match find_pattern(image.data(), signature.pattern.as_slice()) {
        Some(position) => position,
        None => {
            return Err(MemoryError::SignatureNotFound);
        },
    };
    let start: usize = image.base_address() + position;
    let result = match adjust(image, start, signature.offsets.as_slice(), signature.extra) {
        None => Err(MemoryError::AddressOutOfBounds),
        Some(address) => if signature.rip_relative {
            resolve_rip(image, address, signature.rip_offset)
        } else {
            Ok(address)
        },
    };
    assert(address_view(result) == located(image@, signature, position as int));
    result
}

} // verus!
