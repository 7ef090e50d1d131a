//! Fixed-size values and the bytes that stand for them in the target's memory.
//!
//! The target is a little-endian machine: the byte at the lowest address is
//! the least significant one.
use vstd::prelude::*;

verus! {

/// The number that the first two bytes spell, least significant first.
pub open spec fn le2(bytes: Seq<u8>) -> int {
    bytes[0] as int + 0x100 * (bytes[1] as int)
}

/// The number that the first four bytes spell, least significant first.
pub open spec fn le4(bytes: Seq<u8>) -> int {
    le2(bytes) + 0x1_0000 * le2(bytes.skip(2))
}

/// The number that the first eight bytes spell, least significant first.
pub open spec fn le8(bytes: Seq<u8>) -> int {
    le4(bytes) + 0x1_0000_0000 * le4(bytes.skip(4))
}

/// The two bytes that spell `n`, least significant first.
pub open spec fn le2_bytes(n: int) -> Seq<u8> {
    seq![(n % 0x100) as u8, (n / 0x100 % 0x100) as u8]
}

/// The four bytes that spell `n`, least significant first.
pub open spec fn le4_bytes(n: int) -> Seq<u8> {
    le2_bytes(n % 0x1_0000) + le2_bytes(n / 0x1_0000)
}

/// The eight bytes that spell `n`, least significant first.
pub open spec fn le8_bytes(n: int) -> Seq<u8> {
    le4_bytes(n % 0x1_0000_0000) + le4_bytes(n / 0x1_0000_0000)
}

/// Spelling a two-byte number and reading it back gives the number.
pub proof fn lemma_le2_round_trip(n: int)
    requires
        0 <= n < 0x1_0000,
    ensures
        le2_bytes(n).len() == 2,
        le2(le2_bytes(n)) == n,
{
}

/// Spelling a four-byte number and reading it back gives the number.
pub proof fn lemma_le4_round_trip(n: int)
    requires
        0 <= n < 0x1_0000_0000,
    ensures
        le4_bytes(n).len() == 4,
        le4(le4_bytes(n)) == n,
{
    let low = n % 0x1_0000;
    let high = n / 0x1_0000;
    lemma_le2_round_trip(low);
    lemma_le2_round_trip(high);
    let bytes = le4_bytes(n);
    assert(bytes.skip(2) =~= le2_bytes(high));
    assert(bytes[0] == le2_bytes(low)[0] && bytes[1] == le2_bytes(low)[1]);
}

/// Spelling an eight-byte number and reading it back gives the number.
pub proof fn lemma_le8_round_trip(n: int)
    requires
        0 <= n < 0x1_0000_0000_0000_0000,
    ensures
        le8_bytes(n).len() == 8,
        le8(le8_bytes(n)) == n,
{
    let low = n % 0x1_0000_0000;
    let high = n / 0x1_0000_0000;
    lemma_le4_round_trip(low);
    lemma_le4_round_trip(high);
    let bytes = le8_bytes(n);
    assert(bytes.skip(4) =~= le4_bytes(high));
    assert(bytes.skip(2).take(2) =~= le4_bytes(low).skip(2).take(2));
    assert(le2(bytes) == le2(le4_bytes(low)));
    assert(le2(bytes.skip(2)) == le2(le4_bytes(low).skip(2)));
}

/// A value of fixed size that can be read from and written to the target's
/// memory.
pub trait MemoryValue: Sized {
    /// The number of bytes that a value takes in the target.
    spec fn width() -> nat;

    /// The value that the first `width()` bytes of `bytes` stand for.
    spec fn decode(bytes: Seq<u8>) -> Self;

    /// The bytes that stand for the value.
    spec fn encode(self) -> Seq<u8>;

    /// A value takes `width()` bytes, and what is read back from them is the
    /// value itself.
    proof fn lemma_round_trip(self)
        ensures
            self.encode().len() == Self::width(),
            Self::decode(self.encode()) == self,
    ;

    /// The number of bytes that a value takes in the target.
    fn size() -> (n: usize)
        ensures
            n == Self::width(),
    ;

    /// Reads a value from exactly as many bytes as it takes.
    fn from_bytes(bytes: &[u8]) -> (value: Self)
        requires
            bytes@.len() == Self::width(),
        ensures
            value == Self::decode(bytes@),
    ;

    /// The bytes that stand for the value.
    fn to_bytes(&self) -> (bytes: Vec<u8>)
        ensures
            bytes@ == self.encode(),
    ;
}

impl MemoryValue for u8 {
    open spec fn width() -> nat {
        1
    }

    open spec fn decode(bytes: Seq<u8>) -> u8 {
        bytes[0]
    }

    open spec fn encode(self) -> Seq<u8> {
        seq![self]
    }

    proof fn lemma_round_trip(self) {
    }

    fn size() -> (n: usize) {
        1
    }

    fn from_bytes(bytes: &[u8]) -> (value: u8) {
        bytes[0]
    }

    fn to_bytes(&self) -> (bytes: Vec<u8>) {
        let mut bytes: Vec<u8> = Vec::new();
        bytes.push(*self);
        assert(bytes@ =~= seq![*self]);
        bytes
    }
}

impl MemoryValue for bool {
    open spec fn width() -> nat {
        1
    }

    open spec fn decode(bytes: Seq<u8>) -> bool {
        bytes[0] != 0
    }

    open spec fn encode(self) -> Seq<u8> {
        seq![if self { 1u8 } else { 0u8 }]
    }

    proof fn lemma_round_trip(self) {
    }

    fn size() -> (n: usize) {
        1
    }

    fn from_bytes(bytes: &[u8]) -> (value: bool) {
        bytes[0] != 0
    }

    fn to_bytes(&self) -> (bytes: Vec<u8>) {
        let mut bytes: Vec<u8> = Vec::new();
        bytes.push(if *self { 1u8 } else { 0u8 });
        assert(bytes@ =~= seq![if *self { 1u8 } else { 0u8 }]);
        bytes
    }
}

/// Reads two bytes, least significant first.
fn read_le2(bytes: &[u8], at: usize) -> (n: u16)
    requires
        at + 2 <= bytes.len(),
    ensures
        n == le2(bytes@.skip(at as int)),
{
    let low: u16 = bytes[at] as u16;
    let high: u16 = bytes[at + 1] as u16;
    low + 0x100 * high
}

/// Reads four bytes, least significant first.
fn read_le4(bytes: &[u8], at: usize) -> (n: u32)
    requires
        at + 4 <= bytes.len(),
    ensures
        n == le4(bytes@.skip(at as int)),
{
    let low: u32 = read_le2(bytes, at) as u32;
    let high: u32 = read_le2(bytes, at + 2) as u32;
    assert(bytes@.skip(at as int).skip(2) =~= bytes@.skip(at + 2));
    low + 0x1_0000 * high
}

/// Reads eight bytes, least significant first.
fn read_le8(bytes: &[u8], at: usize) -> (n: u64)
    requires
        at + 8 <= bytes.len(),
    ensures
        n == le8(bytes@.skip(at as int)),
{
    let low: u64 = read_le4(bytes, at) as u64;
    let high: u64 = read_le4(bytes, at + 4) as u64;
    assert(bytes@.skip(at as int).skip(4) =~= bytes@.skip(at + 4));
    low + 0x1_0000_0000 * high
}

/// Appends the two bytes that spell `n`, least significant first.
fn push_le2(bytes: &mut Vec<u8>, n: u16)
    ensures
        final(bytes)@ == old(bytes)@ + le2_bytes(n as int),
{
    bytes.push((n % 0x100) as u8);
    bytes.push((n / 0x100) as u8);
    assert(bytes@ =~= old(bytes)@ + le2_bytes(n as int));
}

/// Appends the four bytes that spell `n`, least significant first.
fn push_le4(bytes: &mut Vec<u8>, n: u32)
    ensures
        final(bytes)@ == old(bytes)@ + le4_bytes(n as int),
{
    push_le2(bytes, (n % 0x1_0000) as u16);
    push_le2(bytes, (n / 0x1_0000) as u16);
    assert(bytes@ =~= old(bytes)@ + le4_bytes(n as int));
}

/// Appends the eight bytes that spell `n`, least significant first.
fn push_le8(bytes: &mut Vec<u8>, n: u64)
    ensures
        final(bytes)@ == old(bytes)@ + le8_bytes(n as int),
{
    push_le4(bytes, (n % 0x1_0000_0000) as u32);
    push_le4(bytes, (n / 0x1_0000_0000) as u32);
    assert(bytes@ =~= old(bytes)@ + le8_bytes(n as int));
}

impl MemoryValue for u16 {
    open spec fn width() -> nat {
        2
    }

    open spec fn decode(bytes: Seq<u8>) -> u16 {
        le2(bytes) as u16
    }

    open spec fn encode(self) -> Seq<u8> {
        le2_bytes(self as int)
    }

    proof fn lemma_round_trip(self) {
        lemma_le2_round_trip(self as int);
    }

    fn size() -> (n: usize) {
        2
    }

    fn from_bytes(bytes: &[u8]) -> (value: u16) {
        assert(bytes@.skip(0) =~= bytes@);
        read_le2(bytes, 0)
    }

    fn to_bytes(&self) -> (bytes: Vec<u8>) {
        let mut bytes: Vec<u8> = Vec::new();
        push_le2(&mut bytes, *self);
        assert(bytes@ =~= le2_bytes(*self as int));
        bytes
    }
}

impl MemoryValue for u32 {
    open spec fn width() -> nat {
        4
    }

    open spec fn decode(bytes: Seq<u8>) -> u32 {
        le4(bytes) as u32
    }

    open spec fn encode(self) -> Seq<u8> {
        le4_bytes(self as int)
    }

    proof fn lemma_round_trip(self) {
        lemma_le4_round_trip(self as int);
    }

    fn size() -> (n: usize) {
        4
    }

    fn from_bytes(bytes: &[u8]) -> (value: u32) {
        assert(bytes@.skip(0) =~= bytes@);
        read_le4(bytes, 0)
    }

    fn to_bytes(&self) -> (bytes: Vec<u8>) {
        let mut bytes: Vec<u8> = Vec::new();
        push_le4(&mut bytes, *self);
        assert(bytes@ =~= le4_bytes(*self as int));
        bytes
    }
}

impl MemoryValue for u64 {
    open spec fn width() -> nat {
        8
    }

    open spec fn decode(bytes: Seq<u8>) -> u64 {
        le8(bytes) as u64
    }

    open spec fn encode(self) -> Seq<u8> {
        le8_bytes(self as int)
    }

    proof fn lemma_round_trip(self) {
        lemma_le8_round_trip(self as int);
    }

    fn size() -> (n: usize) {
        8
    }

    fn from_bytes(bytes: &[u8]) -> (value: u64) {
        assert(bytes@.skip(0) =~= bytes@);
        read_le8(bytes, 0)
    }

    fn to_bytes(&self) -> (bytes: Vec<u8>) {
        let mut bytes: Vec<u8> = Vec::new();
        push_le8(&mut bytes, *self);
        assert(bytes@ =~= le8_bytes(*self as int));
        bytes
    }
}

/// The signed number that an unsigned four-byte number stands for in two's
/// complement.
pub open spec fn signed4(n: int) -> int {
    if n < 0x8000_0000 {
        n
    } else {
        n - 0x1_0000_0000
    }
}

/// The unsigned four-byte number that stands for a signed one in two's
/// complement.
pub open spec fn unsigned4(n: int) -> int {
    if n >= 0 {
        n
    } else {
        n + 0x1_0000_0000
    }
}

impl MemoryValue for i32 {
    open spec fn width() -> nat {
        4
    }

    open spec fn decode(bytes: Seq<u8>) -> i32 {
        signed4(le4(bytes)) as i32
    }

    open spec fn encode(self) -> Seq<u8> {
        le4_bytes(unsigned4(self as int))
    }

    proof fn lemma_round_trip(self) {
        lemma_le4_round_trip(unsigned4(self as int));
    }

    fn size() -> (n: usize) {
        4
    }

    fn from_bytes(bytes: &[u8]) -> (value: i32) {
        assert(bytes@.skip(0) =~= bytes@);
        let n: u32 = read_le4(bytes, 0);
        if n < 0x8000_0000 {
            n as i32
        } else {
            ((n - 0x8000_0000) as i32) - 0x7fff_ffff - 1
        }
    }

    fn to_bytes(&self) -> (bytes: Vec<u8>) {
        let n: u32 = if *self >= 0 {
            *self as u32
        } else {
            ((*self + 0x7fff_ffff + 1) as u32) + 0x8000_0000
        };
        let mut bytes: Vec<u8> = Vec::new();
        push_le4(&mut bytes, n);
        assert(bytes@ =~= le4_bytes(n as int));
        bytes
    }
}

} // verus!
