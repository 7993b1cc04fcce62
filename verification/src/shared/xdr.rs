//! Addresses as the network writes them: a value's tag, the kind of the address,
//! for an account the type of its key, and the 32 bytes.

use vstd::prelude::*;

use crate::shared::types::{Address, AddressKind};

verus! {

/// The last `count` big-endian digits of a number, in base 256.
pub open spec fn digits(n: nat, count: nat) -> Seq<u8>
    decreases count,
{
    if count == 0 {
        Seq::empty()
    } else {
        digits(n / 256, (count - 1) as nat).push((n % 256) as u8)
    }
}

/// The number that a sequence of big-endian digits stands for.
pub open spec fn number(digits: Seq<u8>) -> nat
    decreases digits.len(),
{
    if digits.len() == 0 {
        0
    } else {
        number(digits.drop_last()) * 256 + digits.last() as nat
    }
}

pub open spec fn power(count: nat) -> nat
    decreases count,
{
    if count == 0 {
        1
    } else {
        256 * power((count - 1) as nat)
    }
}

/// What stands before the 32 bytes.
pub open spec fn header(kind: AddressKind) -> Seq<u8> {
    match kind {
        AddressKind::Account => seq![0u8, 0, 0, 18, 0, 0, 0, 0, 0, 0, 0, 0],
        AddressKind::Contract => seq![0u8, 0, 0, 18, 0, 0, 0, 1],
    }
}

/// An address as the network writes it.
pub open spec fn encoding(address: Address) -> Seq<u8> {
    header(address.kind) + digits(address.hi as nat, 16) + digits(address.lo as nat, 16)
}

proof fn lemma_number_bound(s: Seq<u8>)
    ensures
        number(s) < power(s.len()),
    decreases s.len(),
{
    if s.len() > 0 {
        lemma_number_bound(s.drop_last());
    }
}

proof fn lemma_digits_of_number(s: Seq<u8>)
    ensures
        digits(number(s), s.len()) == s,
    decreases s.len(),
{
    if s.len() > 0 {
        lemma_digits_of_number(s.drop_last());
        assert(s.drop_last().push(s.last()) =~= s);
    }
}

proof fn lemma_number_of_digits(n: nat, count: nat)
    requires
        n < power(count),
    ensures
        digits(n, count).len() == count,
        number(digits(n, count)) == n,
    decreases count,
{
    if count > 0 {
        lemma_number_of_digits(n / 256, (count - 1) as nat);
        let front = digits(n / 256, (count - 1) as nat);
        assert(digits(n, count).drop_last() =~= front);
    }
}

proof fn lemma_power_16()
    ensures
        power(16) == u128::MAX + 1,
{
    reveal_with_fuel(power, 17);
}

/// Different addresses are written differently.
pub proof fn encodings_are_distinct(a: Address, b: Address)
    ensures
        encoding(a) == encoding(b) ==> a == b,
{
    lemma_power_16();
    lemma_number_of_digits(a.hi as nat, 16);
    lemma_number_of_digits(a.lo as nat, 16);
    lemma_number_of_digits(b.hi as nat, 16);
    lemma_number_of_digits(b.lo as nat, 16);
    if encoding(a) == encoding(b) {
        assert(header(a.kind) == header(b.kind)) by {
            assert(encoding(a).len() == encoding(b).len());
        }
        let n = header(a.kind).len() as int;
        assert(header(a.kind).len() == header(b.kind).len());
        assert(a.kind == b.kind);
        assert(digits(a.hi as nat, 16) =~= encoding(a).subrange(n, n + 16));
        assert(digits(b.hi as nat, 16) =~= encoding(b).subrange(n, n + 16));
        assert(digits(a.lo as nat, 16) =~= encoding(a).subrange(n + 16, n + 32));
        assert(digits(b.lo as nat, 16) =~= encoding(b).subrange(n + 16, n + 32));
    }
}

/// The number in 16 bytes.
fn read(bytes: &Vec<u8>, start: usize) -> (r: u128)
    requires
        start + 16 <= bytes.len(),
    ensures
        digits(r as nat, 16) == bytes@.subrange(start as int, start + 16),
{
    let mut n: u128 = 0;
    let mut i: usize = 0;
    proof {
        lemma_power_16();
    }
    while i < 16
        invariant
            i <= 16,
            start + 16 <= bytes.len(),
            n == number(bytes@.subrange(start as int, start + i)),
            power(16) == u128::MAX + 1,
        decreases 16 - i,
    {
        let ghost next = bytes@.subrange(start as int, start + i + 1);
        proof {
            assert(next.drop_last() =~= bytes@.subrange(start as int, start + i));
            lemma_number_bound(next);
            lemma_power_grows((i + 1) as nat, 16);
        }
        n = n * 256 + bytes[start + i] as u128;
        i = i + 1;
    }
    proof {
        lemma_digits_of_number(bytes@.subrange(start as int, start + 16));
    }
    n
}

proof fn lemma_power_grows(a: nat, b: nat)
    requires
        a <= b,
    ensures
        power(a) <= power(b),
    decreases b - a,
{
    if a < b {
        lemma_power_grows(a + 1, b);
    }
}

/// Appends a number as 16 bytes.
fn write(bytes: &mut Vec<u8>, n: u128)
    ensures
        final(bytes)@ == old(bytes)@ + digits(n as nat, 16),
{
    let mut reversed: Vec<u8> = Vec::new();
    let mut rest: u128 = n;
    let mut i: usize = 0;
    assert(digits(n as nat, 16) =~= digits(n as nat, 16) + reversed@.reverse());
    while i < 16
        invariant
            i <= 16,
            reversed.len() == i,
            digits(n as nat, 16) == digits(rest as nat, (16 - i) as nat) + reversed@.reverse(),
        decreases 16 - i,
    {
        let ghost before = reversed@;
        let digit: u8 = (rest % 256) as u8;
        reversed.push(digit);
        proof {
            let front = digits((rest / 256) as nat, (15 - i) as nat);
            assert(digits(rest as nat, (16 - i) as nat) == front.push(digit));
            assert(front.push(digit) + before.reverse() =~= front + reversed@.reverse());
        }
        rest = rest / 256;
        i = i + 1;
    }
    let ghost all = reversed@.reverse();
    assert(digits(n as nat, 16) =~= all);
    while i > 0
        invariant
            i <= 16,
            reversed.len() == 16,
            all == reversed@.reverse(),
            bytes@ == old(bytes)@ + all.take(16 - i),
        decreases i,
    {
        i = i - 1;
        bytes.push(reversed[i]);
        assert(all.take(16 - i) =~= all.take(15 - i).push(reversed@[i as int]));
        assert(bytes@ =~= old(bytes)@ + all.take(16 - i));
    }
    assert(all.take(16) =~= all);
}

/// The address as the network writes it.
pub fn to_bytes(address: &Address) -> (r: Vec<u8>)
    ensures
        r@ == encoding(*address),
{
    let mut bytes: Vec<u8> = match address.kind {
        AddressKind::Account => vec![0, 0, 0, 18, 0, 0, 0, 0, 0, 0, 0, 0],
        AddressKind::Contract => vec![0, 0, 0, 18, 0, 0, 0, 1],
    };
    assert(bytes@ =~= header(address.kind));
    write(&mut bytes, address.hi);
    write(&mut bytes, address.lo);
    bytes
}

/// The address that is written in the bytes; `None` where they are no address.
pub fn from_bytes(bytes: &Vec<u8>) -> (r: Option<Address>)
    ensures
        match r {
            Some(address) => bytes@ == encoding(address),
            None => forall|address: Address| bytes@ != #[trigger] encoding(address),
        },
{
    proof {
        assert forall|address: Address| (#[trigger] encoding(address)).len() == header(
            address.kind,
        ).len() + 32 && encoding(address).take(header(address.kind).len() as int) == header(
            address.kind,
        ) by {
            lemma_power_16();
            lemma_number_of_digits(address.hi as nat, 16);
            lemma_number_of_digits(address.lo as nat, 16);
            assert(encoding(address).take(header(address.kind).len() as int) =~= header(
                address.kind,
            ));
        }
    }
    let kind = if bytes.len() == 44 {
        AddressKind::Account
    } else if bytes.len() == 40 {
        AddressKind::Contract
    } else {
        return None;
    };
    let mut i: usize = 0;
    let last: u8 = match kind {
        AddressKind::Account => 0,
        AddressKind::Contract => 1,
    };
    let start: usize = bytes.len() - 32;
    while i < start
        invariant
            i <= start,
            start == bytes.len() - 32,
            start == header(kind).len(),
            last == (if kind == AddressKind::Account { 0u8 } else { 1u8 }),
            bytes@.take(i as int) == header(kind).take(i as int),
            forall|address: Address| (#[trigger] encoding(address)).len() == header(
                address.kind,
            ).len() + 32 && encoding(address).take(header(address.kind).len() as int) == header(
                address.kind,
            ),
        decreases start - i,
    {
        let expected: u8 = if i == 3 {
            18
        } else if i == 7 {
            last
        } else {
            0
        };
        assert(expected == header(kind)[i as int]);
        if bytes[i] != expected {
            assert forall|address: Address| bytes@ != #[trigger] encoding(address) by {
                if bytes@ == encoding(address) {
                    assert(address.kind == kind);
                    assert(bytes@.take(start as int)[i as int] == header(kind)[i as int]);
                }
            }
            return None;
        }
        assert(bytes@.take(i + 1) =~= bytes@.take(i as int).push(bytes@[i as int]));
        assert(header(kind).take(i + 1) =~= header(kind).take(i as int).push(
            header(kind)[i as int],
        ));
        i = i + 1;
    }
    let address = Address { kind, hi: read(bytes, start), lo: read(bytes, start + 16) };
    assert(header(kind).take(start as int) =~= header(kind));
    assert(bytes@ =~= encoding(address));
    Some(address)
}

} // verus!
