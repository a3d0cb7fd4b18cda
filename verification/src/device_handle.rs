//! An opened device session's claimed-interface tracking. Interface numbers
//! run from 0 to 255; one bit per number records that the interface was
//! claimed on the native side and must be released before the session
//! closes. The native claim/release/close calls themselves, and the mutex
//! that serializes them, live in the surrounding application: it performs
//! the native call first and hands its return code here, so the bitset is
//! mutated exactly when the native side succeeded. Exclusive access
//! (`&mut self`) models holding that mutex.

use vstd::prelude::*;
use vstd::assert_sets_equal;

use crate::error::Error;
use crate::error::ErrorInner;
use crate::error::check;

verus! {

#[derive(Debug)]
pub struct DeviceHandle {
    claimed_interfaces: [u64; 4],
}

impl DeviceHandle {
    /// Whether interface number `n` is recorded as claimed.
    pub closed spec fn spec_claimed(self, n: u8) -> bool {
        (self.claimed_interfaces@[n as int / 64] >> (n as u64 % 64)) & 1 == 1
    }

    /// The set of claimed interface numbers.
    pub open spec fn claimed_set(self) -> Set<u8> {
        Set::new(|m: u8| self.spec_claimed(m))
    }

    /// A fresh session: no interface claimed.
    pub fn new() -> (r: Self)
        ensures
            forall|m: u8| !r.spec_claimed(m),
    {
        let r = DeviceHandle { claimed_interfaces: [0u64, 0u64, 0u64, 0u64] };
        proof {
            assert forall|m: u8| !r.spec_claimed(m) by {
                let b = m as u64 % 64;
                assert((0u64 >> b) & 1 == 0) by (bit_vector);
            }
        }
        r
    }

    /// Whether interface number `n` is recorded as claimed.
    pub fn is_claimed(&self, interface_number: u8) -> (r: bool)
        ensures
            r == self.spec_claimed(interface_number),
    {
        let word: u64 = self.claimed_interfaces[(interface_number / 64) as usize];
        (word >> ((interface_number % 64) as u64)) & 1 == 1
    }

    /// Records the outcome of a native claim call on interface `n`: on a
    /// zero return code the interface is added to the claimed set (a
    /// repeated claim leaves the set as it was: the bit is set exactly
    /// once); on a non-zero code the error is surfaced and nothing changes.
    pub fn claim_interface(&mut self, interface_number: u8, native_code: i32) -> (r: Result<
        (),
        Error,
    >)
        ensures
            native_code == 0 ==> r is Ok && final(self).claimed_set() == old(
                self,
            ).claimed_set().insert(interface_number),
            native_code == 0 ==> forall|m: u8|
                final(self).spec_claimed(m) == (old(self).spec_claimed(m) || m
                    == interface_number),
            native_code != 0 ==> r == Result::<(), Error>::Err(
                Error(ErrorInner::ReturnCode(native_code)),
            ) && *final(self) == *old(self),
    {
        check(native_code)?;

        let word_index: usize = (interface_number / 64) as usize;
        let bit: u64 = (interface_number % 64) as u64;
        let word: u64 = self.claimed_interfaces[word_index];
        let new_word: u64 = word | (1u64 << bit);
        self.claimed_interfaces[word_index] = new_word;

        proof {
            self.lemma_bit_update(*old(self), interface_number, word, new_word);
            assert forall|m: u8|
                self.spec_claimed(m) == (old(self).spec_claimed(m) || m == interface_number) by {
                let mb = m as u64 % 64;
                let nb = interface_number as u64 % 64;
                if m as int / 64 == interface_number as int / 64 {
                    assert(((word | (1u64 << nb)) >> mb) & 1 == 1 <==> ((word >> mb) & 1 == 1 || mb
                        == nb)) by (bit_vector)
                        requires
                            nb < 64,
                            mb < 64,
                    ;
                    assert(m / 64 == interface_number / 64 && m % 64 == interface_number % 64 ==> m
                        == interface_number) by (bit_vector);
                }
            }
            assert_sets_equal!(
                self.claimed_set(),
                old(self).claimed_set().insert(interface_number)
            );
        }
        Ok(())
    }

    /// Records the outcome of a native release call on interface `n`: on a
    /// zero return code the interface is removed from the claimed set; on a
    /// non-zero code the error is surfaced and nothing changes.
    pub fn release_interface(&mut self, interface_number: u8, native_code: i32) -> (r: Result<
        (),
        Error,
    >)
        ensures
            native_code == 0 ==> r is Ok && final(self).claimed_set() == old(
                self,
            ).claimed_set().remove(interface_number),
            native_code == 0 ==> forall|m: u8|
                final(self).spec_claimed(m) == (old(self).spec_claimed(m) && m
                    != interface_number),
            native_code != 0 ==> r == Result::<(), Error>::Err(
                Error(ErrorInner::ReturnCode(native_code)),
            ) && *final(self) == *old(self),
    {
        check(native_code)?;

        let word_index: usize = (interface_number / 64) as usize;
        let bit: u64 = (interface_number % 64) as u64;
        let word: u64 = self.claimed_interfaces[word_index];
        let new_word: u64 = word & !(1u64 << bit);
        self.claimed_interfaces[word_index] = new_word;

        proof {
            self.lemma_bit_update(*old(self), interface_number, word, new_word);
            assert forall|m: u8|
                self.spec_claimed(m) == (old(self).spec_claimed(m) && m != interface_number) by {
                let mb = m as u64 % 64;
                let nb = interface_number as u64 % 64;
                if m as int / 64 == interface_number as int / 64 {
                    assert(((word & !(1u64 << nb)) >> mb) & 1 == 1 <==> ((word >> mb) & 1 == 1 && mb
                        != nb)) by (bit_vector)
                        requires
                            nb < 64,
                            mb < 64,
                    ;
                    assert(m / 64 == interface_number / 64 && m % 64 == interface_number % 64 ==> m
                        == interface_number) by (bit_vector);
                }
            }
            assert_sets_equal!(
                self.claimed_set(),
                old(self).claimed_set().remove(interface_number)
            );
        }
        Ok(())
    }

    /// Helper: after replacing the word holding `n`'s bit, every number in
    /// another word keeps its claimed status.
    proof fn lemma_bit_update(self, prev: Self, n: u8, word: u64, new_word: u64)
        requires
            self.claimed_interfaces@ == prev.claimed_interfaces@.update(n as int / 64, new_word),
            prev.claimed_interfaces@[n as int / 64] == word,
        ensures
            forall|m: u8|
                m as int / 64 != n as int / 64 ==> self.spec_claimed(m) == prev.spec_claimed(m),
            self.claimed_interfaces@[n as int / 64] == new_word,
    {
    }

    /// The still-claimed interface numbers, in increasing order, each once:
    /// the session teardown must attempt one native release per entry (and
    /// ignore individual failures) before closing the session. The list has
    /// exactly one entry per claimed interface.
    pub fn claimed_interface_numbers(&self) -> (r: Vec<u8>)
        ensures
            forall|k: int| 0 <= k < r@.len() ==> self.spec_claimed(#[trigger] r@[k]),
            forall|m: u8| self.spec_claimed(m) ==> r@.contains(m),
            forall|k1: int, k2: int| 0 <= k1 < k2 < r@.len() ==> r@[k1] < r@[k2],
    {
        let mut r: Vec<u8> = Vec::new();
        let mut i: usize = 0;
        while i < 256
            invariant
                i <= 256,
                forall|k: int| 0 <= k < r@.len() ==> self.spec_claimed(#[trigger] r@[k]),
                forall|k: int| 0 <= k < r@.len() ==> r@[k] < i,
                forall|m: u8| m < i && self.spec_claimed(m) ==> r@.contains(m),
                forall|k1: int, k2: int| 0 <= k1 < k2 < r@.len() ==> r@[k1] < r@[k2],
            decreases 256 - i,
        {
            let m = i as u8;
            if self.is_claimed(m) {
                let ghost prev = r@;
                r.push(m);
                proof {
                    assert forall|m0: u8| m0 < i + 1 && self.spec_claimed(m0) implies r@.contains(
                        m0,
                    ) by {
                        if m0 < i {
                            let k = choose|k: int| 0 <= k < prev.len() && prev[k] == m0;
                            assert(r@[k] == m0);
                        } else {
                            assert(r@[prev.len() as int] == m);
                        }
                    }
                }
            }
            i = i + 1;
        }
        r
    }
}

/// The value handed to the native set-configuration call: the requested
/// configuration value, or -1 to return the device to its unconfigured
/// state.
pub fn configuration_to_native(configuration: Option<u8>) -> (r: i32)
    ensures
        match configuration {
            Some(v) => r == v,
            None => r == -1,
        },
{
    match configuration {
        Some(v) => v as i32,
        None => -1,
    }
}

/// The configuration a native get-configuration call reported: the
/// configuration value, zero meaning the device is unconfigured. The
/// native call reports a configuration byte, so the value fits one.
pub fn configuration_from_native(value: i32) -> (r: Option<u8>)
    requires
        0 <= value <= 255,
    ensures
        value == 0 <==> r is None,
        value != 0 ==> r == Some(value as u8),
{
    if value == 0 {
        None
    } else {
        Some(value as u8)
    }
}

/// Claiming an interface twice without releasing leaves the claimed set
/// exactly as one claim does: recording a claim is idempotent, so the
/// second claim cannot corrupt the set, whether the native side accepted
/// it or reported busy (in which case the set is untouched).
pub proof fn lemma_claim_twice_idempotent(s: Set<u8>, n: u8)
    ensures
        s.insert(n).insert(n) == s.insert(n),
{
    assert_sets_equal!(s.insert(n).insert(n), s.insert(n));
}

} // verus!
