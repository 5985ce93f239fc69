//! Signal sets.

use vstd::prelude::*;
use crate::sys::result::{Error, EINVAL};

verus! {

/// The number of signals that a set has room for.
pub const SIGNALS: i32 = 64;

/// The bit of the set word that stands for the signal at bit position
/// `bit`.
pub open spec fn spec_mask(bit: u64) -> u64 {
    1u64 << bit
}

/// A set of signals for use with signal blocking functions: one bit for
/// each of the signals 1 to 64.
#[allow(non_camel_case_types)]
#[derive(Clone, Copy, Debug)]
pub struct sigset_t {
    sig: [u64; 1],
}

proof fn lemma_bit_set(w: u64, b: u64, c: u64)
    requires
        b < 64,
        c < 64,
    ensures
        ((w | (1u64 << b)) & (1u64 << c) != 0) <==> (b == c || (w & (1u64 << c) != 0)),
{
    assert(b < 64 && c < 64 ==> (((w | (1u64 << b)) & (1u64 << c) != 0) <==> (b == c || (w & (1u64
        << c) != 0)))) by (bit_vector);
}

proof fn lemma_bit_clear(w: u64, b: u64, c: u64)
    requires
        b < 64,
        c < 64,
    ensures
        ((w & !(1u64 << b)) & (1u64 << c) != 0) <==> (b != c && (w & (1u64 << c) != 0)),
{
    assert(b < 64 && c < 64 ==> (((w & !(1u64 << b)) & (1u64 << c) != 0) <==> (b != c && (w & (1u64
        << c) != 0)))) by (bit_vector);
}

proof fn lemma_bit_ends(c: u64)
    requires
        c < 64,
    ensures
        0u64 & (1u64 << c) == 0,
        0xffff_ffff_ffff_ffffu64 & (1u64 << c) != 0,
{
    assert(c < 64 ==> (0u64 & (1u64 << c) == 0 && 0xffff_ffff_ffff_ffffu64 & (1u64 << c) != 0))
        by (bit_vector);
}

impl sigset_t {
    /// Whether the word `w` holds signal `signum`.
    pub open spec fn word_holds(w: u64, signum: int) -> bool {
        1 <= signum <= SIGNALS && (w & spec_mask((signum - 1) as u64)) != 0
    }

    /// The word that holds one bit for each signal.
    pub closed spec fn spec_word(&self) -> u64 {
        self.sig@[0]
    }

    /// Whether signal `signum` is in the set.
    pub open spec fn contains(&self, signum: int) -> bool {
        Self::word_holds(self.spec_word(), signum)
    }

    /// A set with no signal in it.
    pub fn new_empty() -> (s: Self)
        ensures
            forall|signum: int| !s.contains(signum),
    {
        let s = sigset_t { sig: [0] };
        proof {
            assert forall|signum: int| !s.contains(signum) by {
                if 1 <= signum <= SIGNALS {
                    lemma_bit_ends((signum - 1) as u64);
                }
            }
        }
        s
    }

    /// A set with every signal in it.
    pub fn new_filled() -> (s: Self)
        ensures
            forall|signum: int| s.contains(signum) <==> 1 <= signum <= SIGNALS,
    {
        let s = sigset_t { sig: [0xffff_ffff_ffff_ffff] };
        proof {
            assert forall|signum: int| s.contains(signum) <==> 1 <= signum <= SIGNALS by {
                if 1 <= signum <= SIGNALS {
                    lemma_bit_ends((signum - 1) as u64);
                }
            }
        }
        s
    }

    /// Takes every signal out of the set.
    pub fn sigemptyset(&mut self)
        ensures
            forall|signum: int| !final(self).contains(signum),
    {
        self.sig = [0];
        proof {
            assert forall|signum: int| !self.contains(signum) by {
                if 1 <= signum <= SIGNALS {
                    lemma_bit_ends((signum - 1) as u64);
                }
            }
        }
    }

    /// Puts every signal into the set.
    pub fn sigfillset(&mut self)
        ensures
            forall|signum: int| final(self).contains(signum) <==> 1 <= signum <= SIGNALS,
    {
        self.sig = [0xffff_ffff_ffff_ffff];
        proof {
            assert forall|signum: int| self.contains(signum) <==> 1 <= signum <= SIGNALS by {
                if 1 <= signum <= SIGNALS {
                    lemma_bit_ends((signum - 1) as u64);
                }
            }
        }
    }

    /// Puts signal `signum` into the set. A number that names no signal is
    /// refused with "invalid argument" and the set stays as it was.
    pub fn sigaddset(&mut self, signum: i32) -> (r: Result<(), Error>)
        ensures
            r is Ok <==> 1 <= signum <= SIGNALS,
            r is Err ==> r->Err_0 == Error(EINVAL) && final(self).spec_word() == old(
                self,
            ).spec_word(),
            r is Ok ==> forall|s: int|
                final(self).contains(s) <==> (s == signum || old(self).contains(s)),
    {
        match Self::sigpos(signum) {
            Ok((elem, bit)) => {
                let ghost before = self.spec_word();
                let w: u64 = self.sig[0];
                self.sig = [w | (1u64 << bit)];
                proof {
                    assert forall|s: int|
                        self.contains(s) <==> (s == signum || old(self).contains(s)) by {
                        if 1 <= s <= SIGNALS {
                            lemma_bit_set(before, bit as u64, (s - 1) as u64);
                        }
                    }
                }
                Ok(())
            },
            Err(e) => Err(e),
        }
    }

    /// Takes signal `signum` out of the set. A number that names no signal
    /// is refused with "invalid argument" and the set stays as it was.
    pub fn sigdelset(&mut self, signum: i32) -> (r: Result<(), Error>)
        ensures
            r is Ok <==> 1 <= signum <= SIGNALS,
            r is Err ==> r->Err_0 == Error(EINVAL) && final(self).spec_word() == old(
                self,
            ).spec_word(),
            r is Ok ==> forall|s: int|
                final(self).contains(s) <==> (s != signum && old(self).contains(s)),
    {
        match Self::sigpos(signum) {
            Ok((elem, bit)) => {
                let ghost before = self.spec_word();
                let w: u64 = self.sig[0];
                self.sig = [w & !(1u64 << bit)];
                proof {
                    assert forall|s: int|
                        self.contains(s) <==> (s != signum && old(self).contains(s)) by {
                        if 1 <= s <= SIGNALS {
                            lemma_bit_clear(before, bit as u64, (s - 1) as u64);
                        }
                    }
                }
                Ok(())
            },
            Err(e) => Err(e),
        }
    }

    /// Whether signal `signum` is in the set. A number that names no
    /// signal is refused with "invalid argument".
    pub fn sigismember(&mut self, signum: i32) -> (r: Result<bool, Error>)
        ensures
            *final(self) == *old(self),
            r is Ok <==> 1 <= signum <= SIGNALS,
            r is Err ==> r->Err_0 == Error(EINVAL),
            r is Ok ==> r->Ok_0 == old(self).contains(signum as int),
    {
        match Self::sigpos(signum) {
            Ok((elem, bit)) => {
                let w: u64 = self.sig[0];
                Ok((w & (1u64 << bit)) != 0)
            },
            Err(e) => Err(e),
        }
    }

    /// The word that holds the set, as the kernel reads it.
    #[verifier::when_used_as_spec(spec_word)]
    pub fn word(&self) -> (w: u64)
        ensures
            w == self.spec_word(),
    {
        self.sig[0]
    }

    /// The place of signal `signum` in the set: the index of the word and
    /// the position of the bit in it. A number that names no signal is
    /// refused with "invalid argument".
    pub fn sigpos(signum: i32) -> (r: Result<(usize, usize), Error>)
        ensures
            r is Ok <==> 1 <= signum <= SIGNALS,
            r is Err ==> r->Err_0 == Error(EINVAL),
            r is Ok ==> r->Ok_0.0 == 0 && r->Ok_0.1 == signum - 1,
    {
        if signum < 1 || signum > SIGNALS {
            return Err(Error::new(EINVAL));
        }
        let total_bit: usize = (signum - 1) as usize;
        Ok((0, total_bit))
    }
}

} // verus!
