use vstd::prelude::*;

verus! {

broadcast use vstd::array::group_array_axioms;

/// The index of the first NUL byte at or after `i`, or the length when
/// there is none.
pub open spec fn nul_from(s: Seq<u8>, i: int) -> int
    decreases s.len() - i,
{
    if i < 0 || i >= s.len() {
        s.len() as int
    } else if s[i] == 0 {
        i
    } else {
        nul_from(s, i + 1)
    }
}

/// The text that a NUL-terminated byte buffer holds: the bytes before the
/// first NUL, or all of them when there is none.
pub open spec fn text_of(s: Seq<u8>) -> Seq<u8> {
    s.subrange(0, nul_from(s, 0))
}

proof fn lemma_nul_from_bounds(s: Seq<u8>, i: int)
    requires
        0 <= i <= s.len(),
    ensures
        i <= nul_from(s, i) <= s.len(),
        forall|j: int| i <= j < nul_from(s, i) ==> s[j] != 0,
        nul_from(s, i) < s.len() ==> s[nul_from(s, i)] == 0,
    decreases s.len() - i,
{
    if i < s.len() && s[i] != 0 {
        lemma_nul_from_bounds(s, i + 1);
    }
}

/// A fixed-capacity, NUL-terminated string as it is laid out in memory.
#[derive(Clone, Copy, Debug)]
pub struct ArrayCString<const N: usize> {
    pub bytes: [u8; N],
}

impl<const N: usize> View for ArrayCString<N> {
    type V = Seq<u8>;

    open spec fn view(&self) -> Seq<u8> {
        text_of(self.bytes@)
    }
}

impl<const N: usize> ArrayCString<N> {
    /// Wraps a buffer as read from memory.
    pub fn new(bytes: [u8; N]) -> (r: Self)
        ensures
            r.bytes == bytes,
    {
        ArrayCString { bytes }
    }

    /// The number of bytes before the first NUL.
    pub fn len(&self) -> (r: usize)
        ensures
            r == self@.len(),
            r <= N,
    {
        let ghost s = self.bytes@;
        let mut i: usize = 0;
        while i < N
            invariant
                s == self.bytes@,
                s.len() == N,
                0 <= i <= N,
                nul_from(s, 0) == nul_from(s, i as int),
            decreases N - i,
        {
            if self.bytes[i] == 0 {
                proof {
                    lemma_nul_from_bounds(s, 0);
                }
                return i;
            }
            i = i + 1;
        }
        proof {
            lemma_nul_from_bounds(s, 0);
        }
        N
    }

    /// Whether the string holds no byte before its terminator.
    pub fn is_empty(&self) -> (r: bool)
        ensures
            r == (self@.len() == 0),
    {
        proof {
            lemma_nul_from_bounds(self.bytes@, 0);
        }
        N == 0 || self.bytes[0] == 0
    }

    /// Whether the string's text is exactly `pattern`.
    pub fn matches(&self, pattern: &[u8]) -> (r: bool)
        ensures
            r == (self@ == pattern@),
    {
        let n = self.len();
        if n != pattern.len() {
            return false;
        }
        proof {
            lemma_nul_from_bounds(self.bytes@, 0);
        }
        let mut i: usize = 0;
        while i < n
            invariant
                n == self@.len(),
                n == pattern@.len(),
                n <= N,
                self@ == self.bytes@.subrange(0, n as int),
                0 <= i <= n,
                forall|j: int| 0 <= j < i ==> self@[j] == pattern@[j],
            decreases n - i,
        {
            if self.bytes[i] != pattern[i] {
                return false;
            }
            i = i + 1;
        }
        proof {
            assert(self@ =~= pattern@);
        }
        true
    }

    /// Whether two strings hold the same text, whatever lies after their
    /// terminators.
    pub fn same_text(&self, other: &Self) -> (r: bool)
        ensures
            r == (self@ == other@),
    {
        let n = self.len();
        let m = other.len();
        if n != m {
            return false;
        }
        proof {
            lemma_nul_from_bounds(self.bytes@, 0);
            lemma_nul_from_bounds(other.bytes@, 0);
        }
        let mut i: usize = 0;
        while i < n
            invariant
                n == self@.len(),
                n == other@.len(),
                n <= N,
                self@ == self.bytes@.subrange(0, n as int),
                other@ == other.bytes@.subrange(0, n as int),
                0 <= i <= n,
                forall|j: int| 0 <= j < i ==> self@[j] == other@[j],
            decreases n - i,
        {
            if self.bytes[i] != other.bytes[i] {
                assert(self@[i as int] != other@[i as int]);
                return false;
            }
            i = i + 1;
        }
        proof {
            assert(self@ =~= other@);
        }
        true
    }
}

} // verus!
