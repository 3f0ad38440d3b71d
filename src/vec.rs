use vstd::prelude::*;

use crate::{Validated, ValidatedWrapper};

verus! {

/// Why a sequence was refused as a customized vector.
#[derive(Debug, Clone, Copy, PartialEq, Eq, Structural)]
pub enum ValidatedCustomizedVecError {
    /// The sequence is longer than allowed.
    Overflow,
    /// The sequence is shorter than allowed.
    Underflow,
    /// There is no textual form to build the sequence from.
    NotSupport,
    /// The raw value could not be decoded into text.
    DecodeError,
}

/// Whether `e` is the error reported for a length `len` outside `[min, max]`:
/// `Overflow` when it is longer than `max`, else `Underflow`.
pub open spec fn length_rejects_with(max: int, len: int, e: ValidatedCustomizedVecError) -> bool {
    if len > max {
        e is Overflow
    } else {
        e is Underflow
    }
}

/// The parts joined with `", "` between each two.
pub open spec fn join_with_commas(parts: Seq<Seq<char>>) -> Seq<char>
    decreases parts.len(),
{
    if parts.len() == 0 {
        Seq::empty()
    } else if parts.len() == 1 {
        parts[0]
    } else {
        join_with_commas(parts.drop_last()) + seq![',', ' '] + parts.last()
    }
}

/// `[a, b, c]` for the parts `a`, `b`, `c`.
pub open spec fn bracketed_list(parts: Seq<Seq<char>>) -> Seq<char> {
    seq!['['] + join_with_commas(parts) + seq![']']
}

/// The display forms of the elements, in order.
pub open spec fn display_views<T: Validated>(items: Seq<T>) -> Seq<Seq<char>> {
    items.map_values(|t: T| t.display_view())
}

/// A sequence of validated values whose length lies within the bounds it was
/// built with. The elements are not checked again.
#[derive(Debug, Clone)]
pub struct RangedLengthVec<T> {
    v: Vec<T>,
    min: usize,
    max: usize,
}

impl<T> View for RangedLengthVec<T> {
    type V = Seq<T>;

    closed spec fn view(&self) -> Seq<T> {
        self.v@
    }
}

impl<T> RangedLengthVec<T> {
    pub closed spec fn min_len(&self) -> int {
        self.min as int
    }

    pub closed spec fn max_len(&self) -> int {
        self.max as int
    }

    /// The length lies within the bounds.
    pub open spec fn wf(&self) -> bool {
        self.min_len() <= self@.len() <= self.max_len()
    }

    pub fn from_vec(min: usize, max: usize, from_vec_input: Vec<T>) -> (r: Result<
        RangedLengthVec<T>,
        ValidatedCustomizedVecError,
    >)
        ensures
            r is Ok <==> min <= from_vec_input@.len() <= max,
            r matches Ok(x) ==> x@ == from_vec_input@ && x.min_len() == min && x.max_len() == max
                && x.wf(),
            r matches Err(e) ==> length_rejects_with(max as int, from_vec_input@.len() as int, e),
    {
        let len = from_vec_input.len();
        if len > max {
            Err(ValidatedCustomizedVecError::Overflow)
        } else if len < min {
            Err(ValidatedCustomizedVecError::Underflow)
        } else {
            Ok(RangedLengthVec { v: from_vec_input, min, max })
        }
    }

    pub fn as_vec(&self) -> (r: &Vec<T>)
        ensures
            r@ == self@,
    {
        &self.v
    }

    pub fn into_vec(self) -> (r: Vec<T>)
        ensures
            r@ == self@,
    {
        self.v
    }

    pub fn len(&self) -> (r: usize)
        ensures
            r == self@.len(),
    {
        self.v.len()
    }
}

impl<T: Validated> Validated for RangedLengthVec<T> {
    closed spec fn display_view(&self) -> Seq<char> {
        bracketed_list(display_views(self.v@))
    }

    /// The elements' display forms in order, comma-separated, in brackets.
    fn to_display_string(&self) -> (r: String)
        ensures
            r@ == bracketed_list(display_views(self@)),
    {
        let mut out = String::from_str("[");
        let n = self.v.len();
        let mut i: usize = 0;
        proof {
            reveal_strlit("[");
        }
        while i < n
            invariant
                n == self.v@.len(),
                i <= n,
                out@ == seq!['['] + join_with_commas(display_views(self.v@.subrange(0, i as int))),
            decreases n - i,
        {
            let part = self.v[i].to_display_string();
            let ghost before = display_views(self.v@.subrange(0, i as int));
            let ghost after = display_views(self.v@.subrange(0, i + 1));
            assert(after.drop_last() =~= before);
            assert(after.last() == part@);
            if i > 0 {
                out.append(", ");
                proof {
                    reveal_strlit(", ");
                }
            } else {
                assert(before.len() == 0);
            }
            out.append(part.as_str());
            i = i + 1;
        }
        out.append("]");
        proof {
            reveal_strlit("]");
            assert(self.v@.subrange(0, n as int) =~= self.v@);
        }
        out
    }
}

impl<T: Validated> ValidatedWrapper for RangedLengthVec<T> {
    type Error = ValidatedCustomizedVecError;

    /// A sequence has no textual form to be built from.
    open spec fn accepts_text(s: Seq<char>) -> bool {
        false
    }

    open spec fn built_display(s: Seq<char>) -> Seq<char> {
        s
    }

    open spec fn rejects_text_with(s: Seq<char>, e: ValidatedCustomizedVecError) -> bool {
        e is NotSupport
    }

    fn from_string(from_string_input: String) -> (r: Result<
        RangedLengthVec<T>,
        ValidatedCustomizedVecError,
    >) {
        Err(ValidatedCustomizedVecError::NotSupport)
    }

    fn from_str(from_str_input: &str) -> (r: Result<
        RangedLengthVec<T>,
        ValidatedCustomizedVecError,
    >) {
        Err(ValidatedCustomizedVecError::NotSupport)
    }
}

} // verus!
