//! Labels that tell the buffers of an accelerator apart when debugging.

use vstd::prelude::*;
use vstd::string::StrSliceExecFns;

verus! {

/// Whether `c` can stand in a label: a letter or digit of ASCII, `_` or `-`.
pub open spec fn is_label_char(c: char) -> bool {
    ||| c == '_'
    ||| c == '-'
    ||| '0' <= c <= '9'
    ||| 'a' <= c <= 'z'
    ||| 'A' <= c <= 'Z'
}

/// Whether `s` can be a label: it has the length of one and is made of
/// label characters.
pub open spec fn is_label(s: Seq<char>) -> bool {
    &&& s.len() == BufferID::MAX_LENGTH
    &&& forall|i: int| 0 <= i < s.len() ==> is_label_char(#[trigger] s[i])
}

/// The label of one buffer: short, of a fixed length and printable. It
/// serves diagnostics only; nothing depends on what it says.
#[derive(Debug, PartialEq, Eq)]
pub struct BufferID(String);

impl View for BufferID {
    type V = Seq<char>;

    closed spec fn view(&self) -> Seq<char> {
        self.0@
    }
}

impl BufferID {
    /// The length of every label.
    pub const MAX_LENGTH: usize = 6;

    #[verifier::type_invariant]
    spec fn well_formed(&self) -> bool {
        is_label(self.0@)
    }

    /// The id with the label `label`, if that can be a label.
    pub fn new(label: String) -> (id: Option<BufferID>)
        ensures
            id is Some <==> is_label(label@),
            id matches Some(b) ==> b@ == label@,
    {
        let text = label.as_str();
        let n = text.unicode_len();
        if n != Self::MAX_LENGTH {
            return None;
        }
        let mut i: usize = 0;
        while i < n
            invariant
                n == text@.len(),
                text@ == label@,
                i <= n,
                forall|j: int| 0 <= j < i ==> is_label_char(#[trigger] text@[j]),
            decreases n - i,
        {
            let c = text.get_char(i);
            let fine = c == '_' || c == '-' || ('0' <= c && c <= '9') || ('a' <= c && c <= 'z') || (
            'A' <= c && c <= 'Z');
            if !fine {
                return None;
            }
            i += 1;
        }
        Some(BufferID(label))
    }

    /// The label.
    pub fn inner(&self) -> (s: &str)
        ensures
            s@ == self@,
            is_label(s@),
    {
        proof {
            use_type_invariant(self);
        }
        self.0.as_str()
    }
}

impl Clone for BufferID {
    fn clone(&self) -> (id: BufferID)
        ensures
            id@ == self@,
    {
        proof {
            use_type_invariant(self);
        }
        BufferID(self.0.clone())
    }
}

} // verus!
