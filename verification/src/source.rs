//! Positions and texts of the source program.
//!
//! Both trees carry `oxc_span::Span` for the range of source offsets a node
//! covers and `oxc_span::Atom` for a name or a text. Lowering never looks
//! inside either: it hands them on. What is stated here about the two types is
//! taken on trust from the crate that defines them.

use vstd::prelude::*;
use oxc_span::Atom;

verus! {

/// Declares `oxc_span::Span`, the range of source offsets that a node covers.
/// Proofs compare spans and see nothing inside one.
#[verifier::external_type_specification]
#[verifier::external_body]
pub struct ExSpan(oxc_span::Span);

/// Declares `oxc_span::Atom`, the immutable string that holds a name or a
/// text of the source program. Proofs see nothing inside an atom;
/// [`atom_chars`] names the characters it holds.
#[verifier::external_type_specification]
#[verifier::external_body]
pub struct ExAtom(oxc_span::Atom);

/// The characters that an atom holds, in order.
pub uninterp spec fn atom_chars(atom: Atom) -> Seq<char>;

/// `Atom::clone`, which copies the string inside: the copy holds the
/// characters of the atom it was made from.
pub assume_specification[ <oxc_span::Atom as Clone>::clone ](
    atom: &oxc_span::Atom,
) -> (copy: oxc_span::Atom)
    ensures
        atom_chars(copy) == atom_chars(*atom),
;

/// `Atom::from` on a string slice, which copies the slice into a new string:
/// the atom holds the characters of the slice.
#[verifier::external_body]
pub(crate) fn atom_from_str(s: &str) -> (atom: Atom)
    ensures
        atom_chars(atom) == s@,
{
    Atom::from(s)
}

} // verus!
