//! Package names: which texts are accepted, and the normal form they are kept in.

use crate::error::InitError;
use vstd::prelude::*;
use vstd::string::*;

verus! {

/// Whether `c` is one of the three separators that a name may hold between its words.
pub open spec fn is_separator(c: char) -> bool {
    c == '-' || c == '_' || c == '.'
}

/// Whether `c` is an ASCII letter or digit.
pub open spec fn is_alphanumeric(c: char) -> bool {
    ('a' <= c && c <= 'z') || ('A' <= c && c <= 'Z') || ('0' <= c && c <= '9')
}

/// Whether `c` is a lower-case ASCII letter or a digit.
pub open spec fn is_plain(c: char) -> bool {
    ('a' <= c && c <= 'z') || ('0' <= c && c <= '9')
}

/// The lower-case form of an ASCII letter; any other character is left as it is.
pub open spec fn lowered(c: char) -> char {
    if 'A' <= c && c <= 'Z' {
        ((c as u8) + 32) as char
    } else {
        c
    }
}

/// Whether `raw` is accepted as a package name: only ASCII letters, digits and
/// separators, and no separator at either end. The empty text is accepted.
pub open spec fn acceptable(raw: Seq<char>) -> bool {
    &&& forall|i: int|
        0 <= i < raw.len() ==> is_alphanumeric(#[trigger] raw[i]) || is_separator(raw[i])
    &&& raw.len() > 0 ==> !is_separator(raw[0]) && !is_separator(raw.last())
}

/// The normal form of `raw`: letters in lower case, and every run of separators
/// replaced by a single `-`.
pub open spec fn normal_form(raw: Seq<char>) -> Seq<char>
    decreases raw.len(),
{
    if raw.len() == 0 {
        Seq::empty()
    } else {
        let front = normal_form(raw.drop_last());
        if !is_separator(raw.last()) {
            front.push(lowered(raw.last()))
        } else if raw.len() >= 2 && is_separator(raw[raw.len() - 2]) {
            front
        } else {
            front.push('-')
        }
    }
}

/// Whether `name` is in normal form: lower-case letters and digits, with single `-`
/// between them and none at either end.
pub open spec fn is_normal(name: Seq<char>) -> bool {
    &&& forall|i: int| 0 <= i < name.len() ==> is_plain(#[trigger] name[i]) || name[i] == '-'
    &&& forall|i: int|
        0 <= i < name.len() - 1 ==> !(#[trigger] name[i] == '-' && name[i + 1] == '-')
    &&& name.len() > 0 ==> name[0] != '-' && name.last() != '-'
}

/// Declares `pep508_rs::InvalidNameError`, the error of `pep508_rs::PackageName::new`,
/// so that it can be handed on. Nothing is claimed of what it holds.
#[verifier::external_type_specification]
#[verifier::external_body]
pub struct ExInvalidNameError(pep508_rs::InvalidNameError);

/// Calls `pep508_rs::PackageName::new`. The claim is the one its documentation makes:
/// a name is refused exactly when it holds a character other than an ASCII letter,
/// digit, `-`, `_` or `.`, or starts or ends with one of those three; an accepted
/// name comes back in lower case with each run of the three collapsed to one `-`.
#[verifier::external_body]
fn normalize(raw: &str) -> (res: Result<String, pep508_rs::InvalidNameError>)
    ensures
        res is Ok <==> acceptable(raw@),
        res matches Ok(name) ==> name@ == normal_form(raw@),
{
    match pep508_rs::PackageName::new(raw.to_string()) {
        Ok(name) => Ok(name.to_string()),
        Err(refused) => Err(refused),
    }
}

/// What holds of the normal form of a text that starts as a name must, whatever it
/// ends in: it is made of plain characters and `-`, has no `-` at its start and no
/// two in a row, and ends in `-` exactly where the text ends in a separator.
proof fn lemma_normal_form_shape(raw: Seq<char>)
    requires
        forall|i: int|
            0 <= i < raw.len() ==> is_alphanumeric(#[trigger] raw[i]) || is_separator(raw[i]),
        raw.len() > 0 ==> !is_separator(raw[0]),
    ensures
        forall|i: int|
            0 <= i < normal_form(raw).len() ==> is_plain(#[trigger] normal_form(raw)[i])
                || normal_form(raw)[i] == '-',
        forall|i: int|
            0 <= i < normal_form(raw).len() - 1 ==> !(#[trigger] normal_form(raw)[i] == '-'
                && normal_form(raw)[i + 1] == '-'),
        normal_form(raw).len() > 0 ==> normal_form(raw)[0] != '-',
        raw.len() > 0 ==> normal_form(raw).len() > 0,
        raw.len() > 0 ==> (normal_form(raw).last() == '-' <==> is_separator(raw.last())),
    decreases raw.len(),
{
    if raw.len() > 0 {
        lemma_normal_form_shape(raw.drop_last());
    }
}

/// Accepted names have a normal form that is in normal form.
pub proof fn lemma_normal_form_is_normal(raw: Seq<char>)
    requires
        acceptable(raw),
    ensures
        is_normal(normal_form(raw)),
        raw.len() > 0 ==> normal_form(raw).len() > 0,
{
    lemma_normal_form_shape(raw);
}

/// A name in normal form is accepted, and is its own normal form.
pub proof fn lemma_normal_is_fixed(name: Seq<char>)
    requires
        is_normal(name),
    ensures
        acceptable(name),
        normal_form(name) == name,
{
    lemma_prefix_is_fixed(name, name.len() as int);
    assert(name.take(name.len() as int) =~= name);
}

/// The normal form of a prefix of a name in normal form is that prefix.
proof fn lemma_prefix_is_fixed(name: Seq<char>, upto: int)
    requires
        is_normal(name),
        0 <= upto <= name.len(),
    ensures
        normal_form(name.take(upto)) == name.take(upto),
    decreases upto,
{
    if upto > 0 {
        lemma_prefix_is_fixed(name, upto - 1);
        assert(name.take(upto).drop_last() =~= name.take(upto - 1));
    }
}

/// Normalising twice gives what normalising once gives.
pub proof fn law_normal_form_idempotent(raw: Seq<char>)
    requires
        acceptable(raw),
    ensures
        normal_form(normal_form(raw)) == normal_form(raw),
{
    lemma_normal_form_is_normal(raw);
    lemma_normal_is_fixed(normal_form(raw));
}

/// A package name, held in normal form.
#[derive(Debug, PartialEq, Eq)]
pub struct PackageName {
    text: String,
}

impl View for PackageName {
    type V = Seq<char>;

    closed spec fn view(&self) -> Seq<char> {
        self.text@
    }
}

impl PackageName {
    /// What holds of every package name there is: it is in normal form.
    #[verifier::type_invariant]
    pub open spec fn in_normal_form(self) -> bool {
        is_normal(self@)
    }

    /// Checks `raw` and brings it into normal form.
    pub fn new(raw: &str) -> (res: Result<PackageName, InitError>)
        ensures
            match res {
                Ok(name) => acceptable(raw@) && name@ == normal_form(raw@) && is_normal(name@),
                Err(error) => !acceptable(raw@) && error@ == (crate::error::ErrorView::InvalidName {
                    name: raw@,
                }),
            },
    {
        match normalize(raw) {
            Ok(text) => {
                proof {
                    lemma_normal_form_is_normal(raw@);
                }
                Ok(PackageName { text })
            },
            Err(_) => Err(InitError::InvalidName { name: raw.to_owned() }),
        }
    }

    /// The empty name, which is what a run holds until it has settled on one.
    pub fn empty() -> (name: PackageName)
        ensures
            name@ == Seq::<char>::empty(),
    {
        PackageName { text: String::new() }
    }

    /// The name as text.
    pub fn as_str(&self) -> (text: &str)
        ensures
            text@ == self@,
            is_normal(self@),
    {
        proof {
            use_type_invariant(self);
        }
        self.text.as_str()
    }

}

impl Clone for PackageName {
    fn clone(&self) -> (copy: PackageName)
        ensures
            copy@ == self@,
    {
        proof {
            use_type_invariant(self);
        }
        PackageName { text: self.text.clone() }
    }
}

} // verus!
