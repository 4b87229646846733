//! What each accepted format admits, stated byte by byte over ASCII ranges.
use vstd::prelude::*;
use crate::validation::{
    ByteClass, project_name_outcome, github_owner_outcome, github_repo_outcome, git_branch_outcome, domain_outcome,
    email_outcome, s3_key_outcome, hex_format, domain_format, email_format,
};

verus! {

/// An ASCII letter.
pub open spec fn ascii_letter(c: u8) -> bool {
    (65 <= c <= 90) || (97 <= c <= 122)
}

/// An ASCII digit.
pub open spec fn ascii_digit(c: u8) -> bool {
    48 <= c <= 57
}

/// An ASCII letter or digit.
pub open spec fn ascii_alnum(c: u8) -> bool {
    ascii_letter(c) || ascii_digit(c)
}

/// `b` has no `x` directly followed by `y`.
pub open spec fn no_pair(b: Seq<u8>, x: u8, y: u8) -> bool {
    forall|i: int| 0 <= i && i + 1 < b.len() ==> !(#[trigger] b[i] == x && b[i + 1] == y)
}

/// Each character class admits exactly the characters its format names:
/// project names `[a-zA-Z0-9_-]`, user names `[a-zA-Z0-9-]`, repositories
/// `[a-zA-Z0-9._-]`, branches `[a-zA-Z0-9._/-]`, hexadecimal `[a-fA-F0-9]`, the
/// local part of an address `[a-zA-Z0-9._%+-]`, host names `[a-zA-Z0-9.-]`, and
/// letters `[a-zA-Z]`.
pub proof fn law_byte_classes(c: u8)
    ensures
        ByteClass::SafeName.holds(c) <==> (ascii_alnum(c) || c == 95 || c == 45),
        ByteClass::Username.holds(c) <==> (ascii_alnum(c) || c == 45),
        ByteClass::Repo.holds(c) <==> (ascii_alnum(c) || c == 46 || c == 95 || c == 45),
        ByteClass::Branch.holds(c) <==> (ascii_alnum(c) || c == 46 || c == 95 || c == 47 || c == 45),
        ByteClass::Hex.holds(c) <==> (ascii_digit(c) || (97 <= c <= 102) || (65 <= c <= 70)),
        ByteClass::EmailLocal.holds(c) <==> (ascii_alnum(c) || c == 46 || c == 95 || c == 37 || c == 43 || c == 45),
        ByteClass::HostChar.holds(c) <==> (ascii_alnum(c) || c == 46 || c == 45),
        ByteClass::Alpha.holds(c) <==> ascii_letter(c),
{
}

/// A project name is accepted exactly when it has 1 to 100 bytes, starts with a
/// letter and holds only letters, digits, `_` and `-`.
pub proof fn law_project_name(b: Seq<u8>)
    ensures
        project_name_outcome(b) is Ok <==> {
            &&& 1 <= b.len() <= 100
            &&& ascii_letter(b[0])
            &&& forall|i: int| 0 <= i < b.len() ==> ascii_alnum(#[trigger] b[i]) || b[i] == 95 || b[i] == 45
        },
{
}

/// A GitHub owner is accepted exactly when it has 1 to 39 bytes of letters,
/// digits and `-`, starts and ends with a letter or digit, and has no `--`.
pub proof fn law_github_owner(b: Seq<u8>)
    ensures
        github_owner_outcome(b) is Ok <==> {
            &&& 1 <= b.len() <= 39
            &&& ascii_alnum(b[0])
            &&& ascii_alnum(b[b.len() - 1])
            &&& forall|i: int| 0 <= i < b.len() ==> ascii_alnum(#[trigger] b[i]) || b[i] == 45
            &&& no_pair(b, 45, 45)
        },
{
}

/// A repository name is accepted exactly when it has 1 to 100 bytes of
/// letters, digits, `.`, `_` and `-`, and is neither `.` nor `..`.
pub proof fn law_github_repo(b: Seq<u8>)
    ensures
        github_repo_outcome(b) is Ok <==> {
            &&& 1 <= b.len() <= 100
            &&& forall|i: int| 0 <= i < b.len() ==> ascii_alnum(#[trigger] b[i]) || b[i] == 46 || b[i] == 95 || b[i] == 45
            &&& b != seq![46u8]
            &&& b != seq![46u8, 46u8]
        },
{
    if b =~= seq![46u8] || b =~= seq![46u8, 46u8] {
    }
}

/// A branch is accepted exactly when it has 1 to 255 bytes of letters, digits,
/// `.`, `_`, `/` and `-`, does not start with `-`, does not end with `.` or
/// `/`, and has neither `..` nor `//`.
pub proof fn law_git_branch(b: Seq<u8>)
    ensures
        git_branch_outcome(b) is Ok <==> {
            &&& 1 <= b.len() <= 255
            &&& forall|i: int| 0 <= i < b.len() ==>
                ascii_alnum(#[trigger] b[i]) || b[i] == 46 || b[i] == 95 || b[i] == 47 || b[i] == 45
            &&& b[0] != 45
            &&& b[b.len() - 1] != 46
            &&& b[b.len() - 1] != 47
            &&& no_pair(b, 46, 46)
            &&& no_pair(b, 47, 47)
        },
{
}

/// Hexadecimal text is one or more of `[a-fA-F0-9]`.
pub proof fn law_hex_format(b: Seq<u8>)
    ensures
        hex_format(b) <==> b.len() >= 1 && forall|i: int| 0 <= i < b.len() ==>
            ascii_digit(#[trigger] b[i]) || (97 <= b[i] <= 102) || (65 <= b[i] <= 70),
{
}

/// `b[..=d]` is one or more dot-terminated labels of letters, digits and `-`,
/// each starting and ending with a letter or digit.
pub open spec fn dotted_labels(b: Seq<u8>, d: int) -> bool {
    &&& 0 < d < b.len()
    &&& b[d] == 46
    &&& ascii_alnum(b[0])
    &&& ascii_alnum(b[d - 1])
    &&& forall|i: int| 0 <= i < d ==> ascii_alnum(#[trigger] b[i]) || b[i] == 46 || b[i] == 45
    &&& forall|i: int| 0 < i < d && #[trigger] b[i] == 46 ==> ascii_alnum(b[i - 1]) && ascii_alnum(b[i + 1])
}

/// A domain is accepted exactly when it has 1 to 253 bytes and is one or more
/// labels, each followed by a dot, and then at least two letters. In
/// particular an accepted domain contains a dot and ends with a letter.
pub proof fn law_domain(b: Seq<u8>)
    ensures
        domain_outcome(b) is Ok <==> 1 <= b.len() <= 253 && domain_format(b),
        domain_format(b) <==> exists|d: int| #![trigger b[d]]
            dotted_labels(b, d) && d + 3 <= b.len()
                && forall|i: int| d < i < b.len() ==> ascii_letter(#[trigger] b[i]),
        domain_format(b) ==> b.len() > 0 && ascii_letter(b[b.len() - 1]) && b.contains(46u8),
{
    if domain_format(b) {
        let d = choose|d: int| crate::validation::labels_then_dot(b, d) && d + 3 <= b.len()
            && crate::validation::all_in(b, d + 1, b.len() as int, ByteClass::Alpha);
        assert(dotted_labels(b, d));
        assert(b[b.len() - 1] == b[b.len() - 1]);
        assert(b[d] == 46u8);
    }
    if exists|d: int| #![trigger b[d]]
        dotted_labels(b, d) && d + 3 <= b.len() && forall|i: int| d < i < b.len() ==> ascii_letter(#[trigger] b[i]) {
        let d = choose|d: int| #![trigger b[d]]
            dotted_labels(b, d) && d + 3 <= b.len() && forall|i: int| d < i < b.len() ==> ascii_letter(#[trigger] b[i]);
        assert(crate::validation::labels_then_dot(b, d));
    }
}

/// An e-mail address is accepted exactly when it has 1 to 254 bytes and is a
/// non-empty local part of `[a-zA-Z0-9._%+-]`, an `@`, a non-empty host of
/// `[a-zA-Z0-9.-]`, a dot and at least two letters.
pub proof fn law_email(b: Seq<u8>)
    ensures
        email_outcome(b) is Ok <==> 1 <= b.len() <= 254 && email_format(b),
        email_format(b) <==> exists|a: int, d: int| #![trigger b[a], b[d]] {
            &&& 0 < a && a + 1 < d && d + 3 <= b.len()
            &&& b[a] == 64 && b[d] == 46
            &&& forall|i: int| 0 <= i < a ==> ascii_alnum(#[trigger] b[i]) || b[i] == 46 || b[i] == 95 || b[i] == 37
                || b[i] == 43 || b[i] == 45
            &&& forall|i: int| a < i < d ==> ascii_alnum(#[trigger] b[i]) || b[i] == 46 || b[i] == 45
            &&& forall|i: int| d < i < b.len() ==> ascii_letter(#[trigger] b[i])
        },
{
    if email_format(b) {
        let (a, d) = choose|a: int, d: int| #[trigger] crate::validation::email_split(b, a, d);
        assert(b[a] == 64 && b[d] == 46);
    }
    if exists|a: int, d: int| #![trigger b[a], b[d]] {
        &&& 0 < a && a + 1 < d && d + 3 <= b.len()
        &&& b[a] == 64 && b[d] == 46
        &&& forall|i: int| 0 <= i < a ==> ascii_alnum(#[trigger] b[i]) || b[i] == 46 || b[i] == 95 || b[i] == 37
            || b[i] == 43 || b[i] == 45
        &&& forall|i: int| a < i < d ==> ascii_alnum(#[trigger] b[i]) || b[i] == 46 || b[i] == 45
        &&& forall|i: int| d < i < b.len() ==> ascii_letter(#[trigger] b[i])
    } {
        let (a, d) = choose|a: int, d: int| #![trigger b[a], b[d]] {
            &&& 0 < a && a + 1 < d && d + 3 <= b.len()
            &&& b[a] == 64 && b[d] == 46
            &&& forall|i: int| 0 <= i < a ==> ascii_alnum(#[trigger] b[i]) || b[i] == 46 || b[i] == 95 || b[i] == 37
                || b[i] == 43 || b[i] == 45
            &&& forall|i: int| a < i < d ==> ascii_alnum(#[trigger] b[i]) || b[i] == 46 || b[i] == 45
            &&& forall|i: int| d < i < b.len() ==> ascii_letter(#[trigger] b[i])
        };
        assert(crate::validation::email_split(b, a, d));
    }
}

/// An object key is accepted exactly when it has 1 to 1024 bytes, does not
/// start with `/`, and holds neither `..` nor a NUL byte.
pub proof fn law_s3_key(b: Seq<u8>)
    ensures
        s3_key_outcome(b) is Ok <==> {
            &&& 1 <= b.len() <= 1024
            &&& b[0] != 47
            &&& no_pair(b, 46, 46)
            &&& forall|i: int| 0 <= i < b.len() ==> #[trigger] b[i] != 0
        },
{
    if !(forall|i: int| 0 <= i < b.len() ==> #[trigger] b[i] != 0) {
        let i = choose|i: int| 0 <= i < b.len() && #[trigger] b[i] == 0;
        assert(b.contains(0u8));
    }
}

} // verus!
