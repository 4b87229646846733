//! Input validation for names, identifiers, addresses and ports.
//!
//! Every check reads the UTF-8 bytes of its input. The accepted formats are
//! stated byte by byte; a multi-byte character never falls into any of the
//! ASCII classes used here, so it is always rejected by the format checks.
use vstd::prelude::*;
use crate::error::{AppError, ValidationError, Result};
use crate::text::{decimal_chars, push_decimal};
use vstd::string::*;

verus! {

pub const PROJECT_NAME_MAX: usize = 100;
pub const GITHUB_USERNAME_MAX: usize = 39;
pub const GITHUB_REPO_MAX: usize = 100;
pub const GIT_BRANCH_MAX: usize = 255;
pub const COMMIT_SHA_LENGTH: usize = 40;
pub const DOMAIN_MAX: usize = 253;
pub const EMAIL_MAX: usize = 254;
pub const S3_KEY_MAX: usize = 1024;

// ---------------------------------------------------------------------------
// Byte classes

pub open spec fn is_alpha(c: u8) -> bool {
    (97 <= c <= 122) || (65 <= c <= 90)
}

pub open spec fn is_digit(c: u8) -> bool {
    48 <= c <= 57
}

pub open spec fn is_alnum(c: u8) -> bool {
    is_alpha(c) || is_digit(c)
}

pub open spec fn is_hex(c: u8) -> bool {
    is_digit(c) || (97 <= c <= 102) || (65 <= c <= 70)
}

/// The character classes that the accepted formats are built from.
#[derive(Clone, Copy, Debug)]
pub enum ByteClass {
    /// letters, digits, `_`, `-`
    SafeName,
    /// letters, digits, `-`
    Username,
    /// letters, digits, `.`, `_`, `-`
    Repo,
    /// letters, digits, `.`, `_`, `/`, `-`
    Branch,
    /// hexadecimal digits
    Hex,
    /// letters, digits, `.`, `_`, `%`, `+`, `-`
    EmailLocal,
    /// letters, digits, `.`, `-`
    HostChar,
    /// letters
    Alpha,
}

impl ByteClass {
    pub open spec fn holds(self, c: u8) -> bool {
        match self {
            ByteClass::SafeName => is_alnum(c) || c == 95 || c == 45,
            ByteClass::Username => is_alnum(c) || c == 45,
            ByteClass::Repo => is_alnum(c) || c == 46 || c == 95 || c == 45,
            ByteClass::Branch => is_alnum(c) || c == 46 || c == 95 || c == 47 || c == 45,
            ByteClass::Hex => is_hex(c),
            ByteClass::EmailLocal => is_alnum(c) || c == 46 || c == 95 || c == 37 || c == 43 || c == 45,
            ByteClass::HostChar => is_alnum(c) || c == 46 || c == 45,
            ByteClass::Alpha => is_alpha(c),
        }
    }

    pub fn contains(&self, c: u8) -> (r: bool)
        ensures
            r == self.holds(c),
    {
        let alpha = (97 <= c && c <= 122) || (65 <= c && c <= 90);
        let digit = 48 <= c && c <= 57;
        let alnum = alpha || digit;
        match self {
            ByteClass::SafeName => alnum || c == 95 || c == 45,
            ByteClass::Username => alnum || c == 45,
            ByteClass::Repo => alnum || c == 46 || c == 95 || c == 45,
            ByteClass::Branch => alnum || c == 46 || c == 95 || c == 47 || c == 45,
            ByteClass::Hex => digit || (97 <= c && c <= 102) || (65 <= c && c <= 70),
            ByteClass::EmailLocal => alnum || c == 46 || c == 95 || c == 37 || c == 43 || c == 45,
            ByteClass::HostChar => alnum || c == 46 || c == 45,
            ByteClass::Alpha => alpha,
        }
    }
}

/// Every byte of `b` in `[lo, hi)` belongs to `class`.
pub open spec fn all_in(b: Seq<u8>, lo: int, hi: int, class: ByteClass) -> bool {
    forall|i: int| lo <= i < hi ==> class.holds(#[trigger] b[i])
}

/// `b` holds the byte `x` directly followed by the byte `y`.
pub open spec fn has_pair(b: Seq<u8>, x: u8, y: u8) -> bool {
    exists|i: int| 0 <= i && i + 1 < b.len() && #[trigger] b[i] == x && b[i + 1] == y
}

pub open spec fn starts_with_byte(b: Seq<u8>, x: u8) -> bool {
    b.len() > 0 && b[0] == x
}

pub open spec fn ends_with_byte(b: Seq<u8>, x: u8) -> bool {
    b.len() > 0 && b[b.len() - 1] == x
}

// ---------------------------------------------------------------------------
// Byte-scanning helpers

pub fn scan_all_in(b: &[u8], lo: usize, hi: usize, class: ByteClass) -> (r: bool)
    requires
        lo <= hi <= b@.len(),
    ensures
        r == all_in(b@, lo as int, hi as int, class),
{
    let mut i = lo;
    while i < hi
        invariant
            lo <= i <= hi <= b@.len(),
            all_in(b@, lo as int, i as int, class),
        decreases hi - i,
    {
        if !class.contains(b[i]) {
            return false;
        }
        i = i + 1;
    }
    true
}

pub fn scan_pair(b: &[u8], x: u8, y: u8) -> (r: bool)
    ensures
        r == has_pair(b@, x, y),
{
    let n = b.len();
    if n < 2 {
        return false;
    }
    let mut i: usize = 0;
    while i < n - 1
        invariant
            n == b@.len(),
            n >= 2,
            forall|j: int| 0 <= j < i && j + 1 < n ==> !(#[trigger] b@[j] == x && b@[j + 1] == y),
        decreases n - i,
    {
        if b[i] == x && b[i + 1] == y {
            return true;
        }
        i = i + 1;
    }
    false
}

/// Whether `b` holds the byte `x`.
pub fn scan_byte(b: &[u8], x: u8) -> (r: bool)
    ensures
        r == b@.contains(x),
{
    let n = b.len();
    let mut i: usize = 0;
    while i < n
        invariant
            n == b@.len(),
            forall|j: int| 0 <= j < i ==> b@[j] != x,
        decreases n - i,
    {
        if b[i] == x {
            assert(b@[i as int] == x);
            return true;
        }
        i = i + 1;
    }
    false
}

} // verus!

verus! {

/// Position of the first occurrence of `x` in `b`.
pub fn find_first(b: &[u8], x: u8) -> (r: Option<usize>)
    ensures
        match r {
            Some(i) => i < b@.len() && b@[i as int] == x && forall|j: int| 0 <= j < i ==> b@[j] != x,
            None => forall|j: int| 0 <= j < b@.len() ==> b@[j] != x,
        },
{
    let n = b.len();
    let mut i: usize = 0;
    while i < n
        invariant
            n == b@.len(),
            forall|j: int| 0 <= j < i ==> b@[j] != x,
        decreases n - i,
    {
        if b[i] == x {
            return Some(i);
        }
        i = i + 1;
    }
    None
}

/// Position of the last occurrence of `x` in `b`.
pub fn find_last(b: &[u8], x: u8) -> (r: Option<usize>)
    ensures
        match r {
            Some(i) => i < b@.len() && b@[i as int] == x && forall|j: int| i < j < b@.len() ==> b@[j] != x,
            None => forall|j: int| 0 <= j < b@.len() ==> b@[j] != x,
        },
{
    let n = b.len();
    let mut i: usize = n;
    while i > 0
        invariant
            n == b@.len(),
            i <= n,
            forall|j: int| i <= j < n ==> b@[j] != x,
        decreases i,
    {
        if b[i - 1] == x {
            return Some(i - 1);
        }
        i = i - 1;
    }
    None
}

// ---------------------------------------------------------------------------
// Accepted formats

/// `^[a-zA-Z][a-zA-Z0-9_-]*$`
pub open spec fn safe_name_format(b: Seq<u8>) -> bool {
    b.len() >= 1 && is_alpha(b[0]) && all_in(b, 1, b.len() as int, ByteClass::SafeName)
}

/// `^[a-zA-Z0-9]([a-zA-Z0-9-]*[a-zA-Z0-9])?$`
pub open spec fn github_username_format(b: Seq<u8>) -> bool {
    &&& b.len() >= 1
    &&& is_alnum(b[0])
    &&& is_alnum(b[b.len() - 1])
    &&& all_in(b, 0, b.len() as int, ByteClass::Username)
}

/// `^[a-zA-Z0-9._-]+$`
pub open spec fn github_repo_format(b: Seq<u8>) -> bool {
    b.len() >= 1 && all_in(b, 0, b.len() as int, ByteClass::Repo)
}

/// `^[a-zA-Z0-9._/-]+$`
pub open spec fn git_branch_format(b: Seq<u8>) -> bool {
    b.len() >= 1 && all_in(b, 0, b.len() as int, ByteClass::Branch)
}

/// `^[a-fA-F0-9]+$`
pub open spec fn hex_format(b: Seq<u8>) -> bool {
    b.len() >= 1 && all_in(b, 0, b.len() as int, ByteClass::Hex)
}

/// Every `.` strictly inside `[lo, hi)` has a letter or digit on both sides.
pub open spec fn dots_flanked(b: Seq<u8>, lo: int, hi: int) -> bool {
    forall|i: int| lo < i < hi && #[trigger] b[i] == 46 ==> is_alnum(b[i - 1]) && is_alnum(b[i + 1])
}

/// `b[0..=d]` is one or more labels each followed by a dot, where a label is
/// `[a-zA-Z0-9]([a-zA-Z0-9-]*[a-zA-Z0-9])?`.
pub open spec fn labels_then_dot(b: Seq<u8>, d: int) -> bool {
    &&& 0 < d < b.len()
    &&& b[d] == 46
    &&& is_alnum(b[0])
    &&& is_alnum(b[d - 1])
    &&& all_in(b, 0, d, ByteClass::HostChar)
    &&& dots_flanked(b, 0, d)
}

/// `^([a-zA-Z0-9]([a-zA-Z0-9-]*[a-zA-Z0-9])?\.)+[a-zA-Z]{2,}$`
pub open spec fn domain_format(b: Seq<u8>) -> bool {
    exists|d: int|
        #![trigger labels_then_dot(b, d)]
        labels_then_dot(b, d) && d + 3 <= b.len() && all_in(b, d + 1, b.len() as int, ByteClass::Alpha)
}

/// `^[a-zA-Z0-9._%+-]+@[a-zA-Z0-9.-]+\.[a-zA-Z]{2,}$`, with `a` the position
/// of `@` and `d` that of the dot before the final letters.
pub open spec fn email_split(b: Seq<u8>, a: int, d: int) -> bool {
    &&& 0 < a
    &&& a + 1 < d
    &&& d + 3 <= b.len()
    &&& b[a] == 64
    &&& b[d] == 46
    &&& all_in(b, 0, a, ByteClass::EmailLocal)
    &&& all_in(b, a + 1, d, ByteClass::HostChar)
    &&& all_in(b, d + 1, b.len() as int, ByteClass::Alpha)
}

pub open spec fn email_format(b: Seq<u8>) -> bool {
    exists|a: int, d: int| #[trigger] email_split(b, a, d)
}

pub fn scan_dots_flanked(b: &[u8], lo: usize, hi: usize) -> (r: bool)
    requires
        lo <= hi < b@.len(),
    ensures
        r == dots_flanked(b@, lo as int, hi as int),
{
    let mut i = lo;
    while i < hi
        invariant
            lo <= i <= hi,
            hi < b@.len(),
            forall|j: int| lo < j < i && #[trigger] b@[j] == 46 ==> is_alnum(b@[j - 1]) && is_alnum(b@[j + 1]),
        decreases hi - i,
    {
        if i > lo && b[i] == 46 {
            let before = b[i - 1];
            let after = b[i + 1];
            let ok_before = (97 <= before && before <= 122) || (65 <= before && before <= 90) || (48 <= before && before <= 57);
            let ok_after = (97 <= after && after <= 122) || (65 <= after && after <= 90) || (48 <= after && after <= 57);
            if !(ok_before && ok_after) {
                assert(b@[i as int] == 46);
                return false;
            }
        }
        i = i + 1;
    }
    true
}

fn alnum_byte(c: u8) -> (r: bool)
    ensures
        r == is_alnum(c),
{
    (97 <= c && c <= 122) || (65 <= c && c <= 90) || (48 <= c && c <= 57)
}

pub fn is_safe_name(b: &[u8]) -> (r: bool)
    ensures
        r == safe_name_format(b@),
{
    b.len() >= 1 && ByteClass::Alpha.contains(b[0]) && scan_all_in(b, 1, b.len(), ByteClass::SafeName)
}

pub fn is_github_username(b: &[u8]) -> (r: bool)
    ensures
        r == github_username_format(b@),
{
    b.len() >= 1 && alnum_byte(b[0]) && alnum_byte(b[b.len() - 1]) && scan_all_in(b, 0, b.len(), ByteClass::Username)
}

pub fn is_github_repo(b: &[u8]) -> (r: bool)
    ensures
        r == github_repo_format(b@),
{
    b.len() >= 1 && scan_all_in(b, 0, b.len(), ByteClass::Repo)
}

pub fn is_git_branch(b: &[u8]) -> (r: bool)
    ensures
        r == git_branch_format(b@),
{
    b.len() >= 1 && scan_all_in(b, 0, b.len(), ByteClass::Branch)
}

pub fn is_hex_string(b: &[u8]) -> (r: bool)
    ensures
        r == hex_format(b@),
{
    b.len() >= 1 && scan_all_in(b, 0, b.len(), ByteClass::Hex)
}

pub fn is_domain(b: &[u8]) -> (r: bool)
    ensures
        r == domain_format(b@),
{
    let n = b.len();
    match find_last(b, 46) {
        None => {
            assert forall|d: int| !labels_then_dot(b@, d) by {}
            false
        },
        Some(d) => {
            let ok = d > 0 && n - d >= 3 && alnum_byte(b[0]) && alnum_byte(b[d - 1])
                && scan_all_in(b, 0, d, ByteClass::HostChar) && scan_dots_flanked(b, 0, d)
                && scan_all_in(b, d + 1, n, ByteClass::Alpha);
            if ok {
                assert(labels_then_dot(b@, d as int));
            } else {
                assert forall|e: int|
                    labels_then_dot(b@, e) && e + 3 <= b@.len() implies !all_in(b@, e + 1, b@.len() as int, ByteClass::Alpha)
                by {
                    if all_in(b@, e + 1, b@.len() as int, ByteClass::Alpha) {
                        if e < d {
                            assert(ByteClass::Alpha.holds(b@[d as int]));
                        }
                        assert(e == d);
                    }
                }
            }
            ok
        },
    }
}

pub fn is_email(b: &[u8]) -> (r: bool)
    ensures
        r == email_format(b@),
{
    let n = b.len();
    let at = find_first(b, 64);
    let dot = find_last(b, 46);
    match (at, dot) {
        (Some(a), Some(d)) => {
            let ok = a > 0 && a < d && d - a > 1 && n - d >= 3 && scan_all_in(b, 0, a, ByteClass::EmailLocal)
                && scan_all_in(b, a + 1, d, ByteClass::HostChar) && scan_all_in(b, d + 1, n, ByteClass::Alpha);
            if ok {
                assert(email_split(b@, a as int, d as int));
            } else {
                assert forall|x: int, y: int| !email_split(b@, x, y) by {
                    if email_split(b@, x, y) {
                        if x > a {
                            assert(ByteClass::EmailLocal.holds(b@[a as int]));
                        }
                        if y < d {
                            assert(ByteClass::Alpha.holds(b@[d as int]));
                        }
                        assert(x == a && y == d);
                    }
                }
            }
            ok
        },
        _ => {
            assert forall|x: int, y: int| !email_split(b@, x, y) by {
                if email_split(b@, x, y) {
                    assert(b@[x] == 64);
                    assert(b@[y] == 46);
                }
            }
            false
        },
    }
}

} // verus!

verus! {

// ---------------------------------------------------------------------------
// Validators

/// A failed validation, lifted into the application error.
pub open spec fn invalid(e: ValidationError) -> Result<()> {
    Err(AppError::Validation(e))
}

pub open spec fn not_empty_outcome(b: Seq<u8>, field: &'static str) -> Result<()> {
    if b.len() == 0 { invalid(ValidationError::Empty { field }) } else { Ok(()) }
}

pub open spec fn max_length_outcome(b: Seq<u8>, max: usize, field: &'static str) -> Result<()> {
    if b.len() > max {
        invalid(ValidationError::TooLong { field, length: b.len() as usize, max })
    } else {
        Ok(())
    }
}

pub open spec fn min_length_outcome(b: Seq<u8>, min: usize, field: &'static str) -> Result<()> {
    if b.len() < min {
        invalid(ValidationError::TooShort { field, length: b.len() as usize, min })
    } else {
        Ok(())
    }
}

/// `b` contains `..`, starts with `/`, or contains a NUL byte.
pub open spec fn is_path_traversal(b: Seq<u8>) -> bool {
    has_pair(b, 46, 46) || starts_with_byte(b, 47) || b.contains(0)
}

pub open spec fn no_path_traversal_outcome(b: Seq<u8>, field: &'static str) -> Result<()> {
    if is_path_traversal(b) { invalid(ValidationError::PathTraversal { field }) } else { Ok(()) }
}

/// The reason given when a value does not have the required length `n`.
pub open spec fn exact_length_reason(n: usize) -> Seq<char> {
    "must be exactly "@ + decimal_chars(n as nat) + " characters"@
}

/// `r` is the error that reports a value of the wrong length when `n` is required.
pub open spec fn is_exact_length_error(r: Result<()>, n: usize, field: &'static str) -> bool {
    match r {
        Err(AppError::Validation(ValidationError::Field { field: f, reason })) =>
            f == field && reason@ == exact_length_reason(n),
        _ => false,
    }
}

pub open spec fn project_name_outcome(b: Seq<u8>) -> Result<()> {
    let field = "project_name";
    if b.len() == 0 {
        invalid(ValidationError::Empty { field })
    } else if b.len() > PROJECT_NAME_MAX {
        invalid(ValidationError::TooLong { field, length: b.len() as usize, max: PROJECT_NAME_MAX })
    } else if !safe_name_format(b) {
        invalid(ValidationError::InvalidFormat {
            field,
            reason: "must start with letter and contain only alphanumeric, underscore, hyphen",
        })
    } else {
        Ok(())
    }
}

pub open spec fn github_owner_outcome(b: Seq<u8>) -> Result<()> {
    let field = "owner";
    if b.len() == 0 {
        invalid(ValidationError::Empty { field })
    } else if b.len() > GITHUB_USERNAME_MAX {
        invalid(ValidationError::TooLong { field, length: b.len() as usize, max: GITHUB_USERNAME_MAX })
    } else if !github_username_format(b) {
        invalid(ValidationError::InvalidFormat { field, reason: "invalid GitHub username format" })
    } else if has_pair(b, 45, 45) {
        invalid(ValidationError::InvalidFormat { field, reason: "cannot contain consecutive hyphens" })
    } else {
        Ok(())
    }
}

pub open spec fn github_repo_outcome(b: Seq<u8>) -> Result<()> {
    let field = "repo";
    if b.len() == 0 {
        invalid(ValidationError::Empty { field })
    } else if b.len() > GITHUB_REPO_MAX {
        invalid(ValidationError::TooLong { field, length: b.len() as usize, max: GITHUB_REPO_MAX })
    } else if !github_repo_format(b) {
        invalid(ValidationError::InvalidFormat { field, reason: "invalid GitHub repository name format" })
    } else if b =~= seq![46u8] || b =~= seq![46u8, 46u8] {
        invalid(ValidationError::InvalidFormat { field, reason: "cannot be . or .." })
    } else {
        Ok(())
    }
}

pub open spec fn git_branch_outcome(b: Seq<u8>) -> Result<()> {
    let field = "branch";
    if b.len() == 0 {
        invalid(ValidationError::Empty { field })
    } else if b.len() > GIT_BRANCH_MAX {
        invalid(ValidationError::TooLong { field, length: b.len() as usize, max: GIT_BRANCH_MAX })
    } else if !git_branch_format(b) {
        invalid(ValidationError::InvalidFormat { field, reason: "invalid git branch name format" })
    } else if starts_with_byte(b, 45) || ends_with_byte(b, 46) || ends_with_byte(b, 47) {
        invalid(ValidationError::InvalidFormat { field, reason: "invalid branch name start/end character" })
    } else if has_pair(b, 46, 46) || has_pair(b, 47, 47) {
        invalid(ValidationError::InvalidFormat { field, reason: "cannot contain .. or //" })
    } else {
        Ok(())
    }
}

pub open spec fn domain_outcome(b: Seq<u8>) -> Result<()> {
    let field = "domain";
    if b.len() == 0 {
        invalid(ValidationError::Empty { field })
    } else if b.len() > DOMAIN_MAX {
        invalid(ValidationError::TooLong { field, length: b.len() as usize, max: DOMAIN_MAX })
    } else if !domain_format(b) {
        invalid(ValidationError::InvalidFormat { field, reason: "invalid domain format" })
    } else {
        Ok(())
    }
}

pub open spec fn email_outcome(b: Seq<u8>) -> Result<()> {
    let field = "email";
    if b.len() == 0 {
        invalid(ValidationError::Empty { field })
    } else if b.len() > EMAIL_MAX {
        invalid(ValidationError::TooLong { field, length: b.len() as usize, max: EMAIL_MAX })
    } else if !email_format(b) {
        invalid(ValidationError::InvalidEmail { field })
    } else {
        Ok(())
    }
}

pub open spec fn s3_key_outcome(b: Seq<u8>) -> Result<()> {
    let field = "s3_key";
    if b.len() == 0 {
        invalid(ValidationError::Empty { field })
    } else if b.len() > S3_KEY_MAX {
        invalid(ValidationError::TooLong { field, length: b.len() as usize, max: S3_KEY_MAX })
    } else if is_path_traversal(b) {
        invalid(ValidationError::PathTraversal { field })
    } else {
        Ok(())
    }
}

pub fn validate_not_empty(value: &str, field: &'static str) -> (r: Result<()>)
    ensures
        r == not_empty_outcome(value.spec_bytes(), field),
{
    if value.as_bytes().len() == 0 {
        return Err(AppError::Validation(ValidationError::Empty { field }));
    }
    Ok(())
}

pub fn validate_max_length(value: &str, max: usize, field: &'static str) -> (r: Result<()>)
    ensures
        r == max_length_outcome(value.spec_bytes(), max, field),
{
    let length = value.as_bytes().len();
    if length > max {
        return Err(AppError::Validation(ValidationError::TooLong { field, length, max }));
    }
    Ok(())
}

pub fn validate_min_length(value: &str, min: usize, field: &'static str) -> (r: Result<()>)
    ensures
        r == min_length_outcome(value.spec_bytes(), min, field),
{
    let length = value.as_bytes().len();
    if length < min {
        return Err(AppError::Validation(ValidationError::TooShort { field, length, min }));
    }
    Ok(())
}

pub fn validate_exact_length(value: &str, length: usize, field: &'static str) -> (r: Result<()>)
    ensures
        r is Ok <==> value.spec_bytes().len() == length,
        r is Err ==> is_exact_length_error(r, length, field),
{
    if value.as_bytes().len() != length {
        let mut reason = "must be exactly ".to_owned();
        push_decimal(&mut reason, length as u64);
        reason.append(" characters");
        return Err(AppError::Validation(ValidationError::Field { field, reason }));
    }
    Ok(())
}

pub fn validate_no_path_traversal(value: &str, field: &'static str) -> (r: Result<()>)
    ensures
        r == no_path_traversal_outcome(value.spec_bytes(), field),
{
    let b = value.as_bytes();
    if scan_pair(b, 46, 46) {
        return Err(AppError::Validation(ValidationError::PathTraversal { field }));
    }
    if b.len() > 0 && b[0] == 47 {
        return Err(AppError::Validation(ValidationError::PathTraversal { field }));
    }
    if scan_byte(b, 0) {
        return Err(AppError::Validation(ValidationError::PathTraversal { field }));
    }
    Ok(())
}

pub fn validate_project_name(value: &str) -> (r: Result<()>)
    ensures
        r == project_name_outcome(value.spec_bytes()),
{
    let field = "project_name";
    if let Err(e) = validate_not_empty(value, field) {
        return Err(e);
    }
    if let Err(e) = validate_max_length(value, PROJECT_NAME_MAX, field) {
        return Err(e);
    }
    if !is_safe_name(value.as_bytes()) {
        return Err(AppError::Validation(ValidationError::InvalidFormat {
            field,
            reason: "must start with letter and contain only alphanumeric, underscore, hyphen",
        }));
    }
    Ok(())
}

pub fn validate_github_owner(value: &str) -> (r: Result<()>)
    ensures
        r == github_owner_outcome(value.spec_bytes()),
{
    let field = "owner";
    if let Err(e) = validate_not_empty(value, field) {
        return Err(e);
    }
    if let Err(e) = validate_max_length(value, GITHUB_USERNAME_MAX, field) {
        return Err(e);
    }
    let b = value.as_bytes();
    if !is_github_username(b) {
        return Err(AppError::Validation(ValidationError::InvalidFormat {
            field,
            reason: "invalid GitHub username format",
        }));
    }
    if scan_pair(b, 45, 45) {
        return Err(AppError::Validation(ValidationError::InvalidFormat {
            field,
            reason: "cannot contain consecutive hyphens",
        }));
    }
    Ok(())
}

pub fn validate_github_repo(value: &str) -> (r: Result<()>)
    ensures
        r == github_repo_outcome(value.spec_bytes()),
{
    let field = "repo";
    if let Err(e) = validate_not_empty(value, field) {
        return Err(e);
    }
    if let Err(e) = validate_max_length(value, GITHUB_REPO_MAX, field) {
        return Err(e);
    }
    let b = value.as_bytes();
    if !is_github_repo(b) {
        return Err(AppError::Validation(ValidationError::InvalidFormat {
            field,
            reason: "invalid GitHub repository name format",
        }));
    }
    let dot_only = b.len() == 1 && b[0] == 46;
    let dot_dot = b.len() == 2 && b[0] == 46 && b[1] == 46;
    assert(dot_only <==> b@ =~= seq![46u8]);
    assert(dot_dot <==> b@ =~= seq![46u8, 46u8]);
    if dot_only || dot_dot {
        return Err(AppError::Validation(ValidationError::InvalidFormat {
            field,
            reason: "cannot be . or ..",
        }));
    }
    Ok(())
}

pub fn validate_git_branch(value: &str) -> (r: Result<()>)
    ensures
        r == git_branch_outcome(value.spec_bytes()),
{
    let field = "branch";
    if let Err(e) = validate_not_empty(value, field) {
        return Err(e);
    }
    if let Err(e) = validate_max_length(value, GIT_BRANCH_MAX, field) {
        return Err(e);
    }
    let b = value.as_bytes();
    if !is_git_branch(b) {
        return Err(AppError::Validation(ValidationError::InvalidFormat {
            field,
            reason: "invalid git branch name format",
        }));
    }
    let n = b.len();
    if b[0] == 45 || b[n - 1] == 46 || b[n - 1] == 47 {
        return Err(AppError::Validation(ValidationError::InvalidFormat {
            field,
            reason: "invalid branch name start/end character",
        }));
    }
    if scan_pair(b, 46, 46) || scan_pair(b, 47, 47) {
        return Err(AppError::Validation(ValidationError::InvalidFormat {
            field,
            reason: "cannot contain .. or //",
        }));
    }
    Ok(())
}

pub fn validate_commit_sha(value: &str) -> (r: Result<()>)
    ensures
        r is Ok <==> value.spec_bytes().len() == COMMIT_SHA_LENGTH && hex_format(value.spec_bytes()),
        value.spec_bytes().len() != COMMIT_SHA_LENGTH ==> is_exact_length_error(r, COMMIT_SHA_LENGTH, "commit_sha"),
        value.spec_bytes().len() == COMMIT_SHA_LENGTH && !hex_format(value.spec_bytes()) ==> r == invalid(
            ValidationError::InvalidFormat { field: "commit_sha", reason: "must be hexadecimal" },
        ),
{
    let field = "commit_sha";
    if let Err(e) = validate_exact_length(value, COMMIT_SHA_LENGTH, field) {
        return Err(e);
    }
    if !is_hex_string(value.as_bytes()) {
        return Err(AppError::Validation(ValidationError::InvalidFormat {
            field,
            reason: "must be hexadecimal",
        }));
    }
    Ok(())
}

pub fn validate_domain(value: &str) -> (r: Result<()>)
    ensures
        r == domain_outcome(value.spec_bytes()),
{
    let field = "domain";
    if let Err(e) = validate_not_empty(value, field) {
        return Err(e);
    }
    if let Err(e) = validate_max_length(value, DOMAIN_MAX, field) {
        return Err(e);
    }
    if !is_domain(value.as_bytes()) {
        return Err(AppError::Validation(ValidationError::InvalidFormat {
            field,
            reason: "invalid domain format",
        }));
    }
    Ok(())
}

pub fn validate_email(value: &str) -> (r: Result<()>)
    ensures
        r == email_outcome(value.spec_bytes()),
{
    let field = "email";
    if let Err(e) = validate_not_empty(value, field) {
        return Err(e);
    }
    if let Err(e) = validate_max_length(value, EMAIL_MAX, field) {
        return Err(e);
    }
    if !is_email(value.as_bytes()) {
        return Err(AppError::Validation(ValidationError::InvalidEmail { field }));
    }
    Ok(())
}

pub fn validate_s3_key(value: &str) -> (r: Result<()>)
    ensures
        r == s3_key_outcome(value.spec_bytes()),
{
    let field = "s3_key";
    if let Err(e) = validate_not_empty(value, field) {
        return Err(e);
    }
    if let Err(e) = validate_max_length(value, S3_KEY_MAX, field) {
        return Err(e);
    }
    if let Err(e) = validate_no_path_traversal(value, field) {
        return Err(e);
    }
    if scan_byte(value.as_bytes(), 0) {
        return Err(AppError::Validation(ValidationError::InvalidFormat {
            field,
            reason: "cannot contain null bytes",
        }));
    }
    Ok(())
}

/// `r` is the error that reports port `field` with `reason`.
pub open spec fn is_port_error(r: Result<()>, reason: Seq<char>) -> bool {
    match r {
        Err(AppError::Validation(ValidationError::Field { field, reason: got })) =>
            field == "port" && got@ == reason,
        _ => false,
    }
}

pub fn validate_port(value: u16) -> (r: Result<()>)
    ensures
        r is Ok <==> value >= 1,
        r is Err ==> is_port_error(r, "must be >= 1"@),
{
    if value < 1 {
        return Err(AppError::Validation(ValidationError::Field {
            field: "port",
            reason: "must be >= 1".to_owned(),
        }));
    }
    Ok(())
}

pub fn validate_port_unprivileged(value: u16) -> (r: Result<()>)
    ensures
        r is Ok <==> value >= 1024,
        r is Err ==> is_port_error(r, "must be >= 1024 (unprivileged)"@),
{
    if value < 1024 {
        return Err(AppError::Validation(ValidationError::Field {
            field: "port",
            reason: "must be >= 1024 (unprivileged)".to_owned(),
        }));
    }
    Ok(())
}

} // verus!
