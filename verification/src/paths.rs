use vstd::prelude::*;
use vstd::string::StringExecFns;

verus! {

/// What `std::path::Path::join` makes of `base` and `rest`.
pub uninterp spec fn joined(base: Seq<char>, rest: Seq<char>) -> Seq<char>;

/// What `std::path::Path::parent` finds for `path`.
pub uninterp spec fn parent_of(path: Seq<char>) -> Option<Seq<char>>;

/// What `std::path::Path::file_name` finds for `path`.
pub uninterp spec fn file_name_of(path: Seq<char>) -> Option<Seq<char>>;

/// Whether `std::path::Path::is_absolute` holds of `path`.
pub uninterp spec fn is_absolute_path(path: Seq<char>) -> bool;

/// Whether `a` and `b` are equal as `std::path::Path`s.
pub uninterp spec fn same_path(a: Seq<char>, b: Seq<char>) -> bool;

/// The text of an optional string.
pub open spec fn text_of(s: Option<String>) -> Option<Seq<char>> {
    match s {
        Some(s) => Some(s@),
        None => None,
    }
}

/// Calls `std::path::Path::join`. The path that comes back is named `joined`: it
/// depends on the two strings alone, by rules that std fixes for the platform it is
/// built for. Both arguments are valid UTF-8, so the result is too and no character is
/// replaced when it is turned back into a `String`.
#[verifier::external_body]
pub(crate) fn join(base: &str, rest: &str) -> (r: String)
    ensures
        r@ == joined(base@, rest@),
{
    std::path::Path::new(base).join(rest).to_string_lossy().into_owned()
}

/// Calls `std::path::Path::parent`. The result is named `parent_of`: the path without
/// its last component, or `None` where the path ends in a root or is empty.
#[verifier::external_body]
pub(crate) fn parent(path: &str) -> (r: Option<String>)
    ensures
        text_of(r) == parent_of(path@),
{
    match std::path::Path::new(path).parent() {
        Some(p) => Some(p.to_string_lossy().into_owned()),
        None => None,
    }
}

/// Calls `std::path::Path::file_name`. The result is named `file_name_of`: the last
/// component of the path, or `None` where the path ends in `..` or has no component.
#[verifier::external_body]
pub(crate) fn file_name(path: &str) -> (r: Option<String>)
    ensures
        text_of(r) == file_name_of(path@),
{
    match std::path::Path::new(path).file_name() {
        Some(name) => Some(name.to_string_lossy().into_owned()),
        None => None,
    }
}

/// Calls `std::path::Path::is_absolute`. The answer is named `is_absolute_path`.
#[verifier::external_body]
pub(crate) fn is_absolute(path: &str) -> (r: bool)
    ensures
        r == is_absolute_path(path@),
{
    std::path::Path::new(path).is_absolute()
}

/// Compares two strings with the `==` of `std::path::Path`, which goes by components
/// and not by characters. The answer is named `same_path`.
#[verifier::external_body]
pub(crate) fn is_same_path(a: &str, b: &str) -> (r: bool)
    ensures
        r == same_path(a@, b@),
{
    std::path::Path::new(a) == std::path::Path::new(b)
}

/// The decimal digit for `d`.
pub open spec fn digit(d: nat) -> char
    recommends
        d < 10,
{
    if d == 0 {
        '0'
    } else if d == 1 {
        '1'
    } else if d == 2 {
        '2'
    } else if d == 3 {
        '3'
    } else if d == 4 {
        '4'
    } else if d == 5 {
        '5'
    } else if d == 6 {
        '6'
    } else if d == 7 {
        '7'
    } else if d == 8 {
        '8'
    } else {
        '9'
    }
}

/// `n` in decimal digits, without leading zeros.
pub open spec fn decimal(n: nat) -> Seq<char>
    decreases n,
{
    if n < 10 {
        seq![digit(n)]
    } else {
        decimal(n / 10).push(digit(n % 10))
    }
}

fn digit_str(d: usize) -> (r: &'static str)
    requires
        d < 10,
    ensures
        r@ == seq![digit(d as nat)],
{
    proof {
        reveal_strlit("0");
        reveal_strlit("1");
        reveal_strlit("2");
        reveal_strlit("3");
        reveal_strlit("4");
        reveal_strlit("5");
        reveal_strlit("6");
        reveal_strlit("7");
        reveal_strlit("8");
        reveal_strlit("9");
    }
    let r = if d == 0 {
        "0"
    } else if d == 1 {
        "1"
    } else if d == 2 {
        "2"
    } else if d == 3 {
        "3"
    } else if d == 4 {
        "4"
    } else if d == 5 {
        "5"
    } else if d == 6 {
        "6"
    } else if d == 7 {
        "7"
    } else if d == 8 {
        "8"
    } else {
        "9"
    };
    assert(r@ =~= seq![digit(d as nat)]);
    r
}

/// `n` written in decimal digits.
pub fn decimal_string(n: usize) -> (r: String)
    ensures
        r@ == decimal(n as nat),
{
    let mut out = String::from_str(digit_str(n % 10));
    let mut rest: usize = n / 10;
    assert(rest == 0 ==> decimal(n as nat) =~= out@);
    assert(rest > 0 ==> decimal(n as nat) =~= decimal(rest as nat) + out@);
    while rest > 0
        invariant
            rest == 0 ==> decimal(n as nat) == out@,
            rest > 0 ==> decimal(n as nat) == decimal(rest as nat) + out@,
        decreases rest,
    {
        let next = String::from_str(digit_str(rest % 10));
        let ghost before = out@;
        let ghost old_rest = rest;
        out = next.concat(out.as_str());
        rest = rest / 10;
        proof {
            assert(out@ =~= seq![digit((old_rest % 10) as nat)] + before);
            if rest == 0 {
                assert(decimal(old_rest as nat) =~= seq![digit((old_rest % 10) as nat)]);
                assert(decimal(n as nat) =~= out@);
            } else {
                assert(decimal(old_rest as nat) =~= decimal(rest as nat).push(
                    digit((old_rest % 10) as nat),
                ));
                assert(decimal(n as nat) =~= decimal(rest as nat) + out@);
            }
        }
    }
    out
}

/// The name of the directory, inside the staging directory, that holds the backups.
pub open spec fn backup_dir_name() -> Seq<char> {
    ".update_temp_path_old_version"@
}

/// The directory that holds the backups of an update staged at `staging_root`.
pub open spec fn backup_root_of(staging_root: Seq<char>) -> Seq<char> {
    joined(staging_root, backup_dir_name())
}

/// The path of the backup slot for the manifest entry at `index`.
pub open spec fn slot_path(backup_root: Seq<char>, index: nat) -> Seq<char> {
    joined(backup_root, decimal(index))
}

/// The directory that holds the backups of an update staged at `staging_root`.
pub fn backup_root(staging_root: &str) -> (r: String)
    ensures
        r@ == backup_root_of(staging_root@),
{
    join(staging_root, ".update_temp_path_old_version")
}

/// The path of the backup slot for the manifest entry at `index`: the file in
/// `backup_root` that is named by the index in decimal digits.
pub fn backup_slot(backup_root: &str, index: usize) -> (r: String)
    ensures
        r@ == slot_path(backup_root@, index as nat),
{
    let name = decimal_string(index);
    join(backup_root, name.as_str())
}

} // verus!
