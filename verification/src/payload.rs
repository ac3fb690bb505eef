//! The installer archive's place on disk.
//!
//! The archive is written once per run to a file in the directory for
//! temporary files. The file's name starts with a number picked at random,
//! so that two runs at the same time do not write to the same file.

use crate::paths::{join, join_spec, PathStyle};
use vstd::prelude::*;

verus! {

/// What every name of an archive file ends with.
pub const INSTALLER_JAR_SUFFIX: &'static str = "quilt-installer.jar";

/// The character for the digit `d`.
pub open spec fn digit_char(d: nat) -> char {
    if d == 0 {
        '0'
    } else if d == 1 {
        '1'
    } else if d == 2 {
        '2'
    } else if d == 3 {
        '3'
    } else if d == 4 {
        '4'
    } else if d == 5 {
        '5'
    } else if d == 6 {
        '6'
    } else if d == 7 {
        '7'
    } else if d == 8 {
        '8'
    } else {
        '9'
    }
}

/// The number `n` written in decimal digits, without leading zeros.
pub open spec fn decimal(n: nat) -> Seq<char>
    decreases n,
{
    if n < 10 {
        seq![digit_char(n)]
    } else {
        decimal(n / 10).push(digit_char(n % 10))
    }
}

/// The name of the archive file for the number `nonce`: the number in
/// decimal digits, directly followed by [`INSTALLER_JAR_SUFFIX`].
pub open spec fn installer_jar_name_spec(nonce: u32) -> Seq<char> {
    decimal(nonce as nat) + INSTALLER_JAR_SUFFIX@
}

/// The path of the archive file for the number `nonce` in the directory
/// `temp_dir`.
pub open spec fn installer_jar_path_spec(
    style: PathStyle,
    temp_dir: Seq<char>,
    nonce: u32,
) -> Seq<char> {
    join_spec(style, temp_dir, installer_jar_name_spec(nonce))
}

/// The digit `d` as text.
fn digit_str(d: u32) -> (text: &'static str)
    requires
        d < 10,
    ensures
        text@ == seq![digit_char(d as nat)],
{
    proof {
        reveal_strlit("0");
        reveal_strlit("1");
        reveal_strlit("2");
        reveal_strlit("3");
        reveal_strlit("4");
        reveal_strlit("5");
        reveal_strlit("6");
        reveal_strlit("7");
        reveal_strlit("8");
        reveal_strlit("9");
    }
    let text = if d == 0 {
        "0"
    } else if d == 1 {
        "1"
    } else if d == 2 {
        "2"
    } else if d == 3 {
        "3"
    } else if d == 4 {
        "4"
    } else if d == 5 {
        "5"
    } else if d == 6 {
        "6"
    } else if d == 7 {
        "7"
    } else if d == 8 {
        "8"
    } else {
        "9"
    };
    assert(text@ =~= seq![digit_char(d as nat)]);
    text
}

/// Appends the decimal digits of `n` to `out`.
pub fn push_decimal(out: &mut String, n: u32)
    ensures
        final(out)@ == old(out)@ + decimal(n as nat),
    decreases n,
{
    if n >= 10 {
        push_decimal(out, n / 10);
    }
    out.append(digit_str(n % 10));
    proof {
        if n >= 10 {
            assert(old(out)@ + decimal((n / 10) as nat) + seq![digit_char((n % 10) as nat)]
                =~= old(out)@ + decimal(n as nat));
        }
    }
}

/// The name of the archive file for the number `nonce`.
pub fn installer_jar_name(nonce: u32) -> (name: String)
    ensures
        name@ == installer_jar_name_spec(nonce),
{
    let mut name = String::new();
    push_decimal(&mut name, nonce);
    name.append(INSTALLER_JAR_SUFFIX);
    assert(name@ =~= installer_jar_name_spec(nonce));
    name
}

/// The path of the archive file for the number `nonce` in the directory
/// `temp_dir`.
pub fn installer_jar_path(style: PathStyle, temp_dir: &str, nonce: u32) -> (path: String)
    ensures
        path@ == installer_jar_path_spec(style, temp_dir@, nonce),
{
    let name = installer_jar_name(nonce);
    join(style, temp_dir, name.as_str())
}

/// Asks `rand::random` for a `u32`.
///
/// The call draws from the thread's random number generator, so nothing is
/// promised of the number but its type. The generator takes its seed from
/// the operating system when a thread first uses it, and `rand` panics if
/// the operating system cannot give one.
#[verifier::external_body]
fn random_u32() -> (nonce: u32) {
    rand::random::<u32>()
}

/// Picks the path of the archive file for this run, in the directory
/// `temp_dir`: the path for a number drawn at random.
pub fn fresh_installer_jar_path(style: PathStyle, temp_dir: &str) -> (path: String)
    ensures
        exists|nonce: u32| path@ == #[trigger] installer_jar_path_spec(style, temp_dir@, nonce),
{
    let nonce = random_u32();
    let path = installer_jar_path(style, temp_dir, nonce);
    assert(path@ == installer_jar_path_spec(style, temp_dir@, nonce));
    path
}

/// A number below ten has one digit, and every other number has more.
pub proof fn lemma_decimal_len(n: nat)
    ensures
        decimal(n).len() >= 1,
        n >= 10 ==> decimal(n).len() >= 2,
    decreases n,
{
    if n >= 10 {
        lemma_decimal_len(n / 10);
    }
}

/// The digits tell the numbers apart: two numbers are written alike only
/// if they are the same number.
pub proof fn lemma_decimal_is_injective(a: nat, b: nat)
    requires
        decimal(a) == decimal(b),
    ensures
        a == b,
    decreases a,
{
    lemma_decimal_len(a);
    lemma_decimal_len(b);
    if a >= 10 && b >= 10 {
        assert(decimal(a).drop_last() =~= decimal(a / 10));
        assert(decimal(b).drop_last() =~= decimal(b / 10));
        assert(decimal(a).last() == digit_char(a % 10));
        assert(decimal(b).last() == digit_char(b % 10));
        lemma_decimal_is_injective(a / 10, b / 10);
    } else if a < 10 && b < 10 {
        assert(decimal(a)[0] == digit_char(a));
        assert(decimal(b)[0] == digit_char(b));
    }
}

/// The names tell the numbers apart: two runs that draw different numbers
/// write to different files.
pub proof fn lemma_jar_names_tell_numbers_apart(a: u32, b: u32)
    requires
        installer_jar_name_spec(a) == installer_jar_name_spec(b),
    ensures
        a == b,
{
    let suffix = INSTALLER_JAR_SUFFIX@;
    let da = decimal(a as nat);
    let db = decimal(b as nat);
    assert((da + suffix).len() == da.len() + suffix.len());
    assert((db + suffix).len() == db.len() + suffix.len());
    assert(da =~= db) by {
        assert forall|i: int| 0 <= i < da.len() implies da[i] == db[i] by {
            assert((da + suffix)[i] == da[i]);
            assert((db + suffix)[i] == db[i]);
        }
    }
    lemma_decimal_is_injective(a as nat, b as nat);
}

} // verus!
