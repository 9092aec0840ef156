//! Where the configuration is read from, where the reduced document is
//! written to, and the line that tells a shell about it.

use vstd::prelude::*;

verus! {

/// The character of the decimal digit `d`.
pub open spec fn digit(d: nat) -> char {
    if d == 0 {
        '0'
    } else if d == 1 {
        '1'
    } else if d == 2 {
        '2'
    } else if d == 3 {
        '3'
    } else if d == 4 {
        '4'
    } else if d == 5 {
        '5'
    } else if d == 6 {
        '6'
    } else if d == 7 {
        '7'
    } else if d == 8 {
        '8'
    } else {
        '9'
    }
}

/// The decimal numeral of `n`, without leading zeros.
pub open spec fn decimal(n: nat) -> Seq<char>
    decreases n,
{
    if n < 10 {
        seq![digit(n)]
    } else {
        decimal(n / 10) + seq![digit(n % 10)]
    }
}

/// The path of the configuration below the home directory `home`.
pub open spec fn config_location(home: Seq<char>) -> Seq<char> {
    home + "/.kube/config"@
}

/// The path of the reduced document that is written `millis` milliseconds
/// after the start of 1970.
pub open spec fn output_location(millis: nat) -> Seq<char> {
    "/tmp/kubeconfig."@ + decimal(millis)
}

/// The line that makes a shell use the document at `path`.
pub open spec fn export_command(path: Seq<char>) -> Seq<char> {
    "export KUBECONFIG="@ + path
}

/// The numeral of one decimal digit.
fn digit_text(d: u8) -> (r: &'static str)
    requires
        d < 10,
    ensures
        r@ == seq![digit(d as nat)],
{
    proof {
        reveal_strlit("0");
        reveal_strlit("1");
        reveal_strlit("2");
        reveal_strlit("3");
        reveal_strlit("4");
        reveal_strlit("5");
        reveal_strlit("6");
        reveal_strlit("7");
        reveal_strlit("8");
        reveal_strlit("9");
    }
    if d == 0 {
        "0"
    } else if d == 1 {
        "1"
    } else if d == 2 {
        "2"
    } else if d == 3 {
        "3"
    } else if d == 4 {
        "4"
    } else if d == 5 {
        "5"
    } else if d == 6 {
        "6"
    } else if d == 7 {
        "7"
    } else if d == 8 {
        "8"
    } else {
        "9"
    }
}

/// Appends the decimal numeral of `n`.
fn put_decimal(out: &mut String, n: u128)
    ensures
        final(out)@ == old(out)@ + decimal(n as nat),
    decreases n,
{
    if n >= 10 {
        put_decimal(out, n / 10);
    }
    let last: u8 = (n % 10) as u8;
    out.append(digit_text(last));
}

/// The path of the configuration below the home directory `home`.
pub fn config_path(home: &str) -> (r: String)
    ensures
        r@ == config_location(home@),
{
    let mut path = home.to_owned();
    path.append("/.kube/config");
    path
}

/// The path of the reduced document that is written `millis` milliseconds
/// after the start of 1970.
pub fn output_path(millis: u128) -> (r: String)
    ensures
        r@ == output_location(millis as nat),
{
    let mut path = "/tmp/kubeconfig.".to_owned();
    put_decimal(&mut path, millis);
    path
}

/// The line that makes a shell use the document at `path`.
pub fn export_line(path: &str) -> (r: String)
    ensures
        r@ == export_command(path@),
{
    let mut line = "export KUBECONFIG=".to_owned();
    line.append(path);
    line
}

} // verus!
