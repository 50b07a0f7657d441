//! Global identifiers: building an edit's identifier from its article's, and
//! checking that an identifier is URL-shaped.
use crate::version::EditVersion;
use vstd::prelude::*;
use vstd::string::StrSliceExecFns;
use vstd::string::StringExecFns;

verus! {

/// Whether `url::Url::parse` accepts the text.
pub uninterp spec fn url_parses(s: Seq<char>) -> bool;

/// Relies on `url::Url::parse`: whether the text is a valid URL depends on
/// the text alone.
#[verifier::external_body]
pub fn check_url(s: &str) -> (r: bool)
    ensures
        r == url_parses(s@),
{
    url::Url::parse(s).is_ok()
}

/// The character for one hexadecimal digit.
pub open spec fn hex_digit(d: int) -> char {
    if d == 0 { '0' } else if d == 1 { '1' } else if d == 2 { '2' } else if d == 3 { '3' }
    else if d == 4 { '4' } else if d == 5 { '5' } else if d == 6 { '6' } else if d == 7 { '7' }
    else if d == 8 { '8' } else if d == 9 { '9' } else if d == 10 { 'a' } else if d == 11 { 'b' }
    else if d == 12 { 'c' } else if d == 13 { 'd' } else if d == 14 { 'e' } else { 'f' }
}

/// The hexadecimal rendering of a non-negative number, most significant
/// digit first.
pub open spec fn hex_str(n: int) -> Seq<char>
    decreases n,
{
    if n < 16 {
        seq![hex_digit(n)]
    } else {
        hex_str(n / 16) + seq![hex_digit(n % 16)]
    }
}

fn hex_digit_str(d: u64) -> (r: String)
    requires
        d < 16,
    ensures
        r@ == seq![hex_digit(d as int)],
{
    let digits = "0123456789abcdef";
    proof {
        reveal_strlit("0123456789abcdef");
    }
    let s = digits.substring_char(d as usize, d as usize + 1);
    proof {
        assert(s@ =~= seq![hex_digit(d as int)]);
    }
    String::from_str(s)
}

/// Renders a number in hexadecimal.
pub fn to_hex(n: u64) -> (r: String)
    ensures
        r@ == hex_str(n as int),
    decreases n,
{
    if n < 16 {
        hex_digit_str(n)
    } else {
        let mut s = to_hex(n / 16);
        let d = hex_digit_str(n % 16);
        s.append(d.as_str());
        s
    }
}

/// The global identifier an edit gets: its article's identifier, a slash,
/// and the edit's version in hexadecimal.
pub open spec fn edit_ap_id(article_ap_id: Seq<char>, version: EditVersion) -> Seq<char> {
    article_ap_id + seq!['/'] + hex_str(version.value as int)
}

/// Builds an edit's global identifier.
pub fn make_edit_ap_id(article_ap_id: &String, version: &EditVersion) -> (r: String)
    ensures
        r@ == edit_ap_id(article_ap_id@, *version),
{
    proof {
        reveal_strlit("/");
    }
    let base = article_ap_id.clone();
    let with_slash = base.concat("/");
    proof {
        assert(with_slash@ =~= article_ap_id@ + seq!['/']);
    }
    let hex = to_hex(version.value);
    let r = with_slash.concat(hex.as_str());
    proof {
        assert(r@ =~= edit_ap_id(article_ap_id@, *version));
    }
    r
}

} // verus!
