//! Text helpers: decimal rendering, image references and object keys.

use vstd::prelude::*;
use vstd::string::*;

verus! {

/// The character that stands for a single decimal digit.
pub open spec fn digit_char(d: int) -> char {
    if d == 0 {
        '0'
    } else if d == 1 {
        '1'
    } else if d == 2 {
        '2'
    } else if d == 3 {
        '3'
    } else if d == 4 {
        '4'
    } else if d == 5 {
        '5'
    } else if d == 6 {
        '6'
    } else if d == 7 {
        '7'
    } else if d == 8 {
        '8'
    } else {
        '9'
    }
}

/// Decimal digits of a natural number, most significant first, no leading zero.
pub open spec fn digits(n: nat) -> Seq<char>
    decreases n,
{
    if n < 10 {
        seq![digit_char(n as int)]
    } else {
        digits(n / 10).push(digit_char((n % 10) as int))
    }
}

/// Decimal text of an integer: a minus sign for negative values, then the digits.
pub open spec fn decimal(n: int) -> Seq<char> {
    if n < 0 {
        seq!['-'] + digits((-n) as nat)
    } else {
        digits(n as nat)
    }
}

/// Number of leading characters of `s` that differ from `sep`.
pub open spec fn prefix_len(s: Seq<char>, sep: char) -> nat
    decreases s.len(),
{
    if s.len() == 0 || s[0] == sep {
        0
    } else {
        1 + prefix_len(s.drop_first(), sep)
    }
}

/// The repository part of a registry path: everything before its first colon,
/// the whole path where it has none.
pub open spec fn repository(path: Seq<char>) -> Seq<char> {
    path.take(prefix_len(path, ':') as int)
}

/// The reference that pins `path`'s repository to `digest`.
pub open spec fn image_reference_spec(path: Seq<char>, digest: Seq<char>) -> Seq<char> {
    repository(path) + seq!['@'] + digest
}

/// The storage key of `filename` under `prefix`.
pub open spec fn object_key_spec(prefix: Seq<char>, filename: Seq<char>) -> Seq<char> {
    prefix + seq!['/'] + filename
}

/// A position with a separator, before which there is none, is `prefix_len`.
pub proof fn lemma_prefix_len_unique(s: Seq<char>, sep: char, k: int)
    requires
        0 <= k <= s.len(),
        forall|i: int| 0 <= i < k ==> s[i] != sep,
        k < s.len() ==> s[k] == sep,
    ensures
        prefix_len(s, sep) == k,
    decreases s.len(),
{
    if s.len() == 0 || s[0] == sep {
        if k > 0 {
            assert(s[0] != sep);
        }
    } else {
        let t = s.drop_first();
        assert(k > 0);
        assert forall|i: int| 0 <= i < k - 1 implies t[i] != sep by {
            assert(t[i] == s[i + 1]);
        }
        if k - 1 < t.len() {
            assert(t[k - 1] == s[k]);
        }
        lemma_prefix_len_unique(t, sep, k - 1);
    }
}

fn digit_text(d: u64) -> (r: &'static str)
    requires
        d < 10,
    ensures
        r@ == seq![digit_char(d as int)],
{
    proof {
        reveal_strlit("0");
        reveal_strlit("1");
        reveal_strlit("2");
        reveal_strlit("3");
        reveal_strlit("4");
        reveal_strlit("5");
        reveal_strlit("6");
        reveal_strlit("7");
        reveal_strlit("8");
        reveal_strlit("9");
    }
    let r = if d == 0 {
        "0"
    } else if d == 1 {
        "1"
    } else if d == 2 {
        "2"
    } else if d == 3 {
        "3"
    } else if d == 4 {
        "4"
    } else if d == 5 {
        "5"
    } else if d == 6 {
        "6"
    } else if d == 7 {
        "7"
    } else if d == 8 {
        "8"
    } else {
        "9"
    };
    assert(r@ =~= seq![digit_char(d as int)]);
    r
}

/// Renders an unsigned number in decimal.
pub fn render_unsigned(n: u64) -> (r: String)
    ensures
        r@ == digits(n as nat),
    decreases n,
{
    if n < 10 {
        String::from_str(digit_text(n))
    } else {
        let head = render_unsigned(n / 10);
        let r = head.concat(digit_text(n % 10));
        assert(r@ =~= digits(n as nat));
        r
    }
}

/// Renders a signed number in decimal.
pub fn render_signed(n: i32) -> (r: String)
    ensures
        r@ == decimal(n as int),
{
    if n < 0 {
        let magnitude: u64 = (-(n as i64)) as u64;
        let body = render_unsigned(magnitude);
        proof {
            reveal_strlit("-");
        }
        let r = String::from_str("-").concat(body.as_str());
        assert(r@ =~= decimal(n as int));
        r
    } else {
        render_unsigned(n as u64)
    }
}

/// Joins two texts.
pub fn join(left: &str, right: &str) -> (r: String)
    ensures
        r@ == left@ + right@,
{
    String::from_str(left).concat(right)
}

/// Cuts a registry path before its first colon.
pub fn repository_of(path: &str) -> (r: String)
    ensures
        r@ == repository(path@),
{
    let n: usize = path.unicode_len();
    let mut i: usize = 0;
    while i < n && path.get_char(i) != ':'
        invariant
            n == path@.len(),
            i <= n,
            forall|j: int| 0 <= j < i ==> path@[j] != ':',
        decreases n - i,
    {
        i += 1;
    }
    proof {
        lemma_prefix_len_unique(path@, ':', i as int);
    }
    String::from_str(path.substring_char(0, i))
}

/// Resolves the reference that a build is pinned to: the repository of
/// `registry_path`, an at sign, and the digest.
pub fn image_reference(registry_path: &str, digest: &str) -> (r: String)
    ensures
        r@ == image_reference_spec(registry_path@, digest@),
{
    proof {
        reveal_strlit("@");
    }
    let r = repository_of(registry_path).concat("@").concat(digest);
    assert(r@ =~= image_reference_spec(registry_path@, digest@));
    r
}

/// Builds the key under which a file is stored: the prefix, a slash, the name.
pub fn object_key(prefix: &str, filename: &str) -> (r: String)
    ensures
        r@ == object_key_spec(prefix@, filename@),
{
    proof {
        reveal_strlit("/");
    }
    let r = String::from_str(prefix).concat("/").concat(filename);
    assert(r@ =~= object_key_spec(prefix@, filename@));
    r
}

} // verus!
