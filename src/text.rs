//! Text helpers: the clock shown beside the progress bar, recognising URIs that
//! already name a local file, and the file extensions the library scan accepts.
use vstd::prelude::*;

verus! {

/// The decimal digit `d`, for `d < 10`.
pub open spec fn digit_char(d: nat) -> char {
    if d == 0 {
        '0'
    } else if d == 1 {
        '1'
    } else if d == 2 {
        '2'
    } else if d == 3 {
        '3'
    } else if d == 4 {
        '4'
    } else if d == 5 {
        '5'
    } else if d == 6 {
        '6'
    } else if d == 7 {
        '7'
    } else if d == 8 {
        '8'
    } else {
        '9'
    }
}

/// `n` written in decimal, without leading zeros.
pub open spec fn decimal(n: nat) -> Seq<char>
    decreases n,
{
    if n < 10 {
        seq![digit_char(n)]
    } else {
        decimal(n / 10).push(digit_char(n % 10))
    }
}

/// `n` in decimal, padded with a zero to at least two digits.
pub open spec fn two_digits(n: nat) -> Seq<char> {
    if n < 10 {
        seq!['0', digit_char(n)]
    } else {
        decimal(n)
    }
}

/// A duration of `total` whole seconds as minutes and seconds, `MM:SS`.
pub open spec fn clock_spec(total: nat) -> Seq<char> {
    two_digits(total / 60) + seq![':'] + two_digits(total % 60)
}

/// The file extensions that a folder scan adds to the library, in lower case.
pub open spec fn is_audio_extension_spec(e: Seq<char>) -> bool {
    ||| e == "mp3"@
    ||| e == "wav"@
    ||| e == "ogg"@
    ||| e == "flac"@
    ||| e == "m4a"@
    ||| e == "mp4"@
}

/// What `str::to_lowercase` returns for `s`.
pub uninterp spec fn lower_of(s: Seq<char>) -> Seq<char>;

/// Relies on str::to_lowercase: the result depends on the characters alone, and the
/// empty string stays empty.
#[verifier::external_body]
fn lowercase(s: &str) -> (r: String)
    ensures
        r@ == lower_of(s@),
        s@.len() == 0 ==> r@.len() == 0,
{
    s.to_lowercase()
}

fn digit_str(d: u64) -> (r: &'static str)
    requires
        d < 10,
    ensures
        r@ == seq![digit_char(d as nat)],
{
    if d == 0 {
        proof { reveal_strlit("0"); }
        "0"
    } else if d == 1 {
        proof { reveal_strlit("1"); }
        "1"
    } else if d == 2 {
        proof { reveal_strlit("2"); }
        "2"
    } else if d == 3 {
        proof { reveal_strlit("3"); }
        "3"
    } else if d == 4 {
        proof { reveal_strlit("4"); }
        "4"
    } else if d == 5 {
        proof { reveal_strlit("5"); }
        "5"
    } else if d == 6 {
        proof { reveal_strlit("6"); }
        "6"
    } else if d == 7 {
        proof { reveal_strlit("7"); }
        "7"
    } else if d == 8 {
        proof { reveal_strlit("8"); }
        "8"
    } else {
        proof { reveal_strlit("9"); }
        "9"
    }
}

fn append_decimal(s: &mut String, n: u64)
    ensures
        final(s)@ == old(s)@ + decimal(n as nat),
    decreases n,
{
    if n >= 10 {
        append_decimal(s, n / 10);
    }
    s.append(digit_str(n % 10));
    proof {
        assert(old(s)@ + decimal(n as nat) == old(s)@ + (if n < 10 {
            seq![digit_char(n as nat)]
        } else {
            decimal((n / 10) as nat) + seq![digit_char((n % 10) as nat)]
        }));
    }
}

fn append_two_digits(s: &mut String, n: u64)
    ensures
        final(s)@ == old(s)@ + two_digits(n as nat),
{
    if n < 10 {
        proof { reveal_strlit("0"); }
        s.append("0");
        s.append(digit_str(n));
        assert(final(s)@ == old(s)@ + two_digits(n as nat)) by {
            assert(old(s)@ + seq!['0'] + seq![digit_char(n as nat)] =~= old(s)@ + seq!['0', digit_char(n as nat)]);
        }
    } else {
        append_decimal(s, n);
    }
}

/// The clock text for `total_seconds`: whole minutes, a colon, and the seconds left
/// over, each at least two digits wide.
pub fn clock_text(total_seconds: u64) -> (r: String)
    ensures
        r@ == clock_spec(total_seconds as nat),
{
    let mut s = String::new();
    append_two_digits(&mut s, total_seconds / 60);
    proof { reveal_strlit(":"); }
    s.append(":");
    append_two_digits(&mut s, total_seconds % 60);
    assert(s@ =~= clock_spec(total_seconds as nat));
    s
}

/// Whether `s` begins with `prefix`.
pub fn has_prefix(s: &str, prefix: &str) -> (r: bool)
    ensures
        r == (prefix@.len() <= s@.len() && s@.subrange(0, prefix@.len() as int) == prefix@),
{
    let n = prefix.unicode_len();
    let m = s.unicode_len();
    if n > m {
        return false;
    }
    let mut i: usize = 0;
    while i < n
        invariant
            n == prefix@.len(),
            m == s@.len(),
            n <= m,
            i <= n,
            forall|j: int| 0 <= j < i ==> s@[j] == prefix@[j],
        decreases n - i,
    {
        if s.get_char(i) != prefix.get_char(i) {
            assert(s@.subrange(0, n as int)[i as int] != prefix@[i as int]);
            return false;
        }
        i = i + 1;
    }
    assert(s@.subrange(0, n as int) =~= prefix@);
    true
}

/// Whether two strings hold the same characters.
pub fn same_text(a: &str, b: &str) -> (r: bool)
    ensures
        r == (a@ == b@),
{
    if a.unicode_len() != b.unicode_len() {
        return false;
    }
    let r = has_prefix(a, b);
    assert(a@.subrange(0, b@.len() as int) =~= a@);
    r
}

/// Whether `path` is already a `file://` URI, which the player hands to the
/// pipeline as it is.
pub fn is_file_uri(path: &str) -> (r: bool)
    ensures
        r == ("file://"@.len() <= path@.len() && path@.subrange(0, "file://"@.len() as int)
            == "file://"@),
{
    has_prefix(path, "file://")
}

/// Whether a file extension, already in lower case, is one that the scan adds.
pub fn is_audio_extension_folded(ext_lower: &str) -> (r: bool)
    ensures
        r == is_audio_extension_spec(ext_lower@),
{
    same_text(ext_lower, "mp3") || same_text(ext_lower, "wav") || same_text(ext_lower, "ogg")
        || same_text(ext_lower, "flac") || same_text(ext_lower, "m4a") || same_text(
        ext_lower,
        "mp4",
    )
}

/// Whether a file extension, in any case, is one that the scan adds.
pub fn is_audio_extension(ext: &str) -> (r: bool)
    ensures
        r == is_audio_extension_spec(lower_of(ext@)),
{
    let folded = lowercase(ext);
    is_audio_extension_folded(folded.as_str())
}

} // verus!
