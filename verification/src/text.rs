use vstd::prelude::*;
use vstd::string::StrSliceExecFns;
use vstd::string::StringExecFns;

verus! {

/// The characters left after removing every leading '/'.
pub open spec fn strip_slashes(s: Seq<char>) -> Seq<char>
    decreases s.len(),
{
    if s.len() > 0 && s[0] == '/' {
        strip_slashes(s.drop_first())
    } else {
        s
    }
}

proof fn lemma_strip_slashes_subrange(s: Seq<char>, i: int)
    requires
        0 <= i <= s.len(),
        forall|j: int| 0 <= j < i ==> s[j] == '/',
        i < s.len() ==> s[i] != '/',
    ensures
        strip_slashes(s) == s.subrange(i, s.len() as int),
    decreases i,
{
    if i == 0 {
        assert(s =~= s.subrange(0, s.len() as int));
    } else {
        lemma_strip_slashes_subrange(s.drop_first(), i - 1);
        assert(s.drop_first().subrange(i - 1, s.drop_first().len() as int) =~= s.subrange(
            i,
            s.len() as int,
        ));
    }
}

/// The suffix of `s` past its leading '/' characters, as `strip_slashes` states.
pub fn strip_leading_slashes(s: &str) -> (r: &str)
    ensures
        r@ == strip_slashes(s@),
{
    let n = s.unicode_len();
    let mut i: usize = 0;
    while i < n && s.get_char(i) == '/'
        invariant
            0 <= i <= n,
            n == s@.len(),
            forall|j: int| 0 <= j < i ==> s@[j] == '/',
        decreases n - i,
    {
        i = i + 1;
    }
    proof {
        lemma_strip_slashes_subrange(s@, i as int);
    }
    s.substring_char(i, n)
}

/// The lowercase form of a sequence of characters. What it is on given
/// characters is left to the Unicode tables that `str::to_lowercase` applies;
/// contracts only relate results of the same input.
pub uninterp spec fn lower_of(s: Seq<char>) -> Seq<char>;

/// Relies on `str::to_lowercase`: the lowercase equivalent of the string,
/// determined by its characters alone.
#[verifier::external_body]
pub(crate) fn lowercase(s: &str) -> (r: String)
    ensures
        r@ == lower_of(s@),
{
    s.to_lowercase()
}

/// `s` unchanged while it fits in `max_len` characters; otherwise its first
/// `max_len - 3` characters with a trailing "...".
pub open spec fn truncated(s: Seq<char>, max_len: int) -> Seq<char> {
    if s.len() <= max_len {
        s
    } else {
        s.take(max_len - 3) + "..."@
    }
}

/// Shortens `s` to at most `max_len` characters, marking any cut with "...".
pub fn truncate(s: &str, max_len: usize) -> (r: String)
    requires
        s@.len() > max_len ==> max_len >= 3,
    ensures
        r@ == truncated(s@, max_len as int),
        r@.len() == if s@.len() <= max_len {
            s@.len()
        } else {
            max_len as nat
        },
{
    proof {
        reveal_strlit("...");
    }
    let n = s.unicode_len();
    if n <= max_len {
        s.to_owned()
    } else {
        let prefix = s.substring_char(0, max_len - 3);
        String::from_str(prefix).concat("...")
    }
}

/// The first at most eight characters of a non-empty key followed by "...";
/// "***" for an empty key.
pub open spec fn masked_key(k: Seq<char>) -> Seq<char> {
    if k.len() == 0 {
        "***"@
    } else if k.len() <= 8 {
        k + "..."@
    } else {
        k.take(8) + "..."@
    }
}

/// Renders an API key for display without revealing more than its first
/// eight characters.
pub fn mask_api_key(key: &str) -> (r: String)
    ensures
        r@ == masked_key(key@),
{
    let n = key.unicode_len();
    if n == 0 {
        String::from_str("***")
    } else if n <= 8 {
        String::from_str(key).concat("...")
    } else {
        let visible = key.substring_char(0, 8);
        String::from_str(visible).concat("...")
    }
}

/// `n` spaces when `n` is positive, nothing otherwise.
pub open spec fn spaces(n: int) -> Seq<char> {
    Seq::new(
        if n >= 0 {
            n as nat
        } else {
            0
        },
        |i: int| ' ',
    )
}

/// `s` followed by spaces up to a display width of `width` characters;
/// a longer `s` stays unchanged.
pub open spec fn padded(s: Seq<char>, width: int) -> Seq<char> {
    s + spaces(width - s.len())
}

/// Left-aligns `s` in a field of `width` characters.
pub fn pad_right(s: &str, width: usize) -> (r: String)
    ensures
        r@ == padded(s@, width as int),
{
    let mut r = String::from_str(s);
    let mut i: usize = s.unicode_len();
    if i >= width {
        proof {
            assert(r@ =~= padded(s@, width as int));
        }
        return r;
    }
    while i < width
        invariant
            s@.len() <= i <= width,
            r@ == s@ + spaces(i - s@.len()),
        decreases width - i,
    {
        r.append(" ");
        proof {
            reveal_strlit(" ");
            assert(s@ + spaces(i - s@.len()) + " "@ =~= s@ + spaces(i + 1 - s@.len()));
        }
        i = i + 1;
    }
    proof {
        assert(s@ + spaces(width - s@.len()) =~= padded(s@, width as int));
    }
    r
}

/// A horizontal rule of `n` '-' characters.
pub fn dash_line(n: usize) -> (r: String)
    ensures
        r@ == Seq::new(n as nat, |i: int| '-'),
{
    let mut r = String::new();
    let mut i: usize = 0;
    while i < n
        invariant
            0 <= i <= n,
            r@ == Seq::new(i as nat, |j: int| '-'),
        decreases n - i,
    {
        r.append("-");
        proof {
            reveal_strlit("-");
            assert(Seq::new(i as nat, |j: int| '-') + "-"@ =~= Seq::new(
                (i + 1) as nat,
                |j: int| '-',
            ));
        }
        i = i + 1;
    }
    r
}

} // verus!
