//! Character-level helpers shared by the services: lowercasing, slugs and
//! the small searches that the error messages need.
use vstd::prelude::*;
use vstd::string::*;

verus! {

/// What `str::to_lowercase` returns for a string with the given characters.
pub uninterp spec fn lowercase_of(s: Seq<char>) -> Seq<char>;

/// An ASCII uppercase letter.
pub open spec fn is_ascii_upper(c: char) -> bool {
    'A' <= c <= 'Z'
}

/// Text made of ASCII characters only.
pub open spec fn is_ascii_text(s: Seq<char>) -> bool {
    forall|i: int| 0 <= i < s.len() ==> (s[i] as int) < 128
}

/// A character with an ASCII uppercase letter turned into its lowercase letter.
pub open spec fn ascii_lower_char(c: char) -> char {
    if is_ascii_upper(c) {
        ((c as int) + 32) as char
    } else {
        c
    }
}

/// ASCII text lowercased character by character (what `str::to_ascii_lowercase` does).
pub open spec fn ascii_lowercase(s: Seq<char>) -> Seq<char> {
    Seq::new(s.len(), |i: int| ascii_lower_char(s[i]))
}

/// Calls `str::to_lowercase`.
/// Claimed: the result is `lowercase_of` the argument's characters; it holds no
/// ASCII uppercase letter (no Unicode lowercase mapping yields one); and on
/// ASCII text it is the ASCII lowercase, character by character, as
/// `to_ascii_lowercase` gives it. The rest of the Unicode case mapping is left
/// unstated.
#[verifier::external_body]
pub(crate) fn to_lowercase(s: &str) -> (r: String)
    ensures
        r@ == lowercase_of(s@),
        forall|i: int| 0 <= i < r@.len() ==> !is_ascii_upper(#[trigger] r@[i]),
        is_ascii_text(s@) ==> r@ == ascii_lowercase(s@),
{
    s.to_lowercase()
}

/// Calls `String::push`.
/// Claimed: the character is appended at the end, nothing else changes.
#[verifier::external_body]
pub(crate) fn push_char(s: &mut String, c: char)
    ensures
        final(s)@ == old(s)@.push(c),
{
    s.push(c)
}

/// The sequence with every occurrence of `from` replaced by `to`.
pub open spec fn replace_char(s: Seq<char>, from: char, to: char) -> Seq<char> {
    Seq::new(s.len(), |i: int| if s[i] == from { to } else { s[i] })
}

/// `needle` occurs in `hay` as a contiguous run starting at `i`.
pub open spec fn occurs_at(hay: Seq<char>, needle: Seq<char>, i: int) -> bool {
    0 <= i && i + needle.len() <= hay.len() && hay.subrange(i, i + needle.len()) == needle
}

/// `needle` occurs somewhere in `hay` (what `str::contains` tests).
pub open spec fn has_infix(hay: Seq<char>, needle: Seq<char>) -> bool {
    exists|i: int| occurs_at(hay, needle, i)
}

/// `i` is the first position of `c` in `s`.
pub open spec fn is_first_index(s: Seq<char>, c: char, i: int) -> bool {
    0 <= i < s.len() && s[i] == c && forall|k: int| 0 <= k < i ==> s[k] != c
}

/// `j` is the last position of `c` in `s`.
pub open spec fn is_last_index(s: Seq<char>, c: char, j: int) -> bool {
    0 <= j < s.len() && s[j] == c && forall|k: int| j < k < s.len() ==> s[k] != c
}

/// The slug of an already lowercased name: every space becomes a hyphen.
pub open spec fn slug_of_lowercase(lower: Seq<char>) -> Seq<char> {
    replace_char(lower, ' ', '-')
}

/// The slug that the services store for a name: lowercase, spaces as hyphens.
/// For ASCII names the lowercase is the ASCII one (which is what
/// `str::to_lowercase` gives on ASCII text).
pub open spec fn slug_of(name: Seq<char>) -> Seq<char> {
    if is_ascii_text(name) {
        slug_of_lowercase(ascii_lowercase(name))
    } else {
        slug_of_lowercase(lowercase_of(name))
    }
}

/// A slug holds no space: every space of the lowercased name became a hyphen.
pub proof fn slug_has_no_space(name: Seq<char>)
    ensures
        forall|i: int| 0 <= i < slug_of(name).len() ==> slug_of(name)[i] != ' ',
{
}

/// The slug of an ASCII name, character by character: a space becomes a
/// hyphen, an uppercase letter its lowercase letter, and any other character
/// stays. So it keeps the name's length and holds no uppercase letter.
pub proof fn ascii_slug_law(name: Seq<char>)
    requires
        is_ascii_text(name),
    ensures
        slug_of(name).len() == name.len(),
        forall|i: int|
            0 <= i < name.len() ==> #[trigger] slug_of(name)[i] == (if name[i] == ' ' {
                '-'
            } else if 'A' <= name[i] <= 'Z' {
                ((name[i] as int) + 32) as char
            } else {
                name[i]
            }),
        forall|i: int| 0 <= i < name.len() ==> !('A' <= #[trigger] slug_of(name)[i] <= 'Z'),
{
}

/// Making a slug of lowercase text that is already a slug gives it back:
/// no space is left to replace.
pub proof fn reslug_is_identity(lower: Seq<char>)
    ensures
        slug_of_lowercase(slug_of_lowercase(lower)) == slug_of_lowercase(lower),
{
    assert(slug_of_lowercase(slug_of_lowercase(lower)) =~= slug_of_lowercase(lower));
}

/// Copies `s`, replacing every `from` by `to`.
pub fn replace_all_char(s: &str, from: char, to: char) -> (r: String)
    ensures
        r@ == replace_char(s@, from, to),
{
    let n = s.unicode_len();
    let mut r = String::new();
    let mut i: usize = 0;
    while i < n
        invariant
            n == s@.len(),
            i <= n,
            r@ == replace_char(s@, from, to).subrange(0, i as int),
        decreases n - i,
    {
        let c = s.get_char(i);
        if c == from {
            push_char(&mut r, to);
        } else {
            push_char(&mut r, c);
        }
        i = i + 1;
        assert(r@ =~= replace_char(s@, from, to).subrange(0, i as int));
    }
    assert(r@ =~= replace_char(s@, from, to));
    r
}

/// The slug of a name that is already lowercase: spaces become hyphens.
pub fn slug_from_lowercase(lower: &str) -> (r: String)
    ensures
        r@ == slug_of_lowercase(lower@),
{
    replace_all_char(lower, ' ', '-')
}

/// Whether every character of the text is ASCII.
fn is_ascii_str(s: &str) -> (r: bool)
    ensures
        r == is_ascii_text(s@),
{
    let n = s.unicode_len();
    let mut i: usize = 0;
    while i < n
        invariant
            n == s@.len(),
            i <= n,
            forall|k: int| 0 <= k < i ==> (s@[k] as int) < 128,
        decreases n - i,
    {
        let c = s.get_char(i);
        if (c as u32) >= 128 {
            return false;
        }
        i = i + 1;
    }
    true
}

/// The slug of ASCII text: ASCII uppercase letters lowercased, spaces as hyphens.
fn ascii_slug(s: &str) -> (r: String)
    requires
        is_ascii_text(s@),
    ensures
        r@ == slug_of_lowercase(ascii_lowercase(s@)),
{
    let n = s.unicode_len();
    let mut r = String::new();
    let mut i: usize = 0;
    while i < n
        invariant
            n == s@.len(),
            i <= n,
            is_ascii_text(s@),
            r@ == slug_of_lowercase(ascii_lowercase(s@)).subrange(0, i as int),
        decreases n - i,
    {
        let c = s.get_char(i);
        let code: u32 = c as u32;
        if c == ' ' {
            push_char(&mut r, '-');
        } else if 'A' <= c && c <= 'Z' {
            let lower: u8 = (code + 32) as u8;
            push_char(&mut r, lower as char);
        } else {
            push_char(&mut r, c);
        }
        i = i + 1;
        assert(r@ =~= slug_of_lowercase(ascii_lowercase(s@)).subrange(0, i as int));
    }
    assert(r@ =~= slug_of_lowercase(ascii_lowercase(s@)));
    r
}

/// The slug of a name, as the category and product services store it:
/// `name.to_lowercase().replace(" ", "-")`. A slug holds no ASCII uppercase
/// letter.
pub fn slugify(name: &str) -> (r: String)
    ensures
        r@ == slug_of(name@),
        forall|i: int| 0 <= i < r@.len() ==> !is_ascii_upper(#[trigger] r@[i]),
{
    if is_ascii_str(name) {
        let r = ascii_slug(name);
        assert forall|i: int| 0 <= i < r@.len() implies !is_ascii_upper(#[trigger] r@[i]) by {
            assert(r@[i] == slug_of_lowercase(ascii_lowercase(name@))[i]);
        }
        r
    } else {
        let lower = to_lowercase(name);
        let r = slug_from_lowercase(lower.as_str());
        assert forall|i: int| 0 <= i < r@.len() implies !is_ascii_upper(#[trigger] r@[i]) by {
            assert(r@[i] == replace_char(lower@, ' ', '-')[i]);
        }
        r
    }
}

/// The first position of `c` in `s`, as `str::find` with a character
/// (counted in characters).
pub fn find_char(s: &str, c: char) -> (r: Option<usize>)
    ensures
        r matches Some(i) ==> is_first_index(s@, c, i as int),
        r is None ==> forall|k: int| 0 <= k < s@.len() ==> s@[k] != c,
{
    let n = s.unicode_len();
    let mut i: usize = 0;
    while i < n
        invariant
            n == s@.len(),
            i <= n,
            forall|k: int| 0 <= k < i ==> s@[k] != c,
        decreases n - i,
    {
        if s.get_char(i) == c {
            return Some(i);
        }
        i = i + 1;
    }
    None
}

/// The last position of `c` in `s`, as `str::rfind` with a character
/// (counted in characters).
pub fn rfind_char(s: &str, c: char) -> (r: Option<usize>)
    ensures
        r matches Some(j) ==> is_last_index(s@, c, j as int),
        r is None ==> forall|k: int| 0 <= k < s@.len() ==> s@[k] != c,
{
    let n = s.unicode_len();
    let mut i: usize = n;
    while i > 0
        invariant
            n == s@.len(),
            i <= n,
            forall|k: int| i <= k < n ==> s@[k] != c,
        decreases i,
    {
        if s.get_char(i - 1) == c {
            return Some(i - 1);
        }
        i = i - 1;
    }
    None
}

/// Whether `needle` occurs in `hay`, as `str::contains` with a string.
pub fn contains_str(hay: &str, needle: &str) -> (r: bool)
    ensures
        r == has_infix(hay@, needle@),
{
    let n = hay.unicode_len();
    let m = needle.unicode_len();
    if m > n {
        assert forall|i: int| !occurs_at(hay@, needle@, i) by {}
        return false;
    }
    let mut i: usize = 0;
    while i <= n - m
        invariant
            n == hay@.len(),
            m == needle@.len(),
            m <= n,
            i <= n - m + 1,
            forall|k: int| 0 <= k < i ==> !occurs_at(hay@, needle@, k),
        decreases n - m + 1 - i,
    {
        let mut j: usize = 0;
        let mut same = true;
        while j < m
            invariant
                n == hay@.len(),
                m == needle@.len(),
                i + m <= n,
                j <= m,
                same == forall|k: int| 0 <= k < j ==> hay@[i + k] == needle@[k],
            decreases m - j,
        {
            if hay.get_char(i + j) != needle.get_char(j) {
                same = false;
            }
            j = j + 1;
        }
        if same {
            assert(hay@.subrange(i as int, i + m) =~= needle@);
            assert(occurs_at(hay@, needle@, i as int));
            return true;
        }
        assert(!occurs_at(hay@, needle@, i as int)) by {
            if hay@.subrange(i as int, i + m) == needle@ {
                assert forall|k: int| 0 <= k < m implies hay@[i + k] == needle@[k] by {
                    assert(hay@.subrange(i as int, i + m)[k] == hay@[i + k]);
                }
            }
        }
        i = i + 1;
    }
    assert forall|k: int| !occurs_at(hay@, needle@, k) by {
        if 0 <= k < i {
        }
    }
    false
}


/// The character of a decimal digit `0 <= d < 10`.
pub open spec fn digit_char(d: int) -> char {
    ('0' as int + d) as char
}

/// The decimal digits of a natural number, most significant first.
pub open spec fn digits_of(n: nat) -> Seq<char>
    decreases n,
{
    if n < 10 {
        seq![digit_char(n as int)]
    } else {
        digits_of(n / 10).push(digit_char((n % 10) as int))
    }
}

/// The decimal text of an integer, as `Display` writes it: a minus sign for
/// negative numbers, no leading zeros.
pub open spec fn decimal_of(n: int) -> Seq<char> {
    if n < 0 {
        seq!['-'] + digits_of((-n) as nat)
    } else {
        digits_of(n as nat)
    }
}

/// Appends the decimal digits of `n`.
fn push_digits(s: &mut String, n: u64)
    ensures
        final(s)@ == old(s)@ + digits_of(n as nat),
    decreases n,
{
    let ghost start = s@;
    if n >= 10 {
        push_digits(s, n / 10);
    }
    let d = n % 10;
    let c = if d == 0 {
        '0'
    } else if d == 1 {
        '1'
    } else if d == 2 {
        '2'
    } else if d == 3 {
        '3'
    } else if d == 4 {
        '4'
    } else if d == 5 {
        '5'
    } else if d == 6 {
        '6'
    } else if d == 7 {
        '7'
    } else if d == 8 {
        '8'
    } else {
        '9'
    };
    assert(c == digit_char((n % 10) as int));
    push_char(s, c);
    assert(s@ =~= start + digits_of(n as nat));
}

/// The decimal text of a number.
pub fn decimal_text(n: i64) -> (r: String)
    ensures
        r@ == decimal_of(n as int),
{
    let mut s = String::new();
    if n < 0 {
        push_char(&mut s, '-');
        let m: u64 = (0i128 - (n as i128)) as u64;
        push_digits(&mut s, m);
    } else {
        push_digits(&mut s, n as u64);
    }
    assert(s@ =~= decimal_of(n as int));
    s
}

} // verus!
