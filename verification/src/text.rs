//! Character-level text helpers: Unicode white space, trimming, splitting on
//! a separator, comparison, and the Unicode case mappings that std provides.

use vstd::prelude::*;

verus! {

/// The Unicode `White_Space` property (PropList.txt), which is what
/// `char::is_whitespace` and `str::trim` go by.
pub open spec fn is_white_space(c: char) -> bool {
    let u = c as u32;
    ||| 0x09 <= u <= 0x0d
    ||| u == 0x20
    ||| u == 0x85
    ||| u == 0xa0
    ||| u == 0x1680
    ||| 0x2000 <= u <= 0x200a
    ||| u == 0x2028
    ||| u == 0x2029
    ||| u == 0x202f
    ||| u == 0x205f
    ||| u == 0x3000
}

/// `s` without its leading white space.
pub open spec fn trim_start(s: Seq<char>) -> Seq<char>
    decreases s.len(),
{
    if s.len() > 0 && is_white_space(s[0]) {
        trim_start(s.drop_first())
    } else {
        s
    }
}

/// `s` without its trailing white space.
pub open spec fn trim_end(s: Seq<char>) -> Seq<char>
    decreases s.len(),
{
    if s.len() > 0 && is_white_space(s.last()) {
        trim_end(s.drop_last())
    } else {
        s
    }
}

/// `s` without leading and trailing white space, as `str::trim` gives it.
pub open spec fn trimmed(s: Seq<char>) -> Seq<char> {
    trim_end(trim_start(s))
}

/// The pieces of `s` between occurrences of `sep`, in order, as `str::split`
/// with a `char` pattern gives them: there is always at least one piece, and
/// each occurrence of `sep` starts a new one (possibly empty).
pub open spec fn split_on(s: Seq<char>, sep: char) -> Seq<Seq<char>>
    decreases s.len(),
{
    if s.len() == 0 {
        seq![Seq::<char>::empty()]
    } else {
        let prev = split_on(s.drop_last(), sep);
        if s.last() == sep {
            prev.push(Seq::<char>::empty())
        } else {
            prev.update(prev.len() - 1, prev.last().push(s.last()))
        }
    }
}

/// Splitting always yields at least one piece.
pub proof fn lemma_split_on_nonempty(s: Seq<char>, sep: char)
    ensures
        split_on(s, sep).len() >= 1,
    decreases s.len(),
{
    if s.len() > 0 {
        lemma_split_on_nonempty(s.drop_last(), sep);
    }
}

/// No piece of a split contains the separator.
pub proof fn lemma_split_on_pieces_lack_sep(s: Seq<char>, sep: char)
    ensures
        forall|k: int|
            0 <= k < split_on(s, sep).len() ==> !(#[trigger] split_on(s, sep)[k]).contains(sep),
    decreases s.len(),
{
    if s.len() > 0 {
        lemma_split_on_nonempty(s.drop_last(), sep);
        lemma_split_on_pieces_lack_sep(s.drop_last(), sep);
        let prev = split_on(s.drop_last(), sep);
        if s.last() != sep {
            let last = prev.last().push(s.last());
            assert forall|j: int| 0 <= j < last.len() implies last[j] != sep by {
                if j < prev.last().len() {
                    assert(prev.last()[j] != sep) by {
                        if prev.last()[j] == sep {
                            assert(prev[prev.len() - 1].contains(sep));
                        }
                    }
                }
            }
        }
    }
}

fn is_white_space_char(c: char) -> (r: bool)
    ensures
        r == is_white_space(c),
{
    let u: u32 = c as u32;
    (0x09 <= u && u <= 0x0d) || u == 0x20 || u == 0x85 || u == 0xa0 || u == 0x1680 || (0x2000
        <= u && u <= 0x200a) || u == 0x2028 || u == 0x2029 || u == 0x202f || u == 0x205f || u
        == 0x3000
}

proof fn lemma_trim_start_skip(s: Seq<char>, i: int)
    requires
        0 <= i < s.len(),
        is_white_space(s[i]),
    ensures
        trim_start(s.subrange(i, s.len() as int)) == trim_start(s.subrange(i + 1, s.len() as int)),
{
    assert(s.subrange(i, s.len() as int).drop_first() =~= s.subrange(i + 1, s.len() as int));
}

proof fn lemma_trim_end_drop(s: Seq<char>, i: int, j: int)
    requires
        0 <= i < j <= s.len(),
        is_white_space(s[j - 1]),
    ensures
        trim_end(s.subrange(i, j)) == trim_end(s.subrange(i, j - 1)),
{
    assert(s.subrange(i, j).drop_last() =~= s.subrange(i, j - 1));
}

/// `s` with leading and trailing Unicode white space removed.
pub fn trim(s: &str) -> (r: &str)
    ensures
        r@ == trimmed(s@),
{
    let n = s.unicode_len();
    let mut i: usize = 0;
    proof {
        assert(s@.subrange(0, n as int) =~= s@);
    }
    while i < n && is_white_space_char(s.get_char(i))
        invariant
            n == s@.len(),
            i <= n,
            trim_start(s@) == trim_start(s@.subrange(i as int, n as int)),
        decreases n - i,
    {
        proof {
            lemma_trim_start_skip(s@, i as int);
        }
        i = i + 1;
    }
    proof {
        let rest = s@.subrange(i as int, n as int);
        if i < n {
            assert(rest[0] == s@[i as int]);
        }
        assert(trim_start(rest) == rest);
    }
    let mut j: usize = n;
    while j > i && is_white_space_char(s.get_char(j - 1))
        invariant
            n == s@.len(),
            i <= j <= n,
            trim_start(s@) == s@.subrange(i as int, n as int),
            trimmed(s@) == trim_end(s@.subrange(i as int, j as int)),
        decreases j,
    {
        proof {
            lemma_trim_end_drop(s@, i as int, j as int);
        }
        j = j - 1;
    }
    proof {
        let mid = s@.subrange(i as int, j as int);
        if j > i {
            assert(mid.last() == s@[j - 1]);
        }
        assert(trim_end(mid) == mid);
    }
    s.substring_char(i, j)
}

/// The pieces of `s` between occurrences of `sep`, in order.
pub fn split(s: &str, sep: char) -> (parts: Vec<String>)
    ensures
        parts@.map_values(|p: String| p@) == split_on(s@, sep),
{
    let n = s.unicode_len();
    let mut parts: Vec<String> = Vec::new();
    let mut start: usize = 0;
    let mut i: usize = 0;
    proof {
        assert(s@.take(0) =~= Seq::<char>::empty());
        assert(s@.subrange(0, 0) =~= Seq::<char>::empty());
        assert(parts@.map_values(|p: String| p@).push(s@.subrange(0, 0)) =~= seq![
            Seq::<char>::empty(),
        ]);
    }
    while i < n
        invariant
            n == s@.len(),
            start <= i <= n,
            parts@.map_values(|p: String| p@).push(s@.subrange(start as int, i as int)) == split_on(
                s@.take(i as int),
                sep,
            ),
        decreases n - i,
    {
        let c = s.get_char(i);
        let ghost before = parts@.map_values(|p: String| p@);
        let ghost old_start = start;
        proof {
            assert(s@.take(i + 1).drop_last() =~= s@.take(i as int));
            assert(s@.take(i + 1).last() == c);
        }
        if c == sep {
            let piece = s.substring_char(start, i);
            parts.push(piece.to_owned());
            start = i + 1;
            proof {
                assert(parts@.map_values(|p: String| p@) =~= before.push(
                    s@.subrange(old_start as int, i as int),
                ));
                assert(s@.subrange(start as int, i + 1) =~= Seq::<char>::empty());
            }
        } else {
            proof {
                assert(s@.subrange(start as int, i + 1) =~= s@.subrange(start as int, i as int).push(
                    c,
                ));
            }
        }
        i = i + 1;
        proof {
            assert(parts@.map_values(|p: String| p@).push(s@.subrange(start as int, i as int))
                =~= split_on(s@.take(i as int), sep));
        }
    }
    proof {
        assert(s@.take(n as int) =~= s@);
    }
    let last = s.substring_char(start, n);
    let ghost before = parts@.map_values(|p: String| p@);
    parts.push(last.to_owned());
    proof {
        assert(parts@.map_values(|p: String| p@) =~= before.push(s@.subrange(start as int, n as int)));
    }
    parts
}

/// Whether `a` and `b` hold the same characters.
pub fn same_text(a: &str, b: &str) -> (r: bool)
    ensures
        r == (a@ == b@),
{
    let n = a.unicode_len();
    if n != b.unicode_len() {
        return false;
    }
    let mut i: usize = 0;
    while i < n
        invariant
            n == a@.len(),
            n == b@.len(),
            i <= n,
            forall|k: int| 0 <= k < i ==> a@[k] == b@[k],
        decreases n - i,
    {
        if a.get_char(i) != b.get_char(i) {
            return false;
        }
        i = i + 1;
    }
    proof {
        assert(a@ =~= b@);
    }
    true
}

/// The Unicode lowercase mapping of `s`, character by character with the
/// context rules of the Unicode standard, as `str::to_lowercase` computes it.
pub uninterp spec fn unicode_lowercase(s: Seq<char>) -> Seq<char>;

/// The Unicode uppercase mapping of `s`, as `str::to_uppercase` computes it.
pub uninterp spec fn unicode_uppercase(s: Seq<char>) -> Seq<char>;

/// Whether every character of `s` is ASCII.
pub open spec fn is_ascii_text(s: Seq<char>) -> bool {
    forall|i: int| 0 <= i < s.len() ==> ((#[trigger] s[i]) as u32) < 128
}

/// The lowercase of one character in the ASCII way: `A` to `Z` become `a` to
/// `z`, every other character stays.
pub open spec fn ascii_lower_char(c: char) -> char {
    if 65 <= (c as u32) <= 90 {
        ((c as u32) + 32) as char
    } else {
        c
    }
}

/// The uppercase of one character in the ASCII way: `a` to `z` become `A` to
/// `Z`, every other character stays.
pub open spec fn ascii_upper_char(c: char) -> char {
    if 97 <= (c as u32) <= 122 {
        ((c as u32) - 32) as char
    } else {
        c
    }
}

/// `s` lowercased in the ASCII way.
pub open spec fn ascii_lowercase(s: Seq<char>) -> Seq<char> {
    s.map_values(|c: char| ascii_lower_char(c))
}

/// `s` uppercased in the ASCII way.
pub open spec fn ascii_uppercase(s: Seq<char>) -> Seq<char> {
    s.map_values(|c: char| ascii_upper_char(c))
}

/// How the ASCII case mappings act on one character: each undoes the other
/// up to case, applying one twice is applying it once, they keep ASCII
/// characters ASCII, and they change neither `+` nor white space.
pub proof fn lemma_ascii_case_char(c: char)
    ensures
        ascii_lower_char(ascii_upper_char(c)) == ascii_lower_char(c),
        ascii_upper_char(ascii_lower_char(c)) == ascii_upper_char(c),
        ascii_lower_char(ascii_lower_char(c)) == ascii_lower_char(c),
        ascii_upper_char(ascii_upper_char(c)) == ascii_upper_char(c),
        (c as u32) < 128 ==> (ascii_lower_char(c) as u32) < 128,
        (c as u32) < 128 ==> (ascii_upper_char(c) as u32) < 128,
        (ascii_lower_char(c) == '+') == (c == '+'),
        (ascii_upper_char(c) == '+') == (c == '+'),
        is_white_space(ascii_lower_char(c)) == is_white_space(c),
        is_white_space(ascii_upper_char(c)) == is_white_space(c),
{
    let u = c as u32;
    if 65 <= u <= 90 {
        let l = (u + 32) as char;
        assert(l as u32 == u + 32);
    } else if 97 <= u <= 122 {
        let up = (u - 32) as char;
        assert(up as u32 == u - 32);
    }
}

/// Splitting commutes with a character mapping that keeps the separator,
/// and only it, the separator.
pub proof fn lemma_split_on_map(s: Seq<char>, sep: char, f: spec_fn(char) -> char)
    requires
        forall|c: char| (#[trigger] f(c) == sep) == (c == sep),
    ensures
        split_on(s.map_values(f), sep) == split_on(s, sep).map_values(
            |p: Seq<char>| p.map_values(f),
        ),
    decreases s.len(),
{
    let g = |p: Seq<char>| p.map_values(f);
    if s.len() == 0 {
        assert(s.map_values(f) =~= Seq::<char>::empty());
        assert(Seq::<char>::empty().map_values(f) =~= Seq::<char>::empty());
        assert(split_on(s, sep).map_values(g) =~= seq![Seq::<char>::empty()]);
    } else {
        let t = s.map_values(f);
        assert(t.drop_last() =~= s.drop_last().map_values(f));
        assert(t.last() == f(s.last()));
        lemma_split_on_map(s.drop_last(), sep, f);
        lemma_split_on_nonempty(s.drop_last(), sep);
        let prev = split_on(s.drop_last(), sep);
        assert(split_on(t.drop_last(), sep) == prev.map_values(g));
        if s.last() == sep {
            assert(Seq::<char>::empty().map_values(f) =~= Seq::<char>::empty());
            assert(split_on(t, sep) =~= split_on(s, sep).map_values(g));
        } else {
            assert(prev.last().push(s.last()).map_values(f) =~= prev.last().map_values(f).push(
                f(s.last()),
            ));
            assert(split_on(t, sep) =~= split_on(s, sep).map_values(g));
        }
    }
}

/// Trimming commutes with a character mapping that keeps white space, and
/// only it, white space.
pub proof fn lemma_trimmed_map(s: Seq<char>, f: spec_fn(char) -> char)
    requires
        forall|c: char| is_white_space(#[trigger] f(c)) == is_white_space(c),
    ensures
        trimmed(s.map_values(f)) == trimmed(s).map_values(f),
{
    lemma_trim_start_map(s, f);
    lemma_trim_end_map(trim_start(s), f);
}

proof fn lemma_trim_start_map(s: Seq<char>, f: spec_fn(char) -> char)
    requires
        forall|c: char| is_white_space(#[trigger] f(c)) == is_white_space(c),
    ensures
        trim_start(s.map_values(f)) == trim_start(s).map_values(f),
    decreases s.len(),
{
    let t = s.map_values(f);
    if s.len() > 0 {
        assert(t[0] == f(s[0]));
        assert(t.drop_first() =~= s.drop_first().map_values(f));
        lemma_trim_start_map(s.drop_first(), f);
    }
}

proof fn lemma_trim_end_map(s: Seq<char>, f: spec_fn(char) -> char)
    requires
        forall|c: char| is_white_space(#[trigger] f(c)) == is_white_space(c),
    ensures
        trim_end(s.map_values(f)) == trim_end(s).map_values(f),
    decreases s.len(),
{
    let t = s.map_values(f);
    if s.len() > 0 {
        assert(t.last() == f(s.last()));
        assert(t.drop_last() =~= s.drop_last().map_values(f));
        lemma_trim_end_map(s.drop_last(), f);
    }
}

/// The pieces of ASCII text split on a separator are ASCII.
pub proof fn lemma_split_on_ascii(s: Seq<char>, sep: char)
    requires
        is_ascii_text(s),
    ensures
        forall|k: int| 0 <= k < split_on(s, sep).len() ==> is_ascii_text(#[trigger] split_on(s, sep)[k]),
    decreases s.len(),
{
    if s.len() > 0 {
        assert(is_ascii_text(s.drop_last())) by {
            assert forall|i: int| 0 <= i < s.drop_last().len() implies ((#[trigger] s.drop_last()[i]) as u32) < 128 by {
                assert(s.drop_last()[i] == s[i]);
            }
        }
        lemma_split_on_ascii(s.drop_last(), sep);
        lemma_split_on_nonempty(s.drop_last(), sep);
        let prev = split_on(s.drop_last(), sep);
        assert((s.last() as u32) < 128);
        if s.last() != sep {
            let last = prev.last().push(s.last());
            assert(is_ascii_text(prev[prev.len() - 1]));
            assert(is_ascii_text(last));
        }
    }
}

/// Trimmed ASCII text is ASCII.
pub proof fn lemma_trimmed_ascii(s: Seq<char>)
    requires
        is_ascii_text(s),
    ensures
        is_ascii_text(trimmed(s)),
{
    lemma_trim_start_ascii(s);
    lemma_trim_end_ascii(trim_start(s));
}

proof fn lemma_trim_start_ascii(s: Seq<char>)
    requires
        is_ascii_text(s),
    ensures
        is_ascii_text(trim_start(s)),
    decreases s.len(),
{
    if s.len() > 0 {
        assert(is_ascii_text(s.drop_first())) by {
            assert forall|i: int| 0 <= i < s.drop_first().len() implies ((#[trigger] s.drop_first()[i]) as u32) < 128 by {
                assert(s.drop_first()[i] == s[i + 1]);
            }
        }
        lemma_trim_start_ascii(s.drop_first());
    }
}

proof fn lemma_trim_end_ascii(s: Seq<char>)
    requires
        is_ascii_text(s),
    ensures
        is_ascii_text(trim_end(s)),
    decreases s.len(),
{
    if s.len() > 0 {
        assert(is_ascii_text(s.drop_last())) by {
            assert forall|i: int| 0 <= i < s.drop_last().len() implies ((#[trigger] s.drop_last()[i]) as u32) < 128 by {
                assert(s.drop_last()[i] == s[i]);
            }
        }
        lemma_trim_end_ascii(s.drop_last());
    }
}

/// The ASCII case mappings of text: they keep ASCII text ASCII, each undoes
/// the other up to case, and applying one twice is applying it once.
pub proof fn lemma_ascii_case(s: Seq<char>)
    ensures
        is_ascii_text(s) ==> is_ascii_text(ascii_lowercase(s)),
        is_ascii_text(s) ==> is_ascii_text(ascii_uppercase(s)),
        ascii_lowercase(ascii_uppercase(s)) == ascii_lowercase(s),
        ascii_uppercase(ascii_lowercase(s)) == ascii_uppercase(s),
        ascii_lowercase(ascii_lowercase(s)) == ascii_lowercase(s),
        ascii_uppercase(ascii_uppercase(s)) == ascii_uppercase(s),
{
    assert forall|i: int| 0 <= i < s.len() implies {
        &&& ascii_lower_char(ascii_upper_char(#[trigger] s[i])) == ascii_lower_char(s[i])
        &&& ascii_upper_char(ascii_lower_char(s[i])) == ascii_upper_char(s[i])
        &&& ascii_lower_char(ascii_lower_char(s[i])) == ascii_lower_char(s[i])
        &&& ascii_upper_char(ascii_upper_char(s[i])) == ascii_upper_char(s[i])
        &&& (s[i] as u32) < 128 ==> (ascii_lower_char(s[i]) as u32) < 128
        &&& (s[i] as u32) < 128 ==> (ascii_upper_char(s[i]) as u32) < 128
    } by {
        lemma_ascii_case_char(s[i]);
    }
    assert(ascii_lowercase(ascii_uppercase(s)) =~= ascii_lowercase(s));
    assert(ascii_uppercase(ascii_lowercase(s)) =~= ascii_uppercase(s));
    assert(ascii_lowercase(ascii_lowercase(s)) =~= ascii_lowercase(s));
    assert(ascii_uppercase(ascii_uppercase(s)) =~= ascii_uppercase(s));
    if is_ascii_text(s) {
        assert forall|i: int| 0 <= i < ascii_lowercase(s).len() implies ((#[trigger] ascii_lowercase(s)[i]) as u32) < 128 by {
            assert((s[i] as u32) < 128);
        }
        assert forall|i: int| 0 <= i < ascii_uppercase(s).len() implies ((#[trigger] ascii_uppercase(s)[i]) as u32) < 128 by {
            assert((s[i] as u32) < 128);
        }
    }
}

/// Calls `str::to_lowercase`. Its result is named by `unicode_lowercase`.
/// Stated besides: on ASCII text it maps `A` to `Z` to `a` to `z` and keeps
/// every other character, as the Unicode case tables that std follows do.
/// Not stated: the mapping of characters beyond ASCII.
#[verifier::external_body]
pub(crate) fn to_lowercase(s: &str) -> (r: String)
    ensures
        r@ == unicode_lowercase(s@),
        is_ascii_text(s@) ==> r@ == ascii_lowercase(s@),
{
    s.to_lowercase()
}

/// Calls `str::to_uppercase`. Its result is named by `unicode_uppercase`.
/// Stated besides: on ASCII text it maps `a` to `z` to `A` to `Z` and keeps
/// every other character, as the Unicode case tables that std follows do.
/// Not stated: the mapping of characters beyond ASCII.
#[verifier::external_body]
pub(crate) fn to_uppercase(s: &str) -> (r: String)
    ensures
        r@ == unicode_uppercase(s@),
        is_ascii_text(s@) ==> r@ == ascii_uppercase(s@),
{
    s.to_uppercase()
}

/// Calls `String::push`, which appends `c` at the end of `s`.
#[verifier::external_body]
pub(crate) fn push_char(s: &mut String, c: char)
    ensures
        final(s)@ == old(s)@.push(c),
{
    s.push(c)
}

/// A single file or directory name that a path can be extended with: not
/// empty, not `.` or `..`, and free of the separators (`/`, `\`) and the
/// drive marker (`:`) of the platforms that std supports, so that it has
/// neither a root nor a prefix anywhere.
pub open spec fn is_plain_name(name: Seq<char>) -> bool {
    &&& name.len() > 0
    &&& name != seq!['.']
    &&& name != seq!['.', '.']
    &&& forall|j: int| 0 <= j < name.len() ==> #[trigger] name[j] != '/' && name[j] != '\\'
        && name[j] != ':'
}

/// A character that ends a path component or a drive prefix on some
/// platform: a separator (`/`, `\\`) or the drive marker (`:`).
pub open spec fn is_component_boundary(c: char) -> bool {
    c == '/' || c == '\\' || c == ':'
}

/// The path that `Path::join` makes of the directory `dir` and the name
/// `name`, on the platform the library is built for.
pub uninterp spec fn joined_path(dir: Seq<char>, name: Seq<char>) -> Seq<char>;

/// Whether the path `path` has `name` as its last component: it ends with
/// `name`, and what comes before `name`, if anything, ends at a component
/// boundary.
pub open spec fn ends_with_component(path: Seq<char>, name: Seq<char>) -> bool {
    &&& name.is_suffix_of(path)
    &&& path.len() == name.len() || is_component_boundary(path[path.len() - name.len() - 1])
}

/// Calls `Path::join`, which adjoins the name `name` to the path `dir`; the
/// result is taken back as text, which is exact since both parts are UTF-8.
/// Its result is named by `joined_path`. Stated: the name, which has neither
/// root nor prefix, becomes the last component of the result. Not stated:
/// the text that comes before it (`dir` and the platform's separator).
#[verifier::external_body]
pub(crate) fn join_path(dir: &str, name: &str) -> (r: String)
    requires
        is_plain_name(name@),
    ensures
        r@ == joined_path(dir@, name@),
        ends_with_component(r@, name@),
{
    std::path::Path::new(dir).join(name).to_string_lossy().into_owned()
}

/// A path has one last component: two plain names that are both the last
/// component of the same path are the same name.
pub proof fn lemma_last_component_unique(path: Seq<char>, a: Seq<char>, b: Seq<char>)
    requires
        is_plain_name(a),
        is_plain_name(b),
        ends_with_component(path, a),
        ends_with_component(path, b),
    ensures
        a == b,
{
    if a.len() < b.len() {
        let k = path.len() - a.len() - 1;
        assert(path[k] == b[k - (path.len() - b.len())]);
    } else if b.len() < a.len() {
        let k = path.len() - b.len() - 1;
        assert(path[k] == a[k - (path.len() - a.len())]);
    } else {
        assert forall|j: int| 0 <= j < a.len() implies a[j] == b[j] by {
            assert(a[j] == path[path.len() - a.len() + j]);
            assert(b[j] == path[path.len() - b.len() + j]);
        }
        assert(a =~= b);
    }
}

} // verus!
