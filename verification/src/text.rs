//! Text rendering: decimal and hexadecimal numerals, token substitution, and
//! the split of a path into its directory part and its basename.
//!
//! Specifications speak of `Seq<char>`; the executable functions take `&str`
//! and return `String`, whose views are such sequences.

use vstd::prelude::*;

verus! {

/// `String::push` appends one character to the end of the string.
pub assume_specification[ String::push ](s: &mut String, ch: char)
    ensures
        final(s)@ == old(s)@.push(ch),
;

/// The numeral character for a digit value below sixteen, upper case above nine.
pub open spec fn digit_char(d: nat) -> char {
    if d == 0 {
        '0'
    } else if d == 1 {
        '1'
    } else if d == 2 {
        '2'
    } else if d == 3 {
        '3'
    } else if d == 4 {
        '4'
    } else if d == 5 {
        '5'
    } else if d == 6 {
        '6'
    } else if d == 7 {
        '7'
    } else if d == 8 {
        '8'
    } else if d == 9 {
        '9'
    } else if d == 10 {
        'A'
    } else if d == 11 {
        'B'
    } else if d == 12 {
        'C'
    } else if d == 13 {
        'D'
    } else if d == 14 {
        'E'
    } else {
        'F'
    }
}

/// The decimal numeral of `n`, without leading zeros.
pub open spec fn decimal(n: nat) -> Seq<char>
    decreases n,
{
    if n < 10 {
        seq![digit_char(n)]
    } else {
        decimal(n / 10).push(digit_char(n % 10))
    }
}

/// The upper-case hexadecimal numeral of `n`, without leading zeros.
pub open spec fn hex(n: nat) -> Seq<char>
    decreases n,
{
    if n < 16 {
        seq![digit_char(n)]
    } else {
        hex(n / 16).push(digit_char(n % 16))
    }
}

/// The upper-case hexadecimal numeral of `n`, padded with a zero to two digits.
pub open spec fn hex2(n: nat) -> Seq<char> {
    if n < 16 {
        seq!['0'] + hex(n)
    } else {
        hex(n)
    }
}

/// `s` with every occurrence of `token` replaced by `with`, scanning from the
/// left and resuming after each replaced occurrence. An empty token occurs
/// nowhere.
pub open spec fn replace_all(s: Seq<char>, token: Seq<char>, with: Seq<char>) -> Seq<char>
    decreases s.len(),
{
    if token.len() == 0 || s.len() < token.len() {
        s
    } else if s.take(token.len() as int) == token {
        with + replace_all(s.skip(token.len() as int), token, with)
    } else {
        seq![s[0]] + replace_all(s.skip(1), token, with)
    }
}

/// Where the basename of `path` starts: just after its last `/`, or at 0.
pub open spec fn basename_start(path: Seq<char>) -> nat
    decreases path.len(),
{
    if path.len() == 0 {
        0
    } else if path.last() == '/' {
        path.len()
    } else {
        basename_start(path.drop_last())
    }
}

/// The directory part of `path`: everything up to and including its last `/`.
pub open spec fn dirname(path: Seq<char>) -> Seq<char> {
    path.take(basename_start(path) as int)
}

/// The basename of `path`: everything after its last `/`.
pub open spec fn basename(path: Seq<char>) -> Seq<char> {
    path.skip(basename_start(path) as int)
}

/// `path` with `token` replaced by `with` in its basename only.
pub open spec fn replace_in_basename(path: Seq<char>, token: Seq<char>, with: Seq<char>) -> Seq<
    char,
> {
    dirname(path) + replace_all(basename(path), token, with)
}

/// Whether `path` names a file: its basename is neither empty nor `..`.
pub open spec fn names_a_file(path: Seq<char>) -> bool {
    basename(path).len() > 0 && basename(path) != seq!['.', '.']
}

/// `dir` with `name` pushed onto it as a further component. An absolute
/// `name` takes the place of `dir`; a separator is put between the two
/// unless `dir` is empty or ends in one.
pub open spec fn joined_path(dir: Seq<char>, name: Seq<char>) -> Seq<char> {
    if name.len() > 0 && name[0] == '/' {
        name
    } else if dir.len() == 0 || dir.last() == '/' {
        dir + name
    } else {
        dir + seq!['/'] + name
    }
}

/// The length of the stem of a file name: the name up to its last `.`, not
/// counting one that starts the name; the whole name where it holds no
/// other.
pub open spec fn stem_len(name: Seq<char>) -> nat
    decreases name.len(),
{
    if name.len() <= 1 {
        name.len()
    } else if name.last() == '.' {
        (name.len() - 1) as nat
    } else if stem_len(name.drop_last()) == name.len() - 1 {
        name.len()
    } else {
        stem_len(name.drop_last())
    }
}

/// `path` with the extension of its basename replaced by `ext`, or with
/// `ext` added where it has none. A path that names no file is left as it
/// is.
pub open spec fn with_extension(path: Seq<char>, ext: Seq<char>) -> Seq<char> {
    if names_a_file(path) {
        path.take((basename_start(path) + stem_len(basename(path))) as int) + seq!['.'] + ext
    } else {
        path
    }
}

/// The basename starts within the path, right behind a `/` unless it starts
/// the path, and holds no `/` itself.
pub proof fn lemma_basename_start(path: Seq<char>)
    ensures
        basename_start(path) <= path.len(),
        basename_start(path) > 0 ==> path[basename_start(path) - 1] == '/',
        forall|i: int| basename_start(path) <= i < path.len() ==> path[i] != '/',
    decreases path.len(),
{
    if path.len() > 0 && path.last() != '/' {
        let head = path.drop_last();
        lemma_basename_start(head);
        assert forall|i: int| basename_start(path) <= i < path.len() implies path[i] != '/' by {
            if i < head.len() {
                assert(path[i] == head[i]);
            }
        }
    }
}

/// The stem of a name is no longer than the name.
pub proof fn lemma_stem_len_bound(name: Seq<char>)
    ensures
        stem_len(name) <= name.len(),
    decreases name.len(),
{
    if name.len() > 1 && name.last() != '.' {
        lemma_stem_len_bound(name.drop_last());
    }
}

/// A path is the concatenation of its directory part and its basename.
pub proof fn lemma_dirname_basename(path: Seq<char>)
    ensures
        dirname(path) + basename(path) == path,
{
    lemma_basename_start(path);
    assert(dirname(path) + basename(path) =~= path);
}

/// Whether `token` stands in `s` at position `at`.
pub open spec fn occurs(s: Seq<char>, at: int, token: Seq<char>) -> bool {
    0 <= at && at + token.len() <= s.len() && s.subrange(at, at + token.len()) == token
}

/// Replacing a token that occurs nowhere changes nothing.
pub proof fn lemma_replace_all_absent(s: Seq<char>, token: Seq<char>, with: Seq<char>)
    requires
        forall|i: int| !#[trigger] occurs(s, i, token),
    ensures
        replace_all(s, token, with) == s,
    decreases s.len(),
{
    if token.len() == 0 || s.len() < token.len() {
    } else {
        assert(!occurs(s, 0, token));
        assert(s.take(token.len() as int) == s.subrange(0, 0int + token.len()));
        let rest = s.skip(1);
        assert forall|i: int| !#[trigger] occurs(rest, i, token) by {
            if 0 <= i && i + token.len() <= rest.len() {
                assert(!occurs(s, i + 1, token));
                assert(rest.subrange(i, i + token.len()) == s.subrange(i + 1, i + 1 + token.len()));
            }
        }
        lemma_replace_all_absent(rest, token, with);
        assert(seq![s[0]] + rest == s);
    }
}

/// The characters of `s`, in order.
pub fn chars_of(s: &str) -> (v: Vec<char>)
    ensures
        v@ == s@,
{
    let mut v: Vec<char> = Vec::new();
    for c in it: s.chars()
        invariant
            v@ == it.seq().take(it.index()),
    {
        v.push(c);
    }
    v
}

/// The numeral character of a digit value.
fn digit(d: u8) -> (c: char)
    requires
        d < 16,
    ensures
        c == digit_char(d as nat),
{
    match d {
        0 => '0',
        1 => '1',
        2 => '2',
        3 => '3',
        4 => '4',
        5 => '5',
        6 => '6',
        7 => '7',
        8 => '8',
        9 => '9',
        10 => 'A',
        11 => 'B',
        12 => 'C',
        13 => 'D',
        14 => 'E',
        _ => 'F',
    }
}

/// Appends the decimal numeral of `n` to `out`.
pub fn push_decimal(out: &mut String, n: u128)
    ensures
        final(out)@ == old(out)@ + decimal(n as nat),
    decreases n,
{
    if n >= 10 {
        push_decimal(out, n / 10);
    }
    let d: u8 = (n % 10) as u8;
    out.push(digit(d));
}

/// The decimal numeral of `n`.
pub fn decimal_string(n: u128) -> (s: String)
    ensures
        s@ == decimal(n as nat),
{
    let mut s = String::new();
    push_decimal(&mut s, n);
    s
}

/// Appends the hexadecimal numeral of `n` to `out`.
fn push_hex(out: &mut String, n: u128)
    ensures
        final(out)@ == old(out)@ + hex(n as nat),
    decreases n,
{
    if n >= 16 {
        push_hex(out, n / 16);
    }
    let d: u8 = (n % 16) as u8;
    out.push(digit(d));
}

/// Appends the two-digit upper-case hexadecimal numeral of `n` to `out`; a
/// value of 256 or more takes as many digits as it needs.
pub fn push_hex2(out: &mut String, n: u128)
    ensures
        final(out)@ == old(out)@ + hex2(n as nat),
{
    if n < 16 {
        out.push('0');
    }
    push_hex(out, n);
}

/// The two-digit upper-case hexadecimal numeral of `n`.
pub fn hex2_string(n: u128) -> (s: String)
    ensures
        s@ == hex2(n as nat),
{
    let mut s = String::new();
    push_hex2(&mut s, n);
    s
}

/// Whether `token` stands in `s` at position `at`.
fn occurs_at(s: &Vec<char>, at: usize, token: &Vec<char>) -> (b: bool)
    requires
        at + token.len() <= s.len(),
    ensures
        b == occurs(s@, at as int, token@),
{
    let mut k: usize = 0;
    while k < token.len()
        invariant
            k <= token.len(),
            at + token.len() <= s.len(),
            forall|j: int| 0 <= j < k ==> s@[at + j] == token@[j],
        decreases token.len() - k,
    {
        if s[at + k] != token[k] {
            assert(s@.subrange(at as int, at + token.len())[k as int] != token@[k as int]);
            return false;
        }
        k = k + 1;
    }
    assert(s@.subrange(at as int, at + token.len()) =~= token@);
    true
}

/// Appends to `out` the characters of `s` from `from` on, with every
/// occurrence of `token` replaced by `with`.
fn push_replaced(out: &mut String, s: &Vec<char>, from: usize, token: &Vec<char>, with: &str)
    requires
        from <= s.len(),
    ensures
        final(out)@ == old(out)@ + replace_all(s@.skip(from as int), token@, with@),
{
    let n = s.len();
    let t = token.len();
    let mut i: usize = from;
    while i < n && t > 0 && n - i >= t
        invariant
            from <= i <= n,
            n == s.len(),
            t == token.len(),
            out@ + replace_all(s@.skip(i as int), token@, with@) == old(out)@ + replace_all(
                s@.skip(from as int),
                token@,
                with@,
            ),
        decreases n - i,
    {
        let ghost rest = s@.skip(i as int);
        let ghost before = out@;
        assert(rest.take(t as int) =~= s@.subrange(i as int, i + t));
        if occurs_at(s, i, token) {
            out.append(with);
            assert(rest.skip(t as int) =~= s@.skip(i + t));
            assert(before + (with@ + replace_all(rest.skip(t as int), token@, with@)) =~= (before
                + with@) + replace_all(rest.skip(t as int), token@, with@));
            i = i + t;
        } else {
            out.push(s[i]);
            assert(rest.skip(1) =~= s@.skip(i + 1));
            assert(before + (seq![rest[0]] + replace_all(rest.skip(1), token@, with@)) =~= before.push(
                s@[i as int],
            ) + replace_all(rest.skip(1), token@, with@));
            i = i + 1;
        }
    }
    while i < n
        invariant
            from <= i <= n,
            n == s.len(),
            t == token.len(),
            t == 0 || n - i < t,
            out@ + s@.skip(i as int) == old(out)@ + replace_all(s@.skip(from as int), token@, with@),
        decreases n - i,
    {
        let ghost before = out@;
        out.push(s[i]);
        assert(before + s@.skip(i as int) =~= before.push(s@[i as int]) + s@.skip(i + 1));
        i = i + 1;
    }
    assert(s@.skip(n as int) =~= Seq::<char>::empty());
    assert(out@ + Seq::<char>::empty() =~= out@);
}

/// `s` with every occurrence of `token` replaced by `with`.
pub fn replace(s: &str, token: &str, with: &str) -> (r: String)
    ensures
        r@ == replace_all(s@, token@, with@),
{
    let text = chars_of(s);
    let tok = chars_of(token);
    let mut r = String::new();
    push_replaced(&mut r, &text, 0, &tok, with);
    assert(text@.skip(0) =~= text@);
    assert(Seq::<char>::empty() + replace_all(s@, token@, with@) =~= replace_all(
        s@,
        token@,
        with@,
    ));
    r
}

/// Where the basename of `text` starts.
fn basename_index(text: &Vec<char>) -> (cut: usize)
    ensures
        cut == basename_start(text@),
        cut <= text.len(),
{
    let mut cut: usize = text.len();
    assert(text@.take(cut as int) =~= text@);
    while cut > 0 && text[cut - 1] != '/'
        invariant
            cut <= text.len(),
            basename_start(text@) == basename_start(text@.take(cut as int)),
        decreases cut,
    {
        assert(text@.take(cut as int).drop_last() =~= text@.take(cut - 1));
        cut = cut - 1;
    }
    cut
}

/// Whether `path` names a file: its basename is neither empty nor `..`.
pub fn has_basename(path: &str) -> (b: bool)
    ensures
        b == names_a_file(path@),
{
    let text = chars_of(path);
    let cut = basename_index(&text);
    let n = text.len() - cut;
    if n == 0 {
        return false;
    }
    if n == 2 && text[cut] == '.' && text[cut + 1] == '.' {
        assert(basename(path@) =~= seq!['.', '.']);
        return false;
    }
    assert(basename(path@) != seq!['.', '.']) by {
        if n == 2 {
            assert(basename(path@)[0] == text@[cut as int]);
            assert(basename(path@)[1] == text@[cut + 1]);
        }
    }
    true
}

/// `dir` with `name` pushed onto it as a further component.
pub fn join_path(dir: &str, name: &str) -> (r: String)
    ensures
        r@ == joined_path(dir@, name@),
{
    let d = chars_of(dir);
    let n = chars_of(name);
    if n.len() > 0 && n[0] == '/' {
        return name.to_owned();
    }
    let mut r = dir.to_owned();
    if d.len() > 0 && d[d.len() - 1] != '/' {
        r.push('/');
    }
    r.append(name);
    r
}

/// `path` with the extension of its basename replaced by `ext`.
pub fn set_extension(path: &str, ext: &str) -> (r: String)
    ensures
        r@ == with_extension(path@, ext@),
{
    if !has_basename(path) {
        return path.to_owned();
    }
    let text = chars_of(path);
    let cut = basename_index(&text);
    let ghost name = text@.skip(cut as int);
    // The stem ends at `end`: the last dot behind the first character of
    // the name, or the end of the name.
    let mut end: usize = text.len();
    let mut i: usize = text.len();
    assert(name.take(name.len() as int) =~= name);
    while i > cut + 1 && end == text.len()
        invariant
            cut < text.len(),
            cut + 1 <= i <= text.len(),
            end <= text.len(),
            name == text@.skip(cut as int),
            end == text.len() ==> stem_len(name) == if stem_len(name.take(i - cut)) == i - cut {
                name.len()
            } else {
                stem_len(name.take(i - cut))
            },
            end < text.len() ==> cut + stem_len(name) == end,
        decreases i,
    {
        let ghost head = name.take(i - cut);
        assert(head.drop_last() =~= name.take(i - 1 - cut));
        assert(head.last() == text@[i - 1]);
        proof {
            lemma_stem_len_bound(head.drop_last());
        }
        if text[i - 1] == '.' {
            end = i - 1;
        }
        i = i - 1;
    }
    if end == text.len() {
        assert(stem_len(name.take(1)) == 1);
    }
    let mut r = String::new();
    let mut k: usize = 0;
    while k < end
        invariant
            k <= end <= text.len(),
            r@ == text@.take(k as int),
        decreases end - k,
    {
        r.push(text[k]);
        k = k + 1;
    }
    r.push('.');
    r.append(ext);
    assert(r@ =~= with_extension(path@, ext@));
    r
}

/// `path` with `token` replaced by `with` in its basename; the directory part
/// is kept as it is.
pub fn replace_basename(path: &str, token: &str, with: &str) -> (r: String)
    ensures
        r@ == replace_in_basename(path@, token@, with@),
{
    let text = chars_of(path);
    let tok = chars_of(token);
    let cut = basename_index(&text);
    let mut r = String::new();
    let mut i: usize = 0;
    while i < cut
        invariant
            i <= cut <= text.len(),
            r@ == text@.take(i as int),
        decreases cut - i,
    {
        r.push(text[i]);
        i = i + 1;
    }
    push_replaced(&mut r, &text, cut, &tok, with);
    r
}

} // verus!
