//! Character and string helpers shared by the configuration and telemetry code.

use vstd::prelude::*;
use vstd::std_specs::iter::IteratorSpec;

verus! {

/// Whether `c` carries the Unicode `White_Space` property.
pub open spec fn is_whitespace(c: char) -> bool {
    let n = c as u32;
    ||| 0x09 <= n <= 0x0D
    ||| n == 0x20
    ||| n == 0x85
    ||| n == 0xA0
    ||| n == 0x1680
    ||| 0x2000 <= n <= 0x200A
    ||| n == 0x2028
    ||| n == 0x2029
    ||| n == 0x202F
    ||| n == 0x205F
    ||| n == 0x3000
}

/// Tests a character for the `White_Space` property.
pub fn char_is_whitespace(c: char) -> (r: bool)
    ensures
        r == is_whitespace(c),
{
    let n: u32 = c as u32;
    (0x09 <= n && n <= 0x0D) || n == 0x20 || n == 0x85 || n == 0xA0 || n == 0x1680 || (0x2000 <= n
        && n <= 0x200A) || n == 0x2028 || n == 0x2029 || n == 0x202F || n == 0x205F || n == 0x3000
}


/// `String::push` of the standard library.  Believed of it: the string
/// afterwards is the string before with the character appended.
pub assume_specification[ String::push ](s: &mut String, c: char)
    ensures
        final(s)@ == old(s)@.push(c),
;

/// The characters of `s` that are not whitespace, in the order in which they stand.
pub open spec fn strip_whitespace(s: Seq<char>) -> Seq<char> {
    s.filter(not_whitespace())
}

/// The test that a character passes when it is no whitespace.
pub open spec fn not_whitespace() -> spec_fn(char) -> bool {
    |c: char| !is_whitespace(c)
}

/// Removes every whitespace character from `s`.
pub fn remove_whitespace(s: &str) -> (r: String)
    ensures
        r@ == strip_whitespace(s@),
{
    let mut out = String::new();
    for c in it: s.chars()
        invariant
            it.seq() == s@,
            out@ == strip_whitespace(s@.take(it.index() as int)),
    {
        proof {
            let i = it.index() as int;
            assert(s@.take(i + 1).drop_last() == s@.take(i));
            reveal(Seq::filter);
        }
        if !char_is_whitespace(c) {
            out.push(c);
        }
    }
    proof {
        assert(s@.take(s@.len() as int) == s@);
    }
    out
}


/// What follows the last `/` of `path`; all of `path` where it has no `/`.
pub open spec fn last_segment(path: Seq<char>) -> Seq<char>
    decreases path.len(),
{
    if path.len() == 0 || path.last() == '/' {
        Seq::empty()
    } else {
        last_segment(path.drop_last()).push(path.last())
    }
}

/// The last segment of a path is its longest suffix without a `/`.
pub proof fn lemma_last_segment(path: Seq<char>)
    ensures
        last_segment(path).len() <= path.len(),
        last_segment(path) == path.skip(path.len() - last_segment(path).len()),
        !last_segment(path).contains('/'),
        last_segment(path).len() < path.len() ==> path[path.len() - last_segment(path).len() - 1]
            == '/',
    decreases path.len(),
{
    if path.len() == 0 || path.last() == '/' {
        assert(path.skip(path.len() as int) == Seq::<char>::empty());
    } else {
        let head = path.drop_last();
        lemma_last_segment(head);
        let seg = last_segment(head);
        assert(seg.push(path.last()) == path.skip(path.len() - seg.len() - 1)) by {
            assert(head.skip(head.len() - seg.len()).push(path.last()) == path.skip(
                path.len() - seg.len() - 1,
            ));
        }
        assert(!seg.push(path.last()).contains('/')) by {
            if seg.push(path.last()).contains('/') {
                let i = choose|i: int|
                    0 <= i < seg.push(path.last()).len() && seg.push(path.last())[i] == '/';
                if i < seg.len() {
                    assert(seg[i] == '/');
                    assert(seg.contains('/'));
                }
            }
        }
    }
}

/// Copies out what follows the last `/` of `path`.
pub fn last_path_segment(path: &str) -> (r: String)
    ensures
        r@ == last_segment(path@),
        r@.len() <= path@.len(),
        r@ == path@.skip(path@.len() - r@.len()),
        !r@.contains('/'),
        r@.len() < path@.len() ==> path@[path@.len() - r@.len() - 1] == '/',
{
    let mut out = String::new();
    for c in it: path.chars()
        invariant
            it.seq() == path@,
            out@ == last_segment(path@.take(it.index() as int)),
    {
        proof {
            let i = it.index() as int;
            assert(path@.take(i + 1).drop_last() == path@.take(i));
        }
        if c == '/' {
            out = String::new();
        } else {
            out.push(c);
        }
    }
    proof {
        assert(path@.take(path@.len() as int) == path@);
        lemma_last_segment(path@);
    }
    out
}


/// Whether `s` holds no whitespace character.
pub open spec fn is_clean(s: Seq<char>) -> bool {
    forall|i: int| 0 <= i < s.len() ==> !is_whitespace(#[trigger] s[i])
}

/// What is left after stripping holds no whitespace.
pub proof fn lemma_strip_whitespace_clean(s: Seq<char>)
    ensures
        is_clean(strip_whitespace(s)),
{
    assert forall|i: int| 0 <= i < strip_whitespace(s).len() implies !is_whitespace(
        #[trigger] strip_whitespace(s)[i],
    ) by {
        s.lemma_filter_pred(not_whitespace(), i);
    }
}

/// Stripping leaves text without whitespace as it is.
pub proof fn lemma_strip_whitespace_of_clean(s: Seq<char>)
    requires
        is_clean(s),
    ensures
        strip_whitespace(s) == s,
    decreases s.len(),
{
    reveal(Seq::filter);
    if s.len() > 0 {
        assert(is_clean(s.drop_last())) by {
            assert forall|i: int| 0 <= i < s.drop_last().len() implies !is_whitespace(
                #[trigger] s.drop_last()[i],
            ) by {
                assert(s.drop_last()[i] == s[i]);
            }
        }
        lemma_strip_whitespace_of_clean(s.drop_last());
        assert(!is_whitespace(s[s.len() - 1]));
        assert(s.drop_last().push(s.last()) == s);
    }
}

/// Stripping twice is stripping once.
pub proof fn lemma_strip_whitespace_idempotent(s: Seq<char>)
    ensures
        strip_whitespace(strip_whitespace(s)) == strip_whitespace(s),
{
    lemma_strip_whitespace_clean(s);
    lemma_strip_whitespace_of_clean(strip_whitespace(s));
}

/// Text made of whitespace alone strips to nothing.
pub proof fn lemma_strip_whitespace_of_blank(s: Seq<char>)
    requires
        forall|i: int| 0 <= i < s.len() ==> is_whitespace(#[trigger] s[i]),
    ensures
        strip_whitespace(s) == Seq::<char>::empty(),
    decreases s.len(),
{
    reveal(Seq::filter);
    if s.len() > 0 {
        assert forall|i: int| 0 <= i < s.drop_last().len() implies is_whitespace(
            #[trigger] s.drop_last()[i],
        ) by {
            assert(s.drop_last()[i] == s[i]);
        }
        lemma_strip_whitespace_of_blank(s.drop_last());
        assert(is_whitespace(s[s.len() - 1]));
    }
}

/// Whitespace put between two pieces of text does not show in the stripped
/// result.
pub proof fn lemma_strip_whitespace_ignores_padding(a: Seq<char>, padding: Seq<char>, b: Seq<char>)
    requires
        forall|i: int| 0 <= i < padding.len() ==> is_whitespace(#[trigger] padding[i]),
    ensures
        strip_whitespace(a + padding + b) == strip_whitespace(a + b),
{
    Seq::filter_distributes_over_add(a + padding, b, not_whitespace());
    Seq::filter_distributes_over_add(a, padding, not_whitespace());
    Seq::filter_distributes_over_add(a, b, not_whitespace());
    lemma_strip_whitespace_of_blank(padding);
    assert(strip_whitespace(a) + Seq::<char>::empty() == strip_whitespace(a));
}


/// Whether two string slices hold the same text.
pub fn same_text(a: &str, b: &str) -> (r: bool)
    ensures
        r == (a@ == b@),
{
    broadcast use vstd::string::group_string_axioms;

    let mut left = a.chars();
    let mut right = b.chars();
    let ghost mut seen: Seq<char> = Seq::empty();
    loop
        invariant
            left.obeys_prophetic_iter_laws(),
            right.obeys_prophetic_iter_laws(),
            a@ == seen + left.remaining(),
            b@ == seen + right.remaining(),
        decreases a@.len() - seen.len(),
    {
        let ghost before_left = left.remaining();
        let ghost before_right = right.remaining();
        let x = left.next();
        let y = right.next();
        match (x, y) {
            (None, None) => {
                return true;
            },
            (Some(c), Some(d)) => {
                if c != d {
                    proof {
                        assert(a@[seen.len() as int] == c);
                        assert(b@[seen.len() as int] == d);
                    }
                    return false;
                }
                proof {
                    assert(seen + before_left == seen.push(c) + left.remaining());
                    assert(seen + before_right == seen.push(c) + right.remaining());
                    seen = seen.push(c);
                }
            },
            _ => {
                proof {
                    assert(a@.len() != b@.len());
                }
                return false;
            },
        }
    }
}

/// The code of `c`, with the code of the small letter for a capital letter
/// of the ASCII alphabet.
pub open spec fn folded_code(c: char) -> u32 {
    if 'A' <= c <= 'Z' {
        (c as u32 + 32) as u32
    } else {
        c as u32
    }
}

/// The codes of `s`, capital ASCII letters taken as small ones.
pub open spec fn folded(s: Seq<char>) -> Seq<u32> {
    s.map_values(|c: char| folded_code(c))
}

/// The code of `c`, with the code of the small letter for a capital letter
/// of the ASCII alphabet.
pub fn fold_code(c: char) -> (r: u32)
    ensures
        r == folded_code(c),
{
    let n: u32 = c as u32;
    if 0x41 <= n && n <= 0x5A {
        n + 32
    } else {
        n
    }
}

/// Whether two string slices hold the same text, the case of ASCII letters
/// aside.
pub fn same_text_ignoring_case(a: &str, b: &str) -> (r: bool)
    ensures
        r == (folded(a@) == folded(b@)),
{
    broadcast use vstd::string::group_string_axioms;

    let mut left = a.chars();
    let mut right = b.chars();
    let ghost mut seen_left: Seq<char> = Seq::empty();
    let ghost mut seen_right: Seq<char> = Seq::empty();
    loop
        invariant
            left.obeys_prophetic_iter_laws(),
            right.obeys_prophetic_iter_laws(),
            a@ == seen_left + left.remaining(),
            b@ == seen_right + right.remaining(),
            folded(seen_left) == folded(seen_right),
        decreases a@.len() - seen_left.len(),
    {
        let ghost before_left = left.remaining();
        let ghost before_right = right.remaining();
        let ghost n = seen_left.len() as int;
        proof {
            assert(folded(seen_left).len() == folded(seen_right).len());
        }
        let x = left.next();
        let y = right.next();
        match (x, y) {
            (None, None) => {
                proof {
                    assert(a@ == seen_left);
                    assert(b@ == seen_right);
                }
                return true;
            },
            (Some(c), Some(d)) => {
                if fold_code(c) != fold_code(d) {
                    proof {
                        assert(a@[n] == c);
                        assert(b@[n] == d);
                        assert(folded(a@)[n] == folded_code(c));
                        assert(folded(b@)[n] == folded_code(d));
                    }
                    return false;
                }
                proof {
                    assert(seen_left + before_left == seen_left.push(c) + left.remaining());
                    assert(seen_right + before_right == seen_right.push(d) + right.remaining());
                    assert(folded(seen_left.push(c)) == folded(seen_left).push(folded_code(c)));
                    assert(folded(seen_right.push(d)) == folded(seen_right).push(folded_code(d)));
                    seen_left = seen_left.push(c);
                    seen_right = seen_right.push(d);
                }
            },
            _ => {
                proof {
                    assert(a@.len() != b@.len());
                    assert(folded(a@).len() != folded(b@).len());
                }
                return false;
            },
        }
    }
}

} // verus!
