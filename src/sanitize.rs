use vstd::prelude::*;
use vstd::std_specs::iter::IteratorSpec;

verus! {

/// The characters with the Unicode `White_Space` property.
pub open spec fn is_white_space(c: char) -> bool {
    let n = c as u32;
    (0x9 <= n && n <= 0xd) || n == 0x20 || n == 0x85 || n == 0xa0 || n == 0x1680 || (0x2000 <= n
        && n <= 0x200a) || n == 0x2028 || n == 0x2029 || n == 0x202f || n == 0x205f || n == 0x3000
}

/// Whether the scan is inside a tag after reading `s`: the last `<` or `>` seen
/// decides, and before any of them the scan is outside.
pub open spec fn inside_tag_after(s: Seq<char>) -> bool
    decreases s.len(),
{
    if s.len() == 0 {
        false
    } else if s.last() == '<' {
        true
    } else if s.last() == '>' {
        false
    } else {
        inside_tag_after(s.drop_last())
    }
}

/// `s` without its tags: `<` and `>` are dropped, and so is every character
/// read while inside a tag.
pub open spec fn tags_stripped(s: Seq<char>) -> Seq<char>
    decreases s.len(),
{
    if s.len() == 0 {
        Seq::empty()
    } else {
        let p = s.drop_last();
        let c = s.last();
        if c == '<' || c == '>' || inside_tag_after(p) {
            tags_stripped(p)
        } else {
            tags_stripped(p).push(c)
        }
    }
}

/// The words of `s` (its maximal runs of non-whitespace characters), in order,
/// joined by single spaces: whitespace runs become one space, and leading and
/// trailing whitespace goes.
pub open spec fn spaces_collapsed(s: Seq<char>) -> Seq<char>
    decreases s.len(),
{
    if s.len() == 0 {
        Seq::empty()
    } else {
        let p = s.drop_last();
        let c = s.last();
        let r = spaces_collapsed(p);
        if is_white_space(c) {
            r
        } else if r.len() > 0 && is_white_space(p.last()) {
            r.push(' ').push(c)
        } else {
            r.push(c)
        }
    }
}

/// Plain text of a fragment of markup: tags stripped, then whitespace collapsed.
pub open spec fn sanitized(s: Seq<char>) -> Seq<char> {
    spaces_collapsed(tags_stripped(s))
}

/// No `<` and no `>` anywhere in `s`.
pub open spec fn has_no_angle(s: Seq<char>) -> bool {
    forall|i: int| 0 <= i < s.len() ==> s[i] != '<' && s[i] != '>'
}

/// Every whitespace character is a plain space, none comes first and no two
/// stand side by side.
pub open spec fn spaced_once(s: Seq<char>) -> bool {
    &&& forall|i: int| 0 <= i < s.len() && is_white_space(s[i]) ==> s[i] == ' '
    &&& s.len() > 0 ==> s[0] != ' '
    &&& forall|i: int, j: int|
        0 <= i && j == i + 1 && j < s.len() ==> !(#[trigger] s[i] == ' ' && #[trigger] s[j] == ' ')
}

/// Text as `spaces_collapsed` leaves it: spaced once, with no trailing space.
pub open spec fn is_collapsed(s: Seq<char>) -> bool {
    spaced_once(s) && (s.len() > 0 ==> s.last() != ' ')
}

/// Relies on char::is_whitespace: true exactly for the characters with the
/// Unicode `White_Space` property.
#[verifier::external_body]
fn is_space(c: char) -> (r: bool)
    ensures
        r == is_white_space(c),
{
    c.is_whitespace()
}

/// Relies on String::push: appends one character.
#[verifier::external_body]
pub(crate) fn push_char(s: &mut String, c: char)
    ensures
        final(s)@ == old(s)@.push(c),
{
    s.push(c)
}

fn strip_tags(input: &str) -> (r: String)
    ensures
        r@ == tags_stripped(input@),
{
    let mut result = String::new();
    let mut inside_tag = false;
    for ch in it: input.chars()
        invariant
            it.seq() == input@,
            result@ == tags_stripped(input@.take(it.index() as int)),
            inside_tag == inside_tag_after(input@.take(it.index() as int)),
    {
        let ghost before = input@.take(it.index() as int);
        proof {
            assert(input@.take(it.index() + 1).drop_last() =~= before);
        }
        if ch == '<' {
            inside_tag = true;
        } else if ch == '>' {
            inside_tag = false;
        } else if !inside_tag {
            push_char(&mut result, ch);
        }
    }
    proof {
        assert(input@.take(input@.len() as int) =~= input@);
    }
    result
}

fn collapse_whitespace(text: &str) -> (r: String)
    ensures
        r@ == spaces_collapsed(text@),
{
    let mut result = String::new();
    let mut has_word = false;
    let mut after_space = false;
    for ch in it: text.chars()
        invariant
            it.seq() == text@,
            result@ == spaces_collapsed(text@.take(it.index() as int)),
            has_word == (result@.len() > 0),
            after_space == (it.index() > 0 && is_white_space(text@[it.index() - 1])),
    {
        let ghost before = text@.take(it.index() as int);
        proof {
            assert(text@.take(it.index() + 1).drop_last() =~= before);
        }
        if is_space(ch) {
            after_space = true;
        } else {
            if has_word && after_space {
                push_char(&mut result, ' ');
            }
            push_char(&mut result, ch);
            has_word = true;
            after_space = false;
        }
    }
    proof {
        assert(text@.take(text@.len() as int) =~= text@);
    }
    result
}

/// Strips the tags from a fragment of markup and collapses its whitespace.
/// Total: every input gives a result. Character entities are left as they are.
pub fn strip_html_tags(input: &str) -> (r: String)
    ensures
        r@ == sanitized(input@),
{
    let stripped = strip_tags(input);
    collapse_whitespace(stripped.as_str())
}

proof fn lemma_no_angle_is_kept(s: Seq<char>)
    requires
        has_no_angle(s),
    ensures
        !inside_tag_after(s),
        tags_stripped(s) == s,
    decreases s.len(),
{
    if s.len() > 0 {
        lemma_no_angle_is_kept(s.drop_last());
        assert(s.drop_last().push(s.last()) =~= s);
    }
}

proof fn lemma_stripped_has_no_angle(s: Seq<char>)
    ensures
        has_no_angle(tags_stripped(s)),
    decreases s.len(),
{
    if s.len() > 0 {
        lemma_stripped_has_no_angle(s.drop_last());
    }
}

proof fn lemma_collapse_keeps_no_angle(s: Seq<char>)
    requires
        has_no_angle(s),
    ensures
        has_no_angle(spaces_collapsed(s)),
    decreases s.len(),
{
    if s.len() > 0 {
        lemma_collapse_keeps_no_angle(s.drop_last());
    }
}

proof fn lemma_collapse_is_collapsed(s: Seq<char>)
    ensures
        is_collapsed(spaces_collapsed(s)),
    decreases s.len(),
{
    if s.len() > 0 {
        lemma_collapse_is_collapsed(s.drop_last());
        let r = spaces_collapsed(s.drop_last());
        let t = spaces_collapsed(s);
        assert forall|i: int, j: int|
            0 <= i && j == i + 1 && j < t.len() implies !(#[trigger] t[i] == ' ' && #[trigger] t[j]
            == ' ') by {
            if j < r.len() {
                assert(t[i] == r[i] && t[j] == r[j]);
            }
        }
    }
}

proof fn lemma_collapse_fixes_spaced(s: Seq<char>)
    requires
        spaced_once(s),
    ensures
        spaces_collapsed(s) == (if s.len() > 0 && s.last() == ' ' {
            s.drop_last()
        } else {
            s
        }),
    decreases s.len(),
{
    if s.len() > 0 {
        let p = s.drop_last();
        assert forall|i: int, j: int|
            0 <= i && j == i + 1 && j < p.len() implies !(#[trigger] p[i] == ' ' && #[trigger] p[j]
            == ' ') by {
            assert(p[i] == s[i] && p[j] == s[j]);
        }
        lemma_collapse_fixes_spaced(p);
        if p.len() > 0 {
            assert(s[p.len() - 1] == p.last());
        }
        if !is_white_space(s.last()) && p.len() > 0 && is_white_space(p.last()) {
            assert(p.drop_last().push(' ').push(s.last()) =~= s);
        } else {
            assert(p.push(s.last()) =~= s);
        }
    }
}

/// Sanitizing is idempotent: sanitized text sanitizes to itself.
pub proof fn lemma_sanitize_idempotent(s: Seq<char>)
    ensures
        sanitized(sanitized(s)) == sanitized(s),
{
    let u = sanitized(s);
    lemma_stripped_has_no_angle(s);
    lemma_collapse_keeps_no_angle(tags_stripped(s));
    lemma_no_angle_is_kept(u);
    lemma_collapse_is_collapsed(tags_stripped(s));
    lemma_collapse_fixes_spaced(u);
}

} // verus!
