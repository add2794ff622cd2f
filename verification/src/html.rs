//! HTML entity encoding of text shown in the tooltip.
use vstd::prelude::*;
use vstd::string::StringExecFns;
use crate::text::push_char;

verus! {

/// Whether `t` begins with `p`.
pub open spec fn starts_with(t: Seq<char>, p: Seq<char>) -> bool {
    p.len() <= t.len() && t.take(p.len() as int) =~= p
}

/// The entity that stands for `&`.
pub open spec fn amp_entity() -> Seq<char> {
    seq!['&', 'a', 'm', 'p', ';']
}

/// The entity that stands for `<`.
pub open spec fn lt_entity() -> Seq<char> {
    seq!['&', 'l', 't', ';']
}

/// The entity that stands for `>`.
pub open spec fn gt_entity() -> Seq<char> {
    seq!['&', 'g', 't', ';']
}

/// The entity that stands for `"`.
pub open spec fn quot_entity() -> Seq<char> {
    seq!['&', 'q', 'u', 'o', 't', ';']
}

/// The entity that stands for `'`.
pub open spec fn apos_entity() -> Seq<char> {
    seq!['&', '#', 'x', '2', '7', ';']
}

/// Whether `c` is one of the five characters that HTML markup gives a meaning.
pub open spec fn is_html_special(c: char) -> bool {
    c == '&' || c == '<' || c == '>' || c == '"' || c == '\''
}

/// The text that stands for `c` once escaped.
pub open spec fn escape_char(c: char) -> Seq<char> {
    if c == '&' {
        amp_entity()
    } else if c == '<' {
        lt_entity()
    } else if c == '>' {
        gt_entity()
    } else if c == '"' {
        quot_entity()
    } else if c == '\'' {
        apos_entity()
    } else {
        seq![c]
    }
}

/// `s` with each of `& < > " '` replaced by its entity.
pub open spec fn html_escaped(s: Seq<char>) -> Seq<char>
    decreases s.len(),
{
    if s.len() == 0 {
        Seq::empty()
    } else {
        html_escaped(s.drop_last()) + escape_char(s.last())
    }
}

/// The text that `t` stands for: the five entities above read back as their
/// characters, from left to right; everything else kept.
pub open spec fn html_unescaped(t: Seq<char>) -> Seq<char>
    decreases t.len(),
{
    if t.len() == 0 {
        Seq::empty()
    } else if starts_with(t, amp_entity()) {
        seq!['&'] + html_unescaped(t.skip(5))
    } else if starts_with(t, lt_entity()) {
        seq!['<'] + html_unescaped(t.skip(4))
    } else if starts_with(t, gt_entity()) {
        seq!['>'] + html_unescaped(t.skip(4))
    } else if starts_with(t, quot_entity()) {
        seq!['"'] + html_unescaped(t.skip(6))
    } else if starts_with(t, apos_entity()) {
        seq!['\''] + html_unescaped(t.skip(6))
    } else {
        seq![t[0]] + html_unescaped(t.skip(1))
    }
}

/// Whether `t` holds none of the characters that open a tag, close one, or
/// delimit an attribute value.
pub open spec fn free_of_markup(t: Seq<char>) -> bool {
    forall|i: int|
        0 <= i < t.len() ==> #[trigger] t[i] != '<' && t[i] != '>' && t[i] != '"' && t[i] != '\''
}

/// Escaping distributes over concatenation.
pub proof fn lemma_escaped_concat(a: Seq<char>, b: Seq<char>)
    ensures
        html_escaped(a + b) == html_escaped(a) + html_escaped(b),
    decreases b.len(),
{
    if b.len() == 0 {
        assert(a + b =~= a);
        assert(html_escaped(a) + html_escaped(b) =~= html_escaped(a));
    } else {
        lemma_escaped_concat(a, b.drop_last());
        assert((a + b).drop_last() =~= a + b.drop_last());
        assert((a + b).last() == b.last());
        assert(html_escaped(a) + html_escaped(b) =~= html_escaped(a) + html_escaped(b.drop_last())
            + escape_char(b.last()));
    }
}

/// Law: the entities are read back as the characters they replaced, so
/// escaping loses nothing.
pub proof fn law_unescape_inverts_escape(s: Seq<char>)
    ensures
        html_unescaped(html_escaped(s)) == s,
    decreases s.len(),
{
    if s.len() == 0 {
    } else {
        let c = s[0];
        let rest = s.drop_first();
        assert(s =~= seq![c] + rest);
        lemma_escaped_concat(seq![c], rest);
        assert(seq![c].drop_last() =~= Seq::<char>::empty());
        assert(html_escaped(Seq::<char>::empty()) =~= Seq::<char>::empty());
        assert(seq![c].last() == c);
        assert(html_escaped(seq![c]) =~= escape_char(c));
        let r = html_escaped(rest);
        let t = escape_char(c) + r;
        law_unescape_inverts_escape(rest);
        assert(t.skip(escape_char(c).len() as int) =~= r);
        assert(t.take(escape_char(c).len() as int) =~= escape_char(c));
        if !is_html_special(c) {
            assert(t[0] == c);
            if t.len() >= 4 {
                assert(t.take(4)[0] == c);
            }
            if t.len() >= 5 {
                assert(t.take(5)[0] == c);
            }
            if t.len() >= 6 {
                assert(t.take(6)[0] == c);
            }
            assert(!starts_with(t, amp_entity()));
            assert(!starts_with(t, lt_entity()));
            assert(!starts_with(t, gt_entity()));
            assert(!starts_with(t, quot_entity()));
            assert(!starts_with(t, apos_entity()));
            assert(t.skip(1) =~= r);
        }
        assert(html_unescaped(t) =~= seq![c] + rest);
    }
}

/// Law: escaped text holds no `<`, `>`, `"` or `'`, so text from outside
/// cannot open or close a tag or an attribute.
pub proof fn law_escaped_is_free_of_markup(s: Seq<char>)
    ensures
        free_of_markup(html_escaped(s)),
    decreases s.len(),
{
    if s.len() > 0 {
        law_escaped_is_free_of_markup(s.drop_last());
        let p = html_escaped(s.drop_last());
        let e = escape_char(s.last());
        assert forall|i: int| 0 <= i < (p + e).len() implies #[trigger] (p + e)[i] != '<' && (p
            + e)[i] != '>' && (p + e)[i] != '"' && (p + e)[i] != '\'' by {
            if i < p.len() {
                assert((p + e)[i] == p[i]);
            } else {
                assert((p + e)[i] == e[i - p.len()]);
            }
        }
    }
}

/// Whether one of the five entities begins in `t` at `i`.
pub open spec fn entity_at(t: Seq<char>, i: int) -> bool {
    ||| i + 5 <= t.len() && t.subrange(i, i + 5) == amp_entity()
    ||| i + 4 <= t.len() && t.subrange(i, i + 4) == lt_entity()
    ||| i + 4 <= t.len() && t.subrange(i, i + 4) == gt_entity()
    ||| i + 6 <= t.len() && t.subrange(i, i + 6) == quot_entity()
    ||| i + 6 <= t.len() && t.subrange(i, i + 6) == apos_entity()
}

/// Law: every `&` of escaped text opens one of the five entities, so no
/// `&` of the input survives bare.
pub proof fn law_each_ampersand_opens_an_entity(s: Seq<char>)
    ensures
        forall|i: int|
            0 <= i < html_escaped(s).len() && #[trigger] html_escaped(s)[i] == '&' ==> entity_at(
                html_escaped(s),
                i,
            ),
    decreases s.len(),
{
    if s.len() > 0 {
        law_each_ampersand_opens_an_entity(s.drop_last());
        let p = html_escaped(s.drop_last());
        let c = s.last();
        let e = escape_char(c);
        let t = p + e;
        assert(html_escaped(s) == t);
        assert forall|i: int| 0 <= i < t.len() && #[trigger] t[i] == '&' implies entity_at(t, i) by {
            if i < p.len() {
                assert(t[i] == p[i]);
                assert(entity_at(p, i));
                if i + 4 <= p.len() {
                    assert(t.subrange(i, i + 4) =~= p.subrange(i, i + 4));
                }
                if i + 5 <= p.len() {
                    assert(t.subrange(i, i + 5) =~= p.subrange(i, i + 5));
                }
                if i + 6 <= p.len() {
                    assert(t.subrange(i, i + 6) =~= p.subrange(i, i + 6));
                }
            } else {
                let j = i - p.len();
                assert(t[i] == e[j]);
                assert(j == 0);
                assert(t.subrange(i, i + e.len()) =~= e);
            }
        }
    }
}

/// The number of times `c` occurs in `s`.
pub open spec fn count_char(s: Seq<char>, c: char) -> nat
    decreases s.len(),
{
    if s.len() == 0 {
        0
    } else {
        count_char(s.drop_last(), c) + if s.last() == c {
            1nat
        } else {
            0nat
        }
    }
}

/// Law: escaping adds four characters for each `&`, three for each `<` and
/// `>`, and five for each `"` and `'`.
pub proof fn law_escaped_length(s: Seq<char>)
    ensures
        html_escaped(s).len() == s.len() + 4 * count_char(s, '&') + 3 * count_char(s, '<') + 3
            * count_char(s, '>') + 5 * count_char(s, '"') + 5 * count_char(s, '\''),
    decreases s.len(),
{
    if s.len() > 0 {
        law_escaped_length(s.drop_last());
    }
}

/// Law: text without any of the five special characters is left as it is.
pub proof fn law_plain_text_unchanged(s: Seq<char>)
    requires
        forall|i: int| 0 <= i < s.len() ==> !is_html_special(#[trigger] s[i]),
    ensures
        html_escaped(s) == s,
    decreases s.len(),
{
    if s.len() > 0 {
        law_plain_text_unchanged(s.drop_last());
        assert(!is_html_special(s[s.len() - 1]));
        assert(s.drop_last().push(s.last()) =~= s);
    }
}

/// Escapes `& < > " '` as HTML entities, so that text from the weather service
/// is shown as text in the tooltip and never read as markup.
pub fn escape_html(input: &str) -> (result: String)
    ensures
        result@ == html_escaped(input@),
{
    let mut result = String::new();
    let ghost mut seen: Seq<char> = Seq::empty();
    for c in it: input.chars()
        invariant
            it.seq() == input@,
            seen == it.seq().take(it.index()),
            result@ == html_escaped(seen),
    {
        let ghost before = seen;
        proof {
            reveal_strlit("&amp;");
            reveal_strlit("&lt;");
            reveal_strlit("&gt;");
            reveal_strlit("&quot;");
            reveal_strlit("&#x27;");
        }
        if c == '&' {
            result.append("&amp;");
        } else if c == '<' {
            result.append("&lt;");
        } else if c == '>' {
            result.append("&gt;");
        } else if c == '"' {
            result.append("&quot;");
        } else if c == '\'' {
            result.append("&#x27;");
        } else {
            push_char(&mut result, c);
        }
        proof {
            seen = seen.push(c);
        }
        assert(seen.drop_last() =~= before);
    }
    assert(seen =~= input@);
    result
}

} // verus!
