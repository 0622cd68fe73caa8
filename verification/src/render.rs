//! The template renderer: every placeholder in a template becomes the
//! recipient's display name, and nothing else in the template changes.

use vstd::prelude::*;
use crate::recipient::{Recipient, RecipientView};
use crate::text::chars_of;

verus! {

/// The single message pattern of a run: text that holds the placeholder
/// zero or more times. It is loaded once and rendered for every recipient
/// without ever being changed.
#[derive(Debug, Clone, PartialEq, Eq)]
pub struct Template {
    pub body: String,
}

impl View for Template {
    type V = Seq<char>;

    open spec fn view(&self) -> Seq<char> {
        self.body@
    }
}

/// The one placeholder that templates may hold, written out for callers.
pub const PLACEHOLDER: &'static str = "{name}";

/// The characters of the placeholder token.
pub open spec fn placeholder() -> Seq<char> {
    seq!['{', 'n', 'a', 'm', 'e', '}']
}

/// Whether `pattern` stands in `text` starting at position `at`.
pub open spec fn occurs_at(text: Seq<char>, pattern: Seq<char>, at: int) -> bool {
    &&& 0 <= at
    &&& at + pattern.len() <= text.len()
    &&& text.subrange(at, at + pattern.len()) == pattern
}

/// How often `pattern` stands in `text`, reading from the left and never
/// counting a character for two occurrences. An empty pattern counts as absent.
pub open spec fn occurrences(text: Seq<char>, pattern: Seq<char>) -> nat
    decreases text.len(),
{
    if pattern.len() == 0 || text.len() < pattern.len() {
        0
    } else if occurs_at(text, pattern, 0) {
        1 + occurrences(text.skip(pattern.len() as int), pattern)
    } else {
        occurrences(text.skip(1), pattern)
    }
}

/// `text` with each occurrence of `pattern` that `occurrences` counts
/// replaced by `with`; every other character is kept in place.
pub open spec fn substitute(text: Seq<char>, pattern: Seq<char>, with: Seq<char>) -> Seq<char>
    decreases text.len(),
{
    if pattern.len() == 0 || text.len() < pattern.len() {
        text
    } else if occurs_at(text, pattern, 0) {
        with + substitute(text.skip(pattern.len() as int), pattern, with)
    } else {
        seq![text[0]] + substitute(text.skip(1), pattern, with)
    }
}

/// The body that a template gives for a display name.
pub open spec fn rendered(template: Seq<char>, name: Seq<char>) -> Seq<char> {
    substitute(template, placeholder(), name)
}

/// A text in which the pattern does not occur is left as it is, whatever the
/// replacement.
pub proof fn lemma_substitute_absent(text: Seq<char>, pattern: Seq<char>, with: Seq<char>)
    requires
        occurrences(text, pattern) == 0,
    ensures
        substitute(text, pattern, with) == text,
    decreases text.len(),
{
    if pattern.len() == 0 || text.len() < pattern.len() {
    } else {
        lemma_substitute_absent(text.skip(1), pattern, with);
        assert(seq![text[0]] + text.skip(1) =~= text);
    }
}

/// The length of the result: each occurrence gives up the pattern's length
/// and takes the replacement's.
pub proof fn lemma_substitute_len(text: Seq<char>, pattern: Seq<char>, with: Seq<char>)
    ensures
        substitute(text, pattern, with).len() + occurrences(text, pattern) * pattern.len()
            == text.len() + occurrences(text, pattern) * with.len(),
    decreases text.len(),
{
    let p = pattern.len() as int;
    let w = with.len() as int;
    if pattern.len() == 0 || text.len() < pattern.len() {
        assert(occurrences(text, pattern) * pattern.len() == 0) by (nonlinear_arith)
            requires
                occurrences(text, pattern) == 0,
        ;
        assert(occurrences(text, pattern) * with.len() == 0) by (nonlinear_arith)
            requires
                occurrences(text, pattern) == 0,
        ;
    } else if occurs_at(text, pattern, 0) {
        let rest = text.skip(p);
        lemma_substitute_len(rest, pattern, with);
        let k = occurrences(rest, pattern) as int;
        assert(occurrences(text, pattern) == 1 + k);
        assert(substitute(text, pattern, with).len() == w + substitute(rest, pattern, with).len());
        let n = occurrences(text, pattern);
        assert(n * pattern.len() == p + occurrences(rest, pattern) * pattern.len())
            by (nonlinear_arith)
            requires
                n == 1 + occurrences(rest, pattern),
                p == pattern.len(),
        ;
        assert(n * with.len() == w + occurrences(rest, pattern) * with.len())
            by (nonlinear_arith)
            requires
                n == 1 + occurrences(rest, pattern),
                w == with.len(),
        ;
    } else {
        let rest = text.skip(1);
        lemma_substitute_len(rest, pattern, with);
        assert(occurrences(text, pattern) == occurrences(rest, pattern));
        assert(substitute(text, pattern, with).len() == 1 + substitute(rest, pattern, with).len());
    }
}

/// A template without a placeholder renders to itself, for every name.
pub proof fn lemma_render_without_placeholder(template: Seq<char>, name: Seq<char>)
    requires
        occurrences(template, placeholder()) == 0,
    ensures
        rendered(template, name) == template,
{
    lemma_substitute_absent(template, placeholder(), name);
}

/// The pieces of `text` between the occurrences of `pattern` that
/// `occurrences` counts: what stands before the first, between each two,
/// and after the last. A piece may be empty.
pub open spec fn pieces(text: Seq<char>, pattern: Seq<char>) -> Seq<Seq<char>>
    decreases text.len(),
{
    if pattern.len() == 0 || text.len() < pattern.len() {
        seq![text]
    } else if occurs_at(text, pattern, 0) {
        seq![Seq::<char>::empty()] + pieces(text.skip(pattern.len() as int), pattern)
    } else {
        let rest = pieces(text.skip(1), pattern);
        rest.update(0, seq![text[0]] + rest[0])
    }
}

/// The parts in order, with `between` put between each two of them.
pub open spec fn joined(parts: Seq<Seq<char>>, between: Seq<char>) -> Seq<char>
    decreases parts.len(),
{
    if parts.len() == 0 {
        Seq::empty()
    } else if parts.len() == 1 {
        parts[0]
    } else {
        parts[0] + between + joined(parts.skip(1), between)
    }
}

/// Replacing is cutting at the pattern and joining with the replacement:
/// a text with k occurrences has k + 1 pieces, the pieces joined by the
/// pattern are the text, and joined by the replacement they are the result.
pub proof fn lemma_substitute_joins_pieces(text: Seq<char>, pattern: Seq<char>, with: Seq<char>)
    ensures
        pieces(text, pattern).len() == occurrences(text, pattern) + 1,
        joined(pieces(text, pattern), pattern) == text,
        joined(pieces(text, pattern), with) == substitute(text, pattern, with),
    decreases text.len(),
{
    let parts = pieces(text, pattern);
    if pattern.len() == 0 || text.len() < pattern.len() {
    } else if occurs_at(text, pattern, 0) {
        let rest = text.skip(pattern.len() as int);
        lemma_substitute_joins_pieces(rest, pattern, with);
        assert(parts.skip(1) =~= pieces(rest, pattern));
        assert(parts[0] + pattern =~= pattern);
        assert(parts[0] + with =~= with);
        assert(pattern + rest =~= text) by {
            assert(text.subrange(0, pattern.len() as int) == pattern);
        }
    } else {
        let rest = text.skip(1);
        let tail = pieces(rest, pattern);
        lemma_substitute_joins_pieces(rest, pattern, with);
        assert(seq![text[0]] + rest =~= text);
        if tail.len() == 1 {
            assert(joined(tail, pattern) == tail[0]);
            assert(joined(tail, with) == tail[0]);
        } else {
            assert(parts.skip(1) =~= tail.skip(1));
            assert((seq![text[0]] + tail[0]) + pattern + joined(tail.skip(1), pattern) =~= seq![
                text[0],
            ] + (tail[0] + pattern + joined(tail.skip(1), pattern)));
            assert((seq![text[0]] + tail[0]) + with + joined(tail.skip(1), with) =~= seq![text[0]]
                + (tail[0] + with + joined(tail.skip(1), with)));
        }
    }
}

/// Rendering cuts the template at its placeholders and joins the pieces
/// with the name: every placeholder is replaced, and the text around them is
/// kept as it stands.
pub proof fn lemma_render_joins_pieces(template: Seq<char>, name: Seq<char>)
    ensures
        pieces(template, placeholder()).len() == occurrences(template, placeholder()) + 1,
        joined(pieces(template, placeholder()), placeholder()) == template,
        joined(pieces(template, placeholder()), name) == rendered(template, name),
{
    lemma_substitute_joins_pieces(template, placeholder(), name);
}

/// A pattern that stands nowhere in a text is counted zero times in it.
pub proof fn lemma_occurrences_none(text: Seq<char>, pattern: Seq<char>)
    requires
        forall|at: int| !occurs_at(text, pattern, at),
    ensures
        occurrences(text, pattern) == 0,
    decreases text.len(),
{
    if pattern.len() == 0 || text.len() < pattern.len() {
    } else {
        let rest = text.skip(1);
        assert forall|at: int| !occurs_at(rest, pattern, at) by {
            if occurs_at(rest, pattern, at) {
                assert(text.subrange(at + 1, at + 1 + pattern.len()) =~= rest.subrange(
                    at,
                    at + pattern.len(),
                ));
                assert(occurs_at(text, pattern, at + 1));
            }
        }
        lemma_occurrences_none(rest, pattern);
    }
}

/// A pattern that is counted zero times in a text stands nowhere in it.
pub proof fn lemma_occurrences_zero_is_absent(text: Seq<char>, pattern: Seq<char>, at: int)
    requires
        pattern.len() > 0,
        occurrences(text, pattern) == 0,
    ensures
        !occurs_at(text, pattern, at),
    decreases text.len(),
{
    if text.len() < pattern.len() {
    } else if at > 0 && occurs_at(text, pattern, at) {
        let rest = text.skip(1);
        assert(rest.subrange(at - 1, at - 1 + pattern.len()) =~= text.subrange(
            at,
            at + pattern.len(),
        ));
        lemma_occurrences_zero_is_absent(rest, pattern, at - 1);
    }
}

/// A name that rendering cannot make into a placeholder again: it holds no
/// brace, and it is not a piece of the placeholder itself. The empty name is
/// a piece of every text and so is left out.
pub open spec fn plain_name(name: Seq<char>) -> bool {
    &&& !name.contains('{')
    &&& !name.contains('}')
    &&& forall|at: int| !occurs_at(placeholder(), name, at)
}

/// Where a rendered text begins with an end piece of the placeholder, the
/// template began with that piece too: a plain name cannot supply it.
proof fn lemma_tail_comes_from_template(template: Seq<char>, name: Seq<char>, from: int)
    requires
        plain_name(name),
        1 <= from <= 6,
        rendered(template, name).len() >= 6 - from,
        rendered(template, name).subrange(0, 6 - from) == placeholder().subrange(from, 6),
    ensures
        template.len() >= 6 - from,
        template.subrange(0, 6 - from) == placeholder().subrange(from, 6),
    decreases 6 - from,
{
    let token = placeholder();
    let body = rendered(template, name);
    let tail = token.subrange(from, 6);
    let n = 6 - from;
    if from == 6 {
        assert(template.subrange(0, 0) =~= tail);
    } else if template.len() < 6 {
    } else if occurs_at(template, token, 0) {
        let rest = rendered(template.skip(6), name);
        assert(body == name + rest);
        if name.len() >= n {
            assert(name[n - 1] == body.subrange(0, n)[n - 1]);
            assert(tail[n - 1] == '}');
            assert(name.contains('}'));
        } else {
            assert(name =~= body.subrange(0, n).subrange(0, name.len() as int));
            assert(tail.subrange(0, name.len() as int) =~= token.subrange(
                from,
                from + name.len(),
            ));
            assert(occurs_at(token, name, from));
        }
    } else {
        let rest = rendered(template.skip(1), name);
        assert(body == seq![template[0]] + rest);
        assert(body.subrange(0, n)[0] == template[0]);
        assert(rest.subrange(0, n - 1) =~= body.subrange(0, n).subrange(1, n));
        assert(tail.subrange(1, n) =~= token.subrange(from + 1, 6));
        lemma_tail_comes_from_template(template.skip(1), name, from + 1);
        assert(template.subrange(0, n) =~= seq![template[0]] + template.skip(1).subrange(
            0,
            n - 1,
        ));
        assert(tail =~= seq![tail[0]] + token.subrange(from + 1, 6));
    }
}

/// The placeholder stands nowhere in what a template renders to for a plain
/// name.
proof fn lemma_rendered_free_at(template: Seq<char>, name: Seq<char>, at: int)
    requires
        plain_name(name),
    ensures
        !occurs_at(rendered(template, name), placeholder(), at),
    decreases template.len(),
{
    let token = placeholder();
    let body = rendered(template, name);
    if template.len() < 6 {
    } else if occurs_at(template, token, 0) {
        let rest = rendered(template.skip(6), name);
        assert(body == name + rest);
        if occurs_at(body, token, at) {
            if at < name.len() {
                assert(body.subrange(at, at + 6)[0] == name[at]);
                assert(name.contains('{'));
            } else {
                assert(rest.subrange(at - name.len(), at - name.len() + 6) =~= body.subrange(
                    at,
                    at + 6,
                ));
                lemma_rendered_free_at(template.skip(6), name, at - name.len());
            }
        }
    } else {
        let rest = rendered(template.skip(1), name);
        assert(body == seq![template[0]] + rest);
        if occurs_at(body, token, at) {
            if at == 0 {
                assert(body.subrange(0, 6)[0] == template[0]);
                assert(rest.subrange(0, 5) =~= body.subrange(0, 6).subrange(1, 6));
                lemma_tail_comes_from_template(template.skip(1), name, 1);
                assert(template.subrange(0, 6) =~= seq![template[0]] + template.skip(1).subrange(
                    0,
                    5,
                ));
                assert(token =~= seq![token[0]] + token.subrange(1, 6));
            } else {
                assert(rest.subrange(at - 1, at + 5) =~= body.subrange(at, at + 6));
                lemma_rendered_free_at(template.skip(1), name, at - 1);
            }
        }
    }
}

/// Rendering for a plain name leaves no placeholder behind, however many
/// the template held.
pub proof fn lemma_render_leaves_no_placeholder(template: Seq<char>, name: Seq<char>)
    requires
        plain_name(name),
    ensures
        occurrences(rendered(template, name), placeholder()) == 0,
        forall|at: int| !occurs_at(rendered(template, name), placeholder(), at),
{
    assert forall|at: int| !occurs_at(rendered(template, name), placeholder(), at) by {
        lemma_rendered_free_at(template, name, at);
    }
    lemma_occurrences_none(rendered(template, name), placeholder());
}

/// Dropping characters from the front of a text never adds an occurrence.
pub proof fn lemma_occurrences_skip(text: Seq<char>, pattern: Seq<char>, dropped: int)
    requires
        0 <= dropped <= text.len(),
    ensures
        occurrences(text.skip(dropped), pattern) <= occurrences(text, pattern),
    decreases text.len(), 1int,
{
    let n = pattern.len() as int;
    if dropped == 0 {
        assert(text.skip(0) =~= text);
    } else if n == 0 || text.len() < n {
    } else if occurs_at(text, pattern, 0) {
        if dropped >= n {
            assert(text.skip(n).skip(dropped - n) =~= text.skip(dropped));
            lemma_occurrences_skip(text.skip(n), pattern, dropped - n);
        } else {
            assert(text.skip(dropped).skip(n - dropped) =~= text.skip(n));
            lemma_occurrences_skip_short(text.skip(dropped), pattern, n - dropped);
        }
    } else {
        assert(text.skip(1).skip(dropped - 1) =~= text.skip(dropped));
        lemma_occurrences_skip(text.skip(1), pattern, dropped - 1);
    }
}

/// Dropping no more characters from the front than the pattern is long
/// loses one occurrence at most.
pub proof fn lemma_occurrences_skip_short(text: Seq<char>, pattern: Seq<char>, dropped: int)
    requires
        0 <= dropped <= text.len(),
        dropped <= pattern.len(),
    ensures
        occurrences(text, pattern) <= 1 + occurrences(text.skip(dropped), pattern),
    decreases text.len(), 0int,
{
    let n = pattern.len() as int;
    if dropped == 0 {
        assert(text.skip(0) =~= text);
    } else if n == 0 || text.len() < n {
    } else if occurs_at(text, pattern, 0) {
        assert(text.skip(dropped).skip(n - dropped) =~= text.skip(n));
        lemma_occurrences_skip(text.skip(dropped), pattern, n - dropped);
    } else {
        assert(text.skip(1).skip(dropped - 1) =~= text.skip(dropped));
        lemma_occurrences_skip_short(text.skip(1), pattern, dropped - 1);
    }
}

/// The rendered body holds the name at least once for every placeholder
/// that the template held, whatever else the template says. The empty name
/// is counted nowhere and so is left out.
pub proof fn lemma_render_holds_name_at_least(template: Seq<char>, name: Seq<char>)
    requires
        name.len() > 0,
    ensures
        occurrences(rendered(template, name), name) >= occurrences(template, placeholder()),
    decreases template.len(),
{
    let token = placeholder();
    let body = rendered(template, name);
    let n = name.len() as int;
    if template.len() < 6 {
    } else if occurs_at(template, token, 0) {
        let rest = template.skip(6);
        assert(body == name + rendered(rest, name));
        assert(body.subrange(0, n) =~= name);
        assert(body.skip(n) =~= rendered(rest, name));
        lemma_render_holds_name_at_least(rest, name);
    } else {
        let rest = rendered(template.skip(1), name);
        assert(body == seq![template[0]] + rest);
        assert(body.skip(1) =~= rest);
        lemma_render_holds_name_at_least(template.skip(1), name);
        if body.len() >= n && occurs_at(body, name, 0) {
            assert(body.skip(n) =~= rest.skip(n - 1));
            lemma_occurrences_skip_short(rest, name, n - 1);
        }
    }
}

/// Where the name's first character is nowhere in the template, the
/// rendered body holds the name exactly as often as the template held the
/// placeholder: once at each place where one stood, and nowhere else.
pub proof fn lemma_render_holds_name_per_placeholder(template: Seq<char>, name: Seq<char>)
    requires
        name.len() > 0,
        !template.contains(name[0]),
    ensures
        occurrences(rendered(template, name), name) == occurrences(template, placeholder()),
    decreases template.len(),
{
    let token = placeholder();
    let body = rendered(template, name);
    if template.len() < 6 {
        assert forall|at: int| !occurs_at(template, name, at) by {
            if occurs_at(template, name, at) {
                assert(template.subrange(at, at + name.len())[0] == template[at]);
                assert(template.contains(name[0]));
            }
        }
        lemma_occurrences_none(template, name);
    } else if occurs_at(template, token, 0) {
        let rest = template.skip(6);
        assert(body == name + rendered(rest, name));
        assert(body.subrange(0, name.len() as int) =~= name);
        assert(body.skip(name.len() as int) =~= rendered(rest, name));
        assert(!rest.contains(name[0])) by {
            if rest.contains(name[0]) {
                let i = choose|i: int| 0 <= i < rest.len() && rest[i] == name[0];
                assert(template[i + 6] == name[0]);
            }
        }
        lemma_render_holds_name_per_placeholder(rest, name);
    } else {
        let rest = template.skip(1);
        assert(body == seq![template[0]] + rendered(rest, name));
        assert(body.skip(1) =~= rendered(rest, name));
        assert(!rest.contains(name[0])) by {
            if rest.contains(name[0]) {
                let i = choose|i: int| 0 <= i < rest.len() && rest[i] == name[0];
                assert(template[i + 1] == name[0]);
            }
        }
        lemma_render_holds_name_per_placeholder(rest, name);
        if body.len() >= name.len() {
            assert(!occurs_at(body, name, 0)) by {
                if occurs_at(body, name, 0) {
                    assert(body.subrange(0, name.len() as int)[0] == template[0]);
                    assert(template.contains(name[0]));
                }
            }
        }
    }
}

/// The exported placeholder is the token that rendering replaces.
pub proof fn lemma_placeholder_text()
    ensures
        PLACEHOLDER@ == placeholder(),
{
    reveal_strlit("{name}");
    assert(PLACEHOLDER@ =~= placeholder());
}

/// Whether the placeholder stands in `text` at index `at`.
fn placeholder_at(text: &Vec<char>, at: usize) -> (found: bool)
    requires
        at <= text.len(),
    ensures
        found == occurs_at(text@.skip(at as int), placeholder(), 0),
{
    if text.len() - at < 6 {
        return false;
    }
    let found = text[at] == '{' && text[at + 1] == 'n' && text[at + 2] == 'a' && text[at + 3]
        == 'm' && text[at + 4] == 'e' && text[at + 5] == '}';
    proof {
        let rest = text@.skip(at as int);
        let window = rest.subrange(0, 6);
        if found {
            assert(window =~= placeholder());
        } else {
            assert(window[0] == text@[at as int]);
            assert(window[1] == text@[at + 1]);
            assert(window[2] == text@[at + 2]);
            assert(window[3] == text@[at + 3]);
            assert(window[4] == text@[at + 4]);
            assert(window[5] == text@[at + 5]);
        }
    }
    found
}

/// Replaces each placeholder in `template` by `name`: all of them, and only
/// the exact token. Text without a placeholder comes back as it is.
pub fn render_name(template: &str, name: &str) -> (body: String)
    ensures
        body@ == rendered(template@, name@),
{
    let source = chars_of(template);
    let mut body = String::new();
    let mut at: usize = 0;
    proof {
        assert(source@.skip(0) =~= template@);
        assert(body@ + rendered(template@, name@) =~= rendered(template@, name@));
    }
    while at < source.len()
        invariant
            at <= source.len(),
            source@ == template@,
            body@ + rendered(source@.skip(at as int), name@) == rendered(template@, name@),
        decreases source.len() - at,
    {
        let ghost rest = source@.skip(at as int);
        let ghost before = body@;
        if placeholder_at(&source, at) {
            body.append(name);
            proof {
                let tail = rendered(rest.skip(6), name@);
                assert(rest.skip(6) =~= source@.skip(at + 6));
                assert(before + (name@ + tail) =~= (before + name@) + tail);
            }
            at += 6;
        } else {
            body.push(source[at]);
            proof {
                let tail = rendered(rest.skip(1), name@);
                assert(rest.skip(1) =~= source@.skip(at + 1));
                assert(rest.len() < 6 ==> tail == rest.skip(1));
                assert(rest =~= seq![rest[0]] + rest.skip(1));
                assert(before + (seq![rest[0]] + tail) =~= before.push(rest[0]) + tail);
            }
            at += 1;
        }
    }
    body
}

/// Renders the template for one recipient: every placeholder becomes the
/// recipient's display name, and the rest of the template stays word for
/// word. The result depends on the template's text and that name alone, so
/// rendering again gives the same body. Rendering never fails.
pub fn render(template: &Template, recipient: &Recipient) -> (body: String)
    ensures
        body@ == rendered(template@, recipient@.name),
{
    render_name(template.body.as_str(), recipient.name.as_str())
}

/// Rendering reads nothing of a recipient but the name: two recipients of
/// the same name get the same body from the same template.
pub proof fn lemma_render_reads_only_the_name(
    template: Seq<char>,
    one: RecipientView,
    other: RecipientView,
)
    requires
        one.name == other.name,
    ensures
        rendered(template, one.name) == rendered(template, other.name),
{
}

} // verus!
