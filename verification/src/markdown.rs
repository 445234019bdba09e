//! The Markdown file that stores a page in the repository: YAML front matter
//! between two `---` lines, then the page body.
use vstd::prelude::*;
use vstd::string::*;

use crate::text::{chars_of, texts_of};

verus! {

/// `s` holds a `---` that starts at index `j`.
pub open spec fn is_marker_at(s: Seq<char>, j: int) -> bool {
    &&& 0 <= j
    &&& j + 3 <= s.len()
    &&& s[j] == '-'
    &&& s[j + 1] == '-'
    &&& s[j + 2] == '-'
}

/// `s` holds a `---` somewhere.
pub open spec fn has_marker(s: Seq<char>) -> bool {
    exists|j: int| is_marker_at(s, j)
}

/// The index of the first `---` in `s` that starts at `i` or later.
pub open spec fn first_marker_from(s: Seq<char>, i: int) -> Option<int>
    decreases s.len() - i,
{
    if i < 0 || i + 3 > s.len() {
        None
    } else if is_marker_at(s, i) {
        Some(i)
    } else {
        first_marker_from(s, i + 1)
    }
}

/// `s` without the line feeds it starts with.
pub open spec fn trim_leading_newlines(s: Seq<char>) -> Seq<char>
    decreases s.len(),
{
    if s.len() > 0 && s[0] == '\n' {
        trim_leading_newlines(s.drop_first())
    } else {
        s
    }
}

/// The body of a stored page: when `raw` opens with `---` and a second `---`
/// follows, what comes after the second one, line feeds at its start removed;
/// otherwise `raw` itself.
pub open spec fn page_body(raw: Seq<char>) -> Seq<char> {
    if is_marker_at(raw, 0) {
        match first_marker_from(raw, 3) {
            Some(j) => trim_leading_newlines(raw.subrange(j + 3, raw.len() as int)),
            None => raw,
        }
    } else {
        raw
    }
}

/// `s` with each double quote written as a backslash and a double quote.
pub open spec fn escape_quotes(s: Seq<char>) -> Seq<char>
    decreases s.len(),
{
    if s.len() == 0 {
        Seq::empty()
    } else if s.last() == '"' {
        escape_quotes(s.drop_last()) + seq!['\\', '"']
    } else {
        escape_quotes(s.drop_last()).push(s.last())
    }
}

/// A tag as a double-quoted YAML string.
pub open spec fn quoted_tag(tag: Seq<char>) -> Seq<char> {
    seq!['"'] + escape_quotes(tag) + seq!['"']
}

/// The quoted tags, separated by a comma and a space.
pub open spec fn tag_items(tags: Seq<Seq<char>>) -> Seq<char>
    decreases tags.len(),
{
    if tags.len() == 0 {
        Seq::empty()
    } else if tags.len() == 1 {
        quoted_tag(tags[0])
    } else {
        tag_items(tags.drop_last()) + seq![',', ' '] + quoted_tag(tags.last())
    }
}

/// The tag list as a YAML flow sequence: `[]` when there is no tag.
pub open spec fn tags_yaml_text(tags: Seq<Seq<char>>) -> Seq<char> {
    if tags.len() == 0 {
        seq!['[', ']']
    } else {
        seq!['['] + tag_items(tags) + seq![']']
    }
}

/// The text between the opening and the closing `---` of a page file: the id,
/// title and icon as double-quoted YAML strings, their double quotes escaped,
/// and the tag list.
pub open spec fn front_matter(
    id: Seq<char>,
    title: Seq<char>,
    tags: Seq<Seq<char>>,
    icon: Seq<char>,
) -> Seq<char> {
    "\nid: \""@ + escape_quotes(id) + "\"\ntitle: \""@ + escape_quotes(title) + "\"\ntags: "@
        + tags_yaml_text(tags) + "\nicon: \""@ + escape_quotes(icon) + "\"\n"@
}

/// The whole page file: front matter between `---` lines, a blank line, the body.
pub open spec fn markdown_document(
    id: Seq<char>,
    title: Seq<char>,
    tags: Seq<Seq<char>>,
    icon: Seq<char>,
    content: Seq<char>,
) -> Seq<char> {
    "---"@ + front_matter(id, title, tags, icon) + "---\n\n"@ + content
}

proof fn lemma_escape_step(s: Seq<char>, i: int)
    requires
        0 <= i < s.len(),
    ensures
        escape_quotes(s.take(i + 1)) == if s[i] == '"' {
            escape_quotes(s.take(i)) + seq!['\\', '"']
        } else {
            escape_quotes(s.take(i)).push(s[i])
        },
{
    assert(s.take(i + 1).drop_last() =~= s.take(i));
}

/// `tag` with its double quotes escaped by a backslash.
fn escape_quoted(tag: &str) -> (out: String)
    ensures
        out@ == escape_quotes(tag@),
{
    let cs = chars_of(tag);
    let mut out = String::new();
    let mut start: usize = 0;
    let mut i: usize = 0;
    while i < cs.len()
        invariant
            cs@ == tag@,
            start <= i <= cs.len(),
            out@ + tag@.subrange(start as int, i as int) == escape_quotes(tag@.take(i as int)),
        decreases cs.len() - i,
    {
        proof {
            lemma_escape_step(tag@, i as int);
        }
        if cs[i] == '"' {
            let seg = tag.substring_char(start, i);
            out.append(seg);
            proof {
                reveal_strlit("\\\"");
            }
            out.append("\\\"");
            assert(out@ == escape_quotes(tag@.take(i + 1)));
            start = i + 1;
            assert(tag@.subrange(start as int, (i + 1) as int) =~= Seq::<char>::empty());
        } else {
            assert(tag@.subrange(start as int, (i + 1) as int) =~= tag@.subrange(
                start as int,
                i as int,
            ).push(tag@[i as int]));
        }
        i = i + 1;
    }
    let seg = tag.substring_char(start, i);
    out.append(seg);
    assert(tag@.take(i as int) =~= tag@);
    out
}

/// The tag list in YAML flow style, each tag double-quoted.
fn tags_yaml(tags: &[String]) -> (out: String)
    ensures
        out@ == tags_yaml_text(texts_of(tags@)),
{
    let ghost texts = texts_of(tags@);
    if tags.len() == 0 {
        proof {
            reveal_strlit("[]");
        }
        return "[]".to_owned();
    }
    let mut items = String::new();
    let mut i: usize = 0;
    while i < tags.len()
        invariant
            texts == texts_of(tags@),
            i <= tags@.len(),
            items@ == tag_items(texts.take(i as int)),
        decreases tags.len() - i,
    {
        let ghost prev = items@;
        proof {
            reveal_strlit("\"");
            reveal_strlit(", ");
        }
        if i > 0 {
            items.append(", ");
        }
        items.append("\"");
        let escaped = escape_quoted(tags[i].as_str());
        items.append(escaped.as_str());
        items.append("\"");
        proof {
            let t = texts.take(i + 1);
            assert(t.drop_last() =~= texts.take(i as int));
            assert(t.last() == tags@[i as int]@);
            if i == 0 {
                assert(items@ =~= quoted_tag(t[0]));
            } else {
                assert(items@ =~= prev + seq![',', ' '] + quoted_tag(t.last()));
            }
        }
        i = i + 1;
    }
    assert(texts.take(i as int) =~= texts);
    proof {
        reveal_strlit("[");
        reveal_strlit("]");
    }
    let mut out = "[".to_owned();
    out.append(items.as_str());
    out.append("]");
    out
}

/// The Markdown file of a page: YAML front matter with its id, title, tags and
/// icon, each a double-quoted string with its double quotes escaped, then the
/// content.
pub fn build_markdown(id: &str, title: &str, tags: &[String], icon: &str, content: &str) -> (doc:
    String)
    ensures
        doc@ == markdown_document(id@, title@, texts_of(tags@), icon@, content@),
{
    let tags_text = tags_yaml(tags);
    let id_text = escape_quoted(id);
    let title_text = escape_quoted(title);
    let icon_text = escape_quoted(icon);
    let mut doc = "---".to_owned();
    doc.append("\nid: \"");
    doc.append(id_text.as_str());
    doc.append("\"\ntitle: \"");
    doc.append(title_text.as_str());
    doc.append("\"\ntags: ");
    doc.append(tags_text.as_str());
    doc.append("\nicon: \"");
    doc.append(icon_text.as_str());
    doc.append("\"\n");
    doc.append("---\n\n");
    doc.append(content);
    proof {
        assert(doc@ =~= markdown_document(id@, title@, texts_of(tags@), icon@, content@));
    }
    doc
}

proof fn lemma_first_marker_scan(s: Seq<char>, i: int, j: int)
    requires
        0 <= i <= j,
        j + 3 <= s.len(),
        forall|k: int| i <= k < j ==> !is_marker_at(s, k),
        is_marker_at(s, j),
    ensures
        first_marker_from(s, i) == Some(j),
    decreases j - i,
{
    if i < j {
        lemma_first_marker_scan(s, i + 1, j);
    }
}

/// The content of a stored page file, without its front matter.
pub fn extract_content(raw: &str) -> (body: &str)
    ensures
        body@ == page_body(raw@),
{
    let cs = chars_of(raw);
    let n = cs.len();
    if n >= 3 && cs[0] == '-' && cs[1] == '-' && cs[2] == '-' {
        let mut j: usize = 3;
        while j <= n - 3 && !(cs[j] == '-' && cs[j + 1] == '-' && cs[j + 2] == '-')
            invariant
                cs@ == raw@,
                n == cs.len(),
                3 <= j <= n,
                3 <= n,
                first_marker_from(raw@, 3) == first_marker_from(raw@, j as int),
            decreases n - j,
        {
            j = j + 1;
        }
        if j <= n - 3 {
            let mut k: usize = j + 3;
            while k < n && cs[k] == '\n'
                invariant
                    cs@ == raw@,
                    n == cs.len(),
                    j + 3 <= k <= n,
                    trim_leading_newlines(raw@.subrange(j + 3, n as int))
                        == trim_leading_newlines(raw@.subrange(k as int, n as int)),
                decreases n - k,
            {
                assert(raw@.subrange(k + 1, n as int) =~= raw@.subrange(k as int, n as int).drop_first());
                k = k + 1;
            }
            return raw.substring_char(k, n);
        }
    }
    raw
}

/// Reading back a page file gives the content it was built from, line feeds
/// at its start removed, as long as the front matter itself holds no `---`.
pub proof fn lemma_extract_content_of_built_page(
    id: Seq<char>,
    title: Seq<char>,
    tags: Seq<Seq<char>>,
    icon: Seq<char>,
    content: Seq<char>,
)
    requires
        !has_marker(front_matter(id, title, tags, icon)),
    ensures
        page_body(markdown_document(id, title, tags, icon, content)) == trim_leading_newlines(
            content,
        ),
{
    reveal_strlit("---");
    reveal_strlit("---\n\n");
    reveal_strlit("\"\n");
    let fm = front_matter(id, title, tags, icon);
    let doc = markdown_document(id, title, tags, icon, content);
    let head = "\nid: \""@ + escape_quotes(id) + "\"\ntitle: \""@ + escape_quotes(title)
        + "\"\ntags: "@ + tags_yaml_text(tags) + "\nicon: \""@ + escape_quotes(icon);
    assert(fm =~= head + "\"\n"@);
    let m: int = fm.len() as int + 3;
    assert(doc =~= "---"@ + fm + "---\n\n"@ + content);
    assert(fm[fm.len() - 2] == '"');
    assert(fm[fm.len() - 1] == '\n');
    assert forall|k: int| 3 <= k < m implies !is_marker_at(doc, k) by {
        if k + 3 <= m {
            assert(doc[k] == fm[k - 3]);
            assert(doc[k + 1] == fm[k - 2]);
            assert(doc[k + 2] == fm[k - 1]);
            if is_marker_at(doc, k) {
                assert(is_marker_at(fm, k - 3));
            }
        } else if k == m - 2 {
            assert(doc[k] == fm[fm.len() - 2]);
        } else {
            assert(doc[k] == fm[fm.len() - 1]);
        }
    }
    assert(is_marker_at(doc, m));
    assert(is_marker_at(doc, 0));
    lemma_first_marker_scan(doc, 3, m);
    let rest = doc.subrange(m + 3, doc.len() as int);
    assert(rest =~= seq!['\n', '\n'] + content);
    assert(rest.drop_first() =~= seq!['\n'] + content);
    assert(rest.drop_first().drop_first() =~= content);
    assert(rest[0] == '\n' && rest.drop_first()[0] == '\n');
    assert(trim_leading_newlines(rest) == trim_leading_newlines(rest.drop_first()));
    assert(trim_leading_newlines(rest.drop_first()) == trim_leading_newlines(content));
}

/// A concatenation holds no `---` when neither part does and the seam is not
/// made of dashes on both sides.
proof fn lemma_concat_without_marker(a: Seq<char>, b: Seq<char>)
    requires
        !has_marker(a),
        !has_marker(b),
        (a.len() > 0 && a.last() != '-') || (b.len() > 0 && b[0] != '-'),
    ensures
        !has_marker(a + b),
{
    let ab = a + b;
    assert forall|j: int| !is_marker_at(ab, j) by {
        if is_marker_at(ab, j) {
            if j + 3 <= a.len() {
                assert(is_marker_at(a, j));
            } else if j >= a.len() {
                assert(is_marker_at(b, j - a.len()));
            } else {
                assert(ab[a.len() - 1] == a.last());
                assert(ab[a.len() as int] == b[0]);
            }
        }
    }
}

/// The last one or two characters of an escaped text are dashes only where
/// those of the text are.
proof fn lemma_escape_trailing_dashes(t: Seq<char>)
    ensures
        escape_quotes(t).len() >= 1 && escape_quotes(t).last() == '-' ==> t.len() >= 1
            && t.last() == '-',
        escape_quotes(t).len() >= 2 && escape_quotes(t).last() == '-' && escape_quotes(t)[escape_quotes(
            t,
        ).len() - 2] == '-' ==> t.len() >= 2 && t.last() == '-' && t[t.len() - 2] == '-',
    decreases t.len(),
{
    if t.len() > 0 {
        let p = t.drop_last();
        lemma_escape_trailing_dashes(p);
        let e = escape_quotes(t);
        let ep = escape_quotes(p);
        if t.last() != '"' {
            assert(e == ep.push(t.last()));
            if e.len() >= 2 && ep.len() >= 1 {
                assert(e[e.len() - 2] == ep.last());
            }
            if ep.len() == 0 {
                assert(e.len() == 1);
            }
            if p.len() >= 1 {
                assert(t[t.len() - 2] == p.last());
            }
        }
    }
}

/// Escaping double quotes makes no `---` where there was none.
proof fn lemma_escape_without_marker(t: Seq<char>)
    requires
        !has_marker(t),
    ensures
        !has_marker(escape_quotes(t)),
    decreases t.len(),
{
    if t.len() > 0 {
        let p = t.drop_last();
        assert forall|j: int| !is_marker_at(p, j) by {
            if is_marker_at(p, j) {
                assert(is_marker_at(t, j));
            }
        }
        lemma_escape_without_marker(p);
        lemma_escape_trailing_dashes(p);
        let e = escape_quotes(t);
        let ep = escape_quotes(p);
        assert forall|j: int| !is_marker_at(e, j) by {
            if is_marker_at(e, j) {
                if j + 3 <= ep.len() {
                    assert(is_marker_at(ep, j));
                } else if t.last() == '"' {
                    assert(e == ep + seq!['\\', '"']);
                    assert(e[e.len() - 1] == '"');
                    assert(e[e.len() - 2] == '\\');
                } else {
                    assert(e == ep.push(t.last()));
                    assert(j == ep.len() - 2);
                    assert(ep.last() == e[j + 1]);
                    assert(ep[ep.len() - 2] == e[j]);
                    assert(is_marker_at(t, t.len() - 3));
                }
            }
        }
    }
}

/// The quoted tag list holds no `---` when no tag does.
proof fn lemma_tag_items_without_marker(tags: Seq<Seq<char>>)
    requires
        forall|i: int| 0 <= i < tags.len() ==> !has_marker(#[trigger] tags[i]),
    ensures
        !has_marker(tag_items(tags)),
        tags.len() > 0 ==> tag_items(tags).len() > 0 && tag_items(tags).last() == '"',
    decreases tags.len(),
{
    if tags.len() > 0 {
        let t = tags.last();
        assert(!has_marker(tags[tags.len() - 1]));
        lemma_escape_without_marker(t);
        let q = quoted_tag(t);
        lemma_concat_without_marker(seq!['"'], escape_quotes(t));
        lemma_concat_without_marker(seq!['"'] + escape_quotes(t), seq!['"']);
        assert(q.last() == '"');
        if tags.len() > 1 {
            let p = tags.drop_last();
            assert forall|i: int| 0 <= i < p.len() implies !has_marker(#[trigger] p[i]) by {
                assert(p[i] == tags[i]);
            }
            lemma_tag_items_without_marker(p);
            lemma_concat_without_marker(tag_items(p), seq![',', ' ']);
            lemma_concat_without_marker(tag_items(p) + seq![',', ' '], q);
        }
    }
}

/// A text made of one character that is not a dash holds no `---`; nor does
/// any text shorter than three characters.
proof fn lemma_short_without_marker(s: Seq<char>)
    requires
        s.len() < 3,
    ensures
        !has_marker(s),
{
}

/// The front matter holds no `---` when neither the id, the title, the icon
/// nor any tag does.
pub proof fn lemma_front_matter_without_marker(
    id: Seq<char>,
    title: Seq<char>,
    tags: Seq<Seq<char>>,
    icon: Seq<char>,
)
    requires
        !has_marker(id),
        !has_marker(title),
        !has_marker(icon),
        forall|i: int| 0 <= i < tags.len() ==> !has_marker(#[trigger] tags[i]),
    ensures
        !has_marker(front_matter(id, title, tags, icon)),
{
    reveal_strlit("\nid: \"");
    reveal_strlit("\"\ntitle: \"");
    reveal_strlit("\"\ntags: ");
    reveal_strlit("\nicon: \"");
    reveal_strlit("\"\n");
    let l1 = "\nid: \""@;
    let l2 = "\"\ntitle: \""@;
    let l3 = "\"\ntags: "@;
    let l4 = "\nicon: \""@;
    let l5 = "\"\n"@;
    assert forall|s: Seq<char>| s == l1 || s == l2 || s == l3 || s == l4 || s == l5 implies !has_marker(s)
        by {
        assert forall|j: int| !is_marker_at(s, j) by {
            if is_marker_at(s, j) {
                if s == l1 || s == l4 {
                    assert(s[0] == '\n');
                    assert(s[s.len() - 1] == '"');
                } else if s == l5 {
                    lemma_short_without_marker(s);
                } else {
                    assert(s[0] == '"');
                }
            }
        }
    }
    lemma_tag_items_without_marker(tags);
    let y = tags_yaml_text(tags);
    if tags.len() == 0 {
        lemma_short_without_marker(y);
    } else {
        lemma_concat_without_marker(seq!['['], tag_items(tags));
        lemma_concat_without_marker(seq!['['] + tag_items(tags), seq![']']);
    }
    assert(y[0] == '[' && y.last() == ']');
    let e_id = escape_quotes(id);
    let e_title = escape_quotes(title);
    let e_icon = escape_quotes(icon);
    lemma_escape_without_marker(id);
    lemma_escape_without_marker(title);
    lemma_escape_without_marker(icon);
    let a1 = l1 + e_id;
    lemma_concat_without_marker(l1, e_id);
    lemma_concat_without_marker(a1, l2);
    let a2 = a1 + l2 + e_title;
    lemma_concat_without_marker(a1 + l2, e_title);
    lemma_concat_without_marker(a2, l3);
    let a3 = a2 + l3 + y;
    lemma_concat_without_marker(a2 + l3, y);
    lemma_concat_without_marker(a3, l4);
    let a4 = a3 + l4 + e_icon;
    lemma_concat_without_marker(a3 + l4, e_icon);
    lemma_concat_without_marker(a4, l5);
    assert(front_matter(id, title, tags, icon) == a4 + l5);
}

/// A page file built from an id, a title, an icon and tags none of which
/// holds `---` reads back as its content, line feeds at its start removed.
pub proof fn lemma_page_file_round_trip(
    id: Seq<char>,
    title: Seq<char>,
    tags: Seq<Seq<char>>,
    icon: Seq<char>,
    content: Seq<char>,
)
    requires
        !has_marker(id),
        !has_marker(title),
        !has_marker(icon),
        forall|i: int| 0 <= i < tags.len() ==> !has_marker(#[trigger] tags[i]),
    ensures
        page_body(markdown_document(id, title, tags, icon, content)) == trim_leading_newlines(
            content,
        ),
{
    lemma_front_matter_without_marker(id, title, tags, icon);
    lemma_extract_content_of_built_page(id, title, tags, icon, content);
}

/// Escaping a text one character longer escapes the text, then writes the
/// new character, a double quote as a backslash and a double quote; the empty
/// text escapes to itself.
pub proof fn lemma_escape_quotes_step(s: Seq<char>, c: char)
    ensures
        escape_quotes(s.push(c)) == escape_quotes(s) + if c == '"' {
            seq!['\\', '"']
        } else {
            seq![c]
        },
        escape_quotes(Seq::<char>::empty()) == Seq::<char>::empty(),
{
    assert(s.push(c).drop_last() =~= s);
    assert(escape_quotes(s).push(c) =~= escape_quotes(s) + seq![c]);
}

/// The tag list names every tag, in order: one more tag adds a comma, a space
/// and the new tag, double-quoted, to the end; a single tag is just itself,
/// double-quoted, with its double quotes escaped.
pub proof fn lemma_tag_items_step(tags: Seq<Seq<char>>, t: Seq<char>)
    ensures
        tags.len() > 0 ==> tag_items(tags.push(t)) == tag_items(tags) + seq![',', ' '] + seq!['"']
            + escape_quotes(t) + seq!['"'],
        tag_items(seq![t]) == seq!['"'] + escape_quotes(t) + seq!['"'],
        tag_items(Seq::<Seq<char>>::empty()) == Seq::<char>::empty(),
{
    assert(tags.push(t).drop_last() =~= tags);
    assert(tag_items(tags) + seq![',', ' '] + quoted_tag(t) =~= tag_items(tags) + seq![',', ' ']
        + seq!['"'] + escape_quotes(t) + seq!['"']);
}

/// The tags line holds `[]` when there is no tag, and otherwise the tag list
/// between square brackets.
pub proof fn lemma_tags_yaml_text(tags: Seq<Seq<char>>)
    ensures
        tags.len() == 0 ==> tags_yaml_text(tags) == seq!['[', ']'],
        tags.len() > 0 ==> tags_yaml_text(tags) == seq!['['] + tag_items(tags) + seq![']'],
{
}

/// A page file is `---`, the id, title, tags and icon lines, `---`, a blank
/// line and the content, in that order; id, title and icon double-quoted with
/// their double quotes escaped.
pub proof fn lemma_markdown_document_layout(
    id: Seq<char>,
    title: Seq<char>,
    tags: Seq<Seq<char>>,
    icon: Seq<char>,
    content: Seq<char>,
)
    ensures
        markdown_document(id, title, tags, icon, content) == "---\nid: \""@ + escape_quotes(id)
            + "\"\ntitle: \""@ + escape_quotes(title) + "\"\ntags: "@ + tags_yaml_text(tags)
            + "\nicon: \""@ + escape_quotes(icon) + "\"\n---\n\n"@ + content,
{
    reveal_strlit("---");
    reveal_strlit("\nid: \"");
    reveal_strlit("---\nid: \"");
    reveal_strlit("\"\n");
    reveal_strlit("---\n\n");
    reveal_strlit("\"\n---\n\n");
    let d = markdown_document(id, title, tags, icon, content);
    let e = "---\nid: \""@ + escape_quotes(id) + "\"\ntitle: \""@ + escape_quotes(title)
        + "\"\ntags: "@ + tags_yaml_text(tags) + "\nicon: \""@ + escape_quotes(icon)
        + "\"\n---\n\n"@ + content;
    assert("---"@ + "\nid: \""@ =~= "---\nid: \""@);
    assert("\"\n"@ + "---\n\n"@ =~= "\"\n---\n\n"@);
    assert(d =~= e);
}

/// Trimming drops the line feeds a text starts with, and nothing else: what
/// is left follows only line feeds in the text, and does not start with one.
pub proof fn lemma_trim_leading_newlines(s: Seq<char>)
    ensures
        exists|k: int|
            0 <= k <= s.len() && trim_leading_newlines(s) == s.subrange(k, s.len() as int) && (
            forall|i: int| 0 <= i < k ==> s[i] == '\n'),
        !(trim_leading_newlines(s).len() > 0 && trim_leading_newlines(s)[0] == '\n'),
    decreases s.len(),
{
    if s.len() > 0 && s[0] == '\n' {
        lemma_trim_leading_newlines(s.drop_first());
        let k = choose|k: int|
            0 <= k <= s.drop_first().len() && trim_leading_newlines(s.drop_first())
                == s.drop_first().subrange(k, s.drop_first().len() as int) && (forall|i: int|
                0 <= i < k ==> s.drop_first()[i] == '\n');
        assert(s.drop_first().subrange(k, s.drop_first().len() as int) =~= s.subrange(
            k + 1,
            s.len() as int,
        ));
        assert forall|i: int| 0 <= i < k + 1 implies s[i] == '\n' by {
            if i > 0 {
                assert(s[i] == s.drop_first()[i - 1]);
            }
        }
    } else {
        assert(s.subrange(0, s.len() as int) =~= s);
    }
}

/// A text that does not open with `---`, or holds no second `---`, is its own body.
pub proof fn lemma_body_without_front_matter(raw: Seq<char>)
    ensures
        !is_marker_at(raw, 0) ==> page_body(raw) == raw,
        (forall|j: int| 3 <= j ==> !is_marker_at(raw, j)) ==> page_body(raw) == raw,
{
    if forall|j: int| 3 <= j ==> !is_marker_at(raw, j) {
        lemma_no_marker_from(raw, 3);
    }
}

proof fn lemma_no_marker_from(raw: Seq<char>, i: int)
    requires
        3 <= i,
        forall|j: int| 3 <= j ==> !is_marker_at(raw, j),
    ensures
        first_marker_from(raw, i) is None,
    decreases raw.len() - i,
{
    if i + 3 <= raw.len() {
        lemma_no_marker_from(raw, i + 1);
    }
}

/// When the text opens with `---` and holds a second `---` starting at `j`,
/// and none between, its body is what follows that second `---`, its leading
/// line feeds removed.
pub proof fn lemma_body_after_front_matter(raw: Seq<char>, j: int)
    requires
        is_marker_at(raw, 0),
        3 <= j,
        is_marker_at(raw, j),
        forall|k: int| 3 <= k < j ==> !is_marker_at(raw, k),
    ensures
        page_body(raw) == trim_leading_newlines(raw.subrange(j + 3, raw.len() as int)),
{
    lemma_first_marker_scan(raw, 3, j);
}

} // verus!
