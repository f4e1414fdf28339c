//! The persistence codec: the line-oriented text format that checklist
//! items are saved in, and the lenient parser that reads it back.
//!
//! Each item becomes one line `"[<marker>] <text>\n"`, where the marker
//! character is `'√'` for a completed item and a space otherwise. When
//! parsing, a line counts as an item only if it is longer than four
//! characters and starts with one of the two three-character markers; the
//! item text is everything from character four on. Any other line is
//! silently skipped. All lengths and offsets are in characters, not bytes.

use vstd::prelude::*;

use crate::todo::{items_view, TodoItem};

verus! {

/// The three-character marker prefix of a line holding an unfinished item.
pub open spec fn unchecked_marker() -> Seq<char> {
    seq!['[', ' ', ']']
}

/// The three-character marker prefix of a line holding a completed item.
pub open spec fn checked_marker() -> Seq<char> {
    seq!['[', '√', ']']
}

/// The marker prefix a saved item carries, chosen by its completion flag.
pub open spec fn render_marker(completed: bool) -> Seq<char> {
    if completed {
        checked_marker()
    } else {
        unchecked_marker()
    }
}

/// The saved form of one item: marker, one space, the text, a newline.
pub open spec fn render_line(text: Seq<char>, completed: bool) -> Seq<char> {
    render_marker(completed) + seq![' '] + text + seq!['\n']
}

/// The saved form of a whole list: the items' lines in list order.
pub open spec fn render_items(items: Seq<(Seq<char>, bool)>) -> Seq<char>
    decreases items.len(),
{
    if items.len() == 0 {
        Seq::empty()
    } else {
        render_line(items[0].0, items[0].1) + render_items(items.drop_first())
    }
}

/// Rendering a concatenation of lists renders each part in turn.
pub proof fn lemma_render_items_add(a: Seq<(Seq<char>, bool)>, b: Seq<(Seq<char>, bool)>)
    ensures
        render_items(a + b) == render_items(a) + render_items(b),
    decreases a.len(),
{
    if a.len() == 0 {
        assert(a + b =~= b);
        assert(render_items(a) + render_items(b) =~= render_items(b));
    } else {
        assert((a + b).drop_first() =~= a.drop_first() + b);
        lemma_render_items_add(a.drop_first(), b);
        assert(render_line((a + b)[0].0, (a + b)[0].1) + (render_items(a.drop_first())
            + render_items(b)) =~= (render_line(a[0].0, a[0].1) + render_items(a.drop_first()))
            + render_items(b));
    }
}

/// Serializes the items into the text that a save file holds.
pub fn serialize_todos(todos: &Vec<TodoItem>) -> (s: String)
    ensures
        s@ == render_items(items_view(todos@)),
{
    let mut out = String::new();
    let mut i: usize = 0;
    while i < todos.len()
        invariant
            i <= todos.len(),
            out@ == render_items(items_view(todos@).take(i as int)),
        decreases todos.len() - i,
    {
        let ghost prefix = items_view(todos@).take(i as int);
        if todos[i].completed {
            out.append("[√] ");
        } else {
            out.append("[ ] ");
        }
        out.append(todos[i].text.as_str());
        out.append("\n");
        proof {
            reveal_strlit("[√] ");
            reveal_strlit("[ ] ");
            reveal_strlit("\n");
            let it = items_view(todos@)[i as int];
            assert(render_line(it.0, it.1) =~= render_marker(it.1) + seq![' '] + it.0
                + seq!['\n']);
            assert(out@ =~= render_items(prefix) + render_line(it.0, it.1));
            lemma_render_items_add(prefix, seq![it]);
            assert(render_items(seq![it]) =~= render_line(it.0, it.1)) by {
                assert(seq![it].drop_first() =~= Seq::<(Seq<char>, bool)>::empty());
                assert(render_items(Seq::<(Seq<char>, bool)>::empty()) == Seq::<char>::empty());
            }
            assert(prefix + seq![it] =~= items_view(todos@).take(i + 1));
        }
        i = i + 1;
    }
    proof {
        assert(items_view(todos@).take(todos@.len() as int) =~= items_view(todos@));
    }
    out
}

/// How many characters the first line of `s` has, the newline excluded;
/// the whole of `s` when it holds no newline.
pub open spec fn first_line_len(s: Seq<char>) -> nat
    decreases s.len(),
{
    if s.len() == 0 {
        0
    } else if s[0] == '\n' {
        0
    } else {
        1 + first_line_len(s.drop_first())
    }
}

/// The first line runs up to the first newline of `s`, or to its end.
pub proof fn lemma_first_line_len(s: Seq<char>)
    ensures
        first_line_len(s) <= s.len(),
        forall|j: int| 0 <= j < first_line_len(s) ==> s[j] != '\n',
        first_line_len(s) < s.len() ==> s[first_line_len(s) as int] == '\n',
    decreases s.len(),
{
    if s.len() == 0 {
    } else if s[0] == '\n' {
    } else {
        lemma_first_line_len(s.drop_first());
        assert(forall|j: int|
            0 <= j < first_line_len(s) ==> #[trigger] s[j] == (if j == 0 {
                s[0]
            } else {
                s.drop_first()[j - 1]
            }));
    }
}

/// A position that no newline precedes, and that sits at a newline or at
/// the end, is exactly the first line's length.
pub proof fn lemma_first_line_len_determined(s: Seq<char>, l: int)
    requires
        0 <= l <= s.len(),
        forall|j: int| 0 <= j < l ==> s[j] != '\n',
        l < s.len() ==> s[l] == '\n',
    ensures
        l == first_line_len(s),
{
    lemma_first_line_len(s);
    if l < first_line_len(s) {
        assert(s[l] != '\n');
    } else if first_line_len(s) < l {
        assert(s[first_line_len(s) as int] != '\n');
    }
}

/// A line cut at a newline, with the carriage return of a `"\r\n"` ending
/// removed.
pub open spec fn strip_cr(l: Seq<char>) -> Seq<char> {
    if l.len() > 0 && l.last() == '\r' {
        l.drop_last()
    } else {
        l
    }
}

/// The lines of `s`: split at each newline, a carriage return directly
/// before a newline dropped with it. A last fragment without a trailing
/// newline is a line of its own (a carriage return at its end kept), and
/// empty input has no lines.
pub open spec fn split_lines(s: Seq<char>) -> Seq<Seq<char>>
    decreases s.len(),
{
    if s.len() == 0 {
        seq![]
    } else {
        let l = first_line_len(s) as int;
        if l >= s.len() {
            seq![s]
        } else {
            seq![strip_cr(s.take(l))] + split_lines(s.skip(l + 1))
        }
    }
}

/// What one line of a load file stands for: an item's text and completion
/// flag if the line is longer than four characters and opens with one of
/// the two markers, and nothing otherwise.
pub open spec fn parse_line(l: Seq<char>) -> Option<(Seq<char>, bool)> {
    if l.len() > 4 && l.take(3) == unchecked_marker() {
        Some((l.skip(4), false))
    } else if l.len() > 4 && l.take(3) == checked_marker() {
        Some((l.skip(4), true))
    } else {
        None
    }
}

/// The items of a sequence of lines, lines that hold no item dropped.
pub open spec fn parse_lines(lines: Seq<Seq<char>>) -> Seq<(Seq<char>, bool)>
    decreases lines.len(),
{
    if lines.len() == 0 {
        seq![]
    } else {
        match parse_line(lines[0]) {
            Some(p) => seq![p] + parse_lines(lines.drop_first()),
            None => parse_lines(lines.drop_first()),
        }
    }
}

/// The items a load file's text stands for, in file order.
pub open spec fn parse_items(content: Seq<char>) -> Seq<(Seq<char>, bool)> {
    parse_lines(split_lines(content))
}

/// Reads one line: the item it holds, or `None` for a line that the lenient
/// parser skips.
fn parse_line_exec(line: &str) -> (r: Option<TodoItem>)
    ensures
        match r {
            Some(it) => parse_line(line@) == Some(it@),
            None => parse_line(line@) is None,
        },
{
    let len = line.unicode_len();
    if len > 4 && line.get_char(0) == '[' && line.get_char(2) == ']' {
        let c1 = line.get_char(1);
        if c1 == ' ' || c1 == '√' {
            let completed = c1 == '√';
            let text_str = line.substring_char(4, len);
            let text = text_str.to_owned();
            proof {
                if completed {
                    assert(line@.take(3) =~= checked_marker());
                    assert(line@.take(3) != unchecked_marker()) by {
                        assert(line@.take(3)[1] != unchecked_marker()[1]);
                    }
                } else {
                    assert(line@.take(3) =~= unchecked_marker());
                }
                assert(text@ =~= line@.skip(4));
            }
            return Some(TodoItem { text, completed });
        }
        proof {
            assert(line@.take(3) != unchecked_marker()) by {
                assert(line@.take(3)[1] == line@[1]);
            }
            assert(line@.take(3) != checked_marker()) by {
                assert(line@.take(3)[1] == line@[1]);
            }
        }
        return None;
    }
    proof {
        if line@.len() > 4 {
            assert(line@.take(3)[0] == line@[0] && line@.take(3)[2] == line@[2]);
            assert(line@.take(3) != unchecked_marker()) by {
                if line@.take(3) == unchecked_marker() {
                    assert(line@[0] == '[' && line@[2] == ']');
                }
            }
            assert(line@.take(3) != checked_marker()) by {
                if line@.take(3) == checked_marker() {
                    assert(line@[0] == '[' && line@[2] == ']');
                }
            }
        }
    }
    None
}

/// Parses the text of a load file into checklist items, in file order.
/// Lines that do not carry a well-formed item are silently skipped.
pub fn parse_todo_list(content: &str) -> (items: Vec<TodoItem>)
    ensures
        items_view(items@) == parse_items(content@),
{
    let n = content.unicode_len();
    let mut items: Vec<TodoItem> = Vec::new();
    let mut pos: usize = 0;
    proof {
        assert(items_view(items@) + parse_items(content@.skip(0)) =~= parse_items(
            content@.skip(0),
        ));
        assert(content@.skip(0) =~= content@);
    }
    while pos < n
        invariant
            pos <= n,
            n == content@.len(),
            parse_items(content@) == items_view(items@) + parse_items(content@.skip(pos as int)),
        decreases n - pos,
    {
        let ghost rem = content@.skip(pos as int);
        let mut l: usize = 0;
        while pos + l < n && content.get_char(pos + l) != '\n'
            invariant
                pos + l <= n,
                n == content@.len(),
                forall|j: int| pos <= j < pos + l ==> content@[j] != '\n',
            decreases n - pos - l,
        {
            l = l + 1;
        }
        proof {
            assert(forall|j: int| 0 <= j < l ==> rem[j] == content@[pos + j]);
            if pos + l < n {
                assert(rem[l as int] == content@[pos + l]);
            }
            lemma_first_line_len_determined(rem, l as int);
        }
        let line_end = if pos + l < n && l > 0 && content.get_char(pos + l - 1) == '\r' {
            pos + l - 1
        } else {
            pos + l
        };
        let line = content.substring_char(pos, line_end);
        proof {
            let cut = rem.take(l as int);
            if l > 0 {
                assert(cut.last() == content@[pos + l - 1]);
            }
            if pos + l < n {
                assert(line@ =~= strip_cr(cut));
            } else {
                assert(line@ =~= rem);
            }
        }
        let parsed = parse_line_exec(line);
        let ghost items_before = items@;
        match parsed {
            Some(it) => {
                items.push(it);
                proof {
                    assert(items_view(items@) =~= items_view(items_before) + seq![it@]);
                }
            },
            None => {},
        }
        proof {
            let sl = split_lines(rem);
            if pos + l < n {
                assert(sl == seq![strip_cr(rem.take(l as int))] + split_lines(rem.skip(l + 1)));
                assert(sl[0] == strip_cr(rem.take(l as int)));
                assert(sl.drop_first() =~= split_lines(rem.skip(l + 1)));
                assert(rem.skip(l + 1) =~= content@.skip(pos + l + 1));
            } else {
                assert(l == rem.len());
                assert(rem.take(l as int) =~= rem);
                assert(sl == seq![rem]);
                assert(sl.drop_first() =~= Seq::<Seq<char>>::empty());
                assert(parse_lines(Seq::<Seq<char>>::empty()) == Seq::<(Seq<char>, bool)>::empty());
                assert(content@.skip(n as int) =~= Seq::<char>::empty());
                assert(split_lines(Seq::<char>::empty()) =~= Seq::<Seq<char>>::empty());
            }
            match parse_line(line@) {
                Some(p) => {
                    assert(parse_lines(sl) =~= seq![p] + parse_lines(sl.drop_first()));
                },
                None => {
                    assert(parse_lines(sl) =~= parse_lines(sl.drop_first()));
                },
            }
            assert(parse_items(content@) =~= items_view(items@) + parse_items(
                content@.skip(if pos + l < n {
                    pos + l + 1
                } else {
                    n as int
                }),
            ));
        }
        if pos + l < n {
            pos = pos + l + 1;
        } else {
            pos = n;
        }
    }
    proof {
        assert(content@.skip(n as int) =~= Seq::<char>::empty());
        assert(parse_items(content@) =~= items_view(items@));
    }
    items
}

/// Texts that the save format carries through unchanged: nonempty, holding
/// no newline, and not ending in a carriage return.
pub open spec fn storable_text(t: Seq<char>) -> bool {
    &&& t.len() > 0
    &&& !t.contains('\n')
    &&& t.last() != '\r'
}

/// Law: parsing the rendering of a list gives the list back, for any list
/// all of whose item texts are storable. An item with an empty text is
/// dropped when read back (its line is too short), a newline inside a text
/// splits it over two lines, and a trailing carriage return is stripped:
/// such texts are the only ones left out.
pub proof fn lemma_round_trip(items: Seq<(Seq<char>, bool)>)
    requires
        forall|i: int| 0 <= i < items.len() ==> storable_text(#[trigger] items[i].0),
    ensures
        parse_items(render_items(items)) == items,
    decreases items.len(),
{
    if items.len() == 0 {
        assert(split_lines(Seq::<char>::empty()) =~= Seq::<Seq<char>>::empty());
        assert(parse_items(render_items(items)) =~= items);
    } else {
        let t = items[0].0;
        let c = items[0].1;
        let line0 = render_line(t, c);
        let rest = render_items(items.drop_first());
        let s = render_items(items);
        let l = 4 + t.len() as int;
        assert(t.last() == t[t.len() - 1]);
        assert forall|k: int| 0 <= k < t.len() implies t[k] != '\n' by {
            if t[k] == '\n' {
                assert(t.contains('\n'));
            }
        }
        assert forall|j: int| 0 <= j < l implies s[j] != '\n' by {
            assert(s[j] == line0[j]);
            if j < 3 {
                assert(line0[j] == render_marker(c)[j]);
            } else if j == 3 {
                assert(line0[j] == ' ');
            } else {
                assert(line0[j] == t[j - 4]);
            }
        }
        assert(s[l] == line0[l] && line0[l] == '\n');
        assert(l < s.len());
        lemma_first_line_len_determined(s, l);
        let line = s.take(l);
        assert(line =~= render_marker(c) + seq![' '] + t);
        assert(line.last() == t.last());
        assert(strip_cr(line) == line);
        assert(split_lines(s) == seq![line] + split_lines(s.skip(l + 1)));
        assert(s.skip(l + 1) =~= rest);
        assert(line.take(3) =~= render_marker(c));
        assert(line.skip(4) =~= t);
        if c {
            assert(line.take(3) != unchecked_marker()) by {
                assert(line.take(3)[1] == '√' && unchecked_marker()[1] == ' ');
            }
            assert(parse_line(line) == Some((t, true)));
        } else {
            assert(parse_line(line) == Some((t, false)));
        }
        assert forall|i: int| 0 <= i < items.drop_first().len() implies storable_text(
            #[trigger] items.drop_first()[i].0,
        ) by {
            assert(items.drop_first()[i] == items[i + 1]);
        }
        lemma_round_trip(items.drop_first());
        let sl = split_lines(s);
        assert(sl[0] == line);
        assert(sl.drop_first() =~= split_lines(rest));
        assert(parse_lines(sl) == seq![(t, c)] + parse_lines(sl.drop_first()));
        assert((t, c) == items[0]);
        assert(seq![items[0]] + items.drop_first() =~= items);
    }
}

/// The extension that distinguishes save files, as a character sequence.
pub open spec fn list_extension() -> Seq<char> {
    seq!['.', 'l', 'i', 's', 't']
}

/// The names among `names` that end in the save-file extension, in the
/// order given.
pub open spec fn keep_list_files(names: Seq<Seq<char>>) -> Seq<Seq<char>>
    decreases names.len(),
{
    if names.len() == 0 {
        seq![]
    } else if crate::text::ends_with(names[0], list_extension()) {
        seq![names[0]] + keep_list_files(names.drop_first())
    } else {
        keep_list_files(names.drop_first())
    }
}

/// The character sequences that a list of names stands for.
pub open spec fn names_view(names: Seq<String>) -> Seq<Seq<char>> {
    names.map_values(|s: String| s@)
}

/// Keeps the names that end in the save-file extension, dropping every
/// other directory entry.
pub fn filter_file_list(names: &Vec<String>) -> (r: Vec<String>)
    ensures
        names_view(r@) == keep_list_files(names_view(names@)),
{
    let ghost v = names_view(names@);
    let mut r: Vec<String> = Vec::new();
    let mut i: usize = 0;
    proof {
        assert(names_view(r@) + keep_list_files(v.skip(0)) =~= keep_list_files(v.skip(0)));
        assert(v.skip(0) =~= v);
    }
    while i < names.len()
        invariant
            i <= names.len(),
            v == names_view(names@),
            keep_list_files(v) == names_view(r@) + keep_list_files(v.skip(i as int)),
        decreases names.len() - i,
    {
        let ghost r_before = r@;
        let keep = crate::text::str_ends_with(names[i].as_str(), ".list");
        proof {
            reveal_strlit(".list");
            assert((".list")@ =~= list_extension());
        }
        if keep {
            r.push(names[i].clone());
            proof {
                assert(names_view(r@) =~= names_view(r_before) + seq![names@[i as int]@]);
            }
        }
        proof {
            let tail = v.skip(i as int);
            assert(tail[0] == v[i as int] && v[i as int] == names@[i as int]@);
            assert(tail.drop_first() =~= v.skip(i + 1));
            if crate::text::ends_with(tail[0], list_extension()) {
                assert(keep_list_files(tail) == seq![tail[0]] + keep_list_files(tail.drop_first()));
                assert(names_view(r@) + keep_list_files(v.skip(i + 1)) =~= names_view(r_before) + (
                seq![tail[0]] + keep_list_files(tail.drop_first())));
            } else {
                assert(keep_list_files(tail) == keep_list_files(tail.drop_first()));
            }
        }
        i = i + 1;
    }
    proof {
        assert(v.skip(names@.len() as int) =~= Seq::<Seq<char>>::empty());
        assert(names_view(r@) + keep_list_files(Seq::<Seq<char>>::empty()) =~= names_view(r@));
    }
    r
}

} // verus!
