//! What holds of the library across its functions.

use vstd::prelude::*;
use crate::builder::{build_outcome, converts_to, deprecation_message, BuilderModel};
use crate::warning::{link_block, link_item, note_text, WarningModel};
use crate::ident::is_ident;
use crate::outside::{xid_continue, xid_start};
use crate::text::{
    decimal, decimal_digit, is_white_space, join, lemma_decimal_injective, line_scan, lines,
    strip_cr, trim, trim_end, trim_start,
};
use crate::warning::{item_name, note_body, note_line, note_lines};

verus! {

/// Warnings with the same title and different indices are carried by items
/// of different names: the index tells apart the warnings that appear
/// several times.
pub proof fn law_index_tells_warnings_apart(name: Seq<char>, a: Option<usize>, b: Option<usize>)
    requires
        item_name(name, a) == item_name(name, b),
    ensures
        a == b,
{
    match (a, b) {
        (Some(i), Some(j)) => {
            let x = item_name(name, a);
            let y = item_name(name, b);
            assert(decimal(i as nat) =~= x.skip(name.len() + 1int));
            assert(decimal(j as nat) =~= y.skip(name.len() + 1int));
            lemma_decimal_injective(i as nat, j as nat);
        },
        (Some(i), None) => {
            assert(item_name(name, a).len() > name.len());
        },
        (None, Some(j)) => {
            assert(item_name(name, b).len() > name.len());
        },
        (None, None) => {},
    }
}

/// Warnings with different titles and the same index are carried by items
/// of different names.
pub proof fn law_title_tells_warnings_apart(n1: Seq<char>, n2: Seq<char>, index: Option<usize>)
    requires
        item_name(n1, index) == item_name(n2, index),
    ensures
        n1 == n2,
{
    match index {
        Some(i) => {
            let x = item_name(n1, index);
            assert(n1 =~= x.take(x.len() - decimal(i as nat).len() - 1));
            assert(n2 =~= x.take(x.len() - decimal(i as nat).len() - 1));
        },
        None => {},
    }
}

/// The parts of a builder can be given in any order: setting two
/// different parts one way round or the other gives the same builder.
pub proof fn law_parts_commute(
    b: BuilderModel,
    old: Seq<char>,
    new: Seq<char>,
    links: Seq<Seq<char>>,
    index: usize,
    span: proc_macro2::Span,
)
    ensures
        b.set_old_usage(old).set_new_usage(new) == b.set_new_usage(new).set_old_usage(old),
        b.set_old_usage(old).set_links(links) == b.set_links(links).set_old_usage(old),
        b.set_new_usage(new).set_links(links) == b.set_links(links).set_new_usage(new),
        b.set_index(index).set_span(span) == b.set_span(span).set_index(index),
        b.set_index(index).set_old_usage(old) == b.set_old_usage(old).set_index(index),
        b.set_span(span).set_new_usage(new) == b.set_new_usage(new).set_span(span),
{
}

/// Reading characters that hold no line break only extends the open line.
proof fn lemma_scan_without_break(p: Seq<char>, s: Seq<char>)
    requires
        forall|i: int| 0 <= i < s.len() ==> s[i] != '\n',
    ensures
        line_scan(p + s) == (line_scan(p).0, line_scan(p).1 + s),
    decreases s.len(),
{
    if s.len() == 0 {
        assert(p + s =~= p);
        assert(line_scan(p).1 + s =~= line_scan(p).1);
    } else {
        let t = s.drop_last();
        assert((p + s).drop_last() =~= p + t);
        assert((p + s).last() == s.last());
        lemma_scan_without_break(p, t);
        assert((line_scan(p).1 + t).push(s.last()) =~= line_scan(p).1 + s);
    }
}

/// The note of a warning that a builder made from a deprecated and a
/// replacing usage, each on one line: "It is deprecated to {old}." and
/// "Please instead {new}." on two lines, each indented by two tabs.
pub proof fn law_note_of_built_warning(old: Seq<char>, new: Seq<char>)
    requires
        !old.contains('\n'),
        !new.contains('\n'),
    ensures
        note_body(deprecation_message(old, new)) == seq!['\t', '\t'] + "It is deprecated to "@
            + old + seq!['.', '\n', '\t', '\t'] + "Please instead "@ + new + seq!['.'],
{
    reveal_strlit("It is deprecated to ");
    reveal_strlit("Please instead ");
    let a = "It is deprecated to "@ + old + seq!['.'];
    let b = "Please instead "@ + new + seq!['.'];
    let m = deprecation_message(old, new);
    assert(m =~= a + seq!['\n'] + b);
    assert forall|i: int| 0 <= i < a.len() implies a[i] != '\n' by {
        if i >= 20 && i < 20 + old.len() {
            assert(a[i] == old[i - 20]);
        }
    }
    assert forall|i: int| 0 <= i < b.len() implies b[i] != '\n' by {
        if i >= 15 && i < 15 + new.len() {
            assert(b[i] == new[i - 15]);
        }
    }
    // The message has no whitespace at either end.
    assert(m[0] == 'I');
    assert(!is_white_space('I'));
    assert(trim_start(m) == m);
    assert(m.last() == '.');
    assert(!is_white_space('.'));
    assert(trim_end(m) == m);
    assert(trim(m) == m);
    // Its lines are the two sentences.
    lemma_scan_without_break(Seq::empty(), a);
    assert(Seq::<char>::empty() + a =~= a);
    assert(line_scan(Seq::<char>::empty()) == (Seq::<Seq<char>>::empty(), Seq::<char>::empty()));
    assert(line_scan(a) == (Seq::<Seq<char>>::empty(), a));
    let an = a.push('\n');
    assert(an.drop_last() =~= a);
    assert(strip_cr(a) == a);
    assert(line_scan(an) == (seq![a], Seq::<char>::empty()));
    lemma_scan_without_break(an, b);
    assert(an + b =~= m);
    assert(Seq::<char>::empty() + b =~= b);
    assert(line_scan(m) == (seq![a], b));
    assert(lines(m) == seq![a, b]);
    // Each line starts with text and keeps it.
    assert(a[0] == 'I');
    assert(trim_start(a) == a);
    assert(b[0] == 'P');
    assert(!is_white_space('P'));
    assert(trim_start(b) == b);
    let ls = note_lines(seq![a, b]);
    assert(ls =~= seq![note_line(a), note_line(b)]);
    assert(ls.drop_last() =~= seq![note_line(a)]);
    assert(join(ls.drop_last(), seq!['\n']) == note_line(a));
    assert(ls.last() == note_line(b));
    assert(join(ls, seq!['\n']) == note_line(a) + seq!['\n'] + note_line(b));
}


/// Converting a `&str` into a `String` keeps its text: a title, usage or
/// link given as a `&str` is held as exactly that text, so
/// `Warning::new_deprecated(s)` and `DeprecatedWarningBuilder::from_title(s)`
/// give the same builder.
pub proof fn law_str_keeps_its_text(x: &str, t: Seq<char>)
    requires
        converts_to(x, t),
    ensures
        t == x@,
{
    let s = choose|s: String| call_ensures(<&str as Into<String>>::into, (x,), s) && s@ == t;
}

/// Converting a `String` into a `String` keeps its text.
pub proof fn law_string_keeps_its_text(x: String, t: Seq<char>)
    requires
        converts_to(x, t),
    ensures
        t == x@,
{
    let s = choose|s: String| call_ensures(<String as Into<String>>::into, (x,), s) && s@ == t;
}

/// Building is a function of what the builder holds: `try_build`,
/// `maybe_build`, `build` and `build_or_panic` all give an outcome that
/// `build_outcome` admits, and two such outcomes agree: the same error, or
/// warnings that differ at most in the span, where no span was set.
pub proof fn law_build_is_determined(
    b: BuilderModel,
    r1: Result<WarningModel, Seq<char>>,
    r2: Result<WarningModel, Seq<char>>,
)
    requires
        build_outcome(b, r1),
        build_outcome(b, r2),
    ensures
        r1 is Ok <==> r2 is Ok,
        r1 is Err ==> r1 == r2,
        b.span is Some ==> r1 == r2,
        r1 matches Ok(w1) ==> r2 matches Ok(w2) && w1.name == w2.name && w1.index == w2.index
            && w1.message == w2.message && w1.links == w2.links,
{
}

/// The note of a warning depends on its message only through the lines of
/// the trimmed message without their leading whitespace, and always starts
/// with a line break.
pub proof fn law_note_depends_on_trimmed_lines(
    m1: Seq<char>,
    m2: Seq<char>,
    links: Seq<Seq<char>>,
)
    requires
        lines(trim(m1)).map_values(|l: Seq<char>| trim_start(l)) == lines(trim(m2)).map_values(
            |l: Seq<char>| trim_start(l),
        ),
    ensures
        note_text(m1, links) == note_text(m2, links),
        note_text(m1, links)[0] == '\n',
{
    let l1 = lines(trim(m1));
    let l2 = lines(trim(m2));
    let t1 = l1.map_values(|l: Seq<char>| trim_start(l));
    let t2 = l2.map_values(|l: Seq<char>| trim_start(l));
    assert(t1.len() == l1.len() && t2.len() == l2.len());
    assert forall|i: int| 0 <= i < l1.len() implies note_lines(l1)[i] == note_lines(l2)[i] by {
        assert(t1[i] == t2[i]);
    }
    assert(note_lines(l1) =~= note_lines(l2));
}


/// The last setting of a part wins: setting the same part twice gives the
/// builder that the second setting alone gives.
pub proof fn law_last_setting_wins(
    b: BuilderModel,
    first: Seq<char>,
    second: Seq<char>,
    links1: Seq<Seq<char>>,
    links2: Seq<Seq<char>>,
    i: usize,
    j: usize,
    s1: proc_macro2::Span,
    s2: proc_macro2::Span,
)
    ensures
        b.set_old_usage(first).set_old_usage(second) == b.set_old_usage(second),
        b.set_new_usage(first).set_new_usage(second) == b.set_new_usage(second),
        b.set_links(links1).set_links(links2) == b.set_links(links2),
        b.set_index(i).set_index(j) == b.set_index(j),
        b.set_span(s1).set_span(s2) == b.set_span(s2),
{
}


/// Each setter stores what it is given and leaves the other parts alone.
pub proof fn law_setters_store_their_part(
    b: BuilderModel,
    text: Seq<char>,
    links: Seq<Seq<char>>,
    index: usize,
    span: proc_macro2::Span,
)
    ensures
        b.set_span(span).span == Some(span),
        b.set_span(span).title == b.title && b.set_span(span).index == b.index
            && b.set_span(span).old_usage == b.old_usage && b.set_span(span).new_usage
            == b.new_usage && b.set_span(span).links == b.links,
        b.set_links(links).links == links,
        b.set_links(links).links.len() == links.len(),
        b.set_links(links).title == b.title && b.set_links(links).index == b.index
            && b.set_links(links).old_usage == b.old_usage && b.set_links(links).new_usage
            == b.new_usage && b.set_links(links).span == b.span,
        b.set_index(index).index == Some(index),
        b.set_index(index).title == b.title && b.set_index(index).links == b.links
            && b.set_index(index).span == b.span,
        b.set_old_usage(text).old_usage == Some(text),
        b.set_old_usage(text).new_usage == b.new_usage,
        b.set_new_usage(text).new_usage == Some(text),
        b.set_new_usage(text).old_usage == b.old_usage,
{
}

/// A built warning keeps the builder's title, index and links, and the
/// span that was set; its message states both usages.
pub proof fn law_built_warning_keeps_the_parts(
    b: BuilderModel,
    span: proc_macro2::Span,
    w: WarningModel,
)
    requires
        build_outcome(b.set_span(span), Ok(w)),
    ensures
        w.name == b.title,
        w.index == b.index,
        w.links == b.links,
        w.span == span,
        b.old_usage is Some && b.new_usage is Some,
        w.message == "It is deprecated to "@ + b.old_usage->0 + seq!['.', '\n'] + "Please instead "@
            + b.new_usage->0 + seq!['.'],
{
}

/// Whatever else the builder holds, a built warning has the builder's
/// index, title and links.
pub proof fn law_build_keeps_index(b: BuilderModel, w: WarningModel)
    requires
        build_outcome(b, Ok(w)),
    ensures
        w.index == b.index,
        w.name == b.title,
        w.links == b.links,
        b.span matches Some(s) ==> w.span == s,
{
}

/// Every help link is listed in the note: one link gives the heading and
/// that link, and each further link adds a line with it at the end.
pub proof fn law_every_link_is_listed(m: Seq<char>, ls: Seq<Seq<char>>, l: Seq<char>)
    ensures
        note_text(m, seq![l]) == note_text(m, Seq::empty()) + seq!['\n', '\n', '\t', '\t']
            + "For more info see:"@ + seq!['\n', '\t', '\t', '\t', '<'] + l + seq!['>'],
        ls.len() > 0 ==> note_text(m, ls.push(l)) == note_text(m, ls) + seq![
            '\n',
            '\t',
            '\t',
            '\t',
            '<',
        ] + l + seq!['>'],
{
    let f = |x: Seq<char>| link_item(x);
    assert(seq![l].map_values(f) =~= seq![link_item(l)]);
    assert(link_block(seq![l]) == link_item(l));
    assert(note_text(m, seq![l]) =~= note_text(m, Seq::empty()) + seq!['\n', '\n', '\t', '\t']
        + "For more info see:"@ + seq!['\n', '\t', '\t', '\t', '<'] + l + seq!['>']);
    if ls.len() > 0 {
        let items = ls.push(l).map_values(f);
        assert(items.drop_last() =~= ls.map_values(f));
        assert(items.last() == link_item(l));
        assert(link_block(ls.push(l)) == link_block(ls) + seq!['\n', '\t', '\t', '\t'] + link_item(l));
        assert(note_text(m, ls.push(l)) =~= note_text(m, ls) + seq!['\n', '\t', '\t', '\t', '<'] + l
            + seq!['>']);
    }
}

/// A name that can name an item is not empty, starts with `_` or an
/// `XID_Start` character, and every character after the first, the last
/// one included, is `XID_Continue`.
pub proof fn law_identifier_characters(s: Seq<char>, c: char)
    ensures
        is_ident(s) ==> s.len() > 0 && (s[0] == '_' || xid_start(s[0])),
        is_ident(s) ==> forall|i: int| 1 <= i < s.len() ==> xid_continue(#[trigger] s[i]),
        s.len() > 0 && is_ident(s.push(c)) ==> xid_continue(c),
        s.len() > 0 && !xid_continue(c) ==> !is_ident(s.push(c)),
{
    if s.len() > 0 && is_ident(s.push(c)) {
        assert(s.push(c)[s.len() as int] == c);
    }
}


/// The number that a sequence of decimal digits stands for.
pub open spec fn decimal_value(s: Seq<char>) -> nat
    decreases s.len(),
{
    if s.len() == 0 {
        0
    } else {
        decimal_value(s.drop_last()) * 10 + ((s.last() as u32) - ('0' as u32)) as nat
    }
}

proof fn lemma_digit_value(d: nat)
    requires
        d < 10,
    ensures
        ((decimal_digit(d) as u32) - ('0' as u32)) as nat == d,
        '0' <= decimal_digit(d) <= '9',
{
    assert('0' as u32 == 48);
    assert('9' as u32 == 57);
    if d == 0 {
    } else if d == 1 {
        assert('1' as u32 == 49);
    } else if d == 2 {
        assert('2' as u32 == 50);
    } else if d == 3 {
        assert('3' as u32 == 51);
    } else if d == 4 {
        assert('4' as u32 == 52);
    } else if d == 5 {
        assert('5' as u32 == 53);
    } else if d == 6 {
        assert('6' as u32 == 54);
    } else if d == 7 {
        assert('7' as u32 == 55);
    } else if d == 8 {
        assert('8' as u32 == 56);
    } else {
    }
}

/// The decimal numeral of a number is made of ASCII digits, has no leading
/// zero, and reads back as the number.
pub proof fn law_decimal_reads_back(n: nat)
    ensures
        decimal_value(decimal(n)) == n,
        forall|i: int| 0 <= i < decimal(n).len() ==> '0' <= #[trigger] decimal(n)[i] <= '9',
        decimal(n).len() > 1 ==> decimal(n)[0] != '0',
    decreases n,
{
    if n < 10 {
        let d = decimal(n);
        assert(d.drop_last() =~= Seq::<char>::empty());
        assert(d.last() == decimal_digit(n));
        lemma_digit_value(n);
        assert(decimal_value(d.drop_last()) == 0);
        assert(decimal_value(d) == decimal_value(d.drop_last()) * 10 + ((d.last() as u32) - ('0' as u32)) as nat);
    } else {
        lemma_digit_value(n % 10);
        law_decimal_reads_back(n / 10);
        let d = decimal(n);
        assert(d.drop_last() =~= decimal(n / 10));
        assert(d.last() == decimal_digit(n % 10));
        assert(n == (n / 10) * 10 + n % 10);
        assert(decimal_value(d) == decimal_value(d.drop_last()) * 10 + ((d.last() as u32) - ('0' as u32)) as nat);
        assert forall|i: int| 0 <= i < d.len() implies '0' <= #[trigger] d[i] <= '9' by {
            if i < d.len() - 1 {
                assert(d[i] == decimal(n / 10)[i]);
            }
        }
        crate::text::lemma_decimal_nonempty(n / 10);
        if decimal(n / 10).len() == 1 {
            if n / 10 >= 10 {
                crate::text::lemma_decimal_nonempty(n / 10 / 10);
                assert(decimal(n / 10).len() == decimal(n / 10 / 10).len() + 1);
            }
            assert(n / 10 < 10);
            assert(decimal(n / 10)[0] == decimal_digit(n / 10));
        }
        assert(d[0] == decimal(n / 10)[0]);
    }
}

/// Trimming removes whitespace at both ends and nothing else: what is
/// left is a piece of the text, with no whitespace at either end, and
/// everything cut off is whitespace.
pub proof fn law_trim_cuts_only_white_space(s: Seq<char>)
    ensures
        trim_start(s).len() <= s.len(),
        trim_end(s).len() <= s.len(),
        trim_start(s).len() == 0 || !is_white_space(trim_start(s)[0]),
        trim_start(s) == s.skip(s.len() - trim_start(s).len()),
        forall|i: int| 0 <= i < s.len() - trim_start(s).len() ==> is_white_space(#[trigger] s[i]),
        trim_end(s).len() == 0 || !is_white_space(trim_end(s).last()),
        trim_end(s) == s.take(trim_end(s).len() as int),
        forall|i: int| trim_end(s).len() <= i < s.len() ==> is_white_space(#[trigger] s[i]),
    decreases s.len(),
{
    if s.len() > 0 && is_white_space(s[0]) {
        law_trim_cuts_only_white_space(s.drop_first());
        assert(s.drop_first().skip(s.drop_first().len() - trim_start(s).len()) =~= s.skip(
            s.len() - trim_start(s).len(),
        ));
        assert forall|i: int| 0 <= i < s.len() - trim_start(s).len() implies is_white_space(
            #[trigger] s[i],
        ) by {
            if i > 0 {
                assert(s[i] == s.drop_first()[i - 1]);
            }
        }
    } else {
        assert(s.skip(0) =~= s);
    }
    if s.len() > 0 && is_white_space(s.last()) {
        law_trim_cuts_only_white_space(s.drop_last());
        assert(s.drop_last().take(trim_end(s).len() as int) =~= s.take(trim_end(s).len() as int));
        assert forall|i: int| trim_end(s).len() <= i < s.len() implies is_white_space(
            #[trigger] s[i],
        ) by {
            if i < s.len() - 1 {
                assert(s[i] == s.drop_last()[i]);
            }
        }
    } else {
        assert(s.take(s.len() as int) =~= s);
    }
}

proof fn lemma_join_push(x: Seq<Seq<char>>, y: Seq<char>, sep: Seq<char>)
    ensures
        join(x.push(y), sep) == if x.len() == 0 {
            y
        } else {
            join(x, sep) + sep + y
        },
{
    assert(x.push(y).drop_last() =~= x);
}

proof fn lemma_scan_rejoins(s: Seq<char>)
    requires
        !s.contains('\r'),
    ensures
        join(line_scan(s).0.push(line_scan(s).1), seq!['\n']) == s,
        forall|i: int| 0 <= i < line_scan(s).0.len() ==> !(#[trigger] line_scan(s).0[i]).contains('\n'),
        !line_scan(s).1.contains('\n'),
        s.len() > 0 && s.last() != '\n' ==> line_scan(s).1.len() > 0,
    decreases s.len(),
{
    if s.len() == 0 {
        lemma_join_push(Seq::empty(), Seq::empty(), seq!['\n']);
    } else {
        let p = s.drop_last();
        let c = s.last();
        assert(!p.contains('\r')) by {
            if p.contains('\r') {
                let k = choose|k: int| 0 <= k < p.len() && p[k] == '\r';
                assert(s[k] == '\r');
            }
        }
        assert(c != '\r') by {
            assert(s[s.len() - 1] == c);
        }
        lemma_scan_rejoins(p);
        let (d, cur) = line_scan(p);
        lemma_join_push(d, cur, seq!['\n']);
        if c == '\n' {
            assert(strip_cr(cur) == cur) by {
                if cur.len() > 0 {
                    assert(cur[cur.len() - 1] == cur.last());
                }
            }
            lemma_join_push(d.push(cur), Seq::empty(), seq!['\n']);
            assert(p.push('\n') =~= s);
            assert(join(d.push(cur), seq!['\n']) + seq!['\n'] + Seq::<char>::empty() =~= s);
            assert forall|i: int| 0 <= i < d.push(cur).len() implies !(#[trigger] d.push(cur)[i]).contains('\n') by {
                if i < d.len() {
                    assert(d.push(cur)[i] == d[i]);
                }
            }
        } else {
            lemma_join_push(d, cur.push(c), seq!['\n']);
            if d.len() == 0 {
                assert(cur.push(c) =~= p.push(c));
            } else {
                assert(join(d, seq!['\n']) + seq!['\n'] + cur.push(c) =~= (join(d, seq!['\n'])
                    + seq!['\n'] + cur).push(c));
            }
            assert(p.push(c) =~= s);
            assert(!cur.push(c).contains('\n')) by {
                if cur.push(c).contains('\n') {
                    let k = choose|k: int| 0 <= k < cur.push(c).len() && cur.push(c)[k] == '\n';
                    if k < cur.len() {
                        assert(cur[k] == '\n');
                    }
                }
            }
        }
    }
}

/// Splitting text without carriage returns into lines and joining the
/// lines with `'\n'` gives the text back, apart from a final `'\n'`; no
/// line holds a `'\n'`.
pub proof fn law_lines_rejoin(s: Seq<char>)
    requires
        !s.contains('\r'),
    ensures
        s.len() == 0 || s.last() != '\n' ==> join(lines(s), seq!['\n']) == s,
        forall|i: int| 0 <= i < lines(s).len() ==> !(#[trigger] lines(s)[i]).contains('\n'),
{
    lemma_scan_rejoins(s);
    let (d, cur) = line_scan(s);
    if cur.len() > 0 {
        assert forall|i: int| 0 <= i < lines(s).len() implies !(#[trigger] lines(s)[i]).contains('\n') by {
            if i < d.len() {
                assert(lines(s)[i] == d[i]);
            }
        }
    } else if s.len() == 0 {
        assert(line_scan(s).0.len() == 0);
    }
}


/// Text that neither starts nor ends with whitespace.
pub open spec fn framed(s: Seq<char>) -> bool {
    s.len() > 0 && !is_white_space(s[0]) && !is_white_space(s.last())
}

/// Each line of the message stands in the note, in order, indented by two
/// tabs: a one-line message gives its line, and a line added below a
/// message adds a line break, two tabs and that line.
pub proof fn law_each_line_is_indented(m: Seq<char>, l: Seq<char>)
    requires
        framed(l),
        !l.contains('\n'),
    ensures
        note_body(l) == seq!['\t', '\t'] + l,
        framed(m) ==> note_body(m + seq!['\n'] + l) == note_body(m) + seq!['\n', '\t', '\t'] + l,
{
    assert forall|i: int| 0 <= i < l.len() implies l[i] != '\n' by {
        if l[i] == '\n' {
            assert(l.contains('\n'));
        }
    }
    assert(trim_start(l) == l);
    assert(trim_end(l) == l);
    lemma_scan_without_break(Seq::empty(), l);
    assert(Seq::<char>::empty() + l =~= l);
    assert(line_scan(Seq::<char>::empty()) == (Seq::<Seq<char>>::empty(), Seq::<char>::empty()));
    assert(Seq::<char>::empty() + l =~= l);
    assert(lines(l) == seq![l]);
    assert(note_lines(seq![l]) =~= seq![note_line(l)]);
    if framed(m) {
        let x = m + seq!['\n'] + l;
        assert(x[0] == m[0]);
        assert(x.last() == l.last());
        assert(trim_start(x) == x);
        assert(trim_end(x) == x);
        assert(trim_start(m) == m);
        assert(trim_end(m) == m);
        let (d, cur) = line_scan(m);
        assert(m.drop_last().push(m.last()) =~= m);
        assert(m.last() != '\n');
        assert(cur.len() > 0 && cur.last() == m.last()) by {
            assert(line_scan(m) == (line_scan(m.drop_last()).0, line_scan(m.drop_last()).1.push(
                m.last(),
            )));
        }
        assert(lines(m) == d.push(cur));
        let mn = m.push('\n');
        assert(mn.drop_last() =~= m);
        assert(strip_cr(cur) == cur);
        assert(line_scan(mn) == (d.push(cur), Seq::<char>::empty()));
        lemma_scan_without_break(mn, l);
        assert(mn + l =~= x);
        assert(Seq::<char>::empty() + l =~= l);
        assert(lines(x) == lines(m).push(l));
        assert(note_lines(lines(m).push(l)) =~= note_lines(lines(m)).push(note_line(l)));
        lemma_join_push(note_lines(lines(m)), note_line(l), seq!['\n']);
        assert(note_lines(lines(m)).len() > 0);
        assert(note_body(x) =~= note_body(m) + seq!['\n', '\t', '\t'] + l);
    }
}


/// The item name of an indexed warning is the title, `_`, and decimal
/// digits that read back as the index; without an index it is the title.
pub proof fn law_item_name_parts(name: Seq<char>, i: usize)
    ensures
        item_name(name, None) == name,
        item_name(name, Some(i)).take(name.len() as int) == name,
        item_name(name, Some(i))[name.len() as int] == '_',
        decimal_value(item_name(name, Some(i)).skip(name.len() + 1int)) == i,
        forall|k: int|
            name.len() < k < item_name(name, Some(i)).len() ==> '0' <= #[trigger] item_name(
                name,
                Some(i),
            )[k] <= '9',
{
    let x = item_name(name, Some(i));
    assert(x.take(name.len() as int) =~= name);
    assert(x.skip(name.len() + 1int) =~= decimal(i as nat));
    law_decimal_reads_back(i as nat);
    assert forall|k: int| name.len() < k < x.len() implies '0' <= #[trigger] x[k] <= '9' by {
        assert(x[k] == decimal(i as nat)[k - name.len() - 1]);
    }
}

} // verus!
