//! Warnings and the text that a macro emits for them.

use vstd::prelude::*;
use proc_macro2::Span;
use crate::builder::{converts_to, into_string, BuilderModel, DeprecatedWarningBuilder};
use crate::ident::{is_ident, is_valid_ident};
use crate::text::{
    chars_of, char_lines, decimal, join, lines, push_char, push_decimal, push_range,
    skip_white_space, skip_white_space_back, split_lines, trim, trim_start,
};

verus! {

/// Creates a compile-time warning for proc macro use. See
/// [`DeprecatedWarningBuilder`] for usage.
#[derive(Clone, Debug)]
pub enum Warning {
    /// A *deprecation* warning that notifies users of outdated types and
    /// functions.
    Deprecated {
        /// The name of the warning.
        name: String,
        /// The index of the warning. Name++Index must be unique.
        index: Option<usize>,
        /// The message of the warning.
        message: String,
        /// The help links to be displayed next to the message.
        links: Vec<String>,
        /// The span of the warning.
        span: Span,
    },
}

/// A compile-time warning that was already subject to formatting.
///
/// Any content will be pasted as-is.
#[derive(Clone, Debug)]
pub enum FormattedWarning {
    /// A *deprecation* warning.
    Deprecated {
        /// Unique name of this warning: the name of the item that carries it.
        ///
        /// Must be unique in the case that multiple of these warnings are
        /// emitted, for example by appending a counter.
        name: String,
        /// The exact note to be used for `note = ""`.
        note: String,
        /// The span of the warning.
        ///
        /// Should be set to the original location of where the warning
        /// should be emitted.
        span: Option<Span>,
    },
}

/// What a [`Warning`] holds, as text.
pub struct WarningModel {
    pub name: Seq<char>,
    pub index: Option<usize>,
    pub message: Seq<char>,
    pub links: Seq<Seq<char>>,
    pub span: Span,
}

/// What a [`FormattedWarning`] holds, as text.
pub struct FormattedWarningModel {
    pub name: Seq<char>,
    pub note: Seq<char>,
    pub span: Option<Span>,
}

/// The texts of a list of strings.
pub open spec fn texts(v: Seq<String>) -> Seq<Seq<char>> {
    v.map_values(|s: String| s@)
}

impl View for Warning {
    type V = WarningModel;

    open spec fn view(&self) -> WarningModel {
        match self {
            Warning::Deprecated { name, index, message, links, span } => WarningModel {
                name: name@,
                index: *index,
                message: message@,
                links: texts(links@),
                span: *span,
            },
        }
    }
}

impl View for FormattedWarning {
    type V = FormattedWarningModel;

    open spec fn view(&self) -> FormattedWarningModel {
        match self {
            FormattedWarning::Deprecated { name, note, span } => FormattedWarningModel {
                name: name@,
                note: note@,
                span: *span,
            },
        }
    }
}

/// The name of the item that carries a warning: the warning's name, and
/// when it has an index, `_` and the index in decimal after it.
pub open spec fn item_name(name: Seq<char>, index: Option<usize>) -> Seq<char> {
    match index {
        Some(i) => name + seq!['_'] + decimal(i as nat),
        None => name,
    }
}

/// A line of the note: two tabs, then the line without its leading
/// whitespace.
pub open spec fn note_line(line: Seq<char>) -> Seq<char> {
    seq!['\t', '\t'] + trim_start(line)
}

/// The lines of a message as they stand in the note.
pub open spec fn note_lines(ls: Seq<Seq<char>>) -> Seq<Seq<char>> {
    ls.map_values(|l: Seq<char>| note_line(l))
}

/// The message without its surrounding whitespace, each of its lines
/// indented by two tabs, the lines joined by `'\n'`.
pub open spec fn note_body(message: Seq<char>) -> Seq<char> {
    join(note_lines(lines(trim(message))), seq!['\n'])
}

/// A help link as it stands in the note: between `<` and `>`.
pub open spec fn link_item(link: Seq<char>) -> Seq<char> {
    seq!['<'] + link + seq!['>']
}

/// The help links as they stand in the note, each on a line of its own
/// indented by three tabs.
pub open spec fn link_block(links: Seq<Seq<char>>) -> Seq<char> {
    join(links.map_values(|l: Seq<char>| link_item(l)), seq!['\n', '\t', '\t', '\t'])
}

/// The words that introduce the help links.
pub open spec fn more_info() -> Seq<char> {
    "For more info see:"@
}

/// The note of a warning with this message and these help links: a line
/// break and the note body; then, where there are links, an empty line,
/// the words that introduce them, and the links.
pub open spec fn note_text(message: Seq<char>, links: Seq<Seq<char>>) -> Seq<char> {
    if links.len() > 0 {
        seq!['\n'] + note_body(message) + seq!['\n', '\n', '\t', '\t'] + more_info() + seq![
            '\n',
            '\t',
            '\t',
            '\t',
        ] + link_block(links)
    } else {
        seq!['\n'] + note_body(message)
    }
}

/// Joining one more part onto a join adds the separator and the part.
pub proof fn lemma_join_step(parts: Seq<Seq<char>>, sep: Seq<char>, k: int)
    requires
        0 <= k < parts.len(),
    ensures
        join(parts.take(k + 1), sep) == if k == 0 {
            parts[0]
        } else {
            join(parts.take(k), sep) + sep + parts[k]
        },
{
    if k > 0 {
        assert(parts.take(k + 1).drop_last() =~= parts.take(k));
    }
}

impl Warning {
    /// Create a new *deprecated* warning.
    pub fn new_deprecated<S: Into<String>>(title: S) -> (b: DeprecatedWarningBuilder)
        ensures
            converts_to(title, b@.title),
            b@ == BuilderModel::titled(b@.title),
    {
        DeprecatedWarningBuilder::from_title(title)
    }

    /// Create a new warning from its parts, without an index.
    pub fn new_raw(name: String, message: String, help_links: Vec<String>, span: Span) -> (w:
        Warning)
        ensures
            w@.name == name@,
            w@.index is None,
            w@.message == message@,
            w@.links == texts(help_links@),
            w@.span == span,
    {
        Warning::Deprecated { name, index: None, message, links: help_links, span }
    }

    /// Sanitize the warning message.
    pub fn final_deprecated_message(&self) -> (note: String)
        ensures
            note@ == note_text(self@.message, self@.links),
    {
        let (message, links) = match self {
            Warning::Deprecated { message, links, .. } => (message, links),
        };
        let chars = chars_of(message.as_str());
        let start = skip_white_space(&chars, 0, chars.len());
        let end = skip_white_space_back(&chars, start, chars.len());
        assert(chars@.subrange(0, chars.len() as int) =~= message@);
        assert(chars@.subrange(start as int, end as int) == trim(message@));
        let ls = split_lines(&chars, start, end);
        let ghost body_lines = note_lines(char_lines(ls@));
        let mut out = String::new();
        push_char(&mut out, '\n');
        let mut k: usize = 0;
        while k < ls.len()
            invariant
                k <= ls.len(),
                body_lines == note_lines(char_lines(ls@)),
                out@ == seq!['\n'] + join(body_lines.take(k as int), seq!['\n']),
            decreases ls.len() - k,
        {
            let ghost before = out@;
            if k > 0 {
                push_char(&mut out, '\n');
            }
            push_char(&mut out, '\t');
            push_char(&mut out, '\t');
            let line = &ls[k];
            let s = skip_white_space(line, 0, line.len());
            push_range(&mut out, line, s, line.len());
            proof {
                lemma_join_step(body_lines, seq!['\n'], k as int);
                assert(line@.subrange(0, line@.len() as int) =~= line@);
                assert(char_lines(ls@)[k as int] == line@);
                assert(body_lines[k as int] == note_line(line@));
                assert(body_lines[k as int] =~= seq!['\t', '\t'] + line@.subrange(
                    s as int,
                    line@.len() as int,
                ));
                if k > 0 {
                    assert(out@ =~= before + seq!['\n'] + body_lines[k as int]);
                } else {
                    assert(out@ =~= before + body_lines[k as int]);
                }
            }
            k = k + 1;
        }
        assert(body_lines.take(ls.len() as int) =~= body_lines);
        assert(char_lines(ls@) == lines(trim(message@)));
        if links.len() > 0 {
            push_char(&mut out, '\n');
            push_char(&mut out, '\n');
            push_char(&mut out, '\t');
            push_char(&mut out, '\t');
            out.append("For more info see:");
            push_char(&mut out, '\n');
            push_char(&mut out, '\t');
            push_char(&mut out, '\t');
            push_char(&mut out, '\t');
            let ghost head = out@;
            let ghost items = texts(links@).map_values(|l: Seq<char>| link_item(l));
            let mut j: usize = 0;
            while j < links.len()
                invariant
                    j <= links.len(),
                    items == texts(links@).map_values(|l: Seq<char>| link_item(l)),
                    out@ == head + join(items.take(j as int), seq!['\n', '\t', '\t', '\t']),
                decreases links.len() - j,
            {
                let ghost before = out@;
                if j > 0 {
                    push_char(&mut out, '\n');
                    push_char(&mut out, '\t');
                    push_char(&mut out, '\t');
                    push_char(&mut out, '\t');
                }
                push_char(&mut out, '<');
                out.append(links[j].as_str());
                push_char(&mut out, '>');
                proof {
                    lemma_join_step(items, seq!['\n', '\t', '\t', '\t'], j as int);
                    assert(items[j as int] == link_item(links@[j as int]@));
                    if j > 0 {
                        assert(out@ =~= before + seq!['\n', '\t', '\t', '\t'] + items[j as int]);
                    } else {
                        assert(out@ =~= before + items[j as int]);
                    }
                }
                j = j + 1;
            }
            assert(items.take(links.len() as int) =~= items);
            assert(out@ =~= note_text(message@, texts(links@)));
        }
        out
    }

    /// The note without a leading line break where there are no help links:
    /// the indented message alone, or the full note when links follow it.
    pub fn final_message(&self) -> (note: String)
        ensures
            note@ == if self@.links.len() > 0 {
                note_text(self@.message, self@.links)
            } else {
                note_body(self@.message)
            },
    {
        let full = self.final_deprecated_message();
        let has_links = match self {
            Warning::Deprecated { links, .. } => links.len() > 0,
        };
        if has_links {
            full
        } else {
            let chars = chars_of(full.as_str());
            let mut out = String::new();
            push_range(&mut out, &chars, 1, chars.len());
            assert(out@ =~= note_body(self@.message));
            out
        }
    }

    /// Sanitize the warning name.
    pub fn final_deprecated_name(&self) -> (name: String)
        ensures
            name@ == item_name(self@.name, self@.index),
    {
        let (index, name) = match self {
            Warning::Deprecated { index, name, .. } => (*index, name),
        };
        let mut out = name.clone();
        match index {
            Some(i) => {
                push_char(&mut out, '_');
                push_decimal(&mut out, i);
            },
            None => {},
        }
        out
    }
}

impl FormattedWarning {
    /// Create a new deprecated warning that already was formatted by the
    /// caller.
    pub fn new_deprecated<T: Into<String>>(name: &str, note: T, span: Span) -> (w: Self)
        requires
            is_ident(name@),
        ensures
            w@.name == name@,
            converts_to(note, w@.note),
            w@.span == Some(span),
    {
        FormattedWarning::Deprecated { name: String::from_str(name), note: into_string(note), span: Some(span) }
    }

    /// A deprecated warning that already was formatted by the caller, or
    /// `None` where `name` cannot name an item.
    pub fn new_deprecated_checked<T: Into<String>>(name: &str, note: T, span: Span) -> (w: Option<
        Self,
    >)
        ensures
            match w {
                Some(f) => {
                    &&& is_ident(name@)
                    &&& f@.name == name@
                    &&& converts_to(note, f@.note)
                    &&& f@.span == Some(span)
                },
                None => !is_ident(name@),
            },
    {
        if is_valid_ident(name) {
            Some(FormattedWarning::new_deprecated(name, note, span))
        } else {
            None
        }
    }

    /// The formatted form of a warning: the item name with the index
    /// appended, the note sanitized, the span kept.
    pub fn from(val: Warning) -> (w: Self)
        requires
            is_ident(item_name(val@.name, val@.index)),
        ensures
            w@.name == item_name(val@.name, val@.index),
            w@.note == note_text(val@.message, val@.links),
            w@.span == Some(val@.span),
    {
        let name = val.final_deprecated_name();
        let note = val.final_deprecated_message();
        match val {
            Warning::Deprecated { span, .. } => FormattedWarning::Deprecated {
                name,
                note,
                span: Some(span),
            },
        }
    }

    /// The formatted form of a warning, or `None` where its item name,
    /// the title with the index appended, cannot name an item.
    pub fn from_checked(val: Warning) -> (w: Option<Self>)
        ensures
            match w {
                Some(f) => {
                    &&& is_ident(item_name(val@.name, val@.index))
                    &&& f@.name == item_name(val@.name, val@.index)
                    &&& f@.note == note_text(val@.message, val@.links)
                    &&& f@.span == Some(val@.span)
                },
                None => !is_ident(item_name(val@.name, val@.index)),
            },
    {
        let name = val.final_deprecated_name();
        if is_valid_ident(name.as_str()) {
            Some(FormattedWarning::from(val))
        } else {
            None
        }
    }
}

} // verus!
