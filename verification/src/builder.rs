//! Gradual construction of a deprecation warning.

use vstd::prelude::*;
use proc_macro2::Span;
use vstd::std_specs::convert::IntoSpec;
use crate::outside::call_site;
use crate::text::push_char;
use crate::warning::{Warning, WarningModel};

verus! {

/// `t` is the text of a string that converting `x` into a `String` may
/// give.
pub open spec fn converts_to<S: Into<String>>(x: S, t: Seq<char>) -> bool {
    exists|s: String| call_ensures(<S as Into<String>>::into, (x,), s) && s@ == t
}

pub(crate) fn into_string<S: Into<String>>(x: S) -> (s: String)
    ensures
        converts_to(x, s@),
{
    x.into()
}


/// The text of an optional string.
pub open spec fn opt_text(o: Option<String>) -> Option<Seq<char>> {
    match o {
        Some(s) => Some(s@),
        None => None,
    }
}

/// Gradually build a *deprecation* `Warning`.
///
/// # Example
///
/// ```rust
/// use proc_macro_warning::Warning;
///
/// let warning = Warning::new_deprecated("my_macro")
///     .old_usage("my_macro()")
///     .new("my_macro::new()")
///     .help_link("https:://example.com")
///     // Normally you use the input span, but this is an example:
///     .span(proc_macro2::Span::call_site())
///     .build_or_panic();
/// ```
#[derive(Clone, Debug)]
pub struct DeprecatedWarningBuilder {
    title: String,
    index: Option<usize>,
    old_usage: Option<String>,
    new_usage: Option<String>,
    links: Vec<String>,
    span: Option<Span>,
}

/// What a [`DeprecatedWarningBuilder`] has collected, as text.
pub struct BuilderModel {
    pub title: Seq<char>,
    pub index: Option<usize>,
    pub old_usage: Option<Seq<char>>,
    pub new_usage: Option<Seq<char>>,
    pub links: Seq<Seq<char>>,
    pub span: Option<Span>,
}

impl BuilderModel {
    /// A builder with this title and nothing else set.
    pub open spec fn titled(title: Seq<char>) -> BuilderModel {
        BuilderModel {
            title,
            index: None,
            old_usage: None,
            new_usage: None,
            links: Seq::empty(),
            span: None,
        }
    }

    /// The same builder with the index set.
    pub open spec fn set_index(self, index: usize) -> BuilderModel {
        BuilderModel { index: Some(index), ..self }
    }

    /// The same builder with the deprecated usage set.
    pub open spec fn set_old_usage(self, old: Seq<char>) -> BuilderModel {
        BuilderModel { old_usage: Some(old), ..self }
    }

    /// The same builder with the replacing usage set.
    pub open spec fn set_new_usage(self, new: Seq<char>) -> BuilderModel {
        BuilderModel { new_usage: Some(new), ..self }
    }

    /// The same builder with the help links replaced.
    pub open spec fn set_links(self, links: Seq<Seq<char>>) -> BuilderModel {
        BuilderModel { links, ..self }
    }

    /// The same builder with the span set.
    pub open spec fn set_span(self, span: Span) -> BuilderModel {
        BuilderModel { span: Some(span), ..self }
    }
}

impl View for DeprecatedWarningBuilder {
    type V = BuilderModel;

    closed spec fn view(&self) -> BuilderModel {
        BuilderModel {
            title: self.title@,
            index: self.index,
            old_usage: opt_text(self.old_usage),
            new_usage: opt_text(self.new_usage),
            links: self.links@.map_values(|s: String| s@),
            span: self.span,
        }
    }
}

impl Default for DeprecatedWarningBuilder {
    fn default() -> (b: Self)
        ensures
            b@ == BuilderModel::titled(Seq::empty()),
    {
        let b = DeprecatedWarningBuilder {
            title: String::new(),
            index: None,
            old_usage: None,
            new_usage: None,
            links: Vec::new(),
            span: None,
        };
        assert(b@.links =~= Seq::<Seq<char>>::empty());
        b
    }
}

impl DeprecatedWarningBuilder {
    /// Create a new *deprecated* warning builder with the given title.
    ///
    /// The title must be unique for each warning.
    pub fn from_title<S: Into<String>>(title: S) -> (b: Self)
        ensures
            converts_to(title, b@.title),
            b@ == BuilderModel::titled(b@.title),
    {
        let b = DeprecatedWarningBuilder {
            title: into_string(title),
            index: None,
            old_usage: None,
            new_usage: None,
            links: Vec::new(),
            span: None,
        };
        assert(b@.links =~= Seq::<Seq<char>>::empty());
        b
    }

    /// Set an optional index in case that a warning appears multiple times.
    ///
    /// Must be set if a warning appears multiple times.
    pub fn index<S: Into<usize>>(self, index: S) -> (b: Self)
        ensures
            b@.index matches Some(i) && call_ensures(<S as Into<usize>>::into, (index,), i),
            <S as IntoSpec<usize>>::obeys_into_spec() ==> b@.index == Some(
                <S as IntoSpec<usize>>::into_spec(index),
            ),
            b@ == self@.set_index(b@.index->0),
    {
        DeprecatedWarningBuilder { index: Some(index.into()), ..self }
    }

    /// The old *deprecated* way of doing something.
    ///
    /// Should complete the sentence "It is deprecated to ...".
    pub fn old_usage<S: Into<String>>(self, old: S) -> (b: Self)
        ensures
            b@.old_usage matches Some(t) && converts_to(old, t),
            b@ == self@.set_old_usage(b@.old_usage->0),
    {
        DeprecatedWarningBuilder { old_usage: Some(into_string(old)), ..self }
    }

    /// The *new* way of doing something.
    ///
    /// Should complete the sentence "Please instead ...".
    pub fn new<S: Into<String>>(self, new: S) -> (b: Self)
        ensures
            b@.new_usage matches Some(t) && converts_to(new, t),
            b@ == self@.set_new_usage(b@.new_usage->0),
    {
        DeprecatedWarningBuilder { new_usage: Some(into_string(new)), ..self }
    }

    /// The new *alternative* way of doing something; the same as
    /// [`Self::new`].
    ///
    /// Should complete the sentence "Please instead ...".
    pub fn alternative<S: Into<String>>(self, alternative: S) -> (b: Self)
        ensures
            b@.new_usage matches Some(t) && converts_to(alternative, t),
            b@ == self@.set_new_usage(b@.new_usage->0),
    {
        self.new(alternative)
    }

    /// A help link for the user to explain the transition and
    /// justification. It replaces the links set before.
    pub fn help_link<S: Into<String>>(self, link: S) -> (b: Self)
        ensures
            b@.links.len() == 1,
            converts_to(link, b@.links[0]),
            b@ == self@.set_links(b@.links),
    {
        let mut links: Vec<String> = Vec::new();
        links.push(into_string(link));
        let b = DeprecatedWarningBuilder { links, ..self };
        b
    }

    /// Multiple help links for the user to explain the transition and
    /// justification. They replace the links set before.
    pub fn help_links(self, links: &[&str]) -> (b: Self)
        ensures
            b@.links.len() == links@.len(),
            forall|i: int| 0 <= i < links@.len() ==> b@.links[i] == links@[i]@,
            b@ == self@.set_links(links@.map_values(|s: &str| s@)),
    {
        let mut owned: Vec<String> = Vec::new();
        let mut i: usize = 0;
        while i < links.len()
            invariant
                i <= links@.len(),
                owned@.len() == i,
                forall|k: int| 0 <= k < i ==> (#[trigger] owned@[k])@ == links@[k]@,
            decreases links.len() - i,
        {
            owned.push(String::from_str(links[i]));
            i = i + 1;
        }
        assert(owned@.map_values(|s: String| s@) =~= links@.map_values(|s: &str| s@));
        DeprecatedWarningBuilder { links: owned, ..self }
    }

    /// Set the span of the warning.
    pub fn span(self, span: Span) -> (b: Self)
        ensures
            b@.span == Some(span),
            b@ == self@.set_span(span),
    {
        DeprecatedWarningBuilder { span: Some(span), ..self }
    }
}


/// The message of a deprecation warning: "It is deprecated to {old}." and
/// "Please instead {new}." on two lines.
pub open spec fn deprecation_message(old: Seq<char>, new: Seq<char>) -> Seq<char> {
    "It is deprecated to "@ + old + seq!['.', '\n'] + "Please instead "@ + new + seq!['.']
}

/// `w` is the warning that the builder `b`, with both usages set, builds:
/// the title as its name, the index, the message made of the two usages,
/// the links, and the span where one was set.
pub open spec fn builds(b: BuilderModel, w: WarningModel) -> bool {
    &&& b.old_usage is Some
    &&& b.new_usage is Some
    &&& w.name == b.title
    &&& w.index == b.index
    &&& w.message == deprecation_message(b.old_usage->0, b.new_usage->0)
    &&& w.links == b.links
    &&& (b.span matches Some(s) ==> w.span == s)
}

/// What building from `b` fails with: `"Missing old"` without a
/// deprecated usage, else `"Missing new"` without a replacing one.
pub open spec fn build_error(b: BuilderModel) -> Option<Seq<char>> {
    if b.old_usage is None {
        Some("Missing old"@)
    } else if b.new_usage is None {
        Some("Missing new"@)
    } else {
        None
    }
}

/// What building gives, as text: the warning or the error message.
pub open spec fn built_model(r: Result<Warning, String>) -> Result<WarningModel, Seq<char>> {
    match r {
        Ok(w) => Ok(w@),
        Err(e) => Err(e@),
    }
}

/// `r` is what building from `b` gives: the error that `build_error`
/// names, or else the warning that `b` builds.
pub open spec fn build_outcome(b: BuilderModel, r: Result<WarningModel, Seq<char>>) -> bool {
    match r {
        Ok(w) => build_error(b) is None && builds(b, w),
        Err(e) => build_error(b) == Some(e),
    }
}

impl DeprecatedWarningBuilder {
    /// Fallibly build a warning; the same as [`Self::try_build`].
    pub fn maybe_build(self) -> (r: Result<Warning, String>)
        ensures
            build_outcome(self@, built_model(r)),
            r is Ok <==> (self@.old_usage is Some && self@.new_usage is Some),
            r matches Ok(w) ==> {
                &&& w@.name == self@.title
                &&& w@.index == self@.index
                &&& w@.links == self@.links
                &&& self@.span matches Some(sp) ==> w@.span == sp
            },
    {
        self.try_build()
    }

    /// Try to build the warning.
    pub fn try_build(self) -> (r: Result<Warning, String>)
        ensures
            build_outcome(self@, built_model(r)),
            r is Ok <==> (self@.old_usage is Some && self@.new_usage is Some),
            r matches Ok(w) ==> {
                &&& w@.name == self@.title
                &&& w@.index == self@.index
                &&& w@.links == self@.links
                &&& self@.span matches Some(sp) ==> w@.span == sp
            },
    {
        let ghost model = self@;
        let span = match self.span {
            Some(s) => s,
            None => call_site(),
        };
        let title = self.title;
        let old = match self.old_usage {
            Some(o) => o,
            None => {
                return Err(String::from_str("Missing old"));
            },
        };
        let new = match self.new_usage {
            Some(n) => n,
            None => {
                return Err(String::from_str("Missing new"));
            },
        };
        let mut message = String::from_str("It is deprecated to ");
        message.append(old.as_str());
        push_char(&mut message, '.');
        push_char(&mut message, '\n');
        message.append("Please instead ");
        message.append(new.as_str());
        push_char(&mut message, '.');
        let w = Warning::Deprecated {
            name: title,
            index: self.index,
            message,
            links: self.links,
            span,
        };
        assert(w@.message =~= deprecation_message(model.old_usage->0, model.new_usage->0));
        Ok(w)
    }

    /// Unwraps [`Self::maybe_build`] for convenience.
    pub fn build(self) -> (w: Warning)
        requires
            build_error(self@) is None,
        ensures
            build_outcome(self@, Ok(w@)),
            w@.name == self@.title,
            w@.index == self@.index,
            w@.links == self@.links,
            self@.span matches Some(sp) ==> w@.span == sp,
    {
        self.build_or_panic()
    }

    /// Build the warning; both usages must have been set.
    pub fn build_or_panic(self) -> (w: Warning)
        requires
            build_error(self@) is None,
        ensures
            build_outcome(self@, Ok(w@)),
            w@.name == self@.title,
            w@.index == self@.index,
            w@.links == self@.links,
            self@.span matches Some(sp) ==> w@.span == sp,
    {
        match self.try_build() {
            Ok(w) => w,
            Err(_) => unreached(),
        }
    }
}

} // verus!
