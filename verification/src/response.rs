//! What a handler answers: a redirect, or a view to render.

use vstd::prelude::*;

use crate::text::owned;

verus! {

/// The views that the login pages are rendered from.
#[derive(Debug, Clone, Copy, PartialEq, Eq, Structural)]
pub enum Template {
    /// The entry page with the consent form.
    Login,
    /// The confirmation after a successful login.
    LoggedIn,
    /// The report of a failed login.
    AuthError,
}

impl Template {
    pub open spec fn spec_name(self) -> Seq<char> {
        match self {
            Template::Login => "login"@,
            Template::LoggedIn => "loggedin"@,
            Template::AuthError => "autherror"@,
        }
    }

    /// The identifier under which the view is registered.
    pub fn name(&self) -> (name: &'static str)
        ensures
            name@ == self.spec_name(),
    {
        match self {
            Template::Login => "login",
            Template::LoggedIn => "loggedin",
            Template::AuthError => "autherror",
        }
    }
}

/// The answer of a handler.
#[derive(Debug, PartialEq, Eq)]
pub enum Response {
    /// Send the browser on to `target`.
    Proceed { target: String },
    /// Render `template` with the flat `context` of keys and values.
    Render { template: Template, context: Vec<(String, String)> },
}

/// An answer as plain values.
pub enum ResponseView {
    Proceed { target: Seq<char> },
    Render { template: Template, context: Seq<(Seq<char>, Seq<char>)> },
}

impl View for Response {
    type V = ResponseView;

    open spec fn view(&self) -> ResponseView {
        match self {
            Response::Proceed { target } => ResponseView::Proceed { target: target@ },
            Response::Render { template, context } => ResponseView::Render {
                template: *template,
                context: context.deep_view(),
            },
        }
    }
}

/// Whether no key stands twice in a context, so that it is a mapping of keys to values.
pub open spec fn keys_distinct(context: Seq<(Seq<char>, Seq<char>)>) -> bool {
    forall|i: int, j: int|
        0 <= i < j < context.len() ==> (#[trigger] context[i]).0 != (#[trigger] context[j]).0
}

impl ResponseView {
    /// Whether the answer can be rendered: the context of a view holds no key twice.
    pub open spec fn well_formed(self) -> bool {
        match self {
            ResponseView::Proceed { .. } => true,
            ResponseView::Render { context, .. } => keys_distinct(context),
        }
    }
}

/// The value that a context gives for a key: that of the first entry with the key.
pub open spec fn context_value(context: Seq<(Seq<char>, Seq<char>)>, key: Seq<char>) -> Option<
    Seq<char>,
>
    decreases context.len(),
{
    if context.len() == 0 {
        None
    } else if context[0].0 == key {
        Some(context[0].1)
    } else {
        context_value(context.drop_first(), key)
    }
}

/// An empty context.
pub fn no_context() -> (context: Vec<(String, String)>)
    ensures
        context.deep_view() == Seq::<(Seq<char>, Seq<char>)>::empty(),
{
    let context: Vec<(String, String)> = Vec::new();
    assert(context.deep_view() =~= Seq::<(Seq<char>, Seq<char>)>::empty());
    context
}

/// Adds an entry at the end of a context.
pub fn push_entry(context: &mut Vec<(String, String)>, key: &str, value: String)
    ensures
        final(context).deep_view() == old(context).deep_view().push((key@, value@)),
{
    let entry = (owned(key), value);
    context.push(entry);
    assert(context.deep_view() =~= old(context).deep_view().push((key@, value@)));
}

impl Response {
    /// The value that a rendered view's context gives for `key`.
    pub fn value_of(&self, key: &str) -> (value: Option<String>)
        ensures
            value.deep_view() == match self@ {
                ResponseView::Proceed { .. } => None,
                ResponseView::Render { context, .. } => context_value(context, key@),
            },
    {
        match self {
            Response::Proceed { .. } => None,
            Response::Render { context, .. } => {
                let ghost entries = context.deep_view();
                let mut i: usize = 0;
                assert(entries.subrange(0, entries.len() as int) =~= entries);
                while i < context.len()
                    invariant
                        i <= context.len(),
                        entries == context.deep_view(),
                        entries.len() == context.len(),
                        self@ matches ResponseView::Render { context: c, .. } && c == entries,
                        context_value(entries, key@) == context_value(
                            entries.subrange(i as int, entries.len() as int),
                            key@,
                        ),
                    decreases context.len() - i,
                {
                    let ghost rest = entries.subrange(i as int, entries.len() as int);
                    assert(rest[0] == entries[i as int]);
                    assert(rest.drop_first() =~= entries.subrange(i + 1, entries.len() as int));
                    assert(entries[i as int] == (context@[i as int].0@, context@[i as int].1@));
                    if context[i].0 == owned(key) {
                        let value = context[i].1.clone();
                        assert(context_value(rest, key@) == Some(value@));
                        return Some(value);
                    }
                    i = i + 1;
                }
                None
            },
        }
    }
}

} // verus!
