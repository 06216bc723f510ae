//! Chained error values.
use vstd::prelude::*;
use crate::text::{decimal, push_decimal};

verus! {

/// The category of an error.
#[derive(Debug, Clone, Copy, PartialEq, Eq, Structural)]
pub enum ErrorType {
    Undefined,
    SaveLoad,
    Assets,
}

/// The display name of an error category.
pub open spec fn error_type_name(ty: ErrorType) -> Seq<char> {
    match ty {
        ErrorType::Undefined => "Undefined"@,
        ErrorType::SaveLoad => "Save/Load"@,
        ErrorType::Assets => "Assets"@,
    }
}

impl ErrorType {
    /// The display name of the category.
    pub fn name(&self) -> (s: &'static str)
        ensures
            s@ == error_type_name(*self),
    {
        match self {
            ErrorType::Undefined => "Undefined",
            ErrorType::SaveLoad => "Save/Load",
            ErrorType::Assets => "Assets",
        }
    }
}

/// One link of an error chain: the newest error, and the one it follows.
#[derive(Debug)]
pub struct InnerError {
    pub ty: ErrorType,
    pub line: u32,
    pub file: String,
    pub message: String,
    pub chained: Option<Box<InnerError>>,
}

/// An error, with every error it was merged over.
#[derive(Debug)]
pub struct Error {
    pub inner: Box<InnerError>,
}

/// The text of one link, without the links it follows.
pub open spec fn link_text(e: InnerError) -> Seq<char> {
    "[ERROR]["@ + e.file@ + ":"@ + decimal(e.line as nat) + "] "@ + error_type_name(e.ty) + " - "@
        + e.message@
}

/// The text of a chain: the oldest link first, one line per link.
pub open spec fn chain_text(e: InnerError) -> Seq<char>
    decreases e,
{
    match e.chained {
        Some(c) => chain_text(*c) + "\n"@ + link_text(e),
        None => link_text(e),
    }
}

/// The number of links in a chain.
pub open spec fn chain_len(e: InnerError) -> nat
    decreases e,
{
    match e.chained {
        Some(c) => chain_len(*c) + 1,
        None => 1,
    }
}

/// The messages of a chain, the oldest first.
pub open spec fn chain_messages(e: InnerError) -> Seq<Seq<char>>
    decreases e,
{
    match e.chained {
        Some(c) => chain_messages(*c).push(e.message@),
        None => seq![e.message@],
    }
}

impl InnerError {
    /// Appends the text of this chain to `out`.
    pub fn write_text(&self, out: &mut String)
        ensures
            final(out)@ == old(out)@ + chain_text(*self),
        decreases *self,
    {
        match &self.chained {
            Some(c) => {
                c.write_text(out);
                out.append("\n");
            },
            None => {},
        }
        out.append("[ERROR][");
        out.append(self.file.as_str());
        out.append(":");
        push_decimal(out, self.line);
        out.append("] ");
        out.append(self.ty.name());
        out.append(" - ");
        out.append(self.message.as_str());
        assert(out@ =~= old(out)@ + chain_text(*self));
    }
}

impl Error {
    /// A new error with no earlier error chained behind it.
    pub fn new(ty: ErrorType, file: &'static str, line: u32, message: String) -> (e: Self)
        ensures
            e.inner.ty == ty,
            e.inner.file@ == file@,
            e.inner.line == line,
            e.inner.message@ == message@,
            e.inner.chained is None,
    {
        let inner = InnerError { ty, file: file.to_owned(), line, message, chained: None };
        Error { inner: Box::new(inner) }
    }

    /// Makes `other` the newest error, chained in front of this one.
    /// Whatever `other` itself had chained is dropped.
    pub fn merge(&mut self, other: Self)
        ensures
            final(self).inner.ty == other.inner.ty,
            final(self).inner.file == other.inner.file,
            final(self).inner.line == other.inner.line,
            final(self).inner.message == other.inner.message,
            final(self).inner.chained == Some(old(self).inner),
    {
        let mut other = other;
        std::mem::swap(self, &mut other);
        self.inner.chained = Some(other.inner);
    }

    /// The text of the error chain, the oldest error first.
    pub fn to_text(&self) -> (s: String)
        ensures
            s@ == chain_text(*self.inner),
    {
        let mut s = String::new();
        self.inner.write_text(&mut s);
        s
    }
}

/// Whether `after` is `newest` put in front of the chain `before`.
pub open spec fn chained_over(after: InnerError, newest: InnerError, before: InnerError) -> bool {
    &&& after.ty == newest.ty
    &&& after.file == newest.file
    &&& after.line == newest.line
    &&& after.message == newest.message
    &&& after.chained == Some(Box::new(before))
}

/// Whether `after` is `before` with `e` recorded: `e` alone, or `e`
/// chained in front of the error that was there.
pub open spec fn merged(before: Option<Error>, e: Error, after: Option<Error>) -> bool {
    match before {
        None => after == Some(e),
        Some(prev) => after matches Some(now) && chained_over(*now.inner, *e.inner, *prev.inner),
    }
}

/// Records `e` in `slot`: it becomes the error there, or, when an error is
/// already there, the newest error chained in front of it.
pub fn merge_error(slot: &mut Option<Error>, e: Error)
    ensures
        merged(*old(slot), e, *final(slot)),
{
    match slot {
        Some(prev) => {
            prev.merge(e);
        },
        None => {
            *slot = Some(e);
        },
    }
}

/// Merging an error over a chain adds one line at the end of the chain's
/// text, one link to its length and the new message after the others.
pub proof fn lemma_merge_appends(after: InnerError, newest: InnerError, before: InnerError)
    requires
        chained_over(after, newest, before),
    ensures
        chain_text(after) == chain_text(before) + "\n"@ + link_text(newest),
        chain_len(after) == chain_len(before) + 1,
        chain_messages(after) == chain_messages(before).push(newest.message@),
{
    assert(link_text(after) == link_text(newest));
}

} // verus!
