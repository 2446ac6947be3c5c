use vstd::prelude::*;

verus! {

/// Why the mapping of one feed item failed. Every variant is terminal for
/// that single item only; sibling items of the same feed map independently.
#[derive(Debug, Clone)]
pub enum Error {
    /// The item carries no title.
    MissingTitle,
    /// The item carries no enclosure, so no byte length is available.
    MissingSize,
    /// The item carries no link.
    MissingLink,
    /// The `torznab` extension block is present but holds no attribute
    /// records at all; the payload is the key whose lookup found the block
    /// in that state.
    EmptyExtension(String),
    /// A field that must hold an unsigned decimal integer holds other text.
    ParseInt,
    /// A field that must hold a floating-point literal holds other text.
    ParseFloat,
    /// The response bytes could not be read as an RSS feed document. This is
    /// fatal to the whole search, unlike the per-item variants above.
    Feed,
}

/// The mathematical value of an [`Error`]: the same taxonomy with the key
/// of `EmptyExtension` as a character sequence.
pub ghost enum ErrorSpec {
    MissingTitle,
    MissingSize,
    MissingLink,
    EmptyExtension(Seq<char>),
    ParseInt,
    ParseFloat,
    Feed,
}

impl View for Error {
    type V = ErrorSpec;

    open spec fn view(&self) -> ErrorSpec {
        match self {
            Error::MissingTitle => ErrorSpec::MissingTitle,
            Error::MissingSize => ErrorSpec::MissingSize,
            Error::MissingLink => ErrorSpec::MissingLink,
            Error::EmptyExtension(key) => ErrorSpec::EmptyExtension(key@),
            Error::ParseInt => ErrorSpec::ParseInt,
            Error::ParseFloat => ErrorSpec::ParseFloat,
            Error::Feed => ErrorSpec::Feed,
        }
    }
}

impl Error {
    /// A short fixed description of the error kind, for callers that report
    /// failures to a user.
    pub fn describe(&self) -> (r: &'static str)
        ensures
            r@ == describe_spec(self@),
    {
        match self {
            Error::MissingTitle => "missing title",
            Error::MissingSize => "missing size",
            Error::MissingLink => "missing link",
            Error::EmptyExtension(_) => "empty extension",
            Error::ParseInt => "failed to parse integer",
            Error::ParseFloat => "failed to parse float",
            Error::Feed => "failed to read feed",
        }
    }
}

/// The description [`Error::describe`] returns for each error kind.
pub open spec fn describe_spec(e: ErrorSpec) -> Seq<char> {
    match e {
        ErrorSpec::MissingTitle => "missing title"@,
        ErrorSpec::MissingSize => "missing size"@,
        ErrorSpec::MissingLink => "missing link"@,
        ErrorSpec::EmptyExtension(_) => "empty extension"@,
        ErrorSpec::ParseInt => "failed to parse integer"@,
        ErrorSpec::ParseFloat => "failed to parse float"@,
        ErrorSpec::Feed => "failed to read feed"@,
    }
}

} // verus!
