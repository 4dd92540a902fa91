//! The errors of the library.
use vstd::prelude::*;

verus! {

/// Why a session or a request came to an end.
#[derive(Debug)]
pub enum BybitError {
    /// Told in words.
    Base(String),
    /// A message was no JSON, or not of the expected shape.
    Json(serde_json::Error),
    /// The WebSocket connection failed to send.
    Tungstenite(String),
    /// The receiving side of a channel was gone.
    ChannelSendError { underlying: String },
}

/// What an error says. What `serde_json` reported is left out.
pub ghost enum ErrorView {
    Base(Seq<char>),
    Json,
    Tungstenite(Seq<char>),
    ChannelSendError(Seq<char>),
}

impl View for BybitError {
    type V = ErrorView;

    open spec fn view(&self) -> ErrorView {
        match self {
            BybitError::Base(text) => ErrorView::Base(text@),
            BybitError::Json(_) => ErrorView::Json,
            BybitError::Tungstenite(text) => ErrorView::Tungstenite(text@),
            BybitError::ChannelSendError { underlying } => ErrorView::ChannelSendError(underlying@),
        }
    }
}

impl From<String> for BybitError {
    fn from(text: String) -> (e: Self) {
        BybitError::Base(text)
    }
}

impl vstd::std_specs::convert::FromSpecImpl<String> for BybitError {
    open spec fn obeys_from_spec() -> bool {
        true
    }

    open spec fn from_spec(text: String) -> Self {
        BybitError::Base(text)
    }
}

impl BybitError {
    /// An error told in the words of `text`.
    pub(crate) fn base(text: &str) -> (e: BybitError)
        ensures
            e@ == ErrorView::Base(text@),
    {
        BybitError::Base(text.to_owned())
    }
}

/// What an error is seen as is what it says: its kind and its words.
pub proof fn law_errors_say_what_they_hold(error: BybitError)
    ensures
        error matches BybitError::Base(text) ==> error@ == ErrorView::Base(text@),
        error is Json ==> error@ is Json,
        error matches BybitError::Tungstenite(text) ==> error@ == ErrorView::Tungstenite(text@),
        error matches BybitError::ChannelSendError { underlying } ==> error@
            == ErrorView::ChannelSendError(underlying@),
{
}

/// An error that is made of a text is told in that text.
pub proof fn law_errors_are_made_of_texts(text: String, error: BybitError)
    requires
        call_ensures(<BybitError as From<String>>::from, (text,), error),
    ensures
        error == BybitError::Base(text),
{
}

} // verus!
