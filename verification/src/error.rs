//! Why a stored configuration could not be read or written.

use vstd::prelude::*;

verus! {

/// A failure of reading or writing the JSON form of a configuration.
#[derive(Clone, Debug, PartialEq, Eq)]
pub enum ConfigError {
    /// The text is not JSON. Holds the parser's message.
    Syntax(String),
    /// The text is JSON, but not of the shape of a configuration.
    Shape,
    /// The JSON writer failed. Holds its message.
    Render(String),
}

impl ConfigError {
    /// The text of [`ConfigError::message`].
    pub open spec fn message_text(self) -> Seq<char> {
        match self {
            ConfigError::Syntax(message) => message@,
            ConfigError::Shape => "the document does not have the shape of a configuration"@,
            ConfigError::Render(message) => message@,
        }
    }

    /// The failure as one human-readable line: the parser's or the writer's
    /// own message, or a fixed sentence for a document of the wrong shape.
    pub fn message(&self) -> (text: String)
        ensures
            text@ == self.message_text(),
    {
        match self {
            ConfigError::Syntax(message) => message.clone(),
            ConfigError::Shape => "the document does not have the shape of a configuration"
                .to_owned(),
            ConfigError::Render(message) => message.clone(),
        }
    }
}

} // verus!
