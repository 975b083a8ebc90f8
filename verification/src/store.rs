//! Reading and writing a configuration as JSON text.
//!
//! The text is parsed and printed by `serde_json`; which document a text
//! holds and which text a document gets are named by [`parsed`] and
//! [`rendered`]. Everything between a document and a [`Config`] is verified.
//! The file itself is the host's: it hands over what it read and stores what
//! it is given.

use crate::codec::{
    config_from_value, config_to_value, decode_config, encode_config, lemma_decode_encode_config,
};
use crate::config::{Config, ConfigView};
use crate::error::ConfigError;
use crate::json::{document, parse_value, parsed, render_value, rendered};
use vstd::prelude::*;
use vstd::string::to_string_from_display_ensures;

verus! {

/// The name of the file that holds the configuration, in the directory the
/// launcher is started in.
pub const CONFIG_FILE: &'static str = "config.json";

/// The configuration that a text stands for: the text is JSON and its
/// document has the shape of a configuration.
pub open spec fn decoded(text: Seq<char>) -> Option<ConfigView> {
    match parsed(text) {
        Some(doc) => decode_config(doc),
        None => None,
    }
}

/// What the parser's outcome amounts to. A value of the shape of a
/// configuration gives that configuration, any other value gives
/// [`ConfigError::Shape`], and a parser's error gives
/// [`ConfigError::Syntax`] with the error's own message.
pub fn config_from_parsed(outcome: Result<serde_json::Value, serde_json::Error>) -> (r: Result<
    Config,
    ConfigError,
>)
    ensures
        match outcome {
            Ok(value) => match decode_config(document(value)) {
                Some(config) => r matches Ok(read) && read@ == config,
                None => r == Err::<Config, ConfigError>(ConfigError::Shape),
            },
            Err(error) => r matches Err(ConfigError::Syntax(message))
                && to_string_from_display_ensures::<serde_json::Error>(&error, message),
        },
{
    match outcome {
        Ok(value) => match config_from_value(&value) {
            Some(config) => Ok(config),
            None => Err(ConfigError::Shape),
        },
        Err(error) => Err(ConfigError::Syntax(error.to_string())),
    }
}

/// Reads a configuration from JSON text.
///
/// Succeeds exactly on the texts that are JSON and whose document has the
/// shape of a configuration, and then returns the configuration the
/// document stands for. A text that is not JSON gives
/// [`ConfigError::Syntax`], JSON of another shape gives
/// [`ConfigError::Shape`].
pub fn parse_config(text: &str) -> (r: Result<Config, ConfigError>)
    ensures
        match decoded(text@) {
            Some(config) => r matches Ok(read) && read@ == config,
            None => match parsed(text@) {
                Some(_) => r == Err::<Config, ConfigError>(ConfigError::Shape),
                None => r matches Err(ConfigError::Syntax(_)),
            },
        },
{
    config_from_parsed(parse_value(text))
}

/// What the writer's outcome amounts to: its text, or
/// [`ConfigError::Render`] with the error's own message.
pub fn text_from_rendered(outcome: Result<String, serde_json::Error>) -> (r: Result<
    String,
    ConfigError,
>)
    ensures
        match outcome {
            Ok(text) => r == Ok::<String, ConfigError>(text),
            Err(error) => r matches Err(ConfigError::Render(message))
                && to_string_from_display_ensures::<serde_json::Error>(&error, message),
        },
{
    match outcome {
        Ok(text) => Ok(text),
        Err(error) => Err(ConfigError::Render(error.to_string())),
    }
}

/// Writes a configuration as pretty-printed JSON text.
///
/// The document handed to the writer is exactly [`encode_config`] of the
/// configuration. Succeeds exactly where the writer gives a text for that
/// document, and then returns that text; where the writer gives an error,
/// the result is [`ConfigError::Render`].
pub fn render_config(config: &Config) -> (r: Result<String, ConfigError>)
    ensures
        match rendered(encode_config(config@)) {
            Some(text) => r matches Ok(written) && written@ == text,
            None => r matches Err(ConfigError::Render(_)),
        },
{
    let value = config_to_value(config);
    text_from_rendered(render_value(&value))
}

/// What a read of the stored file amounts to, for the caller behind the
/// command surface, who is told of any failure by a message alone.
///
/// `contents` is what the host read, or the message of its failure to read,
/// a missing file included. A failed read is passed on as it is: no
/// configuration is made up in place of a file that could not be read. Text
/// that was read gives what [`parse_config`] gives, its error turned into
/// [`ConfigError::message`].
pub fn read_config(contents: Result<String, String>) -> (r: Result<Config, String>)
    ensures
        match contents {
            Err(message) => r == Err::<Config, String>(message),
            Ok(text) => match decoded(text@) {
                Some(config) => r matches Ok(read) && read@ == config,
                None => r matches Err(message) && (parsed(text@) is Some ==> message@
                    == ConfigError::Shape.message_text()),
            },
        },
{
    match contents {
        Err(message) => Err(message),
        Ok(text) => match parse_config(text.as_str()) {
            Ok(config) => Ok(config),
            Err(error) => Err(error.message()),
        },
    }
}

/// The text to store for a configuration, for the caller behind the command
/// surface: what [`render_config`] gives, its error turned into
/// [`ConfigError::message`]. Succeeds exactly where the writer gives a text
/// for the configuration's document, and then returns that text. The host
/// replaces the whole file with it.
pub fn write_config(config: &Config) -> (r: Result<String, String>)
    ensures
        match rendered(encode_config(config@)) {
            Some(text) => r matches Ok(written) && written@ == text,
            None => r is Err,
        },
{
    match render_config(config) {
        Ok(text) => Ok(text),
        Err(error) => Err(error.message()),
    }
}

/// Round trip through text: where the writer gives a text for a
/// configuration and the parser reads that text back as the document that
/// was written, reading the text gives the configuration again, with the
/// folders and the apps in their order and every text unchanged.
pub proof fn lemma_read_after_write(config: ConfigView)
    requires
        rendered(encode_config(config)) matches Some(text) && parsed(text) == Some(
            encode_config(config),
        ),
    ensures
        rendered(encode_config(config)) matches Some(text) && decoded(text) == Some(config),
{
    lemma_decode_encode_config(config);
}

/// Any text that the parser reads as the document written for a
/// configuration is read as that configuration.
pub proof fn lemma_decoded_of_encoding(text: Seq<char>, config: ConfigView)
    requires
        parsed(text) == Some(encode_config(config)),
    ensures
        decoded(text) == Some(config),
{
    lemma_decode_encode_config(config);
}

} // verus!
