//! The text encoders: what the `bottom` command answers.

use vstd::prelude::*;
use crate::text::same_text;

verus! {

/// The longest text, in characters, that fits into one message.
pub const MESSAGE_LIMIT: usize = 2000;

/// The bottom encoding of a text, as `bottomify::bottom::encode_string`
/// computes it.
pub uninterp spec fn bottom_encoded(text: Seq<char>) -> Seq<char>;

/// What `bottomify::bottom::decode_string` makes of a text: the decoded text,
/// or the description of the error.
pub uninterp spec fn bottom_decoded(text: Seq<char>) -> Result<Seq<char>, Seq<char>>;

/// The model of a result whose two sides are texts.
pub open spec fn result_text(r: Result<String, String>) -> Result<Seq<char>, Seq<char>> {
    match r {
        Ok(text) => Ok(text@),
        Err(text) => Err(text@),
    }
}

/// Calls `bottomify::bottom::encode_string`, which maps every byte of the
/// text to a fixed run of emoji. The result is a function of the text alone;
/// the contract gives it the name `bottom_encoded` and claims nothing more.
#[verifier::external_body]
fn encode(text: &str) -> (r: String)
    ensures
        r@ == bottom_encoded(text@),
{
    bottomify::bottom::encode_string(&text)
}

/// Calls `bottomify::bottom::decode_string`, which splits the text at the
/// separators and looks every piece up in a fixed table. Where a piece is
/// unknown, the error comes back as its debug text. Either way the result is
/// a function of the text alone; the contract gives it the name
/// `bottom_decoded` and claims nothing more.
#[verifier::external_body]
fn decode(text: &str) -> (r: Result<String, String>)
    ensures
        result_text(r) == bottom_decoded(text@),
{
    bottomify::bottom::decode_string(&text).map_err(|e| format!("{:?}", e))
}

/// What the `bottom` command answers.
#[derive(Clone, Debug, PartialEq, Eq)]
pub enum BottomReply {
    /// The converted text, to be shown under a title.
    Converted {
        /// The title.
        title: String,
        /// The text and what it was converted to.
        description: String,
    },
    /// The converted text does not fit into one message.
    TooLong {
        /// What to say instead.
        message: String,
    },
    /// The sub-command is neither `encode` nor `decode`.
    UnknownSubcommand {
        /// What to say instead.
        message: String,
    },
}

/// The mathematical model of [`BottomReply`].
pub ghost enum BottomReplyModel {
    Converted { title: Seq<char>, description: Seq<char> },
    TooLong { message: Seq<char> },
    UnknownSubcommand { message: Seq<char> },
}

impl View for BottomReply {
    type V = BottomReplyModel;

    open spec fn view(&self) -> BottomReplyModel {
        match self {
            BottomReply::Converted { title, description } => BottomReplyModel::Converted {
                title: title@,
                description: description@,
            },
            BottomReply::TooLong { message } => BottomReplyModel::TooLong { message: message@ },
            BottomReply::UnknownSubcommand { message } => BottomReplyModel::UnknownSubcommand {
                message: message@,
            },
        }
    }
}

/// The answer where `text` was converted to `out`: too long beyond the
/// message limit; else the text and what it became, each under its heading,
/// the plain text first when encoding and the bottom text first when
/// decoding.
pub open spec fn converted_spec(
    subcommand: Seq<char>,
    encoding: bool,
    text: Seq<char>,
    out: Seq<char>,
) -> BottomReplyModel {
    if out.len() > MESSAGE_LIMIT {
        BottomReplyModel::TooLong {
            message: "Your text was too big to encode/decode and send. Please send a shorter string."@,
        }
    } else {
        BottomReplyModel::Converted {
            title: "Bottom "@ + subcommand,
            description: if encoding {
                "**Text**\n"@ + text + "\n**Bottom**\n"@ + out
            } else {
                "**Bottom**\n"@ + text + "\n**Text**\n"@ + out
            },
        }
    }
}

/// What a failed decoding shows in the place of the decoded text.
pub open spec fn decoded_or_error(decoded: Result<Seq<char>, Seq<char>>) -> Seq<char> {
    match decoded {
        Ok(text) => text,
        Err(error) => "Error Decoding: "@ + error,
    }
}

/// The answer of the `bottom` command to a sub-command and a text.
pub open spec fn bottom_spec(subcommand: Seq<char>, text: Seq<char>) -> BottomReplyModel {
    if subcommand == "encode"@ {
        converted_spec(subcommand, true, text, bottom_encoded(text))
    } else if subcommand == "decode"@ {
        converted_spec(subcommand, false, text, decoded_or_error(bottom_decoded(text)))
    } else {
        BottomReplyModel::UnknownSubcommand {
            message: "`"@ + subcommand
                + "` is not a valid subcommand. Chose either encode or decode"@,
        }
    }
}

/// Builds the answer where `text` was converted to `out`.
pub fn converted_reply(subcommand: &str, encoding: bool, text: &str, out: &str) -> (reply:
    BottomReply)
    ensures
        reply@ == converted_spec(subcommand@, encoding, text@, out@),
{
    if out.unicode_len() > MESSAGE_LIMIT {
        return BottomReply::TooLong {
            message: String::from_str(
                "Your text was too big to encode/decode and send. Please send a shorter string.",
            ),
        };
    }
    let mut title = String::from_str("Bottom ");
    title.append(subcommand);
    let mut description;
    if encoding {
        description = String::from_str("**Text**\n");
        description.append(text);
        description.append("\n**Bottom**\n");
    } else {
        description = String::from_str("**Bottom**\n");
        description.append(text);
        description.append("\n**Text**\n");
    }
    description.append(out);
    BottomReply::Converted { title, description }
}

/// What a decoding shows: the decoded text, or the error behind a heading.
pub fn shown_decoding(decoded: Result<String, String>) -> (text: String)
    ensures
        text@ == decoded_or_error(result_text(decoded)),
{
    match decoded {
        Ok(text) => text,
        Err(error) => {
            let mut text = String::from_str("Error Decoding: ");
            text.append(error.as_str());
            text
        },
    }
}

/// Answers the `bottom` command: encodes or decodes `text` as `subcommand`
/// says.
pub fn bottom(subcommand: &str, text: &str) -> (reply: BottomReply)
    ensures
        reply@ == bottom_spec(subcommand@, text@),
{
    if same_text(subcommand, "encode") {
        let out = encode(text);
        converted_reply(subcommand, true, text, out.as_str())
    } else if same_text(subcommand, "decode") {
        let out = shown_decoding(decode(text));
        converted_reply(subcommand, false, text, out.as_str())
    } else {
        let mut message = String::from_str("`");
        message.append(subcommand);
        message.append("` is not a valid subcommand. Chose either encode or decode");
        BottomReply::UnknownSubcommand { message }
    }
}

} // verus!
