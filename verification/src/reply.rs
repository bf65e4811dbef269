//! Response descriptors: what a turn answers with, as plain values — the
//! text, an optional button layout, whether a new message is sent or an
//! existing one edited, and an optional message to reply to.

use vstd::prelude::*;

use crate::chat_id::ChatId;
use crate::filesystem::MessageId;
use crate::keyboard::ButtonModel;
use crate::keyboard::InlineKeyboard;
use crate::messages::generic_error_message;
use crate::messages::generic_error_text;

verus! {

/// How the text is to be rendered.
#[derive(Debug, Clone, Copy, PartialEq, Eq, Structural)]
pub enum ParseMode {
    Markdown,
}

/// Mathematical model of a response descriptor.
pub ghost struct MessageParamsModel {
    pub chat_id: ChatId,
    pub edit_of: Option<MessageId>,
    pub text: Seq<char>,
    pub keyboard: Option<Seq<Seq<ButtonModel>>>,
    pub parse_mode: Option<ParseMode>,
    pub reply_to_message_id: Option<MessageId>,
}

/// A response: either a new message, or an edit of an existing one.
pub enum MessageParams {
    Send {
        chat_id: ChatId,
        text: String,
        keyboard: Option<InlineKeyboard>,
        parse_mode: Option<ParseMode>,
        reply_to_message_id: Option<MessageId>,
    },
    Edit {
        chat_id: ChatId,
        message_id: MessageId,
        text: String,
        keyboard: Option<InlineKeyboard>,
        parse_mode: Option<ParseMode>,
    },
}

impl View for MessageParams {
    type V = MessageParamsModel;

    open spec fn view(&self) -> MessageParamsModel {
        match *self {
            MessageParams::Send { chat_id, text, keyboard, parse_mode, reply_to_message_id } => MessageParamsModel {
                chat_id,
                edit_of: None,
                text: text@,
                keyboard: match keyboard {
                    Option::Some(kb) => Some(kb@),
                    Option::None => None,
                },
                parse_mode,
                reply_to_message_id,
            },
            MessageParams::Edit { chat_id, message_id, text, keyboard, parse_mode } => MessageParamsModel {
                chat_id,
                edit_of: Some(message_id),
                text: text@,
                keyboard: match keyboard {
                    Option::Some(kb) => Some(kb@),
                    Option::None => None,
                },
                parse_mode,
                reply_to_message_id: None,
            },
        }
    }
}

impl MessageParams {
    /// A fresh outgoing message: empty text, rendered as Markdown.
    pub fn new_send(chat_id: ChatId) -> (r: Self)
        ensures
            r@ == (MessageParamsModel {
                chat_id,
                edit_of: None,
                text: Seq::<char>::empty(),
                keyboard: None,
                parse_mode: Some(ParseMode::Markdown),
                reply_to_message_id: None,
            }),
    {
        let r = MessageParams::Send {
            chat_id,
            text: String::new(),
            keyboard: None,
            parse_mode: Some(ParseMode::Markdown),
            reply_to_message_id: None,
        };
        r
    }

    /// A fresh edit of the message `message_id`: empty text, Markdown.
    pub fn new_edit(chat_id: ChatId, message_id: MessageId) -> (r: Self)
        ensures
            r@ == (MessageParamsModel {
                chat_id,
                edit_of: Some(message_id),
                text: Seq::<char>::empty(),
                keyboard: None,
                parse_mode: Some(ParseMode::Markdown),
                reply_to_message_id: None,
            }),
    {
        let r = MessageParams::Edit {
            chat_id,
            message_id,
            text: String::new(),
            keyboard: None,
            parse_mode: Some(ParseMode::Markdown),
        };
        r
    }

    pub fn set_text(&mut self, text: String)
        ensures
            final(self)@ == (MessageParamsModel { text: text@, ..old(self)@ }),
    {
        match self {
            MessageParams::Send { text: t, .. } => *t = text,
            MessageParams::Edit { text: t, .. } => *t = text,
        }
    }

    pub fn set_inline_keyboard_markup(&mut self, keyboard: InlineKeyboard)
        ensures
            final(self)@ == (MessageParamsModel { keyboard: Some(keyboard@), ..old(self)@ }),
    {
        match self {
            MessageParams::Send { keyboard: k, .. } => *k = Some(keyboard),
            MessageParams::Edit { keyboard: k, .. } => *k = Some(keyboard),
        }
    }

    pub fn set_parse_mode(&mut self, parse_mode: Option<ParseMode>)
        ensures
            final(self)@ == (MessageParamsModel { parse_mode, ..old(self)@ }),
    {
        match self {
            MessageParams::Send { parse_mode: p, .. } => *p = parse_mode,
            MessageParams::Edit { parse_mode: p, .. } => *p = parse_mode,
        }
    }

    /// Mark the response as a reply to `message_id`; only a new message
    /// can be one.
    pub fn set_reply_to_message_id(&mut self, message_id: MessageId) -> (r: Result<(), String>)
        ensures
            old(self)@.edit_of is None ==> r is Ok && final(self)@ == (MessageParamsModel {
                reply_to_message_id: Some(message_id),
                ..old(self)@
            }),
            old(self)@.edit_of is Some ==> (r matches Err(s) && s@
                == "editMessageText does not support reply_to_message_id"@) && *final(self) == *old(
                self,
            ),
    {
        match self {
            MessageParams::Send { reply_to_message_id: rt, .. } => {
                *rt = Some(message_id);
                Ok(())
            },
            MessageParams::Edit { .. } => Err(
                crate::filesystem::err_string("editMessageText does not support reply_to_message_id"),
            ),
        }
    }

    /// The plain-text generic failure answer.
    pub fn generic_error(chat_id: ChatId) -> (r: Self)
        ensures
            r@ == (MessageParamsModel {
                chat_id,
                edit_of: None,
                text: generic_error_text(),
                keyboard: None,
                parse_mode: None,
                reply_to_message_id: None,
            }),
    {
        let mut params = Self::new_send(chat_id);
        params.set_text(generic_error_message());
        params.set_parse_mode(None);
        params
    }
}

} // verus!
