//! The per-turn state machine: one inbound event — a command, a free-form
//! reply, an attachment, or a button tap — advances the session, may
//! mutate the namespace, and yields exactly one response descriptor.

use vstd::prelude::*;

use crate::chat_id::ChatId;
use crate::chat_session::decoded_action;
use crate::chat_session::ActionModel;
use crate::chat_session::ChatSession;
use crate::chat_session::ChatSessionAction;
use crate::chat_session::ChatSessionWaitReply;
use crate::chat_session::SessionModel;
use crate::command::command_of;
use crate::command::Command;
use crate::filesystem::err_msg;
use crate::filesystem::final_file_path;
use crate::filesystem::get_node_spec;
use crate::filesystem::insert_node_spec;
use crate::filesystem::mkdir_spec;
use crate::filesystem::model_wf;
use crate::filesystem::node_mime;
use crate::filesystem::node_model;
use crate::filesystem::remove_node_spec;
use crate::filesystem::FileSystem;
use crate::filesystem::FileSystemNode;
use crate::filesystem::MessageId;
use crate::filesystem::NodeModel;
use crate::fs_path::joined_path;
use crate::fs_path::parent_path_model;
use crate::fs_path::path_string;
use crate::fs_path::root_path_model;
use crate::fs_path::PathModel;
use crate::keyboard::back_button_model;
use crate::keyboard::builder_buttons;
use crate::keyboard::builder_new_spec;
use crate::keyboard::files_buttons;
use crate::keyboard::here_button_model;
use crate::keyboard::rows_of;
use crate::keyboard::ButtonModel;
use crate::keyboard::KeyboardDirectoryBuilder;
use crate::messages::ask_directory_name_message;
use crate::messages::ask_directory_name_message_spec;
use crate::messages::ask_file_name_message;
use crate::messages::ask_file_name_message_spec;
use crate::messages::ask_rename_file_message;
use crate::messages::ask_rename_file_message_spec;
use crate::messages::create_file_message;
use crate::messages::create_file_message_spec;
use crate::messages::created_directory_success_message;
use crate::messages::created_directory_success_message_spec;
use crate::messages::created_file_success_message;
use crate::messages::created_file_success_message_spec;
use crate::messages::explorer_file_message;
use crate::messages::explorer_file_message_spec;
use crate::messages::explorer_message;
use crate::messages::explorer_message_spec;
use crate::messages::help_message;
use crate::messages::help_text;
use crate::messages::info_message;
use crate::messages::info_text;
use crate::messages::mkdir_message;
use crate::messages::mkdir_message_spec;
use crate::messages::move_file_select_destination_message;
use crate::messages::move_file_select_destination_message_spec;
use crate::messages::move_file_select_file_message;
use crate::messages::move_file_select_file_message_spec;
use crate::messages::moved_file_success_message;
use crate::messages::moved_file_success_message_spec;
use crate::messages::rename_file_message;
use crate::messages::rename_file_message_spec;
use crate::messages::renamed_file_success_message;
use crate::messages::renamed_file_success_message_spec;
use crate::messages::start_message;
use crate::messages::start_message_text;
use crate::messages::coming_soon_message;
use crate::messages::coming_soon_text;
use crate::reply::MessageParams;
use crate::reply::MessageParamsModel;
use crate::reply::ParseMode;
use crate::repositories::ChatSessionRepository;
use crate::repositories::ChatSessionRepositoryImpl;
use crate::repositories::FilesystemRepositoryImpl;
use crate::filesystem_service::FilesystemService;
use crate::filesystem_service::FilesystemServiceImpl;
use crate::keyboard::back_inline_keyboard;

verus! {

/// The metadata an attachment arrives with.
pub struct MediaInfo {
    pub file_size: Option<u64>,
    pub mime_type: Option<String>,
}

/// Mathematical model of an attachment's metadata.
pub ghost struct MediaInfoModel {
    pub file_size: Option<u64>,
    pub mime_type: Option<Seq<char>>,
}

impl View for MediaInfo {
    type V = MediaInfoModel;

    open spec fn view(&self) -> MediaInfoModel {
        MediaInfoModel { file_size: self.file_size, mime_type: self.mime_type.deep_view() }
    }
}

/// One inbound message, reduced to the values the state machine reads:
/// the command its first entity spells, its text, at most one attachment
/// of each kind, and the clock reading the turn arrived with, which
/// stamps whatever the turn creates.
pub struct MessageEvent {
    pub message_id: MessageId,
    pub date: u64,
    pub from_first_name: Option<String>,
    pub command_text: Option<String>,
    pub text: Option<String>,
    pub document: Option<MediaInfo>,
    pub photo: Option<MediaInfo>,
    pub video: Option<MediaInfo>,
    pub video_note: Option<MediaInfo>,
    pub audio: Option<MediaInfo>,
    pub voice: Option<MediaInfo>,
    pub sticker: Option<MediaInfo>,
    pub contact: bool,
}

/// Mathematical model of an inbound message.
pub ghost struct MessageEventModel {
    pub message_id: MessageId,
    pub date: u64,
    pub from_first_name: Option<Seq<char>>,
    pub command_text: Option<Seq<char>>,
    pub text: Option<Seq<char>>,
    pub document: Option<MediaInfoModel>,
    pub photo: Option<MediaInfoModel>,
    pub video: Option<MediaInfoModel>,
    pub video_note: Option<MediaInfoModel>,
    pub audio: Option<MediaInfoModel>,
    pub voice: Option<MediaInfoModel>,
    pub sticker: Option<MediaInfoModel>,
    pub contact: bool,
}

pub open spec fn media_view(m: Option<MediaInfo>) -> Option<MediaInfoModel> {
    match m {
        Option::Some(i) => Some(i@),
        Option::None => None,
    }
}

impl View for MessageEvent {
    type V = MessageEventModel;

    open spec fn view(&self) -> MessageEventModel {
        MessageEventModel {
            message_id: self.message_id,
            date: self.date,
            from_first_name: self.from_first_name.deep_view(),
            command_text: self.command_text.deep_view(),
            text: self.text.deep_view(),
            document: media_view(self.document),
            photo: media_view(self.photo),
            video: media_view(self.video),
            video_note: media_view(self.video_note),
            audio: media_view(self.audio),
            voice: media_view(self.voice),
            sticker: media_view(self.sticker),
            contact: self.contact,
        }
    }
}

/// One button tap, reduced to the values the state machine reads, with
/// the clock reading the turn arrived with.
pub struct CallbackEvent {
    pub data: Option<String>,
    pub message_id: Option<MessageId>,
    pub date: u64,
}

/// Mathematical model of a button tap.
pub ghost struct CallbackEventModel {
    pub data: Option<Seq<char>>,
    pub message_id: Option<MessageId>,
    pub date: u64,
}

impl View for CallbackEvent {
    type V = CallbackEventModel;

    open spec fn view(&self) -> CallbackEventModel {
        CallbackEventModel {
            data: self.data.deep_view(),
            message_id: self.message_id,
            date: self.date,
        }
    }
}

/// The command an event spells, if any.
pub open spec fn event_command(e: MessageEventModel) -> Option<Command> {
    match e.command_text {
        Option::Some(ct) => command_of(ct),
        Option::None => None,
    }
}

/// A new Markdown message.
pub open spec fn send_md(
    chat_id: ChatId,
    text: Seq<char>,
    keyboard: Option<Seq<Seq<ButtonModel>>>,
) -> MessageParamsModel {
    MessageParamsModel {
        chat_id,
        edit_of: None,
        text,
        keyboard,
        parse_mode: Some(ParseMode::Markdown),
        reply_to_message_id: None,
    }
}

/// An edit of an existing message, in Markdown.
pub open spec fn edit_md(
    chat_id: ChatId,
    message_id: MessageId,
    text: Seq<char>,
    keyboard: Option<Seq<Seq<ButtonModel>>>,
) -> MessageParamsModel {
    MessageParamsModel {
        chat_id,
        edit_of: Some(message_id),
        text,
        keyboard,
        parse_mode: Some(ParseMode::Markdown),
        reply_to_message_id: None,
    }
}

/// A fresh session: at the root with nothing in progress.
pub open spec fn reset_session() -> SessionModel {
    SessionModel { current_path: root_path_model(), action: None }
}

/// The keyboard that navigates directories and offers `HERE`.
pub open spec fn here_kb(fsm: NodeModel, p: PathModel) -> Seq<Seq<ButtonModel>> {
    rows_of(seq![here_button_model()] + builder_buttons(fsm, p))
}

/// The keyboard that navigates directories and lists files.
pub open spec fn listing_kb(fsm: NodeModel, p: PathModel) -> Seq<Seq<ButtonModel>> {
    rows_of(builder_buttons(fsm, p) + files_buttons(fsm, p))
}

/// The keyboard holding only the back button.
pub open spec fn back_kb() -> Seq<Seq<ButtonModel>> {
    rows_of(seq![back_button_model()])
}

/// The session and prompt that begin saving a freshly captured file node.
pub open spec fn save_file_prompt(
    fsm: NodeModel,
    chat_id: ChatId,
    message_id: MessageId,
    file_size: Option<u64>,
    mime: Option<Seq<char>>,
) -> (SessionModel, MessageParamsModel) {
    let node = NodeModel::File {
        message_id: message_id as int,
        size: (match file_size {
            Option::Some(s) => s,
            Option::None => 0u64,
        }) as int,
        mime_type: mime,
    };
    (
        SessionModel {
            current_path: root_path_model(),
            action: Some(ActionModel::SaveFile(Some(node), None)),
        },
        send_md(
            chat_id,
            create_file_message_spec(path_string(root_path_model())),
            Some(here_kb(fsm, root_path_model())),
        ),
    )
}

/// What one inbound message does: the namespace and session afterwards,
/// and the response (or the error the turn is answered with).
pub open spec fn message_step(
    fsm: NodeModel,
    cs: SessionModel,
    chat_id: ChatId,
    e: MessageEventModel,
) -> (NodeModel, SessionModel, Result<MessageParamsModel, Seq<char>>) {
    match event_command(e) {
        Option::Some(cmd) => match cmd {
            Command::Start => (
                fsm,
                reset_session(),
                Ok(send_md(chat_id, start_message_text(e.from_first_name), None)),
            ),
            Command::Help => (fsm, reset_session(), Ok(send_md(chat_id, help_text(), None))),
            Command::Info => (fsm, reset_session(), Ok(send_md(chat_id, info_text(), None))),
            Command::MkDir => (
                fsm,
                SessionModel {
                    current_path: root_path_model(),
                    action: Some(ActionModel::MkDir(None)),
                },
                Ok(
                    send_md(
                        chat_id,
                        mkdir_message_spec(path_string(root_path_model())),
                        Some(here_kb(fsm, root_path_model())),
                    ),
                ),
            ),
            Command::Explorer => (
                fsm,
                SessionModel { current_path: root_path_model(), action: Some(ActionModel::Explorer) },
                Ok(
                    send_md(
                        chat_id,
                        explorer_message_spec(path_string(root_path_model())),
                        Some(listing_kb(fsm, root_path_model())),
                    ),
                ),
            ),
            Command::RenameFile => (
                fsm,
                SessionModel {
                    current_path: root_path_model(),
                    action: Some(ActionModel::RenameFile(None)),
                },
                Ok(
                    send_md(
                        chat_id,
                        rename_file_message_spec(path_string(root_path_model())),
                        Some(listing_kb(fsm, root_path_model())),
                    ),
                ),
            ),
            Command::MoveFile => (
                fsm,
                SessionModel {
                    current_path: root_path_model(),
                    action: Some(ActionModel::MoveFile(None)),
                },
                Ok(
                    send_md(
                        chat_id,
                        move_file_select_file_message_spec(path_string(root_path_model())),
                        Some(listing_kb(fsm, root_path_model())),
                    ),
                ),
            ),
            Command::DeleteDir => (
                fsm,
                reset_session(),
                Ok(send_md(chat_id, coming_soon_text(), None)),
            ),
            Command::DeleteFile => (
                fsm,
                reset_session(),
                Ok(send_md(chat_id, coming_soon_text(), None)),
            ),
        },
        Option::None => match e.text {
            Option::Some(t) => match cs.action {
                Option::Some(a) => match a {
                    ActionModel::MkDir(Option::Some(ChatSessionWaitReply::DirectoryName)) => {
                        let dir_path = joined_path(cs.current_path, t);
                        match mkdir_spec(fsm, dir_path) {
                            Ok(m) => (
                                m,
                                reset_session(),
                                Ok(
                                    send_md(
                                        chat_id,
                                        created_directory_success_message_spec(
                                            t,
                                            path_string(dir_path),
                                        ),
                                        None,
                                    ),
                                ),
                            ),
                            Err(er) => (fsm, cs, Err(err_msg(er))),
                        }
                    },
                    ActionModel::SaveFile(
                        Option::Some(nodem),
                        Option::Some(ChatSessionWaitReply::FileName),
                    ) => {
                        let file_path = joined_path(cs.current_path, t);
                        let fp = final_file_path(file_path, node_mime(nodem));
                        match insert_node_spec(fsm, fp, nodem) {
                            Ok(m) => (
                                m,
                                reset_session(),
                                Ok(
                                    send_md(
                                        chat_id,
                                        created_file_success_message_spec(
                                            fp.segments.last(),
                                            path_string(cs.current_path),
                                        ),
                                        None,
                                    ),
                                ),
                            ),
                            Err(er) => (fsm, cs, Err(err_msg(er))),
                        }
                    },
                    ActionModel::RenameFile(Option::Some(ChatSessionWaitReply::FileName)) => {
                        let from = cs.current_path;
                        let to = joined_path(parent_path_model(from), t);
                        let rm = remove_node_spec(fsm, from);
                        match rm.0 {
                            Err(er) => (rm.1, cs, Err(err_msg(er))),
                            Ok(moved) => match insert_node_spec(rm.1, to, moved) {
                                Ok(m2) => (
                                    m2,
                                    cs,
                                    Ok(
                                        send_md(
                                            chat_id,
                                            renamed_file_success_message_spec(
                                                from.segments.last(),
                                                t,
                                                path_string(parent_path_model(from)),
                                            ),
                                            None,
                                        ),
                                    ),
                                ),
                                Err(er) => (rm.1, cs, Err(err_msg(er))),
                            },
                        }
                    },
                    _ => (fsm, cs, Err("current action not supported by this action"@)),
                },
                Option::None => {
                    let out = save_file_prompt(
                        fsm,
                        chat_id,
                        e.message_id,
                        Some((vstd::utf8::encode_utf8(t).len() as usize) as u64),
                        Some("tg+text"@),
                    );
                    (fsm, out.0, Ok(out.1))
                },
            },
            Option::None => {
                if e.document is Some {
                    let d = e.document->0;
                    let out = save_file_prompt(fsm, chat_id, e.message_id, d.file_size, d.mime_type);
                    (fsm, out.0, Ok(out.1))
                } else if e.photo is Some {
                    let d = e.photo->0;
                    let out = save_file_prompt(
                        fsm,
                        chat_id,
                        e.message_id,
                        d.file_size,
                        Some("jpeg"@),
                    );
                    (fsm, out.0, Ok(out.1))
                } else if e.video is Some {
                    let d = e.video->0;
                    let out = save_file_prompt(fsm, chat_id, e.message_id, d.file_size, d.mime_type);
                    (fsm, out.0, Ok(out.1))
                } else if e.video_note is Some {
                    let d = e.video_note->0;
                    let out = save_file_prompt(
                        fsm,
                        chat_id,
                        e.message_id,
                        d.file_size,
                        Some("tg+video_note"@),
                    );
                    (fsm, out.0, Ok(out.1))
                } else if e.audio is Some {
                    let d = e.audio->0;
                    let out = save_file_prompt(fsm, chat_id, e.message_id, d.file_size, d.mime_type);
                    (fsm, out.0, Ok(out.1))
                } else if e.voice is Some {
                    let d = e.voice->0;
                    let out = save_file_prompt(fsm, chat_id, e.message_id, d.file_size, d.mime_type);
                    (fsm, out.0, Ok(out.1))
                } else if e.sticker is Some {
                    let d = e.sticker->0;
                    let out = save_file_prompt(
                        fsm,
                        chat_id,
                        e.message_id,
                        d.file_size,
                        Some("tg+sticker"@),
                    );
                    (fsm, out.0, Ok(out.1))
                } else if e.contact {
                    let out = save_file_prompt(fsm, chat_id, e.message_id, None, Some("tg+contact"@));
                    (fsm, out.0, Ok(out.1))
                } else {
                    (fsm, cs, Err("current action not supported by this action"@))
                }
            },
        },
    }
}


fn err_text(msg: &str) -> (r: String)
    ensures
        r@ == msg@,
{
    crate::filesystem::err_string(msg)
}

/// The error every unsupported (trigger, state) pair is answered with.
pub fn action_not_supported_error() -> (r: Result<MessageParams, String>)
    ensures
        r matches Err(s) && s@ == "current action not supported by this action"@,
{
    Err(err_text("current action not supported by this action"))
}

/// Begin saving a freshly captured file node: back to the root, capture
/// the node in the session, and prompt for a destination.
pub fn process_file_message(
    chat_session: &mut ChatSession,
    fs: &FileSystem,
    chat_id: ChatId,
    message_id: MessageId,
    file_size: Option<u64>,
    mime_type: Option<String>,
    created_at: u64,
) -> (r: Result<MessageParams, String>)
    requires
        fs.wf(),
    ensures
        ({
            let out = save_file_prompt(fs@, chat_id, message_id, file_size, mime_type.deep_view());
            &&& final(chat_session)@ == out.0
            &&& final(chat_session).wf()
            &&& r matches Ok(p) && p@ == out.1
        }),
{
    proof {
        lemma_builder_at_root_ok(fs@);
    }
    chat_session.reset();
    let size = match file_size {
        Option::Some(s) => s,
        Option::None => 0,
    };
    let file_node = FileSystemNode::new_file(message_id, size, mime_type, created_at);
    chat_session.set_action(ChatSessionAction::SaveFile(Some(file_node), None));
    let mut params = MessageParams::new_send(chat_id);
    params.set_text(create_file_message(chat_session.current_path_string()));
    let kb = match KeyboardDirectoryBuilder::new(fs, chat_session.current_path()) {
        Ok(b) => {
            let mut b = b;
            b.with_current_dir_button();
            b.build()
        },
        Err(_e) => unreached(),
    };
    params.set_inline_keyboard_markup(kb);
    Ok(params)
}

/// A fresh builder at the root always succeeds: the root is a directory.
pub proof fn lemma_builder_at_root_ok(fsm: NodeModel)
    requires
        fsm is Directory,
    ensures
        builder_new_spec(fsm, root_path_model()) is Ok,
        get_node_spec(fsm, root_path_model()) == Ok::<NodeModel, crate::filesystem::FsErr>(fsm),
{
    assert(crate::filesystem::resolve_at(fsm, root_path_model().segments) == Ok::<
        NodeModel,
        crate::filesystem::FsErr,
    >(fsm));
}

/// Advance the state machine by one inbound message; see `message_step`
/// for the exact outcome.
pub fn handle_message(
    fs: &mut FileSystem,
    chat_session: &mut ChatSession,
    chat_id: ChatId,
    msg: MessageEvent,
) -> (r: Result<MessageParams, String>)
    requires
        old(fs).wf(),
        old(chat_session).wf(),
    ensures
        final(fs).wf(),
        final(chat_session).wf(),
        ({
            let step = message_step(old(fs)@, old(chat_session)@, chat_id, msg@);
            &&& final(fs)@ == step.0
            &&& final(chat_session)@ == step.1
            &&& match step.2 {
                Ok(pm) => r matches Ok(p) && p@ == pm,
                Err(m) => r matches Err(s) && s@ == m,
            }
        }),
{
    let cmd_opt = match &msg.command_text {
        Option::Some(ct) => Command::parse(ct.as_str()),
        Option::None => None,
    };
    match cmd_opt {
        Option::Some(command) => {
            chat_session.reset();
            proof {
                lemma_builder_at_root_ok(fs@);
            }
            let mut params = MessageParams::new_send(chat_id);
            match command {
                Command::Start => {
                    params.set_text(start_message(msg.from_first_name));
                    Ok(params)
                },
                Command::Help => {
                    params.set_text(help_message());
                    Ok(params)
                },
                Command::Info => {
                    params.set_text(info_message());
                    Ok(params)
                },
                Command::MkDir => {
                    chat_session.set_action(ChatSessionAction::MkDir(None));
                    params.set_text(mkdir_message(chat_session.current_path_string()));
                    let kb = match KeyboardDirectoryBuilder::new(fs, chat_session.current_path()) {
                        Ok(b) => {
                            let mut b = b;
                            b.with_current_dir_button();
                            b.build()
                        },
                        Err(_e) => unreached(),
                    };
                    params.set_inline_keyboard_markup(kb);
                    Ok(params)
                },
                Command::Explorer => {
                    chat_session.set_action(ChatSessionAction::Explorer);
                    params.set_text(explorer_message(chat_session.current_path_string()));
                    let kb = match KeyboardDirectoryBuilder::new(fs, chat_session.current_path()) {
                        Ok(b) => {
                            let mut b = b;
                            let fr = b.with_files();
                            proof {
                                assert(fr is Ok);
                            }
                            b.build()
                        },
                        Err(_e) => unreached(),
                    };
                    params.set_inline_keyboard_markup(kb);
                    Ok(params)
                },
                Command::RenameFile => {
                    chat_session.set_action(ChatSessionAction::RenameFile(None));
                    params.set_text(rename_file_message(chat_session.current_path_string()));
                    let kb = match KeyboardDirectoryBuilder::new(fs, chat_session.current_path()) {
                        Ok(b) => {
                            let mut b = b;
                            let fr = b.with_files();
                            proof {
                                assert(fr is Ok);
                            }
                            b.build()
                        },
                        Err(_e) => unreached(),
                    };
                    params.set_inline_keyboard_markup(kb);
                    Ok(params)
                },
                Command::MoveFile => {
                    chat_session.set_action(ChatSessionAction::MoveFile(None));
                    params.set_text(move_file_select_file_message(
                        chat_session.current_path_string(),
                    ));
                    let kb = match KeyboardDirectoryBuilder::new(fs, chat_session.current_path()) {
                        Ok(b) => {
                            let mut b = b;
                            let fr = b.with_files();
                            proof {
                                assert(fr is Ok);
                            }
                            b.build()
                        },
                        Err(_e) => unreached(),
                    };
                    params.set_inline_keyboard_markup(kb);
                    Ok(params)
                },
                Command::DeleteDir => {
                    params.set_text(coming_soon_message());
                    Ok(params)
                },
                Command::DeleteFile => {
                    params.set_text(coming_soon_message());
                    Ok(params)
                },
            }
        },
        Option::None => {
            match msg.text {
                Option::Some(text) => {
                    match chat_session.action() {
                        Option::Some(current_action) => match current_action {
                            ChatSessionAction::MkDir(
                                Option::Some(ChatSessionWaitReply::DirectoryName),
                            ) => {
                                let dir_path = chat_session.current_path().join(text.as_str());
                                match fs.mkdir(&dir_path, msg.date) {
                                    Ok(_u) => {
                                        chat_session.reset();
                                        let mut params = MessageParams::new_send(chat_id);
                                        let dir_string = dir_path.to_string();
                                        params.set_text(created_directory_success_message(
                                            text,
                                            dir_string,
                                        ));
                                        Ok(params)
                                    },
                                    Err(e) => Err(e),
                                }
                            },
                            ChatSessionAction::SaveFile(
                                Option::Some(file_node),
                                Option::Some(ChatSessionWaitReply::FileName),
                            ) => {
                                proof {
                                    assert(model_wf(node_model(file_node)));
                                }
                                let dir_string = chat_session.current_path().to_string();
                                let file_path = chat_session.current_path().join(text.as_str());
                                match fs.create_file_from_node(&file_path, file_node, msg.date) {
                                    Ok(final_path) => {
                                        proof {
                                            assert(final_path@.segments.len() >= 1);
                                        }
                                        let name = match final_path.file_name() {
                                            Option::Some(n) => n,
                                            Option::None => unreached(),
                                        };
                                        chat_session.reset();
                                        let mut params = MessageParams::new_send(chat_id);
                                        params.set_text(created_file_success_message(
                                            name,
                                            dir_string,
                                        ));
                                        Ok(params)
                                    },
                                    Err(e) => Err(e),
                                }
                            },
                            ChatSessionAction::RenameFile(
                                Option::Some(ChatSessionWaitReply::FileName),
                            ) => {
                                let from_path = chat_session.current_path().clone();
                                let to_path = from_path.parent().join(text.as_str());
                                match fs.mv(&from_path, &to_path, msg.date) {
                                    Ok(_u) => {
                                        proof {
                                            assert(from_path@.segments.len() >= 1);
                                        }
                                        let old_name = match from_path.file_name() {
                                            Option::Some(n) => n,
                                            Option::None => unreached(),
                                        };
                                        let parent_string = from_path.parent().to_string();
                                        let mut params = MessageParams::new_send(chat_id);
                                        params.set_text(renamed_file_success_message(
                                            old_name,
                                            text,
                                            parent_string,
                                        ));
                                        Ok(params)
                                    },
                                    Err(e) => Err(e),
                                }
                            },
                            _ => action_not_supported_error(),
                        },
                        Option::None => {
                            let ts = text.as_str();
                            let size = ts.len() as u64;
                            process_file_message(
                                chat_session,
                                fs,
                                chat_id,
                                msg.message_id,
                                Some(size),
                                Some(err_text("tg+text")),
                                msg.date,
                            )
                        },
                    }
                },
                Option::None => {
                    if let Option::Some(document) = msg.document {
                        process_file_message(
                            chat_session,
                            fs,
                            chat_id,
                            msg.message_id,
                            document.file_size,
                            document.mime_type,
                            msg.date,
                        )
                    } else if let Option::Some(photo) = msg.photo {
                        process_file_message(
                            chat_session,
                            fs,
                            chat_id,
                            msg.message_id,
                            photo.file_size,
                            Some(err_text("jpeg")),
                            msg.date,
                        )
                    } else if let Option::Some(video) = msg.video {
                        process_file_message(
                            chat_session,
                            fs,
                            chat_id,
                            msg.message_id,
                            video.file_size,
                            video.mime_type,
                            msg.date,
                        )
                    } else if let Option::Some(video_note) = msg.video_note {
                        process_file_message(
                            chat_session,
                            fs,
                            chat_id,
                            msg.message_id,
                            video_note.file_size,
                            Some(err_text("tg+video_note")),
                            msg.date,
                        )
                    } else if let Option::Some(audio) = msg.audio {
                        process_file_message(
                            chat_session,
                            fs,
                            chat_id,
                            msg.message_id,
                            audio.file_size,
                            audio.mime_type,
                            msg.date,
                        )
                    } else if let Option::Some(voice) = msg.voice {
                        process_file_message(
                            chat_session,
                            fs,
                            chat_id,
                            msg.message_id,
                            voice.file_size,
                            voice.mime_type,
                            msg.date,
                        )
                    } else if let Option::Some(sticker) = msg.sticker {
                        process_file_message(
                            chat_session,
                            fs,
                            chat_id,
                            msg.message_id,
                            sticker.file_size,
                            Some(err_text("tg+sticker")),
                            msg.date,
                        )
                    } else if msg.contact {
                        process_file_message(
                            chat_session,
                            fs,
                            chat_id,
                            msg.message_id,
                            None,
                            Some(err_text("tg+contact")),
                            msg.date,
                        )
                    } else {
                        action_not_supported_error()
                    }
                },
            }
        },
    }
}


/// The (trigger, active-action) pairs the transition table covers; every
/// other pair is answered with an error and a discarded action.
pub open spec fn callback_supported(decoded: ActionModel, current: ActionModel) -> bool {
    match decoded {
        ActionModel::CurrentDir => {
            ||| current == ActionModel::MkDir(Option::<ChatSessionWaitReply>::None)
            ||| (current matches ActionModel::SaveFile(Some(_), Option::None))
            ||| (current matches ActionModel::MoveFile(Some(_)))
        },
        ActionModel::ParentDir => {
            ||| current == ActionModel::Explorer
            ||| (current matches ActionModel::MkDir(_))
            ||| (current matches ActionModel::SaveFile(Some(_), Option::None))
            ||| (current matches ActionModel::RenameFile(_))
            ||| (current matches ActionModel::MoveFile(_))
        },
        ActionModel::FileOrDir(_) => {
            ||| current == ActionModel::Explorer
            ||| (current matches ActionModel::MkDir(_))
            ||| (current matches ActionModel::SaveFile(Some(_), Option::None))
            ||| current == ActionModel::RenameFile(Option::<ChatSessionWaitReply>::None)
            ||| (current matches ActionModel::MoveFile(_))
        },
        ActionModel::Back => {
            ||| (current matches ActionModel::MkDir(Some(_)))
            ||| (current matches ActionModel::SaveFile(Some(_), Some(_)))
        },
        _ => false,
    }
}

/// What one button tap does: the namespace and session afterwards, and
/// the response (or the error the turn is answered with).
pub open spec fn callback_step(
    fsm: NodeModel,
    cs: SessionModel,
    chat_id: ChatId,
    q: CallbackEventModel,
) -> (NodeModel, SessionModel, Result<MessageParamsModel, Seq<char>>) {
    match q.data {
        Option::None => (fsm, cs, Err("Data not found in callback query"@)),
        Option::Some(tok) => match q.message_id {
            Option::None => (fsm, cs, Err("Message not found in callback query"@)),
            Option::Some(mid) => match cs.action {
                Option::None => (
                    fsm,
                    cs,
                    Err("UpdateContent::CallbackQuery: No action in chat session"@),
                ),
                Option::Some(current) => match decoded_action(tok) {
                    ActionModel::CurrentDir => match current {
                        ActionModel::MkDir(Option::None) => (
                            fsm,
                            SessionModel {
                                current_path: cs.current_path,
                                action: Some(
                                    ActionModel::MkDir(Some(ChatSessionWaitReply::DirectoryName)),
                                ),
                            },
                            Ok(
                                edit_md(
                                    chat_id,
                                    mid,
                                    ask_directory_name_message_spec(path_string(cs.current_path)),
                                    Some(back_kb()),
                                ),
                            ),
                        ),
                        ActionModel::SaveFile(Option::Some(nm), Option::None) => (
                            fsm,
                            SessionModel {
                                current_path: cs.current_path,
                                action: Some(
                                    ActionModel::SaveFile(
                                        Some(nm),
                                        Some(ChatSessionWaitReply::FileName),
                                    ),
                                ),
                            },
                            Ok(
                                edit_md(
                                    chat_id,
                                    mid,
                                    ask_file_name_message_spec(path_string(cs.current_path)),
                                    Some(back_kb()),
                                ),
                            ),
                        ),
                        ActionModel::MoveFile(Option::Some(fromp)) => {
                            if fromp.segments.len() == 0 {
                                (fsm, cs, Err("File name not found"@))
                            } else {
                                let name = fromp.segments.last();
                                let to = joined_path(cs.current_path, name);
                                let rm = remove_node_spec(fsm, fromp);
                                match rm.0 {
                                    Err(er) => (rm.1, cs, Err(err_msg(er))),
                                    Ok(moved) => match insert_node_spec(rm.1, to, moved) {
                                        Ok(m2) => (
                                            m2,
                                            reset_session(),
                                            Ok(
                                                edit_md(
                                                    chat_id,
                                                    mid,
                                                    moved_file_success_message_spec(
                                                        name,
                                                        path_string(fromp),
                                                        path_string(to),
                                                    ),
                                                    None,
                                                ),
                                            ),
                                        ),
                                        Err(er) => (rm.1, cs, Err(err_msg(er))),
                                    },
                                }
                            }
                        },
                        _ => (fsm, cs, Err("current action not supported by this action"@)),
                    },
                    ActionModel::ParentDir => {
                        let parentp = parent_path_model(cs.current_path);
                        match current {
                            ActionModel::Explorer => match get_node_spec(fsm, parentp) {
                                Err(er) => (fsm, cs, Err(err_msg(er))),
                                Ok(m) => {
                                    if m is Directory {
                                        (
                                            fsm,
                                            SessionModel {
                                                current_path: parentp,
                                                action: Some(ActionModel::Explorer),
                                            },
                                            Ok(
                                                edit_md(
                                                    chat_id,
                                                    mid,
                                                    explorer_message_spec(path_string(parentp)),
                                                    Some(listing_kb(fsm, parentp)),
                                                ),
                                            ),
                                        )
                                    } else {
                                        (fsm, cs, Err("Parent is not a directory"@))
                                    }
                                },
                            },
                            ActionModel::MkDir(w) => {
                                let cs1 = SessionModel {
                                    current_path: parentp,
                                    action: Some(ActionModel::MkDir(w)),
                                };
                                match builder_new_spec(fsm, parentp) {
                                    Ok(_bm) => (
                                        fsm,
                                        cs1,
                                        Ok(
                                            edit_md(
                                                chat_id,
                                                mid,
                                                mkdir_message_spec(path_string(parentp)),
                                                Some(here_kb(fsm, parentp)),
                                            ),
                                        ),
                                    ),
                                    Err(er) => (fsm, cs1, Err(err_msg(er))),
                                }
                            },
                            ActionModel::SaveFile(Option::Some(nm), Option::None) => {
                                let cs1 = SessionModel {
                                    current_path: parentp,
                                    action: Some(ActionModel::SaveFile(Some(nm), None)),
                                };
                                match builder_new_spec(fsm, parentp) {
                                    Ok(_bm) => (
                                        fsm,
                                        cs1,
                                        Ok(
                                            edit_md(
                                                chat_id,
                                                mid,
                                                create_file_message_spec(path_string(parentp)),
                                                Some(here_kb(fsm, parentp)),
                                            ),
                                        ),
                                    ),
                                    Err(er) => (fsm, cs1, Err(err_msg(er))),
                                }
                            },
                            ActionModel::RenameFile(w) => {
                                let cs1 = SessionModel {
                                    current_path: parentp,
                                    action: Some(ActionModel::RenameFile(w)),
                                };
                                match builder_new_spec(fsm, parentp) {
                                    Ok(_bm) => (
                                        fsm,
                                        cs1,
                                        Ok(
                                            edit_md(
                                                chat_id,
                                                mid,
                                                rename_file_message_spec(path_string(parentp)),
                                                Some(listing_kb(fsm, parentp)),
                                            ),
                                        ),
                                    ),
                                    Err(er) => (fsm, cs1, Err(err_msg(er))),
                                }
                            },
                            ActionModel::MoveFile(fp) => {
                                let cs1 = SessionModel {
                                    current_path: parentp,
                                    action: Some(ActionModel::MoveFile(fp)),
                                };
                                match fp {
                                    Option::Some(f) => match builder_new_spec(fsm, parentp) {
                                        Ok(_bm) => (
                                            fsm,
                                            cs1,
                                            Ok(
                                                edit_md(
                                                    chat_id,
                                                    mid,
                                                    move_file_select_destination_message_spec(
                                                        path_string(f),
                                                    ),
                                                    Some(here_kb(fsm, parentp)),
                                                ),
                                            ),
                                        ),
                                        Err(er) => (fsm, cs1, Err(err_msg(er))),
                                    },
                                    Option::None => match builder_new_spec(fsm, parentp) {
                                        Ok(_bm) => (
                                            fsm,
                                            cs1,
                                            Ok(
                                                edit_md(
                                                    chat_id,
                                                    mid,
                                                    move_file_select_file_message_spec(
                                                        path_string(parentp),
                                                    ),
                                                    Some(listing_kb(fsm, parentp)),
                                                ),
                                            ),
                                        ),
                                        Err(er) => (fsm, cs1, Err(err_msg(er))),
                                    },
                                }
                            },
                            _ => (fsm, cs, Err("current action not supported by this action"@)),
                        }
                    },
                    ActionModel::FileOrDir(p) => match current {
                        ActionModel::Explorer => match get_node_spec(fsm, p) {
                            Err(er) => (fsm, cs, Err(err_msg(er))),
                            Ok(m) => match m {
                                NodeModel::Directory { .. } => (
                                    fsm,
                                    SessionModel {
                                        current_path: p,
                                        action: Some(ActionModel::Explorer),
                                    },
                                    Ok(
                                        edit_md(
                                            chat_id,
                                            mid,
                                            explorer_message_spec(path_string(p)),
                                            Some(listing_kb(fsm, p)),
                                        ),
                                    ),
                                ),
                                NodeModel::File { message_id, .. } => {
                                    if p.segments.len() == 0 {
                                        (fsm, cs, Err("File name not found"@))
                                    } else {
                                        (
                                            fsm,
                                            cs,
                                            Ok(
                                                MessageParamsModel {
                                                    chat_id,
                                                    edit_of: None,
                                                    text: explorer_file_message_spec(
                                                        p.segments.last(),
                                                        path_string(cs.current_path),
                                                    ),
                                                    keyboard: None,
                                                    parse_mode: Some(ParseMode::Markdown),
                                                    reply_to_message_id: Some(
                                                        message_id as MessageId,
                                                    ),
                                                },
                                            ),
                                        )
                                    }
                                },
                            },
                        },
                        ActionModel::MkDir(w) => {
                            if !p.absolute {
                                (fsm, cs, Err("Path must be absolute"@))
                            } else {
                            let cs1 = SessionModel {
                                current_path: p,
                                action: Some(ActionModel::MkDir(w)),
                            };
                            match builder_new_spec(fsm, p) {
                                Ok(_bm) => (
                                    fsm,
                                    cs1,
                                    Ok(
                                        edit_md(
                                            chat_id,
                                            mid,
                                            mkdir_message_spec(path_string(p)),
                                            Some(here_kb(fsm, p)),
                                        ),
                                    ),
                                ),
                                Err(er) => (fsm, cs1, Err(err_msg(er))),
                            }
                            }
                        },
                        ActionModel::SaveFile(Option::Some(nm), Option::None) => {
                            if !p.absolute {
                                (fsm, cs, Err("Path must be absolute"@))
                            } else {
                            let cs1 = SessionModel {
                                current_path: p,
                                action: Some(ActionModel::SaveFile(Some(nm), None)),
                            };
                            match builder_new_spec(fsm, p) {
                                Ok(_bm) => (
                                    fsm,
                                    cs1,
                                    Ok(
                                        edit_md(
                                            chat_id,
                                            mid,
                                            create_file_message_spec(path_string(p)),
                                            Some(here_kb(fsm, p)),
                                        ),
                                    ),
                                ),
                                Err(er) => (fsm, cs1, Err(err_msg(er))),
                            }
                            }
                        },
                        ActionModel::RenameFile(Option::None) => match get_node_spec(fsm, p) {
                            Err(er) => (fsm, cs, Err(err_msg(er))),
                            Ok(m) => match m {
                                NodeModel::Directory { .. } => (
                                    fsm,
                                    SessionModel {
                                        current_path: p,
                                        action: Some(ActionModel::RenameFile(None)),
                                    },
                                    Ok(
                                        edit_md(
                                            chat_id,
                                            mid,
                                            rename_file_message_spec(path_string(p)),
                                            Some(listing_kb(fsm, p)),
                                        ),
                                    ),
                                ),
                                NodeModel::File { message_id, .. } => {
                                    if p.segments.len() == 0 {
                                        (fsm, cs, Err("File name not found"@))
                                    } else {
                                        (
                                            fsm,
                                            SessionModel {
                                                current_path: p,
                                                action: Some(
                                                    ActionModel::RenameFile(
                                                        Some(ChatSessionWaitReply::FileName),
                                                    ),
                                                ),
                                            },
                                            Ok(
                                                MessageParamsModel {
                                                    chat_id,
                                                    edit_of: None,
                                                    text: ask_rename_file_message_spec(
                                                        p.segments.last(),
                                                        path_string(cs.current_path),
                                                    ),
                                                    keyboard: None,
                                                    parse_mode: Some(ParseMode::Markdown),
                                                    reply_to_message_id: Some(
                                                        message_id as MessageId,
                                                    ),
                                                },
                                            ),
                                        )
                                    }
                                },
                            },
                        },
                        ActionModel::MoveFile(fp) => match get_node_spec(fsm, p) {
                            Err(er) => (fsm, cs, Err(err_msg(er))),
                            Ok(m) => match m {
                                NodeModel::Directory { .. } => {
                                    let cs1 = SessionModel {
                                        current_path: p,
                                        action: Some(ActionModel::MoveFile(fp)),
                                    };
                                    match fp {
                                        Option::Some(f) => (
                                            fsm,
                                            cs1,
                                            Ok(
                                                edit_md(
                                                    chat_id,
                                                    mid,
                                                    move_file_select_destination_message_spec(
                                                        path_string(f),
                                                    ),
                                                    Some(here_kb(fsm, p)),
                                                ),
                                            ),
                                        ),
                                        Option::None => (
                                            fsm,
                                            cs1,
                                            Ok(
                                                edit_md(
                                                    chat_id,
                                                    mid,
                                                    move_file_select_file_message_spec(
                                                        path_string(p),
                                                    ),
                                                    Some(listing_kb(fsm, p)),
                                                ),
                                            ),
                                        ),
                                    }
                                },
                                NodeModel::File { message_id, .. } => (
                                    fsm,
                                    SessionModel {
                                        current_path: root_path_model(),
                                        action: Some(ActionModel::MoveFile(Some(p))),
                                    },
                                    Ok(
                                        MessageParamsModel {
                                            chat_id,
                                            edit_of: None,
                                            text: move_file_select_destination_message_spec(
                                                path_string(p),
                                            ),
                                            keyboard: Some(here_kb(fsm, root_path_model())),
                                            parse_mode: Some(ParseMode::Markdown),
                                            reply_to_message_id: Some(message_id as MessageId),
                                        },
                                    ),
                                ),
                            },
                        },
                        _ => (fsm, cs, Err("current action not supported by this action"@)),
                    },
                    ActionModel::Back => match current {
                        ActionModel::MkDir(Option::Some(_)) => {
                            let cs1 = SessionModel {
                                current_path: cs.current_path,
                                action: Some(ActionModel::MkDir(None)),
                            };
                            match builder_new_spec(fsm, cs.current_path) {
                                Ok(_bm) => (
                                    fsm,
                                    cs1,
                                    Ok(
                                        edit_md(
                                            chat_id,
                                            mid,
                                            mkdir_message_spec(path_string(cs.current_path)),
                                            Some(here_kb(fsm, cs.current_path)),
                                        ),
                                    ),
                                ),
                                Err(er) => (fsm, cs1, Err(err_msg(er))),
                            }
                        },
                        ActionModel::SaveFile(Option::Some(nm), Option::Some(_)) => {
                            let cs1 = SessionModel {
                                current_path: cs.current_path,
                                action: Some(ActionModel::SaveFile(Some(nm), None)),
                            };
                            match builder_new_spec(fsm, cs.current_path) {
                                Ok(_bm) => (
                                    fsm,
                                    cs1,
                                    Ok(
                                        edit_md(
                                            chat_id,
                                            mid,
                                            create_file_message_spec(
                                                path_string(cs.current_path),
                                            ),
                                            Some(here_kb(fsm, cs.current_path)),
                                        ),
                                    ),
                                ),
                                Err(er) => (fsm, cs1, Err(err_msg(er))),
                            }
                        },
                        _ => (fsm, cs, Err("current action not supported by this action"@)),
                    },
                    _ => (fsm, cs, Err("invalid action"@)),
                },
            },
        },
    }
}

/// The free-form replies the transition table covers: the reply is a name
/// the active workflow is waiting for.
pub open spec fn reply_supported(current: ActionModel) -> bool {
    ||| current == ActionModel::MkDir(Some(ChatSessionWaitReply::DirectoryName))
    ||| (current matches ActionModel::SaveFile(Some(_), Some(ChatSessionWaitReply::FileName)))
    ||| current == ActionModel::RenameFile(Some(ChatSessionWaitReply::FileName))
}

/// A free-form reply while the active workflow awaits no name is answered
/// with an error, and the transition itself changes nothing; discarding
/// the pending action is the turn wrapper's doing.
pub proof fn lemma_unsupported_reply_rejected(
    fsm: NodeModel,
    cs: SessionModel,
    chat_id: ChatId,
    e: MessageEventModel,
)
    requires
        event_command(e) is None,
        e.text is Some,
        cs.action matches Some(current),
        !reply_supported(cs.action->0),
    ensures
        message_step(fsm, cs, chat_id, e).2 is Err,
        message_step(fsm, cs, chat_id, e).0 == fsm,
        message_step(fsm, cs, chat_id, e).1 == cs,
{
}

/// A pair outside the transition table is answered with an error, and the
/// transition itself changes nothing; discarding the pending action is the
/// turn wrapper's doing.
pub proof fn lemma_unsupported_pair_rejected(
    fsm: NodeModel,
    cs: SessionModel,
    chat_id: ChatId,
    q: CallbackEventModel,
)
    requires
        q.data matches Some(tok),
        q.message_id is Some,
        cs.action matches Some(current),
        !callback_supported(decoded_action(q.data->0), cs.action->0),
    ensures
        callback_step(fsm, cs, chat_id, q).2 is Err,
        callback_step(fsm, cs, chat_id, q).0 == fsm,
        callback_step(fsm, cs, chat_id, q).1 == cs,
{
}


/// Advance the state machine by one button tap; see `callback_step` for
/// the exact outcome.
pub fn handle_callback_query(
    fs: &mut FileSystem,
    chat_session: &mut ChatSession,
    chat_id: ChatId,
    query: CallbackEvent,
) -> (r: Result<MessageParams, String>)
    requires
        old(fs).wf(),
        old(chat_session).wf(),
    ensures
        final(fs).wf(),
        final(chat_session).wf(),
        ({
            let step = callback_step(old(fs)@, old(chat_session)@, chat_id, query@);
            &&& final(fs)@ == step.0
            &&& final(chat_session)@ == step.1
            &&& match step.2 {
                Ok(pm) => r matches Ok(p) && p@ == pm,
                Err(m) => r matches Err(s) && s@ == m,
            }
        }),
{
    let data = match query.data {
        Option::Some(d) => d,
        Option::None => {
            return Err(err_text("Data not found in callback query"));
        },
    };
    let message_id = match query.message_id {
        Option::Some(m) => m,
        Option::None => {
            return Err(err_text("Message not found in callback query"));
        },
    };
    let current_action = match chat_session.action() {
        Option::Some(a) => a,
        Option::None => {
            return Err(err_text("UpdateContent::CallbackQuery: No action in chat session"));
        },
    };
    let action = ChatSessionAction::from_token(data.as_str());
    let mut edit_message_params = MessageParams::new_edit(chat_id, message_id);
    match action {
        ChatSessionAction::CurrentDir => match current_action {
            ChatSessionAction::MkDir(Option::None) => {
                chat_session.set_action(ChatSessionAction::MkDir(Some(
                    ChatSessionWaitReply::DirectoryName,
                )));
                edit_message_params.set_text(ask_directory_name_message(
                    chat_session.current_path_string(),
                ));
                edit_message_params.set_inline_keyboard_markup(back_inline_keyboard());
                Ok(edit_message_params)
            },
            ChatSessionAction::SaveFile(Option::Some(file_node), Option::None) => {
                chat_session.set_action(ChatSessionAction::SaveFile(
                    Some(file_node),
                    Some(ChatSessionWaitReply::FileName),
                ));
                edit_message_params.set_text(ask_file_name_message(
                    chat_session.current_path_string(),
                ));
                edit_message_params.set_inline_keyboard_markup(back_inline_keyboard());
                Ok(edit_message_params)
            },
            ChatSessionAction::MoveFile(Option::Some(from_path)) => {
                let file_name = match from_path.file_name() {
                    Option::Some(n) => n,
                    Option::None => {
                        return Err(err_text("File name not found"));
                    },
                };
                let to_path = chat_session.current_path().join(file_name.as_str());
                match fs.mv(&from_path, &to_path, query.date) {
                    Ok(_u) => {
                        chat_session.reset();
                        let from_string = from_path.to_string();
                        let to_string = to_path.to_string();
                        edit_message_params.set_text(moved_file_success_message(
                            file_name,
                            from_string,
                            to_string,
                        ));
                        Ok(edit_message_params)
                    },
                    Err(e) => Err(e),
                }
            },
            _ => action_not_supported_error(),
        },
        ChatSessionAction::ParentDir => {
            let parent_path = chat_session.current_path().parent();
            match current_action {
                ChatSessionAction::Explorer => {
                    let node_is_dir = match fs.get_node(&parent_path) {
                        Ok(node) => node.is_directory(),
                        Err(e) => {
                            return Err(e);
                        },
                    };
                    if node_is_dir {
                        chat_session.set_current_path(parent_path);
                        edit_message_params.set_text(explorer_message(
                            chat_session.current_path_string(),
                        ));
                        let kb = match KeyboardDirectoryBuilder::new(
                            fs,
                            chat_session.current_path(),
                        ) {
                            Ok(b) => {
                                let mut b = b;
                                let fr = b.with_files();
                                proof {
                                    assert(fr is Ok);
                                }
                                b.build()
                            },
                            Err(_e) => unreached(),
                        };
                        edit_message_params.set_inline_keyboard_markup(kb);
                        Ok(edit_message_params)
                    } else {
                        Err(err_text("Parent is not a directory"))
                    }
                },
                ChatSessionAction::MkDir(w) => {
                    chat_session.set_current_path(parent_path);
                    proof {
                        assert(chat_session@.action == old(chat_session)@.action);
                    }
                    edit_message_params.set_text(mkdir_message(
                        chat_session.current_path_string(),
                    ));
                    match KeyboardDirectoryBuilder::new(fs, chat_session.current_path()) {
                        Ok(b) => {
                            let mut b = b;
                            b.with_current_dir_button();
                            edit_message_params.set_inline_keyboard_markup(b.build());
                            Ok(edit_message_params)
                        },
                        Err(e) => Err(e),
                    }
                },
                ChatSessionAction::SaveFile(Option::Some(_node), Option::None) => {
                    chat_session.set_current_path(parent_path);
                    edit_message_params.set_text(create_file_message(
                        chat_session.current_path_string(),
                    ));
                    match KeyboardDirectoryBuilder::new(fs, chat_session.current_path()) {
                        Ok(b) => {
                            let mut b = b;
                            b.with_current_dir_button();
                            edit_message_params.set_inline_keyboard_markup(b.build());
                            Ok(edit_message_params)
                        },
                        Err(e) => Err(e),
                    }
                },
                ChatSessionAction::RenameFile(_w) => {
                    chat_session.set_current_path(parent_path);
                    edit_message_params.set_text(rename_file_message(
                        chat_session.current_path_string(),
                    ));
                    match KeyboardDirectoryBuilder::new(fs, chat_session.current_path()) {
                        Ok(b) => {
                            let mut b = b;
                            let fr = b.with_files();
                            match fr {
                                Ok(_u) => {
                                    edit_message_params.set_inline_keyboard_markup(b.build());
                                    Ok(edit_message_params)
                                },
                                Err(e) => Err(e),
                            }
                        },
                        Err(e) => Err(e),
                    }
                },
                ChatSessionAction::MoveFile(from_path) => {
                    chat_session.set_current_path(parent_path);
                    match from_path {
                        Option::Some(f) => {
                            edit_message_params.set_text(move_file_select_destination_message(
                                f.to_string(),
                            ));
                            match KeyboardDirectoryBuilder::new(fs, chat_session.current_path()) {
                                Ok(b) => {
                                    let mut b = b;
                                    b.with_current_dir_button();
                                    edit_message_params.set_inline_keyboard_markup(b.build());
                                    Ok(edit_message_params)
                                },
                                Err(e) => Err(e),
                            }
                        },
                        Option::None => {
                            edit_message_params.set_text(move_file_select_file_message(
                                chat_session.current_path_string(),
                            ));
                            match KeyboardDirectoryBuilder::new(fs, chat_session.current_path()) {
                                Ok(b) => {
                                    let mut b = b;
                                    let fr = b.with_files();
                                    match fr {
                                        Ok(_u) => {
                                            edit_message_params.set_inline_keyboard_markup(
                                                b.build(),
                                            );
                                            Ok(edit_message_params)
                                        },
                                        Err(e) => Err(e),
                                    }
                                },
                                Err(e) => Err(e),
                            }
                        },
                    }
                },
                _ => action_not_supported_error(),
            }
        },
        ChatSessionAction::FileOrDir(path) => match current_action {
            ChatSessionAction::Explorer => {
                let outcome = match fs.get_node(&path) {
                    Ok(node) => {
                        if node.is_directory() {
                            Ok(None)
                        } else {
                            Ok(node.file_message_id())
                        }
                    },
                    Err(e) => Err(e),
                };
                match outcome {
                    Err(e) => Err(e),
                    Ok(Option::None) => {
                        chat_session.set_current_path(path);
                        edit_message_params.set_text(explorer_message(
                            chat_session.current_path_string(),
                        ));
                        let kb = match KeyboardDirectoryBuilder::new(
                            fs,
                            chat_session.current_path(),
                        ) {
                            Ok(b) => {
                                let mut b = b;
                                let fr = b.with_files();
                                proof {
                                    assert(fr is Ok);
                                }
                                b.build()
                            },
                            Err(_e) => unreached(),
                        };
                        edit_message_params.set_inline_keyboard_markup(kb);
                        Ok(edit_message_params)
                    },
                    Ok(Option::Some(file_message_id)) => {
                        let file_name = match path.file_name() {
                            Option::Some(n) => n,
                            Option::None => {
                                return Err(err_text("File name not found"));
                            },
                        };
                        let mut send_message_params = MessageParams::new_send(chat_id);
                        send_message_params.set_text(explorer_file_message(
                            file_name,
                            chat_session.current_path_string(),
                        ));
                        let sr = send_message_params.set_reply_to_message_id(file_message_id);
                        proof {
                            assert(sr is Ok);
                        }
                        Ok(send_message_params)
                    },
                }
            },
            ChatSessionAction::MkDir(w) => {
                if !path.is_absolute() {
                    return Err(err_text("Path must be absolute"));
                }
                chat_session.set_current_path(path);
                edit_message_params.set_text(mkdir_message(chat_session.current_path_string()));
                match KeyboardDirectoryBuilder::new(fs, chat_session.current_path()) {
                    Ok(b) => {
                        let mut b = b;
                        b.with_current_dir_button();
                        edit_message_params.set_inline_keyboard_markup(b.build());
                        Ok(edit_message_params)
                    },
                    Err(e) => Err(e),
                }
            },
            ChatSessionAction::SaveFile(Option::Some(_node), Option::None) => {
                if !path.is_absolute() {
                    return Err(err_text("Path must be absolute"));
                }
                chat_session.set_current_path(path);
                edit_message_params.set_text(create_file_message(
                    chat_session.current_path_string(),
                ));
                match KeyboardDirectoryBuilder::new(fs, chat_session.current_path()) {
                    Ok(b) => {
                        let mut b = b;
                        b.with_current_dir_button();
                        edit_message_params.set_inline_keyboard_markup(b.build());
                        Ok(edit_message_params)
                    },
                    Err(e) => Err(e),
                }
            },
            ChatSessionAction::RenameFile(Option::None) => {
                let outcome = match fs.get_node(&path) {
                    Ok(node) => {
                        if node.is_directory() {
                            Ok(None)
                        } else {
                            Ok(node.file_message_id())
                        }
                    },
                    Err(e) => Err(e),
                };
                match outcome {
                    Err(e) => Err(e),
                    Ok(Option::None) => {
                        chat_session.set_current_path(path);
                        edit_message_params.set_text(rename_file_message(
                            chat_session.current_path_string(),
                        ));
                        let kb = match KeyboardDirectoryBuilder::new(
                            fs,
                            chat_session.current_path(),
                        ) {
                            Ok(b) => {
                                let mut b = b;
                                let fr = b.with_files();
                                proof {
                                    assert(fr is Ok);
                                }
                                b.build()
                            },
                            Err(_e) => unreached(),
                        };
                        edit_message_params.set_inline_keyboard_markup(kb);
                        Ok(edit_message_params)
                    },
                    Ok(Option::Some(file_message_id)) => {
                        let file_name = match path.file_name() {
                            Option::Some(n) => n,
                            Option::None => {
                                return Err(err_text("File name not found"));
                            },
                        };
                        let mut send_message_params = MessageParams::new_send(chat_id);
                        send_message_params.set_text(ask_rename_file_message(
                            file_name,
                            chat_session.current_path_string(),
                        ));
                        let sr = send_message_params.set_reply_to_message_id(file_message_id);
                        proof {
                            assert(sr is Ok);
                        }
                        chat_session.set_current_path(path);
                        chat_session.set_action(ChatSessionAction::RenameFile(Some(
                            ChatSessionWaitReply::FileName,
                        )));
                        Ok(send_message_params)
                    },
                }
            },
            ChatSessionAction::MoveFile(from_path) => {
                let outcome = match fs.get_node(&path) {
                    Ok(node) => {
                        if node.is_directory() {
                            Ok(None)
                        } else {
                            Ok(node.file_message_id())
                        }
                    },
                    Err(e) => Err(e),
                };
                match outcome {
                    Err(e) => Err(e),
                    Ok(Option::None) => {
                        chat_session.set_current_path(path);
                        match from_path {
                            Option::Some(f) => {
                                edit_message_params.set_text(
                                    move_file_select_destination_message(f.to_string()),
                                );
                                let kb = match KeyboardDirectoryBuilder::new(
                                    fs,
                                    chat_session.current_path(),
                                ) {
                                    Ok(b) => {
                                        let mut b = b;
                                        b.with_current_dir_button();
                                        b.build()
                                    },
                                    Err(_e) => unreached(),
                                };
                                edit_message_params.set_inline_keyboard_markup(kb);
                                Ok(edit_message_params)
                            },
                            Option::None => {
                                edit_message_params.set_text(move_file_select_file_message(
                                    chat_session.current_path_string(),
                                ));
                                let kb = match KeyboardDirectoryBuilder::new(
                                    fs,
                                    chat_session.current_path(),
                                ) {
                                    Ok(b) => {
                                        let mut b = b;
                                        let fr = b.with_files();
                                        proof {
                                            assert(fr is Ok);
                                        }
                                        b.build()
                                    },
                                    Err(_e) => unreached(),
                                };
                                edit_message_params.set_inline_keyboard_markup(kb);
                                Ok(edit_message_params)
                            },
                        }
                    },
                    Ok(Option::Some(file_message_id)) => {
                        proof {
                            lemma_builder_at_root_ok(fs@);
                        }
                        chat_session.set_current_path(crate::fs_path::root_path());
                        let mut send_message_params = MessageParams::new_send(chat_id);
                        send_message_params.set_text(move_file_select_destination_message(
                            path.to_string(),
                        ));
                        let sr = send_message_params.set_reply_to_message_id(file_message_id);
                        proof {
                            assert(sr is Ok);
                        }
                        let kb = match KeyboardDirectoryBuilder::new(
                            fs,
                            chat_session.current_path(),
                        ) {
                            Ok(b) => {
                                let mut b = b;
                                b.with_current_dir_button();
                                b.build()
                            },
                            Err(_e) => unreached(),
                        };
                        send_message_params.set_inline_keyboard_markup(kb);
                        chat_session.set_action(ChatSessionAction::MoveFile(Some(path)));
                        Ok(send_message_params)
                    },
                }
            },
            _ => action_not_supported_error(),
        },
        ChatSessionAction::Back => match current_action {
            ChatSessionAction::MkDir(Option::Some(_w)) => {
                chat_session.set_action(ChatSessionAction::MkDir(None));
                edit_message_params.set_text(mkdir_message(chat_session.current_path_string()));
                match KeyboardDirectoryBuilder::new(fs, chat_session.current_path()) {
                    Ok(b) => {
                        let mut b = b;
                        b.with_current_dir_button();
                        edit_message_params.set_inline_keyboard_markup(b.build());
                        Ok(edit_message_params)
                    },
                    Err(e) => Err(e),
                }
            },
            ChatSessionAction::SaveFile(Option::Some(file_node), Option::Some(_w)) => {
                chat_session.set_action(ChatSessionAction::SaveFile(Some(file_node), None));
                edit_message_params.set_text(create_file_message(
                    chat_session.current_path_string(),
                ));
                match KeyboardDirectoryBuilder::new(fs, chat_session.current_path()) {
                    Ok(b) => {
                        let mut b = b;
                        b.with_current_dir_button();
                        edit_message_params.set_inline_keyboard_markup(b.build());
                        Ok(edit_message_params)
                    },
                    Err(e) => Err(e),
                }
            },
            _ => action_not_supported_error(),
        },
        _ => Err(err_text("invalid action")),
    }
}


/// The session a turn starts from: the stored one, else a fresh one.
pub open spec fn loaded_session(m: Map<u64, ChatSession>, id: u64) -> SessionModel {
    if m.contains_key(id) {
        m[id]@
    } else {
        reset_session()
    }
}

/// The namespace a turn starts from: the stored one, else the default
/// layout.
pub open spec fn loaded_fs(m: Map<u64, FileSystem>, id: u64) -> NodeModel {
    if m.contains_key(id) {
        m[id]@
    } else {
        crate::filesystem::default_fs()
    }
}

/// The session persisted after a turn: the stepped one, with the pending
/// action discarded when the turn failed.
pub open spec fn persisted_session(
    step: (NodeModel, SessionModel, Result<MessageParamsModel, Seq<char>>),
) -> SessionModel {
    match step.2 {
        Ok(_) => step.1,
        Err(_) => SessionModel { current_path: step.1.current_path, action: None },
    }
}

/// Runs whole turns: loads the conversation's state, feeds it one event,
/// and persists the outcome — even a failed turn's, with its pending
/// action discarded.
pub trait ChatSessionService {
    /// The stored sessions, by conversation identifier.
    spec fn sessions(&self) -> Map<u64, ChatSession>;

    /// The stored namespaces, by conversation identifier.
    spec fn filesystems(&self) -> Map<u64, FileSystem>;

    /// Everything stored is well-formed.
    spec fn inv(&self) -> bool;

    /// The conversation's session; a conversation seen for the first time
    /// gets, and is stored with, a fresh one.
    fn get_or_create_chat_session(&mut self, chat_id: &ChatId) -> (r: ChatSession)
        requires
            old(self).inv(),
        ensures
            final(self).inv(),
            final(self).filesystems() == old(self).filesystems(),
            r.wf(),
            old(self).sessions().contains_key(chat_id.0) ==> r@ == old(self).sessions()[chat_id.0]@
                && final(self).sessions() == old(self).sessions(),
            !old(self).sessions().contains_key(chat_id.0) ==> r@ == reset_session() && (exists|
                cs: ChatSession,
            |
                cs@ == reset_session() && final(self).sessions() == old(self).sessions().insert(
                    chat_id.0,
                    cs,
                )),
    ;

    /// Store the conversation's session, replacing any previous one.
    fn update_chat_session(&mut self, chat_id: ChatId, chat_session: ChatSession)
        requires
            old(self).inv(),
            chat_session.wf(),
        ensures
            final(self).inv(),
            final(self).sessions() == old(self).sessions().insert(chat_id.0, chat_session),
            final(self).filesystems() == old(self).filesystems(),
    ;

    /// How many conversations have a session.
    fn get_chat_sessions_count(&self) -> (r: u32)
        ensures
            r == self.sessions().dom().len() as u64 as u32,
    ;

    /// Run one message turn; see `message_step`, `persisted_session`.
    fn handle_update_content_message(&mut self, chat_id: ChatId, msg: MessageEvent) -> (r: Result<
        MessageParams,
        String,
    >)
        requires
            old(self).inv(),
        ensures
            final(self).inv(),
            ({
                let step = message_step(
                    loaded_fs(old(self).filesystems(), chat_id.0),
                    loaded_session(old(self).sessions(), chat_id.0),
                    chat_id,
                    msg@,
                );
                &&& exists|fsv: FileSystem, csv: ChatSession|
                    fsv@ == step.0 && csv@ == persisted_session(step) && final(self).filesystems()
                        == old(self).filesystems().insert(chat_id.0, fsv) && final(self).sessions()
                        == old(self).sessions().insert(chat_id.0, csv)
                &&& match step.2 {
                    Ok(pm) => r matches Ok(p) && p@ == pm,
                    Err(m) => r matches Err(s) && s@ == m,
                }
            }),
    ;

    /// Run one button-tap turn; see `callback_step`, `persisted_session`.
    fn handle_update_content_callback_query(&mut self, chat_id: ChatId, query: CallbackEvent) -> (r:
        Result<MessageParams, String>)
        requires
            old(self).inv(),
        ensures
            final(self).inv(),
            ({
                let step = callback_step(
                    loaded_fs(old(self).filesystems(), chat_id.0),
                    loaded_session(old(self).sessions(), chat_id.0),
                    chat_id,
                    query@,
                );
                &&& exists|fsv: FileSystem, csv: ChatSession|
                    fsv@ == step.0 && csv@ == persisted_session(step) && final(self).filesystems()
                        == old(self).filesystems().insert(chat_id.0, fsv) && final(self).sessions()
                        == old(self).sessions().insert(chat_id.0, csv)
                &&& match step.2 {
                    Ok(pm) => r matches Ok(p) && p@ == pm,
                    Err(m) => r matches Err(s) && s@ == m,
                }
            }),
    ;
}

/// The turn runner over a session repository and a namespace service.
pub struct ChatSessionServiceImpl<T: ChatSessionRepository, F: FilesystemService> {
    chat_session_repository: T,
    filesystem_service: F,
}

impl<T: ChatSessionRepository, F: FilesystemService> ChatSessionServiceImpl<T, F> {
    /// A runner over the given stores.
    pub fn new(chat_session_repository: T, filesystem_service: F) -> (r: Self)
        ensures
            r.sessions() == chat_session_repository.sessions(),
            r.filesystems() == filesystem_service.filesystems(),
    {
        ChatSessionServiceImpl { chat_session_repository, filesystem_service }
    }

    /// Persist both halves of a turn's outcome.
    pub fn save_chat_session_and_filesystem(
        &mut self,
        chat_id: ChatId,
        chat_session: ChatSession,
        filesystem: FileSystem,
    )
        requires
            old(self).inv(),
            chat_session.wf(),
            filesystem.wf(),
        ensures
            final(self).inv(),
            final(self).sessions() == old(self).sessions().insert(chat_id.0, chat_session),
            final(self).filesystems() == old(self).filesystems().insert(chat_id.0, filesystem),
    {
        self.update_chat_session(chat_id, chat_session);
        self.filesystem_service.update_filesystem(&chat_id, filesystem);
    }
}

impl Default for ChatSessionServiceImpl<
    ChatSessionRepositoryImpl,
    FilesystemServiceImpl<FilesystemRepositoryImpl>,
> {
    /// A runner over empty stores.
    fn default() -> (r: Self)
        ensures
            r.sessions() == Map::<u64, ChatSession>::empty(),
            r.filesystems() == Map::<u64, FileSystem>::empty(),
            r.inv(),
    {
        ChatSessionServiceImpl::new(
            ChatSessionRepositoryImpl::new(),
            FilesystemServiceImpl::default(),
        )
    }
}

impl<T: ChatSessionRepository, F: FilesystemService> ChatSessionService for ChatSessionServiceImpl<
    T,
    F,
> {
    closed spec fn sessions(&self) -> Map<u64, ChatSession> {
        self.chat_session_repository.sessions()
    }

    closed spec fn filesystems(&self) -> Map<u64, FileSystem> {
        self.filesystem_service.filesystems()
    }

    closed spec fn inv(&self) -> bool {
        &&& forall|k: u64|
            self.chat_session_repository.sessions().contains_key(k) ==> (
            #[trigger] self.chat_session_repository.sessions()[k]).wf()
        &&& forall|k: u64|
            self.filesystem_service.filesystems().contains_key(k) ==> (
            #[trigger] self.filesystem_service.filesystems()[k]).wf()
    }

    fn get_or_create_chat_session(&mut self, chat_id: &ChatId) -> (r: ChatSession) {
        match self.chat_session_repository.get_chat_session_by_chat_id(chat_id) {
            Option::Some(chat_session) => chat_session,
            Option::None => {
                let chat_session = ChatSession::default();
                let copy = chat_session.clone();
                self.chat_session_repository.set_chat_session_by_chat_id(ChatId(chat_id.0), copy);
                chat_session
            },
        }
    }

    fn update_chat_session(&mut self, chat_id: ChatId, chat_session: ChatSession) {
        self.chat_session_repository.set_chat_session_by_chat_id(chat_id, chat_session);
    }

    fn get_chat_sessions_count(&self) -> (r: u32) {
        self.chat_session_repository.get_chat_session_count() as u32
    }

    fn handle_update_content_message(&mut self, chat_id: ChatId, msg: MessageEvent) -> (r: Result<
        MessageParams,
        String,
    >) {
        let now = msg.date;
        let mut fs = self.filesystem_service.get_or_create_filesystem(&chat_id, now);
        proof {
            crate::filesystem::lemma_default_fs_wf();
            assert forall|k: u64|
                self.filesystem_service.filesystems().contains_key(k) implies (
            #[trigger] self.filesystem_service.filesystems()[k]).wf() by {
                if old(self).filesystems().contains_key(chat_id.0) {
                    assert(old(self).filesystems()[k].wf());
                } else {
                    let w = choose|w: FileSystem|
                        w@ == crate::filesystem::default_fs()
                            && self.filesystem_service.filesystems() == old(
                            self,
                        ).filesystems().insert(chat_id.0, w);
                    if k == chat_id.0 {
                        assert(self.filesystem_service.filesystems()[k] == w);
                    } else {
                        assert(self.filesystem_service.filesystems()[k] == old(
                            self,
                        ).filesystems()[k]);
                        assert(old(self).filesystems()[k].wf());
                    }
                }
            }
            assert(self.inv());
        }
        let mut chat_session = self.get_or_create_chat_session(&chat_id);
        proof {
            crate::filesystem::lemma_default_fs_wf();
        }
        let res = handle_message(&mut fs, &mut chat_session, chat_id, msg);
        if res.is_err() {
            chat_session.clear_action();
        }
        let ghost csv = chat_session;
        let ghost fsv = fs;
        self.save_chat_session_and_filesystem(chat_id, chat_session, fs);
        proof {
            if !old(self).filesystems().contains_key(chat_id.0) {
                assert(final(self).filesystems() =~= old(self).filesystems().insert(
                    chat_id.0,
                    fsv,
                ));
            }
            if !old(self).sessions().contains_key(chat_id.0) {
                assert(final(self).sessions() =~= old(self).sessions().insert(chat_id.0, csv));
            }
        }
        res
    }

    fn handle_update_content_callback_query(
        &mut self,
        chat_id: ChatId,
        query: CallbackEvent,
    ) -> (r: Result<MessageParams, String>) {
        let now = query.date;
        let mut fs = self.filesystem_service.get_or_create_filesystem(&chat_id, now);
        proof {
            crate::filesystem::lemma_default_fs_wf();
            assert forall|k: u64|
                self.filesystem_service.filesystems().contains_key(k) implies (
            #[trigger] self.filesystem_service.filesystems()[k]).wf() by {
                if old(self).filesystems().contains_key(chat_id.0) {
                    assert(old(self).filesystems()[k].wf());
                } else {
                    let w = choose|w: FileSystem|
                        w@ == crate::filesystem::default_fs()
                            && self.filesystem_service.filesystems() == old(
                            self,
                        ).filesystems().insert(chat_id.0, w);
                    if k == chat_id.0 {
                        assert(self.filesystem_service.filesystems()[k] == w);
                    } else {
                        assert(self.filesystem_service.filesystems()[k] == old(
                            self,
                        ).filesystems()[k]);
                        assert(old(self).filesystems()[k].wf());
                    }
                }
            }
            assert(self.inv());
        }
        let mut chat_session = self.get_or_create_chat_session(&chat_id);
        proof {
            crate::filesystem::lemma_default_fs_wf();
        }
        let res = handle_callback_query(&mut fs, &mut chat_session, chat_id, query);
        if res.is_err() {
            chat_session.clear_action();
        }
        let ghost csv = chat_session;
        let ghost fsv = fs;
        self.save_chat_session_and_filesystem(chat_id, chat_session, fs);
        proof {
            if !old(self).filesystems().contains_key(chat_id.0) {
                assert(final(self).filesystems() =~= old(self).filesystems().insert(
                    chat_id.0,
                    fsv,
                ));
            }
            if !old(self).sessions().contains_key(chat_id.0) {
                assert(final(self).sessions() =~= old(self).sessions().insert(chat_id.0, csv));
            }
        }
        res
    }
}

} // verus!
