//! Whole turns: commands, button taps, free-form replies and attachments
//! driving the state machine over the store.

use infinitecloud::access_control::AccessControlServiceImpl;
use infinitecloud::chat_id::ChatId;
use infinitecloud::chat_session::ChatSession;
use infinitecloud::chat_session::ChatSessionAction;
use infinitecloud::chat_session::ChatSessionWaitReply;
use infinitecloud::chat_session_service::handle_callback_query;
use infinitecloud::chat_session_service::handle_message;
use infinitecloud::chat_session_service::CallbackEvent;
use infinitecloud::chat_session_service::ChatSessionService;
use infinitecloud::chat_session_service::ChatSessionServiceImpl;
use infinitecloud::chat_session_service::MediaInfo;
use infinitecloud::chat_session_service::MessageEvent;
use infinitecloud::filesystem::FileSystem;
use infinitecloud::fs_path::FsPath;
use infinitecloud::http::HeaderField;
use infinitecloud::http::HttpUpdateRequest;
use infinitecloud::keyboard::path_button;
use infinitecloud::keyboard::KeyboardDirectoryBuilder;
use infinitecloud::reply::MessageParams;

fn empty_message(message_id: i32) -> MessageEvent {
    MessageEvent {
        message_id,
        date: 0,
        from_first_name: None,
        command_text: None,
        text: None,
        document: None,
        photo: None,
        video: None,
        video_note: None,
        audio: None,
        voice: None,
        sticker: None,
        contact: false,
    }
}

fn command_message(message_id: i32, command: &str) -> MessageEvent {
    MessageEvent { command_text: Some(command.to_string()), ..empty_message(message_id) }
}

fn text_message(message_id: i32, text: &str) -> MessageEvent {
    MessageEvent { text: Some(text.to_string()), ..empty_message(message_id) }
}

fn tap(token: &str) -> CallbackEvent {
    CallbackEvent { data: Some(token.to_string()), message_id: Some(100), date: 0 }
}

#[test]
fn mkdir_flow() {
    // Command, select here, name the directory: the directory exists and
    // the session is back at the root with nothing pending.
    let mut fs = FileSystem::default();
    let mut cs = ChatSession::default();
    let chat_id = ChatId(1);

    let r = handle_message(&mut fs, &mut cs, chat_id, command_message(1, "/mkdir")).unwrap();
    assert!(matches!(cs.action(), Some(ChatSessionAction::MkDir(None))));
    assert!(matches!(r, MessageParams::Send { .. }));

    handle_callback_query(&mut fs, &mut cs, chat_id, tap(".")).unwrap();
    assert!(matches!(
        cs.action(),
        Some(ChatSessionAction::MkDir(Some(ChatSessionWaitReply::DirectoryName)))
    ));

    let r = handle_message(&mut fs, &mut cs, chat_id, text_message(2, "Notes")).unwrap();
    match r {
        MessageParams::Send { text, .. } => {
            assert_eq!(text, "Directory *Notes* CREATED at `/Notes`");
        },
        MessageParams::Edit { .. } => panic!("expected a new message"),
    }
    assert!(cs.action().is_none());
    assert_eq!(cs.current_path_string(), "/");
    assert!(fs.get_node(&FsPath::from_string("/Notes")).unwrap().is_directory());
}

#[test]
fn attachment_save_flow() {
    // An attachment with no active flow starts the save-file flow; the
    // name reply stores the file with its inferred extension.
    let mut fs = FileSystem::default();
    let mut cs = ChatSession::default();
    let chat_id = ChatId(1);

    let attachment = MessageEvent {
        document: Some(MediaInfo { file_size: Some(5), mime_type: Some("image/jpeg".to_string()) }),
        ..empty_message(7)
    };
    handle_message(&mut fs, &mut cs, chat_id, attachment).unwrap();
    assert!(matches!(cs.action(), Some(ChatSessionAction::SaveFile(Some(_), None))));

    handle_callback_query(&mut fs, &mut cs, chat_id, tap(".")).unwrap();
    assert!(matches!(
        cs.action(),
        Some(ChatSessionAction::SaveFile(Some(_), Some(ChatSessionWaitReply::FileName)))
    ));

    let r = handle_message(&mut fs, &mut cs, chat_id, text_message(8, "photo")).unwrap();
    match r {
        MessageParams::Send { text, .. } => {
            assert_eq!(text, "File *photo.jpg* CREATED at `/`");
        },
        MessageParams::Edit { .. } => panic!("expected a new message"),
    }
    assert!(cs.action().is_none());
    let node = fs.get_node(&FsPath::from_string("/photo.jpg")).unwrap();
    assert!(node.is_file());
    assert_eq!(node.file_message_id(), Some(7));
}

#[test]
fn text_with_no_flow_starts_save() {
    let mut fs = FileSystem::default();
    let mut cs = ChatSession::default();
    let r = handle_message(&mut fs, &mut cs, ChatId(1), text_message(3, "hello")).unwrap();
    assert!(matches!(cs.action(), Some(ChatSessionAction::SaveFile(Some(_), None))));
    assert!(matches!(r, MessageParams::Send { .. }));

    handle_callback_query(&mut fs, &mut cs, ChatId(1), tap(".")).unwrap();
    handle_message(&mut fs, &mut cs, ChatId(1), text_message(4, "note")).unwrap();
    // a pseudo text type is used verbatim as the extension
    assert!(fs.get_node(&FsPath::from_string("/note.tg+text")).unwrap().is_file());
}

#[test]
fn move_flow() {
    let mut fs = FileSystem::default();
    let mut cs = ChatSession::default();
    let chat_id = ChatId(9);
    fs.create_file(&FsPath::from_string("/Documents/a"), 1, 0, Some("text/plain".to_string()), 0)
        .unwrap();

    handle_message(&mut fs, &mut cs, chat_id, command_message(1, "/move_file")).unwrap();
    assert!(matches!(cs.action(), Some(ChatSessionAction::MoveFile(None))));

    // descend into Documents, pick the file
    handle_callback_query(&mut fs, &mut cs, chat_id, tap("/Documents")).unwrap();
    handle_callback_query(&mut fs, &mut cs, chat_id, tap("/Documents/a.txt")).unwrap();
    assert!(matches!(cs.action(), Some(ChatSessionAction::MoveFile(Some(_)))));
    assert_eq!(cs.current_path_string(), "/");

    // choose the destination: into Videos, then HERE
    handle_callback_query(&mut fs, &mut cs, chat_id, tap("/Videos")).unwrap();
    let r = handle_callback_query(&mut fs, &mut cs, chat_id, tap(".")).unwrap();
    match r {
        MessageParams::Edit { text, .. } => {
            assert_eq!(text, "File *a.txt* MOVED.\n\nFrom: `/Documents/a.txt`\nTo: `/Videos/a.txt`");
        },
        MessageParams::Send { .. } => panic!("expected an edit"),
    }
    assert!(fs.get_node(&FsPath::from_string("/Videos/a.txt")).unwrap().is_file());
    assert!(matches!(fs.get_node(&FsPath::from_string("/Documents/a.txt")), Err(e) if e == "Path not found"));
    // a completed move resets the session
    assert!(cs.action().is_none());
    assert_eq!(cs.current_path_string(), "/");
}

#[test]
fn rename_flow() {
    let mut fs = FileSystem::default();
    let mut cs = ChatSession::default();
    let chat_id = ChatId(9);
    fs.create_file(&FsPath::from_string("/Documents/a"), 1, 0, Some("text/plain".to_string()), 0)
        .unwrap();

    handle_message(&mut fs, &mut cs, chat_id, command_message(1, "/rename_file")).unwrap();
    handle_callback_query(&mut fs, &mut cs, chat_id, tap("/Documents")).unwrap();
    let r = handle_callback_query(&mut fs, &mut cs, chat_id, tap("/Documents/a.txt")).unwrap();
    assert!(matches!(r, MessageParams::Send { .. }));
    assert!(matches!(
        cs.action(),
        Some(ChatSessionAction::RenameFile(Some(ChatSessionWaitReply::FileName)))
    ));

    let r = handle_message(&mut fs, &mut cs, chat_id, text_message(2, "b.txt")).unwrap();
    match r {
        MessageParams::Send { text, .. } => {
            assert_eq!(text, "File *a.txt* RENAMED.\n\nNew name: *b.txt*\nPath: `/Documents`");
        },
        MessageParams::Edit { .. } => panic!("expected a new message"),
    }
    assert!(fs.get_node(&FsPath::from_string("/Documents/b.txt")).unwrap().is_file());
}

#[test]
fn explorer_back_button_is_unsupported() {
    // A pair outside the transition table is an error; the turn wrapper
    // discards the pending action and keeps the path.
    let mut service: ChatSessionServiceImpl<_, _> = Default::default();
    let chat_id = ChatId(3);
    service
        .handle_update_content_message(chat_id, command_message(1, "/explorer"))
        .unwrap();
    let session = service.get_or_create_chat_session(&chat_id);
    assert!(matches!(session.action(), Some(ChatSessionAction::Explorer)));

    let r = service.handle_update_content_callback_query(chat_id, tap("back-action"));
    assert!(matches!(r, Err(e) if e == "current action not supported by this action"));
    let session = service.get_or_create_chat_session(&chat_id);
    assert!(session.action().is_none());
    assert_eq!(session.current_path_string(), "/");
}

#[test]
fn callback_without_active_action_is_rejected() {
    let mut fs = FileSystem::default();
    let mut cs = ChatSession::default();
    let r = handle_callback_query(&mut fs, &mut cs, ChatId(1), tap("."));
    assert!(matches!(r, Err(e) if e == "UpdateContent::CallbackQuery: No action in chat session"));
}

#[test]
fn callback_without_data_is_rejected() {
    let mut fs = FileSystem::default();
    let mut cs = ChatSession::default();
    cs.set_action(ChatSessionAction::Explorer);
    let r = handle_callback_query(
        &mut fs,
        &mut cs,
        ChatId(1),
        CallbackEvent { data: None, message_id: Some(1), date: 0 },
    );
    assert!(matches!(r, Err(e) if e == "Data not found in callback query"));
}

#[test]
fn unsupported_reply_is_rejected() {
    // A free-form reply while the active flow awaits no name is an error;
    // the turn wrapper discards the pending action and keeps the path.
    let mut service: ChatSessionServiceImpl<_, _> = Default::default();
    let chat_id = ChatId(4);
    service
        .handle_update_content_message(chat_id, command_message(1, "/explorer"))
        .unwrap();
    let r = service.handle_update_content_message(chat_id, text_message(2, "hello there"));
    assert!(matches!(r, Err(e) if e == "current action not supported by this action"));
    let session = service.get_or_create_chat_session(&chat_id);
    assert!(session.action().is_none());
    assert_eq!(session.current_path_string(), "/");
}

#[test]
fn empty_event_is_rejected() {
    let mut fs = FileSystem::default();
    let mut cs = ChatSession::default();
    let r = handle_message(&mut fs, &mut cs, ChatId(1), empty_message(1));
    assert!(matches!(r, Err(e) if e == "current action not supported by this action"));
}

#[test]
fn session_count() {
    let mut service: ChatSessionServiceImpl<_, _> = Default::default();
    assert_eq!(service.get_chat_sessions_count(), 0);
    service.get_or_create_chat_session(&ChatId(1));
    service.get_or_create_chat_session(&ChatId(2));
    service.get_or_create_chat_session(&ChatId(1));
    assert_eq!(service.get_chat_sessions_count(), 2);
}

#[test]
fn keyboard_directory_builder_new() {
    let filesystem = FileSystem::default();
    let path = infinitecloud::fs_path::root_path();
    let builder = KeyboardDirectoryBuilder::new(&filesystem, &path).unwrap();
    let keyboard = builder.build();

    // at the root: one row per top-level directory, no parent button
    let root_contents = filesystem.ls(&path).unwrap();
    assert_eq!(keyboard.rows.len(), root_contents.len());
    for content_path in root_contents {
        let expected = path_button(&path.join(content_path.as_str()), true);
        assert!(keyboard.rows.iter().any(|row| {
            row[0].text == expected.text && row[0].callback_token == expected.callback_token
        }));
    }
}

#[test]
fn keyboard_directory_builder_new_non_root() {
    let mut filesystem = FileSystem::default();
    let path = FsPath::from_string("/Documents");
    filesystem
        .create_file(&path.join("file-a"), 0, 0, Some("text/plain".to_string()), 0)
        .unwrap();
    let builder = KeyboardDirectoryBuilder::new(&filesystem, &path).unwrap();
    let keyboard = builder.build();

    // below the root: the parent button comes first
    assert_eq!(keyboard.rows.len(), 1);
    assert_eq!(keyboard.rows[0][0].text, "..");
    assert_eq!(keyboard.rows[0][0].callback_token, "..");
}

#[test]
fn test_keyboard_directory_builder_with_current_dir_button() {
    let filesystem = FileSystem::default();
    let path = FsPath::from_string("/");
    let mut builder = KeyboardDirectoryBuilder::new(&filesystem, &path).unwrap();
    builder.with_current_dir_button();
    let keyboard = builder.build();

    assert_eq!(keyboard.rows[0][0].text, "HERE");
    assert_eq!(keyboard.rows[0][0].callback_token, ".");
}

#[test]
fn test_keyboard_directory_builder_with_delete_dir_button() {
    let filesystem = FileSystem::default();
    let path = FsPath::from_string("/");
    let mut builder = KeyboardDirectoryBuilder::new(&filesystem, &path).unwrap();
    builder.with_delete_dir_button();
    let keyboard = builder.build();

    assert_eq!(keyboard.rows[0][0].text, "DELETE THIS DIR");
    assert_eq!(keyboard.rows[0][0].callback_token, "delete-dir-action");
}

#[test]
fn test_keyboard_directory_builder_with_files() {
    let mut filesystem = FileSystem::default();
    filesystem
        .create_file(&FsPath::from_string("/test_file"), 1, 100, Some("text/plain".to_string()), 0)
        .unwrap();
    let path = FsPath::from_string("/");
    let mut builder = KeyboardDirectoryBuilder::new(&filesystem, &path).unwrap();
    builder.with_files().unwrap();
    let keyboard = builder.build();

    let entries = filesystem.ls(&path).unwrap();
    assert_eq!(keyboard.rows.len(), entries.len());
    let last = keyboard.rows.last().unwrap();
    assert_eq!(last[0].text, "test_file.txt");
    assert_eq!(last[0].callback_token, "/test_file.txt");
}

#[test]
fn test_path_button() {
    let button = path_button(&FsPath::from_string("/test_file.txt"), false);
    assert_eq!(button.text, "test_file.txt");
    assert_eq!(button.callback_token, "/test_file.txt");

    let button = path_button(&FsPath::from_string("/test_dir/test_file.txt"), false);
    assert_eq!(button.text, "test_file.txt");
    assert_eq!(button.callback_token, "/test_dir/test_file.txt");
}

#[test]
fn test_path_button_dir() {
    let button = path_button(&FsPath::from_string("/test_dir"), true);
    assert_eq!(button.text, "DIR test_dir");
    assert_eq!(button.callback_token, "/test_dir");

    let button = path_button(&FsPath::from_string("/test_dir/nested_dir"), true);
    assert_eq!(button.text, "DIR nested_dir");
    assert_eq!(button.callback_token, "/test_dir/nested_dir");
}

#[test]
fn request_authorization() {
    let service = AccessControlServiceImpl::new("token-123".to_string());
    let authorized = HttpUpdateRequest {
        method: "POST".to_string(),
        url: "/".to_string(),
        headers: vec![HeaderField(
            "X-Telegram-Bot-Api-Secret-Token".to_string(),
            "token-123".to_string(),
        )],
        body: vec![],
    };
    assert!(service.assert_http_request_is_authorized(&authorized));

    let wrong_token = HttpUpdateRequest {
        method: "POST".to_string(),
        url: "/".to_string(),
        headers: vec![HeaderField(
            "x-telegram-bot-api-secret-token".to_string(),
            "other".to_string(),
        )],
        body: vec![],
    };
    assert!(!service.assert_http_request_is_authorized(&wrong_token));

    let no_headers = HttpUpdateRequest {
        method: "POST".to_string(),
        url: "/".to_string(),
        headers: vec![],
        body: vec![],
    };
    assert!(!service.assert_http_request_is_authorized(&no_headers));
}
