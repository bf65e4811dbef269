//! The session, the trigger-token codec, the commands, the message
//! templates and the response descriptors.

use infinitecloud::chat_id::ChatId;
use infinitecloud::chat_session::with_clear_action_on_error;
use infinitecloud::chat_session::ChatSession;
use infinitecloud::chat_session::ChatSessionAction;
use infinitecloud::chat_session::ChatSessionWaitReply;
use infinitecloud::command::Command;
use infinitecloud::fs_path::FsPath;
use infinitecloud::http::error500;
use infinitecloud::http::ok200;
use infinitecloud::messages;
use infinitecloud::reply::MessageParams;

#[test]
fn set_current_path() {
    let mut chat_session = ChatSession::default();
    chat_session.set_current_path(FsPath::from_string("/test"));
    assert_eq!(chat_session.current_path_string(), "/test");
    chat_session.set_current_path(infinitecloud::fs_path::root_path());
    assert_eq!(chat_session.current_path_string(), "/");
}

#[test]
fn session_reset_from_any_state() {
    let mut chat_session = ChatSession::default();
    chat_session.set_current_path(FsPath::from_string("/deep/down/here"));
    chat_session.set_action(ChatSessionAction::MkDir(Some(ChatSessionWaitReply::DirectoryName)));
    chat_session.reset();
    assert_eq!(chat_session.current_path_string(), "/");
    assert!(chat_session.action().is_none());
}

#[test]
fn token_round_trip_bare_discriminants() {
    let bare = [
        ChatSessionAction::MkDir(None),
        ChatSessionAction::SaveFile(None, None),
        ChatSessionAction::CurrentDir,
        ChatSessionAction::ParentDir,
        ChatSessionAction::DeleteDir,
        ChatSessionAction::Explorer,
        ChatSessionAction::RenameFile(None),
        ChatSessionAction::MoveFile(None),
        ChatSessionAction::DeleteFile,
        ChatSessionAction::Back,
    ];
    for action in bare {
        let token = action.to_token();
        let decoded = ChatSessionAction::from_token(token.as_str());
        assert_eq!(decoded.to_token(), token);
    }
    assert!(matches!(
        ChatSessionAction::from_token("mkdir-action"),
        ChatSessionAction::MkDir(None)
    ));
    assert!(matches!(
        ChatSessionAction::from_token("save-file-action"),
        ChatSessionAction::SaveFile(None, None)
    ));
    assert!(matches!(ChatSessionAction::from_token("."), ChatSessionAction::CurrentDir));
    assert!(matches!(ChatSessionAction::from_token(".."), ChatSessionAction::ParentDir));
    assert!(matches!(
        ChatSessionAction::from_token("delete-dir-action"),
        ChatSessionAction::DeleteDir
    ));
    assert!(matches!(
        ChatSessionAction::from_token("explorer-action"),
        ChatSessionAction::Explorer
    ));
    assert!(matches!(
        ChatSessionAction::from_token("rename-file-action"),
        ChatSessionAction::RenameFile(None)
    ));
    assert!(matches!(
        ChatSessionAction::from_token("move-file-action"),
        ChatSessionAction::MoveFile(None)
    ));
    assert!(matches!(
        ChatSessionAction::from_token("delete-file-action"),
        ChatSessionAction::DeleteFile
    ));
    assert!(matches!(ChatSessionAction::from_token("back-action"), ChatSessionAction::Back));
}

#[test]
fn token_decodes_paths() {
    let decoded = ChatSessionAction::from_token("/Documents/notes.txt");
    match decoded {
        ChatSessionAction::FileOrDir(p) => {
            assert_eq!(p.to_string(), "/Documents/notes.txt");
        },
        _ => panic!("expected a path"),
    }
}

#[test]
fn beautified_labels() {
    assert_eq!(ChatSessionAction::MkDir(None).beautified(), "+ New Directory");
    assert_eq!(ChatSessionAction::CurrentDir.beautified(), "HERE");
    assert_eq!(ChatSessionAction::ParentDir.beautified(), "..");
    assert_eq!(ChatSessionAction::Back.beautified(), "<< BACK");
    assert_eq!(ChatSessionAction::Explorer.beautified(), "");
}

#[test]
fn clear_action_on_error_discards_the_action() {
    let mut chat_session = ChatSession::default();
    chat_session.set_action(ChatSessionAction::Explorer);
    let r: Result<u32, String> = with_clear_action_on_error(&mut chat_session, |cs| {
        (cs, Err("boom".to_string()))
    });
    assert_eq!(r, Err("boom".to_string()));
    assert!(chat_session.action().is_none());

    chat_session.set_action(ChatSessionAction::Explorer);
    let r: Result<u32, String> = with_clear_action_on_error(&mut chat_session, |cs| (cs, Ok(7)));
    assert_eq!(r, Ok(7));
    assert!(chat_session.action().is_some());
}

#[test]
fn command_parsing() {
    assert!(matches!(Command::parse("/start"), Some(Command::Start)));
    assert!(matches!(Command::parse("/help"), Some(Command::Help)));
    assert!(matches!(Command::parse("/info"), Some(Command::Info)));
    assert!(matches!(Command::parse("/mkdir"), Some(Command::MkDir)));
    assert!(matches!(Command::parse("/explorer"), Some(Command::Explorer)));
    assert!(matches!(Command::parse("/rename_file"), Some(Command::RenameFile)));
    assert!(matches!(Command::parse("/move_file"), Some(Command::MoveFile)));
    assert!(matches!(Command::parse("/delete_dir"), Some(Command::DeleteDir)));
    assert!(matches!(Command::parse("/delete_file"), Some(Command::DeleteFile)));
    assert!(Command::parse("/unknown").is_none());
    assert!(Command::parse("hello").is_none());
}

#[test]
fn chat_id_from() {
    let from: ChatId = 123i64.into();
    assert_eq!(from, ChatId(123));
}

#[test]
fn message_templates() {
    assert_eq!(
        messages::current_path_text("/a".to_string()),
        "CURRENT PATH:\n\n`/a`"
    );
    assert_eq!(
        messages::mkdir_message("/a".to_string()),
        "CURRENT PATH:\n\n`/a`\n\nNavigate to the directory in which you want to CREATE the new directory and click _HERE_"
    );
    assert_eq!(
        messages::created_directory_success_message("Notes".to_string(), "/Notes".to_string()),
        "Directory *Notes* CREATED at `/Notes`"
    );
    assert_eq!(
        messages::ask_rename_file_message("a.txt".to_string(), "/a.txt".to_string()),
        "RENAME *a.txt* at `/a.txt`\n\nSend me the new NAME:"
    );
    assert_eq!(
        messages::moved_file_success_message(
            "x".to_string(),
            "/a/x".to_string(),
            "/b/x".to_string()
        ),
        "File *x* MOVED.\n\nFrom: `/a/x`\nTo: `/b/x`"
    );
    assert_eq!(messages::generic_error_message(), "An error has occurred. Please try again.");
    assert_eq!(
        messages::start_message(Some("Ada".to_string())).lines().next(),
        Some("Hello Ada!")
    );
}

#[test]
fn reply_params() {
    let mut send = MessageParams::new_send(ChatId(5));
    send.set_text("hi".to_string());
    assert!(send.set_reply_to_message_id(9).is_ok());
    match send {
        MessageParams::Send { chat_id, text, reply_to_message_id, .. } => {
            assert_eq!(chat_id, ChatId(5));
            assert_eq!(text, "hi");
            assert_eq!(reply_to_message_id, Some(9));
        },
        MessageParams::Edit { .. } => panic!("expected a new message"),
    }

    let mut edit = MessageParams::new_edit(ChatId(5), 3);
    assert_eq!(
        edit.set_reply_to_message_id(9),
        Err("editMessageText does not support reply_to_message_id".to_string())
    );

    match MessageParams::generic_error(ChatId(5)) {
        MessageParams::Send { text, parse_mode, .. } => {
            assert_eq!(text, "An error has occurred. Please try again.");
            assert!(parse_mode.is_none());
        },
        MessageParams::Edit { .. } => panic!("expected a new message"),
    }
}

#[test]
fn http_responses() {
    let ok = ok200();
    assert_eq!(ok.status_code, 200);
    assert_eq!(ok.body, b"Ok".to_vec());
    assert_eq!(ok.upgrade, Some(false));

    let err = error500(Some("oh no".to_string()));
    assert_eq!(err.status_code, 500);
    assert_eq!(err.body, b"oh no".to_vec());

    let err = error500(None);
    assert_eq!(err.body, b"Internal Server Error".to_vec());
}
