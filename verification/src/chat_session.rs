//! Per-conversation state: the current working path and the workflow in
//! progress, together with the short-token codec that button taps travel
//! through. Payload-bearing state never crosses the wire: a token decodes
//! to a bare discriminant, and context is read back from the session.

use vstd::prelude::*;
use vstd::string::StringExecFns;

use crate::filesystem::node_model;
use crate::filesystem::FileSystemNode;
use crate::filesystem::NodeModel;
use crate::fs_path::path_string;
use crate::fs_path::split_segments;
use crate::fs_path::str_eq;
use crate::fs_path::FsPath;
use crate::fs_path::PathModel;

verus! {

/// What kind of name the next free-form reply is.
#[derive(Clone, Copy, PartialEq, Eq, Structural, Debug)]
pub enum ChatSessionWaitReply {
    DirectoryName,
    FileName,
}

/// The workflow in progress, with its captured context, and the transient
/// button-tap triggers.
pub enum ChatSessionAction {
    MkDir(Option<ChatSessionWaitReply>),
    SaveFile(Option<FileSystemNode>, Option<ChatSessionWaitReply>),
    CurrentDir,
    ParentDir,
    DeleteDir,
    Explorer,
    RenameFile(Option<ChatSessionWaitReply>),
    MoveFile(Option<FsPath>),
    DeleteFile,
    FileOrDir(FsPath),
    Back,
}

/// Mathematical model of an action.
pub ghost enum ActionModel {
    MkDir(Option<ChatSessionWaitReply>),
    SaveFile(Option<NodeModel>, Option<ChatSessionWaitReply>),
    CurrentDir,
    ParentDir,
    DeleteDir,
    Explorer,
    RenameFile(Option<ChatSessionWaitReply>),
    MoveFile(Option<PathModel>),
    DeleteFile,
    FileOrDir(PathModel),
    Back,
}

pub open spec fn action_model(a: ChatSessionAction) -> ActionModel {
    match a {
        ChatSessionAction::MkDir(w) => ActionModel::MkDir(w),
        ChatSessionAction::SaveFile(n, w) => ActionModel::SaveFile(
            match n {
                Option::Some(nd) => Some(node_model(nd)),
                Option::None => None,
            },
            w,
        ),
        ChatSessionAction::CurrentDir => ActionModel::CurrentDir,
        ChatSessionAction::ParentDir => ActionModel::ParentDir,
        ChatSessionAction::DeleteDir => ActionModel::DeleteDir,
        ChatSessionAction::Explorer => ActionModel::Explorer,
        ChatSessionAction::RenameFile(w) => ActionModel::RenameFile(w),
        ChatSessionAction::MoveFile(p) => ActionModel::MoveFile(
            match p {
                Option::Some(q) => Some(q@),
                Option::None => None,
            },
        ),
        ChatSessionAction::DeleteFile => ActionModel::DeleteFile,
        ChatSessionAction::FileOrDir(p) => ActionModel::FileOrDir(p@),
        ChatSessionAction::Back => ActionModel::Back,
    }
}

impl View for ChatSessionAction {
    type V = ActionModel;

    open spec fn view(&self) -> ActionModel {
        action_model(*self)
    }
}

impl Clone for ChatSessionAction {
    /// A copy with the same model.
    fn clone(&self) -> (r: Self)
        ensures
            r@ == self@,
    {
        match self {
            ChatSessionAction::MkDir(w) => ChatSessionAction::MkDir(*w),
            ChatSessionAction::SaveFile(n, w) => {
                let nc = match n {
                    Option::Some(nd) => Option::Some(nd.clone()),
                    Option::None => Option::None,
                };
                ChatSessionAction::SaveFile(nc, *w)
            },
            ChatSessionAction::CurrentDir => ChatSessionAction::CurrentDir,
            ChatSessionAction::ParentDir => ChatSessionAction::ParentDir,
            ChatSessionAction::DeleteDir => ChatSessionAction::DeleteDir,
            ChatSessionAction::Explorer => ChatSessionAction::Explorer,
            ChatSessionAction::RenameFile(w) => ChatSessionAction::RenameFile(*w),
            ChatSessionAction::MoveFile(p) => {
                let pc = match p {
                    Option::Some(q) => Option::Some(q.clone()),
                    Option::None => Option::None,
                };
                ChatSessionAction::MoveFile(pc)
            },
            ChatSessionAction::DeleteFile => ChatSessionAction::DeleteFile,
            ChatSessionAction::FileOrDir(p) => ChatSessionAction::FileOrDir(p.clone()),
            ChatSessionAction::Back => ChatSessionAction::Back,
        }
    }
}

/// The token each action travels under; payload-bearing variants encode as
/// their bare discriminant (`FileOrDir` as the literal path).
pub open spec fn token_of(a: ActionModel) -> Seq<char> {
    match a {
        ActionModel::MkDir(_) => "mkdir-action"@,
        ActionModel::SaveFile(_, _) => "save-file-action"@,
        ActionModel::CurrentDir => "."@,
        ActionModel::ParentDir => ".."@,
        ActionModel::DeleteDir => "delete-dir-action"@,
        ActionModel::Explorer => "explorer-action"@,
        ActionModel::RenameFile(_) => "rename-file-action"@,
        ActionModel::MoveFile(_) => "move-file-action"@,
        ActionModel::DeleteFile => "delete-file-action"@,
        ActionModel::FileOrDir(p) => path_string(p),
        ActionModel::Back => "back-action"@,
    }
}

/// The bare discriminant a reserved token decodes to, if it is one.
pub open spec fn decode_bare(s: Seq<char>) -> Option<ActionModel> {
    if s == "mkdir-action"@ {
        Some(ActionModel::MkDir(None))
    } else if s == "save-file-action"@ {
        Some(ActionModel::SaveFile(None, None))
    } else if s == "."@ {
        Some(ActionModel::CurrentDir)
    } else if s == ".."@ {
        Some(ActionModel::ParentDir)
    } else if s == "delete-dir-action"@ {
        Some(ActionModel::DeleteDir)
    } else if s == "explorer-action"@ {
        Some(ActionModel::Explorer)
    } else if s == "rename-file-action"@ {
        Some(ActionModel::RenameFile(None))
    } else if s == "move-file-action"@ {
        Some(ActionModel::MoveFile(None))
    } else if s == "delete-file-action"@ {
        Some(ActionModel::DeleteFile)
    } else if s == "back-action"@ {
        Some(ActionModel::Back)
    } else {
        None
    }
}

/// The action any received token stands for.
pub open spec fn decoded_action(s: Seq<char>) -> ActionModel {
    match decode_bare(s) {
        Option::Some(a) => a,
        Option::None => ActionModel::FileOrDir(
            PathModel { absolute: s.len() > 0 && s[0] == '/', segments: split_segments(s) },
        ),
    }
}

/// The actions whose token carries no payload at all.
pub open spec fn is_bare(a: ActionModel) -> bool {
    ||| a == ActionModel::MkDir(Option::<ChatSessionWaitReply>::None)
    ||| a == ActionModel::SaveFile(
        Option::<NodeModel>::None,
        Option::<ChatSessionWaitReply>::None,
    )
    ||| a == ActionModel::CurrentDir
    ||| a == ActionModel::ParentDir
    ||| a == ActionModel::DeleteDir
    ||| a == ActionModel::Explorer
    ||| a == ActionModel::RenameFile(Option::<ChatSessionWaitReply>::None)
    ||| a == ActionModel::MoveFile(Option::<PathModel>::None)
    ||| a == ActionModel::DeleteFile
    ||| a == ActionModel::Back
}

/// Decoding the encoding of a well-formed absolute path trigger gives it
/// back too: a printed path is never mistaken for a reserved token.
pub proof fn lemma_path_token_round_trip(p: PathModel)
    requires
        p.absolute,
        crate::fs_path::segs_wf(p.segments),
    ensures
        decoded_action(token_of(ActionModel::FileOrDir(p))) == ActionModel::FileOrDir(p),
{
    let tok = path_string(p);
    reveal_strlit("mkdir-action");
    reveal_strlit("save-file-action");
    reveal_strlit(".");
    reveal_strlit("..");
    reveal_strlit("delete-dir-action");
    reveal_strlit("explorer-action");
    reveal_strlit("rename-file-action");
    reveal_strlit("move-file-action");
    reveal_strlit("delete-file-action");
    reveal_strlit("back-action");
    reveal_strlit("/");
    crate::fs_path::lemma_segs_string_parse(p.segments);
    if p.segments.len() == 0 {
        assert(tok =~= seq!['/']);
        assert(tok[0] == '/');
        assert(tok != "."@);
        assert(split_segments(tok) == split_segments(tok.skip(1)));
        assert(tok.skip(1).len() == 0);
        assert(split_segments(tok) =~= p.segments);
    } else {
        assert(tok[0] == '/');
        assert("mkdir-action"@[0] == 'm');
        assert("save-file-action"@[0] == 's');
        assert("."@[0] == '.');
        assert(".."@[0] == '.');
        assert("delete-dir-action"@[0] == 'd');
        assert("explorer-action"@[0] == 'e');
        assert("rename-file-action"@[0] == 'r');
        assert("move-file-action"@[0] == 'm');
        assert("delete-file-action"@[0] == 'd');
        assert("back-action"@[0] == 'b');
    }
}

/// Decoding the encoding of any bare-discriminant trigger gives it back.
pub proof fn lemma_token_round_trip(a: ActionModel)
    requires
        is_bare(a),
    ensures
        decode_bare(token_of(a)) == Some(a),
{
    reveal_strlit("mkdir-action");
    reveal_strlit("save-file-action");
    reveal_strlit(".");
    reveal_strlit("..");
    reveal_strlit("delete-dir-action");
    reveal_strlit("explorer-action");
    reveal_strlit("rename-file-action");
    reveal_strlit("move-file-action");
    reveal_strlit("delete-file-action");
    reveal_strlit("back-action");
    assert("mkdir-action"@.len() == 12);
    assert("save-file-action"@.len() == 16);
    assert("."@.len() == 1);
    assert(".."@.len() == 2);
    assert("delete-dir-action"@.len() == 17);
    assert("explorer-action"@.len() == 15);
    assert("rename-file-action"@.len() == 18);
    assert("move-file-action"@.len() == 16);
    assert("delete-file-action"@.len() == 18);
    assert("back-action"@.len() == 11);
    assert("save-file-action"@[0] == 's' && "move-file-action"@[0] == 'm');
    assert("rename-file-action"@[0] == 'r' && "delete-file-action"@[0] == 'd');
}

impl ChatSessionAction {
    /// The short token this action is sent over the wire as.
    pub fn to_token(&self) -> (r: String)
        ensures
            r@ == token_of(self@),
    {
        match self {
            ChatSessionAction::MkDir(_) => String::from_str("mkdir-action"),
            ChatSessionAction::SaveFile(_, _) => String::from_str("save-file-action"),
            ChatSessionAction::CurrentDir => String::from_str("."),
            ChatSessionAction::ParentDir => String::from_str(".."),
            ChatSessionAction::DeleteDir => String::from_str("delete-dir-action"),
            ChatSessionAction::Explorer => String::from_str("explorer-action"),
            ChatSessionAction::RenameFile(_) => String::from_str("rename-file-action"),
            ChatSessionAction::MoveFile(_) => String::from_str("move-file-action"),
            ChatSessionAction::DeleteFile => String::from_str("delete-file-action"),
            ChatSessionAction::FileOrDir(p) => p.to_string(),
            ChatSessionAction::Back => String::from_str("back-action"),
        }
    }

    /// The action a received token stands for: a reserved token gives its
    /// bare discriminant, anything else names a file or directory.
    pub fn from_token(s: &str) -> (r: ChatSessionAction)
        ensures
            match decode_bare(s@) {
                Option::Some(a) => r@ == a,
                Option::None => r@ == ActionModel::FileOrDir(
                    PathModel {
                        absolute: s@.len() > 0 && s@[0] == '/',
                        segments: split_segments(s@),
                    },
                ),
            },
    {
        if str_eq(s, "mkdir-action") {
            ChatSessionAction::MkDir(None)
        } else if str_eq(s, "save-file-action") {
            ChatSessionAction::SaveFile(None, None)
        } else if str_eq(s, ".") {
            ChatSessionAction::CurrentDir
        } else if str_eq(s, "..") {
            ChatSessionAction::ParentDir
        } else if str_eq(s, "delete-dir-action") {
            ChatSessionAction::DeleteDir
        } else if str_eq(s, "explorer-action") {
            ChatSessionAction::Explorer
        } else if str_eq(s, "rename-file-action") {
            ChatSessionAction::RenameFile(None)
        } else if str_eq(s, "move-file-action") {
            ChatSessionAction::MoveFile(None)
        } else if str_eq(s, "delete-file-action") {
            ChatSessionAction::DeleteFile
        } else if str_eq(s, "back-action") {
            ChatSessionAction::Back
        } else {
            ChatSessionAction::FileOrDir(FsPath::from_string(s))
        }
    }

    /// The label shown for this action on a button.
    pub fn beautified(&self) -> (r: String)
        ensures
            self@ matches ActionModel::MkDir(_) ==> r@ == "+ New Directory"@,
            self@ == ActionModel::CurrentDir ==> r@ == "HERE"@,
            self@ == ActionModel::ParentDir ==> r@ == ".."@,
            self@ == ActionModel::DeleteDir ==> r@ == "DELETE THIS DIR"@,
            self@ matches ActionModel::FileOrDir(p) ==> r@ == path_string(p),
            self@ == ActionModel::Back ==> r@ == "<< BACK"@,
            (self@ matches ActionModel::SaveFile(_, _) || self@ == ActionModel::Explorer || self@
                matches ActionModel::RenameFile(_) || self@ matches ActionModel::MoveFile(_)
                || self@ == ActionModel::DeleteFile) ==> r@ == ""@,
    {
        match self {
            ChatSessionAction::MkDir(_) => String::from_str("+ New Directory"),
            ChatSessionAction::SaveFile(_, _) => String::from_str(""),
            ChatSessionAction::CurrentDir => String::from_str("HERE"),
            ChatSessionAction::ParentDir => String::from_str(".."),
            ChatSessionAction::DeleteDir => String::from_str("DELETE THIS DIR"),
            ChatSessionAction::Explorer => String::from_str(""),
            ChatSessionAction::RenameFile(_) => String::from_str(""),
            ChatSessionAction::MoveFile(_) => String::from_str(""),
            ChatSessionAction::DeleteFile => String::from_str(""),
            ChatSessionAction::FileOrDir(p) => p.to_string(),
            ChatSessionAction::Back => String::from_str("<< BACK"),
        }
    }
}

/// Mathematical model of a session.
pub ghost struct SessionModel {
    pub current_path: PathModel,
    pub action: Option<ActionModel>,
}

/// A conversation's session: where it stands, and what it is doing.
pub struct ChatSession {
    current_path: FsPath,
    action: Option<ChatSessionAction>,
}

impl View for ChatSession {
    type V = SessionModel;

    closed spec fn view(&self) -> SessionModel {
        SessionModel {
            current_path: self.current_path@,
            action: match self.action {
                Option::Some(a) => Some(a@),
                Option::None => None,
            },
        }
    }
}

impl ChatSession {
    /// The invariant every session keeps: its current path is absolute,
    /// and a captured file node is a well-formed tree.
    pub open spec fn wf(&self) -> bool {
        &&& self@.current_path.absolute
        &&& match self@.action {
            Some(ActionModel::SaveFile(Some(nm), _)) => crate::filesystem::model_wf(nm),
            _ => true,
        }
    }

    pub fn set_action(&mut self, action: ChatSessionAction)
        ensures
            final(self)@.action == Some(action@),
            final(self)@.current_path == old(self)@.current_path,
    {
        self.action = Some(action)
    }

    /// The action in progress, if any.
    pub fn action(&self) -> (r: Option<ChatSessionAction>)
        ensures
            r matches Some(a) ==> self@.action == Some(a@),
            r is None <==> self@.action is None,
    {
        match &self.action {
            Option::Some(a) => Some(a.clone()),
            Option::None => None,
        }
    }

    pub fn clear_action(&mut self)
        ensures
            final(self)@.action is None,
            final(self)@.current_path == old(self)@.current_path,
    {
        self.action = None
    }

    pub fn current_path(&self) -> (r: &FsPath)
        ensures
            r@ == self@.current_path,
    {
        &self.current_path
    }

    pub fn current_path_string(&self) -> (r: String)
        ensures
            r@ == path_string(self@.current_path),
    {
        self.current_path.to_string()
    }

    /// Move the session to `path`, which must be absolute.
    pub fn set_current_path(&mut self, path: FsPath)
        requires
            path@.absolute,
        ensures
            final(self)@.current_path == path@,
            final(self)@.action == old(self)@.action,
            old(self).wf() ==> final(self).wf(),
    {
        self.current_path = path
    }

    /// Return to the root with no action in progress, whatever the prior
    /// state.
    pub fn reset(&mut self)
        ensures
            final(self)@ == (SessionModel {
                current_path: crate::fs_path::root_path_model(),
                action: None,
            }),
            final(self).wf(),
    {
        self.current_path = FsPath::root();
        self.action = None;
    }
}

impl ChatSession {
    /// A session reloaded from stored parts.
    pub fn from_parts(current_path: FsPath, action: Option<ChatSessionAction>) -> (r: Self)
        requires
            current_path@.absolute,
        ensures
            r@.current_path == current_path@,
            r@.action == (match action {
                Option::Some(a) => Some(a@),
                Option::None => None::<ActionModel>,
            }),
    {
        ChatSession { current_path, action }
    }
}

impl Default for ChatSession {
    /// A fresh session: at the root, with no action in progress.
    fn default() -> (r: Self)
        ensures
            r@ == (SessionModel {
                current_path: crate::fs_path::root_path_model(),
                action: None,
            }),
            r.wf(),
    {
        ChatSession { current_path: FsPath::root(), action: None }
    }
}

impl Clone for ChatSession {
    /// A copy with the same model.
    fn clone(&self) -> (r: Self)
        ensures
            r@ == self@,
    {
        let action = match &self.action {
            Option::Some(a) => Option::Some(a.clone()),
            Option::None => Option::None,
        };
        ChatSession { current_path: self.current_path.clone(), action }
    }
}

/// Run one step of a workflow on the session; if the step fails, the
/// in-progress action is discarded so the conversation is left
/// restartable, while the current path and whatever the step already
/// changed are kept.
pub fn with_clear_action_on_error<R, F: FnOnce(ChatSession) -> (ChatSession, Result<R, String>)>(
    chat_session: &mut ChatSession,
    f: F,
) -> (r: Result<R, String>)
    requires
        call_requires(f, (*old(chat_session),)),
    ensures
        exists|mid: ChatSession|
            {
                &&& #[trigger] call_ensures(f, (*old(chat_session),), (mid, r))
                &&& (r is Ok ==> *final(chat_session) == mid)
                &&& (r is Err ==> final(chat_session)@.action is None
                    && final(chat_session)@.current_path == mid@.current_path)
            },
{
    let mut taken = ChatSession::default();
    core::mem::swap(chat_session, &mut taken);
    let (stepped, result) = f(taken);
    let mut stepped = stepped;
    if result.is_err() {
        stepped.clear_action();
    }
    *chat_session = stepped;
    result
}

} // verus!
