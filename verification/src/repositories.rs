//! The per-conversation stores: one namespace and one session per
//! conversation identifier, with last-writer-wins updates.

use std::collections::BTreeMap;

use vstd::prelude::*;

use crate::chat_id::ChatId;
use crate::chat_session::ChatSession;
use crate::filesystem::FileSystem;

verus! {

/// Keeps each conversation's session.
pub trait ChatSessionRepository {
    /// The stored sessions, by conversation identifier.
    spec fn sessions(&self) -> Map<u64, ChatSession>;

    /// The stored session of a conversation, if any.
    fn get_chat_session_by_chat_id(&self, chat_id: &ChatId) -> (r: Option<ChatSession>)
        ensures
            r matches Some(cs) ==> self.sessions().contains_key(chat_id.0) && cs@
                == self.sessions()[chat_id.0]@,
            r is None <==> !self.sessions().contains_key(chat_id.0),
    ;

    /// Store a conversation's session, replacing any previous one.
    fn set_chat_session_by_chat_id(&mut self, chat_id: ChatId, chat_session: ChatSession)
        ensures
            final(self).sessions() == old(self).sessions().insert(chat_id.0, chat_session),
    ;

    /// How many conversations have a session.
    fn get_chat_session_count(&self) -> (r: u64)
        ensures
            r == self.sessions().dom().len(),
    ;
}

/// The in-memory session store.
pub struct ChatSessionRepositoryImpl {
    store: BTreeMap<u64, ChatSession>,
}

impl ChatSessionRepositoryImpl {
    /// An empty store.
    pub fn new() -> (r: Self)
        ensures
            r.sessions() == Map::<u64, ChatSession>::empty(),
    {
        ChatSessionRepositoryImpl { store: BTreeMap::new() }
    }
}

impl Default for ChatSessionRepositoryImpl {
    /// An empty store.
    fn default() -> (r: Self)
        ensures
            r.sessions() == Map::<u64, ChatSession>::empty(),
    {
        ChatSessionRepositoryImpl::new()
    }
}

impl ChatSessionRepository for ChatSessionRepositoryImpl {
    closed spec fn sessions(&self) -> Map<u64, ChatSession> {
        self.store@
    }

    fn get_chat_session_by_chat_id(&self, chat_id: &ChatId) -> (r: Option<ChatSession>) {
        match self.store.get(&chat_id.0) {
            Option::Some(cs) => Option::Some(cs.clone()),
            Option::None => Option::None,
        }
    }

    fn set_chat_session_by_chat_id(&mut self, chat_id: ChatId, chat_session: ChatSession) {
        self.store.insert(chat_id.0, chat_session);
    }

    fn get_chat_session_count(&self) -> (r: u64) {
        self.store.len() as u64
    }
}

/// Keeps each conversation's namespace.
pub trait FilesystemRepository {
    /// The stored namespaces, by conversation identifier.
    spec fn filesystems(&self) -> Map<u64, FileSystem>;

    /// The stored namespace of a conversation, if any.
    fn get_filesystem_by_chat_id(&self, chat_id: &ChatId) -> (r: Option<FileSystem>)
        ensures
            r matches Some(fs) ==> self.filesystems().contains_key(chat_id.0) && fs@
                == self.filesystems()[chat_id.0]@,
            r is None <==> !self.filesystems().contains_key(chat_id.0),
    ;

    /// Store a conversation's namespace, replacing any previous one.
    fn set_filesystem_by_chat_id(&mut self, chat_id: ChatId, filesystem: FileSystem)
        ensures
            final(self).filesystems() == old(self).filesystems().insert(chat_id.0, filesystem),
    ;
}

/// The in-memory namespace store.
pub struct FilesystemRepositoryImpl {
    store: BTreeMap<u64, FileSystem>,
}

impl FilesystemRepositoryImpl {
    /// An empty store.
    pub fn new() -> (r: Self)
        ensures
            r.filesystems() == Map::<u64, FileSystem>::empty(),
    {
        FilesystemRepositoryImpl { store: BTreeMap::new() }
    }
}

impl Default for FilesystemRepositoryImpl {
    /// An empty store.
    fn default() -> (r: Self)
        ensures
            r.filesystems() == Map::<u64, FileSystem>::empty(),
    {
        FilesystemRepositoryImpl::new()
    }
}

impl FilesystemRepository for FilesystemRepositoryImpl {
    closed spec fn filesystems(&self) -> Map<u64, FileSystem> {
        self.store@
    }

    fn get_filesystem_by_chat_id(&self, chat_id: &ChatId) -> (r: Option<FileSystem>) {
        match self.store.get(&chat_id.0) {
            Option::Some(fs) => Option::Some(fs.clone()),
            Option::None => Option::None,
        }
    }

    fn set_filesystem_by_chat_id(&mut self, chat_id: ChatId, filesystem: FileSystem) {
        self.store.insert(chat_id.0, filesystem);
    }
}

} // verus!
