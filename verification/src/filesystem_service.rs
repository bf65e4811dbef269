//! Loading and storing one conversation's namespace, creating the default
//! layout on first use.

use vstd::prelude::*;

use crate::chat_id::ChatId;
use crate::filesystem::default_fs;
use crate::filesystem::FileSystem;
use crate::repositories::FilesystemRepository;
use crate::repositories::FilesystemRepositoryImpl;

verus! {

/// Hands a turn its conversation's namespace, and persists it back.
pub trait FilesystemService {
    /// The stored namespaces, by conversation identifier.
    spec fn filesystems(&self) -> Map<u64, FileSystem>;

    /// The conversation's namespace; a conversation seen for the first
    /// time gets, and is stored with, the default layout stamped with the
    /// given creation time.
    fn get_or_create_filesystem(&mut self, chat_id: &ChatId, now: u64) -> (r: FileSystem)
        ensures
            old(self).filesystems().contains_key(chat_id.0) ==> r@ == old(self).filesystems()[
                chat_id.0]@ && final(self).filesystems() == old(self).filesystems(),
            !old(self).filesystems().contains_key(chat_id.0) ==> r@ == default_fs() && (exists|
                fs: FileSystem,
            |
                fs@ == default_fs() && final(self).filesystems() == old(self).filesystems().insert(
                    chat_id.0,
                    fs,
                )),
    ;

    /// Store the conversation's namespace, replacing any previous one.
    fn update_filesystem(&mut self, chat_id: &ChatId, filesystem: FileSystem)
        ensures
            final(self).filesystems() == old(self).filesystems().insert(chat_id.0, filesystem),
    ;
}

/// The service over the in-memory repository.
pub struct FilesystemServiceImpl<T: FilesystemRepository> {
    filesystem_repository: T,
}

impl<T: FilesystemRepository> FilesystemServiceImpl<T> {
    /// A service over the given repository.
    pub fn new(filesystem_repository: T) -> (r: Self)
        ensures
            r.filesystems() == filesystem_repository.filesystems(),
    {
        FilesystemServiceImpl { filesystem_repository }
    }
}

impl Default for FilesystemServiceImpl<FilesystemRepositoryImpl> {
    /// A service over an empty store.
    fn default() -> (r: Self)
        ensures
            r.filesystems() == Map::<u64, FileSystem>::empty(),
    {
        FilesystemServiceImpl::new(FilesystemRepositoryImpl::new())
    }
}

impl<T: FilesystemRepository> FilesystemService for FilesystemServiceImpl<T> {
    closed spec fn filesystems(&self) -> Map<u64, FileSystem> {
        self.filesystem_repository.filesystems()
    }

    fn get_or_create_filesystem(&mut self, chat_id: &ChatId, now: u64) -> (r: FileSystem) {
        match self.filesystem_repository.get_filesystem_by_chat_id(chat_id) {
            Option::Some(filesystem) => filesystem,
            Option::None => {
                let fs = FileSystem::with_default_layout(now);
                let copy = fs.clone();
                self.filesystem_repository.set_filesystem_by_chat_id(ChatId(chat_id.0), copy);
                fs
            },
        }
    }

    fn update_filesystem(&mut self, chat_id: &ChatId, filesystem: FileSystem) {
        self.filesystem_repository.set_filesystem_by_chat_id(ChatId(chat_id.0), filesystem);
    }
}

} // verus!
