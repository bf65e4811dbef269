//! Button layouts: the inline buttons a response carries, and the builder
//! that derives them from a directory's listing.

use vstd::prelude::*;
use vstd::string::StringExecFns;

use crate::chat_session::token_of;
use crate::chat_session::ActionModel;
use crate::chat_session::ChatSessionAction;
use crate::filesystem::dir_keys;
use crate::filesystem::err_msg;
use crate::filesystem::file_keys;
use crate::filesystem::get_node_spec;
use crate::filesystem::node_model;
use crate::filesystem::FileSystem;
use crate::filesystem::FileSystemNode;
use crate::filesystem::FsErr;
use crate::filesystem::NodeModel;
use crate::fs_path::joined_path;
use crate::fs_path::path_string;
use crate::fs_path::FsPath;
use crate::fs_path::PathModel;

verus! {

/// Mathematical model of a button: its label and its callback token.
pub ghost struct ButtonModel {
    pub text: Seq<char>,
    pub token: Seq<char>,
}

/// One tappable button: a label, and the token sent back when tapped.
pub struct InlineButton {
    pub text: String,
    pub callback_token: String,
}

impl View for InlineButton {
    type V = ButtonModel;

    open spec fn view(&self) -> ButtonModel {
        ButtonModel { text: self.text@, token: self.callback_token@ }
    }
}

impl Clone for InlineButton {
    /// A copy with the same model.
    fn clone(&self) -> (r: Self)
        ensures
            r@ == self@,
    {
        InlineButton { text: self.text.clone(), callback_token: self.callback_token.clone() }
    }
}

/// A button layout: rows of buttons.
pub struct InlineKeyboard {
    pub rows: Vec<Vec<InlineButton>>,
}

pub open spec fn keyboard_model(rows: Seq<Vec<InlineButton>>) -> Seq<Seq<ButtonModel>> {
    Seq::new(rows.len(), |i: int| Seq::new(rows[i]@.len(), |j: int| rows[i]@[j]@))
}

impl View for InlineKeyboard {
    type V = Seq<Seq<ButtonModel>>;

    open spec fn view(&self) -> Seq<Seq<ButtonModel>> {
        keyboard_model(self.rows@)
    }
}

/// The button a listed entry is shown as: its own name (directories with a
/// folder mark), tapping it sends the entry's full path.
pub open spec fn path_button_model(p: PathModel, is_dir: bool) -> ButtonModel {
    let name = if p.segments.len() > 0 {
        p.segments.last()
    } else {
        Seq::<char>::empty()
    };
    ButtonModel {
        text: if is_dir {
            "DIR "@ + name
        } else {
            name
        },
        token: path_string(p),
    }
}

/// The button for a file or directory at `path`.
pub fn path_button(path: &FsPath, is_dir: bool) -> (r: InlineButton)
    ensures
        r@ == path_button_model(path@, is_dir),
{
    let name = match path.file_name() {
        Option::Some(n) => n,
        Option::None => String::new(),
    };
    let text = if is_dir {
        let mut t = String::from_str("DIR ");
        t.append(name.as_str());
        t
    } else {
        name
    };
    InlineButton { text, callback_token: path.to_string() }
}

/// The `HERE` button that selects the current directory.
pub fn current_dir_inline_button() -> (r: InlineButton)
    ensures
        r@.text == "HERE"@,
        r@.token == token_of(ActionModel::CurrentDir),
{
    let a = ChatSessionAction::CurrentDir;
    let text = a.beautified();
    InlineButton { text, callback_token: a.to_token() }
}

/// The `..` button that moves to the parent directory.
pub fn parent_dir_inline_button() -> (r: InlineButton)
    ensures
        r@.text == ".."@,
        r@.token == token_of(ActionModel::ParentDir),
{
    let a = ChatSessionAction::ParentDir;
    let text = a.beautified();
    InlineButton { text, callback_token: a.to_token() }
}

/// The button that deletes the current directory.
pub fn delete_dir_inline_button() -> (r: InlineButton)
    ensures
        r@.text == "DELETE THIS DIR"@,
        r@.token == token_of(ActionModel::DeleteDir),
{
    let a = ChatSessionAction::DeleteDir;
    let text = a.beautified();
    InlineButton { text, callback_token: a.to_token() }
}

/// The button that steps one prompt back.
pub fn back_inline_button() -> (r: InlineButton)
    ensures
        r@.text == "<< BACK"@,
        r@.token == token_of(ActionModel::Back),
{
    let a = ChatSessionAction::Back;
    let text = a.beautified();
    InlineButton { text, callback_token: a.to_token() }
}

/// A layout holding only the back button.
pub fn back_inline_keyboard() -> (r: InlineKeyboard)
    ensures
        r@ == rows_of(seq![back_button_model()]),
{
    let mut row: Vec<InlineButton> = Vec::new();
    row.push(back_inline_button());
    let mut rows: Vec<Vec<InlineButton>> = Vec::new();
    rows.push(row);
    let r = InlineKeyboard { rows };
    proof {
        assert(r@[0] =~= seq![back_button_model()]);
        assert(r@ =~= rows_of(seq![back_button_model()]));
    }
    r
}

/// The `HERE` button's model.
pub open spec fn here_button_model() -> ButtonModel {
    ButtonModel { text: "HERE"@, token: token_of(ActionModel::CurrentDir) }
}

/// The back button's model.
pub open spec fn back_button_model() -> ButtonModel {
    ButtonModel { text: "<< BACK"@, token: token_of(ActionModel::Back) }
}

/// A layout with one button per row.
pub open spec fn rows_of(buttons: Seq<ButtonModel>) -> Seq<Seq<ButtonModel>> {
    Seq::new(buttons.len(), |i: int| seq![buttons[i]])
}

/// One button per file of the directory at `p`, in listing order.
pub open spec fn files_buttons(root: NodeModel, p: PathModel) -> Seq<ButtonModel> {
    match get_node_spec(root, p) {
        Ok(m) => match m {
            NodeModel::Directory { children } => key_buttons(p, file_keys(children), false),
            NodeModel::File { .. } => Seq::empty(),
        },
        Err(_) => Seq::empty(),
    }
}

/// The buttons a fresh builder for this directory would hold.
pub open spec fn builder_buttons(root: NodeModel, p: PathModel) -> Seq<ButtonModel> {
    match builder_new_spec(root, p) {
        Ok(bm) => bm.buttons,
        Err(_) => Seq::empty(),
    }
}

/// The buttons for a run of listed entries, in listing order.
pub open spec fn key_buttons(base: PathModel, keys: Seq<Seq<char>>, is_dir: bool) -> Seq<
    ButtonModel,
> {
    Seq::new(keys.len(), |i: int| path_button_model(joined_path(base, keys[i]), is_dir))
}

pub open spec fn buttons_view(v: Seq<InlineButton>) -> Seq<ButtonModel> {
    Seq::new(v.len(), |i: int| v[i]@)
}

/// Mathematical model of the builder: the buttons gathered so far, and the
/// directory they are derived from.
pub ghost struct BuilderModel {
    pub buttons: Seq<ButtonModel>,
    pub node: NodeModel,
    pub path: PathModel,
}

/// What a fresh builder holds: the parent button anywhere below the root,
/// then one button per child directory.
pub open spec fn builder_new_spec(root: NodeModel, p: PathModel) -> Result<BuilderModel, FsErr> {
    match get_node_spec(root, p) {
        Ok(m) => match m {
            NodeModel::Directory { children } => Ok(
                BuilderModel {
                    buttons: (if p.segments.len() == 0 {
                        Seq::<ButtonModel>::empty()
                    } else {
                        seq![
                            ButtonModel { text: ".."@, token: token_of(ActionModel::ParentDir) },
                        ]
                    }) + key_buttons(p, dir_keys(children), true),
                    node: m,
                    path: p,
                },
            ),
            NodeModel::File { .. } => Err(FsErr::NotADirectory),
        },
        Err(e) => Err(e),
    }
}

/// Gathers the button layout for one directory of the namespace.
pub struct KeyboardDirectoryBuilder<'a> {
    inline_keyboard: Vec<InlineButton>,
    current_node: &'a FileSystemNode,
    current_path: &'a FsPath,
}

impl<'a> View for KeyboardDirectoryBuilder<'a> {
    type V = BuilderModel;

    closed spec fn view(&self) -> BuilderModel {
        BuilderModel {
            buttons: buttons_view(self.inline_keyboard@),
            node: node_model(*self.current_node),
            path: (*self.current_path)@,
        }
    }
}

impl<'a> KeyboardDirectoryBuilder<'a> {
    /// Start from the directory at `current_path`; see `builder_new_spec`.
    pub fn new(filesystem: &'a FileSystem, current_path: &'a FsPath) -> (r: Result<Self, String>)
        ensures
            match builder_new_spec(filesystem@, current_path@) {
                Ok(bm) => r matches Ok(b) && b@ == bm,
                Err(e) => r matches Err(s) && s@ == err_msg(e),
            },
    {
        match filesystem.get_node(current_path) {
            Err(e) => Err(e),
            Ok(node) => {
                match node.ls_directories() {
                    Err(e) => Err(e),
                    Ok(dirs) => {
                        let ghost p = current_path@;
                        let ghost dkeys = dir_keys(node_model(*node)->children);
                        let mut kb: Vec<InlineButton> = Vec::new();
                        if !current_path.is_root() {
                            kb.push(parent_dir_inline_button());
                        }
                        let ghost prefix = buttons_view(kb@);
                        proof {
                            assert(p.absolute);
                            if p.segments.len() == 0 {
                                assert(prefix =~= Seq::<ButtonModel>::empty());
                            } else {
                                assert(prefix.len() == 1);
                                assert(prefix[0] == (ButtonModel {
                                    text: ".."@,
                                    token: token_of(ActionModel::ParentDir),
                                }));
                                assert(prefix =~= seq![
                                    ButtonModel {
                                        text: ".."@,
                                        token: token_of(ActionModel::ParentDir),
                                    },
                                ]);
                            }
                            assert(dirs.deep_view().len() == dirs@.len());
                            assert(buttons_view(kb@) =~= prefix + key_buttons(
                                p,
                                dkeys.take(0),
                                true,
                            ));
                        }
                        let mut i: usize = 0;
                        while i < dirs.len()
                            invariant
                                0 <= i <= dirs@.len(),
                                dirs.deep_view() == dkeys,
                                dkeys.len() == dirs@.len(),
                                p == current_path@,
                                buttons_view(kb@) == prefix + key_buttons(
                                    p,
                                    dkeys.take(i as int),
                                    true,
                                ),
                                buttons_view(kb@).len() == kb@.len(),
                            decreases dirs@.len() - i,
                        {
                            let child = current_path.join(dirs[i].as_str());
                            proof {
                                assert(dirs[i as int]@ == dirs.deep_view()[i as int]);
                            }
                            let ghost oldkb = kb@;
                            let ghost oldbv = buttons_view(kb@);
                            let btn = path_button(&child, true);
                            let ghost bm = btn@;
                            kb.push(btn);
                            proof {
                                assert(kb@ == oldkb.push(btn));
                                assert(kb@.len() == oldkb.len() + 1);
                                assert(oldbv.len() == oldkb.len());
                                let bv = buttons_view(kb@);
                                let target = prefix + key_buttons(p, dkeys.take(i + 1), true);
                                assert(bv.len() == target.len());
                                assert forall|k: int| 0 <= k < bv.len() implies bv[k]
                                    == target[k] by {
                                    if k < oldkb.len() {
                                        assert(kb@[k] == oldkb[k]);
                                        assert(bv[k] == oldbv[k]);
                                        assert(oldbv[k] == (prefix + key_buttons(
                                            p,
                                            dkeys.take(i as int),
                                            true,
                                        ))[k]);
                                        if k >= prefix.len() {
                                            assert(key_buttons(p, dkeys.take(i as int), true)[k
                                                - prefix.len()] == path_button_model(
                                                joined_path(
                                                    p,
                                                    dkeys.take(i as int)[k - prefix.len()],
                                                ),
                                                true,
                                            ));
                                            assert(key_buttons(p, dkeys.take(i + 1), true)[k
                                                - prefix.len()] == path_button_model(
                                                joined_path(p, dkeys.take(i + 1)[k - prefix.len()]),
                                                true,
                                            ));
                                            assert(dkeys.take(i as int)[k - prefix.len()]
                                                == dkeys.take(i + 1)[k - prefix.len()]);
                                        }
                                    } else {
                                        assert(kb@[k] == btn);
                                        assert(bv[k] == bm);
                                        assert(bm == path_button_model(child@, true));
                                        assert(child@ == joined_path(p, dkeys[i as int]));
                                        assert(bm == path_button_model(
                                            joined_path(p, dkeys[i as int]),
                                            true,
                                        ));
                                        assert(target[k] == key_buttons(p, dkeys.take(i + 1), true)[
                                            k - prefix.len()]);
                                        assert(dkeys.take(i + 1)[i as int] == dkeys[i as int]);
                                    }
                                }
                                assert(bv =~= target);
                            }
                            i = i + 1;
                        }
                        proof {
                            assert(dkeys.take(dkeys.len() as int) =~= dkeys);
                            assert(key_buttons(p, dkeys.take(dkeys.len() as int), true)
                                == key_buttons(p, dkeys, true));
                        }
                        Ok(KeyboardDirectoryBuilder {
                            inline_keyboard: kb,
                            current_node: node,
                            current_path,
                        })
                    },
                }
            },
        }
    }

    /// Prepend the delete-directory button.
    pub fn with_delete_dir_button(&mut self)
        ensures
            final(self)@.buttons == seq![
                ButtonModel { text: "DELETE THIS DIR"@, token: token_of(ActionModel::DeleteDir) },
            ] + old(self)@.buttons,
            final(self)@.node == old(self)@.node,
            final(self)@.path == old(self)@.path,
    {
        let b = delete_dir_inline_button();
        let ghost oldbv = buttons_view(self.inline_keyboard@);
        let ghost bm = b@;
        self.inline_keyboard.insert(0, b);
        proof {
            let bv = buttons_view(self.inline_keyboard@);
            assert(bv.len() == oldbv.len() + 1);
            assert forall|k: int| 0 <= k < bv.len() implies bv[k] == (seq![bm] + oldbv)[k] by {
                if k > 0 {
                    assert(self.inline_keyboard@[k] == old(self).inline_keyboard@[k - 1]);
                }
            }
            assert(bv =~= seq![bm] + oldbv);
        }
    }

    /// Prepend the current-directory (`HERE`) button.
    pub fn with_current_dir_button(&mut self)
        ensures
            final(self)@.buttons == seq![
                ButtonModel { text: "HERE"@, token: token_of(ActionModel::CurrentDir) },
            ] + old(self)@.buttons,
            final(self)@.node == old(self)@.node,
            final(self)@.path == old(self)@.path,
    {
        let b = current_dir_inline_button();
        let ghost oldbv = buttons_view(self.inline_keyboard@);
        let ghost bm = b@;
        self.inline_keyboard.insert(0, b);
        proof {
            let bv = buttons_view(self.inline_keyboard@);
            assert(bv.len() == oldbv.len() + 1);
            assert forall|k: int| 0 <= k < bv.len() implies bv[k] == (seq![bm] + oldbv)[k] by {
                if k > 0 {
                    assert(self.inline_keyboard@[k] == old(self).inline_keyboard@[k - 1]);
                }
            }
            assert(bv =~= seq![bm] + oldbv);
        }
    }

    /// Append one button per file of the directory.
    pub fn with_files(&mut self) -> (r: Result<(), String>)
        ensures
            old(self)@.node matches NodeModel::Directory { children } ==> (r is Ok
                && final(self)@.buttons == old(self)@.buttons + key_buttons(
                old(self)@.path,
                file_keys(children),
                false,
            ) && final(self)@.node == old(self)@.node && final(self)@.path == old(self)@.path),
            old(self)@.node is File ==> (r matches Err(s) && s@ == "Not a directory"@
                && *final(self) == *old(self)),
    {
        match self.current_node.ls_files() {
            Err(e) => Err(e),
            Ok(files) => {
                let ghost p = (*self.current_path)@;
                let ghost fkeys = file_keys(node_model(*self.current_node)->children);
                let ghost base = buttons_view(self.inline_keyboard@);
                proof {
                    assert(files.deep_view().len() == files@.len());
                    assert(buttons_view(self.inline_keyboard@) =~= base + key_buttons(
                        p,
                        fkeys.take(0),
                        false,
                    ));
                }
                let mut i: usize = 0;
                while i < files.len()
                    invariant
                        0 <= i <= files@.len(),
                        files.deep_view() == fkeys,
                        fkeys.len() == files@.len(),
                        p == (*self.current_path)@,
                        node_model(*self.current_node) == node_model(*old(self).current_node),
                        fkeys == file_keys(node_model(*self.current_node)->children),
                        buttons_view(self.inline_keyboard@) == base + key_buttons(
                            p,
                            fkeys.take(i as int),
                            false,
                        ),
                        buttons_view(self.inline_keyboard@).len() == self.inline_keyboard@.len(),
                    decreases files@.len() - i,
                {
                    let child = self.current_path.join(files[i].as_str());
                    proof {
                        assert(files[i as int]@ == files.deep_view()[i as int]);
                    }
                    let ghost oldkb = self.inline_keyboard@;
                    let ghost oldbv = buttons_view(self.inline_keyboard@);
                    let btn = path_button(&child, false);
                    let ghost bm = btn@;
                    self.inline_keyboard.push(btn);
                    proof {
                        assert(self.inline_keyboard@ == oldkb.push(btn));
                        assert(self.inline_keyboard@.len() == oldkb.len() + 1);
                        assert(oldbv.len() == oldkb.len());
                        let bv = buttons_view(self.inline_keyboard@);
                        let target = base + key_buttons(p, fkeys.take(i + 1), false);
                        assert(bv.len() == target.len());
                        assert forall|k: int| 0 <= k < bv.len() implies bv[k] == target[k] by {
                            if k < oldkb.len() {
                                assert(self.inline_keyboard@[k] == oldkb[k]);
                                assert(bv[k] == oldbv[k]);
                                assert(oldbv[k] == (base + key_buttons(
                                    p,
                                    fkeys.take(i as int),
                                    false,
                                ))[k]);
                                if k >= base.len() {
                                    assert(key_buttons(p, fkeys.take(i as int), false)[k
                                        - base.len()] == path_button_model(
                                        joined_path(p, fkeys.take(i as int)[k - base.len()]),
                                        false,
                                    ));
                                    assert(key_buttons(p, fkeys.take(i + 1), false)[k - base.len()]
                                        == path_button_model(
                                        joined_path(p, fkeys.take(i + 1)[k - base.len()]),
                                        false,
                                    ));
                                    assert(fkeys.take(i as int)[k - base.len()] == fkeys.take(
                                        i + 1,
                                    )[k - base.len()]);
                                }
                            } else {
                                assert(self.inline_keyboard@[k] == btn);
                                assert(bv[k] == bm);
                                assert(bm == path_button_model(
                                    joined_path(p, fkeys[i as int]),
                                    false,
                                ));
                                assert(target[k] == key_buttons(p, fkeys.take(i + 1), false)[k
                                    - base.len()]);
                                assert(fkeys.take(i + 1)[i as int] == fkeys[i as int]);
                            }
                        }
                        assert(bv =~= target);
                    }
                    i = i + 1;
                }
                proof {
                    assert(fkeys.take(fkeys.len() as int) =~= fkeys);
                }
                Ok(())
            },
        }
    }

    /// The layout: one button per row, in gathered order.
    pub fn build(&self) -> (r: InlineKeyboard)
        ensures
            r@ == rows_of(self@.buttons),
    {
        let ghost bv = buttons_view(self.inline_keyboard@);
        let mut rows: Vec<Vec<InlineButton>> = Vec::new();
        let mut i: usize = 0;
        while i < self.inline_keyboard.len()
            invariant
                0 <= i <= self.inline_keyboard@.len(),
                rows@.len() == i,
                bv == buttons_view(self.inline_keyboard@),
                forall|k: int|
                    0 <= k < i ==> (#[trigger] rows@[k]@.len()) == 1 && rows@[k]@[0]@ == bv[k],
            decreases self.inline_keyboard@.len() - i,
        {
            let b = self.inline_keyboard[i].clone();
            proof {
                assert(b@ == self.inline_keyboard@[i as int]@);
                assert(self.inline_keyboard@[i as int]@ == bv[i as int]);
            }
            let mut row: Vec<InlineButton> = Vec::new();
            row.push(b);
            let ghost rowv = row@;
            let ghost oldrows = rows@;
            rows.push(row);
            proof {
                assert(rows@ == oldrows.push(row));
                assert forall|k: int| 0 <= k < i + 1 implies (#[trigger] rows@[k]@.len()) == 1
                    && rows@[k]@[0]@ == bv[k] by {
                    if k < i {
                        assert(rows@[k] == oldrows[k]);
                    } else {
                        assert(rows@[k]@ == rowv);
                    }
                }
            }
            i = i + 1;
        }
        let r = InlineKeyboard { rows };
        proof {
            assert forall|k: int| 0 <= k < r@.len() implies (#[trigger] r@[k]) == rows_of(
                self@.buttons,
            )[k] by {
                assert(r@[k] == Seq::new(r.rows@[k]@.len(), |j: int| r.rows@[k]@[j]@));
                assert(r@[k] =~= seq![bv[k]]);
            }
            assert(r@ =~= rows_of(self@.buttons));
        }
        r
    }
}

} // verus!
