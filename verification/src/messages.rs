//! The texts the assistant replies with. Each template is a plain
//! concatenation whose exact result is stated in its contract.

use vstd::prelude::*;
use vstd::string::StringExecFns;

verus! {

pub const COMING_SOON_TEXT: &'static str = "Coming soon...";

pub const MKDIR_BUTTON_TEXT: &'static str = "+ New Directory";

pub const CURRENT_DIR_BUTTON_TEXT: &'static str = "HERE";

pub const PARENT_DIR_BUTTON_TEXT: &'static str = "..";

pub const DELETE_DIR_BUTTON_TEXT: &'static str = "DELETE THIS DIR";

pub const BACK_BUTTON_TEXT: &'static str = "<< BACK";

pub const VERSION: &'static str = "0.1.0";

/// The placeholder for flows that are reserved but not wired yet.
pub open spec fn coming_soon_text() -> Seq<char> {
    "Coming soon..."@
}

pub fn coming_soon_message() -> (r: String)
    ensures
        r@ == coming_soon_text(),
{
    String::from_str("Coming soon...")
}

/// The usage guide.
pub open spec fn help_text() -> Seq<char> {
    "*SAVE FILES*:\n1. send ONE FILE AT A TIME to the bot (the file could be any type of message: _text_, _audio_, _video_, _image_, _sticker_, etc.)\n2. navigate to the directory you want to save it\n3. click _HERE_ to select the current directory where to save the file\n4. when asked, send the file name (the name cannot include `/` character) WITHOUT extension\n\nThe file will be saved as with the following extension:\n_image_ -> _.jpg_\n_video_ -> _.mp4_\n_audio_ -> same extension of the file you sent\n_document_ -> same extension of the file you sent\n_other_ -> _.tg+(type-of-message-you-sent)_\n\n*CREATE DIRECTORY* (/mkdir):\nClick the _HERE_ button where you want to create the directory and send the directory name when asked (the name cannot include `/` character).\n\n*MOVE FILES* (/move\\_file):\nThe flow is almost the same as to save files.\n\n*RENAME FILES* (/rename\\_file):\nThe flow is almost the same as to save files.\n\n*EXPLORE FILES AND DIRECTORIES* (/explorer):\nClick on directories to navigate into them.\nClick on files to get the reference to the file.\n\n*DELETE FILES/DIRECTORIES* (/delete\\_file and /delete\\_dir):\nComing soon..."@
}

pub fn help_message() -> (r: String)
    ensures
        r@ == help_text(),
{
    String::from_str(
        "*SAVE FILES*:\n1. send ONE FILE AT A TIME to the bot (the file could be any type of message: _text_, _audio_, _video_, _image_, _sticker_, etc.)\n2. navigate to the directory you want to save it\n3. click _HERE_ to select the current directory where to save the file\n4. when asked, send the file name (the name cannot include `/` character) WITHOUT extension\n\nThe file will be saved as with the following extension:\n_image_ -> _.jpg_\n_video_ -> _.mp4_\n_audio_ -> same extension of the file you sent\n_document_ -> same extension of the file you sent\n_other_ -> _.tg+(type-of-message-you-sent)_\n\n*CREATE DIRECTORY* (/mkdir):\nClick the _HERE_ button where you want to create the directory and send the directory name when asked (the name cannot include `/` character).\n\n*MOVE FILES* (/move\\_file):\nThe flow is almost the same as to save files.\n\n*RENAME FILES* (/rename\\_file):\nThe flow is almost the same as to save files.\n\n*EXPLORE FILES AND DIRECTORIES* (/explorer):\nClick on directories to navigate into them.\nClick on files to get the reference to the file.\n\n*DELETE FILES/DIRECTORIES* (/delete\\_file and /delete\\_dir):\nComing soon...",
    )
}

/// The greeting a conversation starts with.
pub open spec fn start_message_text(user_first_name: Option<Seq<char>>) -> Seq<char> {
    (match user_first_name {
        Option::Some(name) => "Hello "@ + name + "!"@,
        Option::None => "Hello!"@,
    }) + "\nWelcome on *Infinite Cloud*!\n\nHere's some help to start:\n\n"@ + help_text()
        + "\n\nTo see this help message again, use the /help command"@
}

pub fn start_message(user_first_name: Option<String>) -> (r: String)
    ensures
        r@ == start_message_text(user_first_name.deep_view()),
{
    let mut s = match user_first_name {
        Option::Some(name) => {
            let mut g = String::from_str("Hello ");
            g.append(name.as_str());
            g.append("!");
            g
        },
        Option::None => String::from_str("Hello!"),
    };
    s.append("\nWelcome on *Infinite Cloud*!\n\nHere's some help to start:\n\n");
    let help = help_message();
    s.append(help.as_str());
    s.append("\n\nTo see this help message again, use the /help command");
    s
}

/// What the assistant is.
pub open spec fn info_text() -> Seq<char> {
    "*Infinite Cloud Bot* - infinite free cloud storage on Telegram\n\nUsage instructions: /help\n\n_Version: 0.1.0_"@
}

pub fn info_message() -> (r: String)
    ensures
        r@ == info_text(),
{
    String::from_str(
        "*Infinite Cloud Bot* - infinite free cloud storage on Telegram\n\nUsage instructions: /help\n\n_Version: 0.1.0_",
    )
}

/// The `CURRENT PATH` header above a path.
pub open spec fn current_path_text_spec(path: Seq<char>) -> Seq<char> {
    "CURRENT PATH:\n\n`"@ + path + "`"@
}

pub fn current_path_text(path: String) -> (r: String)
    ensures
        r@ == current_path_text_spec(path@),
{
    let mut s = String::from_str("CURRENT PATH:\n\n`");
    s.append(path.as_str());
    s.append("`");
    s
}

pub open spec fn mkdir_message_spec(path: Seq<char>) -> Seq<char> {
    current_path_text_spec(path)
        + "\n\nNavigate to the directory in which you want to CREATE the new directory and click _HERE_"@
}

pub fn mkdir_message(path: String) -> (r: String)
    ensures
        r@ == mkdir_message_spec(path@),
{
    let mut s = current_path_text(path);
    s.append(
        "\n\nNavigate to the directory in which you want to CREATE the new directory and click _HERE_",
    );
    s
}

pub open spec fn create_file_message_spec(path: Seq<char>) -> Seq<char> {
    current_path_text_spec(path)
        + "\n\nNavigate to the directory in which you want to SAVE the new file and click _HERE_"@
}

pub fn create_file_message(path: String) -> (r: String)
    ensures
        r@ == create_file_message_spec(path@),
{
    let mut s = current_path_text(path);
    s.append(
        "\n\nNavigate to the directory in which you want to SAVE the new file and click _HERE_",
    );
    s
}

pub open spec fn ask_directory_name_message_spec(path: Seq<char>) -> Seq<char> {
    current_path_text_spec(path) + "\n\nSend me the name of the new DIRECTORY"@
}

pub fn ask_directory_name_message(path: String) -> (r: String)
    ensures
        r@ == ask_directory_name_message_spec(path@),
{
    let mut s = current_path_text(path);
    s.append("\n\nSend me the name of the new DIRECTORY");
    s
}

pub open spec fn ask_file_name_message_spec(path: Seq<char>) -> Seq<char> {
    current_path_text_spec(path) + "\n\nSend me the name of the new FILE"@
}

pub fn ask_file_name_message(path: String) -> (r: String)
    ensures
        r@ == ask_file_name_message_spec(path@),
{
    let mut s = current_path_text(path);
    s.append("\n\nSend me the name of the new FILE");
    s
}

pub open spec fn ask_rename_file_message_spec(file_name: Seq<char>, path: Seq<char>) -> Seq<char> {
    "RENAME *"@ + file_name + "* at `"@ + path + "`\n\nSend me the new NAME:"@
}

pub fn ask_rename_file_message(file_name: String, path: String) -> (r: String)
    ensures
        r@ == ask_rename_file_message_spec(file_name@, path@),
{
    let mut s = String::from_str("RENAME *");
    s.append(file_name.as_str());
    s.append("* at `");
    s.append(path.as_str());
    s.append("`\n\nSend me the new NAME:");
    s
}

pub open spec fn created_directory_success_message_spec(
    dir_name: Seq<char>,
    path: Seq<char>,
) -> Seq<char> {
    "Directory *"@ + dir_name + "* CREATED at `"@ + path + "`"@
}

pub fn created_directory_success_message(dir_name: String, path: String) -> (r: String)
    ensures
        r@ == created_directory_success_message_spec(dir_name@, path@),
{
    let mut s = String::from_str("Directory *");
    s.append(dir_name.as_str());
    s.append("* CREATED at `");
    s.append(path.as_str());
    s.append("`");
    s
}

pub open spec fn created_file_success_message_spec(
    file_name: Seq<char>,
    path: Seq<char>,
) -> Seq<char> {
    "File *"@ + file_name + "* CREATED at `"@ + path + "`"@
}

pub fn created_file_success_message(file_name: String, path: String) -> (r: String)
    ensures
        r@ == created_file_success_message_spec(file_name@, path@),
{
    let mut s = String::from_str("File *");
    s.append(file_name.as_str());
    s.append("* CREATED at `");
    s.append(path.as_str());
    s.append("`");
    s
}

pub open spec fn renamed_file_success_message_spec(
    old_file_name: Seq<char>,
    new_file_name: Seq<char>,
    path: Seq<char>,
) -> Seq<char> {
    "File *"@ + old_file_name + "* RENAMED.\n\nNew name: *"@ + new_file_name + "*\nPath: `"@ + path
        + "`"@
}

pub fn renamed_file_success_message(
    old_file_name: String,
    new_file_name: String,
    path: String,
) -> (r: String)
    ensures
        r@ == renamed_file_success_message_spec(old_file_name@, new_file_name@, path@),
{
    let mut s = String::from_str("File *");
    s.append(old_file_name.as_str());
    s.append("* RENAMED.\n\nNew name: *");
    s.append(new_file_name.as_str());
    s.append("*\nPath: `");
    s.append(path.as_str());
    s.append("`");
    s
}

pub open spec fn moved_file_success_message_spec(
    file_name: Seq<char>,
    from_path: Seq<char>,
    to_path: Seq<char>,
) -> Seq<char> {
    "File *"@ + file_name + "* MOVED.\n\nFrom: `"@ + from_path + "`\nTo: `"@ + to_path + "`"@
}

pub fn moved_file_success_message(
    file_name: String,
    from_path: String,
    to_path: String,
) -> (r: String)
    ensures
        r@ == moved_file_success_message_spec(file_name@, from_path@, to_path@),
{
    let mut s = String::from_str("File *");
    s.append(file_name.as_str());
    s.append("* MOVED.\n\nFrom: `");
    s.append(from_path.as_str());
    s.append("`\nTo: `");
    s.append(to_path.as_str());
    s.append("`");
    s
}

pub open spec fn explorer_message_spec(path: Seq<char>) -> Seq<char> {
    current_path_text_spec(path)
}

pub fn explorer_message(path: String) -> (r: String)
    ensures
        r@ == explorer_message_spec(path@),
{
    current_path_text(path)
}

pub open spec fn explorer_file_message_spec(file_name: Seq<char>, path: Seq<char>) -> Seq<char> {
    "File: *"@ + file_name + "*\nPath: `"@ + path + "`"@
}

pub fn explorer_file_message(file_name: String, path: String) -> (r: String)
    ensures
        r@ == explorer_file_message_spec(file_name@, path@),
{
    let mut s = String::from_str("File: *");
    s.append(file_name.as_str());
    s.append("*\nPath: `");
    s.append(path.as_str());
    s.append("`");
    s
}

pub open spec fn rename_file_message_spec(path: Seq<char>) -> Seq<char> {
    current_path_text_spec(path) + "\n\nSelect the file you want to RENAME"@
}

pub fn rename_file_message(path: String) -> (r: String)
    ensures
        r@ == rename_file_message_spec(path@),
{
    let mut s = current_path_text(path);
    s.append("\n\nSelect the file you want to RENAME");
    s
}

pub open spec fn move_file_select_file_message_spec(path: Seq<char>) -> Seq<char> {
    current_path_text_spec(path) + "\n\nSelect the file you want to MOVE"@
}

pub fn move_file_select_file_message(path: String) -> (r: String)
    ensures
        r@ == move_file_select_file_message_spec(path@),
{
    let mut s = current_path_text(path);
    s.append("\n\nSelect the file you want to MOVE");
    s
}

pub open spec fn move_file_select_destination_message_spec(path: Seq<char>) -> Seq<char> {
    "File to MOVE:\n`"@ + path
        + "`\n\nSelect the directory in which you want to move the file and click _HERE_"@
}

pub fn move_file_select_destination_message(path: String) -> (r: String)
    ensures
        r@ == move_file_select_destination_message_spec(path@),
{
    let mut s = String::from_str("File to MOVE:\n`");
    s.append(path.as_str());
    s.append("`\n\nSelect the directory in which you want to move the file and click _HERE_");
    s
}

pub open spec fn generic_error_text() -> Seq<char> {
    "An error has occurred. Please try again."@
}

pub fn generic_error_message() -> (r: String)
    ensures
        r@ == generic_error_text(),
{
    String::from_str("An error has occurred. Please try again.")
}

} // verus!
