//! Texts the explorer shows for entries: icons, type names, the clipboard
//! label and the properties of a path.
use vstd::prelude::*;
use vstd::string::StringExecFns;
use crate::text::lowered;
use crate::text::to_lowercase;
use crate::text::same_text;
use crate::text::concat;
use crate::listing::DirEntry;
use crate::paths::file_name_of;
use crate::paths::path_file_name;
use crate::explorer::FileOperation;
use crate::explorer::FileExplorer;
use crate::format::size_label;
use crate::format::age_label;
use crate::format::format_size;
use crate::format::format_time;

verus! {

/// The icon of a file by its lower-case extension.
pub open spec fn icon_for_ext(x: Seq<char>) -> Seq<char> {
    if x == "rs"@ {
        "🦀"@
    } else if x == "toml"@ {
        "⚙️"@
    } else if x == "md"@ {
        "📝"@
    } else if x == "txt"@ {
        "📄"@
    } else if x == "pdf"@ {
        "📕"@
    } else if x == "png"@ || x == "jpg"@ || x == "jpeg"@ || x == "gif"@ || x == "svg"@ || x == "bmp"@ {
        "🖼️"@
    } else if x == "mp3"@ || x == "wav"@ || x == "ogg"@ || x == "flac"@ {
        "🎵"@
    } else if x == "mp4"@ || x == "avi"@ || x == "mkv"@ || x == "mov"@ {
        "🎬"@
    } else if x == "zip"@ || x == "tar"@ || x == "gz"@ || x == "7z"@ || x == "rar"@ {
        "📦"@
    } else if x == "js"@ || x == "ts"@ || x == "jsx"@ || x == "tsx"@ {
        "🟨"@
    } else if x == "py"@ {
        "🐍"@
    } else if x == "java"@ {
        "☕"@
    } else if x == "cpp"@ || x == "c"@ || x == "h"@ {
        "⚡"@
    } else if x == "html"@ || x == "css"@ {
        "🌐"@
    } else if x == "json"@ || x == "xml"@ || x == "yaml"@ || x == "yml"@ {
        "📋"@
    } else {
        "📄"@
    }
}

/// The icon of an entry: a folder, or by extension ignoring case.
pub open spec fn file_icon(e: DirEntry) -> Seq<char> {
    if e.is_dir {
        "📁"@
    } else {
        icon_for_ext(lowered(e.extension@))
    }
}

fn is_one_of(x: &str, options: &[&'static str]) -> (r: bool)
    ensures
        r == exists|k: int| 0 <= k < options@.len() && x@ == options@[k]@,
{
    let mut i: usize = 0;
    while i < options.len()
        invariant
            i <= options@.len(),
            forall|k: int| 0 <= k < i ==> x@ != options@[k]@,
        decreases options@.len() - i,
    {
        if same_text(x, options[i]) {
            return true;
        }
        i = i + 1;
    }
    false
}

/// The icon shown before an entry's name.
pub fn get_file_icon(entry: &DirEntry) -> (icon: &'static str)
    ensures
        icon@ == file_icon(*entry),
{
    if entry.is_dir {
        return "📁";
    }
    let lower = to_lowercase(entry.extension.as_str());
    let x = lower.as_str();
    let images: [&'static str; 6] = ["png", "jpg", "jpeg", "gif", "svg", "bmp"];
    let audio: [&'static str; 4] = ["mp3", "wav", "ogg", "flac"];
    let video: [&'static str; 4] = ["mp4", "avi", "mkv", "mov"];
    let archives: [&'static str; 5] = ["zip", "tar", "gz", "7z", "rar"];
    let scripts: [&'static str; 4] = ["js", "ts", "jsx", "tsx"];
    let native: [&'static str; 3] = ["cpp", "c", "h"];
    let web: [&'static str; 2] = ["html", "css"];
    let data: [&'static str; 4] = ["json", "xml", "yaml", "yml"];
    if same_text(x, "rs") {
        "🦀"
    } else if same_text(x, "toml") {
        "⚙️"
    } else if same_text(x, "md") {
        "📝"
    } else if same_text(x, "txt") {
        "📄"
    } else if same_text(x, "pdf") {
        "📕"
    } else if is_one_of(x, &images) {
        "🖼️"
    } else if is_one_of(x, &audio) {
        "🎵"
    } else if is_one_of(x, &video) {
        "🎬"
    } else if is_one_of(x, &archives) {
        "📦"
    } else if is_one_of(x, &scripts) {
        "🟨"
    } else if same_text(x, "py") {
        "🐍"
    } else if same_text(x, "java") {
        "☕"
    } else if is_one_of(x, &native) {
        "⚡"
    } else if is_one_of(x, &web) {
        "🌐"
    } else if is_one_of(x, &data) {
        "📋"
    } else {
        "📄"
    }
}

/// The type column: "Folder", "File" for files without an extension, or the
/// extension itself.
pub open spec fn type_text(e: DirEntry) -> Seq<char> {
    if e.is_dir {
        "Folder"@
    } else if e.extension@.len() == 0 {
        "File"@
    } else {
        e.extension@
    }
}

/// The text of the type column for an entry.
pub fn type_label(entry: &DirEntry) -> (s: String)
    ensures
        s@ == type_text(*entry),
{
    if entry.is_dir {
        String::from_str("Folder")
    } else if entry.extension.unicode_len() == 0 {
        String::from_str("File")
    } else {
        String::from_str(entry.extension.as_str())
    }
}

/// The file name of a path, or nothing.
pub open spec fn name_or_empty(p: Seq<char>) -> Seq<char> {
    match file_name_of(p) {
        Some(n) => n,
        None => Seq::empty(),
    }
}

fn file_name_text(p: &str) -> (s: String)
    ensures
        s@ == name_or_empty(p@),
{
    match path_file_name(p) {
        Some(n) => n,
        None => String::new(),
    }
}

/// The toolbar's clipboard label: the operation and the file's name.
pub open spec fn clipboard_text(path: Seq<char>, op: FileOperation) -> Seq<char> {
    (if op == FileOperation::Copy { "📋 Clipboard: "@ } else { "✂️ Clipboard: "@ }) + name_or_empty(path)
}

/// The toolbar's clipboard label, when something is on the clipboard.
pub fn clipboard_label(explorer: &FileExplorer) -> (r: Option<String>)
    ensures
        explorer@.clipboard is None ==> r is None,
        explorer@.clipboard matches Some((p, op)) ==> (r matches Some(s) && s@ == clipboard_text(p, op)),
{
    match explorer.clipboard() {
        None => None,
        Some((p, op)) => {
            let name = file_name_text(p.as_str());
            let label = match op {
                FileOperation::Copy => concat("📋 Clipboard: ", name.as_str()),
                FileOperation::Cut => concat("✂️ Clipboard: ", name.as_str()),
            };
            Some(label)
        },
    }
}

/// What the file system reports of a path.
#[derive(Clone, Copy, Debug)]
pub struct FileStat {
    pub size: u64,
    pub is_dir: bool,
    pub modified: Option<i128>,
}

/// The rows of the properties dialog.
#[derive(Debug)]
pub struct Properties {
    pub title: String,
    pub name: String,
    pub kind: String,
    pub size: String,
    pub modified: String,
    pub path: String,
}

/// The properties dialog of `path`, given what the file system reports of it
/// (nothing when it could not be read: then 0 bytes, a file, no time).
pub fn properties_view(path: &str, stat: Option<FileStat>, now_secs: u64) -> (p: Properties)
    ensures
        p.name@ == name_or_empty(path@),
        p.title@ == "Properties — "@ + name_or_empty(path@),
        p.kind@ == (if (stat matches Some(s) && s.is_dir) { "Folder"@ } else { "File"@ }),
        p.size@ == size_label((match stat { Some(s) => s.size, None => 0u64 }) as nat),
        p.modified@ == age_label(match stat { Some(s) => s.modified, None => None }, now_secs as nat),
        p.path@ == path@,
{
    let name = file_name_text(path);
    let (size, is_dir, mtime) = match stat {
        Some(s) => (s.size, s.is_dir, s.modified),
        None => (0u64, false, None),
    };
    Properties {
        title: concat("Properties — ", name.as_str()),
        name,
        kind: if is_dir { String::from_str("Folder") } else { String::from_str("File") },
        size: format_size(size),
        modified: format_time(mtime, now_secs),
        path: String::from_str(path),
    }
}

} // verus!
