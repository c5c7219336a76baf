use anvel::explorer::FileExplorer;
use anvel::labels::clipboard_label;
use anvel::labels::get_file_icon;
use anvel::labels::properties_view;
use anvel::labels::type_label;
use anvel::labels::FileStat;
use anvel::listing::DirEntry;
use anvel::paths::breadcrumbs;
use anvel::paths::get_root_directory;
use anvel::paths::Platform;
use anvel::theme::col_accent;
use anvel::theme::col_border;
use anvel::theme::col_danger;
use anvel::theme::col_success;
use anvel::theme::col_surface;
use anvel::theme::col_surface2;
use anvel::theme::col_surface3;
use anvel::theme::col_text;
use anvel::theme::col_text2;
use anvel::theme::col_warn;
use anvel::theme::Rgb;

fn file(name: &str, ext: &str, is_dir: bool) -> DirEntry {
    DirEntry { name: name.to_string(), path: format!("/h/{}", name), is_dir, size: 1, modified: None, extension: ext.to_string() }
}

#[test]
fn root_directories() {
    assert_eq!(get_root_directory(Platform::Unix), Some("/".to_string()));
    assert_eq!(get_root_directory(Platform::Windows), Some("C:\\".to_string()));
    assert_eq!(get_root_directory(Platform::Other), None);
}

#[test]
fn breadcrumb_trail() {
    let crumbs = breadcrumbs("/home/u/docs");
    let shown: Vec<(&str, &str)> = crumbs.iter().map(|c| (c.label.as_str(), c.path.as_str())).collect();
    assert_eq!(shown, vec![("/", "/"), ("home", "/home"), ("u", "/home/u"), ("docs", "/home/u/docs")]);
    let crumbs = breadcrumbs("rel/dir");
    let shown: Vec<(&str, &str)> = crumbs.iter().map(|c| (c.label.as_str(), c.path.as_str())).collect();
    assert_eq!(shown, vec![("rel", "rel"), ("dir", "rel/dir")]);
    let crumbs = breadcrumbs("/");
    assert_eq!(crumbs.len(), 1);
    assert_eq!(crumbs[0].label, "/");
}

#[test]
fn icons() {
    assert_eq!(get_file_icon(&file("d", "rs", true)), "📁");
    assert_eq!(get_file_icon(&file("m.rs", "rs", false)), "🦀");
    assert_eq!(get_file_icon(&file("M.RS", "RS", false)), "🦀");
    assert_eq!(get_file_icon(&file("c.toml", "toml", false)), "⚙️");
    assert_eq!(get_file_icon(&file("r.md", "md", false)), "📝");
    assert_eq!(get_file_icon(&file("p.JPEG", "JPEG", false)), "🖼️");
    assert_eq!(get_file_icon(&file("s.flac", "flac", false)), "🎵");
    assert_eq!(get_file_icon(&file("v.mkv", "mkv", false)), "🎬");
    assert_eq!(get_file_icon(&file("a.7z", "7z", false)), "📦");
    assert_eq!(get_file_icon(&file("x.tsx", "tsx", false)), "🟨");
    assert_eq!(get_file_icon(&file("x.py", "py", false)), "🐍");
    assert_eq!(get_file_icon(&file("x.java", "java", false)), "☕");
    assert_eq!(get_file_icon(&file("x.h", "h", false)), "⚡");
    assert_eq!(get_file_icon(&file("x.css", "css", false)), "🌐");
    assert_eq!(get_file_icon(&file("x.yml", "yml", false)), "📋");
    assert_eq!(get_file_icon(&file("x.pdf", "pdf", false)), "📕");
    assert_eq!(get_file_icon(&file("x.bin", "bin", false)), "📄");
    assert_eq!(get_file_icon(&file("noext", "", false)), "📄");
}

#[test]
fn type_labels() {
    assert_eq!(type_label(&file("d", "", true)), "Folder");
    assert_eq!(type_label(&file("f", "", false)), "File");
    assert_eq!(type_label(&file("f.Rs", "Rs", false)), "Rs");
}

#[test]
fn clipboard_labels() {
    let mut ex = FileExplorer::new("/h");
    assert_eq!(clipboard_label(&ex), None);
    ex.load_directory(Ok(vec![file("a.txt", "txt", false)]));
    ex.select(0);
    ex.copy_file();
    assert_eq!(clipboard_label(&ex), Some("📋 Clipboard: a.txt".to_string()));
    ex.cut_file();
    assert_eq!(clipboard_label(&ex), Some("✂️ Clipboard: a.txt".to_string()));
}

#[test]
fn properties() {
    let now = 1_000_000u64;
    let p = properties_view("/h/big.iso", Some(FileStat { size: 3 * 1024 * 1024, is_dir: false, modified: Some((now as i128 - 120) * 1_000_000_000) }), now);
    assert_eq!(p.title, "Properties — big.iso");
    assert_eq!(p.name, "big.iso");
    assert_eq!(p.kind, "File");
    assert_eq!(p.size, "3.00 MB");
    assert_eq!(p.modified, "2 min ago");
    assert_eq!(p.path, "/h/big.iso");
    let p = properties_view("/h/gone", None, now);
    assert_eq!(p.kind, "File");
    assert_eq!(p.size, "0 B");
    assert_eq!(p.modified, "Unknown");
    let p = properties_view("/h/dir", Some(FileStat { size: 4096, is_dir: true, modified: None }), now);
    assert_eq!(p.kind, "Folder");
}

#[test]
fn palette() {
    assert_eq!(col_surface(true), Rgb { r: 18, g: 18, b: 18 });
    assert_eq!(col_surface(false), Rgb { r: 255, g: 255, b: 255 });
    assert_eq!(col_surface2(true), Rgb { r: 26, g: 26, b: 26 });
    assert_eq!(col_surface3(false), Rgb { r: 235, g: 235, b: 235 });
    assert_eq!(col_text(true), Rgb { r: 220, g: 220, b: 220 });
    assert_eq!(col_text2(false), Rgb { r: 100, g: 100, b: 100 });
    assert_eq!(col_border(true), Rgb { r: 50, g: 50, b: 50 });
    assert_eq!(col_accent(false), Rgb { r: 40, g: 90, b: 180 });
    assert_eq!(col_success(), Rgb { r: 80, g: 180, b: 120 });
    assert_eq!(col_warn(), Rgb { r: 210, g: 160, b: 50 });
    assert_eq!(col_danger(), Rgb { r: 210, g: 70, b: 70 });
}
