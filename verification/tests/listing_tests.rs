use anvel::listing::filter_indices;
use anvel::listing::keep_listed;
use anvel::listing::sort_listing;
use anvel::listing::DirEntry;
use anvel::listing::SortBy;

fn entry(name: &str, is_dir: bool, size: u64, modified: Option<i128>, ext: &str) -> DirEntry {
    DirEntry {
        name: name.to_string(),
        path: format!("/home/u/{}", name),
        is_dir,
        size,
        modified,
        extension: ext.to_string(),
    }
}

fn names(v: &[DirEntry]) -> Vec<String> {
    v.iter().map(|e| e.name.clone()).collect()
}

fn sample() -> Vec<DirEntry> {
    vec![
        entry("beta.txt", false, 300, Some(30), "txt"),
        entry("Zeta", true, 0, Some(10), ""),
        entry("alpha.RS", false, 100, Some(50), "RS"),
        entry("Gamma.md", false, 200, None, "md"),
        entry("docs", true, 0, Some(20), ""),
    ]
}

#[test]
fn sort_by_name_folders_first_ignoring_case() {
    let out = sort_listing(sample(), SortBy::Name);
    assert_eq!(names(&out), vec!["docs", "Zeta", "alpha.RS", "beta.txt", "Gamma.md"]);
}

#[test]
fn sort_by_size_largest_first() {
    let out = sort_listing(sample(), SortBy::Size);
    // folders keep their order (equal size), files by size descending
    assert_eq!(names(&out), vec!["Zeta", "docs", "beta.txt", "Gamma.md", "alpha.RS"]);
}

#[test]
fn sort_by_modified_newest_first_missing_last() {
    let out = sort_listing(sample(), SortBy::Modified);
    assert_eq!(names(&out), vec!["docs", "Zeta", "alpha.RS", "beta.txt", "Gamma.md"]);
}

#[test]
fn sort_by_type_is_stable_for_equal_extensions() {
    let input = vec![
        entry("b.txt", false, 1, None, "txt"),
        entry("a.TXT", false, 1, None, "TXT"),
        entry("c.md", false, 1, None, "md"),
        entry("d.txt", false, 1, None, "txt"),
    ];
    let out = sort_listing(input, SortBy::Type);
    assert_eq!(names(&out), vec!["c.md", "b.txt", "a.TXT", "d.txt"]);
}

#[test]
fn sort_matches_std_stable_sort() {
    let mut input = Vec::new();
    for i in 0..200u64 {
        let name = format!("{}{}", ["a", "B", "c", "D"][(i % 4) as usize], (i * 7919) % 13);
        input.push(entry(&name, i % 5 == 0, (i * 31) % 17, if i % 3 == 0 { None } else { Some(((i * 13) % 7) as i128) }, ["rs", "TXT", "", "md"][(i % 4) as usize]));
    }
    for by in [SortBy::Name, SortBy::Size, SortBy::Modified, SortBy::Type] {
        let copy: Vec<DirEntry> = input.iter().map(|e| entry(&e.name, e.is_dir, e.size, e.modified, &e.extension)).collect();
        let mut expected: Vec<DirEntry> = input.iter().map(|e| entry(&e.name, e.is_dir, e.size, e.modified, &e.extension)).collect();
        expected.sort_by(|a, b| {
            match (a.is_dir, b.is_dir) {
                (true, false) => return std::cmp::Ordering::Less,
                (false, true) => return std::cmp::Ordering::Greater,
                _ => {}
            }
            match by {
                SortBy::Name => a.name.to_lowercase().cmp(&b.name.to_lowercase()),
                SortBy::Size => b.size.cmp(&a.size),
                SortBy::Modified => b.modified.cmp(&a.modified),
                SortBy::Type => a.extension.to_lowercase().cmp(&b.extension.to_lowercase()),
            }
        });
        let out = sort_listing(copy, by);
        assert_eq!(names(&out), names(&expected));
        let paths: Vec<String> = out.iter().map(|e| e.path.clone()).collect();
        let expected_paths: Vec<String> = expected.iter().map(|e| e.path.clone()).collect();
        assert_eq!(paths, expected_paths);
    }
}

#[test]
fn hidden_entries_dropped_unless_shown() {
    let input = vec![entry(".git", true, 0, None, ""), entry("src", true, 0, None, ""), entry(".env", false, 5, None, "env")];
    let kept = keep_listed(input, false);
    assert_eq!(names(&kept), vec!["src"]);
    let input = vec![entry(".git", true, 0, None, ""), entry("src", true, 0, None, "")];
    let kept = keep_listed(input, true);
    assert_eq!(names(&kept), vec![".git", "src"]);
}

#[test]
fn filter_by_name_ignoring_case() {
    let entries = sample();
    assert_eq!(filter_indices(&entries, ""), vec![0, 1, 2, 3, 4]);
    assert_eq!(filter_indices(&entries, "A"), vec![0, 1, 2, 3]);
    assert_eq!(filter_indices(&entries, "ETA"), vec![0, 1]);
    assert_eq!(filter_indices(&entries, ".md"), vec![3]);
    assert_eq!(filter_indices(&entries, "nothing"), Vec::<usize>::new());
}
