use forgejo_import::github::GithubRepository;
use forgejo_import::sort::sort_repositories_by_size;

fn repo(name: &str, size: i64) -> GithubRepository {
    GithubRepository {
        name: name.to_string(),
        clone_url: format!("https://github.com/o/{}.git", name),
        html_url: format!("https://github.com/o/{}", name),
        description: None,
        size,
    }
}

fn names(v: &[GithubRepository]) -> Vec<String> {
    v.iter().map(|r| r.name.clone()).collect()
}

#[test]
fn listing_is_sorted_ascending_by_size() {
    let input = vec![repo("big", 9000), repo("mid", 70), repo("tiny", 10)];
    let sorted = sort_repositories_by_size(&input);
    assert_eq!(names(&sorted), vec!["tiny", "mid", "big"]);
    for w in sorted.windows(2) {
        assert!(w[0].size <= w[1].size);
    }
}

#[test]
fn equal_sizes_keep_arrival_order() {
    let input = vec![repo("b", 5), repo("a", 5), repo("c", 1)];
    let sorted = sort_repositories_by_size(&input);
    assert_eq!(names(&sorted), vec!["c", "b", "a"]);
}

#[test]
fn empty_listing_sorts_to_empty() {
    let sorted = sort_repositories_by_size(&Vec::new());
    assert!(sorted.is_empty());
}
