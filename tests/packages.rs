use hypr_settings::packages::{
    parse_installed_packages, parse_package_updates, parse_search_results, query_program,
};

#[test]
fn updates_are_read_from_arrow_lines() {
    let text = "linux 6.9.1.arch1-1 -> 6.9.2.arch1-1\n\nfirefox 126.0-1 -> 126.0.1-1\nbroken line\n";
    let p = parse_package_updates(text);
    assert_eq!(p.len(), 2);
    assert_eq!(p[0].name, "linux");
    assert_eq!(p[0].version, "6.9.1.arch1-1");
    assert_eq!(p[0].new_version.as_deref(), Some("6.9.2.arch1-1"));
    assert_eq!(p[0].updatable, Some(true));
    assert!(p[0].installed);
    assert_eq!(p[0].description, "");
    assert_eq!(p[1].name, "firefox");
    assert_eq!(p[1].new_version.as_deref(), Some("126.0.1-1"));
}

#[test]
fn no_updates_gives_empty_list() {
    assert!(parse_package_updates("").is_empty());
    assert!(parse_package_updates("   \n\t\n").is_empty());
}

#[test]
fn installed_listing_is_read_field_by_field() {
    let text = "Name            : bash\r\n\
Version         : 5.2.026-2\r\n\
Description     : The GNU Bourne Again shell  \r\n\
Architecture    : x86_64\r\n\
Installed Size  : 9.3 MiB\r\n\
\r\n\
Name            : zsh\n\
Version         : 5.9-5\n\
Repository      : extra\n";
    let p = parse_installed_packages(text);
    assert_eq!(p.len(), 2);
    assert_eq!(p[0].name, "bash");
    assert_eq!(p[0].version, "5.2.026-2");
    assert_eq!(p[0].description, "The GNU Bourne Again shell");
    assert_eq!(p[0].size.as_deref(), Some("9.3 MiB"));
    assert_eq!(p[0].repo, None);
    assert!(p[0].installed);
    assert_eq!(p[1].name, "zsh");
    assert_eq!(p[1].repo.as_deref(), Some("extra"));
    assert_eq!(p[1].size, None);
}

#[test]
fn fields_before_a_name_are_ignored() {
    let p = parse_installed_packages("Version         : 1.0\nName            : a\n");
    assert_eq!(p.len(), 1);
    assert_eq!(p[0].version, "");
}

#[test]
fn search_results_pair_with_descriptions() {
    let text = "extra/vim 9.1.0-1 [installed]\n    Vi Improved, a highly configurable text editor\naur/vim-git 9.1.r1-1 (+12 0.50)\n    Vim from git\ncore/last 1.0\n";
    let p = parse_search_results(text);
    assert_eq!(p.len(), 3);
    assert_eq!(p[0].name, "vim");
    assert_eq!(p[0].repo.as_deref(), Some("extra"));
    assert_eq!(p[0].version, "9.1.0-1");
    assert!(p[0].installed);
    assert_eq!(p[0].description, "Vi Improved, a highly configurable text editor");
    assert_eq!(p[1].name, "vim-git");
    assert!(!p[1].installed);
    assert_eq!(p[1].description, "Vim from git");
    assert_eq!(p[2].name, "last");
    assert_eq!(p[2].description, "");
}

#[test]
fn search_skips_lines_that_name_no_package() {
    let p = parse_search_results("no slash here\na/b/c 1.0\nonly/name\n");
    assert!(p.is_empty());
}

#[test]
fn query_program_follows_helper() {
    assert_eq!(query_program("yay"), "yay");
    assert_eq!(query_program("paru"), "paru");
    assert_eq!(query_program("pacman"), "pacman");
    assert_eq!(query_program("anything"), "pacman");
}

#[test]
fn field_label_is_taken_out_wherever_it_occurs() {
    let p = parse_installed_packages("Name            : a\nDescription     : see Description     : x\n");
    assert_eq!(p[0].description, "see x");
}
