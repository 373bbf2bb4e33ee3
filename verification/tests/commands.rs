use blog::cli::{Cli, Subcommand};
use blog::metadata::{CommandOption, Metadata};

fn s(text: &str) -> String {
    text.to_string()
}

fn args(words: &[&str]) -> Vec<String> {
    words.iter().map(|w| w.to_string()).collect()
}

#[test]
fn subcommands() {
    assert_eq!(Subcommand::from(None, None), Subcommand::Help);
    assert_eq!(Subcommand::from(Some(s("build")), None), Subcommand::Build);
    assert_eq!(Subcommand::from(Some(s("clean")), Some(s("x"))), Subcommand::Clean);
    assert_eq!(Subcommand::from(Some(s("version")), None), Subcommand::Version);
    assert_eq!(Subcommand::from(Some(s("new")), Some(s("site"))), Subcommand::New(s("site")));
    assert_eq!(Subcommand::from(Some(s("new")), None), Subcommand::Help);
    assert_eq!(Subcommand::from(Some(s("other")), None), Subcommand::Help);
}

#[test]
fn verbosity() {
    assert_eq!(Cli::new(args(&["blog", "build"])).verbosity, 1);
    assert_eq!(Cli::new(args(&["blog", "build", "--verbose"])).verbosity, 2);
    assert_eq!(Cli::new(args(&["blog", "build", "--quiet"])).verbosity, 0);
    assert_eq!(Cli::new(args(&["blog", "build", "-q"])).verbosity, 0);
    assert_eq!(Cli::new(args(&["blog", "build", "-v"])).verbosity, 2);
    assert_eq!(Cli::new(args(&["blog", "build", "-vv"])).verbosity, 3);
    assert_eq!(Cli::new(args(&["blog", "build", "--very-verbose"])).verbosity, 3);
    assert_eq!(Cli::new(args(&["blog", "build", "-vv", "-q"])).verbosity, 0);
    assert_eq!(Cli::new(args(&["blog", "build", "-q", "-v"])).verbosity, 2);
    assert_eq!(Cli::new(args(&[])).verbosity, 1);
}

#[test]
fn command_line() {
    let cli = Cli::new(args(&["blog", "new", "site", "-v"]));
    assert_eq!(cli.subcommand, Subcommand::New(s("site")));
    assert_eq!(cli.verbosity, 2);
    assert_eq!(Cli::new(args(&["blog"])).subcommand, Subcommand::Help);
    assert_eq!(Cli::new(args(&["blog", "new"])).subcommand, Subcommand::Help);
}

#[test]
fn metadata_default() {
    let metadata = Metadata::default();
    assert_eq!(metadata.get_command_option(), CommandOption::Help);
    assert_eq!(metadata.get_input(), "");
    assert_eq!(metadata.get_stylesheet(), None);
    assert_eq!(metadata.get_links(), None);
    assert_eq!(metadata.get_sitename(), None);
    assert_eq!(metadata.get_menu(), None);
    assert!(!metadata.is_icon());
    assert_eq!(metadata.get_analytics(), None);
}

#[test]
fn metadata_getters() {
    let metadata = Metadata::new(
        CommandOption::Build,
        s("in"),
        Some(s("css")),
        Some(s("links")),
        Some(s("site")),
        Some(s("menu")),
        true,
        Some(s("tag")),
    );
    assert_eq!(metadata.get_command_option(), CommandOption::Build);
    assert_eq!(metadata.get_input(), "in");
    assert_eq!(metadata.get_stylesheet(), Some(s("css")));
    assert_eq!(metadata.get_links(), Some(s("links")));
    assert_eq!(metadata.get_sitename(), Some(s("site")));
    assert_eq!(metadata.get_menu(), Some(s("menu")));
    assert!(metadata.is_icon());
    assert_eq!(metadata.get_analytics(), Some(s("tag")));
}

#[test]
fn metadata_with_input_changes_the_input_alone() {
    let metadata = Metadata::new(
        CommandOption::Compile,
        s("in"),
        None,
        None,
        Some(s("site")),
        None,
        true,
        None,
    );
    let other = metadata.with_input(s("other"));
    assert_eq!(other.get_input(), "other");
    assert_eq!(other.get_command_option(), CommandOption::Compile);
    assert_eq!(other.get_sitename(), Some(s("site")));
    assert!(other.is_icon());
    assert_eq!(metadata.get_input(), "in");
    assert_eq!(metadata.clone().get_input(), "in");
}
