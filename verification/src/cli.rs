//! What the command line asks for.

use vstd::prelude::*;
use vstd::string::*;
use crate::text::{chars_of, same_text};

verus! {

/// Subcommands available to the user.
#[derive(PartialEq, Debug)]
pub enum Subcommand {
    /// Print help information to the user.
    Help,
    /// Generate a new site with the provided name.
    New(String),
    /// Build the site.
    Build,
    /// Print version information.
    Version,
    /// Clean the site (delete the output directory).
    Clean,
}

impl Subcommand {
    /// The subcommand that a word and the argument behind it ask for.
    pub open spec fn of(string: Option<String>, argument: Option<String>) -> Subcommand {
        match string {
            None => Subcommand::Help,
            Some(s) => if s@ == "new"@ {
                match argument {
                    Some(a) => Subcommand::New(a),
                    None => Subcommand::Help,
                }
            } else if s@ == "build"@ {
                Subcommand::Build
            } else if s@ == "clean"@ {
                Subcommand::Clean
            } else if s@ == "version"@ {
                Subcommand::Version
            } else {
                Subcommand::Help
            },
        }
    }

    /// Construct a subcommand from a given word, if one was provided, and
    /// the argument that follows it on the command line, if there is one.
    pub fn from(string: Option<String>, argument: Option<String>) -> (r: Self)
        ensures
            r == Self::of(string, argument),
    {
        // If no subcommand provided, return a help menu
        let string = match string {
            Some(s) => s,
            None => {
                return Subcommand::Help;
            },
        };
        if same_text(string.as_str(), "new") {
            // Get the name of the new site
            match argument {
                Some(a) => Subcommand::New(a),
                None => Subcommand::Help,
            }
        } else if same_text(string.as_str(), "build") {
            Subcommand::Build
        } else if same_text(string.as_str(), "clean") {
            Subcommand::Clean
        } else if same_text(string.as_str(), "version") {
            Subcommand::Version
        } else {
            Subcommand::Help
        }
    }
}

/// Whether `-v` stands somewhere in a word, from `i` on.
pub open spec fn has_dash_v(word: Seq<char>, i: int) -> bool
    decreases word.len() - i,
{
    if i < 0 || i + 1 >= word.len() {
        false
    } else {
        (word[i] == '-' && word[i + 1] == 'v') || has_dash_v(word, i + 1)
    }
}

/// How many `v` stand among the first `n` characters of a word.
pub open spec fn count_v(word: Seq<char>, n: int) -> nat
    decreases n,
{
    if n <= 0 || n > word.len() {
        0
    } else {
        count_v(word, n - 1) + if word[n - 1] == 'v' {
            1nat
        } else {
            0nat
        }
    }
}

/// The verbosity after one more word of the command line. A word that holds
/// `-v` asks for one more than the number of its `v`, as far as that can be
/// counted.
pub open spec fn verbosity_after(before: usize, word: Seq<char>) -> usize {
    if word == "--verbose"@ {
        2
    } else if word == "--quiet"@ {
        0
    } else if has_dash_v(word, 0) {
        if count_v(word, word.len() as int) < usize::MAX {
            (count_v(word, word.len() as int) + 1) as usize
        } else {
            usize::MAX
        }
    } else if word == "-q"@ {
        0
    } else {
        before
    }
}

/// The verbosity that the first `n` words of a command line ask for. Where
/// none speaks of it, it is 1.
pub open spec fn verbosity_of(args: Seq<String>, n: int) -> usize
    decreases n,
{
    if n <= 0 || n > args.len() {
        1
    } else {
        verbosity_after(verbosity_of(args, n - 1), args[n - 1]@)
    }
}

/// A command line interface.
#[derive(Debug)]
pub struct Cli {
    /// The user-provided subcommand.
    pub subcommand: Subcommand,
    /// The verbosity of the output: silent is 0, the default is 1, verbose
    /// is 2 or greater.
    pub verbosity: usize,
}

impl Cli {
    /// The verbosity after one more word of the command line.
    fn verbosity_step(before: usize, word: &str) -> (r: usize)
        ensures
            r == verbosity_after(before, word@),
    {
        if same_text(word, "--verbose") {
            return 2;
        }
        if same_text(word, "--quiet") {
            return 0;
        }
        let chars = chars_of(word);
        let mut found = false;
        let mut i: usize = 0;
        while i < chars.len() && i + 1 < chars.len()
            invariant_except_break
                !found,
                has_dash_v(chars@, 0) == has_dash_v(chars@, i as int),
            invariant
                i <= chars.len(),
            ensures
                found == has_dash_v(chars@, 0),
            decreases chars.len() - i,
        {
            if chars[i] == '-' && chars[i + 1] == 'v' {
                found = true;
                break ;
            }
            i += 1;
        }
        if found {
            let mut count: usize = 0;
            let mut k: usize = 0;
            while k < chars.len()
                invariant
                    k <= chars.len(),
                    count == count_v(chars@, k as int),
                    count <= k,
                decreases chars.len() - k,
            {
                if chars[k] == 'v' {
                    count += 1;
                }
                k += 1;
            }
            if count < usize::MAX {
                count + 1
            } else {
                usize::MAX
            }
        } else if same_text(word, "-q") {
            0
        } else {
            before
        }
    }

    /// Construct the command line interface from the words of the command
    /// line, the program's own name first.
    pub fn new(args: Vec<String>) -> (r: Self)
        ensures
            r.verbosity == verbosity_of(args@, args.len() as int),
            r.subcommand == Subcommand::of(
                if args.len() > 1 {
                    Some(args[1])
                } else {
                    None
                },
                if args.len() > 2 {
                    Some(args[2])
                } else {
                    None
                },
            ),
    {
        // Default verbosity is 1
        let mut verbosity: usize = 1;
        // Check for verbosity
        let mut i: usize = 0;
        while i < args.len()
            invariant
                i <= args.len(),
                verbosity == verbosity_of(args@, i as int),
            decreases args.len() - i,
        {
            verbosity = Self::verbosity_step(verbosity, args[i].as_str());
            i += 1;
        }
        let string = if args.len() > 1 {
            Some(args[1].clone())
        } else {
            None
        };
        let argument = if args.len() > 2 {
            Some(args[2].clone())
        } else {
            None
        };
        Cli { subcommand: Subcommand::from(string, argument), verbosity }
    }
}

} // verus!
