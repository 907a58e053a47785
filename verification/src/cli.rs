//! The command-line arguments and what the program does for them.
use vstd::prelude::*;

use crate::text::{chars_of, join_chars, join_with, str_eq, string_of, string_views, trim, trim_str};
use crate::theme::ThemeMode;

verus! {

/// The command-line arguments.
#[derive(Debug)]
pub struct CliArgs {
    /// The color theme: auto, dark or light.
    pub theme: ThemeMode,
    /// Translate the query as a sentence even when it is one word.
    pub sentence: bool,
    /// The words of the query, or `i` for the interactive interface.
    pub query: Vec<String>,
    /// An HTTP or SOCKS5 proxy.
    pub proxy: Option<String>,
    /// Show the recent history.
    pub show_history: bool,
    /// Show only the favorite words.
    pub show_favorites: bool,
}

/// What the program does for its arguments.
#[derive(Debug)]
pub enum CliCommand {
    /// List the history, or only the favorites.
    ShowHistory { only_favorites: bool },
    /// Print how to use the program.
    Usage,
    /// Start the interactive interface.
    Interactive,
    /// Answer the query made of the words joined by spaces.
    Query(String),
}

/// The command for the arguments: listing the history comes first; no
/// query prints the usage; the single word `i` (without the sentence flag)
/// starts the interactive interface; any other query is answered.
pub fn plan_command(args: &CliArgs) -> (r: CliCommand)
    ensures
        (args.show_history || args.show_favorites) ==> r == (CliCommand::ShowHistory {
            only_favorites: args.show_favorites,
        }),
        !(args.show_history || args.show_favorites) && args.query@.len() == 0 ==> r is Usage,
        !(args.show_history || args.show_favorites) && args.query@.len() > 0 ==> {
            if !args.sentence && args.query@.len() == 1 && args.query@[0]@ == "i"@ {
                r is Interactive
            } else {
                r matches CliCommand::Query(q) && q@ == join_with(string_views(args.query@), seq![' '])
            }
        },
{
    if args.show_history || args.show_favorites {
        return CliCommand::ShowHistory { only_favorites: args.show_favorites };
    }
    if args.query.len() == 0 {
        return CliCommand::Usage;
    }
    if !args.sentence && args.query.len() == 1 && str_eq(args.query[0].as_str(), "i") {
        return CliCommand::Interactive;
    }
    let parts = crate::dict::chars_of_strings(&args.query);
    let sep = vec![' '];
    assert(sep@ =~= seq![' ']);
    let joined = join_chars(&parts, &sep);
    CliCommand::Query(string_of(&joined))
}

/// The proxy that requests go through: the given one unless it is blank.
pub fn effective_proxy(proxy: Option<&str>) -> (r: Option<String>)
    ensures
        match proxy {
            Some(p) => if trim(p@).len() == 0 {
                r is None
            } else {
                r matches Some(q) && q@ == p@
            },
            None => r is None,
        },
{
    match proxy {
        Some(p) => {
            let t = trim_str(p);
            if t.as_str().is_empty() {
                None
            } else {
                Some(p.to_string())
            }
        },
        None => None,
    }
}

} // verus!
