//! What a single run was asked to do, as gathered from its options.

use vstd::prelude::*;
use vstd::string::*;

verus! {

/// What a run was asked to do.
#[derive(Clone, Copy, PartialEq, Eq, Debug, Structural)]
pub enum CommandOption {
    Compile,
    Build,
    Help,
}

/// The options of a run.
#[derive(Debug)]
pub struct Metadata {
    command_option: CommandOption,
    input: String,
    stylesheet: Option<String>,
    links: Option<String>,
    sitename: Option<String>,
    menu: Option<String>,
    icon: bool,
    analytics: Option<String>,
}

/// The options of a run, as plain values.
pub struct MetadataView {
    pub command_option: CommandOption,
    pub input: String,
    pub stylesheet: Option<String>,
    pub links: Option<String>,
    pub sitename: Option<String>,
    pub menu: Option<String>,
    pub icon: bool,
    pub analytics: Option<String>,
}

impl View for Metadata {
    type V = MetadataView;

    closed spec fn view(&self) -> MetadataView {
        MetadataView {
            command_option: self.command_option,
            input: self.input,
            stylesheet: self.stylesheet,
            links: self.links,
            sitename: self.sitename,
            menu: self.menu,
            icon: self.icon,
            analytics: self.analytics,
        }
    }
}

/// A copy of a text that may be absent.
fn copy_of(text: &Option<String>) -> (r: Option<String>)
    ensures
        r == *text,
{
    match text {
        Some(s) => Some(s.clone()),
        None => None,
    }
}

impl Clone for Metadata {
    fn clone(&self) -> (r: Self)
        ensures
            r@ == self@,
    {
        Metadata {
            command_option: self.command_option,
            input: self.input.clone(),
            stylesheet: copy_of(&self.stylesheet),
            links: copy_of(&self.links),
            sitename: copy_of(&self.sitename),
            menu: copy_of(&self.menu),
            icon: self.icon,
            analytics: copy_of(&self.analytics),
        }
    }
}

impl Default for Metadata {
    /// The options of a run that was asked for nothing: it shows the help.
    fn default() -> (r: Self)
        ensures
            r@.command_option == CommandOption::Help,
            r@.input@ == Seq::<char>::empty(),
            r@.stylesheet is None,
            r@.links is None,
            r@.sitename is None,
            r@.menu is None,
            !r@.icon,
            r@.analytics is None,
    {
        Metadata {
            command_option: CommandOption::Help,
            input: String::new(),
            stylesheet: None,
            links: None,
            sitename: None,
            menu: None,
            icon: false,
            analytics: None,
        }
    }
}

impl Metadata {
    /// The options of a run, from their values.
    pub fn new(
        command_option: CommandOption,
        input: String,
        stylesheet: Option<String>,
        links: Option<String>,
        sitename: Option<String>,
        menu: Option<String>,
        icon: bool,
        analytics: Option<String>,
    ) -> (r: Self)
        ensures
            r@ == (MetadataView {
                command_option,
                input,
                stylesheet,
                links,
                sitename,
                menu,
                icon,
                analytics,
            }),
    {
        Metadata { command_option, input, stylesheet, links, sitename, menu, icon, analytics }
    }

    /// The same options for another input.
    pub fn with_input(&self, input: String) -> (r: Self)
        ensures
            r@ == (MetadataView { input, ..self@ }),
    {
        Metadata {
            command_option: self.command_option,
            input,
            stylesheet: copy_of(&self.stylesheet),
            links: copy_of(&self.links),
            sitename: copy_of(&self.sitename),
            menu: copy_of(&self.menu),
            icon: self.icon,
            analytics: copy_of(&self.analytics),
        }
    }

    pub fn get_stylesheet(&self) -> (r: Option<String>)
        ensures
            r == self@.stylesheet,
    {
        copy_of(&self.stylesheet)
    }

    pub fn get_links(&self) -> (r: Option<String>)
        ensures
            r == self@.links,
    {
        copy_of(&self.links)
    }

    pub fn get_sitename(&self) -> (r: Option<String>)
        ensures
            r == self@.sitename,
    {
        copy_of(&self.sitename)
    }

    pub fn get_menu(&self) -> (r: Option<String>)
        ensures
            r == self@.menu,
    {
        copy_of(&self.menu)
    }

    pub fn is_icon(&self) -> (r: bool)
        ensures
            r == self@.icon,
    {
        self.icon
    }

    pub fn get_analytics(&self) -> (r: Option<String>)
        ensures
            r == self@.analytics,
    {
        copy_of(&self.analytics)
    }

    pub fn get_command_option(&self) -> (r: CommandOption)
        ensures
            r == self@.command_option,
    {
        self.command_option
    }

    pub fn get_input(&self) -> (r: String)
        ensures
            r == self@.input,
    {
        self.input.clone()
    }
}

} // verus!
