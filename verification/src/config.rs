//! The configuration of a site, as the pipeline reads it.

use vstd::prelude::*;
use vstd::string::*;
use crate::text::{clone_strings, texts};

verus! {

/// Site style options.
#[derive(Clone, Copy, PartialEq, Eq, Debug, Structural)]
pub enum SiteStyle {
    /// Technology style.
    Tech,
    /// Book style.
    Book,
}

impl SiteStyle {
    /// The name of a style in the configuration file.
    pub open spec fn name(self) -> Seq<char> {
        match self {
            SiteStyle::Tech => "tech"@,
            SiteStyle::Book => "book"@,
        }
    }

    /// The name of this style in the configuration file.
    pub fn display(&self) -> (s: String)
        ensures
            s@ == self.name(),
    {
        match self {
            SiteStyle::Tech => String::from_str("tech"),
            SiteStyle::Book => String::from_str("book"),
        }
    }
}

/// Configuration information for the site.
#[derive(Debug)]
pub struct SiteConfig {
    /// Site name (to appear in page title).
    pub name: String,
    /// Site icon path (for favicon).
    pub icon: Option<String>,
    /// Site style (for CSS source).
    pub style: Option<SiteStyle>,
}

/// Configuration information for site menu.
#[derive(Debug)]
pub struct MenuConfig {
    /// Menu button names.
    pub names: Vec<String>,
    /// Menu button links.
    pub links: Vec<String>,
}

/// Configuration information for analytics data.
#[derive(Debug)]
pub struct AnalyticsConfig {
    /// Location of analytics tag relative to source directory.
    pub tag: String,
}

/// Configuration information for site media (images, etc.).
#[derive(Debug)]
pub struct MediaConfig {
    /// File paths, relative to media subdir, of the media that go into the
    /// site.
    pub files: Vec<String>,
}

/// The settings of a site.
#[derive(Debug)]
pub struct Config {
    /// Site configuration information.
    pub site: SiteConfig,
    /// Menu information.
    pub menu: Option<MenuConfig>,
    /// Analytics information.
    pub analytics: Option<AnalyticsConfig>,
    /// Media information.
    pub media: Option<MediaConfig>,
}

/// A menu as two lists of texts: the names of its buttons and their links.
pub struct MenuView {
    pub names: Seq<Seq<char>>,
    pub links: Seq<Seq<char>>,
}

/// The settings of a site with every text as a sequence of characters.
pub struct ConfigView {
    pub name: Seq<char>,
    pub icon: Option<Seq<char>>,
    pub style: Option<SiteStyle>,
    pub menu: Option<MenuView>,
    pub analytics: Option<Seq<char>>,
    pub media: Option<Seq<Seq<char>>>,
}

impl View for MenuConfig {
    type V = MenuView;

    open spec fn view(&self) -> MenuView {
        MenuView { names: texts(self.names@), links: texts(self.links@) }
    }
}

impl View for Config {
    type V = ConfigView;

    open spec fn view(&self) -> ConfigView {
        ConfigView {
            name: self.site.name@,
            icon: match self.site.icon {
                Some(i) => Some(i@),
                None => None,
            },
            style: self.site.style,
            menu: match self.menu {
                Some(m) => Some(MenuView { names: texts(m.names@), links: texts(m.links@) }),
                None => None,
            },
            analytics: match self.analytics {
                Some(a) => Some(a.tag@),
                None => None,
            },
            media: match self.media {
                Some(m) => Some(texts(m.files@)),
                None => None,
            },
        }
    }
}

impl Clone for SiteConfig {
    fn clone(&self) -> (r: Self)
        ensures
            r == *self,
    {
        SiteConfig {
            name: self.name.clone(),
            icon: match &self.icon {
                Some(i) => Some(i.clone()),
                None => None,
            },
            style: self.style,
        }
    }
}

impl Clone for MenuConfig {
    fn clone(&self) -> (r: Self)
        ensures
            r.names@ == self.names@,
            r.links@ == self.links@,
    {
        MenuConfig { names: clone_strings(&self.names), links: clone_strings(&self.links) }
    }
}

impl Clone for AnalyticsConfig {
    fn clone(&self) -> (r: Self)
        ensures
            r == *self,
    {
        AnalyticsConfig { tag: self.tag.clone() }
    }
}

impl Clone for MediaConfig {
    fn clone(&self) -> (r: Self)
        ensures
            r.files@ == self.files@,
    {
        MediaConfig { files: clone_strings(&self.files) }
    }
}

impl Clone for Config {
    fn clone(&self) -> (r: Self)
        ensures
            r@ == self@,
    {
        Config {
            site: self.site.clone(),
            menu: match &self.menu {
                Some(m) => Some(m.clone()),
                None => None,
            },
            analytics: match &self.analytics {
                Some(a) => Some(a.clone()),
                None => None,
            },
            media: match &self.media {
                Some(m) => Some(m.clone()),
                None => None,
            },
        }
    }
}

} // verus!
