//! What the window manager is set up with.

use vstd::prelude::*;
use crate::keys::ModKey;
use crate::layouts::Layout;

verus! {

/// The settings of the window manager.
#[derive(Debug)]
pub struct Config {
    /// The modifier key that every key binding holds.
    pub mod_key: ModKey,
    /// The names of the workspaces, in their order.
    pub workspaces: Vec<String>,
    /// The layouts that each workspace can use; the first one is in use.
    pub layouts: Vec<Layout>,
}

/// What a [`Config`] holds.
pub struct ConfigView {
    pub mod_key: ModKey,
    pub workspaces: Seq<Seq<char>>,
    pub layouts: Seq<Layout>,
}

impl View for Config {
    type V = ConfigView;

    open spec fn view(&self) -> ConfigView {
        ConfigView {
            mod_key: self.mod_key,
            workspaces: Seq::new(self.workspaces@.len(), |i: int| self.workspaces@[i]@),
            layouts: self.layouts@,
        }
    }
}

impl Clone for Config {
    fn clone(&self) -> (config: Self)
        ensures
            config@ == self@,
    {
        let config = Config {
            mod_key: self.mod_key,
            workspaces: self.workspaces.clone(),
            layouts: self.layouts.clone(),
        };
        assert(config@.workspaces =~= self@.workspaces);
        assert(config@.layouts =~= self@.layouts);
        config
    }
}

impl ConfigView {
    /// The settings that are used where none are given: the key `Mod4`, the
    /// workspaces `1` to `8`, and the layouts tall and full screen.
    pub open spec fn standard() -> ConfigView {
        ConfigView {
            mod_key: ModKey::Mod4,
            workspaces: seq!["1"@, "2"@, "3"@, "4"@, "5"@, "6"@, "7"@, "8"@],
            layouts: seq![Layout::Tall, Layout::FullScreen],
        }
    }
}

impl Config {
    /// The settings that are used where none are given.
    pub fn new() -> (config: Self)
        ensures
            config@ == ConfigView::standard(),
    {
        let mut workspaces: Vec<String> = Vec::new();
        workspaces.push("1".to_owned());
        workspaces.push("2".to_owned());
        workspaces.push("3".to_owned());
        workspaces.push("4".to_owned());
        workspaces.push("5".to_owned());
        workspaces.push("6".to_owned());
        workspaces.push("7".to_owned());
        workspaces.push("8".to_owned());
        let mut layouts: Vec<Layout> = Vec::new();
        layouts.push(Layout::Tall);
        layouts.push(Layout::FullScreen);
        let config = Config { mod_key: ModKey::Mod4, workspaces, layouts };
        assert(config@.workspaces =~= ConfigView::standard().workspaces);
        assert(config@.layouts =~= ConfigView::standard().layouts);
        config
    }
}

} // verus!
