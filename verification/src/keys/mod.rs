//! Keys and key combinations, as the window manager names them.

use vstd::prelude::*;

pub mod xcb_keys;

verus! {

/// A modifier key.
#[derive(Debug, Clone, Copy, PartialEq, Eq, Structural)]
pub enum ModKey {
    Shift,
    Lock,
    Control,
    Mod1,
    Mod2,
    Mod3,
    Mod4,
    Mod5,
}

/// A key, named by the character it types.
#[derive(Debug, Clone, Copy, PartialEq, Eq, Structural)]
pub struct Key(pub char);

/// A key pressed while modifier keys are held.
#[derive(Debug, PartialEq, Eq)]
pub struct KeyCombo {
    pub mod_keys: Vec<ModKey>,
    pub key: Key,
}

/// What a [`KeyCombo`] holds.
pub struct KeyComboView {
    pub mod_keys: Seq<ModKey>,
    pub key: char,
}

impl View for KeyCombo {
    type V = KeyComboView;

    open spec fn view(&self) -> KeyComboView {
        KeyComboView { mod_keys: self.mod_keys@, key: self.key.0 }
    }
}

impl Clone for KeyCombo {
    fn clone(&self) -> (combo: Self)
        ensures
            combo@ == self@,
    {
        let combo = KeyCombo { mod_keys: self.mod_keys.clone(), key: self.key };
        assert(combo.mod_keys@ =~= self.mod_keys@);
        combo
    }
}

impl ModKey {
    /// The modifier key of that name.
    pub open spec fn named(name: Seq<char>) -> Option<ModKey> {
        if name == "shift"@ {
            Some(ModKey::Shift)
        } else if name == "ctrl"@ {
            Some(ModKey::Control)
        } else if name == "lock"@ {
            Some(ModKey::Lock)
        } else if name == "mod1"@ {
            Some(ModKey::Mod1)
        } else if name == "mod2"@ {
            Some(ModKey::Mod2)
        } else if name == "mod3"@ {
            Some(ModKey::Mod3)
        } else if name == "mod4"@ {
            Some(ModKey::Mod4)
        } else if name == "mod5"@ {
            Some(ModKey::Mod5)
        } else {
            None
        }
    }

    /// The modifier key that a configuration names `name`, if it names one.
    pub fn from_name(name: &str) -> (mod_key: Option<ModKey>)
        ensures
            mod_key == ModKey::named(name@),
    {
        let name = name.to_owned();
        if name == "shift".to_owned() {
            Some(ModKey::Shift)
        } else if name == "ctrl".to_owned() {
            Some(ModKey::Control)
        } else if name == "lock".to_owned() {
            Some(ModKey::Lock)
        } else if name == "mod1".to_owned() {
            Some(ModKey::Mod1)
        } else if name == "mod2".to_owned() {
            Some(ModKey::Mod2)
        } else if name == "mod3".to_owned() {
            Some(ModKey::Mod3)
        } else if name == "mod4".to_owned() {
            Some(ModKey::Mod4)
        } else if name == "mod5".to_owned() {
            Some(ModKey::Mod5)
        } else {
            None
        }
    }
}

} // verus!
