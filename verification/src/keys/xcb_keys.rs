//! Key combinations as the X server reports them: a mask of modifier bits and
//! a key symbol.

use vstd::prelude::*;
use vstd::std_specs::convert::FromSpecImpl;
use crate::keys::{Key, KeyCombo, ModKey};

verus! {

/// A key combination in the X server's terms.
#[derive(Debug, Clone, Copy, PartialEq, Eq, Hash)]
pub struct XcbKeyCombo {
    pub mod_mask: u32,
    pub key: u32,
}

/// The bit that stands for `mod_key` in a modifier mask of the X protocol.
pub open spec fn mod_mask(mod_key: ModKey) -> u32 {
    match mod_key {
        ModKey::Shift => 0x01,
        ModKey::Lock => 0x02,
        ModKey::Control => 0x04,
        ModKey::Mod1 => 0x08,
        ModKey::Mod2 => 0x10,
        ModKey::Mod3 => 0x20,
        ModKey::Mod4 => 0x40,
        ModKey::Mod5 => 0x80,
    }
}

/// The bits of the keys in `mod_keys`, in one mask.
pub open spec fn mask_of(mod_keys: Seq<ModKey>) -> u32
    decreases mod_keys.len(),
{
    if mod_keys.len() == 0 {
        0
    } else {
        mask_of(mod_keys.drop_last()) | mod_mask(mod_keys.last())
    }
}

/// The masks that xcb defines for the eight modifier keys, `MOD_MASK_SHIFT`,
/// `MOD_MASK_LOCK`, `MOD_MASK_CONTROL` and `MOD_MASK_1` to `MOD_MASK_5`, in
/// that order. In xcb's description of the protocol these are the bits 0 to 7.
#[verifier::external_body]
fn xcb_mod_masks() -> (masks: [u32; 8])
    ensures
        masks@ == seq![0x01u32, 0x02u32, 0x04u32, 0x08u32, 0x10u32, 0x20u32, 0x40u32, 0x80u32],
{
    [
        xcb::MOD_MASK_SHIFT,
        xcb::MOD_MASK_LOCK,
        xcb::MOD_MASK_CONTROL,
        xcb::MOD_MASK_1,
        xcb::MOD_MASK_2,
        xcb::MOD_MASK_3,
        xcb::MOD_MASK_4,
        xcb::MOD_MASK_5,
    ]
}

impl From<ModKey> for u32 {
    /// The bit of the modifier key in a modifier mask.
    fn from(mod_key: ModKey) -> (mask: u32)
        ensures
            mask == mod_mask(mod_key),
    {
        let masks = xcb_mod_masks();
        match mod_key {
            ModKey::Shift => masks[0],
            ModKey::Lock => masks[1],
            ModKey::Control => masks[2],
            ModKey::Mod1 => masks[3],
            ModKey::Mod2 => masks[4],
            ModKey::Mod3 => masks[5],
            ModKey::Mod4 => masks[6],
            ModKey::Mod5 => masks[7],
        }
    }
}

impl FromSpecImpl<ModKey> for u32 {
    open spec fn obeys_from_spec() -> bool {
        true
    }

    open spec fn from_spec(mod_key: ModKey) -> u32 {
        mod_mask(mod_key)
    }
}

impl From<Key> for u32 {
    /// The code of the character that the key types.
    fn from(key: Key) -> (code: u32)
        ensures
            code == key.0 as u32,
    {
        key.0 as u32
    }
}

impl FromSpecImpl<Key> for u32 {
    open spec fn obeys_from_spec() -> bool {
        true
    }

    open spec fn from_spec(key: Key) -> u32 {
        key.0 as u32
    }
}

/// The conversion of key combinations into the X server's terms.
pub struct XcbKeyConvert;

impl XcbKeyConvert {
    /// The combination in the X server's terms: the bits of its modifier
    /// keys in one mask, and the code of its key.
    pub fn convert(&self, key: KeyCombo) -> (combo: XcbKeyCombo)
        ensures
            combo == (XcbKeyCombo { mod_mask: mask_of(key@.mod_keys), key: key@.key as u32 }),
    {
        let mut mask: u32 = 0;
        let mut i: usize = 0;
        while i < key.mod_keys.len()
            invariant
                i <= key.mod_keys@.len(),
                mask == mask_of(key.mod_keys@.take(i as int)),
            decreases key.mod_keys@.len() - i,
        {
            let bit: u32 = u32::from(key.mod_keys[i]);
            assert(key.mod_keys@.take(i + 1).drop_last() =~= key.mod_keys@.take(i as int));
            mask = mask | bit;
            i = i + 1;
        }
        assert(key.mod_keys@.take(i as int) =~= key.mod_keys@);
        XcbKeyCombo { mod_mask: mask, key: u32::from(key.key) }
    }
}

impl From<KeyCombo> for XcbKeyCombo {
    fn from(key: KeyCombo) -> (combo: XcbKeyCombo)
        ensures
            combo == (XcbKeyCombo { mod_mask: mask_of(key@.mod_keys), key: key@.key as u32 }),
    {
        XcbKeyConvert.convert(key)
    }
}

impl FromSpecImpl<KeyCombo> for XcbKeyCombo {
    open spec fn obeys_from_spec() -> bool {
        true
    }

    open spec fn from_spec(key: KeyCombo) -> XcbKeyCombo {
        XcbKeyCombo { mod_mask: mask_of(key@.mod_keys), key: key@.key as u32 }
    }
}

} // verus!
