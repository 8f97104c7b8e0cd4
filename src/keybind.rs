use vstd::prelude::*;

use crate::text::{
    after_first, before_first, contains_str, find_char, has_sub, trim, trim_of, upper_of,
    uppercase,
};
use crate::wlr::{WLR_MODIFIER_ALT, WLR_MODIFIER_CTRL, WLR_MODIFIER_LOGO, WLR_MODIFIER_SHIFT};

verus! {

/// A modifier key that a keybind can name.
#[allow(non_camel_case_types)]
#[derive(Debug, Clone, Copy, PartialEq, Eq, Structural)]
pub enum Mod {
    SUPER,
    SHIFT,
    ALT,
    CTRL,
}

/// Why a keybind could not be used.
#[derive(Debug, Clone, PartialEq, Eq)]
pub enum Error {
    /// The keybind holds no comma between its modifiers and its key.
    MalformedKeybind,
    /// The keybind is already bound, and overriding it was not asked for.
    BindConflict(String),
    /// No special workspace of this name exists.
    WorkspaceNotFound(String),
}

/// One entry of the compositor's bind table.
#[derive(Debug, Clone)]
pub struct LiveBind {
    pub modmask: u16,
    pub key: String,
}

pub open spec fn names_shift(u: Seq<char>) -> bool {
    has_sub(u, "SHIFT"@)
}

pub open spec fn names_ctrl(u: Seq<char>) -> bool {
    has_sub(u, "CTRL"@) || has_sub(u, "CONTROL"@)
}

pub open spec fn names_alt(u: Seq<char>) -> bool {
    has_sub(u, "ALT"@) || has_sub(u, "MOD1"@)
}

pub open spec fn names_super(u: Seq<char>) -> bool {
    has_sub(u, "SUPER"@) || has_sub(u, "MOD4"@) || has_sub(u, "WIN"@) || has_sub(u, "LOGO"@)
}

pub open spec fn one_if(b: bool, m: Mod) -> Seq<Mod> {
    if b {
        seq![m]
    } else {
        Seq::empty()
    }
}

/// The modifiers that an uppercased modifier segment names, in the fixed order
/// SHIFT, CTRL, ALT, SUPER.
pub open spec fn mods_named(u: Seq<char>) -> Seq<Mod> {
    one_if(names_shift(u), Mod::SHIFT) + one_if(names_ctrl(u), Mod::CTRL) + one_if(
        names_alt(u),
        Mod::ALT,
    ) + one_if(names_super(u), Mod::SUPER)
}

pub open spec fn bit_if(b: bool, bit: u16) -> u16 {
    if b {
        bit
    } else {
        0
    }
}

/// The bit that each modifier contributes to a mask.
pub open spec fn mod_bit(m: Mod) -> u16 {
    match m {
        Mod::SHIFT => WLR_MODIFIER_SHIFT,
        Mod::CTRL => WLR_MODIFIER_CTRL,
        Mod::ALT => WLR_MODIFIER_ALT,
        Mod::SUPER => WLR_MODIFIER_LOGO,
    }
}

/// The OR of the bits of the modifiers that `mods` holds.
pub open spec fn mask_of(mods: Seq<Mod>) -> u16 {
    bit_if(mods.contains(Mod::SHIFT), mod_bit(Mod::SHIFT)) | bit_if(
        mods.contains(Mod::CTRL),
        mod_bit(Mod::CTRL),
    ) | bit_if(mods.contains(Mod::ALT), mod_bit(Mod::ALT)) | bit_if(
        mods.contains(Mod::SUPER),
        mod_bit(Mod::SUPER),
    )
}

/// The modifiers of a keybind `<MODS>,<KEY>`.
pub open spec fn keybind_mods(s: Seq<char>) -> Seq<Mod> {
    mods_named(upper_of(before_first(s, ',')))
}

/// The mask of a keybind `<MODS>,<KEY>`.
pub open spec fn keybind_mask(s: Seq<char>) -> u16 {
    mask_of(keybind_mods(s))
}

/// The key of a keybind `<MODS>,<KEY>`: what follows the first comma, trimmed.
pub open spec fn keybind_key(s: Seq<char>) -> Seq<char> {
    trim_of(after_first(s, ','))
}

proof fn lemma_mods_named_contains(u: Seq<char>)
    ensures
        mods_named(u).contains(Mod::SHIFT) == names_shift(u),
        mods_named(u).contains(Mod::CTRL) == names_ctrl(u),
        mods_named(u).contains(Mod::ALT) == names_alt(u),
        mods_named(u).contains(Mod::SUPER) == names_super(u),
{
    let a = one_if(names_shift(u), Mod::SHIFT);
    let b = one_if(names_ctrl(u), Mod::CTRL);
    let c = one_if(names_alt(u), Mod::ALT);
    let d = one_if(names_super(u), Mod::SUPER);
    let s = mods_named(u);
    assert(s == a + b + c + d);
    assert forall|m: Mod| #[trigger] s.contains(m) <==> (a.contains(m) || b.contains(m) || c.contains(m) || d.contains(m)) by {
        if s.contains(m) {
            let k = choose|k: int| 0 <= k < s.len() && s[k] == m;
            if k < a.len() {
                assert(a[k] == m);
            } else if k < a.len() + b.len() {
                assert(b[k - a.len()] == m);
            } else if k < a.len() + b.len() + c.len() {
                assert(c[k - a.len() - b.len()] == m);
            } else {
                assert(d[k - a.len() - b.len() - c.len()] == m);
            }
        }
        if a.contains(m) {
            assert(s[0] == m);
        }
        if b.contains(m) {
            assert(s[a.len() as int] == m);
        }
        if c.contains(m) {
            assert(s[(a.len() + b.len()) as int] == m);
        }
        if d.contains(m) {
            assert(s[(a.len() + b.len() + c.len()) as int] == m);
        }
    }
    assert(a.contains(Mod::SHIFT) == names_shift(u)) by {
        if names_shift(u) {
            assert(a[0] == Mod::SHIFT);
        }
    }
    assert(b.contains(Mod::CTRL) == names_ctrl(u)) by {
        if names_ctrl(u) {
            assert(b[0] == Mod::CTRL);
        }
    }
    assert(c.contains(Mod::ALT) == names_alt(u)) by {
        if names_alt(u) {
            assert(c[0] == Mod::ALT);
        }
    }
    assert(d.contains(Mod::SUPER) == names_super(u)) by {
        if names_super(u) {
            assert(d[0] == Mod::SUPER);
        }
    }
}

/// The mask depends only on which modifiers are present, not on their order
/// or repetition.
pub proof fn mask_ignores_order(a: Seq<Mod>, b: Seq<Mod>)
    requires
        a.to_set() == b.to_set(),
    ensures
        mask_of(a) == mask_of(b),
{
    broadcast use vstd::set::group_set_axioms;

    assert forall|m: Mod| a.contains(m) == b.contains(m) by {
        assert(a.to_set().contains(m) == a.contains(m));
        assert(b.to_set().contains(m) == b.contains(m));
    }
}

/// Parse a keybind written `<MODS>,<KEY>` into its modifiers, their mask and
/// its key.
///
/// The text before the first comma is uppercased and searched for each
/// modifier's aliases as substrings; the key is the rest, trimmed.
pub fn parse_keybind(keybind: &str) -> (r: Result<(Vec<Mod>, u16, String), Error>)
    ensures
        r is Err <==> !keybind@.contains(','),
        r matches Err(e) ==> e == Error::MalformedKeybind,
        r matches Ok(p) ==> {
            &&& p.0@ == keybind_mods(keybind@)
            &&& p.1 == mask_of(p.0@)
            &&& p.1 == keybind_mask(keybind@)
            &&& p.2@ == keybind_key(keybind@)
        },
{
    let comma = match find_char(keybind, ',') {
        Some(i) => i,
        None => {
            return Err(Error::MalformedKeybind);
        },
    };
    let n = keybind.unicode_len();
    let mods_part = keybind.substring_char(0, comma);
    let key_part = keybind.substring_char(comma + 1, n);
    let upper = uppercase(mods_part);
    let u = upper.as_str();
    let mut mods: Vec<Mod> = Vec::new();
    let shift = contains_str(u, "SHIFT");
    if shift {
        mods.push(Mod::SHIFT);
    }
    let ctrl = contains_str(u, "CTRL") || contains_str(u, "CONTROL");
    if ctrl {
        mods.push(Mod::CTRL);
    }
    let alt = contains_str(u, "ALT") || contains_str(u, "MOD1");
    if alt {
        mods.push(Mod::ALT);
    }
    let sup = contains_str(u, "SUPER") || contains_str(u, "MOD4") || contains_str(u, "WIN")
        || contains_str(u, "LOGO");
    if sup {
        mods.push(Mod::SUPER);
    }
    let mask: u16 = (if shift { WLR_MODIFIER_SHIFT } else { 0 }) | (if ctrl {
        WLR_MODIFIER_CTRL
    } else {
        0
    }) | (if alt { WLR_MODIFIER_ALT } else { 0 }) | (if sup { WLR_MODIFIER_LOGO } else { 0 });
    let key = String::from_str(trim(key_part));
    proof {
        let ghost w = upper_of(before_first(keybind@, ','));
        assert(mods_part@ == before_first(keybind@, ','));
        assert(u@ == w);
        assert(mods@ =~= mods_named(w));
        lemma_mods_named_contains(w);
    }
    Ok((mods, mask, key))
}

/// Whether the bind table holds an entry with this mask and this key.
pub open spec fn bind_present(binds: Seq<LiveBind>, mask: u16, key: Seq<char>) -> bool {
    exists|i: int| 0 <= i < binds.len() && binds[i].modmask == mask && binds[i].key@ == key
}

/// An empty bind table binds nothing.
pub proof fn empty_table_binds_nothing(mask: u16, key: Seq<char>)
    ensures
        !bind_present(Seq::empty(), mask, key),
{
}

/// Whether `keybind` is already bound in the bind table `binds`: some entry has
/// both its mask and its key.
pub fn check_if_bound(keybind: &str, binds: &Vec<LiveBind>) -> (r: Result<bool, Error>)
    ensures
        r is Err <==> !keybind@.contains(','),
        r matches Err(e) ==> e == Error::MalformedKeybind,
        r matches Ok(b) ==> b == bind_present(
            binds@,
            keybind_mask(keybind@),
            keybind_key(keybind@),
        ),
{
    let (_, mask, key) = parse_keybind(keybind)?;
    let mut i: usize = 0;
    while i < binds.len()
        invariant
            keybind@.contains(','),
            mask == keybind_mask(keybind@),
            key@ == keybind_key(keybind@),
            i <= binds@.len(),
            forall|k: int|
                0 <= k < i ==> !(binds@[k].modmask == mask && binds@[k].key@ == key@),
        decreases binds.len() - i,
    {
        let e = &binds[i];
        if e.modmask == mask && e.key == key {
            return Ok(true);
        }
        i += 1;
    }
    Ok(false)
}

} // verus!
