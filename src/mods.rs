//! Modifier keys, their native bits, and the modifier masks of hotkeys.

use vstd::prelude::*;

verus! {

/// Number of modifiers that `Mod` enumerates.
pub const MOD_COUNT: u32 = 14;

/// The bits of all modifiers together.
pub const ALL_MODS_MASK: u32 = 0x3fff;

/// A modifier key of a hotkey combination.
#[derive(Clone, Copy, Debug, PartialEq, Eq, Structural, Hash)]
pub enum Mod {
    Control,
    Alt,
    AltGraph,
    CapsLock,
    Fn,
    FnLock,
    Meta,
    NumLock,
    ScrollLock,
    Symbol,
    SymbolLock,
    Hyper,
    Shift,
    Super,
}

/// The native bit of a modifier: the value of the `Modifiers` flag of the
/// same name.
pub open spec fn mod_bit(m: Mod) -> u32 {
    match m {
        Mod::Control => 0x8,
        Mod::Alt => 0x1,
        Mod::AltGraph => 0x2,
        Mod::CapsLock => 0x4,
        Mod::Fn => 0x10,
        Mod::FnLock => 0x20,
        Mod::Meta => 0x40,
        Mod::NumLock => 0x80,
        Mod::ScrollLock => 0x100,
        Mod::Symbol => 0x400,
        Mod::SymbolLock => 0x800,
        Mod::Hyper => 0x1000,
        Mod::Shift => 0x200,
        Mod::Super => 0x2000,
    }
}

/// Which bit of the native mask a modifier occupies.
pub open spec fn mod_shift(m: Mod) -> u32 {
    match m {
        Mod::Control => 3,
        Mod::Alt => 0,
        Mod::AltGraph => 1,
        Mod::CapsLock => 2,
        Mod::Fn => 4,
        Mod::FnLock => 5,
        Mod::Meta => 6,
        Mod::NumLock => 7,
        Mod::ScrollLock => 8,
        Mod::Symbol => 10,
        Mod::SymbolLock => 11,
        Mod::Hyper => 12,
        Mod::Shift => 9,
        Mod::Super => 13,
    }
}

/// The canonical name of a modifier: the identifier of its variant.
pub open spec fn mod_name(m: Mod) -> Seq<char> {
    match m {
        Mod::Control => "Control"@,
        Mod::Alt => "Alt"@,
        Mod::AltGraph => "AltGraph"@,
        Mod::CapsLock => "CapsLock"@,
        Mod::Fn => "Fn"@,
        Mod::FnLock => "FnLock"@,
        Mod::Meta => "Meta"@,
        Mod::NumLock => "NumLock"@,
        Mod::ScrollLock => "ScrollLock"@,
        Mod::Symbol => "Symbol"@,
        Mod::SymbolLock => "SymbolLock"@,
        Mod::Hyper => "Hyper"@,
        Mod::Shift => "Shift"@,
        Mod::Super => "Super"@,
    }
}

/// The position of a modifier in the enumeration.
pub open spec fn mod_position(m: Mod) -> u32 {
    match m {
        Mod::Control => 0,
        Mod::Alt => 1,
        Mod::AltGraph => 2,
        Mod::CapsLock => 3,
        Mod::Fn => 4,
        Mod::FnLock => 5,
        Mod::Meta => 6,
        Mod::NumLock => 7,
        Mod::ScrollLock => 8,
        Mod::Symbol => 9,
        Mod::SymbolLock => 10,
        Mod::Hyper => 11,
        Mod::Shift => 12,
        Mod::Super => 13,
    }
}

/// The modifier at a position of the enumeration.
pub open spec fn mod_at(i: u32) -> Option<Mod> {
    match i {
        0 => Some(Mod::Control),
        1 => Some(Mod::Alt),
        2 => Some(Mod::AltGraph),
        3 => Some(Mod::CapsLock),
        4 => Some(Mod::Fn),
        5 => Some(Mod::FnLock),
        6 => Some(Mod::Meta),
        7 => Some(Mod::NumLock),
        8 => Some(Mod::ScrollLock),
        9 => Some(Mod::Symbol),
        10 => Some(Mod::SymbolLock),
        11 => Some(Mod::Hyper),
        12 => Some(Mod::Shift),
        13 => Some(Mod::Super),
        _ => None,
    }
}

/// The modifier whose native bit is exactly `bits`, if any.
pub open spec fn mod_of_bits(bits: u32) -> Option<Mod> {
    if exists|m: Mod| mod_bit(m) == bits {
        Some(choose|m: Mod| mod_bit(m) == bits)
    } else {
        None
    }
}

/// The modifiers whose bits are set in a native mask.
pub open spec fn mods_of_bits(bits: u32) -> Set<Mod> {
    Set::new(|m: Mod| bits & mod_bit(m) != 0)
}

/// The union of native modifier bits, folded with `|` from the empty mask.
pub open spec fn bits_union(bits: Seq<u32>) -> u32
    decreases bits.len(),
{
    if bits.len() == 0 {
        0
    } else {
        bits_union(bits.drop_last()) | bits.last()
    }
}

/// The native mask of a list of modifiers.
pub open spec fn mods_mask(mods: Seq<Mod>) -> u32
    decreases mods.len(),
{
    if mods.len() == 0 {
        0
    } else {
        mods_mask(mods.drop_last()) | mod_bit(mods.last())
    }
}

/// The native bits of a list of modifiers, one for one.
pub open spec fn mods_bits(mods: Seq<Mod>) -> Seq<u32> {
    mods.map_values(|m: Mod| mod_bit(m))
}

proof fn lemma_bit_values()
    ensures

        1u32 << 0u32 == 0x1u32,
        1u32 << 1u32 == 0x2u32,
        1u32 << 2u32 == 0x4u32,
        1u32 << 3u32 == 0x8u32,
        1u32 << 4u32 == 0x10u32,
        1u32 << 5u32 == 0x20u32,
        1u32 << 6u32 == 0x40u32,
        1u32 << 7u32 == 0x80u32,
        1u32 << 8u32 == 0x100u32,
        1u32 << 9u32 == 0x200u32,
        1u32 << 10u32 == 0x400u32,
        1u32 << 11u32 == 0x800u32,
        1u32 << 12u32 == 0x1000u32,
        1u32 << 13u32 == 0x2000u32,
{
    assert(1u32 << 0u32 == 0x1u32 && 1u32 << 1u32 == 0x2u32 && 1u32 << 2u32 == 0x4u32 && 1u32 << 3u32 == 0x8u32 && 1u32 << 4u32 == 0x10u32 && 1u32 << 5u32 == 0x20u32 && 1u32 << 6u32 == 0x40u32 && 1u32 << 7u32 == 0x80u32 && 1u32 << 8u32 == 0x100u32 && 1u32 << 9u32 == 0x200u32 && 1u32 << 10u32 == 0x400u32 && 1u32 << 11u32 == 0x800u32 && 1u32 << 12u32 == 0x1000u32 && 1u32 << 13u32 == 0x2000u32) by (bit_vector);
}

proof fn lemma_mod_bit_is_shift(m: Mod)
    ensures
        mod_bit(m) == 1u32 << mod_shift(m),
        mod_shift(m) < MOD_COUNT,
{
    lemma_bit_values();
}

/// Distinct modifiers have distinct native bits.
pub proof fn lemma_mod_bit_injective(a: Mod, b: Mod)
    ensures
        mod_bit(a) == mod_bit(b) ==> a == b,
{
}

proof fn lemma_single_bits(x: u32, y: u32, a: u32, c: u32)
    requires
        a < 32,
        c < 32,
    ensures
        ((1u32 << a) & (1u32 << c) != 0) <==> a == c,
        (1u32 << a) & !ALL_MODS_MASK == 0 <==> a < 14,
        ((x | y) & (1u32 << a) != 0) <==> (x & (1u32 << a) != 0 || y & (1u32 << a) != 0),
        (x & !ALL_MODS_MASK == 0 && y & !ALL_MODS_MASK == 0) ==> (x | y) & !ALL_MODS_MASK == 0,
        (x & (1u32 << a) == (1u32 << c)) <==> (a == c && x & (1u32 << a) != 0),
{
    assert(((1u32 << a) & (1u32 << c) != 0) <==> a == c) by (bit_vector)
        requires a < 32, c < 32;
    assert((1u32 << a) & !0x3fffu32 == 0 <==> a < 14) by (bit_vector)
        requires a < 32;
    assert(((x | y) & (1u32 << a) != 0) <==> (x & (1u32 << a) != 0 || y & (1u32 << a) != 0)) by (bit_vector);
    assert((x & !0x3fffu32 == 0 && y & !0x3fffu32 == 0) ==> (x | y) & !0x3fffu32 == 0) by (bit_vector);
    assert((x & (1u32 << a) == (1u32 << c)) <==> (a == c && x & (1u32 << a) != 0)) by (bit_vector)
        requires a < 32, c < 32;
}

/// A modifier's bit is set in the mask of a list exactly when the list holds
/// the modifier, and the mask holds no other bit.
pub proof fn lemma_mods_mask_bits(mods: Seq<Mod>)
    ensures
        forall|m: Mod| (mods_mask(mods) & #[trigger] mod_bit(m) != 0) <==> mods.contains(m),
        mods_mask(mods) & !ALL_MODS_MASK == 0,
    decreases mods.len(),
{
    if mods.len() == 0 {
        assert(0u32 & !0x3fffu32 == 0) by (bit_vector);
        assert forall|m: Mod| (mods_mask(mods) & #[trigger] mod_bit(m) != 0) <==> mods.contains(m) by {
            lemma_mod_bit_is_shift(m);
            let s = mod_shift(m);
            assert(0u32 & (1u32 << s) == 0) by (bit_vector);
        }
    } else {
        let rest = mods.drop_last();
        let last = mods.last();
        lemma_mods_mask_bits(rest);
        lemma_mod_bit_is_shift(last);
        lemma_single_bits(mods_mask(rest), mod_bit(last), mod_shift(last), mod_shift(last));
        assert forall|m: Mod| (mods_mask(mods) & #[trigger] mod_bit(m) != 0) <==> mods.contains(m) by {
            lemma_mod_bit_is_shift(m);
            lemma_single_bits(mods_mask(rest), mod_bit(last), mod_shift(m), mod_shift(last));
            lemma_single_bits(mods_mask(rest), mod_bit(last), mod_shift(last), mod_shift(m));
            assert(mods_mask(mods) == mods_mask(rest) | mod_bit(last));
            assert(mods.contains(m) <==> rest.contains(m) || m == last) by {
                if mods.contains(m) {
                    let i = choose|i: int| 0 <= i < mods.len() && mods[i] == m;
                    if i < mods.len() - 1 {
                        assert(rest[i] == m);
                    }
                }
                if rest.contains(m) {
                    let i = choose|i: int| 0 <= i < rest.len() && rest[i] == m;
                    assert(mods[i] == m);
                }
                if m == last {
                    assert(mods[mods.len() - 1] == m);
                }
            }
            if mod_shift(m) == mod_shift(last) {
                assert(mod_shift(m) == mod_shift(last) ==> m == last);
            }
        }
    }
}

/// Two masks that hold only modifier bits and agree on every modifier are equal.
proof fn lemma_masks_equal(x: u32, y: u32)
    requires
        x & !ALL_MODS_MASK == 0,
        y & !ALL_MODS_MASK == 0,
        forall|m: Mod| (x & #[trigger] mod_bit(m) != 0) <==> (y & mod_bit(m) != 0),
    ensures
        x == y,
{

    assert((x & mod_bit(Mod::Control) != 0) <==> (y & mod_bit(Mod::Control) != 0));
    assert((x & mod_bit(Mod::Alt) != 0) <==> (y & mod_bit(Mod::Alt) != 0));
    assert((x & mod_bit(Mod::AltGraph) != 0) <==> (y & mod_bit(Mod::AltGraph) != 0));
    assert((x & mod_bit(Mod::CapsLock) != 0) <==> (y & mod_bit(Mod::CapsLock) != 0));
    assert((x & mod_bit(Mod::Fn) != 0) <==> (y & mod_bit(Mod::Fn) != 0));
    assert((x & mod_bit(Mod::FnLock) != 0) <==> (y & mod_bit(Mod::FnLock) != 0));
    assert((x & mod_bit(Mod::Meta) != 0) <==> (y & mod_bit(Mod::Meta) != 0));
    assert((x & mod_bit(Mod::NumLock) != 0) <==> (y & mod_bit(Mod::NumLock) != 0));
    assert((x & mod_bit(Mod::ScrollLock) != 0) <==> (y & mod_bit(Mod::ScrollLock) != 0));
    assert((x & mod_bit(Mod::Symbol) != 0) <==> (y & mod_bit(Mod::Symbol) != 0));
    assert((x & mod_bit(Mod::SymbolLock) != 0) <==> (y & mod_bit(Mod::SymbolLock) != 0));
    assert((x & mod_bit(Mod::Hyper) != 0) <==> (y & mod_bit(Mod::Hyper) != 0));
    assert((x & mod_bit(Mod::Shift) != 0) <==> (y & mod_bit(Mod::Shift) != 0));
    assert((x & mod_bit(Mod::Super) != 0) <==> (y & mod_bit(Mod::Super) != 0));
    assert(((x & 0x1u32 != 0) <==> (y & 0x1u32 != 0)) && ((x & 0x2u32 != 0) <==> (y & 0x2u32 != 0)) && ((x & 0x4u32 != 0) <==> (y & 0x4u32 != 0)) && ((x & 0x8u32 != 0) <==> (y & 0x8u32 != 0)) && ((x & 0x10u32 != 0) <==> (y & 0x10u32 != 0)) && ((x & 0x20u32 != 0) <==> (y & 0x20u32 != 0)) && ((x & 0x40u32 != 0) <==> (y & 0x40u32 != 0)) && ((x & 0x80u32 != 0) <==> (y & 0x80u32 != 0)) && ((x & 0x100u32 != 0) <==> (y & 0x100u32 != 0)) && ((x & 0x200u32 != 0) <==> (y & 0x200u32 != 0)) && ((x & 0x400u32 != 0) <==> (y & 0x400u32 != 0)) && ((x & 0x800u32 != 0) <==> (y & 0x800u32 != 0)) && ((x & 0x1000u32 != 0) <==> (y & 0x1000u32 != 0)) && ((x & 0x2000u32 != 0) <==> (y & 0x2000u32 != 0)) && x & !0x3fffu32 == 0 && y & !0x3fffu32 == 0 ==> x == y) by (bit_vector);
}

/// Decoding the mask of a list of modifiers bit by bit gives the set of
/// modifiers in the list.
pub proof fn lemma_mods_round_trip(mods: Seq<Mod>)
    ensures
        mods_of_bits(mods_mask(mods)) == mods.to_set(),
{
    lemma_mods_mask_bits(mods);
    assert(mods_of_bits(mods_mask(mods)) =~= mods.to_set());
}

/// Two lists that hold the same modifiers, in any order and with any
/// repetition, have the same mask.
pub proof fn lemma_mods_mask_of_set(a: Seq<Mod>, b: Seq<Mod>)
    requires
        a.to_set() == b.to_set(),
    ensures
        mods_mask(a) == mods_mask(b),
{
    lemma_mods_mask_bits(a);
    lemma_mods_mask_bits(b);
    assert forall|m: Mod| (mods_mask(a) & #[trigger] mod_bit(m) != 0) <==> (mods_mask(b) & mod_bit(m) != 0) by {
        assert(a.contains(m) <==> a.to_set().contains(m));
        assert(b.contains(m) <==> b.to_set().contains(m));
    }
    lemma_masks_equal(mods_mask(a), mods_mask(b));
}

/// The union of the bits of a list of modifiers is the list's mask.
pub proof fn lemma_bits_union_of_mods(mods: Seq<Mod>)
    ensures
        bits_union(mods_bits(mods)) == mods_mask(mods),
    decreases mods.len(),
{
    if mods.len() > 0 {
        lemma_bits_union_of_mods(mods.drop_last());
        assert(mods_bits(mods).drop_last() =~= mods_bits(mods.drop_last()));
    }
}

impl Mod {
    /// The canonical name of the modifier.
    pub fn as_str(&self) -> (r: &'static str)
        ensures
            r@ == mod_name(*self),
    {
        match self {
            Mod::Control => "Control",
            Mod::Alt => "Alt",
            Mod::AltGraph => "AltGraph",
            Mod::CapsLock => "CapsLock",
            Mod::Fn => "Fn",
            Mod::FnLock => "FnLock",
            Mod::Meta => "Meta",
            Mod::NumLock => "NumLock",
            Mod::ScrollLock => "ScrollLock",
            Mod::Symbol => "Symbol",
            Mod::SymbolLock => "SymbolLock",
            Mod::Hyper => "Hyper",
            Mod::Shift => "Shift",
            Mod::Super => "Super",
        }
    }

    /// The native bit of the modifier.
    pub fn global_hotkeys(&self) -> (r: u32)
        ensures
            r == mod_bit(*self),
    {
        match self {
            Mod::Control => 0x8,
            Mod::Alt => 0x1,
            Mod::AltGraph => 0x2,
            Mod::CapsLock => 0x4,
            Mod::Fn => 0x10,
            Mod::FnLock => 0x20,
            Mod::Meta => 0x40,
            Mod::NumLock => 0x80,
            Mod::ScrollLock => 0x100,
            Mod::Symbol => 0x400,
            Mod::SymbolLock => 0x800,
            Mod::Hyper => 0x1000,
            Mod::Shift => 0x200,
            Mod::Super => 0x2000,
        }
    }

    /// The modifier whose native bit is exactly `bits`; `None` for a mask with
    /// no bit or more than one.
    pub fn from_global_hotkeys(bits: u32) -> (r: Option<Mod>)
        ensures
            r == mod_of_bits(bits),
    {
        let r = match bits {
            0x8 => Some(Mod::Control),
            0x1 => Some(Mod::Alt),
            0x2 => Some(Mod::AltGraph),
            0x4 => Some(Mod::CapsLock),
            0x10 => Some(Mod::Fn),
            0x20 => Some(Mod::FnLock),
            0x40 => Some(Mod::Meta),
            0x80 => Some(Mod::NumLock),
            0x100 => Some(Mod::ScrollLock),
            0x400 => Some(Mod::Symbol),
            0x800 => Some(Mod::SymbolLock),
            0x1000 => Some(Mod::Hyper),
            0x200 => Some(Mod::Shift),
            0x2000 => Some(Mod::Super),
            _ => None,
        };
        proof {
            if let Some(m) = r {
                assert(mod_bit(m) == bits);
                let c = choose|c: Mod| mod_bit(c) == bits;
                lemma_mod_bit_injective(m, c);
            }
        }
        r
    }
}

/// The native bits of a list of modifiers, one for one.
pub fn native_modifiers(mods: &Vec<Mod>) -> (r: Vec<u32>)
    ensures
        r@ == mods_bits(mods@),
{
    let mut bits: Vec<u32> = Vec::new();
    let mut i: usize = 0;
    while i < mods.len()
        invariant
            i <= mods@.len(),
            bits@ == mods_bits(mods@.subrange(0, i as int)),
        decreases mods@.len() - i,
    {
        bits.push(mods[i].global_hotkeys());
        i = i + 1;
        assert(bits@ =~= mods_bits(mods@.subrange(0, i as int)));
    }
    assert(mods@.subrange(0, i as int) =~= mods@);
    bits
}

/// The union of native modifier bits.
pub fn union_bits(bits: &Vec<u32>) -> (r: u32)
    ensures
        r == bits_union(bits@),
{
    let mut acc: u32 = 0;
    let mut i: usize = 0;
    while i < bits.len()
        invariant
            i <= bits@.len(),
            acc == bits_union(bits@.subrange(0, i as int)),
        decreases bits@.len() - i,
    {
        acc = acc | bits[i];
        i = i + 1;
        assert(bits@.subrange(0, i as int).drop_last() =~= bits@.subrange(0, i as int - 1));
    }
    assert(bits@.subrange(0, i as int) =~= bits@);
    acc
}

/// The modifiers whose bits are set in a native mask, each once, in the order
/// of their bits: the union of what each single bit decodes to.
pub fn mods_from_global_hotkeys(bits: u32) -> (r: Vec<Mod>)
    ensures
        r@.to_set() == mods_of_bits(bits),
        r@.no_duplicates(),
{
    let mut found: Vec<Mod> = Vec::new();
    let mut j: u32 = 0;
    while j < 32
        invariant
            j <= 32,
            found@.no_duplicates(),
            forall|m: Mod| #[trigger] found@.contains(m) <==> (mod_shift(m) < j && bits & mod_bit(m) != 0),
        decreases 32 - j,
    {
        let single = bits & (1u32 << j);
        let decoded = Mod::from_global_hotkeys(single);
        proof {
            assert forall|m: Mod| #[trigger] mod_bit(m) == single <==> (mod_shift(m) == j && bits & mod_bit(m) != 0) by {
                lemma_mod_bit_is_shift(m);
                lemma_single_bits(bits, 0, j, mod_shift(m));
                lemma_single_bits(bits, 0, mod_shift(m), mod_shift(m));
            }
        }
        let ghost before = found@;
        if let Some(m) = decoded {
            found.push(m);
            proof {
                assert(mod_bit(m) == single);
                assert(mod_shift(m) == j && bits & mod_bit(m) != 0);
                assert(!before.contains(m));
                assert forall|a: int, b: int| 0 <= a < b < found@.len() implies found@[a] != found@[b] by {
                    if b == before.len() {
                        assert(before.contains(found@[a]));
                    } else {
                        assert(before[a] == found@[a] && before[b] == found@[b]);
                    }
                }
                assert forall|c: Mod| #[trigger] found@.contains(c) <==> (before.contains(c) || c == m) by {
                    if found@.contains(c) {
                        let i = choose|i: int| 0 <= i < found@.len() && found@[i] == c;
                        if i < before.len() {
                            assert(before[i] == c);
                        }
                    }
                    if before.contains(c) {
                        let i = choose|i: int| 0 <= i < before.len() && before[i] == c;
                        assert(found@[i] == c);
                    }
                    if c == m {
                        assert(found@[before.len() as int] == c);
                    }
                }
                assert forall|c: Mod| #[trigger] found@.contains(c) <==> (mod_shift(c) < j + 1 && bits & mod_bit(c) != 0) by {
                    lemma_mod_bit_injective(c, m);
                    if mod_shift(c) == j && bits & mod_bit(c) != 0 {
                        assert(mod_bit(c) == single);
                    }
                }
            }
        } else {
            proof {
                assert forall|c: Mod| #[trigger] found@.contains(c) <==> (mod_shift(c) < j + 1 && bits & mod_bit(c) != 0) by {
                    if mod_shift(c) == j && bits & mod_bit(c) != 0 {
                        assert(mod_bit(c) == single);
                        assert(mod_of_bits(single) is Some);
                    }
                }
            }
        }
        j = j + 1;
    }
    proof {
        assert forall|m: Mod| mod_shift(m) < 32 by {
            lemma_mod_bit_is_shift(m);
        }
        assert(found@.to_set() =~= mods_of_bits(bits));
    }
    found
}

/// The names of all modifiers, in the order of the enumeration.
pub fn mod_keys() -> (r: Vec<String>)
    ensures
        r@.len() == MOD_COUNT,
        forall|m: Mod| #[trigger] r@[mod_position(m) as int]@ == mod_name(m),
{
    let mut names: Vec<String> = Vec::new();
    let mut i: u32 = 0;
    while i < MOD_COUNT
        invariant
            i <= MOD_COUNT,
            names@.len() == i,
            forall|m: Mod| mod_position(m) < i ==> #[trigger] names@[mod_position(m) as int]@ == mod_name(m),
        decreases MOD_COUNT - i,
    {
        let m = mod_at_exec(i).unwrap();
        names.push(m.as_str().to_string());
        i = i + 1;
    }
    names
}

/// The modifier at a position of the enumeration, if the position is in range.
fn mod_at_exec(i: u32) -> (r: Option<Mod>)
    ensures
        r == mod_at(i),
        r matches Some(m) ==> mod_position(m) == i,
        r is Some <==> i < MOD_COUNT,
{
    match i {
        0 => Some(Mod::Control),
        1 => Some(Mod::Alt),
        2 => Some(Mod::AltGraph),
        3 => Some(Mod::CapsLock),
        4 => Some(Mod::Fn),
        5 => Some(Mod::FnLock),
        6 => Some(Mod::Meta),
        7 => Some(Mod::NumLock),
        8 => Some(Mod::ScrollLock),
        9 => Some(Mod::Symbol),
        10 => Some(Mod::SymbolLock),
        11 => Some(Mod::Hyper),
        12 => Some(Mod::Shift),
        13 => Some(Mod::Super),
        _ => None,
    }
}

} // verus!
