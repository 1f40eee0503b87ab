use vstd::prelude::*;

verus! {

/// `address + offset` in the target's 64-bit address space, wrapping past
/// its top.
pub open spec fn offset_address(address: u64, offset: u64) -> u64 {
    ((address as int + offset as int) % 0x1_0000_0000_0000_0000int) as u64
}

/// Adds an offset to an address of the target process.
pub fn add_offset(address: u64, offset: u64) -> (r: u64)
    ensures
        r == offset_address(address, offset),
{
    address.wrapping_add(offset)
}

/// What to do at one hop of a pointer chain.
#[derive(Clone, Copy, Debug, PartialEq, Eq, Structural)]
pub enum Hop {
    /// Read a pointer at this address; the walk goes on from its value.
    Dereference(u64),
    /// Read the value itself at this address; the walk ends.
    Leaf(u64),
}

/// The width of the pointers that a chain dereferences.
#[derive(Clone, Copy, Debug, PartialEq, Eq, Structural)]
pub enum PointerWidth {
    Bit32,
    Bit64,
}

/// A pointer chain: a base address and the offsets applied in turn. Every
/// offset but the last is added and then dereferenced; the last one gives
/// the address of the value.
#[derive(Clone, Debug)]
pub struct PointerChain {
    pub base: u64,
    pub width: PointerWidth,
    pub offsets: Vec<u64>,
}

/// The hop that the walk of `offsets` takes at step `i` from `address`.
pub open spec fn hop_spec(offsets: Seq<u64>, i: int, address: u64) -> Hop {
    if i + 1 < offsets.len() {
        Hop::Dereference(offset_address(address, offsets[i]))
    } else if i + 1 == offsets.len() {
        Hop::Leaf(offset_address(address, offsets[i]))
    } else {
        Hop::Leaf(address)
    }
}

impl PointerChain {
    /// A chain from `base` through `offsets`, over pointers of `width`.
    pub fn new(base: u64, width: PointerWidth, offsets: Vec<u64>) -> (r: Self)
        ensures
            r.base == base,
            r.width == width,
            r.offsets@ == offsets@,
    {
        PointerChain { base, width, offsets }
    }

    /// The hop at step `i` of the walk, which stands at `address` (the
    /// base for step 0, the pointer read at the previous hop after that).
    pub fn hop(&self, i: usize, address: u64) -> (r: Hop)
        ensures
            r == hop_spec(self.offsets@, i as int, address),
    {
        let n = self.offsets.len();
        if i < n {
            let next = add_offset(address, self.offsets[i]);
            if i + 1 < n {
                Hop::Dereference(next)
            } else {
                Hop::Leaf(next)
            }
        } else {
            Hop::Leaf(address)
        }
    }
}

/// Where the observed values live in one attached process.
#[derive(Clone, Debug)]
pub struct Layout {
    pub load: u64,
    pub is_paused: PointerChain,
    pub prompt: u64,
    pub level: u64,
    pub outro: PointerChain,
}

/// Whether `l` is the layout of the supported game version for a main
/// module at `game` and a client library at `client`.
pub open spec fn resolved_from(l: Layout, game: u64, client: u64) -> bool {
    &&& l.load == offset_address(client, 0x219658)
    &&& l.is_paused.base == client
    &&& l.is_paused.width == PointerWidth::Bit32
    &&& l.is_paused.offsets@ == seq![0x218F94u64, 0x58u64]
    &&& l.prompt == offset_address(client, 0x21CD6C)
    &&& l.level == offset_address(game, 0x1C5159)
    &&& l.outro.base == client
    &&& l.outro.width == PointerWidth::Bit32
    &&& l.outro.offsets@ == seq![0x220B10u64, 0x4u64, 0x4u64, 0x7u64]
}

impl Layout {
    /// The layout of the supported game version, from the base addresses
    /// of the game's main module and of its client library.
    pub fn resolve(game: u64, client: u64) -> (r: Self)
        ensures
            resolved_from(r, game, client),
    {
        Layout {
            load: add_offset(client, 0x219658),
            is_paused: PointerChain::new(client, PointerWidth::Bit32, vec![0x218F94u64, 0x58u64]),
            prompt: add_offset(client, 0x21CD6C),
            level: add_offset(game, 0x1C5159),
            outro: PointerChain::new(client, PointerWidth::Bit32, vec![0x220B10u64, 0x4u64, 0x4u64, 0x7u64]),
        }
    }
}

} // verus!
