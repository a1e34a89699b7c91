//! The two read-only capabilities the engine is given at session start: the
//! base's road-tile set and the precomputed all-pairs shortest-route oracle.

use vstd::prelude::*;

use crate::types::Coords;

verus! {

/// The base's road-tile set. Movement legality and spawn-tile selection test
/// membership here.
#[derive(Clone, PartialEq, Eq, Debug)]
pub struct Roads {
    pub tiles: Vec<Coords>,
}

impl Roads {
    /// Whether `c` is a road tile.
    pub open spec fn has(self, c: Coords) -> bool {
        self.tiles@.contains(c)
    }

    /// The hydrated road set holds each tile once. Membership is insensitive
    /// to duplicates, but a well-formed snapshot never carries any.
    pub open spec fn wf(self) -> bool {
        forall|i: int, j: int|
            0 <= i < j < self.tiles@.len() ==> (#[trigger] self.tiles@[i]) != (
            #[trigger] self.tiles@[j])
    }

    pub fn new(tiles: Vec<Coords>) -> (r: Roads)
        ensures
            r.tiles@ == tiles@,
    {
        Roads { tiles }
    }

    /// Road-membership test.
    pub fn contains(&self, c: Coords) -> (r: bool)
        ensures
            r == self.has(c),
    {
        let n = self.tiles.len();
        let mut i: usize = 0;
        while i < n
            invariant
                n == self.tiles@.len(),
                0 <= i <= n,
                forall|j: int| 0 <= j < i ==> self.tiles@[j] != c,
            decreases n - i,
        {
            let t = self.tiles[i];
            if t.x == c.x && t.y == c.y {
                return true;
            }
            i = i + 1;
        }
        false
    }
}

/// A (source tile, destination tile) key into the route oracle.
#[derive(Clone, Copy, PartialEq, Eq, Structural, Debug)]
pub struct SourceDestXY {
    pub source_x: i32,
    pub source_y: i32,
    pub dest_x: i32,
    pub dest_y: i32,
}

/// One oracle answer: the next tile of the shortest walkable route and the
/// route's total length in tiles.
#[derive(Clone, Copy, PartialEq, Eq, Structural, Debug)]
pub struct Path {
    pub next_hop: Coords,
    pub length: u32,
}

/// One oracle entry.
#[derive(Clone, Copy, PartialEq, Eq, Structural, Debug)]
pub struct RouteEntry {
    pub key: SourceDestXY,
    pub path: Path,
}

/// The offline-computed shortest-route lookup for one base layout. The
/// engine re-queries it every tick, keyed by current positions, so pursuit is
/// always optimal toward the attacker's latest tile.
#[derive(Clone, PartialEq, Eq, Debug)]
pub struct RouteOracle {
    pub entries: Vec<RouteEntry>,
}

/// The key for a route from `s` to `d`.
pub open spec fn route_key_spec(s: Coords, d: Coords) -> SourceDestXY {
    SourceDestXY { source_x: s.x, source_y: s.y, dest_x: d.x, dest_y: d.y }
}

impl RouteOracle {
    /// First-match lookup over the entry list.
    pub open spec fn lookup_spec(self, key: SourceDestXY) -> Option<Path> {
        lookup_entries(self.entries@, key)
    }

    /// The oracle's answer for a route from `s` to `d`, if any.
    pub open spec fn route_spec(self, s: Coords, d: Coords) -> Option<Path> {
        self.lookup_spec(route_key_spec(s, d))
    }

    /// The hydrated oracle binds each (source, destination) key once.
    /// Lookups take the first binding, so behaviour is a function of that
    /// binding either way, but a well-formed snapshot never duplicates keys.
    pub open spec fn wf(self) -> bool {
        forall|i: int, j: int|
            0 <= i < j < self.entries@.len() ==> (#[trigger] self.entries@[i]).key != (
            #[trigger] self.entries@[j]).key
    }

    pub fn new(entries: Vec<RouteEntry>) -> (r: RouteOracle)
        ensures
            r.entries@ == entries@,
    {
        RouteOracle { entries }
    }

    /// Looks up the next hop and route length from `s` to `d`.
    pub fn next_hop(&self, s: Coords, d: Coords) -> (r: Option<Path>)
        ensures
            r == self.route_spec(s, d),
    {
        let key = SourceDestXY { source_x: s.x, source_y: s.y, dest_x: d.x, dest_y: d.y };
        let n = self.entries.len();
        let mut i: usize = 0;
        proof {
            assert(self.entries@.skip(0) =~= self.entries@);
        }
        while i < n
            invariant
                n == self.entries@.len(),
                0 <= i <= n,
                key == route_key_spec(s, d),
                lookup_entries(self.entries@, key) == lookup_entries(self.entries@.skip(i as int), key),
            decreases n - i,
        {
            let e = self.entries[i];
            proof {
                assert(self.entries@.skip(i as int)[0] == self.entries@[i as int]);
                assert(self.entries@.skip(i as int).skip(1) =~= self.entries@.skip(i + 1));
            }
            if e.key.source_x == key.source_x && e.key.source_y == key.source_y
                && e.key.dest_x == key.dest_x && e.key.dest_y == key.dest_y {
                return Some(e.path);
            }
            i = i + 1;
        }
        proof {
            assert(self.entries@.skip(n as int) =~= Seq::<RouteEntry>::empty());
        }
        None
    }
}

/// First entry whose key matches, scanning front to back.
pub open spec fn lookup_entries(s: Seq<RouteEntry>, key: SourceDestXY) -> Option<Path>
    decreases s.len(),
{
    if s.len() == 0 {
        None
    } else if s[0].key == key {
        Some(s[0].path)
    } else {
        lookup_entries(s.skip(1), key)
    }
}

} // verus!
