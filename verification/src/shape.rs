//! The hard-coded shape: five named corner points, and the two triangles
//! picked from them by name. Resolving names against the table is the one
//! place the setup can fail, so resolution is explicit and total here.

use vstd::prelude::*;
use crate::vertex::Float3;
use crate::vertex::Vertex;

verus! {

/// A vertex stored under a one-byte name (the ASCII letter of the corner).
#[derive(Clone, Copy, Debug, PartialEq, Eq, Structural)]
pub struct NamedVertex {
    pub name: u8,
    pub vertex: Vertex,
}

/// The first entry of `table` at or after index `i` whose name is `name`.
pub open spec fn find_from(table: Seq<NamedVertex>, name: u8, i: int) -> Option<Vertex>
    decreases table.len() - i,
{
    if i < 0 || i >= table.len() {
        None
    } else if table[i].name == name {
        Some(table[i].vertex)
    } else {
        find_from(table, name, i + 1)
    }
}

/// The vertex stored under `name`, taking the first entry that carries it.
pub open spec fn find_vertex(table: Seq<NamedVertex>, name: u8) -> Option<Vertex> {
    find_from(table, name, 0)
}

/// Look `name` up in the table.
pub fn lookup_vertex(table: &Vec<NamedVertex>, name: u8) -> (r: Option<Vertex>)
    ensures
        r == find_vertex(table@, name),
{
    let mut i: usize = 0;
    while i < table.len()
        invariant
            i <= table@.len(),
            find_vertex(table@, name) == find_from(table@, name, i as int),
        decreases table@.len() - i,
    {
        if table[i].name == name {
            return Some(table[i].vertex);
        }
        i = i + 1;
    }
    None
}

/// Resolve every name to its vertex; `None` as soon as one name is missing
/// from the table.
pub fn build_shape(table: &Vec<NamedVertex>, names: &Vec<u8>) -> (r: Option<Vec<Vertex>>)
    ensures
        r is Some <==> (forall|i: int|
            0 <= i < names@.len() ==> find_vertex(table@, #[trigger] names@[i]) is Some),
        r matches Some(vs) ==> vs@.len() == names@.len() && (forall|i: int|
            0 <= i < names@.len() ==> Some(vs@[i]) == find_vertex(table@, #[trigger] names@[i])),
{
    let mut vs: Vec<Vertex> = Vec::new();
    let mut i: usize = 0;
    while i < names.len()
        invariant
            i <= names@.len(),
            vs@.len() == i,
            forall|j: int| 0 <= j < i ==> Some(vs@[j]) == find_vertex(table@, #[trigger] names@[j]),
        decreases names@.len() - i,
    {
        match lookup_vertex(table, names[i]) {
            Some(v) => vs.push(v),
            None => {
                return None;
            }
        }
        i = i + 1;
    }
    Some(vs)
}

/// A corner point: `name` and the bit patterns of the two horizontal position
/// components. Every corner sits at depth zero and shares the purple color
/// (half red, no green, half blue).
pub open spec fn corner(name: u8, x: u32, y: u32) -> NamedVertex {
    NamedVertex {
        name,
        vertex: Vertex {
            position: Float3 { x, y, z: 0 },
            color: Float3 { x: 0x3f000000, y: 0, z: 0x3f000000 },
        },
    }
}

/// The five corner points, named `A` through `E`. The position components
/// are the IEEE-754 bit patterns of the pentagon's coordinates.
pub open spec fn pentagon() -> Seq<NamedVertex> {
    seq![
        corner(65, 0xbdb1d0d5, 0x3efc1c5c),
        corner(66, 0xbefd8236, 0x3d8e835a),
        corner(67, 0xbe607229, 0xbee6175f),
        corner(68, 0x3eb826aa, 0xbeb1d51f),
        corner(69, 0x3ee208d8, 0x3e705e9c),
    ]
}

/// The corner names of the two triangles, in draw order: A B E, then B C E.
pub open spec fn triangle_pair_names() -> Seq<u8> {
    seq![65u8, 66u8, 69u8, 66u8, 67u8, 69u8]
}

/// The six vertices the two triangles draw, in order.
pub open spec fn shape_vertices() -> Seq<Vertex> {
    seq![
        pentagon()[0].vertex,
        pentagon()[1].vertex,
        pentagon()[4].vertex,
        pentagon()[1].vertex,
        pentagon()[2].vertex,
        pentagon()[4].vertex,
    ]
}

/// Build one corner entry.
fn make_corner(name: u8, x: u32, y: u32) -> (nv: NamedVertex)
    ensures
        nv == corner(name, x, y),
{
    NamedVertex {
        name,
        vertex: Vertex {
            position: Float3 { x, y, z: 0 },
            color: Float3 { x: 0x3f000000, y: 0, z: 0x3f000000 },
        },
    }
}

/// The table of the five corner points.
pub fn pentagon_table() -> (t: Vec<NamedVertex>)
    ensures
        t@ == pentagon(),
{
    let mut t: Vec<NamedVertex> = Vec::new();
    t.push(make_corner(65, 0xbdb1d0d5, 0x3efc1c5c));
    t.push(make_corner(66, 0xbefd8236, 0x3d8e835a));
    t.push(make_corner(67, 0xbe607229, 0xbee6175f));
    t.push(make_corner(68, 0x3eb826aa, 0xbeb1d51f));
    t.push(make_corner(69, 0x3ee208d8, 0x3e705e9c));
    proof {
        assert(t@ =~= pentagon());
    }
    t
}

/// The corner names of the two triangles, in draw order.
pub fn shape_names() -> (ns: Vec<u8>)
    ensures
        ns@ == triangle_pair_names(),
{
    let mut ns: Vec<u8> = Vec::new();
    ns.push(65);
    ns.push(66);
    ns.push(69);
    ns.push(66);
    ns.push(67);
    ns.push(69);
    proof {
        assert(ns@ =~= triangle_pair_names());
    }
    ns
}

/// The six vertices of the two triangles, resolved from the corner table.
/// Every name of the draw order is present in the table, so resolution
/// cannot fail.
pub fn triangle_pair_shape() -> (vs: Vec<Vertex>)
    ensures
        vs@ == shape_vertices(),
        vs@.len() == 6,
        forall|i: int|
            0 <= i < triangle_pair_names().len() ==> Some(vs@[i]) == find_vertex(
                pentagon(),
                #[trigger] triangle_pair_names()[i],
            ),
{
    let table = pentagon_table();
    let names = shape_names();
    proof {
        reveal_with_fuel(find_from, 6);
        assert(find_vertex(pentagon(), 65) == Some(pentagon()[0].vertex));
        assert(find_vertex(pentagon(), 66) == Some(pentagon()[1].vertex));
        assert(find_vertex(pentagon(), 67) == Some(pentagon()[2].vertex));
        assert(find_vertex(pentagon(), 69) == Some(pentagon()[4].vertex));
    }
    let r = build_shape(&table, &names);
    match r {
        Some(vs) => {
            proof {
                assert(vs@ =~= shape_vertices());
            }
            vs
        }
        None => {
            proof {
                assert(false);
            }
            Vec::new()
        }
    }
}

} // verus!
