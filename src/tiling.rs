use std::collections::HashMap;
use vstd::prelude::*;

use crate::labels::{decimal, decimal_text};
use crate::parse::{parse_u32_list, parsed_u32_list, same_text, split_fields, split_text};

verus! {

broadcast use vstd::std_specs::hash::group_hash_axioms;

/// A named placement: `geometry` reads "x,y,width,height".
pub struct WindowSimple {
    pub nick: String,
    pub geometry: String,
}

/// The placements offered on a screen of one resolution, such as "1920x1080".
pub struct DisplayTilings {
    pub resolution: String,
    pub windows: Vec<WindowSimple>,
}

/// The table of placements, one entry per screen resolution.
pub struct Displays {
    pub items: Vec<DisplayTilings>,
}

/// Where and how large a window is to be.
#[derive(Clone, Copy, Debug, PartialEq, Eq, Structural)]
pub struct Geometry {
    pub x: i32,
    pub y: i32,
    pub width: u32,
    pub height: u32,
}

/// The first entry for resolution `geom`.
pub open spec fn find_display(ds: Seq<DisplayTilings>, geom: Seq<char>) -> Option<
    DisplayTilings,
>
    decreases ds.len(),
{
    if ds.len() == 0 {
        None
    } else if ds[0].resolution@ == geom {
        Some(ds[0])
    } else {
        find_display(ds.drop_first(), geom)
    }
}

/// The first placement named `nick`.
pub open spec fn find_window(ws: Seq<WindowSimple>, nick: Seq<char>) -> Option<WindowSimple>
    decreases ws.len(),
{
    if ws.len() == 0 {
        None
    } else if ws[0].nick@ == nick {
        Some(ws[0])
    } else {
        find_window(ws.drop_first(), nick)
    }
}

/// The numbers of placement `nick` on a screen of resolution `geom`; none when the
/// table has no such entry or its numbers do not read.
pub open spec fn tiling_geometry(ds: Seq<DisplayTilings>, nick: Seq<char>, geom: Seq<char>) -> Option<
    Seq<u32>,
> {
    match find_display(ds, geom) {
        None => None,
        Some(d) => match find_window(d.windows@, nick) {
            None => None,
            Some(w) => parsed_u32_list(w.geometry@),
        },
    }
}

fn lookup_display<'a>(ds: &'a Vec<DisplayTilings>, geom: &String) -> (r: Option<&'a DisplayTilings>)
    ensures
        r matches Some(d) ==> find_display(ds@, geom@) == Some(*d),
        r is None ==> find_display(ds@, geom@) is None,
{
    let mut i: usize = 0;
    assert(ds@.subrange(0, ds@.len() as int) =~= ds@);
    while i < ds.len()
        invariant
            i <= ds@.len(),
            find_display(ds@, geom@) == find_display(ds@.subrange(i as int, ds@.len() as int), geom@),
        decreases ds@.len() - i,
    {
        assert(ds@.subrange(i as int, ds@.len() as int).drop_first() =~= ds@.subrange(
            i + 1,
            ds@.len() as int,
        ));
        if same_text(ds[i].resolution.as_str(), geom.as_str()) {
            return Some(&ds[i]);
        }
        i += 1;
    }
    None
}

fn lookup_window<'a>(ws: &'a Vec<WindowSimple>, nick: &String) -> (r: Option<&'a WindowSimple>)
    ensures
        r matches Some(w) ==> find_window(ws@, nick@) == Some(*w),
        r is None ==> find_window(ws@, nick@) is None,
{
    let mut i: usize = 0;
    assert(ws@.subrange(0, ws@.len() as int) =~= ws@);
    while i < ws.len()
        invariant
            i <= ws@.len(),
            find_window(ws@, nick@) == find_window(ws@.subrange(i as int, ws@.len() as int), nick@),
        decreases ws@.len() - i,
    {
        assert(ws@.subrange(i as int, ws@.len() as int).drop_first() =~= ws@.subrange(
            i + 1,
            ws@.len() as int,
        ));
        if same_text(ws[i].nick.as_str(), nick.as_str()) {
            return Some(&ws[i]);
        }
        i += 1;
    }
    None
}

/// Looks up placement `nick` for a screen of resolution `geom` and reads its numbers.
pub fn get_geometry(tilings: &Displays, nick: &String, geom: &String) -> (r: Option<Vec<u32>>)
    ensures
        r matches Some(v) ==> tiling_geometry(tilings.items@, nick@, geom@) == Some(v@),
        r is None ==> tiling_geometry(tilings.items@, nick@, geom@) is None,
{
    match lookup_display(&tilings.items, geom) {
        None => None,
        Some(d) => {
            match lookup_window(&d.windows, nick) {
                None => None,
                Some(w) => parse_u32_list(w.geometry.as_str()),
            }
        },
    }
}

/// The placement that the numbers `g` give: x, y, width, height, in that order.
pub open spec fn geometry_of(g: Seq<u32>) -> Option<Geometry> {
    if g.len() >= 4 {
        Some(Geometry { x: g[0] as i32, y: g[1] as i32, width: g[2], height: g[3] })
    } else {
        None
    }
}

/// The placement that the numbers of a table entry give; none when fewer than four.
pub fn resize_geometry(g: &Vec<u32>) -> (r: Option<Geometry>)
    ensures
        r == geometry_of(g@),
{
    if g.len() >= 4 {
        Some(Geometry { x: g[0] as i32, y: g[1] as i32, width: g[2], height: g[3] })
    } else {
        None
    }
}

/// One piece of a tiling command: a hint letter followed by the name of a placement.
pub open spec fn tiling_entry(piece: Seq<char>, hints: Map<u8, u32>) -> Option<(u32, Seq<char>)> {
    if piece.len() > 0 && 'a' <= piece[0] <= 'z' && hints.contains_key(
        (piece[0] as u32 - 97) as u8,
    ) {
        Some((hints[(piece[0] as u32 - 97) as u8], piece.drop_first()))
    } else {
        None
    }
}

/// A tiling command: space-separated pieces such as "aleft bright", each naming a
/// window by its letter and the placement to give it; none when a piece names no
/// window.
pub open spec fn tiling_command(command: Seq<char>, hints: Map<u8, u32>) -> Option<
    Seq<(u32, Seq<char>)>,
> {
    let pieces = split_text(command, ' ');
    if forall|i: int| 0 <= i < pieces.len() ==> (#[trigger] tiling_entry(pieces[i], hints)) is Some {
        Some(pieces.map_values(|p: Seq<char>| tiling_entry(p, hints)->0))
    } else {
        None
    }
}

pub open spec fn entries_view(v: Seq<(u32, String)>) -> Seq<(u32, Seq<char>)> {
    v.map_values(|e: (u32, String)| (e.0, e.1@))
}

fn read_entry(piece: &String, hints: &HashMap<u8, u32>) -> (r: Option<(u32, String)>)
    ensures
        r matches Some(e) ==> tiling_entry(piece@, hints@) == Some((e.0, e.1@)),
        r is None ==> tiling_entry(piece@, hints@) is None,
{
    let len = piece.as_str().unicode_len();
    if len == 0 {
        return None;
    }
    let c = piece.as_str().get_char(0);
    if !('a' <= c && c <= 'z') {
        return None;
    }
    let offset = (c as u32 - 97) as u8;
    match hints.get(&offset) {
        None => None,
        Some(w) => {
            let rest = String::from_str(piece.as_str().substring_char(1, len));
            assert(rest@ =~= piece@.drop_first());
            Some((*w, rest))
        },
    }
}

/// Reads a tiling command into the windows it names and the placements it asks for.
pub fn parse_tiling_command(command: &str, hints: &HashMap<u8, u32>) -> (r: Option<
    Vec<(u32, String)>,
>)
    ensures
        r matches Some(v) ==> tiling_command(command@, hints@) == Some(entries_view(v@)),
        r is None ==> tiling_command(command@, hints@) is None,
{
    let pieces = split_fields(command, ' ');
    let ghost spieces = split_text(command@, ' ');
    assert(pieces@.len() == spieces.len()) by {
        assert(pieces@.map_values(|f: String| f@).len() == pieces@.len());
    }
    let mut out: Vec<(u32, String)> = Vec::new();
    let mut i: usize = 0;
    while i < pieces.len()
        invariant
            i <= pieces@.len(),
            pieces@.len() == spieces.len(),
            spieces == split_text(command@, ' '),
            pieces@.map_values(|f: String| f@) == spieces,
            out@.len() == i,
            forall|j: int|
                0 <= j < i ==> tiling_entry(spieces[j], hints@) == Some(
                    (#[trigger] out@[j].0, out@[j].1@),
                ),
        decreases pieces@.len() - i,
    {
        assert(pieces@[i as int]@ == spieces[i as int]);
        match read_entry(&pieces[i], hints) {
            Some(e) => out.push(e),
            None => {
                return None;
            },
        }
        i += 1;
    }
    assert forall|j: int| 0 <= j < spieces.len() implies (#[trigger] tiling_entry(
        spieces[j],
        hints@,
    )) is Some by {
        assert(tiling_entry(spieces[j], hints@) == Some((out@[j].0, out@[j].1@)));
    }
    assert(entries_view(out@) =~= spieces.map_values(
        |p: Seq<char>| tiling_entry(p, hints@)->0,
    ));
    Some(out)
}

/// The name of a screen resolution, such as "1920x1080".
pub open spec fn resolution_text(width: u32, height: u32) -> Seq<char> {
    decimal(width as nat) + seq!['x'] + decimal(height as nat)
}

/// Names the resolution of a desktop `width` wide and `height` high, as the
/// table of placements writes it.
pub fn resolution_name(width: u32, height: u32) -> (r: String)
    ensures
        r@ == resolution_text(width, height),
{
    let x = "x";
    proof {
        reveal_strlit("x");
    }
    assert(x@ =~= seq!['x']);
    let mut r = decimal_text(width as u64);
    r.append(x);
    let h = decimal_text(height as u64);
    r.append(h.as_str());
    r
}

} // verus!
