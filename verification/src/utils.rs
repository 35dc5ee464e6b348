//! Level-data compilation: parsers that turn ASCII art into room
//! bitfields, sprite bitmaps and lookup tables.

use vstd::prelude::*;
use vstd::string::StringSliceAdditionalSpecFns;

use crate::{Level, TilePos};
use crate::unique_items::UniqueItem;

verus! {

broadcast use vstd::string::is_ascii_spec_bytes;

/// Parser state of a sprite bitmap: the bytes so far, the byte index
/// and the bit index; `None` once a mark overflowed the buffer.
pub open spec fn spec_sprite_step(n: int, st: Option<(Seq<u8>, int, int)>, c: u8) -> Option<
    (Seq<u8>, int, int),
> {
    match st {
        None => None,
        Some((buf, byteidx, bitidx)) => {
            if c == 88 || c == 46 {
                if byteidx >= n {
                    None
                } else {
                    let buf2 = if c == 46 {
                        buf.update(byteidx, (buf[byteidx] | (1u8 << (7 - bitidx) as u8)) as u8)
                    } else {
                        buf
                    };
                    if bitidx + 1 >= 8 {
                        Some((buf2, byteidx + 1, 0))
                    } else {
                        Some((buf2, byteidx, bitidx + 1))
                    }
                }
            } else {
                st
            }
        },
    }
}

/// The sprite parser state after the first `i` input bytes.
pub open spec fn spec_sprite_fold(n: int, s: Seq<u8>, i: int) -> Option<(Seq<u8>, int, int)>
    decreases i,
{
    if i <= 0 {
        Some((Seq::new(n as nat, |j: int| 0u8), 0, 0))
    } else {
        spec_sprite_step(n, spec_sprite_fold(n, s, i - 1), s[i - 1])
    }
}

/// The bitmap an ASCII sprite of `n` bytes compiles to: `X` marks a
/// transparent bit, `.` a set bit, anything else is ignored.
pub open spec fn spec_sprite_bitmap(n: int, s: Seq<u8>) -> Option<Seq<u8>> {
    match spec_sprite_fold(n, s, s.len() as int) {
        Some((buf, _, _)) => Some(buf),
        None => None,
    }
}

/// A failed sprite parse stays failed for any longer prefix.
proof fn lemma_sprite_fold_none(n: int, s: Seq<u8>, i: int, j: int)
    requires
        0 <= i <= j <= s.len(),
        spec_sprite_fold(n, s, i) is None,
    ensures
        spec_sprite_fold(n, s, j) is None,
    decreases j - i,
{
    if i < j {
        lemma_sprite_fold_none(n, s, i, j - 1);
    }
}

/// Parse an ASCII sprite into its `n`-byte 1-bit-per-pixel bitmap.
fn sprite_bitmap(x: &str, n: usize) -> (r: Option<Vec<u8>>)
    requires
        0 < n <= 1000,
    ensures
        r is Some <==> spec_sprite_bitmap(n as int, x.spec_bytes()) is Some,
        r is Some ==> r.unwrap()@ == spec_sprite_bitmap(n as int, x.spec_bytes()).unwrap(),
{
    let s = x.as_bytes();
    let ghost bs = s@;
    assert(bs == x.spec_bytes());
    let mut buf: Vec<u8> = Vec::new();
    let mut k: usize = 0;
    while k < n
        invariant
            k <= n,
            buf@.len() == k,
            forall|j: int| 0 <= j < k ==> buf@[j] == 0u8,
        decreases n - k,
    {
        buf.push(0);
        k = k + 1;
    }
    assert(buf@ =~= Seq::new(n as nat, |j: int| 0u8));

    let mut byteidx: usize = 0;
    let mut bitidx: usize = 0;
    let mut i: usize = 0;
    while i < s.len()
        invariant
            s@ == bs,
            bs == x.spec_bytes(),
            0 < n <= 1000,
            i <= s@.len(),
            bitidx < 8,
            byteidx <= n,
            buf@.len() == n,
            spec_sprite_fold(n as int, bs, i as int) == Some(
                (buf@, byteidx as int, bitidx as int),
            ),
        decreases s@.len() - i,
    {
        let chr = s[i];
        if chr == 88 || chr == 46 {
            if byteidx >= n {
                proof {
                    assert(spec_sprite_fold(n as int, bs, i + 1) == spec_sprite_step(
                        n as int,
                        spec_sprite_fold(n as int, bs, i as int),
                        bs[i as int],
                    ));
                    assert(spec_sprite_fold(n as int, bs, i + 1) is None);
                    lemma_sprite_fold_none(n as int, bs, i + 1, bs.len() as int);
                    assert(spec_sprite_fold(n as int, bs, bs.len() as int) is None);
                    assert(spec_sprite_bitmap(n as int, bs) is None);
                }
                return None;
            }
            if chr == 46 {
                let sh: u8 = (7 - bitidx) as u8;
                let updated = buf[byteidx] | (1u8 << sh);
                buf.set(byteidx, updated);
            }
            bitidx = bitidx + 1;
            if bitidx >= 8 {
                bitidx = 0;
                byteidx = byteidx + 1;
            }
        }
        i = i + 1;
    }
    Some(buf)
}

/// Compile an 8 x 8 ASCII sprite into 8 bytes, one bit per pixel.
pub fn sprite8x8(x: &str) -> (r: Option<Vec<u8>>)
    ensures
        r is Some <==> spec_sprite_bitmap(8, x.spec_bytes()) is Some,
        r is Some ==> r.unwrap()@ == spec_sprite_bitmap(8, x.spec_bytes()).unwrap(),
{
    sprite_bitmap(x, 8)
}

/// Compile a 16 x 16 ASCII sprite into 32 bytes, one bit per pixel.
pub fn sprite16x16(x: &str) -> (r: Option<Vec<u8>>)
    ensures
        r is Some <==> spec_sprite_bitmap(32, x.spec_bytes()) is Some,
        r is Some ==> r.unwrap()@ == spec_sprite_bitmap(32, x.spec_bytes()).unwrap(),
{
    sprite_bitmap(x, 32)
}

/// Parser state of a room: the sixteen `u32` rows built so far, the
/// line index, the cell index and whether the cursor is between the
/// `|` markers; `None` once the shape of the input went wrong.
pub open spec fn spec_room_step(st: Option<(Seq<u32>, int, int, bool)>, c: u8) -> Option<
    (Seq<u32>, int, int, bool),
> {
    match st {
        None => None,
        Some((buf, line, cell, within)) => {
            if c == 124 {
                if !within {
                    if line >= 8 {
                        None
                    } else {
                        Some((buf, line, cell, true))
                    }
                } else {
                    if cell != 16 {
                        None
                    } else {
                        Some((buf, line + 1, 0, false))
                    }
                }
            } else if within {
                if cell >= 16 {
                    None
                } else {
                    let codes: Option<(u32, u32)> = if c == 32 {
                        Some((0u32, 0u32))
                    } else if c == 96 {
                        Some((1u32, 0u32))
                    } else if c == 44 {
                        Some((0u32, 1u32))
                    } else if c == 88 {
                        Some((1u32, 1u32))
                    } else {
                        None
                    };
                    match codes {
                        None => None,
                        Some((up, low)) => {
                            let buf2 = buf.update(
                                2 * line,
                                (buf[2 * line] | (up << (cell * 2) as u32)) as u32,
                            ).update(
                                2 * line + 1,
                                (buf[2 * line + 1] | (low << (cell * 2) as u32)) as u32,
                            );
                            Some((buf2, line, cell + 1, within))
                        },
                    }
                }
            } else {
                st
            }
        },
    }
}

pub open spec fn spec_room_fold(s: Seq<u8>, i: int) -> Option<(Seq<u32>, int, int, bool)>
    decreases i,
{
    if i <= 0 {
        Some((Seq::new(16, |j: int| 0u32), 0, 0, false))
    } else {
        spec_room_step(spec_room_fold(s, i - 1), s[i - 1])
    }
}

/// The sixteen two-bit-coded rows an ASCII room compiles to: eight
/// lines of sixteen characters between `|` markers, each character an
/// upper and a lower half-tile.
pub open spec fn spec_room16x16(s: Seq<u8>) -> Option<Seq<u32>> {
    match spec_room_fold(s, s.len() as int) {
        Some((buf, line, _, _)) => if line == 8 {
            Some(buf)
        } else {
            None
        },
        None => None,
    }
}

proof fn lemma_room_fold_none(s: Seq<u8>, i: int, j: int)
    requires
        0 <= i <= j <= s.len(),
        spec_room_fold(s, i) is None,
    ensures
        spec_room_fold(s, j) is None,
    decreases j - i,
{
    if i < j {
        lemma_room_fold_none(s, i, j - 1);
    }
}

/// Compile an ASCII room into its sixteen two-bit-coded rows.
pub fn room16x16(x: &str) -> (r: Option<Vec<u32>>)
    ensures
        r is Some <==> spec_room16x16(x.spec_bytes()) is Some,
        r is Some ==> r.unwrap()@ == spec_room16x16(x.spec_bytes()).unwrap(),
{
    let s = x.as_bytes();
    let ghost bs = s@;
    assert(bs == x.spec_bytes());
    let mut buf: Vec<u32> = Vec::new();
    let mut k: usize = 0;
    while k < 16
        invariant
            k <= 16,
            buf@.len() == k,
            forall|j: int| 0 <= j < k ==> buf@[j] == 0u32,
        decreases 16 - k,
    {
        buf.push(0);
        k = k + 1;
    }
    assert(buf@ =~= Seq::new(16, |j: int| 0u32));

    let mut lineidx: usize = 0;
    let mut cellidx: usize = 0;
    let mut within: bool = false;
    let mut i: usize = 0;
    while i < s.len()
        invariant
            s@ == bs,
            bs == x.spec_bytes(),
            i <= s@.len(),
            lineidx <= 8,
            within ==> lineidx < 8,
            cellidx <= 16,
            buf@.len() == 16,
            spec_room_fold(bs, i as int) == Some(
                (buf@, lineidx as int, cellidx as int, within),
            ),
        decreases s@.len() - i,
    {
        let chr = s[i];
        proof {
            assert(spec_room_fold(bs, i + 1) == spec_room_step(
                spec_room_fold(bs, i as int),
                bs[i as int],
            ));
        }
        if chr == 124 {
            if !within {
                if lineidx >= 8 {
                    proof {
                        lemma_room_fold_none(bs, i + 1, bs.len() as int);
                    }
                    return None;
                }
                within = true;
            } else {
                if cellidx != 16 {
                    proof {
                        lemma_room_fold_none(bs, i + 1, bs.len() as int);
                    }
                    return None;
                }
                cellidx = 0;
                lineidx = lineidx + 1;
                within = false;
            }
        } else if within {
            if cellidx >= 16 {
                proof {
                    lemma_room_fold_none(bs, i + 1, bs.len() as int);
                }
                return None;
            }
            let up: u32;
            let low: u32;
            if chr == 32 {
                up = 0;
                low = 0;
            } else if chr == 96 {
                up = 1;
                low = 0;
            } else if chr == 44 {
                up = 0;
                low = 1;
            } else if chr == 88 {
                up = 1;
                low = 1;
            } else {
                proof {
                    lemma_room_fold_none(bs, i + 1, bs.len() as int);
                }
                return None;
            }
            let sh: u32 = (cellidx as u32) * 2;
            let w0 = buf[2 * lineidx] | (up << sh);
            buf.set(2 * lineidx, w0);
            let w1 = buf[2 * lineidx + 1] | (low << sh);
            buf.set(2 * lineidx + 1, w1);
            cellidx = cellidx + 1;
        }
        i = i + 1;
    }
    if lineidx != 8 {
        return None;
    }
    Some(buf)
}

/// Parser state of a character-description table: the entries, how
/// many are complete, and the cursor mode (0 = before a triplet,
/// 1 = expecting the upper cell type, 2 = expecting the lower one).
pub open spec fn spec_chardesc_step(
    n: int,
    st: Option<(Seq<crate::CharDescription>, int, int)>,
    c: u8,
) -> Option<(Seq<crate::CharDescription>, int, int)> {
    match st {
        None => None,
        Some((v, j, mode)) => {
            if mode == 0 {
                if c == 32 || c == 10 || c == 9 {
                    st
                } else if j >= n {
                    None
                } else {
                    Some((v.update(j, crate::CharDescription { chr: c, ..v[j] }), j, 1))
                }
            } else {
                let t: Option<crate::LowlevelCellType> = if c == 46 {
                    Some(crate::LowlevelCellType::Empty)
                } else if c == 88 {
                    Some(crate::LowlevelCellType::Solid)
                } else if c == 65 {
                    Some(crate::LowlevelCellType::CustomA)
                } else if c == 66 {
                    Some(crate::LowlevelCellType::CustomB)
                } else if c == 33 {
                    Some(crate::LowlevelCellType::Special)
                } else {
                    None
                };
                match t {
                    None => None,
                    Some(t) => {
                        if j >= n {
                            None
                        } else if mode == 1 {
                            Some((v.update(j, crate::CharDescription { upper: t, ..v[j] }), j, 2))
                        } else {
                            Some(
                                (
                                    v.update(j, crate::CharDescription { lower: t, ..v[j] }),
                                    j + 1,
                                    0,
                                ),
                            )
                        }
                    },
                }
            }
        },
    }
}

pub open spec fn spec_chardesc_fold(n: int, s: Seq<u8>, i: int) -> Option<
    (Seq<crate::CharDescription>, int, int),
>
    decreases i,
{
    if i <= 0 {
        Some(
            (
                Seq::new(
                    n as nat,
                    |j: int|
                        crate::CharDescription {
                            chr: 63,
                            upper: crate::LowlevelCellType::Empty,
                            lower: crate::LowlevelCellType::Empty,
                        },
                ),
                0,
                0,
            ),
        )
    } else {
        spec_chardesc_step(n, spec_chardesc_fold(n, s, i - 1), s[i - 1])
    }
}

/// The table of `n` character descriptions a specifier compiles to:
/// triplets of identifier, upper cell letter and lower cell letter,
/// separated by blanks.
pub open spec fn spec_ll_char_descriptions(n: int, s: Seq<u8>) -> Option<
    Seq<crate::CharDescription>,
> {
    match spec_chardesc_fold(n, s, s.len() as int) {
        Some((v, j, _)) => if j == n {
            Some(v)
        } else {
            None
        },
        None => None,
    }
}

proof fn lemma_chardesc_fold_none(n: int, s: Seq<u8>, i: int, j: int)
    requires
        0 <= i <= j <= s.len(),
        spec_chardesc_fold(n, s, i) is None,
    ensures
        spec_chardesc_fold(n, s, j) is None,
    decreases j - i,
{
    if i < j {
        lemma_chardesc_fold_none(n, s, i, j - 1);
    }
}

/// Compile a triplet specifier into `n` character descriptions.
pub fn ll_char_descriptions(x: &str, n: usize) -> (r: Option<Vec<crate::CharDescription>>)
    requires
        n <= 10_000,
    ensures
        r is Some <==> spec_ll_char_descriptions(n as int, x.spec_bytes()) is Some,
        r is Some ==> r.unwrap()@ == spec_ll_char_descriptions(n as int, x.spec_bytes()).unwrap(),
{
    let s = x.as_bytes();
    let ghost bs = s@;
    assert(bs == x.spec_bytes());
    let mut v: Vec<crate::CharDescription> = Vec::new();
    let mut k: usize = 0;
    while k < n
        invariant
            k <= n,
            v@.len() == k,
            forall|j: int|
                0 <= j < k ==> v@[j] == (crate::CharDescription {
                    chr: 63u8,
                    upper: crate::LowlevelCellType::Empty,
                    lower: crate::LowlevelCellType::Empty,
                }),
        decreases n - k,
    {
        v.push(
            crate::CharDescription {
                chr: 63,
                upper: crate::LowlevelCellType::Empty,
                lower: crate::LowlevelCellType::Empty,
            },
        );
        k = k + 1;
    }
    assert(v@ =~= spec_chardesc_fold(n as int, bs, 0).unwrap().0);

    let mut j: usize = 0;
    let mut mode: u8 = 0;
    let mut i: usize = 0;
    while i < s.len()
        invariant
            s@ == bs,
            bs == x.spec_bytes(),
            n <= 10_000,
            i <= s@.len(),
            j <= n,
            mode <= 2,
            v@.len() == n,
            spec_chardesc_fold(n as int, bs, i as int) == Some((v@, j as int, mode as int)),
        decreases s@.len() - i,
    {
        let chr = s[i];
        proof {
            assert(spec_chardesc_fold(n as int, bs, i + 1) == spec_chardesc_step(
                n as int,
                spec_chardesc_fold(n as int, bs, i as int),
                bs[i as int],
            ));
        }
        if mode == 0 {
            if chr == 32 || chr == 10 || chr == 9 {
                // Blank between triplets.
            } else if j >= n {
                proof {
                    lemma_chardesc_fold_none(n as int, bs, i + 1, bs.len() as int);
                }
                return None;
            } else {
                let mut e = v[j];
                e.chr = chr;
                v.set(j, e);
                mode = 1;
            }
        } else {
            let t: crate::LowlevelCellType;
            if chr == 46 {
                t = crate::LowlevelCellType::Empty;
            } else if chr == 88 {
                t = crate::LowlevelCellType::Solid;
            } else if chr == 65 {
                t = crate::LowlevelCellType::CustomA;
            } else if chr == 66 {
                t = crate::LowlevelCellType::CustomB;
            } else if chr == 33 {
                t = crate::LowlevelCellType::Special;
            } else {
                proof {
                    lemma_chardesc_fold_none(n as int, bs, i + 1, bs.len() as int);
                }
                return None;
            }
            if j >= n {
                proof {
                    lemma_chardesc_fold_none(n as int, bs, i + 1, bs.len() as int);
                }
                return None;
            }
            if mode == 1 {
                let mut e = v[j];
                e.upper = t;
                v.set(j, e);
                mode = 2;
            } else {
                let mut e = v[j];
                e.lower = t;
                v.set(j, e);
                j = j + 1;
                mode = 0;
            }
        }
        i = i + 1;
    }
    if j != n {
        return None;
    }
    Some(v)
}

/// First description whose identifier is `c`, from index `k` onward.
pub open spec fn spec_lookup_char_from(s: Seq<crate::CharDescription>, c: u8, k: int) -> Option<
    crate::CharDescription,
>
    decreases s.len() - k,
{
    if k < 0 || k >= s.len() {
        None
    } else if s[k].chr == c {
        Some(s[k])
    } else {
        spec_lookup_char_from(s, c, k + 1)
    }
}

/// The description of a special map character, if the table has one.
pub fn lookup_char(c: u8, char_lookup: &Vec<crate::CharDescription>) -> (r: Option<
    crate::CharDescription,
>)
    ensures
        r == spec_lookup_char_from(char_lookup@, c, 0),
{
    let mut k: usize = 0;
    while k < char_lookup.len()
        invariant
            k <= char_lookup@.len(),
            spec_lookup_char_from(char_lookup@, c, 0) == spec_lookup_char_from(
                char_lookup@,
                c,
                k as int,
            ),
        decreases char_lookup@.len() - k,
    {
        if char_lookup[k].chr == c {
            return Some(char_lookup[k]);
        }
        k = k + 1;
    }
    None
}

/// First tile mapping whose identifier is `c`, from index `k` onward.
pub open spec fn spec_lookup_tt_from(
    s: Seq<crate::MappingBetweenCharAndTileType>,
    c: u8,
    k: int,
) -> Option<crate::tiles::TileTypeEnum>
    decreases s.len() - k,
{
    if k < 0 || k >= s.len() {
        None
    } else if s[k].chr == c {
        Some(s[k].tt)
    } else {
        spec_lookup_tt_from(s, c, k + 1)
    }
}

/// The tile type a special map character stands for, if mapped.
pub fn lookup_tt(c: u8, lookup: &Vec<crate::MappingBetweenCharAndTileType>) -> (r: Option<
    crate::tiles::TileTypeEnum,
>)
    ensures
        r == spec_lookup_tt_from(lookup@, c, 0),
{
    let mut k: usize = 0;
    while k < lookup.len()
        invariant
            k <= lookup@.len(),
            spec_lookup_tt_from(lookup@, c, 0) == spec_lookup_tt_from(lookup@, c, k as int),
        decreases lookup@.len() - k,
    {
        if lookup[k].chr == c {
            return Some(lookup[k].tt);
        }
        k = k + 1;
    }
    None
}

/// Parser state of an area: all room rows as one flat sequence of
/// `32 * 16` words (room-major), the special-character positions seen
/// so far, the room metadata, and the cursor.
pub struct AreaParse {
    pub rows: Seq<u32>,
    pub specials: Seq<Option<crate::UniqueItemPositionLowlevel>>,
    pub sp_idx: int,
    pub meta: Seq<crate::RoomMetadata>,
    pub line: int,
    pub cell: int,
    pub within: bool,
}

/// Record a custom cell type in a room's metadata, if consistent.
pub open spec fn spec_apply_custom(
    tl: Seq<crate::MappingBetweenCharAndTileType>,
    c: u8,
    roomidx: int,
    meta: Seq<crate::RoomMetadata>,
    t: crate::LowlevelCellType,
) -> Option<Seq<crate::RoomMetadata>> {
    match t {
        crate::LowlevelCellType::CustomA => match spec_lookup_tt_from(tl, c, 0) {
            None => None,
            Some(tt) => {
                let m = meta[roomidx];
                match m.block_type_a {
                    None => Some(
                        meta.update(
                            roomidx,
                            crate::RoomMetadata { block_type_a: Some(tt), ..m },
                        ),
                    ),
                    Some(x) => if crate::tiles::spec_tile_type_enum_eq(x, tt) {
                        Some(meta)
                    } else {
                        None
                    },
                }
            },
        },
        crate::LowlevelCellType::CustomB => match spec_lookup_tt_from(tl, c, 0) {
            None => None,
            Some(tt) => {
                let m = meta[roomidx];
                match m.block_type_b {
                    None => Some(
                        meta.update(
                            roomidx,
                            crate::RoomMetadata { block_type_b: Some(tt), ..m },
                        ),
                    ),
                    Some(x) => if crate::tiles::spec_tile_type_enum_eq(x, tt) {
                        Some(meta)
                    } else {
                        None
                    },
                }
            },
        },
        _ => Some(meta),
    }
}

/// One input character applied to the area parser state.
pub open spec fn spec_area_step(
    cl: Seq<crate::CharDescription>,
    tl: Seq<crate::MappingBetweenCharAndTileType>,
    st: Option<AreaParse>,
    c: u8,
) -> Option<AreaParse> {
    match st {
        None => None,
        Some(a) => {
            if c == 124 {
                if !a.within {
                    if a.line >= 32 {
                        None
                    } else {
                        Some(AreaParse { within: true, ..a })
                    }
                } else {
                    if a.cell != 128 {
                        None
                    } else {
                        Some(AreaParse { cell: 0, line: a.line + 1, within: false, ..a })
                    }
                }
            } else if a.within {
                if a.cell >= 128 {
                    None
                } else {
                    let roomidx = (a.line / 8) * 8 + a.cell / 16;
                    let resolved: Option<
                        (crate::LowlevelCellType, crate::LowlevelCellType, Seq<
                            crate::RoomMetadata,
                        >),
                    > = if c == 32 {
                        Some((crate::LowlevelCellType::Empty, crate::LowlevelCellType::Empty, a.meta))
                    } else if c == 96 {
                        Some((crate::LowlevelCellType::Solid, crate::LowlevelCellType::Empty, a.meta))
                    } else if c == 44 {
                        Some((crate::LowlevelCellType::Empty, crate::LowlevelCellType::Solid, a.meta))
                    } else if c == 88 {
                        Some((crate::LowlevelCellType::Solid, crate::LowlevelCellType::Solid, a.meta))
                    } else {
                        match spec_lookup_char_from(cl, c, 0) {
                            None => None,
                            Some(info) => {
                                if (info.upper is CustomA && info.lower is CustomB) || (
                                info.upper is CustomB && info.lower is CustomA) {
                                    None
                                } else {
                                    match spec_apply_custom(
                                        tl,
                                        c,
                                        roomidx,
                                        a.meta,
                                        info.upper,
                                    ) {
                                        None => None,
                                        Some(m1) => match spec_apply_custom(
                                            tl,
                                            c,
                                            roomidx,
                                            m1,
                                            info.lower,
                                        ) {
                                            None => None,
                                            Some(m2) => Some((info.upper, info.lower, m2)),
                                        },
                                    }
                                }
                            },
                        }
                    };
                    match resolved {
                        None => None,
                        Some((up, low, meta2)) => {
                            let need_up = up is Special;
                            let need_low = low is Special;
                            if need_up && a.sp_idx >= 32 {
                                None
                            } else if need_low && a.sp_idx + (if need_up {
                                1int
                            } else {
                                0int
                            }) >= 32 {
                                None
                            } else {
                                let specials2 = if need_up {
                                    a.specials.update(
                                        a.sp_idx,
                                        Some(
                                            crate::UniqueItemPositionLowlevel {
                                                chr: c,
                                                pos: (a.cell as u16, (2 * a.line) as u16),
                                            },
                                        ),
                                    )
                                } else {
                                    a.specials
                                };
                                let sp1 = a.sp_idx + (if need_up {
                                    1int
                                } else {
                                    0int
                                });
                                let specials3 = if need_low {
                                    specials2.update(
                                        sp1,
                                        Some(
                                            crate::UniqueItemPositionLowlevel {
                                                chr: c,
                                                pos: (a.cell as u16, (2 * a.line + 1) as u16),
                                            },
                                        ),
                                    )
                                } else {
                                    specials2
                                };
                                let sp2 = sp1 + (if need_low {
                                    1int
                                } else {
                                    0int
                                });
                                let wrx = a.cell % 16;
                                let wry = a.line % 8;
                                let i0 = roomidx * 16 + 2 * wry;
                                let rows2 = a.rows.update(
                                    i0,
                                    (a.rows[i0] | ((crate::spec_ll_code(up) as u32) << (wrx
                                        * 2) as u32)) as u32,
                                ).update(
                                    i0 + 1,
                                    (a.rows[i0 + 1] | ((crate::spec_ll_code(low) as u32) << (wrx
                                        * 2) as u32)) as u32,
                                );
                                Some(
                                    AreaParse {
                                        rows: rows2,
                                        specials: specials3,
                                        sp_idx: sp2,
                                        meta: meta2,
                                        cell: a.cell + 1,
                                        ..a
                                    },
                                )
                            }
                        },
                    }
                }
            } else {
                st
            }
        },
    }
}

/// The initial area parser state for a source.
pub open spec fn spec_area_init(
    empty_style: crate::tiles::TileTypeEnum,
    solid_style: crate::tiles::TileTypeEnum,
) -> AreaParse {
    AreaParse {
        rows: Seq::new(512, |j: int| 0u32),
        specials: Seq::new(32, |j: int| None),
        sp_idx: 0,
        meta: Seq::new(
            32,
            |j: int|
                crate::RoomMetadata {
                    block_type_sp: Some(empty_style),
                    block_type_x: Some(solid_style),
                    block_type_a: None,
                    block_type_b: None,
                },
        ),
        line: 0,
        cell: 0,
        within: false,
    }
}

pub open spec fn spec_area_fold(
    cells: Seq<u8>,
    cl: Seq<crate::CharDescription>,
    tl: Seq<crate::MappingBetweenCharAndTileType>,
    empty_style: crate::tiles::TileTypeEnum,
    solid_style: crate::tiles::TileTypeEnum,
    i: int,
) -> Option<AreaParse>
    decreases i,
{
    if i <= 0 {
        Some(spec_area_init(empty_style, solid_style))
    } else {
        spec_area_step(
            cl,
            tl,
            spec_area_fold(cells, cl, tl, empty_style, solid_style, i - 1),
            cells[i - 1],
        )
    }
}

/// The parsed area of a source: exactly 32 lines of 128 cells between
/// `|` markers, or nothing if the source is malformed.
pub open spec fn spec_makearea(
    cells: Seq<u8>,
    cl: Seq<crate::CharDescription>,
    tl: Seq<crate::MappingBetweenCharAndTileType>,
    empty_style: crate::tiles::TileTypeEnum,
    solid_style: crate::tiles::TileTypeEnum,
) -> Option<AreaParse> {
    match spec_area_fold(cells, cl, tl, empty_style, solid_style, cells.len() as int) {
        Some(a) => if a.line == 32 {
            Some(a)
        } else {
            None
        },
        None => None,
    }
}

proof fn lemma_area_fold_none(
    cells: Seq<u8>,
    cl: Seq<crate::CharDescription>,
    tl: Seq<crate::MappingBetweenCharAndTileType>,
    empty_style: crate::tiles::TileTypeEnum,
    solid_style: crate::tiles::TileTypeEnum,
    i: int,
    j: int,
)
    requires
        0 <= i <= j <= cells.len(),
        spec_area_fold(cells, cl, tl, empty_style, solid_style, i) is None,
    ensures
        spec_area_fold(cells, cl, tl, empty_style, solid_style, j) is None,
    decreases j - i,
{
    if i < j {
        lemma_area_fold_none(cells, cl, tl, empty_style, solid_style, i, j - 1);
    }
}

/// The parse of a whole area source value.
pub open spec fn spec_makearea_src(src: crate::AreaSource) -> Option<AreaParse> {
    spec_makearea(
        src.cells@,
        src.char_lookup@,
        src.tile_lookup@,
        src.empty_tile_style,
        src.solid_tile_style,
    )
}

/// The nested per-room view of a flat sequence of room rows.
pub open spec fn rooms_view(v: Seq<Vec<u32>>) -> Seq<Seq<u32>> {
    Seq::new(v.len(), |i: int| v[i]@)
}

/// Compile an area source into its room bitfields, the low-level
/// unique-item positions and the per-room metadata.
pub fn makearea(src: &crate::AreaSource) -> (r: Option<
    (Vec<crate::RoomData>, Vec<Option<crate::UniqueItemPositionLowlevel>>, Vec<crate::RoomMetadata>),
>)
    ensures
        r is Some <==> spec_makearea_src(*src) is Some,
        r is Some ==> {
            let a = spec_makearea_src(*src).unwrap();
            let (rooms, specials, meta) = r.unwrap();
            &&& a.rows.len() == 512
            &&& a.specials.len() == 32
            &&& a.meta.len() == 32
            &&& rooms@.len() == 32
            &&& forall|i: int| 0 <= i < 32 ==> (#[trigger] rooms@[i])@ == a.rows.subrange(
                i * 16,
                i * 16 + 16,
            )
            &&& specials@ == a.specials
            &&& meta@ == a.meta
        },
{
    let s_len = src.cells.len();
    let mut rows: Vec<u32> = Vec::new();
    let mut k: usize = 0;
    while k < 512
        invariant
            k <= 512,
            rows@.len() == k,
            forall|j: int| 0 <= j < k ==> rows@[j] == 0u32,
        decreases 512 - k,
    {
        rows.push(0);
        k = k + 1;
    }
    assert(rows@ =~= Seq::new(512, |j: int| 0u32));

    let mut specials: Vec<Option<crate::UniqueItemPositionLowlevel>> = Vec::new();
    k = 0;
    while k < 32
        invariant
            k <= 32,
            specials@.len() == k,
            forall|j: int| 0 <= j < k ==> specials@[j] is None,
        decreases 32 - k,
    {
        specials.push(None);
        k = k + 1;
    }
    assert(specials@ =~= Seq::new(32, |j: int| None::<crate::UniqueItemPositionLowlevel>));

    let init_meta = crate::RoomMetadata {
        block_type_sp: Some(src.empty_tile_style),
        block_type_x: Some(src.solid_tile_style),
        block_type_a: None,
        block_type_b: None,
    };
    let mut meta: Vec<crate::RoomMetadata> = Vec::new();
    k = 0;
    while k < 32
        invariant
            init_meta == (crate::RoomMetadata {
                block_type_sp: Some(src.empty_tile_style),
                block_type_x: Some(src.solid_tile_style),
                block_type_a: None,
                block_type_b: None,
            }),
            k <= 32,
            meta@.len() == k,
            forall|j: int|
                0 <= j < k ==> meta@[j] == (crate::RoomMetadata {
                    block_type_sp: Some(src.empty_tile_style),
                    block_type_x: Some(src.solid_tile_style),
                    block_type_a: None,
                    block_type_b: None,
                }),
        decreases 32 - k,
    {
        meta.push(init_meta);
        k = k + 1;
    }
    assert(meta@ =~= spec_area_init(src.empty_tile_style, src.solid_tile_style).meta);

    let mut sp_idx: usize = 0;
    let mut lineidx: usize = 0;
    let mut cellidx: usize = 0;
    let mut within: bool = false;
    let mut i: usize = 0;
    while i < s_len
        invariant
            s_len == src.cells@.len(),
            i <= s_len,
            lineidx <= 32,
            within ==> lineidx < 32,
            cellidx <= 128,
            sp_idx <= 32,
            rows@.len() == 512,
            specials@.len() == 32,
            meta@.len() == 32,
            spec_area_fold(src.cells@, src.char_lookup@, src.tile_lookup@, src.empty_tile_style, src.solid_tile_style, i as int) == Some(
                AreaParse {
                    rows: rows@,
                    specials: specials@,
                    sp_idx: sp_idx as int,
                    meta: meta@,
                    line: lineidx as int,
                    cell: cellidx as int,
                    within: within,
                },
            ),
        decreases s_len - i,
    {
        let chr = src.cells[i];
        proof {
            assert(spec_area_fold(
                src.cells@,
                src.char_lookup@,
                src.tile_lookup@,
                src.empty_tile_style,
                src.solid_tile_style,
                i + 1,
            ) == spec_area_step(
                src.char_lookup@,
                src.tile_lookup@,
                spec_area_fold(
                    src.cells@,
                    src.char_lookup@,
                    src.tile_lookup@,
                    src.empty_tile_style,
                    src.solid_tile_style,
                    i as int,
                ),
                src.cells@[i as int],
            ));
        }
        if chr == 124 {
            if !within {
                if lineidx >= 32 {
                    proof {
                        lemma_area_fold_none(
                            src.cells@,
                            src.char_lookup@,
                            src.tile_lookup@,
                            src.empty_tile_style,
                            src.solid_tile_style,
                            i + 1,
                            src.cells@.len() as int,
                        );
                    }
                    return None;
                }
                within = true;
            } else {
                if cellidx != 128 {
                    proof {
                        lemma_area_fold_none(
                            src.cells@,
                            src.char_lookup@,
                            src.tile_lookup@,
                            src.empty_tile_style,
                            src.solid_tile_style,
                            i + 1,
                            src.cells@.len() as int,
                        );
                    }
                    return None;
                }
                cellidx = 0;
                lineidx = lineidx + 1;
                within = false;
            }
        } else if within {
            if cellidx >= 128 {
                proof {
                    lemma_area_fold_none(
                        src.cells@,
                        src.char_lookup@,
                        src.tile_lookup@,
                        src.empty_tile_style,
                        src.solid_tile_style,
                        i + 1,
                        src.cells@.len() as int,
                    );
                }
                return None;
            }
            let roomidx: usize = (lineidx / 8) * 8 + cellidx / 16;
            let up: crate::LowlevelCellType;
            let low: crate::LowlevelCellType;
            if chr == 32 {
                up = crate::LowlevelCellType::Empty;
                low = crate::LowlevelCellType::Empty;
            } else if chr == 96 {
                up = crate::LowlevelCellType::Solid;
                low = crate::LowlevelCellType::Empty;
            } else if chr == 44 {
                up = crate::LowlevelCellType::Empty;
                low = crate::LowlevelCellType::Solid;
            } else if chr == 88 {
                up = crate::LowlevelCellType::Solid;
                low = crate::LowlevelCellType::Solid;
            } else {
                let info = match lookup_char(chr, &src.char_lookup) {
                    Some(info) => info,
                    None => {
                        proof {
                            lemma_area_fold_none(
                            src.cells@,
                            src.char_lookup@,
                            src.tile_lookup@,
                            src.empty_tile_style,
                            src.solid_tile_style,
                            i + 1,
                            src.cells@.len() as int,
                        );
                        }
                        return None;
                    },
                };
                let bad = (matches!(info.upper, crate::LowlevelCellType::CustomA) && matches!(
                    info.lower,
                    crate::LowlevelCellType::CustomB,
                )) || (matches!(info.upper, crate::LowlevelCellType::CustomB) && matches!(
                    info.lower,
                    crate::LowlevelCellType::CustomA,
                ));
                if bad {
                    proof {
                        lemma_area_fold_none(
                            src.cells@,
                            src.char_lookup@,
                            src.tile_lookup@,
                            src.empty_tile_style,
                            src.solid_tile_style,
                            i + 1,
                            src.cells@.len() as int,
                        );
                    }
                    return None;
                }
                if !apply_custom(&src.tile_lookup, chr, roomidx, &mut meta, info.upper) {
                    proof {
                        lemma_area_fold_none(
                            src.cells@,
                            src.char_lookup@,
                            src.tile_lookup@,
                            src.empty_tile_style,
                            src.solid_tile_style,
                            i + 1,
                            src.cells@.len() as int,
                        );
                    }
                    return None;
                }
                if !apply_custom(&src.tile_lookup, chr, roomidx, &mut meta, info.lower) {
                    proof {
                        lemma_area_fold_none(
                            src.cells@,
                            src.char_lookup@,
                            src.tile_lookup@,
                            src.empty_tile_style,
                            src.solid_tile_style,
                            i + 1,
                            src.cells@.len() as int,
                        );
                    }
                    return None;
                }
                up = info.upper;
                low = info.lower;
            }
            let need_up = matches!(up, crate::LowlevelCellType::Special);
            let need_low = matches!(low, crate::LowlevelCellType::Special);
            if need_up {
                if sp_idx >= 32 {
                    proof {
                        lemma_area_fold_none(
                            src.cells@,
                            src.char_lookup@,
                            src.tile_lookup@,
                            src.empty_tile_style,
                            src.solid_tile_style,
                            i + 1,
                            src.cells@.len() as int,
                        );
                    }
                    return None;
                }
                specials.set(
                    sp_idx,
                    Some(
                        crate::UniqueItemPositionLowlevel {
                            chr,
                            pos: (cellidx as u16, (2 * lineidx) as u16),
                        },
                    ),
                );
                sp_idx = sp_idx + 1;
            }
            if need_low {
                if sp_idx >= 32 {
                    proof {
                        lemma_area_fold_none(
                            src.cells@,
                            src.char_lookup@,
                            src.tile_lookup@,
                            src.empty_tile_style,
                            src.solid_tile_style,
                            i + 1,
                            src.cells@.len() as int,
                        );
                    }
                    return None;
                }
                specials.set(
                    sp_idx,
                    Some(
                        crate::UniqueItemPositionLowlevel {
                            chr,
                            pos: (cellidx as u16, (2 * lineidx + 1) as u16),
                        },
                    ),
                );
                sp_idx = sp_idx + 1;
            }
            let wrx: usize = cellidx % 16;
            let wry: usize = lineidx % 8;
            let i0: usize = roomidx * 16 + 2 * wry;
            let sh: u32 = (wrx as u32) * 2;
            let w0 = rows[i0] | ((up.ll_code() as u32) << sh);
            rows.set(i0, w0);
            let w1 = rows[i0 + 1] | ((low.ll_code() as u32) << sh);
            rows.set(i0 + 1, w1);
            cellidx = cellidx + 1;
        }
        i = i + 1;
    }
    if lineidx != 32 {
        return None;
    }

    // Regroup the flat rows into one sixteen-row vector per room.
    let mut rooms: Vec<crate::RoomData> = Vec::new();
    let mut room: usize = 0;
    while room < 32
        invariant
            rows@.len() == 512,
            room <= 32,
            rooms@.len() == room,
            forall|i2: int|
                0 <= i2 < room ==> (#[trigger] rooms@[i2])@ == rows@.subrange(
                    i2 * 16,
                    i2 * 16 + 16,
                ),
        decreases 32 - room,
    {
        let mut one: Vec<u32> = Vec::new();
        let mut w: usize = 0;
        while w < 16
            invariant
                rows@.len() == 512,
                room < 32,
                w <= 16,
                one@.len() == w,
                forall|j: int| 0 <= j < w ==> one@[j] == rows@[room * 16 + j],
            decreases 16 - w,
        {
            one.push(rows[room * 16 + w]);
            w = w + 1;
        }
        assert(one@ =~= rows@.subrange(room as int * 16, room as int * 16 + 16));
        rooms.push(one);
        room = room + 1;
    }
    Some((rooms, specials, meta))
}

/// Record one custom cell type in the metadata; `false` means the
/// mapping was missing or inconsistent (the state is then unchanged
/// only up to this failing update, as the caller gives up).
fn apply_custom(
    tl: &Vec<crate::MappingBetweenCharAndTileType>,
    c: u8,
    roomidx: usize,
    meta: &mut Vec<crate::RoomMetadata>,
    t: crate::LowlevelCellType,
) -> (ok: bool)
    requires
        roomidx < old(meta)@.len(),
    ensures
        match spec_apply_custom(tl@, c, roomidx as int, old(meta)@, t) {
            Some(m2) => ok && final(meta)@ == m2,
            None => !ok,
        },
        final(meta)@.len() == old(meta)@.len(),
{
    match t {
        crate::LowlevelCellType::CustomA => {
            let tt = match lookup_tt(c, tl) {
                Some(tt) => tt,
                None => {
                    return false;
                },
            };
            let m = meta[roomidx];
            match m.block_type_a {
                None => {
                    let mut m2 = m;
                    m2.block_type_a = Some(tt);
                    meta.set(roomidx, m2);
                    true
                },
                Some(x) => crate::tiles::tile_type_enum_eq(x, tt),
            }
        },
        crate::LowlevelCellType::CustomB => {
            let tt = match lookup_tt(c, tl) {
                Some(tt) => tt,
                None => {
                    return false;
                },
            };
            let m = meta[roomidx];
            match m.block_type_b {
                None => {
                    let mut m2 = m;
                    m2.block_type_b = Some(tt);
                    meta.set(roomidx, m2);
                    true
                },
                Some(x) => crate::tiles::tile_type_enum_eq(x, tt),
            }
        },
        _ => true,
    }
}

/// First item mapping whose identifier is `c`, from index `k` onward.
pub open spec fn spec_lookup_item_from(
    s: Seq<crate::MappingBetweenCharAndItem>,
    c: u8,
    k: int,
) -> Option<crate::MappingBetweenCharAndItem>
    decreases s.len() - k,
{
    if k < 0 || k >= s.len() {
        None
    } else if s[k].chr == c {
        Some(s[k])
    } else {
        spec_lookup_item_from(s, c, k + 1)
    }
}

/// The unique item a special map character stands for, if mapped.
pub fn lookup_item(c: u8, lookup: &Vec<crate::MappingBetweenCharAndItem>) -> (r: Option<
    crate::MappingBetweenCharAndItem,
>)
    ensures
        r == spec_lookup_item_from(lookup@, c, 0),
{
    let mut k: usize = 0;
    while k < lookup.len()
        invariant
            k <= lookup@.len(),
            spec_lookup_item_from(lookup@, c, 0) == spec_lookup_item_from(lookup@, c, k as int),
        decreases lookup@.len() - k,
    {
        if lookup[k].chr == c {
            return Some(lookup[k]);
        }
        k = k + 1;
    }
    None
}

/// Resolve the low-level special positions through the item table:
/// the output slots filled so far and the next free slot.
pub open spec fn spec_resolve_fold(
    il: Seq<crate::MappingBetweenCharAndItem>,
    sp: Seq<Option<crate::UniqueItemPositionLowlevel>>,
    i: int,
    out: Seq<Option<crate::UniqueItemPosition>>,
    j: int,
) -> Option<(Seq<Option<crate::UniqueItemPosition>>, int)>
    decreases sp.len() - i,
{
    if i < 0 || i >= sp.len() {
        Some((out, j))
    } else {
        match sp[i] {
            None => spec_resolve_fold(il, sp, i + 1, out, j),
            Some(ll) => match spec_lookup_item_from(il, ll.chr, 0) {
                None => None,
                Some(m) => if j < 0 || j >= 16 {
                    None
                } else {
                    spec_resolve_fold(
                        il,
                        sp,
                        i + 1,
                        out.update(
                            j,
                            Some(
                                crate::UniqueItemPosition {
                                    item: m.item,
                                    pos: ll.pos,
                                    priority: m.priority,
                                },
                            ),
                        ),
                        j + 1,
                    )
                },
            },
        }
    }
}

/// Distribute the resolved positions over the rooms: two item slots
/// per room, kept as one flat sequence of `32 * 2` slots.
pub open spec fn spec_place_fold(
    positions: Seq<Option<crate::UniqueItemPosition>>,
    i: int,
    uniq: Seq<Option<UniqueItem>>,
) -> Option<Seq<Option<UniqueItem>>>
    decreases positions.len() - i,
{
    if i < 0 || i >= positions.len() {
        Some(uniq)
    } else {
        match positions[i] {
            None => spec_place_fold(positions, i + 1, uniq),
            Some(p) => {
                if !(p.pos.0 < 128 && p.pos.1 < 64) {
                    None
                } else {
                    let roomidx = (p.pos.1 / 16) * 8 + p.pos.0 / 16;
                    let i0 = roomidx * 2;
                    if uniq[i0] is None {
                        spec_place_fold(positions, i + 1, uniq.update(i0, Some(p.item)))
                    } else if uniq[i0 + 1] is None {
                        spec_place_fold(positions, i + 1, uniq.update(i0 + 1, Some(p.item)))
                    } else {
                        None
                    }
                }
            },
        }
    }
}

/// The flat-row counterpart of `room_cell_ok`.
pub open spec fn flat_cell_ok(
    rows: Seq<u32>,
    meta: Seq<crate::RoomMetadata>,
    room: int,
    row: int,
    col: int,
) -> bool {
    let code = (rows[room * 16 + row] >> (col * 2) as u32) & 3;
    &&& meta[room].block_type_sp is Some
    &&& meta[room].block_type_x is Some
    &&& (code == 2 ==> meta[room].block_type_a is Some)
    &&& (code == 3 ==> meta[room].block_type_b is Some)
}

/// Every room cell code of the flat row block names a defined tile
/// type in its room's metadata.
pub open spec fn flat_meta_ok(rows: Seq<u32>, meta: Seq<crate::RoomMetadata>) -> bool {
    forall|room: int, row: int, col: int|
        0 <= room < 32 && 0 <= row < 16 && 0 <= col < 16 ==> #[trigger] flat_cell_ok(
            rows,
            meta,
            room,
            row,
            col,
        )
}

/// The fully compiled area of a source, if everything resolves:
/// the flat room rows, the metadata, the flat room-item slots and the
/// resolved item positions.
pub open spec fn spec_area_build(
    cells: Seq<u8>,
    cl: Seq<crate::CharDescription>,
    tl: Seq<crate::MappingBetweenCharAndTileType>,
    il: Seq<crate::MappingBetweenCharAndItem>,
    empty_style: crate::tiles::TileTypeEnum,
    solid_style: crate::tiles::TileTypeEnum,
) -> Option<
    (Seq<u32>, Seq<crate::RoomMetadata>, Seq<Option<UniqueItem>>, Seq<
        Option<crate::UniqueItemPosition>,
    >),
> {
    match spec_makearea(cells, cl, tl, empty_style, solid_style) {
        None => None,
        Some(a) => match spec_resolve_fold(
            il,
            a.specials,
            0,
            Seq::new(16, |j: int| None),
            0,
        ) {
            None => None,
            Some((positions, _)) => match spec_place_fold(
                positions,
                0,
                Seq::new(64, |j: int| None),
            ) {
                None => None,
                Some(uniq) => if flat_meta_ok(a.rows, a.meta) {
                    Some((a.rows, a.meta, uniq, positions))
                } else {
                    None
                },
            },
        },
    }
}

/// The compilation of a whole area source value.
pub open spec fn spec_area_build_src(src: crate::AreaSource) -> Option<
    (Seq<u32>, Seq<crate::RoomMetadata>, Seq<Option<UniqueItem>>, Seq<
        Option<crate::UniqueItemPosition>,
    >),
> {
    spec_area_build(
        src.cells@,
        src.char_lookup@,
        src.tile_lookup@,
        src.item_lookup@,
        src.empty_tile_style,
        src.solid_tile_style,
    )
}

impl crate::Area {
    /// Compile an area source into an area and its resolved
    /// unique-item positions.
    pub fn build(src: crate::AreaSource) -> (r: Option<(crate::Area, crate::UniqueItemPositions)>)
        ensures
            r is Some <==> spec_area_build_src(src) is Some,
            r is Some ==> {
                let (rows, meta, uniq, positions) = spec_area_build_src(src).unwrap();
                let (area, specials) = r.unwrap();
                &&& crate::area_dims_wf(area)
                &&& crate::area_meta_wf(area)
                &&& forall|i: int| 0 <= i < 32 ==> (#[trigger] area.rooms@[i])@ == rows.subrange(
                    i * 16,
                    i * 16 + 16,
                )
                &&& area.meta@ == meta
                &&& forall|i: int| 0 <= i < 32 ==> (#[trigger] area.uniques@[i])@ == uniq.subrange(
                    i * 2,
                    i * 2 + 2,
                )
                &&& specials@ == positions
                &&& specials@.len() == 16
            },
    {
        let parsed = match makearea(&src) {
            Some(t) => t,
            None => {
                return None;
            },
        };
        let (rooms, specials_ll, meta) = parsed;
        let ghost a = spec_makearea_src(src).unwrap();

        // Resolve the special characters through the item table.
        let mut positions: Vec<Option<crate::UniqueItemPosition>> = Vec::new();
        let mut k: usize = 0;
        while k < 16
            invariant
                k <= 16,
                positions@.len() == k,
                forall|j: int| 0 <= j < k ==> positions@[j] is None,
            decreases 16 - k,
        {
            positions.push(None);
            k = k + 1;
        }
        assert(positions@ =~= Seq::new(16, |j: int| None::<crate::UniqueItemPosition>));

        let mut j: usize = 0;
        let mut i: usize = 0;
        while i < 32
            invariant
                spec_makearea_src(src) == Some(a),
                a.specials.len() == 32,
                specials_ll@.len() == 32,
                specials_ll@ == a.specials,
                i <= 32,
                j <= 16,
                positions@.len() == 16,
                spec_resolve_fold(src.item_lookup@, a.specials, 0, Seq::new(16, |j2: int| None), 0)
                    == spec_resolve_fold(
                    src.item_lookup@,
                    a.specials,
                    i as int,
                    positions@,
                    j as int,
                ),
            decreases 32 - i,
        {
            if let Some(spcll) = specials_ll[i] {
                let m = match lookup_item(spcll.chr, &src.item_lookup) {
                    Some(m) => m,
                    None => {
                        proof {
                            assert(spec_resolve_fold(
                                src.item_lookup@,
                                a.specials,
                                i as int,
                                positions@,
                                j as int,
                            ) is None);
                        }
                        return None;
                    },
                };
                if j >= 16 {
                    proof {
                        assert(spec_resolve_fold(
                            src.item_lookup@,
                            a.specials,
                            i as int,
                            positions@,
                            j as int,
                        ) is None);
                    }
                    return None;
                }
                positions.set(
                    j,
                    Some(
                        crate::UniqueItemPosition {
                            item: m.item,
                            pos: spcll.pos,
                            priority: m.priority,
                        },
                    ),
                );
                j = j + 1;
            }
            i = i + 1;
        }

        // Distribute the items over their rooms.
        let mut uniq_flat: Vec<Option<UniqueItem>> = Vec::new();
        k = 0;
        while k < 64
            invariant
                k <= 64,
                uniq_flat@.len() == k,
                forall|j2: int| 0 <= j2 < k ==> uniq_flat@[j2] is None,
            decreases 64 - k,
        {
            uniq_flat.push(None);
            k = k + 1;
        }
        assert(uniq_flat@ =~= Seq::new(64, |j2: int| None::<UniqueItem>));

        let ghost resolved = positions@;
        let ghost jf = j as int;
        i = 0;
        while i < 16
            invariant
                spec_makearea_src(src) == Some(a),
                spec_resolve_fold(src.item_lookup@, a.specials, 0, Seq::new(16, |j2: int| None), 0)
                    == Some((resolved, jf)),
                positions@.len() == 16,
                positions@ == resolved,
                i <= 16,
                uniq_flat@.len() == 64,
                spec_place_fold(resolved, 0, Seq::new(64, |j2: int| None)) == spec_place_fold(
                    resolved,
                    i as int,
                    uniq_flat@,
                ),
            decreases 16 - i,
        {
            if let Some(p) = positions[i] {
                if !(p.pos.0 < 128 && p.pos.1 < 64) {
                    proof {
                        assert(spec_place_fold(resolved, i as int, uniq_flat@) is None);
                    }
                    return None;
                }
                let roomidx: usize = ((p.pos.1 / 16) * 8 + p.pos.0 / 16) as usize;
                let i0: usize = roomidx * 2;
                if uniq_flat[i0].is_none() {
                    uniq_flat.set(i0, Some(p.item));
                } else if uniq_flat[i0 + 1].is_none() {
                    uniq_flat.set(i0 + 1, Some(p.item));
                } else {
                    proof {
                        assert(spec_place_fold(resolved, i as int, uniq_flat@) is None);
                    }
                    return None;
                }
            }
            i = i + 1;
        }

        // Regroup the flat item slots per room.
        let mut uniques: Vec<crate::UniqueItemsInThisRoom> = Vec::new();
        let mut room: usize = 0;
        while room < 32
            invariant
                uniq_flat@.len() == 64,
                room <= 32,
                uniques@.len() == room,
                forall|i2: int|
                    0 <= i2 < room ==> (#[trigger] uniques@[i2])@ == uniq_flat@.subrange(
                        i2 * 2,
                        i2 * 2 + 2,
                    ),
            decreases 32 - room,
        {
            let mut one: crate::UniqueItemsInThisRoom = Vec::new();
            one.push(uniq_flat[room * 2]);
            one.push(uniq_flat[room * 2 + 1]);
            assert(one@ =~= uniq_flat@.subrange(room as int * 2, room as int * 2 + 2));
            uniques.push(one);
            room = room + 1;
        }

        let area = crate::Area { rooms, meta, uniques };
        assert(crate::area_dims_wf(area));

        // The metadata must cover every cell code actually used.
        let ok = crate::area_meta_check(&area);
        proof {
            assert forall|room2: int, row: int, col: int|
                0 <= room2 < 32 && 0 <= row < 16 && 0 <= col < 16 implies (crate::cell_code(
                area,
                room2,
                row,
                col,
            ) == ((a.rows[room2 * 16 + row] >> (col * 2) as u32) & 3)) by {
                assert(area.rooms@[room2]@ == a.rows.subrange(room2 * 16, room2 * 16 + 16));
                assert(area.rooms@[room2]@[row] == a.rows[room2 * 16 + row]);
            }
            assert forall|room2: int, row: int, col: int|
                0 <= room2 < 32 && 0 <= row < 16 && 0 <= col < 16 implies (crate::room_cell_ok(
                area,
                room2,
                row,
                col,
            ) == flat_cell_ok(a.rows, a.meta, room2, row, col)) by {
                assert(area.rooms@[room2]@[row] == a.rows[room2 * 16 + row]);
            }
            assert(crate::area_meta_wf(area) == flat_meta_ok(a.rows, a.meta)) by {
                if crate::area_meta_wf(area) {
                    assert forall|room2: int, row: int, col: int|
                        0 <= room2 < 32 && 0 <= row < 16 && 0 <= col < 16 implies #[trigger] flat_cell_ok(
                        a.rows,
                        a.meta,
                        room2,
                        row,
                        col,
                    ) by {
                        assert(crate::room_cell_ok(area, room2, row, col));
                        assert(area.rooms@[room2]@[row] == a.rows[room2 * 16 + row]);
                    }
                }
                if flat_meta_ok(a.rows, a.meta) {
                    assert forall|room2: int, row: int, col: int|
                        0 <= room2 < 32 && 0 <= row < 16 && 0 <= col < 16 implies #[trigger] crate::room_cell_ok(
                        area,
                        room2,
                        row,
                        col,
                    ) by {
                        assert(flat_cell_ok(a.rows, a.meta, room2, row, col));
                        assert(area.rooms@[room2]@[row] == a.rows[room2 * 16 + row]);
                    }
                }
            }
        }
        if !ok {
            return None;
        }
        Some((area, positions))
    }
}

/// A fixed-capacity byte buffer for building short texts; writes past
/// the capacity are silently dropped whole.
pub struct UfmtBuf<const N: usize> {
    pub cursor: u16,
    pub buf: Vec<u8>,
}

impl<const N: usize> UfmtBuf<N> {
    /// Capacity fixed and within the cursor type, cursor within it.
    pub open spec fn wf(self) -> bool {
        &&& self.buf@.len() == N
        &&& self.cursor as int <= N as int
        &&& N as int <= 65_535
    }

    pub fn new() -> (r: UfmtBuf<N>)
        requires
            N <= 65_535,
        ensures
            r.wf(),
            r.cursor == 0,
            r.buf@ == Seq::new(N as nat, |j: int| 0u8),
    {
        let mut buf: Vec<u8> = Vec::new();
        let mut k: usize = 0;
        while k < N
            invariant
                k <= N,
                buf@.len() == k,
                forall|j: int| 0 <= j < k ==> buf@[j] == 0u8,
            decreases N - k,
        {
            buf.push(0);
            k = k + 1;
        }
        assert(buf@ =~= Seq::new(N as nat, |j: int| 0u8));
        UfmtBuf { cursor: 0, buf }
    }

    /// Append the text's bytes if they fit; otherwise change nothing.
    pub fn write_str(&mut self, s: &str)
        requires
            old(self).wf(),
        ensures
            final(self).wf(),
            old(self).cursor + s.spec_bytes().len() > N as int ==> *final(self) == *old(self),
            old(self).cursor + s.spec_bytes().len() <= N as int ==> {
                &&& final(self).cursor == old(self).cursor + s.spec_bytes().len()
                &&& final(self).buf@ == old(self).buf@.subrange(0, old(self).cursor as int)
                    + s.spec_bytes() + old(self).buf@.subrange(
                    old(self).cursor as int + s.spec_bytes().len() as int,
                    N as int,
                )
            },
    {
        let bytes = s.as_bytes();
        if bytes.len() > N || self.cursor as usize > N - bytes.len() {
            return ;
        }
        let start = self.cursor as usize;
        let mut i: usize = 0;
        while i < bytes.len()
            invariant
                bytes@ == s.spec_bytes(),
                self.buf@.len() == N,
                start + bytes@.len() <= N,
                start == old(self).cursor,
                self.cursor == old(self).cursor,
                i <= bytes@.len(),
                forall|j: int| 0 <= j < start ==> self.buf@[j] == old(self).buf@[j],
                forall|j: int| 0 <= j < i ==> self.buf@[start + j] == bytes@[j],
                forall|j: int|
                    start + bytes@.len() <= j < N ==> self.buf@[j] == old(self).buf@[j],
            decreases bytes@.len() - i,
        {
            self.buf.set(start + i, bytes[i]);
            i = i + 1;
        }
        self.cursor = (start + bytes.len()) as u16;
        proof {
            assert(self.buf@ =~= old(self).buf@.subrange(0, start as int) + s.spec_bytes()
                + old(self).buf@.subrange(start as int + s.spec_bytes().len() as int, N as int));
        }
    }

    /// The bytes written so far.
    pub fn bytes(&self) -> (r: Vec<u8>)
        requires
            self.wf(),
        ensures
            r@ == self.buf@.subrange(0, self.cursor as int),
    {
        let mut r: Vec<u8> = Vec::new();
        let mut i: usize = 0;
        let end = self.cursor as usize;
        while i < end
            invariant
                self.wf(),
                end == self.cursor,
                i <= end,
                r@.len() == i,
                forall|j: int| 0 <= j < i ==> r@[j] == self.buf@[j],
            decreases end - i,
        {
            r.push(self.buf[i]);
            i = i + 1;
        }
        assert(r@ =~= self.buf@.subrange(0, self.cursor as int));
        r
    }
}

/// Index of the first entry naming `it`, or -1.
pub open spec fn spec_find_item_idx(s: Seq<(UniqueItem, TilePos)>, it: UniqueItem, k: int) -> int
    decreases s.len() - k,
{
    if k < 0 || k >= s.len() {
        -1
    } else if s[k].0 == it {
        k
    } else {
        spec_find_item_idx(s, it, k + 1)
    }
}

fn find_item_idx(items: &Vec<(UniqueItem, TilePos)>, it: UniqueItem) -> (r: Option<usize>)
    ensures
        match r {
            Some(k) => {
                &&& k == spec_find_item_idx(items@, it, 0)
                &&& k < items@.len()
                &&& items@[k as int].0 == it
            },
            None => spec_find_item_idx(items@, it, 0) == -1,
        },
{
    let mut k: usize = 0;
    while k < items.len()
        invariant
            k <= items@.len(),
            spec_find_item_idx(items@, it, 0) == spec_find_item_idx(items@, it, k as int),
        decreases items@.len() - k,
    {
        if items[k].0 == it {
            return Some(k);
        }
        k = k + 1;
    }
    None
}

/// Deduplicate the resolved item positions into one entry per item,
/// honoring priority overrides: the entries and their priority marks.
pub open spec fn spec_level_fold(
    specials: Seq<Option<crate::UniqueItemPosition>>,
    i: int,
    items: Seq<(UniqueItem, TilePos)>,
    prios: Seq<bool>,
) -> Option<(Seq<(UniqueItem, TilePos)>, Seq<bool>)>
    decreases specials.len() - i,
{
    if i < 0 || i >= specials.len() {
        Some((items, prios))
    } else {
        match specials[i] {
            None => spec_level_fold(specials, i + 1, items, prios),
            Some(p) => {
                let idx = spec_find_item_idx(items, p.item, 0);
                if idx == -1 {
                    spec_level_fold(
                        specials,
                        i + 1,
                        items.push((p.item, p.pos)),
                        prios.push(p.priority),
                    )
                } else if !p.priority && !prios[idx] {
                    // Two plain positions for one item.
                    None
                } else if !p.priority && prios[idx] {
                    spec_level_fold(specials, i + 1, items, prios)
                } else if p.priority && !prios[idx] {
                    spec_level_fold(
                        specials,
                        i + 1,
                        items.update(idx, (p.item, p.pos)),
                        prios.update(idx, true),
                    )
                } else {
                    // Two priority positions for one item.
                    None
                }
            },
        }
    }
}

/// Every unique item occurs in the entries.
pub open spec fn spec_items_complete(items: Seq<(UniqueItem, TilePos)>) -> bool {
    forall|it: UniqueItem| spec_find_item_idx(items, it, 0) != -1
}

fn items_complete_check(items: &Vec<(UniqueItem, TilePos)>) -> (b: bool)
    ensures
        b == spec_items_complete(items@),
{
    let all = UniqueItem::all();
    let mut k: usize = 0;
    while k < all.len()
        invariant
            all@ == crate::unique_items::spec_all_items(),
            k <= all@.len(),
            forall|j: int|
                0 <= j < k ==> spec_find_item_idx(items@, #[trigger] all@[j], 0) != -1,
        decreases all@.len() - k,
    {
        if find_item_idx(items, all[k]).is_none() {
            return false;
        }
        k = k + 1;
    }
    proof {
        assert forall|it: UniqueItem| spec_find_item_idx(items@, it, 0) != -1 by {
            let items0 = crate::unique_items::spec_all_items();
            assert(it == items0[crate::unique_items::spec_item_index(it)]);
        }
    }
    true
}

/// The compiled built-in area, before item deduplication.
pub open spec fn spec_level_build_parts() -> Option<
    (Seq<u32>, Seq<crate::RoomMetadata>, Seq<Option<UniqueItem>>, Seq<
        Option<crate::UniqueItemPosition>,
    >),
> {
    match spec_ll_char_descriptions(9, crate::level::AREA1_CHAR_SPECIFIER.spec_bytes()) {
        None => None,
        Some(cl) => spec_area_build(
            crate::level::AREA1_CELLS.spec_bytes(),
            cl,
            crate::level::spec_area1_tile_lookup(),
            crate::level::spec_area1_item_lookup(),
            crate::tiles::TileTypeEnum::EmptyTile(crate::tiles::EmptyTile),
            crate::tiles::TileTypeEnum::UsualArea1Tile(crate::tiles::UsualArea1Tile),
        ),
    }
}

/// The fully built level: room rows, metadata, per-room item slots and
/// the deduplicated item position table.
pub open spec fn spec_level_new() -> Option<
    (Seq<u32>, Seq<crate::RoomMetadata>, Seq<Option<UniqueItem>>, Seq<(UniqueItem, TilePos)>),
> {
    match spec_level_build_parts() {
        None => None,
        Some((rows, meta, uniq, positions)) => match spec_level_fold(
            positions,
            0,
            Seq::empty(),
            Seq::empty(),
        ) {
            None => None,
            Some((items, _)) => if items.len() == crate::unique_items::UNIQUE_ITEM_COUNT as int
                && spec_items_complete(items) {
                Some((rows, meta, uniq, items))
            } else {
                None
            },
        },
    }
}

impl Level {
    /// Compile the built-in level data.
    pub fn new() -> (r: Option<Level>)
        ensures
            r is Some <==> spec_level_new() is Some,
            r is Some ==> {
                let (rows, meta, uniq, items) = spec_level_new().unwrap();
                let l = r.unwrap();
                &&& crate::level_wf(l)
                &&& forall|i: int|
                    0 <= i < 32 ==> (#[trigger] l.the_area.rooms@[i])@ == rows.subrange(
                        i * 16,
                        i * 16 + 16,
                    )
                &&& l.the_area.meta@ == meta
                &&& forall|i: int|
                    0 <= i < 32 ==> (#[trigger] l.the_area.uniques@[i])@ == uniq.subrange(
                        i * 2,
                        i * 2 + 2,
                    )
                &&& l.unique_items@ == items
            },
    {
        let src = match crate::level::area1_source() {
            Some(src) => src,
            None => {
                return None;
            },
        };
        let built = match crate::Area::build(src) {
            Some(t) => t,
            None => {
                return None;
            },
        };
        let (area, specials) = built;
        let ghost parts = spec_level_build_parts().unwrap();
        proof {
            assert(spec_level_build_parts() == Some(parts));
            assert(parts.3 == specials@);
        }

        let mut items: Vec<(UniqueItem, TilePos)> = Vec::new();
        let mut prios: Vec<bool> = Vec::new();
        let mut i: usize = 0;
        while i < specials.len()
            invariant
                spec_level_build_parts() == Some(parts),
                parts.3 == specials@,
                specials@.len() == 16,
                i <= 16,
                items@.len() == prios@.len(),
                items@.len() <= i,
                spec_level_fold(specials@, 0, Seq::empty(), Seq::empty()) == spec_level_fold(
                    specials@,
                    i as int,
                    items@,
                    prios@,
                ),
            decreases specials@.len() - i,
        {
            if let Some(p) = specials[i] {
                match find_item_idx(&items, p.item) {
                    None => {
                        items.push((p.item, p.pos));
                        prios.push(p.priority);
                    },
                    Some(k) => {
                        if !p.priority && !prios[k] {
                            proof {
                                assert(spec_level_fold(specials@, i as int, items@, prios@)
                                    is None);
                            }
                            return None;
                        } else if !p.priority && prios[k] {
                            // A plain position yields to the priority one.
                        } else if p.priority && !prios[k] {
                            items.set(k, (p.item, p.pos));
                            prios.set(k, true);
                        } else {
                            proof {
                                assert(spec_level_fold(specials@, i as int, items@, prios@)
                                    is None);
                            }
                            return None;
                        }
                    },
                }
            }
            i = i + 1;
        }

        if items.len() != crate::unique_items::UNIQUE_ITEM_COUNT {
            return None;
        }
        if !items_complete_check(&items) {
            return None;
        }

        let level = Level { the_area: area, unique_items: items };
        proof {
            assert forall|it: UniqueItem| #[trigger] crate::item_listed(level, it) by {
                let k = spec_find_item_idx(level.unique_items@, it, 0);
                lemma_find_item_idx_valid(level.unique_items@, it, 0);
            }
        }
        Some(level)
    }
}

/// A found index names a matching entry.
proof fn lemma_find_item_idx_valid(s: Seq<(UniqueItem, TilePos)>, it: UniqueItem, k: int)
    requires
        0 <= k <= s.len(),
    ensures
        spec_find_item_idx(s, it, k) != -1 ==> {
            let idx = spec_find_item_idx(s, it, k);
            &&& k <= idx < s.len()
            &&& s[idx].0 == it
        },
    decreases s.len() - k,
{
    if k < s.len() && s[k].0 != it {
        lemma_find_item_idx_valid(s, it, k + 1);
    }
}

impl Level {
    /// The position of a unique item, as recorded by the level.
    pub fn unique_item_pos(&self, item: UniqueItem) -> (r: TilePos)
        requires
            crate::level_items_complete(*self),
        ensures
            r == crate::spec_unique_item_pos(*self, item),
    {
        let n = self.unique_items.len();
        let mut i: usize = 0;
        while i < n
            invariant
                n == self.unique_items@.len(),
                0 <= i <= n,
                crate::level_items_complete(*self),
                crate::spec_unique_item_pos(*self, item) == crate::spec_find_item_pos(
                    self.unique_items@,
                    item,
                    i as int,
                ),
                forall|j: int| 0 <= j < i ==> (#[trigger] self.unique_items@[j]).0 != item,
            decreases n - i,
        {
            let entry = self.unique_items[i];
            if entry.0 == item {
                return entry.1;
            }
            i = i + 1;
        }
        proof {
            assert(crate::item_listed(*self, item));
            let k = choose|k: int|
                0 <= k < self.unique_items@.len() && (#[trigger] self.unique_items@[k]).0 == item;
            assert(false);
        }
        (0, 0)
    }
}

} // verus!
