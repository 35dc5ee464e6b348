//! The built-in level: one area of ASCII map data with its lookup
//! tables, compiled at startup.

use vstd::prelude::*;
use vstd::string::StringSliceAdditionalSpecFns;

use crate::tiles::{EmptyTile, JumpyTile, Ladder1Tile, TileTypeEnum, UsualArea1Tile};
use crate::unique_items::UniqueItem;
use crate::utils::{ll_char_descriptions, spec_ll_char_descriptions};
use crate::{AreaSource, MappingBetweenCharAndItem, MappingBetweenCharAndTileType};

verus! {

/// Triplets of map character, upper cell letter and lower cell letter.
pub const AREA1_CHAR_SPECIFIER: &'static str = "s!. J.A jAX l.B LBX S!. i.!  M!. G.!";

/// The area map. Each room line holds 128 cells between `|` markers;
/// a backquote is a solid upper half-tile, a comma a solid lower one,
/// `X` a full solid tile, and letters name custom tiles or items.
pub const AREA1_CELLS: &'static str = "                                                                                                       <
|` ```           ` ```           ` ```           ` ```           ` ```           ` ```           ` ```           ` ```           |
|        `               `               `               `               `               `               `               `       |
|XXXX       ,     XXX                            XXXX       ,    XXXX       ,    XXXX       ,    XXXX       ,    XXXX       ,    |
|XXXX     s                                      XXXX            XXXX            XXXX            XXXX            XXXX            |
|X                                                              XX              XX              XX              XX              X|
|X   ,``  `,    XXXXXXXXXXXXXXXXXXXXXXXXXXXXXXXXXXXXXX````X  X  XX   ,``  `,    XX   ,``  `,    XX   ,``  `,    XX   ,``  `,    X|
|X ,`           XX ,`           XX ,`           XX ,`     X  X  XX ,`           XX ,`           XX ,`           XX ,`           X|
|XXXXXX,XXXXXXXXXXXXXXX,XXXXXXXXXXXXXXX,XXXXXXXXXXXXXXX,XXX  XJJXXXXXXX,XXXXXXXXXXXXXXX,XXXXXXXXXXXXXXX,XXXXXXXXXXXXXXX,XXXXXXXXX|
|` ```           ` ```           ` ```           ` ```    X  X   ` ```           ` ```           ` ```           ` ```           |
|        `               `               `               `X  X           `     XXX       `               `               `       |
|XXXX       ,    XXXX       ,    XXXX       ,    XXXX     X  X   XXXX       ,  XXXXXX       ,    XXXX       ,    XXXX       ,    |
|XXXX            XXXX            XXXX            XXXX     X  X   XXXX    XXXXXXXXXXXX  X XXXX    XXXX            XXXX            |
|X              XX              XX              XX        X  X  XX       XXXXXXXXXXX`  X XXXX   XX              XX              X|
|X   ,``  `,    XX   ,``  `,    XX   ,`               ``  X  X  XX   ,`` XXXXXXXXXX   jX XXXX   XX   ,``  `,    XX   ,``  `,    X|
|X ,`           XX ,`           XX ,`                     X  X  XX ,`    XXXXXXXXXX  XXX XXXX   XX ,`           XX ,`           X|
|XXXXXX,XXXXXXXXXXXXXXX,XXXXXXXXXXXX,                 X,XXX  X XXXXXXXX,XXXXXXXXXXX    X XXXXXXXXXXXXXX,XXXXXXXXXXXXXXX,XXXXXXXXX|
|` ```           ` ```           XXX`            ` ```    X  X   ` ```   XXXXXXXXXXXX  X XXXX    ` ```           ` ```           |
|        `               `       XXXXLl                   X  X           XXXXXXXXXX    X XXXX            `               `       |
|XXXX       ,    XXXX       ,    XXXXXXLl     M           X  X    S G           `X  ,XXX XXXX    XXXX       ,    XXXX       ,    |
|XXXX            XXXX            XXXXXXXXLl                      XXXX    XXXXXX     XXXX XXXX    XXXX            XXXX            |
|X              XX              XX   XXXXXXLl                   XX       XXXXXXXXXX XXXX XXXX   XX              XX              X|
|X   ,``  `,    XX   ,``  `,    XX   XXXXXXXXXLl          jjj   XX   ,`` XXXXXXXXX  XXXX XXXX   XX   ,``  `,    XX   ,``  `,    X|
|X ,`           XX ,`           XX ,`XXXXXXXXXXXXXXl         i  XX ,`    XXXXXXXXX XXXXX XXXX   XX ,`           XX ,`           X|
|XXXXXX,XXXXXXXXXXXXXXX,XXXXXXXXXXXXXXX,XXXXXXXXXXXXXXX,XXXXXXXXXXXXXXX,XXXXXXXXXX XXXXX XXXXXXXXXXXXXX,XXXXXXXXXXXXXXX,XXXXXXXXX|
|` ```           ` ```           ` ```           ` ```           ` ```   XXXXXX  ` XXXXX XXXX    ` ```           ` ```           |
|        `               `               `               `               `               `               `               `       |
|XXXX       ,    XXXX       ,    XXXX       ,    XXXX       ,    XXXX       ,    XXXX       ,    XXXX       ,    XXXX       ,    |
|XXXX            XXXX            XXXX            XXXX            XXXX            XXXX            XXXX            XXXX            |
|X              XX              XX              XX              XX              XX              XX              XX              X|
|X   ,``  `,    XX   ,``  `,    XX   ,``  `,    XX   ,``  `,    XX   ,``  `,    XX   ,``  `,    XX   ,``  `,    XX   ,``  `,    X|
|X ,`           XX ,`           XX ,`           XX ,`           XX ,`           XX ,`           XX ,`           XX ,`           X|
|XXXXXX,XXXXXXXXXXXXXXX,XXXXXXXXXXXXXXX,XXXXXXXXXXXXXXX,XXXXXXXXXXXXXXX,XXXXXXXXXXXXXXX,XXXXXXXXXXXXXXX,XXXXXXXXXXXXXXX,XXXXXXXXX|
";

/// The tile meanings of the custom map characters.
pub open spec fn spec_area1_tile_lookup() -> Seq<MappingBetweenCharAndTileType> {
    seq![
        MappingBetweenCharAndTileType { chr: 74, tt: TileTypeEnum::JumpyTile(JumpyTile) },
        MappingBetweenCharAndTileType { chr: 106, tt: TileTypeEnum::JumpyTile(JumpyTile) },
        MappingBetweenCharAndTileType { chr: 76, tt: TileTypeEnum::Ladder1Tile(Ladder1Tile) },
        MappingBetweenCharAndTileType { chr: 108, tt: TileTypeEnum::Ladder1Tile(Ladder1Tile) },
    ]
}

/// The item meanings of the special map characters.
pub open spec fn spec_area1_item_lookup() -> Seq<MappingBetweenCharAndItem> {
    seq![
        MappingBetweenCharAndItem { chr: 115, item: UniqueItem::PlayerStart, priority: false },
        MappingBetweenCharAndItem { chr: 83, item: UniqueItem::PlayerStart, priority: true },
        MappingBetweenCharAndItem { chr: 105, item: UniqueItem::InfoWelcome, priority: false },
        MappingBetweenCharAndItem {
            chr: 77,
            item: UniqueItem::FeatureSmallSize,
            priority: false,
        },
        MappingBetweenCharAndItem { chr: 71, item: UniqueItem::CrateLog, priority: false },
    ]
}

fn area1_tile_lookup() -> (r: Vec<MappingBetweenCharAndTileType>)
    ensures
        r@ == spec_area1_tile_lookup(),
{
    let r = vec![
        MappingBetweenCharAndTileType { chr: 74, tt: TileTypeEnum::JumpyTile(JumpyTile) },
        MappingBetweenCharAndTileType { chr: 106, tt: TileTypeEnum::JumpyTile(JumpyTile) },
        MappingBetweenCharAndTileType { chr: 76, tt: TileTypeEnum::Ladder1Tile(Ladder1Tile) },
        MappingBetweenCharAndTileType { chr: 108, tt: TileTypeEnum::Ladder1Tile(Ladder1Tile) },
    ];
    assert(r@ =~= spec_area1_tile_lookup());
    r
}

fn area1_item_lookup() -> (r: Vec<MappingBetweenCharAndItem>)
    ensures
        r@ == spec_area1_item_lookup(),
{
    let r = vec![
        MappingBetweenCharAndItem { chr: 115, item: UniqueItem::PlayerStart, priority: false },
        MappingBetweenCharAndItem { chr: 83, item: UniqueItem::PlayerStart, priority: true },
        MappingBetweenCharAndItem { chr: 105, item: UniqueItem::InfoWelcome, priority: false },
        MappingBetweenCharAndItem {
            chr: 77,
            item: UniqueItem::FeatureSmallSize,
            priority: false,
        },
        MappingBetweenCharAndItem { chr: 71, item: UniqueItem::CrateLog, priority: false },
    ];
    assert(r@ =~= spec_area1_item_lookup());
    r
}

/// The source of the built-in area: its cells and lookup tables.
pub fn area1_source() -> (r: Option<AreaSource>)
    ensures
        r is Some <==> spec_ll_char_descriptions(9, AREA1_CHAR_SPECIFIER.spec_bytes()) is Some,
        r is Some ==> {
            let src = r.unwrap();
            &&& src.cells@ == AREA1_CELLS.spec_bytes()
            &&& src.empty_tile_style == TileTypeEnum::EmptyTile(EmptyTile)
            &&& src.solid_tile_style == TileTypeEnum::UsualArea1Tile(UsualArea1Tile)
            &&& src.char_lookup@ == spec_ll_char_descriptions(
                9,
                AREA1_CHAR_SPECIFIER.spec_bytes(),
            ).unwrap()
            &&& src.tile_lookup@ == spec_area1_tile_lookup()
            &&& src.item_lookup@ == spec_area1_item_lookup()
        },
{
    let char_lookup = match ll_char_descriptions(AREA1_CHAR_SPECIFIER, 9) {
        Some(cl) => cl,
        None => {
            return None;
        },
    };
    Some(
        AreaSource {
            cells: AREA1_CELLS.as_bytes_vec(),
            empty_tile_style: TileTypeEnum::EmptyTile(EmptyTile),
            solid_tile_style: TileTypeEnum::UsualArea1Tile(UsualArea1Tile),
            char_lookup,
            tile_lookup: area1_tile_lookup(),
            item_lookup: area1_item_lookup(),
        },
    )
}

} // verus!
