//! Unique collectible items and the bitfield that records which of them
//! the player has touched.

use vstd::prelude::*;

use crate::{Level, TilePos};

verus! {

/// The closed set of unique items of the level.
#[derive(PartialEq, Eq, Structural, Copy, Clone, Debug)]
pub enum UniqueItem {
    PlayerStart,
    InfoWelcome,
    FeatureSmallSize,
    CrateLog,
}

/// How many unique items there are.
pub const UNIQUE_ITEM_COUNT: usize = 4;

#[derive(PartialEq, Eq, Structural, Copy, Clone, Debug)]
pub enum UniqueItemType {
    Other,
    Infobox,
    Feature,
    Crate,
}

/// Position of an item in the declaration order.
pub open spec fn spec_item_index(it: UniqueItem) -> int {
    match it {
        UniqueItem::PlayerStart => 0,
        UniqueItem::InfoWelcome => 1,
        UniqueItem::FeatureSmallSize => 2,
        UniqueItem::CrateLog => 3,
    }
}

pub open spec fn spec_item_type(it: UniqueItem) -> UniqueItemType {
    match it {
        UniqueItem::PlayerStart => UniqueItemType::Other,
        UniqueItem::InfoWelcome => UniqueItemType::Infobox,
        UniqueItem::FeatureSmallSize => UniqueItemType::Feature,
        UniqueItem::CrateLog => UniqueItemType::Crate,
    }
}

pub open spec fn spec_visible(it: UniqueItem) -> bool {
    spec_item_type(it) != UniqueItemType::Other
}

impl UniqueItem {
    /// Index of the item in declaration order.
    pub fn index(self) -> (r: usize)
        ensures
            r == spec_item_index(self),
    {
        match self {
            UniqueItem::PlayerStart => 0,
            UniqueItem::InfoWelcome => 1,
            UniqueItem::FeatureSmallSize => 2,
            UniqueItem::CrateLog => 3,
        }
    }

    /// Where the level places this item.
    pub fn get_pos(self, level: &Level) -> (r: TilePos)
        requires
            crate::level_items_complete(*level),
        ensures
            r == crate::spec_unique_item_pos(*level, self),
    {
        level.unique_item_pos(self)
    }

    /// Whether the item is drawn on screen.
    pub fn visible(self) -> (r: bool)
        ensures
            r == spec_visible(self),
    {
        match self.item_type() {
            UniqueItemType::Other => false,
            UniqueItemType::Infobox => true,
            UniqueItemType::Feature => true,
            UniqueItemType::Crate => true,
        }
    }

    /// The category of the item.
    pub fn item_type(self) -> (r: UniqueItemType)
        ensures
            r == spec_item_type(self),
    {
        match self {
            UniqueItem::PlayerStart => UniqueItemType::Other,
            UniqueItem::InfoWelcome => UniqueItemType::Infobox,
            UniqueItem::FeatureSmallSize => UniqueItemType::Feature,
            UniqueItem::CrateLog => UniqueItemType::Crate,
        }
    }

    /// The text shown when the item is picked up.
    pub fn text(self) -> (r: &'static str)
        ensures
            r@ == spec_item_text(self),
    {
        match self {
            UniqueItem::InfoWelcome => "Welcome to\nRustMW\n\nGame goal is to\ncollect all the:\n\n* infoboxes\n* features\n* crates\n\nCollection rate:",
            UniqueItem::CrateLog => "log",
            _ => "",
        }
    }

    /// All items, in declaration order.
    pub fn all() -> (r: Vec<UniqueItem>)
        ensures
            r@ == spec_all_items(),
    {
        let r = vec![
            UniqueItem::PlayerStart,
            UniqueItem::InfoWelcome,
            UniqueItem::FeatureSmallSize,
            UniqueItem::CrateLog,
        ];
        assert(r@ =~= spec_all_items());
        r
    }
}

pub open spec fn spec_item_text(it: UniqueItem) -> Seq<char> {
    match it {
        UniqueItem::InfoWelcome => "Welcome to\nRustMW\n\nGame goal is to\ncollect all the:\n\n* infoboxes\n* features\n* crates\n\nCollection rate:"@,
        UniqueItem::CrateLog => "log"@,
        _ => ""@,
    }
}

pub open spec fn spec_all_items() -> Seq<UniqueItem> {
    seq![
        UniqueItem::PlayerStart,
        UniqueItem::InfoWelcome,
        UniqueItem::FeatureSmallSize,
        UniqueItem::CrateLog,
    ]
}

fn bitfield_len(x: usize) -> (r: usize)
    requires
        x < usize::MAX - 7,
    ensures
        r == (x + 7) / 8,
{
    (x + 7) / 8
}

fn bitfield_byte(x: usize) -> (r: usize)
    ensures
        r == x / 8,
{
    x / 8
}

fn bitfield_bitmask(x: usize) -> (r: u8)
    ensures
        r == (1u8 << (x % 8) as u8),
{
    let sh: u8 = (x % 8) as u8;
    1u8 << sh
}

/// Which unique items have been touched, packed as a bitfield.
pub struct TouchedUniqueItems {
    pub data: Vec<u8>,
}

impl TouchedUniqueItems {
    /// The bitfield holds one byte for the four items.
    pub open spec fn wf(self) -> bool {
        self.data@.len() == 1
    }

    pub open spec fn spec_is_touched(self, it: UniqueItem) -> bool {
        self.data@[0] & (1u8 << spec_item_index(it) as u8) != 0
    }

    pub fn new() -> (r: TouchedUniqueItems)
        ensures
            r.wf(),
            forall|it: UniqueItem| !r.spec_is_touched(it),
    {
        let data = vec![0u8];
        assert(forall|sh: u8| 0u8 & (1u8 << sh) == 0) by (bit_vector);
        TouchedUniqueItems { data }
    }

    /// Record the item as touched; nothing else changes.
    pub fn touch(&mut self, item: UniqueItem)
        requires
            old(self).wf(),
        ensures
            final(self).wf(),
            forall|it: UniqueItem|
                final(self).spec_is_touched(it) == (it == item || old(self).spec_is_touched(it)),
    {
        let x = item.index();
        let byte = bitfield_byte(x);
        let mask = bitfield_bitmask(x);
        let updated = self.data[byte] | mask;
        self.data.set(byte, updated);
        proof {
            let d = old(self).data@[0];
            let i = (spec_item_index(item) % 8) as u8;
            assert forall|j: u8| j < 8 implies ((d | (1u8 << i)) & (1u8 << j) != 0) == (i == j
                || (d & (1u8 << j)) != 0) by {
                lemma_bit_or_mask(d, i, j);
            }
        }
    }

    /// Whether the item has been touched.
    pub fn is_touched(&self, item: UniqueItem) -> (r: bool)
        requires
            self.wf(),
        ensures
            r == self.spec_is_touched(item),
    {
        let x = item.index();
        (self.data[bitfield_byte(x)] & bitfield_bitmask(x)) != 0
    }
}

proof fn lemma_bit_or_mask(d: u8, i: u8, j: u8)
    by (bit_vector)
    requires
        i < 8,
        j < 8,
    ensures
        ((d | (1u8 << i)) & (1u8 << j) != 0) == (i == j || (d & (1u8 << j)) != 0),
{
}

/// What one unique item contributes to the frame: whether it is on
/// screen, its screen center in pixels, which panels open and which
/// sprite to blit.
#[derive(Clone, Copy, Debug)]
pub struct UniqueDrawPlan {
    pub on_screen: bool,
    pub px: i64,
    pub py: i64,
    pub touched: bool,
    pub blinker: bool,
    pub show_info_panel: bool,
    pub show_stats: bool,
    pub show_crate_panel: bool,
    pub sprite: Option<&'static str>,
}

/// Screen center of an item for a camera position, in milli-pixels.
pub open spec fn spec_unique_center(l: Level, cam_pos: crate::vec2::Vec2, it: UniqueItem) -> crate::vec2::Vec2 {
    crate::vec2::spec_vadd(
        crate::vec2::spec_vsub(
            crate::world::spec_from_world_coords(crate::spec_unique_item_pos(l, it)),
            cam_pos,
        ),
        crate::vec2::Vec2 { x: 80_000, y: 80_000 },
    )
}

/// Whether that center lies within the item margins of the screen.
pub open spec fn spec_unique_on_screen(c: crate::vec2::Vec2) -> bool {
    !(c.x < 4500 || c.y < 4500 || c.x + 4500 > 160_000 || c.y + 4500 >= 160_000)
}

/// The sprite drawn for an item in a given state.
pub open spec fn spec_unique_sprite(ty: UniqueItemType, blinker: bool) -> Option<&'static str> {
    match ty {
        UniqueItemType::Infobox => if blinker {
            Some(crate::sprites::INFOBOX2)
        } else {
            Some(crate::sprites::INFOBOX1)
        },
        UniqueItemType::Feature => if blinker {
            Some(crate::sprites::STAR2)
        } else {
            Some(crate::sprites::STAR1)
        },
        UniqueItemType::Crate => Some(crate::sprites::CRATE),
        UniqueItemType::Other => None,
    }
}

/// Work out what to draw for one unique item, record a touch when the
/// player stands on it, and raise the player-drawing inhibit while an
/// infobox panel is open.
pub fn draw_unique(
    item: UniqueItem,
    frame: u8,
    player_pos: crate::TilePos,
    level: &Level,
    cam: &crate::camera::Camera,
    inhibit_drawing_player: &mut bool,
    status: &mut TouchedUniqueItems,
) -> (r: UniqueDrawPlan)
    requires
        crate::level_items_complete(*level),
        crate::camera::camera_wf(*cam),
        old(status).wf(),
    ensures
        final(status).wf(),
        ({
            let touched_now = crate::spec_unique_item_pos(*level, item) == player_pos;
            let center = spec_unique_center(*level, cam.pos, item);
            let on_screen = spec_unique_on_screen(center);
            let touched = old(status).spec_is_touched(item) || touched_now;
            let blinker = !touched && (frame % 60) < 30;
            let ty = spec_item_type(item);
            let info_open = on_screen && ty == UniqueItemType::Infobox && touched_now;
            &&& (forall|it2: UniqueItem|
                final(status).spec_is_touched(it2) == ((it2 == item && touched_now) || old(
                    status,
                ).spec_is_touched(it2)))
            &&& *final(inhibit_drawing_player) == (*old(inhibit_drawing_player) || info_open)
            &&& r.on_screen == on_screen
            &&& (on_screen ==> {
                &&& r.px == crate::fx::tdiv(center.x as int, 1000)
                &&& r.py == crate::fx::tdiv(center.y as int, 1000)
                &&& r.touched == touched
                &&& r.blinker == blinker
                &&& r.show_info_panel == info_open
                &&& r.show_stats == (info_open && item == UniqueItem::InfoWelcome)
                &&& r.show_crate_panel == (ty == UniqueItemType::Crate && touched_now)
                &&& r.sprite == (if *old(inhibit_drawing_player) || info_open {
                    None
                } else {
                    spec_unique_sprite(ty, blinker)
                })
            })
            &&& (!on_screen ==> r.sprite is None && !r.show_info_panel && !r.show_crate_panel
                && !r.show_stats)
        }),
{
    let posraw = level.unique_item_pos(item);
    let pos = crate::world::World::from_world_coords(posraw);

    let touched_now = posraw.0 == player_pos.0 && posraw.1 == player_pos.1;
    let mut touched = status.is_touched(item);
    if touched_now && !touched {
        status.touch(item);
        touched = true;
    }
    let center = pos.vsub(cam.pos).vadd(crate::vec2::Vec2::new(80_000, 80_000));
    if center.x < 4500 || center.y < 4500 || center.x + 4500 > 160_000 || center.y + 4500
        >= 160_000 {
        return UniqueDrawPlan {
            on_screen: false,
            px: 0,
            py: 0,
            touched,
            blinker: false,
            show_info_panel: false,
            show_stats: false,
            show_crate_panel: false,
            sprite: None,
        };
    }
    let px = crate::fx::tdiv64(center.x, 1000);
    let py = crate::fx::tdiv64(center.y, 1000);

    let mut blinker = frame % 60 < 30;
    if touched {
        blinker = false;
    }

    let ty = item.item_type();
    let mut show_info_panel = false;
    let mut show_stats = false;
    if matches!(ty, UniqueItemType::Infobox) && touched_now {
        *inhibit_drawing_player = true;
        show_info_panel = true;
        if matches!(item, UniqueItem::InfoWelcome) {
            show_stats = true;
        }
    }
    let show_crate_panel = matches!(ty, UniqueItemType::Crate) && touched_now;

    let sprite: Option<&'static str> = if *inhibit_drawing_player {
        None
    } else {
        match (ty, blinker) {
            (UniqueItemType::Infobox, false) => Some(crate::sprites::INFOBOX1),
            (UniqueItemType::Infobox, true) => Some(crate::sprites::INFOBOX2),
            (UniqueItemType::Feature, false) => Some(crate::sprites::STAR1),
            (UniqueItemType::Feature, true) => Some(crate::sprites::STAR2),
            (UniqueItemType::Crate, _) => Some(crate::sprites::CRATE),
            _ => None,
        }
    };

    UniqueDrawPlan {
        on_screen: true,
        px,
        py,
        touched,
        blinker,
        show_info_panel,
        show_stats,
        show_crate_panel,
        sprite,
    }
}

/// Counts of touched items per category, in the order
/// (infoboxes, features, crates).
pub fn count_touched(status: &TouchedUniqueItems) -> (r: (usize, usize, usize))
    requires
        status.wf(),
    ensures
        r.0 == spec_count_touched(*status, UniqueItemType::Infobox),
        r.1 == spec_count_touched(*status, UniqueItemType::Feature),
        r.2 == spec_count_touched(*status, UniqueItemType::Crate),
{
    let mut infos: usize = 0;
    let mut features: usize = 0;
    let mut crates: usize = 0;
    let items = UniqueItem::all();
    let mut k: usize = 0;
    while k < items.len()
        invariant
            status.wf(),
            items@ == spec_all_items(),
            k <= items@.len(),
            infos <= k,
            features <= k,
            crates <= k,
            infos == spec_count_touched_upto(*status, UniqueItemType::Infobox, k as int),
            features == spec_count_touched_upto(*status, UniqueItemType::Feature, k as int),
            crates == spec_count_touched_upto(*status, UniqueItemType::Crate, k as int),
        decreases items@.len() - k,
    {
        let item = items[k];
        if status.is_touched(item) {
            match item.item_type() {
                UniqueItemType::Other => (),
                UniqueItemType::Infobox => infos = infos + 1,
                UniqueItemType::Feature => features = features + 1,
                UniqueItemType::Crate => crates = crates + 1,
            }
        }
        k = k + 1;
    }
    (infos, features, crates)
}

/// How many of the first `n` items of the given category are touched.
pub open spec fn spec_count_touched_upto(
    st: TouchedUniqueItems,
    ty: UniqueItemType,
    n: int,
) -> int
    decreases n,
{
    if n <= 0 {
        0
    } else {
        spec_count_touched_upto(st, ty, n - 1) + if spec_item_type(spec_all_items()[n - 1]) == ty
            && st.spec_is_touched(spec_all_items()[n - 1]) {
            1int
        } else {
            0int
        }
    }
}

pub open spec fn spec_count_touched(st: TouchedUniqueItems, ty: UniqueItemType) -> int {
    spec_count_touched_upto(st, ty, spec_all_items().len() as int)
}

} // verus!
