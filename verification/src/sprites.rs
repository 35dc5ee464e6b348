//! Sprite bitmaps as ASCII art. The strings are opaque handles to
//! the core; `utils::sprite8x8` and `utils::sprite16x16` compile them
//! into 1-bit-per-pixel bitmaps for the renderer.

use vstd::prelude::*;

verus! {

pub const WHEEL_S: &'static str = "
    |. X . . X . . .|
    |. . X X X X . X|
    |. X . . . . X .|
    |X X . . . . X .|
    |. X . . . . X X|
    |. X . . . . X .|
    |X . X X X X . .|
    |. . . X . . X .|
";

pub const WHEEL1: &'static str = "
    |. . . . . . . . . . . . . . . .|
    |. . . . . . . . . . . . . . . .|
    |. . . . . . . . . . . . . . . .|
    |. . . . X . . . X . . . . . . .|  
    |. . . . . X . . X . . . X . . .|
    |. . . . . . X X X X . X . . . .|
    |. . . . . X . . . . X . . . . .|
    |. . . X X X . . . . X . . . . .|
    |. . . . . X . . . . X X X . . .|
    |. . . . . X . . . . X . . . . .|
    |. . . . X . X X X X . . . . . .|
    |. . . . . . X . . . X . . . . .|
    |. . . . . X . . . . . X . . . .|
    |. . . . . . . . . . . . . . . .|
    |. . . . . . . . . . . . . . . .|
    |. . . . . . . . . . . . . . . .|
";

pub const WHEEL2: &'static str = "
    |. . . . . . . . . . . . . . . .|
    |. . . . . . . . . . . . . . . .|
    |. . . . . . . . . . . . . . . .|
    |. . . . . . X . . . X . . . . .|  
    |. . . . . . X . . X . . . . . .|
    |. . . X . . . X X X . . . . . .|
    |. . . . X . X . . . X X . . . .|
    |. . . . . X . . . . . X X X . .|
    |. . . X X X . . . . . X . . . .|
    |. . . . . X . . . . X . . . . .|
    |. . . . X . X X X X . X . . . .|
    |. . . X . . . X . . . . X . . .|
    |. . . . . . . X . . . . . . . .|
    |. . . . . . . . . . . . . . . .|
    |. . . . . . . . . . . . . . . .|
    |. . . . . . . . . . . . . . . .|
";

pub const SOLIDTILE: &'static str = "
    |. X . X . X . X|
    |X . X . X . X .|
    |. X . X . X . X|
    |X . X . X . X .|
    |. X . X . X . X|
    |X . X . X . X .|
    |. X . X . X . X|
    |X . X . X . X .|
";

pub const JUMPYTILE: &'static str = "
    |. . X X . . X X|
    |X X . . X X . .|
    |. X . X . X . X|
    |X . X . X . X .|
    |. X . X . X . X|
    |X . X . X . X .|
    |. X . X . X . X|
    |X . X . X . X .|
";

pub const LADDER1: &'static str = "
    |. . . . . . . .|
    |X . . . . . . .|
    |. X . . . . . .|
    |X . X . . . . .|
    |. X . X . . . .|
    |X . X . X . . .|
    |. X . X . X . .|
    |X . X . X . X .|
";

pub const INFOBOX1: &'static str = "
    |. . .   X . . .|
    |. X           X|
    |. X   X X     X|
    |. X     X     X|
    |. X   X X X   X|
    |. X           X|
    |.   X X X X X .|
    |. . . . . . . .|
";

pub const INFOBOX2: &'static str = "
    |. . .   X . . .|
    |.              |
    |.     X X      |
    |.       X      |
    |.     X X X    |
    |.              |
    |.             .|
    |. . . . . . . .|
";

pub const STAR1: &'static str = "
    |. . . X   . . .|
    |.     X X      |
    |X X X X X X X X|
    |. X X X X X X  |
    |.   X X X X    |
    |. X X   X X X  |
    |. X X     X X .|
    |X . . . . . . X|
";

pub const STAR2: &'static str = "
    |. . X     . .  |
    |.   X X   X X  |
    |    X X X X X  |
    |. X X X X X    |
    |X X X X X X X  |
    |.   X X X X X X|
    |.   X X   X   .|
    |    X . . . .  |
";

pub const CRATE: &'static str = "
    |. . X X X X X X|
    |. X         X X|
    |X X X X X X   X|
    |X         X   X|
    |X         X   X|
    |X         X   X|
    |X         X X .|
    |X X X X X X .  |
";

} // verus!
