//! A set of mahjong tiles: a small library of the kind whose items are
//! exported.

use vstd::prelude::*;
use vstd::std_specs::convert::FromSpecImpl;

verus! {

/// The three suits of the simple tiles.
#[derive(Clone, Copy, Debug, PartialEq, Eq, Hash)]
pub enum Suit {
    Coins,
    Bamboo,
    Characters,
}

/// A numbered tile of a suit.
#[derive(Clone, Copy, Debug, PartialEq, Eq, Hash)]
pub struct SimpleTile {
    pub number: u8,
    pub suit: Suit,
}

/// The four flowers.
#[derive(Clone, Copy, Debug, PartialEq, Eq, Hash)]
pub enum Flower {
    PlumBlossom,
    Orchid,
    Chrysanthemum,
    Bamboo,
}

/// The four seasons.
#[derive(Clone, Copy, Debug, PartialEq, Eq, Hash)]
pub enum Season {
    Spring,
    Summer,
    Autumn,
    Winter,
}

/// A tile that scores by itself.
#[derive(Clone, Copy, Debug, PartialEq, Eq, Hash)]
pub enum BonusTile {
    Flower(Flower),
    Season(Season),
}

/// The four winds.
#[derive(Clone, Copy, Debug, PartialEq, Eq, Hash)]
pub enum Wind {
    East,
    South,
    West,
    North,
}

/// The three dragons.
#[derive(Clone, Copy, Debug, PartialEq, Eq, Hash)]
pub enum Dragon {
    Red,
    Green,
    White,
}

/// A wind or a dragon.
#[derive(Clone, Copy, Debug, PartialEq, Eq, Hash)]
pub enum HonorTile {
    Wind(Wind),
    Dragon(Dragon),
}

/// A mahjong tile.
#[derive(Clone, Copy, Debug, PartialEq, Eq, Hash)]
pub enum Tile {
    Simple(SimpleTile),
    Bonus(BonusTile),
    Honor(HonorTile),
}

impl FromSpecImpl<SimpleTile> for Tile {
    open spec fn obeys_from_spec() -> bool {
        true
    }

    open spec fn from_spec(tile: SimpleTile) -> Tile {
        Tile::Simple(tile)
    }
}

impl From<SimpleTile> for Tile {
    fn from(tile: SimpleTile) -> (r: Tile) {
        Tile::Simple(tile)
    }
}

impl FromSpecImpl<BonusTile> for Tile {
    open spec fn obeys_from_spec() -> bool {
        true
    }

    open spec fn from_spec(tile: BonusTile) -> Tile {
        Tile::Bonus(tile)
    }
}

impl From<BonusTile> for Tile {
    fn from(tile: BonusTile) -> (r: Tile) {
        Tile::Bonus(tile)
    }
}

impl FromSpecImpl<HonorTile> for Tile {
    open spec fn obeys_from_spec() -> bool {
        true
    }

    open spec fn from_spec(tile: HonorTile) -> Tile {
        Tile::Honor(tile)
    }
}

impl From<HonorTile> for Tile {
    fn from(tile: HonorTile) -> (r: Tile) {
        Tile::Honor(tile)
    }
}

impl FromSpecImpl<Flower> for BonusTile {
    open spec fn obeys_from_spec() -> bool {
        true
    }

    open spec fn from_spec(flower: Flower) -> BonusTile {
        BonusTile::Flower(flower)
    }
}

impl From<Flower> for BonusTile {
    fn from(flower: Flower) -> (r: BonusTile) {
        BonusTile::Flower(flower)
    }
}

impl FromSpecImpl<Season> for BonusTile {
    open spec fn obeys_from_spec() -> bool {
        true
    }

    open spec fn from_spec(season: Season) -> BonusTile {
        BonusTile::Season(season)
    }
}

impl From<Season> for BonusTile {
    fn from(season: Season) -> (r: BonusTile) {
        BonusTile::Season(season)
    }
}

impl FromSpecImpl<Wind> for HonorTile {
    open spec fn obeys_from_spec() -> bool {
        true
    }

    open spec fn from_spec(wind: Wind) -> HonorTile {
        HonorTile::Wind(wind)
    }
}

impl From<Wind> for HonorTile {
    fn from(wind: Wind) -> (r: HonorTile) {
        HonorTile::Wind(wind)
    }
}

impl FromSpecImpl<Dragon> for HonorTile {
    open spec fn obeys_from_spec() -> bool {
        true
    }

    open spec fn from_spec(dragon: Dragon) -> HonorTile {
        HonorTile::Dragon(dragon)
    }
}

impl From<Dragon> for HonorTile {
    fn from(dragon: Dragon) -> (r: HonorTile) {
        HonorTile::Dragon(dragon)
    }
}

/// The suits, in the order of their declaration.
pub open spec fn suit_at(index: int) -> Suit {
    if index == 0 {
        Suit::Coins
    } else if index == 1 {
        Suit::Bamboo
    } else {
        Suit::Characters
    }
}

/// The dragons, in the order of their declaration.
pub open spec fn dragon_at(index: int) -> Dragon {
    if index == 0 {
        Dragon::Red
    } else if index == 1 {
        Dragon::Green
    } else {
        Dragon::White
    }
}

/// The winds, in the order of their declaration.
pub open spec fn wind_at(index: int) -> Wind {
    if index == 0 {
        Wind::East
    } else if index == 1 {
        Wind::South
    } else if index == 2 {
        Wind::West
    } else {
        Wind::North
    }
}

/// The flowers, in the order of their declaration.
pub open spec fn flower_at(index: int) -> Flower {
    if index == 0 {
        Flower::PlumBlossom
    } else if index == 1 {
        Flower::Orchid
    } else if index == 2 {
        Flower::Chrysanthemum
    } else {
        Flower::Bamboo
    }
}

/// The seasons, in the order of their declaration.
pub open spec fn season_at(index: int) -> Season {
    if index == 0 {
        Season::Spring
    } else if index == 1 {
        Season::Summer
    } else if index == 2 {
        Season::Autumn
    } else {
        Season::Winter
    }
}

/// The number of tiles in a set.
pub open spec fn tile_count() -> nat {
    144
}

/// The tile at a position of the set.
///
/// First come the simple tiles, suit by suit: in each suit the numbers 1 to
/// 9, four copies of each. Then the honors, four copies of each: the
/// dragons, then the winds. Last the bonus tiles, one of each: the flowers,
/// then the seasons.
pub open spec fn tile_at(index: int) -> Tile {
    if index < 108 {
        Tile::Simple(
            SimpleTile { number: ((index % 36) / 4 + 1) as u8, suit: suit_at(index / 36) },
        )
    } else if index < 120 {
        Tile::Honor(HonorTile::Dragon(dragon_at((index - 108) / 4)))
    } else if index < 136 {
        Tile::Honor(HonorTile::Wind(wind_at((index - 120) / 4)))
    } else if index < 140 {
        Tile::Bonus(BonusTile::Flower(flower_at(index - 136)))
    } else {
        Tile::Bonus(BonusTile::Season(season_at(index - 140)))
    }
}

/// The full set of tiles.
pub open spec fn tileset() -> Seq<Tile> {
    Seq::new(tile_count(), |index: int| tile_at(index))
}

impl Suit {
    /// The suit at a position of the declaration.
    fn at(index: usize) -> (r: Suit)
        requires
            index < 3,
        ensures
            r == suit_at(index as int),
    {
        if index == 0 {
            Suit::Coins
        } else if index == 1 {
            Suit::Bamboo
        } else {
            Suit::Characters
        }
    }
}

impl Dragon {
    /// The dragon at a position of the declaration.
    fn at(index: usize) -> (r: Dragon)
        requires
            index < 3,
        ensures
            r == dragon_at(index as int),
    {
        if index == 0 {
            Dragon::Red
        } else if index == 1 {
            Dragon::Green
        } else {
            Dragon::White
        }
    }
}

impl Wind {
    /// The wind at a position of the declaration.
    fn at(index: usize) -> (r: Wind)
        requires
            index < 4,
        ensures
            r == wind_at(index as int),
    {
        if index == 0 {
            Wind::East
        } else if index == 1 {
            Wind::South
        } else if index == 2 {
            Wind::West
        } else {
            Wind::North
        }
    }
}

impl Flower {
    /// The flower at a position of the declaration.
    fn at(index: usize) -> (r: Flower)
        requires
            index < 4,
        ensures
            r == flower_at(index as int),
    {
        if index == 0 {
            Flower::PlumBlossom
        } else if index == 1 {
            Flower::Orchid
        } else if index == 2 {
            Flower::Chrysanthemum
        } else {
            Flower::Bamboo
        }
    }
}

impl Season {
    /// The season at a position of the declaration.
    fn at(index: usize) -> (r: Season)
        requires
            index < 4,
        ensures
            r == season_at(index as int),
    {
        if index == 0 {
            Season::Spring
        } else if index == 1 {
            Season::Summer
        } else if index == 2 {
            Season::Autumn
        } else {
            Season::Winter
        }
    }
}

/// Builds the full set of 144 tiles.
pub fn generate_tileset() -> (tiles: Vec<Tile>)
    ensures
        tiles@ == tileset(),
{
    let mut tiles: Vec<Tile> = Vec::with_capacity(144);
    let mut suit: usize = 0;
    while suit < 3
        invariant
            suit <= 3,
            tiles.len() == suit * 36,
            forall|j: int| 0 <= j < tiles.len() ==> tiles@[j] == tile_at(j),
        decreases 3 - suit,
    {
        let mut number: u8 = 1;
        while number <= 9
            invariant
                suit < 3,
                1 <= number <= 10,
                tiles.len() == suit * 36 + (number - 1) * 4,
                forall|j: int| 0 <= j < tiles.len() ==> tiles@[j] == tile_at(j),
            decreases 10 - number,
        {
            let mut copy: usize = 0;
            while copy < 4
                invariant
                    suit < 3,
                    1 <= number <= 9,
                    copy <= 4,
                    tiles.len() == suit * 36 + (number - 1) * 4 + copy,
                    forall|j: int| 0 <= j < tiles.len() ==> tiles@[j] == tile_at(j),
                decreases 4 - copy,
            {
                tiles.push(Tile::Simple(SimpleTile { suit: Suit::at(suit), number }));
                copy += 1;
            }
            number += 1;
        }
        suit += 1;
    }
    let mut dragon: usize = 0;
    while dragon < 3
        invariant
            dragon <= 3,
            tiles.len() == 108 + dragon * 4,
            forall|j: int| 0 <= j < tiles.len() ==> tiles@[j] == tile_at(j),
        decreases 3 - dragon,
    {
        let mut copy: usize = 0;
        while copy < 4
            invariant
                dragon < 3,
                copy <= 4,
                tiles.len() == 108 + dragon * 4 + copy,
                forall|j: int| 0 <= j < tiles.len() ==> tiles@[j] == tile_at(j),
            decreases 4 - copy,
        {
            tiles.push(Tile::Honor(HonorTile::Dragon(Dragon::at(dragon))));
            copy += 1;
        }
        dragon += 1;
    }
    let mut wind: usize = 0;
    while wind < 4
        invariant
            wind <= 4,
            tiles.len() == 120 + wind * 4,
            forall|j: int| 0 <= j < tiles.len() ==> tiles@[j] == tile_at(j),
        decreases 4 - wind,
    {
        let mut copy: usize = 0;
        while copy < 4
            invariant
                wind < 4,
                copy <= 4,
                tiles.len() == 120 + wind * 4 + copy,
                forall|j: int| 0 <= j < tiles.len() ==> tiles@[j] == tile_at(j),
            decreases 4 - copy,
        {
            tiles.push(Tile::Honor(HonorTile::Wind(Wind::at(wind))));
            copy += 1;
        }
        wind += 1;
    }
    let mut flower: usize = 0;
    while flower < 4
        invariant
            flower <= 4,
            tiles.len() == 136 + flower,
            forall|j: int| 0 <= j < tiles.len() ==> tiles@[j] == tile_at(j),
        decreases 4 - flower,
    {
        tiles.push(Tile::Bonus(BonusTile::Flower(Flower::at(flower))));
        flower += 1;
    }
    let mut season: usize = 0;
    while season < 4
        invariant
            season <= 4,
            tiles.len() == 140 + season,
            forall|j: int| 0 <= j < tiles.len() ==> tiles@[j] == tile_at(j),
        decreases 4 - season,
    {
        tiles.push(Tile::Bonus(BonusTile::Season(Season::at(season))));
        season += 1;
    }
    assert(tiles@ =~= tileset());
    tiles
}

} // verus!
