//! A small world to try sounds out in: one tile of deep water under a week
//! of changing weather.

use crate::event::{TileType, WeatherType};
use vstd::prelude::*;

verus! {

/// What a simulation needs to know of a world before it starts.
pub struct WorldPlan {
    /// The tile types of the map, row by row.
    pub tiles: Vec<Vec<TileType>>,
    /// Where the robot starts, as a row and a column.
    pub spawn: (usize, usize),
    /// The weather of the days, one after the other.
    pub forecast: Vec<WeatherType>,
    /// How many minutes go by with each tick.
    pub minutes_per_tick: u8,
    /// The hour of the day at which the simulation starts.
    pub starting_hour: u8,
}

/// The weather of the sample world, day by day.
pub open spec fn sample_forecast() -> Seq<WeatherType> {
    seq![
        WeatherType::Sunny,
        WeatherType::TrentinoSnow,
        WeatherType::TrentinoSnow,
        WeatherType::Rainy,
        WeatherType::Rainy,
        WeatherType::Foggy,
        WeatherType::TropicalMonsoon,
    ]
}

/// Generates the sample world.
pub struct MyGen {}

impl MyGen {
    /// A generator of the sample world.
    pub fn new() -> (generator: MyGen)
        ensures
            generator == (MyGen {  }),
    {
        MyGen {  }
    }

    /// The sample world: a single tile of deep water, on which the robot
    /// starts, seven days of weather, and three minutes to the tick from
    /// three o'clock on.
    pub fn gen(&mut self) -> (world: WorldPlan)
        ensures
            world.forecast@ == sample_forecast(),
            world.tiles@.len() == 1,
            world.tiles@[0]@ == seq![TileType::DeepWater],
            world.spawn == (0usize, 0usize),
            world.minutes_per_tick == 3,
            world.starting_hour == 3,
            *final(self) == *old(self),
    {
        let mut weather = Vec::new();
        weather.push(WeatherType::Sunny);
        weather.push(WeatherType::TrentinoSnow);
        weather.push(WeatherType::TrentinoSnow);
        weather.push(WeatherType::Rainy);
        weather.push(WeatherType::Rainy);
        weather.push(WeatherType::Foggy);
        weather.push(WeatherType::TropicalMonsoon);
        let mut tiles = Vec::new();
        let mut another = Vec::new();
        another.push(TileType::DeepWater);
        tiles.push(another);
        assert(weather@ =~= sample_forecast());
        assert(tiles@[0]@ =~= seq![TileType::DeepWater]);
        WorldPlan { tiles, spawn: (0, 0), forecast: weather, minutes_per_tick: 3, starting_hour: 3 }
    }
}

} // verus!
