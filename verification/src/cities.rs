//! The table of the cities whose time zone the bot knows.
use vstd::hash_map::StringHashMap;
use vstd::prelude::*;

verus! {

/// The file that holds the table.
pub const CITY_TIMEZONES_PATH: &'static str = "data/cities_tz.toml";

/// Names of time zones by name of city. The names of cities are in lower case
/// where they are meant to be found.
pub struct CityTimezones {
    cities: StringHashMap<String>,
}

impl View for CityTimezones {
    type V = Map<Seq<char>, Seq<char>>;

    closed spec fn view(&self) -> Map<Seq<char>, Seq<char>> {
        self.cities@.map_values(|zone: String| zone@)
    }
}

impl CityTimezones {
    /// A table without cities.
    pub fn new() -> (r: CityTimezones)
        ensures
            r@ == Map::<Seq<char>, Seq<char>>::empty(),
    {
        let r = CityTimezones { cities: StringHashMap::new() };
        assert(r@ =~= Map::empty());
        r
    }

    /// Puts `city` into the table, in place of what stood there under that
    /// name.
    pub fn insert(&mut self, city: String, zone: String)
        ensures
            final(self)@ == old(self)@.insert(city@, zone@),
    {
        let ghost city_name = city@;
        let ghost zone_name = zone@;
        self.cities.insert(city, zone);
        assert(self@ =~= old(self)@.insert(city_name, zone_name));
    }

    /// The time zone of `city`, if the table has it under exactly that name.
    pub fn get(&self, city: &str) -> (r: Option<&String>)
        ensures
            match r {
                Some(zone) => self@.contains_key(city@) && zone@ == self@[city@],
                None => !self@.contains_key(city@),
            },
    {
        self.cities.get(city)
    }
}

} // verus!
