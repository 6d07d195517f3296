use vstd::prelude::*;

use crate::text::equal_str;

verus! {

/// The regions that the market data service groups its data centers into.
#[derive(Clone, Copy, Debug, PartialEq, Eq, Structural)]
pub enum DataCenterLocation {
    Japan,
    NorthAmerica,
    Europe,
    Oceania,
    China,
}

/// The game's data centers.
#[derive(Clone, Copy, Debug, PartialEq, Eq, Structural)]
pub enum DataCenter {
    Aether,
    Primal,
    Crystal,
    Dynamis,
    Elemental,
    Gaia,
    Mana,
    Meteor,
    Chaos,
    Light,
    Shadow,
    Materia,
    MaoXiaoPang,
    MoGuLi,
    DouDouChai,
    LuXingNiao,
}

impl DataCenter {
    /// The region that hosts this data center.
    pub open spec fn spec_location(self) -> DataCenterLocation {
        match self {
            DataCenter::Aether | DataCenter::Primal | DataCenter::Crystal => DataCenterLocation::NorthAmerica,
            DataCenter::Dynamis | DataCenter::Elemental | DataCenter::Gaia | DataCenter::Mana
            | DataCenter::Meteor => DataCenterLocation::Japan,
            DataCenter::Chaos | DataCenter::Light | DataCenter::Shadow => DataCenterLocation::Europe,
            DataCenter::Materia => DataCenterLocation::Oceania,
            DataCenter::MaoXiaoPang | DataCenter::MoGuLi | DataCenter::DouDouChai
            | DataCenter::LuXingNiao => DataCenterLocation::China,
        }
    }

    /// The region that hosts this data center.
    pub fn location(&self) -> (loc: DataCenterLocation)
        ensures
            loc == self.spec_location(),
            (loc == DataCenterLocation::NorthAmerica) <==> (*self == DataCenter::Aether
                || *self == DataCenter::Primal || *self == DataCenter::Crystal),
            (loc == DataCenterLocation::Japan) <==> (*self == DataCenter::Dynamis
                || *self == DataCenter::Elemental || *self == DataCenter::Gaia
                || *self == DataCenter::Mana || *self == DataCenter::Meteor),
            (loc == DataCenterLocation::Europe) <==> (*self == DataCenter::Chaos
                || *self == DataCenter::Light || *self == DataCenter::Shadow),
            (loc == DataCenterLocation::Oceania) <==> (*self == DataCenter::Materia),
            (loc == DataCenterLocation::China) <==> (*self == DataCenter::MaoXiaoPang
                || *self == DataCenter::MoGuLi || *self == DataCenter::DouDouChai
                || *self == DataCenter::LuXingNiao),
    {
        match self {
            DataCenter::Aether | DataCenter::Primal | DataCenter::Crystal => DataCenterLocation::NorthAmerica,
            DataCenter::Dynamis | DataCenter::Elemental | DataCenter::Gaia | DataCenter::Mana
            | DataCenter::Meteor => DataCenterLocation::Japan,
            DataCenter::Chaos | DataCenter::Light | DataCenter::Shadow => DataCenterLocation::Europe,
            DataCenter::Materia => DataCenterLocation::Oceania,
            DataCenter::MaoXiaoPang | DataCenter::MoGuLi | DataCenter::DouDouChai
            | DataCenter::LuXingNiao => DataCenterLocation::China,
        }
    }
}


impl DataCenter {
    /// The name under which the data center is written and read.
    pub open spec fn spec_name(self) -> Seq<char> {
        match self {
            DataCenter::Aether => "Aether"@,
            DataCenter::Primal => "Primal"@,
            DataCenter::Crystal => "Crystal"@,
            DataCenter::Dynamis => "Dynamis"@,
            DataCenter::Elemental => "Elemental"@,
            DataCenter::Gaia => "Gaia"@,
            DataCenter::Mana => "Mana"@,
            DataCenter::Meteor => "Meteor"@,
            DataCenter::Chaos => "Chaos"@,
            DataCenter::Light => "Light"@,
            DataCenter::Shadow => "Shadow"@,
            DataCenter::Materia => "Materia"@,
            DataCenter::MaoXiaoPang => "猫小胖"@,
            DataCenter::MoGuLi => "莫古力"@,
            DataCenter::DouDouChai => "豆豆柴"@,
            DataCenter::LuXingNiao => "陆行鸟"@,
        }
    }

    /// The data center's name.
    pub fn name(&self) -> (s: &'static str)
        ensures
            s@ == self.spec_name(),
    {
        match self {
            DataCenter::Aether => "Aether",
            DataCenter::Primal => "Primal",
            DataCenter::Crystal => "Crystal",
            DataCenter::Dynamis => "Dynamis",
            DataCenter::Elemental => "Elemental",
            DataCenter::Gaia => "Gaia",
            DataCenter::Mana => "Mana",
            DataCenter::Meteor => "Meteor",
            DataCenter::Chaos => "Chaos",
            DataCenter::Light => "Light",
            DataCenter::Shadow => "Shadow",
            DataCenter::Materia => "Materia",
            DataCenter::MaoXiaoPang => "猫小胖",
            DataCenter::MoGuLi => "莫古力",
            DataCenter::DouDouChai => "豆豆柴",
            DataCenter::LuXingNiao => "陆行鸟",
        }
    }

    /// The data center named `s`, if any is.
    pub open spec fn spec_parse(s: Seq<char>) -> Option<DataCenter> {
        if exists|dc: DataCenter| #[trigger] dc.spec_name() == s {
            Some(choose|dc: DataCenter| #[trigger] dc.spec_name() == s)
        } else {
            None
        }
    }

    /// The data center whose name is `s`, or `None` where no name is `s`.
    pub fn parse(s: &str) -> (r: Option<DataCenter>)
        ensures
            r == DataCenter::spec_parse(s@),
    {
        if equal_str(s, "Aether") {
            proof {
                lemma_data_center_parse_name(DataCenter::Aether);
            }
            return Some(DataCenter::Aether);
        }
        if equal_str(s, "Primal") {
            proof {
                lemma_data_center_parse_name(DataCenter::Primal);
            }
            return Some(DataCenter::Primal);
        }
        if equal_str(s, "Crystal") {
            proof {
                lemma_data_center_parse_name(DataCenter::Crystal);
            }
            return Some(DataCenter::Crystal);
        }
        if equal_str(s, "Dynamis") {
            proof {
                lemma_data_center_parse_name(DataCenter::Dynamis);
            }
            return Some(DataCenter::Dynamis);
        }
        if equal_str(s, "Elemental") {
            proof {
                lemma_data_center_parse_name(DataCenter::Elemental);
            }
            return Some(DataCenter::Elemental);
        }
        if equal_str(s, "Gaia") {
            proof {
                lemma_data_center_parse_name(DataCenter::Gaia);
            }
            return Some(DataCenter::Gaia);
        }
        if equal_str(s, "Mana") {
            proof {
                lemma_data_center_parse_name(DataCenter::Mana);
            }
            return Some(DataCenter::Mana);
        }
        if equal_str(s, "Meteor") {
            proof {
                lemma_data_center_parse_name(DataCenter::Meteor);
            }
            return Some(DataCenter::Meteor);
        }
        if equal_str(s, "Chaos") {
            proof {
                lemma_data_center_parse_name(DataCenter::Chaos);
            }
            return Some(DataCenter::Chaos);
        }
        if equal_str(s, "Light") {
            proof {
                lemma_data_center_parse_name(DataCenter::Light);
            }
            return Some(DataCenter::Light);
        }
        if equal_str(s, "Shadow") {
            proof {
                lemma_data_center_parse_name(DataCenter::Shadow);
            }
            return Some(DataCenter::Shadow);
        }
        if equal_str(s, "Materia") {
            proof {
                lemma_data_center_parse_name(DataCenter::Materia);
            }
            return Some(DataCenter::Materia);
        }
        if equal_str(s, "猫小胖") {
            proof {
                lemma_data_center_parse_name(DataCenter::MaoXiaoPang);
            }
            return Some(DataCenter::MaoXiaoPang);
        }
        if equal_str(s, "莫古力") {
            proof {
                lemma_data_center_parse_name(DataCenter::MoGuLi);
            }
            return Some(DataCenter::MoGuLi);
        }
        if equal_str(s, "豆豆柴") {
            proof {
                lemma_data_center_parse_name(DataCenter::DouDouChai);
            }
            return Some(DataCenter::DouDouChai);
        }
        if equal_str(s, "陆行鸟") {
            proof {
                lemma_data_center_parse_name(DataCenter::LuXingNiao);
            }
            return Some(DataCenter::LuXingNiao);
        }
        assert(forall|dc: DataCenter| dc.spec_name() != s@);
        None
    }
}

impl DataCenterLocation {
    /// The name under which the region is written and read.
    pub open spec fn spec_name(self) -> Seq<char> {
        match self {
            DataCenterLocation::Japan => "Japan"@,
            DataCenterLocation::NorthAmerica => "North-America"@,
            DataCenterLocation::Europe => "Europe"@,
            DataCenterLocation::Oceania => "Oceania"@,
            DataCenterLocation::China => "China"@,
        }
    }

    /// The region's name, as the market data service's paths write it.
    pub fn name(&self) -> (s: &'static str)
        ensures
            s@ == self.spec_name(),
    {
        match self {
            DataCenterLocation::Japan => "Japan",
            DataCenterLocation::NorthAmerica => "North-America",
            DataCenterLocation::Europe => "Europe",
            DataCenterLocation::Oceania => "Oceania",
            DataCenterLocation::China => "China",
        }
    }

    /// The region named `s`, if any is.
    pub open spec fn spec_parse(s: Seq<char>) -> Option<DataCenterLocation> {
        if exists|l: DataCenterLocation| #[trigger] l.spec_name() == s {
            Some(choose|l: DataCenterLocation| #[trigger] l.spec_name() == s)
        } else {
            None
        }
    }

    /// The region whose name is `s`, or `None` where no name is `s`.
    pub fn parse(s: &str) -> (r: Option<DataCenterLocation>)
        ensures
            r == DataCenterLocation::spec_parse(s@),
    {
        if equal_str(s, "Japan") {
            proof {
                lemma_location_parse_name(DataCenterLocation::Japan);
            }
            return Some(DataCenterLocation::Japan);
        }
        if equal_str(s, "North-America") {
            proof {
                lemma_location_parse_name(DataCenterLocation::NorthAmerica);
            }
            return Some(DataCenterLocation::NorthAmerica);
        }
        if equal_str(s, "Europe") {
            proof {
                lemma_location_parse_name(DataCenterLocation::Europe);
            }
            return Some(DataCenterLocation::Europe);
        }
        if equal_str(s, "Oceania") {
            proof {
                lemma_location_parse_name(DataCenterLocation::Oceania);
            }
            return Some(DataCenterLocation::Oceania);
        }
        if equal_str(s, "China") {
            proof {
                lemma_location_parse_name(DataCenterLocation::China);
            }
            return Some(DataCenterLocation::China);
        }
        assert(forall|l: DataCenterLocation| l.spec_name() != s@);
        None
    }
}

/// The region of the data center named `region`, or `None` where no data center has
/// that name.
pub fn region_location(region: &str) -> (r: Option<DataCenterLocation>)
    ensures
        r == (match DataCenter::spec_parse(region@) {
            Some(dc) => Some(dc.spec_location()),
            None => None,
        }),
{
    match DataCenter::parse(region) {
        Some(dc) => Some(dc.location()),
        None => None,
    }
}

/// No two data centers share a name.
pub proof fn lemma_data_center_names_distinct(a: DataCenter, b: DataCenter)
    ensures
        a.spec_name() == b.spec_name() ==> a == b,
{
        reveal_strlit("Aether");
        reveal_strlit("Primal");
        reveal_strlit("Crystal");
        reveal_strlit("Dynamis");
        reveal_strlit("Elemental");
        reveal_strlit("Gaia");
        reveal_strlit("Mana");
        reveal_strlit("Meteor");
        reveal_strlit("Chaos");
        reveal_strlit("Light");
        reveal_strlit("Shadow");
        reveal_strlit("Materia");
        reveal_strlit("猫小胖");
        reveal_strlit("莫古力");
        reveal_strlit("豆豆柴");
        reveal_strlit("陆行鸟");
    if a.spec_name() == b.spec_name() {
        assert(a.spec_name().len() == b.spec_name().len());
        assert(a.spec_name()[0] == b.spec_name()[0]);
        assert(a.spec_name()[1] == b.spec_name()[1]);
    }
}

/// No two regions share a name.
pub proof fn lemma_location_names_distinct(a: DataCenterLocation, b: DataCenterLocation)
    ensures
        a.spec_name() == b.spec_name() ==> a == b,
{
        reveal_strlit("Japan");
        reveal_strlit("North-America");
        reveal_strlit("Europe");
        reveal_strlit("Oceania");
        reveal_strlit("China");
    if a.spec_name() == b.spec_name() {
        assert(a.spec_name()[0] == b.spec_name()[0]);
    }
}

/// Reading a data center's name back gives the data center again.
pub proof fn lemma_data_center_parse_name(dc: DataCenter)
    ensures
        DataCenter::spec_parse(dc.spec_name()) == Some(dc),
{
    let p = choose|x: DataCenter| #[trigger] x.spec_name() == dc.spec_name();
    lemma_data_center_names_distinct(p, dc);
}

/// The region found for a data center's name is the data center's region.
pub proof fn lemma_region_of_name(dc: DataCenter)
    ensures
        (match DataCenter::spec_parse(dc.spec_name()) {
            Some(x) => Some(x.spec_location()),
            None => None,
        }) == Some(dc.spec_location()),
{
    lemma_data_center_parse_name(dc);
}

/// Reading a region's name back gives the region again.
pub proof fn lemma_location_parse_name(l: DataCenterLocation)
    ensures
        DataCenterLocation::spec_parse(l.spec_name()) == Some(l),
{
    let p = choose|x: DataCenterLocation| #[trigger] x.spec_name() == l.spec_name();
    lemma_location_names_distinct(p, l);
}


/// Each data center is written and read by its own name, and each region by the name
/// that the market data service uses for it.
pub proof fn lemma_names_written()
    ensures
        DataCenter::Aether.spec_name() == "Aether"@,
        DataCenter::Primal.spec_name() == "Primal"@,
        DataCenter::Crystal.spec_name() == "Crystal"@,
        DataCenter::Dynamis.spec_name() == "Dynamis"@,
        DataCenter::Elemental.spec_name() == "Elemental"@,
        DataCenter::Gaia.spec_name() == "Gaia"@,
        DataCenter::Mana.spec_name() == "Mana"@,
        DataCenter::Meteor.spec_name() == "Meteor"@,
        DataCenter::Chaos.spec_name() == "Chaos"@,
        DataCenter::Light.spec_name() == "Light"@,
        DataCenter::Shadow.spec_name() == "Shadow"@,
        DataCenter::Materia.spec_name() == "Materia"@,
        DataCenter::MaoXiaoPang.spec_name() == "猫小胖"@,
        DataCenter::MoGuLi.spec_name() == "莫古力"@,
        DataCenter::DouDouChai.spec_name() == "豆豆柴"@,
        DataCenter::LuXingNiao.spec_name() == "陆行鸟"@,
        DataCenterLocation::Japan.spec_name() == "Japan"@,
        DataCenterLocation::NorthAmerica.spec_name() == "North-America"@,
        DataCenterLocation::Europe.spec_name() == "Europe"@,
        DataCenterLocation::Oceania.spec_name() == "Oceania"@,
        DataCenterLocation::China.spec_name() == "China"@,
{
}

/// Each data center's name reads as that data center, and each region's name as that
/// region.
pub proof fn lemma_names_read()
    ensures
        DataCenter::spec_parse("Aether"@) == Some(DataCenter::Aether),
        DataCenter::spec_parse("Primal"@) == Some(DataCenter::Primal),
        DataCenter::spec_parse("Crystal"@) == Some(DataCenter::Crystal),
        DataCenter::spec_parse("Dynamis"@) == Some(DataCenter::Dynamis),
        DataCenter::spec_parse("Elemental"@) == Some(DataCenter::Elemental),
        DataCenter::spec_parse("Gaia"@) == Some(DataCenter::Gaia),
        DataCenter::spec_parse("Mana"@) == Some(DataCenter::Mana),
        DataCenter::spec_parse("Meteor"@) == Some(DataCenter::Meteor),
        DataCenter::spec_parse("Chaos"@) == Some(DataCenter::Chaos),
        DataCenter::spec_parse("Light"@) == Some(DataCenter::Light),
        DataCenter::spec_parse("Shadow"@) == Some(DataCenter::Shadow),
        DataCenter::spec_parse("Materia"@) == Some(DataCenter::Materia),
        DataCenter::spec_parse("猫小胖"@) == Some(DataCenter::MaoXiaoPang),
        DataCenter::spec_parse("莫古力"@) == Some(DataCenter::MoGuLi),
        DataCenter::spec_parse("豆豆柴"@) == Some(DataCenter::DouDouChai),
        DataCenter::spec_parse("陆行鸟"@) == Some(DataCenter::LuXingNiao),
        DataCenterLocation::spec_parse("Japan"@) == Some(DataCenterLocation::Japan),
        DataCenterLocation::spec_parse("North-America"@) == Some(DataCenterLocation::NorthAmerica),
        DataCenterLocation::spec_parse("Europe"@) == Some(DataCenterLocation::Europe),
        DataCenterLocation::spec_parse("Oceania"@) == Some(DataCenterLocation::Oceania),
        DataCenterLocation::spec_parse("China"@) == Some(DataCenterLocation::China),
{
    lemma_data_center_parse_name(DataCenter::Aether);
    lemma_data_center_parse_name(DataCenter::Primal);
    lemma_data_center_parse_name(DataCenter::Crystal);
    lemma_data_center_parse_name(DataCenter::Dynamis);
    lemma_data_center_parse_name(DataCenter::Elemental);
    lemma_data_center_parse_name(DataCenter::Gaia);
    lemma_data_center_parse_name(DataCenter::Mana);
    lemma_data_center_parse_name(DataCenter::Meteor);
    lemma_data_center_parse_name(DataCenter::Chaos);
    lemma_data_center_parse_name(DataCenter::Light);
    lemma_data_center_parse_name(DataCenter::Shadow);
    lemma_data_center_parse_name(DataCenter::Materia);
    lemma_data_center_parse_name(DataCenter::MaoXiaoPang);
    lemma_data_center_parse_name(DataCenter::MoGuLi);
    lemma_data_center_parse_name(DataCenter::DouDouChai);
    lemma_data_center_parse_name(DataCenter::LuXingNiao);
    lemma_location_parse_name(DataCenterLocation::Japan);
    lemma_location_parse_name(DataCenterLocation::NorthAmerica);
    lemma_location_parse_name(DataCenterLocation::Europe);
    lemma_location_parse_name(DataCenterLocation::Oceania);
    lemma_location_parse_name(DataCenterLocation::China);
}

/// The region found for each data center's name: Aether, Primal and Crystal are in North
/// America; Dynamis, Elemental, Gaia, Mana and Meteor in Japan; Chaos, Light and Shadow in
/// Europe; Materia in Oceania; the four Chinese data centers in China.
pub proof fn lemma_region_of_each_name()
    ensures
        (match DataCenter::spec_parse("Aether"@) {
            Some(dc) => Some(dc.spec_location()),
            None => None,
        }) == Some(DataCenterLocation::NorthAmerica),
        (match DataCenter::spec_parse("Primal"@) {
            Some(dc) => Some(dc.spec_location()),
            None => None,
        }) == Some(DataCenterLocation::NorthAmerica),
        (match DataCenter::spec_parse("Crystal"@) {
            Some(dc) => Some(dc.spec_location()),
            None => None,
        }) == Some(DataCenterLocation::NorthAmerica),
        (match DataCenter::spec_parse("Dynamis"@) {
            Some(dc) => Some(dc.spec_location()),
            None => None,
        }) == Some(DataCenterLocation::Japan),
        (match DataCenter::spec_parse("Elemental"@) {
            Some(dc) => Some(dc.spec_location()),
            None => None,
        }) == Some(DataCenterLocation::Japan),
        (match DataCenter::spec_parse("Gaia"@) {
            Some(dc) => Some(dc.spec_location()),
            None => None,
        }) == Some(DataCenterLocation::Japan),
        (match DataCenter::spec_parse("Mana"@) {
            Some(dc) => Some(dc.spec_location()),
            None => None,
        }) == Some(DataCenterLocation::Japan),
        (match DataCenter::spec_parse("Meteor"@) {
            Some(dc) => Some(dc.spec_location()),
            None => None,
        }) == Some(DataCenterLocation::Japan),
        (match DataCenter::spec_parse("Chaos"@) {
            Some(dc) => Some(dc.spec_location()),
            None => None,
        }) == Some(DataCenterLocation::Europe),
        (match DataCenter::spec_parse("Light"@) {
            Some(dc) => Some(dc.spec_location()),
            None => None,
        }) == Some(DataCenterLocation::Europe),
        (match DataCenter::spec_parse("Shadow"@) {
            Some(dc) => Some(dc.spec_location()),
            None => None,
        }) == Some(DataCenterLocation::Europe),
        (match DataCenter::spec_parse("Materia"@) {
            Some(dc) => Some(dc.spec_location()),
            None => None,
        }) == Some(DataCenterLocation::Oceania),
        (match DataCenter::spec_parse("猫小胖"@) {
            Some(dc) => Some(dc.spec_location()),
            None => None,
        }) == Some(DataCenterLocation::China),
        (match DataCenter::spec_parse("莫古力"@) {
            Some(dc) => Some(dc.spec_location()),
            None => None,
        }) == Some(DataCenterLocation::China),
        (match DataCenter::spec_parse("豆豆柴"@) {
            Some(dc) => Some(dc.spec_location()),
            None => None,
        }) == Some(DataCenterLocation::China),
        (match DataCenter::spec_parse("陆行鸟"@) {
            Some(dc) => Some(dc.spec_location()),
            None => None,
        }) == Some(DataCenterLocation::China),
{
    lemma_names_read();
}

} // verus!
