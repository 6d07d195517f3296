use ffxiv_bot::datacenter::{region_location, DataCenter, DataCenterLocation};

const ALL: [DataCenter; 16] = [
    DataCenter::Aether,
    DataCenter::Primal,
    DataCenter::Crystal,
    DataCenter::Dynamis,
    DataCenter::Elemental,
    DataCenter::Gaia,
    DataCenter::Mana,
    DataCenter::Meteor,
    DataCenter::Chaos,
    DataCenter::Light,
    DataCenter::Shadow,
    DataCenter::Materia,
    DataCenter::MaoXiaoPang,
    DataCenter::MoGuLi,
    DataCenter::DouDouChai,
    DataCenter::LuXingNiao,
];

#[test]
fn location_of_each_data_center() {
    assert_eq!(DataCenter::Aether.location(), DataCenterLocation::NorthAmerica);
    assert_eq!(DataCenter::Primal.location(), DataCenterLocation::NorthAmerica);
    assert_eq!(DataCenter::Crystal.location(), DataCenterLocation::NorthAmerica);
    assert_eq!(DataCenter::Dynamis.location(), DataCenterLocation::Japan);
    assert_eq!(DataCenter::Elemental.location(), DataCenterLocation::Japan);
    assert_eq!(DataCenter::Gaia.location(), DataCenterLocation::Japan);
    assert_eq!(DataCenter::Mana.location(), DataCenterLocation::Japan);
    assert_eq!(DataCenter::Meteor.location(), DataCenterLocation::Japan);
    assert_eq!(DataCenter::Chaos.location(), DataCenterLocation::Europe);
    assert_eq!(DataCenter::Light.location(), DataCenterLocation::Europe);
    assert_eq!(DataCenter::Shadow.location(), DataCenterLocation::Europe);
    assert_eq!(DataCenter::Materia.location(), DataCenterLocation::Oceania);
    assert_eq!(DataCenter::MaoXiaoPang.location(), DataCenterLocation::China);
    assert_eq!(DataCenter::MoGuLi.location(), DataCenterLocation::China);
    assert_eq!(DataCenter::DouDouChai.location(), DataCenterLocation::China);
    assert_eq!(DataCenter::LuXingNiao.location(), DataCenterLocation::China);
}

#[test]
fn names_are_the_variant_names() {
    assert_eq!(DataCenter::Aether.name(), "Aether");
    assert_eq!(DataCenter::Materia.name(), "Materia");
    assert_eq!(DataCenter::MaoXiaoPang.name(), "猫小胖");
    assert_eq!(DataCenter::MoGuLi.name(), "莫古力");
    assert_eq!(DataCenter::DouDouChai.name(), "豆豆柴");
    assert_eq!(DataCenter::LuXingNiao.name(), "陆行鸟");
    assert_eq!(DataCenterLocation::NorthAmerica.name(), "North-America");
    assert_eq!(DataCenterLocation::Japan.name(), "Japan");
    assert_eq!(DataCenterLocation::Oceania.name(), "Oceania");
}

#[test]
fn parse_reads_every_name_back() {
    for dc in ALL {
        assert_eq!(DataCenter::parse(dc.name()), Some(dc));
    }
    for l in [
        DataCenterLocation::Japan,
        DataCenterLocation::NorthAmerica,
        DataCenterLocation::Europe,
        DataCenterLocation::Oceania,
        DataCenterLocation::China,
    ] {
        assert_eq!(DataCenterLocation::parse(l.name()), Some(l));
    }
}

#[test]
fn parse_refuses_other_texts() {
    assert_eq!(DataCenter::parse("aether"), None);
    assert_eq!(DataCenter::parse("Aether "), None);
    assert_eq!(DataCenter::parse(""), None);
    assert_eq!(DataCenter::parse("MaoXiaoPang"), None);
    assert_eq!(DataCenter::parse("Korea"), None);
    assert_eq!(DataCenterLocation::parse("NorthAmerica"), None);
    assert_eq!(DataCenterLocation::parse("north-america"), None);
}

#[test]
fn region_location_of_names() {
    assert_eq!(region_location("Mana"), Some(DataCenterLocation::Japan));
    assert_eq!(region_location("Light"), Some(DataCenterLocation::Europe));
    assert_eq!(region_location("豆豆柴"), Some(DataCenterLocation::China));
    assert_eq!(region_location("Tokyo"), None);
}
