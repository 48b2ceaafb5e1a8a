use so2_tool::api::model::{area, item, people, request_report, shop, shop_summary, Position};
use so2_tool::api::model::area_summary::{AreaSummary, Fun};

fn model_item(id: u32, name: &str, sort: u32) -> item::Item {
    item::Item {
        category: item::Category(String::from("food")),
        class: item::Class(String::from("grocer")),
        item_id: item::Id(id),
        limit: item::StackSize(99),
        name: String::from(name),
        scale: item::Scale(String::from("unit")),
        sort,
    }
}

#[test]
fn official_and_recipe_ranges() {
    assert!(item::Id(1).is_official());
    assert!(item::Id(1_999_999).is_official());
    assert!(!item::Id(2_000_000).is_official());
    assert!(item::Id(2_000_000).is_recipe());
    assert!(model_item(5, "apple", 1).is_official());
    assert!(!model_item(5, "apple", 1).is_recipe());
}

#[test]
fn values_come_out_in_catalogue_order() {
    let r = item::Response::new(vec![
        model_item(3, "carrot", 30),
        model_item(1, "apple", 10),
        model_item(2, "bread", 20),
    ]);
    let sorted = r.values();
    let names: Vec<&str> = sorted.iter().map(|i| i.name.as_str()).collect();
    assert_eq!(names, vec!["apple", "bread", "carrot"]);
    let moved = r.into_values();
    let names: Vec<&str> = moved.iter().map(|i| i.name.as_str()).collect();
    assert_eq!(names, vec!["apple", "bread", "carrot"]);
}

#[test]
fn plain_item_values_sort_too() {
    let r = so2_tool::api::item::ItemResponse::new(vec![
        so2_tool::api::item::Item {
            category: String::from("c"),
            class: String::from("k"),
            item_id: 2,
            limit: 9,
            name: String::from("second"),
            scale: String::from("u"),
            sort: 2,
        },
        so2_tool::api::item::Item {
            category: String::from("c"),
            class: String::from("k"),
            item_id: 1,
            limit: 9,
            name: String::from("first"),
            scale: String::from("u"),
            sort: 1,
        },
    ]);
    let sorted = r.values();
    assert_eq!(sorted[0].name, "first");
    assert_eq!(sorted[1].name, "second");

    let d = so2_tool::api::item_definition::ItemDefinition::new(vec![
        so2_tool::api::item_definition::Item {
            category: String::from("c"),
            class: String::from("k"),
            item_id: 9,
            limit: 9,
            name: String::from("later"),
            scale: String::from("u"),
            sort: 20,
        },
        so2_tool::api::item_definition::Item {
            category: String::from("c"),
            class: String::from("k"),
            item_id: 8,
            limit: 9,
            name: String::from("earlier"),
            scale: String::from("u"),
            sort: 10,
        },
    ]);
    let sorted = d.values();
    assert_eq!(sorted[0].name, "earlier");
    assert_eq!(sorted[1].name, "later");
}

#[test]
fn plain_people_response_keeps_its_order() {
    let towns = vec![
        people_of_town(2, 20),
        people_of_town(1, 10),
    ];
    let r = so2_tool::api::people::PeopleResponse::new(towns);
    let values = r.values();
    assert_eq!(values.len(), 2);
    assert_eq!(values[0].area_id, area::Id(2));
    assert_eq!(values[1].area_id, area::Id(1));
}

fn people_of_town(id: u8, unit: u32) -> so2_tool::api::people::PeopleOfTown {
    so2_tool::api::people::PeopleOfTown {
        area_id: area::Id(id),
        unit: so2_tool::api::people::Population(unit),
        persons: Vec::new(),
        trend: None,
    }
}

#[test]
fn join_table_prefers_recipe_entries() {
    // One official item, one official entry in the recipe range (dropped),
    // a recipe that overrides the official item, and a recipe of its own.
    let official = item::Official(item::Response::new(vec![
        model_item(100, "official flour", 1),
        model_item(2_000_100, "stray recipe", 2),
    ]));
    let recipe = item::Recipe(item::Response::new(vec![
        model_item(100, "recipe flour", 3),
        model_item(2_000_200, "recipe pie", 4),
    ]));
    let table = item::Response::join_table(&official, &recipe);
    assert_eq!(table.len(), 2);
    let flour = table.iter().find(|p| p.0 == item::Id(100)).expect("flour");
    assert_eq!(flour.1.name, "recipe flour");
    let pie = table.iter().find(|p| p.0 == item::Id(2_000_200)).expect("pie");
    assert_eq!(pie.1.name, "recipe pie");
    assert!(table.iter().all(|p| p.0 != item::Id(2_000_100)));
}

#[test]
fn zero_ids_mean_none() {
    assert_eq!(area::optional_id(0), None);
    assert_eq!(area::optional_id(91), Some(area::Id(91)));
    assert_eq!(item::optional_id(0), None);
    assert_eq!(item::optional_id(174), Some(item::Id(174)));
}

#[test]
fn position_renders_signed_coordinates() {
    assert_eq!(Position { pos_x: 130, pos_y: 360 }.to_display_string(), "(130, 360)");
    assert_eq!(Position { pos_x: -5, pos_y: 0 }.to_display_string(), "(-5, 0)");
}

#[test]
fn shop_id_renders_with_a_hash() {
    assert_eq!(shop::Id(1234).to_display_string(), "#1234");
    assert_eq!(shop::Id(0).to_display_string(), "#0");
}

#[test]
fn price_renders_with_the_currency_letter() {
    assert_eq!(request_report::Price(250).to_display_string(), "250G");
}

#[test]
fn liveliness_renders_with_its_sign() {
    assert_eq!(Fun(3).to_display_string(), "+3");
    assert_eq!(Fun(-4).to_display_string(), "-4");
    assert_eq!(Fun(0).to_display_string(), "+0");
    let s = AreaSummary { area_id: area::Id(9), point: Fun(12) }.to_display_string();
    assert_eq!(s, "(AreaId(9), +12)");
}

#[test]
fn shop_counts_render_with_their_counter_word() {
    assert_eq!(shop_summary::ShopCount(7).to_display_string(), "7 店舗");
    let town = shop_summary::AreaShopSummary {
        area_id: area::Id(1),
        name: String::from("エメラルド街"),
        count: shop_summary::ShopCount(42),
    };
    assert_eq!(town.to_display_string(), "エメラルド街 (42 店舗)");
    let summary = shop_summary::ShopSummary {
        total: shop_summary::ShopCount(50),
        areas: vec![town.clone(), shop_summary::AreaShopSummary {
            area_id: area::Id(2),
            name: String::from("オパール街"),
            count: shop_summary::ShopCount(8),
        }],
    };
    assert_eq!(
        summary.to_display_string(),
        "ShopSummary {\n\ttotal: 50 店舗,\n\tareas: [\n\t\tエメラルド街 (42 店舗),\n\t\tオパール街 (8 店舗)\n\t]\n}"
    );
}

#[test]
fn people_render_sorted_by_list_position() {
    let town = people::People {
        area_id: area::Id(3),
        unit: people::Population(120),
        persons: vec![
            (2, people::Segment {
                unit: people::Population(70),
                name: people::SegmentType(String::from("イヌ")),
            }),
            (1, people::Segment {
                unit: people::Population(50),
                name: people::SegmentType(String::from("ネコ")),
            }),
        ],
        trend: vec![people::Trend {
            area_id: area::Id(3),
            is_positive: true,
            status: people::TrendStatusString(String::from("↑↑")),
            message: people::TrendMessage(String::from("flowers")),
        }],
    };
    let sorted = town.sorted_persons();
    assert_eq!(sorted[0].0, 1);
    assert_eq!(sorted[1].0, 2);
    assert_eq!(
        town.to_display_string(),
        "AreaInfo { AreaId(3), Population(120), people: [ネコ(50), イヌ(70)], trend: [Trend { AreaId(3), flowers (↑↑) }] }"
    );
}

#[test]
fn trade_times_come_from_the_unix_clock() {
    let report = request_report::RequestReport {
        seller_shop_id: shop::Id(11),
        seller_shop_name: String::from("Bakery"),
        buyer_shop_id: shop::Id(22),
        buyer_shop_name: String::from("Mill"),
        item_id: item::Id(100),
        item_count: request_report::Amount(3),
        order_price: request_report::Price(250),
        unix_time: 0,
    };
    let t = report.traded_at();
    assert_eq!((t.year, t.month, t.day), (1970, 1, 1));
    assert_eq!((t.hour, t.minute, t.second), (0, 0, 0));
    assert_eq!(t.to_display_string(), "1970-01-01 00:00:00");

    let later = request_report::RequestReport { unix_time: 1_431_648_000, ..report };
    assert_eq!(later.traded_at().to_display_string(), "2015-05-15 00:00:00");
    assert_eq!(
        later.to_display_string(),
        "Bakery(#11) => Mill(#22) : ItemId(100) x3 @250G [2015-05-15 00:00:00]"
    );
}

#[test]
fn item_lines_render_name_category_and_class() {
    let it = model_item(5, "apple", 1);
    // The catalogue line keeps the original trailing space.
    let line = so2_tool::api::item::Item {
        category: String::from("food"),
        class: String::from("grocer"),
        item_id: 5,
        limit: 99,
        name: String::from("apple"),
        scale: String::from("unit"),
        sort: 1,
    }
    .to_display_string();
    assert_eq!(line, "apple (food/grocer) ");
    assert_eq!(it.item_id, item::Id(5));
}
