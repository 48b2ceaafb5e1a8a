use so2_tool::api::get_file_path;
use so2_tool::api::model::shop;
use so2_tool::api::schema::{
    AreaSummary, Date, OfficialItem, People, RankingAllMonthly, RankingSectionDaily,
    RankingSectionMonthly, RecipeItem, Report, RequestReport, Sale, Schema, Shop, ShopSummary,
};
use so2_tool::api::cache::Cacheable as PlainCacheable;
use so2_tool::app::cache::{default_cache_root, Cacheable};

#[test]
fn resolve_is_deterministic() {
    let a = RankingSectionMonthly { ym: Date::new(2024, 1, 1), section: String::from("exp_62") };
    let b = RankingSectionMonthly { ym: Date::new(2024, 1, 1), section: String::from("exp_62") };
    assert_eq!(a.file_path(), a.file_path());
    assert_eq!(a.file_path(), b.file_path());
}

#[test]
fn neighbouring_months_get_distinct_files() {
    let jan = RankingSectionMonthly { ym: Date::new(2024, 1, 1), section: String::from("exp_62") };
    let feb = RankingSectionMonthly { ym: Date::new(2024, 2, 1), section: String::from("exp_62") };
    assert_eq!(
        jan.file_path(),
        "ranking/section_monthly/ranking_monthly_exp_62_2024-01.json"
    );
    assert_eq!(
        feb.file_path(),
        "ranking/section_monthly/ranking_monthly_exp_62_2024-02.json"
    );
    assert_ne!(jan.file_path(), feb.file_path());
}

#[test]
fn fixed_families_use_their_literal_names() {
    assert_eq!(OfficialItem.file_path(), "item.json");
    assert_eq!(RecipeItem.file_path(), "recipe_item.json");
    assert_eq!(ShopSummary.file_path(), "shop_summary.json");
    assert_eq!(People.file_path(), "people.json");
    assert_eq!(Sale.file_path(), "sale.json");
    assert_eq!(AreaSummary.file_path(), "area_summary.json");
}

#[test]
fn parametrized_families_embed_their_parameters() {
    let d = Date::new(2024, 3, 5);
    assert_eq!(
        RankingAllMonthly { ym: d }.file_path(),
        "ranking/monthly_all/ranking_monthly_all_2024-03.json"
    );
    assert_eq!(
        RankingSectionDaily { date: d, section: String::from("exp_62") }.file_path(),
        "ranking/daily/ranking_daily_exp_62_2024-03-05.json"
    );
    assert_eq!(
        RequestReport::All { date: d, hour: 7 }.file_path(),
        "request_report/request_report_2024-03-05_7h.json"
    );
    assert_eq!(
        RequestReport::Shop { date: d, shop_id: shop::Id(1234) }.file_path(),
        "request_report/request_report_2024-03-05_#1234.json"
    );
}

#[test]
fn request_report_variants_never_collide() {
    // An hour and a shop id that render to the same digits still differ.
    let d = Date::new(2024, 3, 5);
    let hour = RequestReport::All { date: d, hour: 7 };
    let shop = RequestReport::Shop { date: d, shop_id: shop::Id(7) };
    assert_ne!(hour.file_path(), shop.file_path());
}

#[test]
fn sweepable_families_declare_their_directory() {
    assert_eq!(
        <RankingAllMonthly as Cacheable>::file_dir().as_deref(),
        Some("ranking/monthly_all")
    );
    assert_eq!(
        <RankingSectionMonthly as Cacheable>::file_dir().as_deref(),
        Some("ranking/section_monthly")
    );
    assert_eq!(
        <RankingSectionDaily as Cacheable>::file_dir().as_deref(),
        Some("ranking/daily")
    );
    assert_eq!(
        <RequestReport as Cacheable>::file_dir().as_deref(),
        Some("request_report")
    );
    assert_eq!(<OfficialItem as Cacheable>::file_dir(), None);
    assert_eq!(<Sale as Cacheable>::file_dir(), None);
}

#[test]
fn endpoints_build_their_urls() {
    assert_eq!(
        OfficialItem.endpoint(),
        "https://so2-api.mutoys.com/master/item.json"
    );
    assert_eq!(
        RecipeItem.endpoint(),
        "https://so2-api.mutoys.com/json/master/recipe_item.json"
    );
    assert_eq!(
        so2_tool::api::schema::Area.endpoint(),
        "https://so2-api.mutoys.com/master/area.json"
    );
    assert_eq!(Shop.endpoint(), "https://so2-api.mutoys.com/json/shop/all.json");
    let d = Date::new(2024, 3, 5);
    assert_eq!(
        Report(d).endpoint(),
        "https://so2-api.mutoys.com/json/report/buy20240305.json"
    );
    assert_eq!(
        RankingAllMonthly { ym: d }.endpoint(),
        "https://so2-api.mutoys.com/json/ranking/2024-03/summary.json"
    );
    assert_eq!(
        RankingSectionMonthly { ym: d, section: String::from("exp_62") }.endpoint(),
        "https://so2-api.mutoys.com/json/ranking/2024-03/exp_62.json"
    );
    assert_eq!(
        RankingSectionDaily { date: d, section: String::from("exp_62") }.endpoint(),
        "https://so2-api.mutoys.com/json/ranking/2024-03-05/exp_62.json"
    );
    // The URL pads the hour to two digits; the cache file name does not.
    assert_eq!(
        RequestReport::All { date: d, hour: 7 }.endpoint(),
        "https://so2-api.mutoys.com/json/request/2024/03/05/all/07.json"
    );
    assert_eq!(
        RequestReport::Shop { date: d, shop_id: shop::Id(1234) }.endpoint(),
        "https://so2-api.mutoys.com/json/request/2024/03/05/shop/1234.json"
    );
}

#[test]
fn intervals_follow_the_family() {
    assert_eq!(<OfficialItem as Schema>::min_interval(), 3_600_000);
    assert_eq!(<Sale as Schema>::min_interval(), 600_000);
    assert_eq!(<so2_tool::api::schema::Request as Schema>::min_interval(), 600_000);
    assert_eq!(<People as Schema>::min_interval(), 600_000);
    assert_eq!(<RequestReport as Schema>::min_interval(), 3_600_000);
}

#[test]
fn plain_queries_name_their_cache_files() {
    assert_eq!(so2_tool::api::schema::item::Quely {}.file_path(), "item.json");
    assert_eq!(
        so2_tool::api::schema::people::Request {}.file_path(),
        "people.json"
    );
}

#[test]
fn shared_cache_root_joins_file_names() {
    assert_eq!(default_cache_root(), "data\\api\\cache");
    assert_eq!(get_file_path("item.json"), "data\\api\\cache/item.json");
    assert_eq!(so2_tool::api::api_call_default_interval(), 3_600_000);
}
