//! Cache file locations: every cacheable descriptor resolves to one relative
//! path under the cache root, and no two descriptors share a path.

use vstd::prelude::*;

verus! {

use crate::api::schema::{
    AreaSummary, OfficialItem, People, RankingAllMonthly, RankingSectionDaily,
    RankingSectionMonthly, RecipeItem, RequestReport, Sale, Schema, ShopSummary,
};
use crate::text::{
    lemma_concat_split, lemma_dec_first_is_digit, lemma_dec_inj, lemma_dec_len, lemma_pad2_inj,
    lemma_pad4_inj, push_dec_u32, push_pad2, push_pad4, spec_dec, spec_pad2, spec_pad4,
};

/// The directory a loader caches under unless told otherwise.
pub open spec fn spec_default_cache_root() -> Seq<char> {
    "data\\api\\cache"@
}

/// The directory a loader caches under unless told otherwise.
pub fn default_cache_root() -> (r: String)
    ensures
        r@ == spec_default_cache_root(),
{
    String::from_str("data\\api\\cache")
}

/// The identity of one cache entry: its endpoint family and the parameters
/// that name its file.
pub enum CacheKey {
    /// The official item definitions.
    OfficialItem,
    /// The recipe item definitions.
    RecipeItem,
    /// Shop counts per town.
    ShopSummary,
    /// Town population lists.
    People,
    /// The items on sale.
    Sale,
    /// Town liveliness summaries.
    AreaSummary,
    /// Monthly ranking over all sections.
    RankingAllMonthly { year: int, month: int },
    /// Monthly ranking of one section.
    RankingSectionMonthly { year: int, month: int, section: Seq<char> },
    /// Daily ranking of one section.
    RankingSectionDaily { year: int, month: int, day: int, section: Seq<char> },
    /// Fulfilled orders of one hour.
    RequestReportAll { year: int, month: int, day: int, hour: int },
    /// Fulfilled orders of one shop.
    RequestReportShop { year: int, month: int, day: int, shop: int },
}

/// The ranges a key's parameters lie in: what four- and two-digit fields can
/// carry, and non-negative free-form numbers.
pub open spec fn spec_key_valid(k: CacheKey) -> bool {
    match k {
        CacheKey::OfficialItem => true,
        CacheKey::RecipeItem => true,
        CacheKey::ShopSummary => true,
        CacheKey::People => true,
        CacheKey::Sale => true,
        CacheKey::AreaSummary => true,
        CacheKey::RankingAllMonthly { year, month } => 0 <= year < 10000 && 0 <= month < 100,
        CacheKey::RankingSectionMonthly { year, month, section } => 0 <= year < 10000 && 0 <= month
            < 100,
        CacheKey::RankingSectionDaily { year, month, day, section } => 0 <= year < 10000 && 0
            <= month < 100 && 0 <= day < 100,
        CacheKey::RequestReportAll { year, month, day, hour } => 0 <= year < 10000 && 0 <= month
            < 100 && 0 <= day < 100 && 0 <= hour,
        CacheKey::RequestReportShop { year, month, day, shop } => 0 <= year < 10000 && 0 <= month
            < 100 && 0 <= day < 100 && 0 <= shop,
    }
}

/// The directory an entry's family collects its files in, for families that
/// are swept; entries of other families sit at the cache root directly.
pub open spec fn spec_dir(k: CacheKey) -> Option<Seq<char>> {
    match k {
        CacheKey::RankingAllMonthly { .. } => Option::Some("ranking/monthly_all"@),
        CacheKey::RankingSectionMonthly { .. } => Option::Some("ranking/section_monthly"@),
        CacheKey::RankingSectionDaily { .. } => Option::Some("ranking/daily"@),
        CacheKey::RequestReportAll { .. } => Option::Some("request_report"@),
        CacheKey::RequestReportShop { .. } => Option::Some("request_report"@),
        _ => Option::None,
    }
}

/// A date embedded in a file name: `YYYY-MM-DD`.
pub open spec fn spec_date_name(year: int, month: int, day: int) -> Seq<char> {
    spec_pad4(year) + seq!['-'] + spec_pad2(month) + seq!['-'] + spec_pad2(day)
}

/// The file name of one cache entry.
pub open spec fn spec_file_name(k: CacheKey) -> Seq<char> {
    match k {
        CacheKey::OfficialItem => "item.json"@,
        CacheKey::RecipeItem => "recipe_item.json"@,
        CacheKey::ShopSummary => "shop_summary.json"@,
        CacheKey::People => "people.json"@,
        CacheKey::Sale => "sale.json"@,
        CacheKey::AreaSummary => "area_summary.json"@,
        CacheKey::RankingAllMonthly { year, month } => "ranking_monthly_all_"@ + spec_pad4(year)
            + seq!['-'] + spec_pad2(month) + ".json"@,
        CacheKey::RankingSectionMonthly { year, month, section } => "ranking_monthly_"@ + section
            + seq!['_'] + spec_pad4(year) + seq!['-'] + spec_pad2(month) + ".json"@,
        CacheKey::RankingSectionDaily { year, month, day, section } => "ranking_daily_"@ + section
            + seq!['_'] + spec_date_name(year, month, day) + ".json"@,
        CacheKey::RequestReportAll { year, month, day, hour } => "request_report_"@
            + spec_date_name(year, month, day) + seq!['_'] + spec_dec(hour) + "h.json"@,
        CacheKey::RequestReportShop { year, month, day, shop } => "request_report_"@
            + spec_date_name(year, month, day) + "_#"@ + spec_dec(shop) + ".json"@,
    }
}

/// The relative path of one cache entry under the cache root.
pub open spec fn spec_resolve(k: CacheKey) -> Seq<char> {
    match spec_dir(k) {
        Option::None => spec_file_name(k),
        Option::Some(d) => d + seq!['/'] + spec_file_name(k),
    }
}

/// A code for each endpoint family, in the order of `CacheKey`.
spec fn spec_family_code(k: CacheKey) -> int {
    match k {
        CacheKey::OfficialItem => 0,
        CacheKey::RecipeItem => 1,
        CacheKey::ShopSummary => 2,
        CacheKey::People => 3,
        CacheKey::Sale => 4,
        CacheKey::AreaSummary => 5,
        CacheKey::RankingAllMonthly { .. } => 6,
        CacheKey::RankingSectionMonthly { .. } => 7,
        CacheKey::RankingSectionDaily { .. } => 8,
        CacheKey::RequestReportAll { .. } => 9,
        CacheKey::RequestReportShop { .. } => 10,
    }
}

/// Reads the family code back off a resolved path, by the characters that
/// tell the families apart.
spec fn spec_path_family(s: Seq<char>) -> int {
    if s.len() == 0 {
        -1
    } else if s[0] == 'i' {
        0
    } else if s[0] == 'p' {
        3
    } else if s[0] == 'a' {
        5
    } else if s[0] == 's' {
        if s.len() > 1 && s[1] == 'h' {
            2
        } else {
            4
        }
    } else if s[0] == 'r' {
        if s.len() > 2 && s[2] == 'c' {
            1
        } else if s.len() > 2 && s[2] == 'q' {
            if s.len() > 41 && s[41] == '#' {
                10
            } else {
                9
            }
        } else if s.len() > 8 && s[8] == 'm' {
            6
        } else if s.len() > 8 && s[8] == 's' {
            7
        } else {
            8
        }
    } else {
        -1
    }
}

/// A valid key's resolved path carries its family code.
proof fn lemma_path_family(k: CacheKey)
    requires
        spec_key_valid(k),
    ensures
        spec_path_family(spec_resolve(k)) == spec_family_code(k),
{
    let s = spec_resolve(k);
    match k {
        CacheKey::OfficialItem => {
            reveal_strlit("item.json");
        },
        CacheKey::RecipeItem => {
            reveal_strlit("recipe_item.json");
        },
        CacheKey::ShopSummary => {
            reveal_strlit("shop_summary.json");
        },
        CacheKey::People => {
            reveal_strlit("people.json");
        },
        CacheKey::Sale => {
            reveal_strlit("sale.json");
        },
        CacheKey::AreaSummary => {
            reveal_strlit("area_summary.json");
        },
        CacheKey::RankingAllMonthly { year, month } => {
            reveal_strlit("ranking/monthly_all");
            assert(s[0] == 'r');
            assert(s[2] == 'n');
            assert(s[8] == 'm');
        },
        CacheKey::RankingSectionMonthly { year, month, section } => {
            reveal_strlit("ranking/section_monthly");
            assert(s[0] == 'r');
            assert(s[2] == 'n');
            assert(s[8] == 's');
        },
        CacheKey::RankingSectionDaily { year, month, day, section } => {
            reveal_strlit("ranking/daily");
            assert(s[0] == 'r');
            assert(s[2] == 'n');
            assert(s[8] == 'd');
        },
        CacheKey::RequestReportAll { year, month, day, hour } => {
            reveal_strlit("request_report");
            reveal_strlit("request_report_");
            reveal_strlit("h.json");
            lemma_dec_len(hour);
            let name = spec_file_name(k);
            assert(spec_date_name(year, month, day).len() == 10);
            assert(s[0] == 'r');
            assert(s[2] == 'q');
            assert(s.len() == 15 + name.len());
            assert(name.len() == 26 + spec_dec(hour).len() + 6);
            assert(s[41] == name[26]);
            assert(name[26] == spec_dec(hour)[0]);
            lemma_dec_first_is_digit(hour);
            assert(s[41] != '#');
        },
        CacheKey::RequestReportShop { year, month, day, shop } => {
            reveal_strlit("request_report");
            reveal_strlit("request_report_");
            reveal_strlit("_#");
            reveal_strlit(".json");
            lemma_dec_len(shop);
            let name = spec_file_name(k);
            assert(spec_date_name(year, month, day).len() == 10);
            assert(s[0] == 'r');
            assert(s[2] == 'q');
            assert(s.len() == 15 + name.len());
            assert(name.len() == 25 + 2 + spec_dec(shop).len() + 5);
            assert(s[41] == name[26]);
            assert(name[26] == "_#"@[1]);
            assert(s[41] == '#');
        },
    }
}

/// Two different cache keys never resolve to the same path: within one
/// family the parameters can be read back off the file name, and across
/// families the paths differ in their fixed characters.
#[verifier::rlimit(100)]
pub proof fn lemma_resolve_injective(k1: CacheKey, k2: CacheKey)
    requires
        spec_key_valid(k1),
        spec_key_valid(k2),
        spec_resolve(k1) == spec_resolve(k2),
    ensures
        k1 == k2,
{
    lemma_path_family(k1);
    lemma_path_family(k2);
    match (k1, k2) {
        (
            CacheKey::RankingAllMonthly { year: y1, month: m1 },
            CacheKey::RankingAllMonthly { year: y2, month: m2 },
        ) => {
            reveal_strlit("ranking/monthly_all");
            reveal_strlit("ranking_monthly_all_");
            reveal_strlit(".json");
            let p = "ranking/monthly_all"@ + (seq!['/'] + "ranking_monthly_all_"@);
            let t1 = spec_pad4(y1) + (seq!['-'] + (spec_pad2(m1) + ".json"@));
            let t2 = spec_pad4(y2) + (seq!['-'] + (spec_pad2(m2) + ".json"@));
            assert(spec_resolve(k1) =~= p + t1);
            assert(spec_resolve(k2) =~= p + t2);
            lemma_concat_split(p, t1, p, t2);
            lemma_concat_split(
                spec_pad4(y1),
                seq!['-'] + (spec_pad2(m1) + ".json"@),
                spec_pad4(y2),
                seq!['-'] + (spec_pad2(m2) + ".json"@),
            );
            lemma_pad4_inj(y1, y2);
            lemma_concat_split(
                seq!['-'],
                spec_pad2(m1) + ".json"@,
                seq!['-'],
                spec_pad2(m2) + ".json"@,
            );
            lemma_concat_split(spec_pad2(m1), ".json"@, spec_pad2(m2), ".json"@);
            lemma_pad2_inj(m1, m2);
        },
        (
            CacheKey::RankingSectionMonthly { year: y1, month: m1, section: s1 },
            CacheKey::RankingSectionMonthly { year: y2, month: m2, section: s2 },
        ) => {
            reveal_strlit("ranking/section_monthly");
            reveal_strlit("ranking_monthly_");
            reveal_strlit(".json");
            let p = "ranking/section_monthly"@ + (seq!['/'] + "ranking_monthly_"@);
            let r1 = seq!['_'] + (spec_pad4(y1) + (seq!['-'] + (spec_pad2(m1) + ".json"@)));
            let r2 = seq!['_'] + (spec_pad4(y2) + (seq!['-'] + (spec_pad2(m2) + ".json"@)));
            let t1 = s1 + r1;
            let t2 = s2 + r2;
            assert(spec_resolve(k1) =~= p + t1);
            assert(spec_resolve(k2) =~= p + t2);
            lemma_concat_split(p, t1, p, t2);
            assert(r1.len() == 13 && r2.len() == 13);
            assert(s1.len() == s2.len());
            lemma_concat_split(s1, r1, s2, r2);
            lemma_concat_split(
                seq!['_'],
                spec_pad4(y1) + (seq!['-'] + (spec_pad2(m1) + ".json"@)),
                seq!['_'],
                spec_pad4(y2) + (seq!['-'] + (spec_pad2(m2) + ".json"@)),
            );
            lemma_concat_split(
                spec_pad4(y1),
                seq!['-'] + (spec_pad2(m1) + ".json"@),
                spec_pad4(y2),
                seq!['-'] + (spec_pad2(m2) + ".json"@),
            );
            lemma_pad4_inj(y1, y2);
            lemma_concat_split(
                seq!['-'],
                spec_pad2(m1) + ".json"@,
                seq!['-'],
                spec_pad2(m2) + ".json"@,
            );
            lemma_concat_split(spec_pad2(m1), ".json"@, spec_pad2(m2), ".json"@);
            lemma_pad2_inj(m1, m2);
        },
        (
            CacheKey::RankingSectionDaily { year: y1, month: m1, day: d1, section: s1 },
            CacheKey::RankingSectionDaily { year: y2, month: m2, day: d2, section: s2 },
        ) => {
            reveal_strlit("ranking/daily");
            reveal_strlit("ranking_daily_");
            reveal_strlit(".json");
            let p = "ranking/daily"@ + (seq!['/'] + "ranking_daily_"@);
            let r1 = seq!['_'] + (spec_pad4(y1) + (seq!['-'] + (spec_pad2(m1) + (seq!['-'] + (
            spec_pad2(d1) + ".json"@)))));
            let r2 = seq!['_'] + (spec_pad4(y2) + (seq!['-'] + (spec_pad2(m2) + (seq!['-'] + (
            spec_pad2(d2) + ".json"@)))));
            let t1 = s1 + r1;
            let t2 = s2 + r2;
            assert(spec_resolve(k1) =~= p + t1);
            assert(spec_resolve(k2) =~= p + t2);
            lemma_concat_split(p, t1, p, t2);
            assert(r1.len() == 16 && r2.len() == 16);
            assert(s1.len() == s2.len());
            lemma_concat_split(s1, r1, s2, r2);
            lemma_concat_split(
                seq!['_'],
                spec_pad4(y1) + (seq!['-'] + (spec_pad2(m1) + (seq!['-'] + (spec_pad2(d1)
                    + ".json"@)))),
                seq!['_'],
                spec_pad4(y2) + (seq!['-'] + (spec_pad2(m2) + (seq!['-'] + (spec_pad2(d2)
                    + ".json"@)))),
            );
            lemma_concat_split(
                spec_pad4(y1),
                seq!['-'] + (spec_pad2(m1) + (seq!['-'] + (spec_pad2(d1) + ".json"@))),
                spec_pad4(y2),
                seq!['-'] + (spec_pad2(m2) + (seq!['-'] + (spec_pad2(d2) + ".json"@))),
            );
            lemma_pad4_inj(y1, y2);
            lemma_concat_split(
                seq!['-'],
                spec_pad2(m1) + (seq!['-'] + (spec_pad2(d1) + ".json"@)),
                seq!['-'],
                spec_pad2(m2) + (seq!['-'] + (spec_pad2(d2) + ".json"@)),
            );
            lemma_concat_split(
                spec_pad2(m1),
                seq!['-'] + (spec_pad2(d1) + ".json"@),
                spec_pad2(m2),
                seq!['-'] + (spec_pad2(d2) + ".json"@),
            );
            lemma_pad2_inj(m1, m2);
            lemma_concat_split(
                seq!['-'],
                spec_pad2(d1) + ".json"@,
                seq!['-'],
                spec_pad2(d2) + ".json"@,
            );
            lemma_concat_split(spec_pad2(d1), ".json"@, spec_pad2(d2), ".json"@);
            lemma_pad2_inj(d1, d2);
        },
        (
            CacheKey::RequestReportAll { year: y1, month: m1, day: d1, hour: h1 },
            CacheKey::RequestReportAll { year: y2, month: m2, day: d2, hour: h2 },
        ) => {
            reveal_strlit("request_report");
            reveal_strlit("request_report_");
            reveal_strlit("h.json");
            let p = "request_report"@ + (seq!['/'] + "request_report_"@);
            let t1 = spec_pad4(y1) + (seq!['-'] + (spec_pad2(m1) + (seq!['-'] + (spec_pad2(d1) + (
            seq!['_'] + (spec_dec(h1) + "h.json"@))))));
            let t2 = spec_pad4(y2) + (seq!['-'] + (spec_pad2(m2) + (seq!['-'] + (spec_pad2(d2) + (
            seq!['_'] + (spec_dec(h2) + "h.json"@))))));
            assert(spec_resolve(k1) =~= p + t1);
            assert(spec_resolve(k2) =~= p + t2);
            lemma_concat_split(p, t1, p, t2);
            lemma_concat_split(
                spec_pad4(y1),
                seq!['-'] + (spec_pad2(m1) + (seq!['-'] + (spec_pad2(d1) + (seq!['_'] + (spec_dec(
                    h1,
                ) + "h.json"@))))),
                spec_pad4(y2),
                seq!['-'] + (spec_pad2(m2) + (seq!['-'] + (spec_pad2(d2) + (seq!['_'] + (spec_dec(
                    h2,
                ) + "h.json"@))))),
            );
            lemma_pad4_inj(y1, y2);
            lemma_concat_split(
                seq!['-'],
                spec_pad2(m1) + (seq!['-'] + (spec_pad2(d1) + (seq!['_'] + (spec_dec(h1)
                    + "h.json"@)))),
                seq!['-'],
                spec_pad2(m2) + (seq!['-'] + (spec_pad2(d2) + (seq!['_'] + (spec_dec(h2)
                    + "h.json"@)))),
            );
            lemma_concat_split(
                spec_pad2(m1),
                seq!['-'] + (spec_pad2(d1) + (seq!['_'] + (spec_dec(h1) + "h.json"@))),
                spec_pad2(m2),
                seq!['-'] + (spec_pad2(d2) + (seq!['_'] + (spec_dec(h2) + "h.json"@))),
            );
            lemma_pad2_inj(m1, m2);
            lemma_concat_split(
                seq!['-'],
                spec_pad2(d1) + (seq!['_'] + (spec_dec(h1) + "h.json"@)),
                seq!['-'],
                spec_pad2(d2) + (seq!['_'] + (spec_dec(h2) + "h.json"@)),
            );
            lemma_concat_split(
                spec_pad2(d1),
                seq!['_'] + (spec_dec(h1) + "h.json"@),
                spec_pad2(d2),
                seq!['_'] + (spec_dec(h2) + "h.json"@),
            );
            lemma_pad2_inj(d1, d2);
            lemma_concat_split(
                seq!['_'],
                spec_dec(h1) + "h.json"@,
                seq!['_'],
                spec_dec(h2) + "h.json"@,
            );
            lemma_dec_len(h1);
            lemma_dec_len(h2);
            assert(spec_dec(h1).len() == spec_dec(h2).len());
            lemma_concat_split(spec_dec(h1), "h.json"@, spec_dec(h2), "h.json"@);
            lemma_dec_inj(h1, h2);
        },
        (
            CacheKey::RequestReportShop { year: y1, month: m1, day: d1, shop: i1 },
            CacheKey::RequestReportShop { year: y2, month: m2, day: d2, shop: i2 },
        ) => {
            reveal_strlit("request_report");
            reveal_strlit("request_report_");
            reveal_strlit("_#");
            reveal_strlit(".json");
            let p = "request_report"@ + (seq!['/'] + "request_report_"@);
            let t1 = spec_pad4(y1) + (seq!['-'] + (spec_pad2(m1) + (seq!['-'] + (spec_pad2(d1) + (
            "_#"@ + (spec_dec(i1) + ".json"@))))));
            let t2 = spec_pad4(y2) + (seq!['-'] + (spec_pad2(m2) + (seq!['-'] + (spec_pad2(d2) + (
            "_#"@ + (spec_dec(i2) + ".json"@))))));
            assert(spec_resolve(k1) =~= p + t1);
            assert(spec_resolve(k2) =~= p + t2);
            lemma_concat_split(p, t1, p, t2);
            lemma_concat_split(
                spec_pad4(y1),
                seq!['-'] + (spec_pad2(m1) + (seq!['-'] + (spec_pad2(d1) + ("_#"@ + (spec_dec(i1)
                    + ".json"@))))),
                spec_pad4(y2),
                seq!['-'] + (spec_pad2(m2) + (seq!['-'] + (spec_pad2(d2) + ("_#"@ + (spec_dec(i2)
                    + ".json"@))))),
            );
            lemma_pad4_inj(y1, y2);
            lemma_concat_split(
                seq!['-'],
                spec_pad2(m1) + (seq!['-'] + (spec_pad2(d1) + ("_#"@ + (spec_dec(i1) + ".json"@)))),
                seq!['-'],
                spec_pad2(m2) + (seq!['-'] + (spec_pad2(d2) + ("_#"@ + (spec_dec(i2) + ".json"@)))),
            );
            lemma_concat_split(
                spec_pad2(m1),
                seq!['-'] + (spec_pad2(d1) + ("_#"@ + (spec_dec(i1) + ".json"@))),
                spec_pad2(m2),
                seq!['-'] + (spec_pad2(d2) + ("_#"@ + (spec_dec(i2) + ".json"@))),
            );
            lemma_pad2_inj(m1, m2);
            lemma_concat_split(
                seq!['-'],
                spec_pad2(d1) + ("_#"@ + (spec_dec(i1) + ".json"@)),
                seq!['-'],
                spec_pad2(d2) + ("_#"@ + (spec_dec(i2) + ".json"@)),
            );
            lemma_concat_split(
                spec_pad2(d1),
                "_#"@ + (spec_dec(i1) + ".json"@),
                spec_pad2(d2),
                "_#"@ + (spec_dec(i2) + ".json"@),
            );
            lemma_pad2_inj(d1, d2);
            lemma_concat_split(
                "_#"@,
                spec_dec(i1) + ".json"@,
                "_#"@,
                spec_dec(i2) + ".json"@,
            );
            lemma_dec_len(i1);
            lemma_dec_len(i2);
            assert(spec_dec(i1).len() == spec_dec(i2).len());
            lemma_concat_split(spec_dec(i1), ".json"@, spec_dec(i2), ".json"@);
            lemma_dec_inj(i1, i2);
        },
        _ => {},
    }
}

/// Two well formed cacheable descriptors, of any families, that resolve to
/// the same relative path have the same cache identity: no two distinct
/// entries ever share a file.
pub proof fn lemma_paths_distinct<A: Cacheable, B: Cacheable>(a: &A, b: &B)
    requires
        a.spec_wf(),
        b.spec_wf(),
        spec_resolve(a.spec_key()) == spec_resolve(b.spec_key()),
    ensures
        a.spec_key() == b.spec_key(),
{
    a.key_facts();
    b.key_facts();
    lemma_resolve_injective(a.spec_key(), b.spec_key());
}

/// A descriptor whose responses are cached on disk. It names its cache file;
/// families whose files accumulate name a directory of their own, which the
/// sweep empties of expired files.
pub trait Cacheable: Schema {
    /// The identity of the descriptor's cache entry.
    spec fn spec_key(&self) -> CacheKey;

    /// Whether the descriptor's parameters are well formed (its dates real).
    spec fn spec_wf(&self) -> bool;

    /// The directory of the descriptor's family, the same for every
    /// descriptor of it.
    spec fn spec_family_dir() -> Option<Seq<char>>;

    /// Every descriptor's entry lies in its family's directory, and a well
    /// formed descriptor's parameters lie in the ranges its file name can
    /// carry.
    proof fn key_facts(&self)
        ensures
            spec_dir(self.spec_key()) == Self::spec_family_dir(),
            self.spec_wf() ==> spec_key_valid(self.spec_key()),
    ;

    /// The directory of the descriptor's family, used by the sweep.
    fn file_dir() -> (r: Option<String>)
        ensures
            match r {
                Option::Some(d) => Self::spec_family_dir() == Option::Some(d@),
                Option::None => Self::spec_family_dir() == Option::<Seq<char>>::None,
            },
    ;

    /// The file name of the descriptor's cache entry.
    fn file_name(&self) -> (r: String)
        ensures
            r@ == spec_file_name(self.spec_key()),
    ;

    /// The relative path of the descriptor's cache entry.
    fn file_path(&self) -> (r: String)
        ensures
            r@ == spec_resolve(self.spec_key()),
    ;
}

impl Cacheable for OfficialItem {
    open spec fn spec_key(&self) -> CacheKey {
        CacheKey::OfficialItem
    }

    open spec fn spec_wf(&self) -> bool {
        true
    }

    open spec fn spec_family_dir() -> Option<Seq<char>> {
        Option::None
    }

    proof fn key_facts(&self) {
    }

    fn file_dir() -> (r: Option<String>) {
        Option::None
    }

    fn file_name(&self) -> (r: String) {
        String::from_str("item.json")
    }

    fn file_path(&self) -> (r: String) {
        String::from_str("item.json")
    }
}

impl Cacheable for RecipeItem {
    open spec fn spec_key(&self) -> CacheKey {
        CacheKey::RecipeItem
    }

    open spec fn spec_wf(&self) -> bool {
        true
    }

    open spec fn spec_family_dir() -> Option<Seq<char>> {
        Option::None
    }

    proof fn key_facts(&self) {
    }

    fn file_dir() -> (r: Option<String>) {
        Option::None
    }

    fn file_name(&self) -> (r: String) {
        String::from_str("recipe_item.json")
    }

    fn file_path(&self) -> (r: String) {
        String::from_str("recipe_item.json")
    }
}

impl Cacheable for ShopSummary {
    open spec fn spec_key(&self) -> CacheKey {
        CacheKey::ShopSummary
    }

    open spec fn spec_wf(&self) -> bool {
        true
    }

    open spec fn spec_family_dir() -> Option<Seq<char>> {
        Option::None
    }

    proof fn key_facts(&self) {
    }

    fn file_dir() -> (r: Option<String>) {
        Option::None
    }

    fn file_name(&self) -> (r: String) {
        String::from_str("shop_summary.json")
    }

    fn file_path(&self) -> (r: String) {
        String::from_str("shop_summary.json")
    }
}

impl Cacheable for People {
    open spec fn spec_key(&self) -> CacheKey {
        CacheKey::People
    }

    open spec fn spec_wf(&self) -> bool {
        true
    }

    open spec fn spec_family_dir() -> Option<Seq<char>> {
        Option::None
    }

    proof fn key_facts(&self) {
    }

    fn file_dir() -> (r: Option<String>) {
        Option::None
    }

    fn file_name(&self) -> (r: String) {
        String::from_str("people.json")
    }

    fn file_path(&self) -> (r: String) {
        String::from_str("people.json")
    }
}

impl Cacheable for Sale {
    open spec fn spec_key(&self) -> CacheKey {
        CacheKey::Sale
    }

    open spec fn spec_wf(&self) -> bool {
        true
    }

    open spec fn spec_family_dir() -> Option<Seq<char>> {
        Option::None
    }

    proof fn key_facts(&self) {
    }

    fn file_dir() -> (r: Option<String>) {
        Option::None
    }

    fn file_name(&self) -> (r: String) {
        String::from_str("sale.json")
    }

    fn file_path(&self) -> (r: String) {
        String::from_str("sale.json")
    }
}

impl Cacheable for AreaSummary {
    open spec fn spec_key(&self) -> CacheKey {
        CacheKey::AreaSummary
    }

    open spec fn spec_wf(&self) -> bool {
        true
    }

    open spec fn spec_family_dir() -> Option<Seq<char>> {
        Option::None
    }

    proof fn key_facts(&self) {
    }

    fn file_dir() -> (r: Option<String>) {
        Option::None
    }

    fn file_name(&self) -> (r: String) {
        String::from_str("area_summary.json")
    }

    fn file_path(&self) -> (r: String) {
        String::from_str("area_summary.json")
    }
}

impl Cacheable for RankingAllMonthly {
    open spec fn spec_key(&self) -> CacheKey {
        CacheKey::RankingAllMonthly { year: self.ym.year as int, month: self.ym.month as int }
    }

    open spec fn spec_wf(&self) -> bool {
        self.ym.is_valid()
    }

    open spec fn spec_family_dir() -> Option<Seq<char>> {
        Option::Some("ranking/monthly_all"@)
    }

    proof fn key_facts(&self) {
    }

    fn file_dir() -> (r: Option<String>) {
        Option::Some(String::from_str("ranking/monthly_all"))
    }

    fn file_name(&self) -> (r: String) {
        let mut r = String::from_str("ranking_monthly_all_");
        push_pad4(&mut r, self.ym.year);
        r.append("-");
        push_pad2(&mut r, self.ym.month);
        r.append(".json");
        proof {
            reveal_strlit("-");
            assert(r@ =~= spec_file_name(self.spec_key()));
        }
        r
    }

    fn file_path(&self) -> (r: String) {
        let mut r = String::from_str("ranking/monthly_all/ranking_monthly_all_");
        push_pad4(&mut r, self.ym.year);
        r.append("-");
        push_pad2(&mut r, self.ym.month);
        r.append(".json");
        proof {
            reveal_strlit("-");
            reveal_strlit("ranking/monthly_all/ranking_monthly_all_");
            reveal_strlit("ranking/monthly_all");
            reveal_strlit("ranking_monthly_all_");
            assert(r@ =~= spec_resolve(self.spec_key()));
        }
        r
    }
}

impl Cacheable for RankingSectionMonthly {
    open spec fn spec_key(&self) -> CacheKey {
        CacheKey::RankingSectionMonthly {
            year: self.ym.year as int,
            month: self.ym.month as int,
            section: self.section@,
        }
    }

    open spec fn spec_wf(&self) -> bool {
        self.ym.is_valid()
    }

    open spec fn spec_family_dir() -> Option<Seq<char>> {
        Option::Some("ranking/section_monthly"@)
    }

    proof fn key_facts(&self) {
    }

    fn file_dir() -> (r: Option<String>) {
        Option::Some(String::from_str("ranking/section_monthly"))
    }

    fn file_name(&self) -> (r: String) {
        let mut r = String::from_str("ranking_monthly_");
        r.append(self.section.as_str());
        r.append("_");
        push_pad4(&mut r, self.ym.year);
        r.append("-");
        push_pad2(&mut r, self.ym.month);
        r.append(".json");
        proof {
            reveal_strlit("-");
            reveal_strlit("_");
            assert(r@ =~= spec_file_name(self.spec_key()));
        }
        r
    }

    fn file_path(&self) -> (r: String) {
        let mut r = String::from_str("ranking/section_monthly/ranking_monthly_");
        r.append(self.section.as_str());
        r.append("_");
        push_pad4(&mut r, self.ym.year);
        r.append("-");
        push_pad2(&mut r, self.ym.month);
        r.append(".json");
        proof {
            reveal_strlit("-");
            reveal_strlit("_");
            reveal_strlit("ranking/section_monthly/ranking_monthly_");
            reveal_strlit("ranking/section_monthly");
            reveal_strlit("ranking_monthly_");
            assert(r@ =~= spec_resolve(self.spec_key()));
        }
        r
    }
}

impl Cacheable for RankingSectionDaily {
    open spec fn spec_key(&self) -> CacheKey {
        CacheKey::RankingSectionDaily {
            year: self.date.year as int,
            month: self.date.month as int,
            day: self.date.day as int,
            section: self.section@,
        }
    }

    open spec fn spec_wf(&self) -> bool {
        self.date.is_valid()
    }

    open spec fn spec_family_dir() -> Option<Seq<char>> {
        Option::Some("ranking/daily"@)
    }

    proof fn key_facts(&self) {
    }

    fn file_dir() -> (r: Option<String>) {
        Option::Some(String::from_str("ranking/daily"))
    }

    fn file_name(&self) -> (r: String) {
        let mut r = String::from_str("ranking_daily_");
        r.append(self.section.as_str());
        r.append("_");
        push_pad4(&mut r, self.date.year);
        r.append("-");
        push_pad2(&mut r, self.date.month);
        r.append("-");
        push_pad2(&mut r, self.date.day);
        r.append(".json");
        proof {
            reveal_strlit("-");
            reveal_strlit("_");
            assert(r@ =~= spec_file_name(self.spec_key()));
        }
        r
    }

    fn file_path(&self) -> (r: String) {
        let mut r = String::from_str("ranking/daily/ranking_daily_");
        r.append(self.section.as_str());
        r.append("_");
        push_pad4(&mut r, self.date.year);
        r.append("-");
        push_pad2(&mut r, self.date.month);
        r.append("-");
        push_pad2(&mut r, self.date.day);
        r.append(".json");
        proof {
            reveal_strlit("-");
            reveal_strlit("_");
            reveal_strlit("ranking/daily/ranking_daily_");
            reveal_strlit("ranking/daily");
            reveal_strlit("ranking_daily_");
            assert(r@ =~= spec_resolve(self.spec_key()));
        }
        r
    }
}

impl Cacheable for RequestReport {
    open spec fn spec_key(&self) -> CacheKey {
        match *self {
            RequestReport::All { date, hour } => CacheKey::RequestReportAll {
                year: date.year as int,
                month: date.month as int,
                day: date.day as int,
                hour: hour as int,
            },
            RequestReport::Shop { date, shop_id } => CacheKey::RequestReportShop {
                year: date.year as int,
                month: date.month as int,
                day: date.day as int,
                shop: shop_id.0 as int,
            },
        }
    }

    open spec fn spec_wf(&self) -> bool {
        match *self {
            RequestReport::All { date, hour } => date.is_valid(),
            RequestReport::Shop { date, shop_id } => date.is_valid(),
        }
    }

    open spec fn spec_family_dir() -> Option<Seq<char>> {
        Option::Some("request_report"@)
    }

    proof fn key_facts(&self) {
    }

    fn file_dir() -> (r: Option<String>) {
        Option::Some(String::from_str("request_report"))
    }

    fn file_name(&self) -> (r: String) {
        let mut r = String::from_str("request_report_");
        match self {
            RequestReport::All { date, hour } => {
                push_pad4(&mut r, date.year);
                r.append("-");
                push_pad2(&mut r, date.month);
                r.append("-");
                push_pad2(&mut r, date.day);
                r.append("_");
                push_dec_u32(&mut r, *hour as u32);
                r.append("h.json");
            },
            RequestReport::Shop { date, shop_id } => {
                push_pad4(&mut r, date.year);
                r.append("-");
                push_pad2(&mut r, date.month);
                r.append("-");
                push_pad2(&mut r, date.day);
                r.append("_#");
                push_dec_u32(&mut r, shop_id.0);
                r.append(".json");
            },
        }
        proof {
            reveal_strlit("-");
            reveal_strlit("_");
            reveal_strlit("_#");
            assert(r@ =~= spec_file_name(self.spec_key()));
        }
        r
    }

    fn file_path(&self) -> (r: String) {
        let mut r = String::from_str("request_report/request_report_");
        match self {
            RequestReport::All { date, hour } => {
                push_pad4(&mut r, date.year);
                r.append("-");
                push_pad2(&mut r, date.month);
                r.append("-");
                push_pad2(&mut r, date.day);
                r.append("_");
                push_dec_u32(&mut r, *hour as u32);
                r.append("h.json");
            },
            RequestReport::Shop { date, shop_id } => {
                push_pad4(&mut r, date.year);
                r.append("-");
                push_pad2(&mut r, date.month);
                r.append("-");
                push_pad2(&mut r, date.day);
                r.append("_#");
                push_dec_u32(&mut r, shop_id.0);
                r.append(".json");
            },
        }
        proof {
            reveal_strlit("-");
            reveal_strlit("_");
            reveal_strlit("_#");
            reveal_strlit("request_report/request_report_");
            reveal_strlit("request_report");
            reveal_strlit("request_report_");
            assert(r@ =~= spec_resolve(self.spec_key()));
        }
        r
    }
}

} // verus!
