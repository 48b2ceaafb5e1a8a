//! The endpoint catalogue: one descriptor type per endpoint family, each
//! declaring its request URL, its staleness interval and its byte fixup.

use vstd::prelude::*;

pub mod item;
pub mod people;

verus! {

use crate::api::model::shop;
use crate::text::{push_dec_u32, push_pad2, push_pad4, spec_dec, spec_pad2, spec_pad4};

/// A calendar date, as endpoint parameters carry it.
#[derive(Debug, Clone, Copy, PartialEq, Eq, Structural)]
pub struct Date {
    /// Year, below 10000.
    pub year: u16,
    /// Month, one-based.
    pub month: u8,
    /// Day, one-based.
    pub day: u8,
}

impl Date {
    /// The ranges a date's fields lie in.
    pub open spec fn is_valid(&self) -> bool {
        self.year < 10000 && 1 <= self.month <= 12 && 1 <= self.day <= 31
    }

    /// Builds a date from its parts.
    pub fn new(year: u16, month: u8, day: u8) -> (r: Date)
        requires
            year < 10000,
            1 <= month <= 12,
            1 <= day <= 31,
        ensures
            r == (Date { year, month, day }),
            r.is_valid(),
    {
        Date { year, month, day }
    }
}

/// What the loader needs of one endpoint family: where to fetch, how many
/// milliseconds a cached response stays fresh, and which byte fixup to apply
/// before parsing.
pub trait Schema {
    /// The request URL.
    spec fn spec_endpoint(&self) -> Seq<char>;

    /// Builds the request URL.
    fn endpoint(&self) -> (r: String)
        ensures
            r@ == self.spec_endpoint(),
    ;

    /// Milliseconds a cached response stays fresh.
    spec fn spec_min_interval() -> u64;

    /// Milliseconds a cached response stays fresh.
    fn min_interval() -> (r: u64)
        ensures
            r == Self::spec_min_interval(),
    ;

    /// The byte fixup applied before parsing.
    spec fn spec_formatter(&self) -> Formatter;

    /// The byte fixup applied before parsing.
    fn formatter(&self) -> (r: Formatter)
        ensures
            r == self.spec_formatter(),
    ;
}

/// The official item definitions.
#[derive(Debug, Clone, Copy)]
pub struct OfficialItem;

/// The recipe item definitions.
#[derive(Debug, Clone, Copy)]
pub struct RecipeItem;

/// The town definitions.
#[derive(Debug, Clone, Copy)]
pub struct Area;

/// The purchase report of one day.
#[derive(Debug, Clone, Copy)]
pub struct Report(pub Date);

/// Monthly ranking, top three of every section.
#[derive(Debug, Clone, Copy)]
pub struct RankingAllMonthly {
    /// The month, given as any date inside it.
    pub ym: Date,
}

/// Monthly ranking of one section, top thousand.
#[derive(Debug)]
pub struct RankingSectionMonthly {
    /// The month, given as any date inside it.
    pub ym: Date,
    /// Section name.
    pub section: String,
}

/// Daily ranking of one section, top thousand.
#[derive(Debug)]
pub struct RankingSectionDaily {
    /// The day.
    pub date: Date,
    /// Section name.
    pub section: String,
}

/// The items on sale.
#[derive(Debug, Clone, Copy)]
pub struct Sale;

/// The standing buy orders.
#[derive(Debug, Clone, Copy)]
pub struct Request;

/// Shop counts per town.
#[derive(Debug, Clone, Copy)]
pub struct ShopSummary;

/// The full shop list.
#[derive(Debug, Clone, Copy)]
pub struct Shop;

/// Town population lists.
#[derive(Debug, Clone, Copy)]
pub struct People;

/// Fulfilled buy orders, of one hour or of one shop.
#[derive(Debug, Clone, Copy)]
pub enum RequestReport {
    /// Every order fulfilled in one hour of one day.
    All {
        /// The day.
        date: Date,
        /// The hour.
        hour: u8,
    },
    /// Every order of one shop fulfilled on one day.
    Shop {
        /// The day.
        date: Date,
        /// The shop.
        shop_id: shop::Id,
    },
}

/// Town liveliness summaries.
#[derive(Debug, Clone, Copy)]
pub struct AreaSummary;

/// The byte fixup a descriptor declares for the provider's raw response.
#[derive(Debug, Default, Clone, Copy, PartialEq, Eq, Structural)]
pub enum Formatter {
    /// The bytes are parsed as they came.
    #[default]
    Plain,
    /// The provider sends a bare comma-separated fragment: strip a trailing
    /// comma and wrap the bytes in brackets.
    Special,
}

/// The byte of `[`.
pub const BRACKET_OPEN: u8 = 91;

/// The byte of `]`.
pub const BRACKET_CLOSE: u8 = 93;

/// The byte of `,`.
pub const COMMA: u8 = 44;

/// What a fixup makes of the raw bytes. The bracket fixup drops a trailing
/// comma and wraps the rest in `[` and `]`.
pub open spec fn spec_format(f: Formatter, bytes: Seq<u8>) -> Seq<u8> {
    match f {
        Formatter::Plain => bytes,
        Formatter::Special => seq![BRACKET_OPEN] + (if bytes.len() > 0 && bytes.last() == COMMA {
            bytes.drop_last()
        } else {
            bytes
        }) + seq![BRACKET_CLOSE],
    }
}

impl Formatter {
    /// Applies the fixup to the raw bytes.
    pub fn format(&self, bytes: &Vec<u8>) -> (r: Vec<u8>)
        ensures
            r@ == spec_format(*self, bytes@),
    {
        match self {
            Formatter::Plain => {
                let mut v: Vec<u8> = Vec::new();
                let mut i: usize = 0;
                while i < bytes.len()
                    invariant
                        i <= bytes.len(),
                        v@ =~= bytes@.subrange(0, i as int),
                    decreases bytes.len() - i,
                {
                    v.push(bytes[i]);
                    i += 1;
                }
                proof {
                    assert(v@ =~= bytes@);
                }
                v
            },
            Formatter::Special => {
                let mut v: Vec<u8> = Vec::new();
                v.push(BRACKET_OPEN);
                let mut i: usize = 0;
                while i < bytes.len()
                    invariant
                        i <= bytes.len(),
                        v@ =~= seq![BRACKET_OPEN] + bytes@.subrange(0, i as int),
                    decreases bytes.len() - i,
                {
                    v.push(bytes[i]);
                    i += 1;
                }
                proof {
                    assert(v@ =~= seq![BRACKET_OPEN] + bytes@);
                }
                if v.len() > 1 && v[v.len() - 1] == COMMA {
                    v.pop();
                    proof {
                        assert(bytes@.len() > 0 && bytes@.last() == COMMA);
                        assert(v@ =~= seq![BRACKET_OPEN] + bytes@.drop_last());
                    }
                }
                v.push(BRACKET_CLOSE);
                proof {
                    assert(v@ =~= spec_format(*self, bytes@));
                }
                v
            },
        }
    }
}

impl Schema for OfficialItem {
    open spec fn spec_endpoint(&self) -> Seq<char> {
        "https://so2-api.mutoys.com/master/item.json"@
    }

    fn endpoint(&self) -> (r: String) {
        String::from_str("https://so2-api.mutoys.com/master/item.json")
    }

    open spec fn spec_min_interval() -> u64 {
        3_600_000
    }

    fn min_interval() -> (r: u64) {
        3_600_000
    }

    open spec fn spec_formatter(&self) -> Formatter {
        Formatter::Plain
    }

    fn formatter(&self) -> (r: Formatter) {
        Formatter::Plain
    }
}

impl Schema for RecipeItem {
    open spec fn spec_endpoint(&self) -> Seq<char> {
        "https://so2-api.mutoys.com/json/master/recipe_item.json"@
    }

    fn endpoint(&self) -> (r: String) {
        String::from_str("https://so2-api.mutoys.com/json/master/recipe_item.json")
    }

    open spec fn spec_min_interval() -> u64 {
        3_600_000
    }

    fn min_interval() -> (r: u64) {
        3_600_000
    }

    open spec fn spec_formatter(&self) -> Formatter {
        Formatter::Plain
    }

    fn formatter(&self) -> (r: Formatter) {
        Formatter::Plain
    }
}

impl Schema for Area {
    open spec fn spec_endpoint(&self) -> Seq<char> {
        "https://so2-api.mutoys.com/master/area.json"@
    }

    fn endpoint(&self) -> (r: String) {
        String::from_str("https://so2-api.mutoys.com/master/area.json")
    }

    open spec fn spec_min_interval() -> u64 {
        3_600_000
    }

    fn min_interval() -> (r: u64) {
        3_600_000
    }

    open spec fn spec_formatter(&self) -> Formatter {
        Formatter::Plain
    }

    fn formatter(&self) -> (r: Formatter) {
        Formatter::Plain
    }
}

impl Schema for Report {
    open spec fn spec_endpoint(&self) -> Seq<char> {
        "https://so2-api.mutoys.com/json/report/buy"@ + spec_pad4(self.0.year as int) + spec_pad2(
            self.0.month as int,
        ) + spec_pad2(self.0.day as int) + ".json"@
    }

    fn endpoint(&self) -> (r: String) {
        let mut r = String::from_str("https://so2-api.mutoys.com/json/report/buy");
        push_pad4(&mut r, self.0.year);
        push_pad2(&mut r, self.0.month);
        push_pad2(&mut r, self.0.day);
        r.append(".json");
        proof {
            assert(r@ =~= self.spec_endpoint());
        }
        r
    }

    open spec fn spec_min_interval() -> u64 {
        3_600_000
    }

    fn min_interval() -> (r: u64) {
        3_600_000
    }

    open spec fn spec_formatter(&self) -> Formatter {
        Formatter::Plain
    }

    fn formatter(&self) -> (r: Formatter) {
        Formatter::Plain
    }
}

impl Schema for RankingAllMonthly {
    open spec fn spec_endpoint(&self) -> Seq<char> {
        "https://so2-api.mutoys.com/json/ranking/"@ + spec_pad4(self.ym.year as int) + seq!['-']
            + spec_pad2(self.ym.month as int) + "/summary.json"@
    }

    fn endpoint(&self) -> (r: String) {
        let mut r = String::from_str("https://so2-api.mutoys.com/json/ranking/");
        push_pad4(&mut r, self.ym.year);
        r.append("-");
        push_pad2(&mut r, self.ym.month);
        r.append("/summary.json");
        proof {
            reveal_strlit("-");
            assert(r@ =~= self.spec_endpoint());
        }
        r
    }

    open spec fn spec_min_interval() -> u64 {
        3_600_000
    }

    fn min_interval() -> (r: u64) {
        3_600_000
    }

    open spec fn spec_formatter(&self) -> Formatter {
        Formatter::Plain
    }

    fn formatter(&self) -> (r: Formatter) {
        Formatter::Plain
    }
}

impl Schema for RankingSectionMonthly {
    open spec fn spec_endpoint(&self) -> Seq<char> {
        "https://so2-api.mutoys.com/json/ranking/"@ + spec_pad4(self.ym.year as int) + seq!['-']
            + spec_pad2(self.ym.month as int) + seq!['/'] + self.section@ + ".json"@
    }

    fn endpoint(&self) -> (r: String) {
        let mut r = String::from_str("https://so2-api.mutoys.com/json/ranking/");
        push_pad4(&mut r, self.ym.year);
        r.append("-");
        push_pad2(&mut r, self.ym.month);
        r.append("/");
        r.append(self.section.as_str());
        r.append(".json");
        proof {
            reveal_strlit("-");
            reveal_strlit("/");
            assert(r@ =~= self.spec_endpoint());
        }
        r
    }

    open spec fn spec_min_interval() -> u64 {
        3_600_000
    }

    fn min_interval() -> (r: u64) {
        3_600_000
    }

    open spec fn spec_formatter(&self) -> Formatter {
        Formatter::Plain
    }

    fn formatter(&self) -> (r: Formatter) {
        Formatter::Plain
    }
}

impl Schema for RankingSectionDaily {
    open spec fn spec_endpoint(&self) -> Seq<char> {
        "https://so2-api.mutoys.com/json/ranking/"@ + spec_pad4(self.date.year as int) + seq!['-']
            + spec_pad2(self.date.month as int) + seq!['-'] + spec_pad2(self.date.day as int)
            + seq!['/'] + self.section@ + ".json"@
    }

    fn endpoint(&self) -> (r: String) {
        let mut r = String::from_str("https://so2-api.mutoys.com/json/ranking/");
        push_pad4(&mut r, self.date.year);
        r.append("-");
        push_pad2(&mut r, self.date.month);
        r.append("-");
        push_pad2(&mut r, self.date.day);
        r.append("/");
        r.append(self.section.as_str());
        r.append(".json");
        proof {
            reveal_strlit("-");
            reveal_strlit("/");
            assert(r@ =~= self.spec_endpoint());
        }
        r
    }

    open spec fn spec_min_interval() -> u64 {
        3_600_000
    }

    fn min_interval() -> (r: u64) {
        3_600_000
    }

    open spec fn spec_formatter(&self) -> Formatter {
        Formatter::Plain
    }

    fn formatter(&self) -> (r: Formatter) {
        Formatter::Plain
    }
}

impl Schema for Sale {
    open spec fn spec_endpoint(&self) -> Seq<char> {
        "https://so2-api.mutoys.com/json/sale/all.json"@
    }

    fn endpoint(&self) -> (r: String) {
        String::from_str("https://so2-api.mutoys.com/json/sale/all.json")
    }

    open spec fn spec_min_interval() -> u64 {
        600_000
    }

    fn min_interval() -> (r: u64) {
        600_000
    }

    open spec fn spec_formatter(&self) -> Formatter {
        Formatter::Plain
    }

    fn formatter(&self) -> (r: Formatter) {
        Formatter::Plain
    }
}

impl Schema for Request {
    open spec fn spec_endpoint(&self) -> Seq<char> {
        "https://so2-api.mutoys.com/json/request/all.json"@
    }

    fn endpoint(&self) -> (r: String) {
        String::from_str("https://so2-api.mutoys.com/json/request/all.json")
    }

    open spec fn spec_min_interval() -> u64 {
        600_000
    }

    fn min_interval() -> (r: u64) {
        600_000
    }

    open spec fn spec_formatter(&self) -> Formatter {
        Formatter::Plain
    }

    fn formatter(&self) -> (r: Formatter) {
        Formatter::Plain
    }
}

impl Schema for ShopSummary {
    open spec fn spec_endpoint(&self) -> Seq<char> {
        "https://so2-api.mutoys.com/json/shop/summary.json"@
    }

    fn endpoint(&self) -> (r: String) {
        String::from_str("https://so2-api.mutoys.com/json/shop/summary.json")
    }

    open spec fn spec_min_interval() -> u64 {
        3_600_000
    }

    fn min_interval() -> (r: u64) {
        3_600_000
    }

    open spec fn spec_formatter(&self) -> Formatter {
        Formatter::Plain
    }

    fn formatter(&self) -> (r: Formatter) {
        Formatter::Plain
    }
}

impl Schema for Shop {
    open spec fn spec_endpoint(&self) -> Seq<char> {
        "https://so2-api.mutoys.com/json/shop/all.json"@
    }

    fn endpoint(&self) -> (r: String) {
        String::from_str("https://so2-api.mutoys.com/json/shop/all.json")
    }

    open spec fn spec_min_interval() -> u64 {
        3_600_000
    }

    fn min_interval() -> (r: u64) {
        3_600_000
    }

    open spec fn spec_formatter(&self) -> Formatter {
        Formatter::Plain
    }

    fn formatter(&self) -> (r: Formatter) {
        Formatter::Plain
    }
}

impl Schema for People {
    open spec fn spec_endpoint(&self) -> Seq<char> {
        "https://so2-api.mutoys.com/json/people/all.json"@
    }

    fn endpoint(&self) -> (r: String) {
        String::from_str("https://so2-api.mutoys.com/json/people/all.json")
    }

    open spec fn spec_min_interval() -> u64 {
        600_000
    }

    fn min_interval() -> (r: u64) {
        600_000
    }

    open spec fn spec_formatter(&self) -> Formatter {
        Formatter::Plain
    }

    fn formatter(&self) -> (r: Formatter) {
        Formatter::Plain
    }
}

impl Schema for RequestReport {
    open spec fn spec_endpoint(&self) -> Seq<char> {
        match *self {
            RequestReport::All { date, hour } => "https://so2-api.mutoys.com/json/request/"@
                + spec_pad4(date.year as int) + seq!['/'] + spec_pad2(date.month as int)
                + seq!['/'] + spec_pad2(date.day as int) + "/all/"@ + spec_pad2(hour as int)
                + ".json"@,
            RequestReport::Shop { date, shop_id } => "https://so2-api.mutoys.com/json/request/"@
                + spec_pad4(date.year as int) + seq!['/'] + spec_pad2(date.month as int)
                + seq!['/'] + spec_pad2(date.day as int) + "/shop/"@ + spec_dec(shop_id.0 as int)
                + ".json"@,
        }
    }

    fn endpoint(&self) -> (r: String) {
        let mut r = String::from_str("https://so2-api.mutoys.com/json/request/");
        match self {
            RequestReport::All { date, hour } => {
                push_pad4(&mut r, date.year);
                r.append("/");
                push_pad2(&mut r, date.month);
                r.append("/");
                push_pad2(&mut r, date.day);
                r.append("/all/");
                push_pad2(&mut r, *hour);
                r.append(".json");
            },
            RequestReport::Shop { date, shop_id } => {
                push_pad4(&mut r, date.year);
                r.append("/");
                push_pad2(&mut r, date.month);
                r.append("/");
                push_pad2(&mut r, date.day);
                r.append("/shop/");
                push_dec_u32(&mut r, shop_id.0);
                r.append(".json");
            },
        }
        proof {
            reveal_strlit("/");
            assert(r@ =~= self.spec_endpoint());
        }
        r
    }

    open spec fn spec_min_interval() -> u64 {
        3_600_000
    }

    fn min_interval() -> (r: u64) {
        3_600_000
    }

    open spec fn spec_formatter(&self) -> Formatter {
        Formatter::Special
    }

    fn formatter(&self) -> (r: Formatter) {
        Formatter::Special
    }
}

impl Schema for AreaSummary {
    open spec fn spec_endpoint(&self) -> Seq<char> {
        "https://so2-api.mutoys.com/json/area/summary.json"@
    }

    fn endpoint(&self) -> (r: String) {
        String::from_str("https://so2-api.mutoys.com/json/area/summary.json")
    }

    open spec fn spec_min_interval() -> u64 {
        3_600_000
    }

    fn min_interval() -> (r: u64) {
        3_600_000
    }

    open spec fn spec_formatter(&self) -> Formatter {
        Formatter::Plain
    }

    fn formatter(&self) -> (r: Formatter) {
        Formatter::Plain
    }
}

} // verus!
